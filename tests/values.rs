use parcel_css::number::Decimal;
use parcel_css::values::{Length, LengthPercentage, LengthUnit};

fn dec(scaled: i64) -> Decimal {
    Decimal { scaled }
}

fn text(d: Decimal) -> String {
    let mut out = String::new();
    d.write_to(&mut out);
    out
}

#[test]
fn decimal_integer_text() {
    assert_eq!(text(dec(100 * 100000)), "100");
    assert_eq!(text(dec(0)), "0");
}

#[test]
fn decimal_fraction_text() {
    assert_eq!(text(dec(50000)), "0.5");
    assert_eq!(text(dec(-125000)), "-1.25");
    assert_eq!(text(dec(1)), "0.00001");
    assert_eq!(text(dec(1230)), "0.0123");
}

#[test]
fn length_text_has_unit() {
    let mut out = String::new();
    Length { value: dec(1050000), unit: LengthUnit::Rem }.write_to(&mut out);
    assert_eq!(out, "10.5rem");
    let mut out = String::new();
    LengthPercentage::Percentage(dec(2500000)).write_to(&mut out);
    assert_eq!(out, "25%");
}
