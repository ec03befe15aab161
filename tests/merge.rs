use parcel_css::border_radius::{BorderRadius, BorderRadiusHandler, TargetPrefixes};
use parcel_css::number::Decimal;
use parcel_css::outline::{BorderSideWidth, BorderStyle, CssColor, Outline, OutlineHandler, OutlineStyle};
use parcel_css::prefix::VendorPrefix;
use parcel_css::property::{Property, Size2D};
use parcel_css::values::{Length, LengthPercentage, LengthUnit};

fn px(n: i64) -> LengthPercentage {
    LengthPercentage::Dimension(Length { value: Decimal { scaled: n * 100000 }, unit: LengthUnit::Px })
}

fn r(n: i64) -> Size2D<LengthPercentage> {
    Size2D(px(n), px(n))
}

#[test]
fn common_prefix_becomes_shorthand() {
    let mut h = BorderRadiusHandler::new(None);
    let none = VendorPrefix::none();
    let webkit = VendorPrefix::webkit();
    assert!(h.handle_property(&Property::BorderTopLeftRadius(r(1), none)));
    assert!(h.handle_property(&Property::BorderTopLeftRadius(r(1), webkit)));
    assert!(h.handle_property(&Property::BorderTopRightRadius(r(1), none)));
    assert!(h.handle_property(&Property::BorderBottomLeftRadius(r(1), none)));
    assert!(h.handle_property(&Property::BorderBottomRightRadius(r(1), none)));
    let out = h.finalize();
    assert_eq!(
        out,
        vec![
            Property::BorderRadius(
                BorderRadius { top_left: r(1), top_right: r(1), bottom_left: r(1), bottom_right: r(1) },
                none
            ),
            Property::BorderTopLeftRadius(r(1), webkit),
        ]
    );
}

#[test]
fn differing_prefixed_value_flushes_first() {
    let mut h = BorderRadiusHandler::new(None);
    h.handle_property(&Property::BorderTopLeftRadius(r(1), VendorPrefix::webkit()));
    h.handle_property(&Property::BorderTopLeftRadius(r(2), VendorPrefix::none()));
    let out = h.finalize();
    assert_eq!(
        out,
        vec![
            Property::BorderTopLeftRadius(r(1), VendorPrefix::webkit()),
            Property::BorderTopLeftRadius(r(2), VendorPrefix::none()),
        ]
    );
}

#[test]
fn unprefixed_resolves_through_targets() {
    let both = VendorPrefix::webkit().union(&VendorPrefix::none());
    let targets = TargetPrefixes {
        border_radius: both,
        border_top_left_radius: both,
        border_top_right_radius: both,
        border_bottom_left_radius: both,
        border_bottom_right_radius: both,
    };
    let mut h = BorderRadiusHandler::new(Some(targets));
    let all = BorderRadius { top_left: r(3), top_right: r(3), bottom_left: r(3), bottom_right: r(3) };
    h.handle_property(&Property::BorderRadius(all, VendorPrefix::none()));
    assert_eq!(h.finalize(), vec![Property::BorderRadius(all, both)]);
}

#[test]
fn logical_corners_keep_order_and_go_first() {
    let mut h = BorderRadiusHandler::new(None);
    h.handle_property(&Property::BorderTopLeftRadius(r(1), VendorPrefix::none()));
    h.handle_property(&Property::BorderStartStartRadius(r(4)));
    h.handle_property(&Property::BorderEndEndRadius(r(5)));
    h.handle_property(&Property::BorderTopRightRadius(r(2), VendorPrefix::none()));
    assert_eq!(
        h.finalize(),
        vec![
            Property::BorderTopLeftRadius(r(1), VendorPrefix::none()),
            Property::BorderStartStartRadius(r(4)),
            Property::BorderEndEndRadius(r(5)),
            Property::BorderTopRightRadius(r(2), VendorPrefix::none()),
        ]
    );
}

#[test]
fn other_properties_are_not_taken() {
    let mut h = BorderRadiusHandler::new(None);
    assert!(!h.handle_property(&Property::Opacity(Decimal { scaled: 50000 })));
    assert_eq!(h.finalize(), vec![]);
    let mut h = BorderRadiusHandler::new(None);
    h.flush();
    h.flush();
    assert_eq!(h.finalize(), vec![]);
}

#[test]
fn prefix_set_operations() {
    let a = VendorPrefix::webkit().union(&VendorPrefix::moz());
    let b = VendorPrefix::moz().union(&VendorPrefix::o());
    assert_eq!(a.intersect(&b), VendorPrefix::moz());
    assert_eq!(a.remove(&b), VendorPrefix::webkit());
    assert!(a.contains(&VendorPrefix::webkit()));
    assert!(!a.contains(&b));
    assert!(a.remove(&a).is_empty());
}

#[test]
fn outline_parts_become_shorthand() {
    let red = CssColor::Rgba(255, 0, 0, 255);
    let two = BorderSideWidth::Length(Length { value: Decimal { scaled: 200000 }, unit: LengthUnit::Px });
    let solid = OutlineStyle::BorderStyle(BorderStyle::Solid);
    let mut h = OutlineHandler::default();
    assert!(h.handle_property(&Property::OutlineColor(red)));
    assert!(h.handle_property(&Property::OutlineStyle(solid)));
    assert!(h.handle_property(&Property::OutlineWidth(two)));
    assert_eq!(h.finalize(), vec![Property::Outline(Outline { width: two, style: solid, color: red })]);
    assert_eq!(h.finalize(), vec![]);
}

#[test]
fn outline_partial_parts_stay_separate() {
    let red = CssColor::Rgba(255, 0, 0, 255);
    let mut h = OutlineHandler::default();
    h.handle_property(&Property::OutlineWidth(BorderSideWidth::Thin));
    h.handle_property(&Property::OutlineColor(red));
    assert!(!h.handle_property(&Property::Opacity(Decimal { scaled: 0 })));
    assert_eq!(
        h.finalize(),
        vec![Property::OutlineColor(red), Property::OutlineWidth(BorderSideWidth::Thin)]
    );
}
