use parcel_css::number::Decimal;
use parcel_css::rect::Rect;
use parcel_css::token::{ParseError, ParseErrorKind, Token};
use parcel_css::values::{LengthPercentage, LengthUnit, Length};

fn px(n: i64) -> LengthPercentage {
    LengthPercentage::Dimension(Length { value: Decimal { scaled: n * 100000 }, unit: LengthUnit::Px })
}

fn px_token(n: i64) -> Token {
    Token::Dimension(Decimal { scaled: n * 100000 }, "px".to_string())
}

fn css(r: &Rect<LengthPercentage>) -> String {
    let mut out = String::new();
    r.write_to(&mut out);
    out
}

#[test]
fn one_value_expands_to_all_sides() {
    let toks = vec![px_token(1)];
    let (r, end) = Rect::<LengthPercentage>::parse(&toks, 0).unwrap();
    assert_eq!(r, Rect(px(1), px(1), px(1), px(1)));
    assert_eq!(end, 1);
}

#[test]
fn two_three_four_values_expand() {
    let toks = vec![px_token(1), px_token(2)];
    assert_eq!(Rect::<LengthPercentage>::parse(&toks, 0).unwrap().0, Rect(px(1), px(2), px(1), px(2)));
    let toks = vec![px_token(1), px_token(2), px_token(3)];
    assert_eq!(Rect::<LengthPercentage>::parse(&toks, 0).unwrap().0, Rect(px(1), px(2), px(3), px(2)));
    let toks = vec![px_token(1), px_token(2), px_token(3), px_token(4), px_token(5)];
    let (r, end) = Rect::<LengthPercentage>::parse(&toks, 0).unwrap();
    assert_eq!(r, Rect(px(1), px(2), px(3), px(4)));
    assert_eq!(end, 4);
}

#[test]
fn parse_stops_at_first_non_value() {
    let toks = vec![px_token(1), Token::Comma, px_token(2)];
    let (r, end) = Rect::<LengthPercentage>::parse(&toks, 0).unwrap();
    assert_eq!(r, Rect::all(px(1)));
    assert_eq!(end, 1);
}

#[test]
fn parse_of_nothing_fails() {
    let toks: Vec<Token> = vec![];
    assert_eq!(
        Rect::<LengthPercentage>::parse(&toks, 0),
        Err(ParseError { kind: ParseErrorKind::EndOfInput, position: 0 })
    );
}

#[test]
fn collapse_picks_fewest_values() {
    assert_eq!(css(&Rect(px(1), px(1), px(1), px(1))), "1px");
    assert_eq!(css(&Rect(px(1), px(2), px(1), px(2))), "1px 2px");
    assert_eq!(css(&Rect(px(1), px(2), px(3), px(2))), "1px 2px 3px");
    assert_eq!(css(&Rect(px(1), px(2), px(3), px(4))), "1px 2px 3px 4px");
    assert_eq!(css(&Rect(px(1), px(1), px(1), px(2))), "1px 1px 1px 2px");
}

#[test]
fn collapse_then_expand_round_trips() {
    let quads = [
        Rect(px(1), px(1), px(1), px(1)),
        Rect(px(1), px(2), px(1), px(2)),
        Rect(px(1), px(2), px(3), px(2)),
        Rect(px(4), px(3), px(2), px(1)),
        Rect(px(1), px(1), px(2), px(1)),
    ];
    for q in quads.iter() {
        let vals = q.collapsed();
        let toks: Vec<Token> = vals
            .iter()
            .map(|v| match v {
                LengthPercentage::Dimension(l) => Token::Dimension(l.value, "px".to_string()),
                LengthPercentage::Percentage(p) => Token::Percentage(*p),
            })
            .collect();
        assert_eq!(Rect::<LengthPercentage>::parse(&toks, 0).unwrap().0, *q);
    }
}

#[test]
fn parse_with_uses_given_parser() {
    let toks = vec![px_token(7), px_token(8)];
    let r = Rect::parse_with(&toks, 0, |t: &Vec<Token>, i: usize| match t.get(i) {
        Some(Token::Dimension(d, _)) => Ok((d.scaled, i + 1)),
        _ => Err(ParseError { kind: ParseErrorKind::UnexpectedToken, position: i }),
    });
    assert_eq!(r, Ok((Rect(700000, 800000, 700000, 800000), 2)));
}
