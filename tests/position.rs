use parcel_css::number::Decimal;
use parcel_css::position::{
    HorizontalPositionKeyword, Position, PositionComponent, VerticalPositionKeyword,
};
use parcel_css::token::{Token, ParseErrorKind};
use parcel_css::values::{Length, LengthPercentage, LengthUnit};

fn px(n: i64) -> LengthPercentage {
    LengthPercentage::Dimension(Length { value: Decimal { scaled: n * 100000 }, unit: LengthUnit::Px })
}

fn pct(n: i64) -> LengthPercentage {
    LengthPercentage::Percentage(Decimal { scaled: n * 100000 })
}

fn ident(s: &str) -> Token {
    Token::Ident(s.to_string())
}

fn round_trip(p: Position) {
    let toks = p.to_tokens(false);
    let (back, end) = Position::parse(&toks, 0).unwrap();
    assert_eq!(back, p);
    assert_eq!(end, toks.len());
}

#[test]
fn positions_read_back_as_written() {
    round_trip(Position::center());
    round_trip(Position { x: PositionComponent::Length(px(10)), y: PositionComponent::Center });
    round_trip(Position { x: PositionComponent::Side(HorizontalPositionKeyword::Left, None), y: PositionComponent::Center });
    round_trip(Position { x: PositionComponent::Center, y: PositionComponent::Side(VerticalPositionKeyword::Top, None) });
    round_trip(Position { x: PositionComponent::Side(HorizontalPositionKeyword::Right, None), y: PositionComponent::Length(px(5)) });
    round_trip(Position { x: PositionComponent::Length(px(1)), y: PositionComponent::Length(pct(20)) });
    round_trip(Position {
        x: PositionComponent::Side(HorizontalPositionKeyword::Left, Some(px(10))),
        y: PositionComponent::Side(VerticalPositionKeyword::Bottom, Some(px(20))),
    });
    round_trip(Position { x: PositionComponent::Side(HorizontalPositionKeyword::Right, Some(px(3))), y: PositionComponent::Center });
    round_trip(Position { x: PositionComponent::Center, y: PositionComponent::Side(VerticalPositionKeyword::Bottom, Some(px(2))) });
}

#[test]
fn center_left_is_read_with_axes_swapped() {
    let toks = vec![ident("center"), ident("left")];
    let (p, end) = Position::parse(&toks, 0).unwrap();
    assert_eq!(
        p,
        Position {
            x: PositionComponent::Side(HorizontalPositionKeyword::Left, None),
            y: PositionComponent::Center
        }
    );
    assert_eq!(end, 2);
}

#[test]
fn vertical_side_first_with_offsets() {
    let toks = vec![
        ident("TOP"),
        Token::Dimension(Decimal { scaled: 1000000 }, "px".to_string()),
        ident("left"),
        Token::Dimension(Decimal { scaled: 2000000 }, "px".to_string()),
    ];
    let (p, end) = Position::parse(&toks, 0).unwrap();
    assert_eq!(
        p,
        Position {
            x: PositionComponent::Side(HorizontalPositionKeyword::Left, Some(px(20))),
            y: PositionComponent::Side(VerticalPositionKeyword::Top, Some(px(10))),
        }
    );
    assert_eq!(end, 4);
}

#[test]
fn side_with_offset_alone_moves_offset_to_other_axis() {
    let toks = vec![ident("left"), Token::Dimension(Decimal { scaled: 2000000 }, "px".to_string())];
    let (p, _) = Position::parse(&toks, 0).unwrap();
    assert_eq!(
        p,
        Position {
            x: PositionComponent::Side(HorizontalPositionKeyword::Left, None),
            y: PositionComponent::Length(px(20)),
        }
    );
}

#[test]
fn position_parse_error() {
    let toks = vec![Token::Comma];
    let err = Position::parse(&toks, 0).unwrap_err();
    assert_eq!(err.kind, ParseErrorKind::UnexpectedToken);
    assert_eq!(err.position, 0);
}

#[test]
fn serialization_drops_implied_values() {
    let p = Position { x: PositionComponent::Length(px(10)), y: PositionComponent::Center };
    assert_eq!(p.to_css(false), "10px");
    let p = Position { x: PositionComponent::Length(px(10)), y: PositionComponent::Length(pct(50)) };
    assert_eq!(p.to_css(false), "10px");
    let p = Position {
        x: PositionComponent::Length(pct(50)),
        y: PositionComponent::Side(VerticalPositionKeyword::Top, None),
    };
    assert_eq!(p.to_css(false), "top");
    assert_eq!(Position::center().to_css(false), "center center");
    assert_eq!(Position::center().to_css(true), "50% 50%");
}

#[test]
fn serialization_adds_anchor_keyword() {
    let p = Position {
        x: PositionComponent::Side(HorizontalPositionKeyword::Right, Some(px(5))),
        y: PositionComponent::Length(px(7)),
    };
    assert_eq!(p.to_css(false), "right 5px top 7px");
    let p = Position {
        x: PositionComponent::Length(px(7)),
        y: PositionComponent::Side(VerticalPositionKeyword::Bottom, Some(px(5))),
    };
    assert_eq!(p.to_css(false), "left 7px bottom 5px");
}

#[test]
fn center_and_default() {
    assert!(Position::center().is_center());
    assert!(Position { x: PositionComponent::Length(pct(50)), y: PositionComponent::Length(pct(50)) }.is_center());
    assert!(!Position::default().is_center());
    assert_eq!(Position::default().to_css(false), "0% 0%");
}
