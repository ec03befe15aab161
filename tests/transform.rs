use parcel_css::matrix::{Matrix, Matrix3d};
use parcel_css::number::Decimal;
use parcel_css::token::Token;
use parcel_css::transform::{Perspective, Transform, TransformList, shortest_encoding};
use parcel_css::values::{Angle, Length, LengthPercentage, LengthUnit, NumberOrPercentage};

fn d(n: i64) -> Decimal {
    Decimal { scaled: n * 100000 }
}

fn px(n: i64) -> LengthPercentage {
    LengthPercentage::px(d(n))
}

fn num(n: i64) -> NumberOrPercentage {
    NumberOrPercentage::Number(d(n))
}

fn func(name: &str, args: Vec<Token>) -> Vec<Token> {
    let mut out = vec![Token::Function(name.to_string())];
    let n = args.len();
    for (i, a) in args.into_iter().enumerate() {
        out.push(a);
        if i + 1 < n {
            out.push(Token::Comma);
        }
    }
    out.push(Token::CloseParen);
    out
}

#[test]
fn scale3d_minifies_to_scale() {
    let t = Transform::Scale3d(num(2), num(2), num(1));
    assert_eq!(t.to_css(true), "scale(2)");
    assert_eq!(t.to_css(false), "scale3d(2, 2, 1)");
}

#[test]
fn translate3d_minifies_to_translate() {
    let zero = Length::px(d(0));
    let t = Transform::Translate3d(px(5), px(0), zero);
    assert_eq!(t.to_css(true), "translate(5px)");
    let t = Transform::Translate3d(px(10), px(20), zero);
    assert_eq!(t.to_css(true), "translate(10px,20px)");
    assert_eq!(t.to_css(false), "translate3d(10px, 20px, 0px)");
}

#[test]
fn single_axis_forms() {
    assert_eq!(Transform::Translate(px(0), px(3)).to_css(true), "translateY(3px)");
    assert_eq!(Transform::Scale(num(1), num(3)).to_css(true), "scaleY(3)");
    assert_eq!(Transform::Scale(num(3), num(1)).to_css(true), "scaleX(3)");
    assert_eq!(Transform::RotateZ(Angle::Deg(d(45))).to_css(true), "rotate(45deg)");
    assert_eq!(Transform::RotateZ(Angle::Deg(d(45))).to_css(false), "rotateZ(45deg)");
    assert_eq!(
        Transform::Rotate3d(d(1), d(0), d(0), Angle::Deg(d(30))).to_css(true),
        "rotateX(30deg)"
    );
    assert_eq!(
        Transform::Skew(Angle::Deg(d(0)), Angle::Deg(d(10))).to_css(true),
        "skewY(10deg)"
    );
    assert_eq!(Transform::SkewX(Angle::Rad(d(1))).to_css(true), "skew(1rad)");
}

#[test]
fn matrix_text() {
    let m = Matrix { a: d(1), b: d(0), c: d(0), d: d(1), e: d(10), f: d(20) };
    assert_eq!(Transform::Matrix(m).to_css(true), "matrix(1,0,0,1,10,20)");
    assert_eq!(Transform::Matrix(m).to_css(false), "matrix(1, 0, 0, 1, 10, 20)");
}

#[test]
fn parse_functions() {
    let toks = func("matrix", vec![
        Token::Number(d(1)), Token::Number(d(0)), Token::Number(d(0)),
        Token::Number(d(1)), Token::Number(d(10)), Token::Number(d(20)),
    ]);
    let (t, end) = Transform::parse(&toks, 0).unwrap();
    assert_eq!(t, Transform::Matrix(Matrix { a: d(1), b: d(0), c: d(0), d: d(1), e: d(10), f: d(20) }));
    assert_eq!(end, toks.len());

    let toks = func("Rotate", vec![Token::Dimension(d(90), "deg".to_string())]);
    assert_eq!(Transform::parse(&toks, 0).unwrap().0, Transform::Rotate(Angle::Deg(d(90))));

    let toks = func("translate", vec![Token::Dimension(d(5), "px".to_string())]);
    assert_eq!(Transform::parse(&toks, 0).unwrap().0, Transform::Translate(px(5), px(0)));

    let toks = func("scale", vec![Token::Number(d(2))]);
    assert_eq!(Transform::parse(&toks, 0).unwrap().0, Transform::Scale(num(2), num(2)));

    let toks = func("skew", vec![Token::Dimension(d(10), "deg".to_string())]);
    assert_eq!(
        Transform::parse(&toks, 0).unwrap().0,
        Transform::Skew(Angle::Deg(d(10)), Angle::Deg(d(0)))
    );
}

#[test]
fn parse_rejects_bad_arguments() {
    let toks = func("rotate", vec![Token::Dimension(d(90), "px".to_string())]);
    assert!(Transform::parse(&toks, 0).is_err());
    let toks = func("wobble", vec![Token::Number(d(1))]);
    assert!(Transform::parse(&toks, 0).is_err());
    let toks = func("matrix", vec![Token::Number(d(1))]);
    assert!(Transform::parse(&toks, 0).is_err());
}

#[test]
fn transform_list_parse_and_print() {
    let mut toks = func("translateX", vec![Token::Dimension(d(10), "px".to_string())]);
    toks.extend(func("rotate", vec![Token::Dimension(d(90), "deg".to_string())]));
    toks.push(Token::Comma);
    let (list, end) = TransformList::parse(&toks, 0).unwrap();
    assert_eq!(list.0, vec![Transform::TranslateX(px(10)), Transform::Rotate(Angle::Deg(d(90)))]);
    assert_eq!(end, toks.len() - 1);
    assert_eq!(list.to_css(false), "translateX(10px)rotate(90deg)");
    assert_eq!(list.to_css(true), "translate(10px)rotate(90deg)");

    let none = vec![Token::Ident("none".to_string())];
    let (list, _) = TransformList::parse(&none, 0).unwrap();
    assert!(list.0.is_empty());
    assert_eq!(list.to_css(true), "none");
}

#[test]
fn foldability() {
    let pct = TransformList(vec![Transform::TranslateX(LengthPercentage::Percentage(d(50)))]);
    assert!(!pct.is_foldable());
    let em = TransformList(vec![Transform::TranslateZ(Length { value: d(1), unit: LengthUnit::Em })]);
    assert!(!em.is_foldable());
    let ok = TransformList(vec![Transform::TranslateX(px(3)), Transform::Rotate(Angle::Deg(d(5)))]);
    assert!(ok.is_foldable());
}

#[test]
fn shortest_candidate_wins() {
    assert_eq!(shortest_encoding("abcd".to_string(), Some("abc".to_string()), "ab".to_string()), "ab");
    assert_eq!(shortest_encoding("abc".to_string(), Some("abc".to_string()), "abc".to_string()), "abc");
    assert_eq!(shortest_encoding("abcd".to_string(), Some("xy".to_string()), "abc".to_string()), "xy");
    assert_eq!(shortest_encoding("ab".to_string(), None, "abc".to_string()), "ab");
}

#[test]
fn translate_matrix_prints_decomposed_translate() {
    let list = TransformList(vec![Transform::Matrix(Matrix { a: d(1), b: d(0), c: d(0), d: d(1), e: d(10), f: d(20) })]);
    let folded = Matrix3d::translate(d(10), d(20), d(0));
    assert!(folded.is_2d());
    let decomposed = Some(TransformList(vec![Transform::Translate3d(px(10), px(20), Length::px(d(0)))]));
    assert_eq!(list.to_css_minified(&folded, &decomposed), "translate(10px,20px)");
    assert_eq!(list.to_css_minified(&folded, &None), "matrix(1,0,0,1,10,20)");
}

#[test]
fn matrix_literal_prefers_2d_form() {
    let m = Matrix3d::scale(d(2), d(2), d(1));
    assert_eq!(m.to_matrix2d(), Some(Matrix { a: d(2), b: d(0), c: d(0), d: d(2), e: d(0), f: d(0) }));
    assert_eq!(Matrix3d::scale(d(2), d(2), d(2)).to_matrix2d(), None);
    let t = Matrix3d::translate(d(1), d(2), d(3)).transpose();
    assert_eq!(t.m14, d(1));
    assert_eq!(t.m34, d(3));
    assert_eq!(Matrix { a: d(1), b: d(2), c: d(3), d: d(4), e: d(5), f: d(6) }.to_matrix3d().m42, d(6));
    assert_eq!(Matrix3d::identity(), Matrix3d::scale(d(1), d(1), d(1)));
}

#[test]
fn perspective_value() {
    let toks = vec![Token::Ident("none".to_string())];
    assert_eq!(Perspective::parse(&toks, 0).unwrap().0, Perspective::NoPerspective);
    let toks = vec![Token::Dimension(d(100), "px".to_string())];
    let (p, _) = Perspective::parse(&toks, 0).unwrap();
    assert_eq!(p.to_css(), "100px");
    assert_eq!(Perspective::NoPerspective.to_css(), "none");
}

#[test]
fn printed_transforms_read_back() {
    let toks = func("translate3d", vec![
        Token::Dimension(d(10), "px".to_string()),
        Token::Dimension(d(20), "px".to_string()),
        Token::Dimension(d(0), "px".to_string()),
    ]);
    let t = Transform::Translate3d(px(10), px(20), Length::px(d(0)));
    assert_eq!(t.to_css(false), "translate3d(10px, 20px, 0px)");
    assert_eq!(Transform::parse(&toks, 0).unwrap().0, t);

    let toks = func("rotateX", vec![Token::Dimension(d(1), "turn".to_string())]);
    let t = Transform::RotateX(Angle::Turn(d(1)));
    assert_eq!(t.to_css(false), "rotateX(1turn)");
    assert_eq!(Transform::parse(&toks, 0).unwrap().0, t);

    let toks = func("scale", vec![Token::Percentage(d(50)), Token::Number(d(2))]);
    let t = Transform::Scale(NumberOrPercentage::Percentage(d(50)), num(2));
    assert_eq!(t.to_css(false), "scale(50%, 2)");
    assert_eq!(Transform::parse(&toks, 0).unwrap().0, t);
}
