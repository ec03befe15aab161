use parcel_css::border_radius::BorderRadius;
use parcel_css::keyframes::{Keyframe, KeyframeListParser, KeyframeSelector, KeyframesRule};
use parcel_css::number::Decimal;
use parcel_css::outline::{BorderStyle, OutlineStyle};
use parcel_css::prefix::VendorPrefix;
use parcel_css::property::Size2D;
use parcel_css::token::Token;
use parcel_css::values::LengthPercentage;

fn d(n: i64) -> Decimal {
    Decimal { scaled: n * 100000 }
}

fn px_token(n: i64) -> Token {
    Token::Dimension(d(n), "px".to_string())
}

#[test]
fn border_radius_with_vertical_radii() {
    let toks = vec![px_token(1), px_token(2), Token::Delim('/'), px_token(3)];
    let (r, end) = BorderRadius::parse(&toks, 0).unwrap();
    assert_eq!(end, 4);
    assert_eq!(r.top_left, Size2D(LengthPercentage::px(d(1)), LengthPercentage::px(d(3))));
    assert_eq!(r.top_right, Size2D(LengthPercentage::px(d(2)), LengthPercentage::px(d(3))));
    assert_eq!(r.to_css(false), "1px 2px / 3px");
    assert_eq!(r.to_css(true), "1px 2px/3px");
}

#[test]
fn border_radius_same_radii() {
    let toks = vec![px_token(4)];
    let (r, _) = BorderRadius::parse(&toks, 0).unwrap();
    assert_eq!(r.to_css(false), "4px");
    let toks = vec![px_token(4), Token::Delim('/')];
    assert_eq!(BorderRadius::parse(&toks, 0).unwrap_err().position, 2);
}

#[test]
fn outline_style_keywords() {
    let toks = vec![Token::Ident("Solid".to_string()), Token::Ident("auto".to_string())];
    assert_eq!(OutlineStyle::parse(&toks, 0).unwrap(), (OutlineStyle::BorderStyle(BorderStyle::Solid), 1));
    assert_eq!(OutlineStyle::parse(&toks, 1).unwrap(), (OutlineStyle::Auto, 2));
    assert!(OutlineStyle::parse(&toks, 2).is_err());
    assert_eq!(OutlineStyle::default().to_css(), "none");
    assert_eq!(OutlineStyle::Auto.to_css(), "auto");
}

#[test]
fn keyframe_selectors() {
    let p = KeyframeListParser;
    let toks = vec![
        Token::Ident("from".to_string()),
        Token::Comma,
        Token::Percentage(d(50)),
        Token::Comma,
        Token::Ident("TO".to_string()),
    ];
    let (sel, end) = p.parse_prelude(&toks, 0).unwrap();
    assert_eq!(sel, vec![KeyframeSelector::From, KeyframeSelector::Percentage(d(50)), KeyframeSelector::To]);
    assert_eq!(end, 5);
    let bad = vec![Token::Ident("middle".to_string())];
    assert!(p.parse_prelude(&bad, 0).is_err());
}

#[test]
fn keyframes_rule_per_prefix() {
    let rule = KeyframesRule {
        name: "fade".to_string(),
        keyframes: vec![
            Keyframe { selectors: vec![KeyframeSelector::From], declarations: "{opacity:0}".to_string() },
            Keyframe {
                selectors: vec![KeyframeSelector::Percentage(d(100))],
                declarations: "{opacity:1}".to_string(),
            },
        ],
        vendor_prefix: VendorPrefix::webkit().union(&VendorPrefix::none()),
    };
    assert_eq!(
        rule.to_css(true),
        "@-webkit-keyframes fade{0%{opacity:0}to{opacity:1}}@keyframes fade{0%{opacity:0}to{opacity:1}}"
    );
    assert_eq!(
        rule.to_css(false),
        "@-webkit-keyframes fade {\n  from{opacity:0}\n\n  100%{opacity:1}\n}\n\n@keyframes fade {\n  from{opacity:0}\n\n  100%{opacity:1}\n}"
    );
}

#[test]
fn keyframes_name_is_escaped() {
    let rule = KeyframesRule { name: "1up".to_string(), keyframes: vec![], vendor_prefix: VendorPrefix::none() };
    assert_eq!(rule.to_css(true), "@keyframes \\31 up{}");
}
