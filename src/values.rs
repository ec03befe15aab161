//! Lengths, percentages, angles and numbers as they stand in property values.
use vstd::prelude::*;
use crate::number::{Decimal, decimal_text, DECIMAL_SCALE};
use crate::token::{Token, TokenView, token_view, keyword_eq, matches_keyword};

verus! {

#[derive(Clone, Copy, Debug, PartialEq, Eq, Structural)]
pub enum LengthUnit {
    Px,
    In,
    Cm,
    Mm,
    Q,
    Pt,
    Pc,
    Em,
    Rem,
    Ex,
    Ch,
    Vw,
    Vh,
    Vmin,
    Vmax,
}

impl LengthUnit {
    pub open spec fn spec_name(self) -> Seq<char> {
        match self {
            LengthUnit::Px => "px"@,
            LengthUnit::In => "in"@,
            LengthUnit::Cm => "cm"@,
            LengthUnit::Mm => "mm"@,
            LengthUnit::Q => "q"@,
            LengthUnit::Pt => "pt"@,
            LengthUnit::Pc => "pc"@,
            LengthUnit::Em => "em"@,
            LengthUnit::Rem => "rem"@,
            LengthUnit::Ex => "ex"@,
            LengthUnit::Ch => "ch"@,
            LengthUnit::Vw => "vw"@,
            LengthUnit::Vh => "vh"@,
            LengthUnit::Vmin => "vmin"@,
            LengthUnit::Vmax => "vmax"@,
        }
    }

    /// The unit's name as written after a number.
    pub fn name(&self) -> (r: &'static str)
        ensures
            r@ == self.spec_name(),
    {
        match self {
            LengthUnit::Px => "px",
            LengthUnit::In => "in",
            LengthUnit::Cm => "cm",
            LengthUnit::Mm => "mm",
            LengthUnit::Q => "q",
            LengthUnit::Pt => "pt",
            LengthUnit::Pc => "pc",
            LengthUnit::Em => "em",
            LengthUnit::Rem => "rem",
            LengthUnit::Ex => "ex",
            LengthUnit::Ch => "ch",
            LengthUnit::Vw => "vw",
            LengthUnit::Vh => "vh",
            LengthUnit::Vmin => "vmin",
            LengthUnit::Vmax => "vmax",
        }
    }

    /// Absolute units, which convert to pixels by a fixed factor.
    pub open spec fn is_absolute(self) -> bool {
        self is Px || self is In || self is Cm || self is Mm || self is Q || self is Pt
            || self is Pc
    }
}

/// The unit whose name matches `s`, ignoring ASCII case.
pub open spec fn unit_named(s: Seq<char>) -> Option<LengthUnit> {
    if keyword_eq(s, "px"@) {
        Some(LengthUnit::Px)
    } else if keyword_eq(s, "in"@) {
        Some(LengthUnit::In)
    } else if keyword_eq(s, "cm"@) {
        Some(LengthUnit::Cm)
    } else if keyword_eq(s, "mm"@) {
        Some(LengthUnit::Mm)
    } else if keyword_eq(s, "q"@) {
        Some(LengthUnit::Q)
    } else if keyword_eq(s, "pt"@) {
        Some(LengthUnit::Pt)
    } else if keyword_eq(s, "pc"@) {
        Some(LengthUnit::Pc)
    } else if keyword_eq(s, "em"@) {
        Some(LengthUnit::Em)
    } else if keyword_eq(s, "rem"@) {
        Some(LengthUnit::Rem)
    } else if keyword_eq(s, "ex"@) {
        Some(LengthUnit::Ex)
    } else if keyword_eq(s, "ch"@) {
        Some(LengthUnit::Ch)
    } else if keyword_eq(s, "vw"@) {
        Some(LengthUnit::Vw)
    } else if keyword_eq(s, "vh"@) {
        Some(LengthUnit::Vh)
    } else if keyword_eq(s, "vmin"@) {
        Some(LengthUnit::Vmin)
    } else if keyword_eq(s, "vmax"@) {
        Some(LengthUnit::Vmax)
    } else {
        None
    }
}

pub fn unit_from_name(s: &str) -> (r: Option<LengthUnit>)
    ensures
        r == unit_named(s@),
{
    if matches_keyword(s, "px") {
        Some(LengthUnit::Px)
    } else if matches_keyword(s, "in") {
        Some(LengthUnit::In)
    } else if matches_keyword(s, "cm") {
        Some(LengthUnit::Cm)
    } else if matches_keyword(s, "mm") {
        Some(LengthUnit::Mm)
    } else if matches_keyword(s, "q") {
        Some(LengthUnit::Q)
    } else if matches_keyword(s, "pt") {
        Some(LengthUnit::Pt)
    } else if matches_keyword(s, "pc") {
        Some(LengthUnit::Pc)
    } else if matches_keyword(s, "em") {
        Some(LengthUnit::Em)
    } else if matches_keyword(s, "rem") {
        Some(LengthUnit::Rem)
    } else if matches_keyword(s, "ex") {
        Some(LengthUnit::Ex)
    } else if matches_keyword(s, "ch") {
        Some(LengthUnit::Ch)
    } else if matches_keyword(s, "vw") {
        Some(LengthUnit::Vw)
    } else if matches_keyword(s, "vh") {
        Some(LengthUnit::Vh)
    } else if matches_keyword(s, "vmin") {
        Some(LengthUnit::Vmin)
    } else if matches_keyword(s, "vmax") {
        Some(LengthUnit::Vmax)
    } else {
        None
    }
}

/// A length: a number and a unit.
#[derive(Clone, Copy, Debug, PartialEq, Eq, Structural)]
pub struct Length {
    pub value: Decimal,
    pub unit: LengthUnit,
}

pub open spec fn length_text(l: Length) -> Seq<char> {
    decimal_text(l.value) + l.unit.spec_name()
}

/// The length a token denotes: a dimension with a length unit, or a bare zero.
pub open spec fn length_of(t: Token) -> Option<Length> {
    match t {
        Token::Dimension(v, u) => match unit_named(u@) {
            Some(unit) => Some(Length { value: v, unit }),
            None => None,
        },
        Token::Number(v) => if v.scaled == 0 {
            Some(Length { value: v, unit: LengthUnit::Px })
        } else {
            None
        },
        _ => None,
    }
}

impl Length {
    pub fn px(value: Decimal) -> (r: Length)
        ensures
            r == (Length { value, unit: LengthUnit::Px }),
    {
        Length { value, unit: LengthUnit::Px }
    }

    pub fn write_to(&self, out: &mut String)
        ensures
            final(out)@ == old(out)@ + length_text(*self),
    {
        let ghost start = out@;
        self.value.write_to(out);
        out.append(self.unit.name());
        assert(out@ =~= start + length_text(*self));
    }

    pub fn from_token(t: &Token) -> (r: Option<Length>)
        ensures
            r == length_of(*t),
    {
        match t {
            Token::Dimension(v, u) => match unit_from_name(u.as_str()) {
                Some(unit) => Some(Length { value: *v, unit }),
                None => None,
            },
            Token::Number(v) => if v.scaled == 0 {
                Some(Length { value: *v, unit: LengthUnit::Px })
            } else {
                None
            },
            _ => None,
        }
    }
}

/// A length or a percentage of some reference size.
#[derive(Clone, Copy, Debug, PartialEq, Eq, Structural)]
pub enum LengthPercentage {
    Dimension(Length),
    /// The number written before `%`.
    Percentage(Decimal),
}

pub open spec fn percentage_text(p: Decimal) -> Seq<char> {
    decimal_text(p) + "%"@
}

pub open spec fn length_percentage_text(lp: LengthPercentage) -> Seq<char> {
    match lp {
        LengthPercentage::Dimension(l) => length_text(l),
        LengthPercentage::Percentage(p) => percentage_text(p),
    }
}

pub open spec fn length_percentage_of(t: Token) -> Option<LengthPercentage> {
    match t {
        Token::Percentage(p) => Some(LengthPercentage::Percentage(p)),
        _ => match length_of(t) {
            Some(l) => Some(LengthPercentage::Dimension(l)),
            None => None,
        },
    }
}

/// A length or percentage with value zero, whatever its unit.
pub open spec fn lp_is_zero(lp: LengthPercentage) -> bool {
    match lp {
        LengthPercentage::Dimension(l) => l.value.scaled == 0,
        LengthPercentage::Percentage(p) => p.scaled == 0,
    }
}

pub fn write_percentage(p: Decimal, out: &mut String)
    ensures
        final(out)@ == old(out)@ + percentage_text(p),
{
    let ghost start = out@;
    p.write_to(out);
    out.append("%");
    assert(out@ =~= start + percentage_text(p));
}

impl LengthPercentage {
    pub fn px(value: Decimal) -> (r: LengthPercentage)
        ensures
            r == LengthPercentage::Dimension(Length { value, unit: LengthUnit::Px }),
    {
        LengthPercentage::Dimension(Length::px(value))
    }

    /// The zero length.
    pub fn zero() -> (r: LengthPercentage)
        ensures
            r == LengthPercentage::Dimension(Length { value: Decimal { scaled: 0 }, unit: LengthUnit::Px }),
    {
        LengthPercentage::px(Decimal { scaled: 0 })
    }

    pub fn is_zero(&self) -> (r: bool)
        ensures
            r == lp_is_zero(*self),
    {
        match self {
            LengthPercentage::Dimension(l) => l.value.scaled == 0,
            LengthPercentage::Percentage(p) => p.scaled == 0,
        }
    }

    pub fn write_to(&self, out: &mut String)
        ensures
            final(out)@ == old(out)@ + length_percentage_text(*self),
    {
        match self {
            LengthPercentage::Dimension(l) => l.write_to(out),
            LengthPercentage::Percentage(p) => write_percentage(*p, out),
        }
    }

    pub fn from_token(t: &Token) -> (r: Option<LengthPercentage>)
        ensures
            r == length_percentage_of(*t),
    {
        match t {
            Token::Percentage(p) => Some(LengthPercentage::Percentage(*p)),
            _ => match Length::from_token(t) {
                Some(l) => Some(LengthPercentage::Dimension(l)),
                None => None,
            },
        }
    }
}

#[derive(Clone, Copy, Debug, PartialEq, Eq, Structural)]
pub enum Angle {
    Deg(Decimal),
    Rad(Decimal),
    Grad(Decimal),
    Turn(Decimal),
}

pub open spec fn angle_text(a: Angle) -> Seq<char> {
    match a {
        Angle::Deg(v) => decimal_text(v) + "deg"@,
        Angle::Rad(v) => decimal_text(v) + "rad"@,
        Angle::Grad(v) => decimal_text(v) + "grad"@,
        Angle::Turn(v) => decimal_text(v) + "turn"@,
    }
}

pub open spec fn angle_value(a: Angle) -> Decimal {
    match a {
        Angle::Deg(v) => v,
        Angle::Rad(v) => v,
        Angle::Grad(v) => v,
        Angle::Turn(v) => v,
    }
}

/// The angle a token denotes: a dimension with an angle unit, or a bare zero.
pub open spec fn angle_of(t: Token) -> Option<Angle> {
    match t {
        Token::Dimension(v, u) => if keyword_eq(u@, "deg"@) {
            Some(Angle::Deg(v))
        } else if keyword_eq(u@, "rad"@) {
            Some(Angle::Rad(v))
        } else if keyword_eq(u@, "grad"@) {
            Some(Angle::Grad(v))
        } else if keyword_eq(u@, "turn"@) {
            Some(Angle::Turn(v))
        } else {
            None
        },
        Token::Number(v) => if v.scaled == 0 {
            Some(Angle::Deg(v))
        } else {
            None
        },
        _ => None,
    }
}

impl Angle {
    pub fn is_zero(&self) -> (r: bool)
        ensures
            r == (angle_value(*self).scaled == 0),
    {
        match self {
            Angle::Deg(v) => v.scaled == 0,
            Angle::Rad(v) => v.scaled == 0,
            Angle::Grad(v) => v.scaled == 0,
            Angle::Turn(v) => v.scaled == 0,
        }
    }

    pub fn write_to(&self, out: &mut String)
        ensures
            final(out)@ == old(out)@ + angle_text(*self),
    {
        let ghost start = out@;
        match self {
            Angle::Deg(v) => {
                v.write_to(out);
                out.append("deg");
            },
            Angle::Rad(v) => {
                v.write_to(out);
                out.append("rad");
            },
            Angle::Grad(v) => {
                v.write_to(out);
                out.append("grad");
            },
            Angle::Turn(v) => {
                v.write_to(out);
                out.append("turn");
            },
        }
        assert(out@ =~= start + angle_text(*self));
    }

    pub fn from_token(t: &Token) -> (r: Option<Angle>)
        ensures
            r == angle_of(*t),
    {
        match t {
            Token::Dimension(v, u) => if matches_keyword(u.as_str(), "deg") {
                Some(Angle::Deg(*v))
            } else if matches_keyword(u.as_str(), "rad") {
                Some(Angle::Rad(*v))
            } else if matches_keyword(u.as_str(), "grad") {
                Some(Angle::Grad(*v))
            } else if matches_keyword(u.as_str(), "turn") {
                Some(Angle::Turn(*v))
            } else {
                None
            },
            Token::Number(v) => if v.scaled == 0 {
                Some(Angle::Deg(*v))
            } else {
                None
            },
            _ => None,
        }
    }
}

/// A plain number or a percentage, as scale factors are written.
#[derive(Clone, Copy, Debug, PartialEq, Eq, Structural)]
pub enum NumberOrPercentage {
    Number(Decimal),
    Percentage(Decimal),
}

pub open spec fn number_or_percentage_text(n: NumberOrPercentage) -> Seq<char> {
    match n {
        NumberOrPercentage::Number(v) => decimal_text(v),
        NumberOrPercentage::Percentage(p) => percentage_text(p),
    }
}

pub open spec fn number_or_percentage_of(t: Token) -> Option<NumberOrPercentage> {
    match t {
        Token::Number(v) => Some(NumberOrPercentage::Number(v)),
        Token::Percentage(p) => Some(NumberOrPercentage::Percentage(p)),
        _ => None,
    }
}

/// The factor a scale argument stands for is exactly one: `1` or `100%`.
pub open spec fn np_is_one(n: NumberOrPercentage) -> bool {
    match n {
        NumberOrPercentage::Number(v) => v.scaled == DECIMAL_SCALE,
        NumberOrPercentage::Percentage(p) => p.scaled == 100 * DECIMAL_SCALE,
    }
}

impl NumberOrPercentage {
    pub fn is_one(&self) -> (r: bool)
        ensures
            r == np_is_one(*self),
    {
        match self {
            NumberOrPercentage::Number(v) => v.scaled == DECIMAL_SCALE,
            NumberOrPercentage::Percentage(p) => p.scaled == 100 * DECIMAL_SCALE,
        }
    }

    pub fn write_to(&self, out: &mut String)
        ensures
            final(out)@ == old(out)@ + number_or_percentage_text(*self),
    {
        match self {
            NumberOrPercentage::Number(v) => v.write_to(out),
            NumberOrPercentage::Percentage(p) => write_percentage(*p, out),
        }
    }

    pub fn from_token(t: &Token) -> (r: Option<NumberOrPercentage>)
        ensures
            r == number_or_percentage_of(*t),
    {
        match t {
            Token::Number(v) => Some(NumberOrPercentage::Number(*v)),
            Token::Percentage(p) => Some(NumberOrPercentage::Percentage(*p)),
            _ => None,
        }
    }
}

pub open spec fn number_of(t: Token) -> Option<Decimal> {
    match t {
        Token::Number(v) => Some(v),
        _ => None,
    }
}

pub fn number_from_token(t: &Token) -> (r: Option<Decimal>)
    ensures
        r == number_of(*t),
{
    match t {
        Token::Number(v) => Some(*v),
        _ => None,
    }
}

} // verus!
verus! {

/// Two words that differ at `i` in a way case folding does not bridge do not match.
pub proof fn lemma_keyword_differs(s: Seq<char>, kw: Seq<char>, i: int)
    requires
        0 <= i < s.len(),
        s[i] != kw[i],
        !('a' <= kw[i] <= 'z' && s[i] as u32 + 32 == kw[i] as u32),
    ensures
        !keyword_eq(s, kw),
{
}

/// Reading a unit's own name gives the unit back.
pub proof fn lemma_unit_name_round_trip(u: LengthUnit)
    ensures
        unit_named(u.spec_name()) == Some(u),
{
    reveal_strlit("px");
    reveal_strlit("in");
    reveal_strlit("cm");
    reveal_strlit("mm");
    reveal_strlit("q");
    reveal_strlit("pt");
    reveal_strlit("pc");
    reveal_strlit("em");
    reveal_strlit("rem");
    reveal_strlit("ex");
    reveal_strlit("ch");
    reveal_strlit("vw");
    reveal_strlit("vh");
    reveal_strlit("vmin");
    reveal_strlit("vmax");
    match u {
        LengthUnit::Px => {

        },
        LengthUnit::In => {
            lemma_keyword_differs("in"@, "px"@, 0);
        },
        LengthUnit::Cm => {
            lemma_keyword_differs("cm"@, "px"@, 0);
            lemma_keyword_differs("cm"@, "in"@, 0);
        },
        LengthUnit::Mm => {
            lemma_keyword_differs("mm"@, "px"@, 0);
            lemma_keyword_differs("mm"@, "in"@, 0);
            lemma_keyword_differs("mm"@, "cm"@, 0);
        },
        LengthUnit::Q => {

        },
        LengthUnit::Pt => {
            lemma_keyword_differs("pt"@, "px"@, 1);
            lemma_keyword_differs("pt"@, "in"@, 0);
            lemma_keyword_differs("pt"@, "cm"@, 0);
            lemma_keyword_differs("pt"@, "mm"@, 0);
        },
        LengthUnit::Pc => {
            lemma_keyword_differs("pc"@, "px"@, 1);
            lemma_keyword_differs("pc"@, "in"@, 0);
            lemma_keyword_differs("pc"@, "cm"@, 0);
            lemma_keyword_differs("pc"@, "mm"@, 0);
            lemma_keyword_differs("pc"@, "pt"@, 1);
        },
        LengthUnit::Em => {
            lemma_keyword_differs("em"@, "px"@, 0);
            lemma_keyword_differs("em"@, "in"@, 0);
            lemma_keyword_differs("em"@, "cm"@, 0);
            lemma_keyword_differs("em"@, "mm"@, 0);
            lemma_keyword_differs("em"@, "pt"@, 0);
            lemma_keyword_differs("em"@, "pc"@, 0);
        },
        LengthUnit::Rem => {

        },
        LengthUnit::Ex => {
            lemma_keyword_differs("ex"@, "px"@, 0);
            lemma_keyword_differs("ex"@, "in"@, 0);
            lemma_keyword_differs("ex"@, "cm"@, 0);
            lemma_keyword_differs("ex"@, "mm"@, 0);
            lemma_keyword_differs("ex"@, "pt"@, 0);
            lemma_keyword_differs("ex"@, "pc"@, 0);
            lemma_keyword_differs("ex"@, "em"@, 1);
        },
        LengthUnit::Ch => {
            lemma_keyword_differs("ch"@, "px"@, 0);
            lemma_keyword_differs("ch"@, "in"@, 0);
            lemma_keyword_differs("ch"@, "cm"@, 1);
            lemma_keyword_differs("ch"@, "mm"@, 0);
            lemma_keyword_differs("ch"@, "pt"@, 0);
            lemma_keyword_differs("ch"@, "pc"@, 0);
            lemma_keyword_differs("ch"@, "em"@, 0);
            lemma_keyword_differs("ch"@, "ex"@, 0);
        },
        LengthUnit::Vw => {
            lemma_keyword_differs("vw"@, "px"@, 0);
            lemma_keyword_differs("vw"@, "in"@, 0);
            lemma_keyword_differs("vw"@, "cm"@, 0);
            lemma_keyword_differs("vw"@, "mm"@, 0);
            lemma_keyword_differs("vw"@, "pt"@, 0);
            lemma_keyword_differs("vw"@, "pc"@, 0);
            lemma_keyword_differs("vw"@, "em"@, 0);
            lemma_keyword_differs("vw"@, "ex"@, 0);
            lemma_keyword_differs("vw"@, "ch"@, 0);
        },
        LengthUnit::Vh => {
            lemma_keyword_differs("vh"@, "px"@, 0);
            lemma_keyword_differs("vh"@, "in"@, 0);
            lemma_keyword_differs("vh"@, "cm"@, 0);
            lemma_keyword_differs("vh"@, "mm"@, 0);
            lemma_keyword_differs("vh"@, "pt"@, 0);
            lemma_keyword_differs("vh"@, "pc"@, 0);
            lemma_keyword_differs("vh"@, "em"@, 0);
            lemma_keyword_differs("vh"@, "ex"@, 0);
            lemma_keyword_differs("vh"@, "ch"@, 0);
            lemma_keyword_differs("vh"@, "vw"@, 1);
        },
        LengthUnit::Vmin => {

        },
        LengthUnit::Vmax => {
            lemma_keyword_differs("vmax"@, "vmin"@, 2);
        },
    }
}

/// The token a length or percentage is written as.
pub open spec fn lp_view(l: LengthPercentage) -> TokenView {
    match l {
        LengthPercentage::Dimension(d) => TokenView::Dimension(d.value, d.unit.spec_name()),
        LengthPercentage::Percentage(p) => TokenView::Percentage(p),
    }
}

/// The token an angle is written as.
pub open spec fn angle_view(a: Angle) -> TokenView {
    match a {
        Angle::Deg(v) => TokenView::Dimension(v, "deg"@),
        Angle::Rad(v) => TokenView::Dimension(v, "rad"@),
        Angle::Grad(v) => TokenView::Dimension(v, "grad"@),
        Angle::Turn(v) => TokenView::Dimension(v, "turn"@),
    }
}

/// An angle reads back from the token it is written as.
pub proof fn lemma_angle_round_trip(a: Angle, t: Token)
    requires
        token_view(t) == angle_view(a),
    ensures
        angle_of(t) == Some(a),
{
    reveal_strlit("deg");
    reveal_strlit("rad");
    reveal_strlit("grad");
    reveal_strlit("turn");
    lemma_keyword_differs("rad"@, "deg"@, 0);
    lemma_keyword_differs("turn"@, "grad"@, 0);
}

/// A length or percentage reads back from the token it is written as.
pub proof fn lemma_lp_round_trip(l: LengthPercentage, t: Token)
    requires
        token_view(t) == lp_view(l),
    ensures
        length_percentage_of(t) == Some(l),
{
    if let LengthPercentage::Dimension(d) = l {
        lemma_unit_name_round_trip(d.unit);
    }
}

/// A length reads back from the token it is written as.
pub proof fn lemma_length_round_trip(l: Length, t: Token)
    requires
        token_view(t) == TokenView::Dimension(l.value, l.unit.spec_name()),
    ensures
        length_of(t) == Some(l),
{
    lemma_unit_name_round_trip(l.unit);
}

} // verus!
