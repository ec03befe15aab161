//! `<position>` values: a horizontal and a vertical component, written with
//! keywords and offsets in either order.
use vstd::prelude::*;
use crate::number::{Decimal, DECIMAL_SCALE};
use crate::values::{LengthPercentage, Length, lemma_unit_name_round_trip, lemma_keyword_differs, lp_view};
use crate::rect::lp_token;
use crate::token::{
    Token, TokenView, ParseError, is_keyword, keyword_at, keyword_eq, token_view, views, ident,
    tokens_to_css, spaced_tokens_text,
};

verus! {

/// A side keyword of one axis.
pub trait SideKeyword: Sized + Copy {
    /// The keyword a token names, if any.
    spec fn spec_of(t: Token) -> Option<Self>;

    spec fn spec_name(self) -> Seq<char>;

    /// Reading the keyword's own name gives it back.
    proof fn lemma_name_round_trip(self, t: Token)
        requires
            token_view(t) == TokenView::Ident(self.spec_name()),
        ensures
            Self::spec_of(t) == Some(self),
            !is_keyword(t, "center"@),
    ;

    /// No other kind of token names a keyword.
    proof fn lemma_only_idents(t: Token)
        requires
            !(t is Ident),
        ensures
            Self::spec_of(t) is None,
    ;

    fn from_token(t: &Token) -> (r: Option<Self>)
        ensures
            r == Self::spec_of(*t),
    ;

    fn name(&self) -> (r: &'static str)
        ensures
            r@ == self.spec_name(),
    ;
}

#[derive(Clone, Copy, Debug, PartialEq, Eq, Structural)]
pub enum HorizontalPositionKeyword {
    Left,
    Right,
}

#[derive(Clone, Copy, Debug, PartialEq, Eq, Structural)]
pub enum VerticalPositionKeyword {
    Top,
    Bottom,
}

proof fn lemma_keyword_table()
    ensures
        !keyword_eq("left"@, "center"@),
        !keyword_eq("right"@, "center"@),
        !keyword_eq("top"@, "center"@),
        !keyword_eq("bottom"@, "center"@),
        !keyword_eq("right"@, "left"@),
        !keyword_eq("bottom"@, "top"@),
        !keyword_eq("top"@, "left"@),
        !keyword_eq("top"@, "right"@),
        !keyword_eq("bottom"@, "left"@),
        !keyword_eq("bottom"@, "right"@),
        !keyword_eq("left"@, "top"@),
        !keyword_eq("left"@, "bottom"@),
        !keyword_eq("right"@, "top"@),
        !keyword_eq("right"@, "bottom"@),
        !keyword_eq("center"@, "left"@),
        !keyword_eq("center"@, "right"@),
        !keyword_eq("center"@, "top"@),
        !keyword_eq("center"@, "bottom"@),
        keyword_eq("left"@, "left"@),
        keyword_eq("right"@, "right"@),
        keyword_eq("top"@, "top"@),
        keyword_eq("bottom"@, "bottom"@),
        keyword_eq("center"@, "center"@),
{
    reveal_strlit("left");
    reveal_strlit("right");
    reveal_strlit("top");
    reveal_strlit("bottom");
    reveal_strlit("center");
    lemma_keyword_differs("bottom"@, "center"@, 0);
    lemma_keyword_differs("center"@, "bottom"@, 0);
}

impl SideKeyword for HorizontalPositionKeyword {
    open spec fn spec_of(t: Token) -> Option<Self> {
        if is_keyword(t, "left"@) {
            Some(HorizontalPositionKeyword::Left)
        } else if is_keyword(t, "right"@) {
            Some(HorizontalPositionKeyword::Right)
        } else {
            None
        }
    }

    open spec fn spec_name(self) -> Seq<char> {
        match self {
            HorizontalPositionKeyword::Left => "left"@,
            HorizontalPositionKeyword::Right => "right"@,
        }
    }

    proof fn lemma_name_round_trip(self, t: Token) {
        lemma_keyword_table();
    }

    proof fn lemma_only_idents(t: Token) {
    }

    fn from_token(t: &Token) -> (r: Option<Self>) {
        match t {
            Token::Ident(s) => if crate::token::matches_keyword(s.as_str(), "left") {
                Some(HorizontalPositionKeyword::Left)
            } else if crate::token::matches_keyword(s.as_str(), "right") {
                Some(HorizontalPositionKeyword::Right)
            } else {
                None
            },
            _ => None,
        }
    }

    fn name(&self) -> (r: &'static str) {
        match self {
            HorizontalPositionKeyword::Left => "left",
            HorizontalPositionKeyword::Right => "right",
        }
    }
}

impl SideKeyword for VerticalPositionKeyword {
    open spec fn spec_of(t: Token) -> Option<Self> {
        if is_keyword(t, "top"@) {
            Some(VerticalPositionKeyword::Top)
        } else if is_keyword(t, "bottom"@) {
            Some(VerticalPositionKeyword::Bottom)
        } else {
            None
        }
    }

    open spec fn spec_name(self) -> Seq<char> {
        match self {
            VerticalPositionKeyword::Top => "top"@,
            VerticalPositionKeyword::Bottom => "bottom"@,
        }
    }

    proof fn lemma_name_round_trip(self, t: Token) {
        lemma_keyword_table();
    }

    proof fn lemma_only_idents(t: Token) {
    }

    fn from_token(t: &Token) -> (r: Option<Self>) {
        match t {
            Token::Ident(s) => if crate::token::matches_keyword(s.as_str(), "top") {
                Some(VerticalPositionKeyword::Top)
            } else if crate::token::matches_keyword(s.as_str(), "bottom") {
                Some(VerticalPositionKeyword::Bottom)
            } else {
                None
            },
            _ => None,
        }
    }

    fn name(&self) -> (r: &'static str) {
        match self {
            VerticalPositionKeyword::Top => "top",
            VerticalPositionKeyword::Bottom => "bottom",
        }
    }
}

/// One axis of a position.
#[derive(Clone, Copy, Debug, PartialEq, Eq, Structural)]
pub enum PositionComponent<S> {
    /// `center`
    Center,
    /// `<length-percentage>`, an offset from the start side
    Length(LengthPercentage),
    /// `<side> <length-percentage>?`
    Side(S, Option<LengthPercentage>),
}

pub type HorizontalPosition = PositionComponent<HorizontalPositionKeyword>;

pub type VerticalPosition = PositionComponent<VerticalPositionKeyword>;

/// A position: where a point lies on each axis.
#[derive(Clone, Copy, Debug, PartialEq, Eq, Structural)]
pub struct Position {
    pub x: HorizontalPosition,
    pub y: VerticalPosition,
}

pub open spec fn side_at<S: SideKeyword>(toks: Seq<Token>, p: int) -> Option<S> {
    if 0 <= p < toks.len() {
        S::spec_of(toks[p])
    } else {
        None
    }
}

pub open spec fn center_at(toks: Seq<Token>, p: int) -> bool {
    0 <= p < toks.len() && is_keyword(toks[p], "center"@)
}

/// One axis at `p`: `center`, an offset, or a side keyword with an optional
/// offset; and the index after it.
pub open spec fn component_at<S: SideKeyword>(toks: Seq<Token>, p: int) -> Option<(PositionComponent<S>, int)> {
    if center_at(toks, p) {
        Some((PositionComponent::Center, p + 1))
    } else {
        match lp_token(toks, p) {
            Some(l) => Some((PositionComponent::Length(l), p + 1)),
            None => match side_at::<S>(toks, p) {
                Some(k) => match lp_token(toks, p + 1) {
                    Some(l) => Some((PositionComponent::Side(k, Some(l)), p + 2)),
                    None => Some((PositionComponent::Side(k, None), p + 1)),
                },
                None => None,
            },
        }
    }
}

/// A position at `p`, and the index after it. The horizontal component comes
/// first when it can; `center` alone, or a vertical side first, puts the
/// axes the other way round.
pub open spec fn position_at(toks: Seq<Token>, p: int) -> Option<(Position, int)> {
    match component_at::<HorizontalPositionKeyword>(toks, p) {
        Some((PositionComponent::Center, e)) => match component_at::<VerticalPositionKeyword>(toks, e) {
            Some((y, e2)) => Some((Position { x: PositionComponent::Center, y }, e2)),
            None => match component_at::<HorizontalPositionKeyword>(toks, e) {
                Some((x, e2)) => Some((Position { x, y: PositionComponent::Center }, e2)),
                None => Some((Position { x: PositionComponent::Center, y: PositionComponent::Center }, e)),
            },
        },
        Some((PositionComponent::Length(l), e)) => {
            let x = PositionComponent::Length(l);
            match side_at::<VerticalPositionKeyword>(toks, e) {
                Some(k) => Some((Position { x, y: PositionComponent::Side(k, None) }, e + 1)),
                None => match lp_token(toks, e) {
                    Some(yl) => Some((Position { x, y: PositionComponent::Length(yl) }, e + 1)),
                    None => if center_at(toks, e) {
                        Some((Position { x, y: PositionComponent::Center }, e + 1))
                    } else {
                        Some((Position { x, y: PositionComponent::Center }, e))
                    },
                },
            }
        },
        Some((PositionComponent::Side(xk, xl), e)) => if center_at(toks, e) {
            Some((Position { x: PositionComponent::Side(xk, xl), y: PositionComponent::Center }, e + 1))
        } else {
            match side_at::<VerticalPositionKeyword>(toks, e) {
                Some(yk) => match lp_token(toks, e + 1) {
                    Some(yl) => Some((Position { x: PositionComponent::Side(xk, xl), y: PositionComponent::Side(yk, Some(yl)) }, e + 2)),
                    None => Some((Position { x: PositionComponent::Side(xk, xl), y: PositionComponent::Side(yk, None) }, e + 1)),
                },
                None => Some((
                    Position {
                        x: PositionComponent::Side(xk, None),
                        y: match xl {
                            Some(l) => PositionComponent::Length(l),
                            None => PositionComponent::Center,
                        },
                    },
                    e,
                )),
            }
        },
        None => match side_at::<VerticalPositionKeyword>(toks, p) {
            Some(yk) => {
                let q = p + 1;
                let (yl, q2) = match lp_token(toks, q) {
                    Some(l) => (Some(l), q + 1),
                    None => (None, q),
                };
                match side_at::<HorizontalPositionKeyword>(toks, q2) {
                    Some(xk) => match lp_token(toks, q2 + 1) {
                        Some(xl) => Some((Position { x: PositionComponent::Side(xk, Some(xl)), y: PositionComponent::Side(yk, yl) }, q2 + 2)),
                        None => Some((Position { x: PositionComponent::Side(xk, None), y: PositionComponent::Side(yk, yl) }, q2 + 1)),
                    },
                    None => if center_at(toks, q2) {
                        Some((Position { x: PositionComponent::Center, y: PositionComponent::Side(yk, yl) }, q2 + 1))
                    } else {
                        Some((Position { x: PositionComponent::Center, y: PositionComponent::Side(yk, None) }, q))
                    },
                }
            },
            None => None,
        },
    }
}

pub open spec fn is_half(l: LengthPercentage) -> bool {
    l == LengthPercentage::Percentage(Decimal { scaled: (50 * DECIMAL_SCALE) as i64 })
}

/// The tokens of one axis; `center` is written `50%` when minifying.
pub open spec fn component_views<S: SideKeyword>(c: PositionComponent<S>, minify: bool) -> Seq<TokenView> {
    match c {
        PositionComponent::Center => if minify {
            seq![TokenView::Percentage(Decimal { scaled: (50 * DECIMAL_SCALE) as i64 })]
        } else {
            seq![TokenView::Ident("center"@)]
        },
        PositionComponent::Length(l) => seq![lp_view(l)],
        PositionComponent::Side(k, None) => seq![TokenView::Ident(k.spec_name())],
        PositionComponent::Side(k, Some(l)) => seq![TokenView::Ident(k.spec_name()), lp_view(l)],
    }
}

/// The tokens a position is written as. `center`, and a 50% offset beside a
/// bare keyword or offset, are left out where they are implied; an offset
/// beside a side with an offset gets an explicit `top` or `left` anchor.
pub open spec fn position_views(p: Position, minify: bool) -> Seq<TokenView> {
    let xs = component_views(p.x, minify);
    let ys = component_views(p.y, minify);
    match (p.x, p.y) {
        (PositionComponent::Side(_, Some(_)), PositionComponent::Length(yl)) => xs + seq![
            TokenView::Ident("top"@),
            lp_view(yl),
        ],
        (PositionComponent::Length(xl), PositionComponent::Side(_, Some(_))) => seq![
            TokenView::Ident("left"@),
            lp_view(xl),
        ] + ys,
        (PositionComponent::Length(xl), PositionComponent::Center) => xs,
        (PositionComponent::Side(_, None), PositionComponent::Center) => xs,
        (PositionComponent::Center, PositionComponent::Side(_, None)) => ys,
        (PositionComponent::Length(xl), PositionComponent::Length(yl)) => if is_half(yl) {
            xs
        } else {
            xs + ys
        },
        (PositionComponent::Side(_, None), PositionComponent::Length(yl)) => if is_half(yl) {
            xs
        } else {
            xs + ys
        },
        (PositionComponent::Length(xl), PositionComponent::Side(_, None)) => if is_half(xl) {
            ys
        } else {
            xs + ys
        },
        _ => xs + ys,
    }
}

/// Positions whose written form reads back as the same value: no anchor
/// keyword is added, and no 50% offset is dropped as implied.
pub open spec fn round_trips(p: Position) -> bool {
    match (p.x, p.y) {
        (PositionComponent::Side(_, Some(_)), PositionComponent::Length(_)) => false,
        (PositionComponent::Length(_), PositionComponent::Side(_, Some(_))) => false,
        (PositionComponent::Length(_), PositionComponent::Length(yl)) => !is_half(yl),
        (PositionComponent::Side(_, None), PositionComponent::Length(yl)) => !is_half(yl),
        (PositionComponent::Length(xl), PositionComponent::Side(_, None)) => !is_half(xl),
        _ => true,
    }
}

proof fn lemma_token_facts(toks: Seq<Token>, i: int)
    requires
        0 <= i < toks.len(),
    ensures
        token_view(toks[i]) == TokenView::Ident("center"@) ==> center_at(toks, i) && side_at::<
            HorizontalPositionKeyword,
        >(toks, i) is None && side_at::<VerticalPositionKeyword>(toks, i) is None && lp_token(
            toks,
            i,
        ) is None,
        forall|k: HorizontalPositionKeyword|
            token_view(toks[i]) == TokenView::Ident(#[trigger] k.spec_name()) ==> side_at::<
                HorizontalPositionKeyword,
            >(toks, i) == Some(k) && side_at::<VerticalPositionKeyword>(toks, i) is None
                && !center_at(toks, i) && lp_token(toks, i) is None,
        forall|k: VerticalPositionKeyword|
            token_view(toks[i]) == TokenView::Ident(#[trigger] k.spec_name()) ==> side_at::<
                VerticalPositionKeyword,
            >(toks, i) == Some(k) && side_at::<HorizontalPositionKeyword>(toks, i) is None
                && !center_at(toks, i) && lp_token(toks, i) is None,
        forall|l: LengthPercentage|
            token_view(toks[i]) == #[trigger] lp_view(l) ==> lp_token(toks, i) == Some(l) && side_at::<
                HorizontalPositionKeyword,
            >(toks, i) is None && side_at::<VerticalPositionKeyword>(toks, i) is None
                && !center_at(toks, i),
{
    lemma_keyword_table();
    assert forall|l: LengthPercentage| token_view(toks[i]) == #[trigger] lp_view(l) implies lp_token(
        toks,
        i,
    ) == Some(l) && side_at::<HorizontalPositionKeyword>(toks, i) is None && side_at::<
        VerticalPositionKeyword,
    >(toks, i) is None && !center_at(toks, i) by {
        match l {
            LengthPercentage::Dimension(d) => {
                lemma_unit_name_round_trip(d.unit);
            },
            LengthPercentage::Percentage(_) => {},
        }
    }
}

/// A position that needs no anchor keyword and drops no implied 50% reads
/// back, from the tokens it is written as, as the same position.
pub proof fn lemma_position_round_trip(p: Position, toks: Seq<Token>)
    requires
        round_trips(p),
        views(toks) == position_views(p, false),
    ensures
        position_at(toks, 0) == Some((p, toks.len() as int)),
{
    let n = toks.len() as int;
    assert(views(toks).len() == n);
    assert forall|i: int| 0 <= i < n implies token_view(#[trigger] toks[i]) == position_views(p, false)[i] by {
        assert(views(toks)[i] == token_view(toks[i]));
    }
    lemma_keyword_table();
    if n > 0 {
        lemma_token_facts(toks, 0);
    }
    if n > 1 {
        lemma_token_facts(toks, 1);
    }
    if n > 2 {
        lemma_token_facts(toks, 2);
    }
    if n > 3 {
        lemma_token_facts(toks, 3);
    }
    match (p.x, p.y) {
        (PositionComponent::Center, PositionComponent::Center) => {
            assert(position_views(p, false) =~= seq![TokenView::Ident("center"@)] + seq![TokenView::Ident("center"@)]);
            assert(position_at(toks, 0) == Some((p, n)));
        },
        (PositionComponent::Center, PositionComponent::Length(ya)) => {
            assert(position_views(p, false) =~= seq![TokenView::Ident("center"@)] + seq![lp_view(ya)]);
            assert(position_at(toks, 0) == Some((p, n)));
        },
        (PositionComponent::Center, PositionComponent::Side(yk, None)) => {
            assert(position_views(p, false) =~= seq![TokenView::Ident(yk.spec_name())]);
            assert(position_at(toks, 0) == Some((p, n)));
        },
        (PositionComponent::Center, PositionComponent::Side(yk, Some(ya))) => {
            assert(position_views(p, false) =~= seq![TokenView::Ident("center"@)] + seq![TokenView::Ident(yk.spec_name()), lp_view(ya)]);
            assert(position_at(toks, 0) == Some((p, n)));
        },
        (PositionComponent::Length(xa), PositionComponent::Center) => {
            assert(position_views(p, false) =~= seq![lp_view(xa)]);
            assert(position_at(toks, 0) == Some((p, n)));
        },
        (PositionComponent::Length(xa), PositionComponent::Length(ya)) => {
            assert(position_views(p, false) =~= seq![lp_view(xa)] + seq![lp_view(ya)]);
            assert(position_at(toks, 0) == Some((p, n)));
        },
        (PositionComponent::Length(xa), PositionComponent::Side(yk, None)) => {
            assert(position_views(p, false) =~= seq![lp_view(xa)] + seq![TokenView::Ident(yk.spec_name())]);
            assert(position_at(toks, 0) == Some((p, n)));
        },
        (PositionComponent::Side(xk, None), PositionComponent::Center) => {
            assert(position_views(p, false) =~= seq![TokenView::Ident(xk.spec_name())]);
            assert(position_at(toks, 0) == Some((p, n)));
        },
        (PositionComponent::Side(xk, None), PositionComponent::Length(ya)) => {
            assert(position_views(p, false) =~= seq![TokenView::Ident(xk.spec_name())] + seq![lp_view(ya)]);
            assert(position_at(toks, 0) == Some((p, n)));
        },
        (PositionComponent::Side(xk, None), PositionComponent::Side(yk, None)) => {
            assert(position_views(p, false) =~= seq![TokenView::Ident(xk.spec_name())] + seq![TokenView::Ident(yk.spec_name())]);
            assert(position_at(toks, 0) == Some((p, n)));
        },
        (PositionComponent::Side(xk, None), PositionComponent::Side(yk, Some(ya))) => {
            assert(position_views(p, false) =~= seq![TokenView::Ident(xk.spec_name())] + seq![TokenView::Ident(yk.spec_name()), lp_view(ya)]);
            assert(position_at(toks, 0) == Some((p, n)));
        },
        (PositionComponent::Side(xk, Some(xa)), PositionComponent::Center) => {
            assert(position_views(p, false) =~= seq![TokenView::Ident(xk.spec_name()), lp_view(xa)] + seq![TokenView::Ident("center"@)]);
            assert(position_at(toks, 0) == Some((p, n)));
        },
        (PositionComponent::Side(xk, Some(xa)), PositionComponent::Side(yk, None)) => {
            assert(position_views(p, false) =~= seq![TokenView::Ident(xk.spec_name()), lp_view(xa)] + seq![TokenView::Ident(yk.spec_name())]);
            assert(position_at(toks, 0) == Some((p, n)));
        },
        (PositionComponent::Side(xk, Some(xa)), PositionComponent::Side(yk, Some(ya))) => {
            assert(position_views(p, false) =~= seq![TokenView::Ident(xk.spec_name()), lp_view(xa)] + seq![TokenView::Ident(yk.spec_name()), lp_view(ya)]);
            assert(position_at(toks, 0) == Some((p, n)));
        },
        _ => {},
    }
}

fn lp_at(tokens: &Vec<Token>, i: usize) -> (r: Option<LengthPercentage>)
    ensures
        r == lp_token(tokens@, i as int),
{
    if i < tokens.len() {
        LengthPercentage::from_token(&tokens[i])
    } else {
        None
    }
}

fn side_of<S: SideKeyword>(tokens: &Vec<Token>, i: usize) -> (r: Option<S>)
    ensures
        r == side_at::<S>(tokens@, i as int),
{
    if i < tokens.len() {
        S::from_token(&tokens[i])
    } else {
        None
    }
}

/// The token a length or percentage is written as.
pub fn lp_to_token(l: &LengthPercentage) -> (r: Token)
    ensures
        token_view(r) == lp_view(*l),
{
    match l {
        LengthPercentage::Dimension(d) => Token::Dimension(d.value, String::from_str(d.unit.name())),
        LengthPercentage::Percentage(p) => Token::Percentage(*p),
    }
}

fn push_token(out: &mut Vec<Token>, t: Token)
    ensures
        views(final(out)@) == views(old(out)@).push(token_view(t)),
{
    out.push(t);
    assert(views(out@) =~= views(old(out)@).push(token_view(t)));
}

impl<S: SideKeyword> PositionComponent<S> {
    /// Parses one axis at `pos`: `center`, an offset, or a side keyword with
    /// an optional offset.
    pub fn parse(tokens: &Vec<Token>, pos: usize) -> (r: Result<(PositionComponent<S>, usize), ParseError>)
        ensures
            match (component_at::<S>(tokens@, pos as int), r) {
                (Some((c, end)), Ok((v, e))) => v == c && e == end,
                (None, Err(err)) => err == ParseError::at(pos as int, tokens@.len() as int),
                _ => false,
            },
    {
        let n = tokens.len();
        if keyword_at(tokens, pos, "center") {
            return Ok((PositionComponent::Center, pos + 1));
        }
        if let Some(l) = lp_at(tokens, pos) {
            return Ok((PositionComponent::Length(l), pos + 1));
        }
        match side_of::<S>(tokens, pos) {
            Some(k) => match lp_at(tokens, pos + 1) {
                Some(l) => Ok((PositionComponent::Side(k, Some(l)), pos + 2)),
                None => Ok((PositionComponent::Side(k, None), pos + 1)),
            },
            None => Err(ParseError::new_at(pos, n)),
        }
    }

    /// Appends the tokens the axis is written as.
    pub fn write_tokens(&self, out: &mut Vec<Token>, minify: bool)
        ensures
            views(final(out)@) == views(old(out)@) + component_views(*self, minify),
    {
        let ghost start = views(out@);
        match self {
            PositionComponent::Center => {
                if minify {
                    push_token(out, Token::Percentage(Decimal { scaled: 50 * DECIMAL_SCALE }));
                } else {
                    push_token(out, ident("center"));
                }
            },
            PositionComponent::Length(l) => push_token(out, lp_to_token(l)),
            PositionComponent::Side(k, lp) => {
                push_token(out, ident(k.name()));
                if let Some(l) = lp {
                    push_token(out, lp_to_token(l));
                }
            },
        }
        assert(views(out@) =~= start + component_views(*self, minify));
    }
}

impl Position {
    /// Parses a position at `pos`; gives it and the index after it.
    pub fn parse(tokens: &Vec<Token>, pos: usize) -> (r: Result<(Position, usize), ParseError>)
        ensures
            match (position_at(tokens@, pos as int), r) {
                (Some((v, end)), Ok((w, e))) => w == v && e == end,
                (None, Err(err)) => err == ParseError::at(pos as int, tokens@.len() as int),
                _ => false,
            },
    {
        let n = tokens.len();
        match PositionComponent::<HorizontalPositionKeyword>::parse(tokens, pos) {
            Ok((PositionComponent::Center, e)) => {
                match PositionComponent::<VerticalPositionKeyword>::parse(tokens, e) {
                    Ok((y, e2)) => Ok((Position { x: PositionComponent::Center, y }, e2)),
                    Err(_) => match PositionComponent::<HorizontalPositionKeyword>::parse(tokens, e) {
                        Ok((x, e2)) => Ok((Position { x, y: PositionComponent::Center }, e2)),
                        Err(_) => Ok((Position { x: PositionComponent::Center, y: PositionComponent::Center }, e)),
                    },
                }
            },
            Ok((PositionComponent::Length(l), e)) => {
                let x = PositionComponent::Length(l);
                if let Some(k) = side_of::<VerticalPositionKeyword>(tokens, e) {
                    return Ok((Position { x, y: PositionComponent::Side(k, None) }, e + 1));
                }
                if let Some(yl) = lp_at(tokens, e) {
                    return Ok((Position { x, y: PositionComponent::Length(yl) }, e + 1));
                }
                if keyword_at(tokens, e, "center") {
                    Ok((Position { x, y: PositionComponent::Center }, e + 1))
                } else {
                    Ok((Position { x, y: PositionComponent::Center }, e))
                }
            },
            Ok((PositionComponent::Side(xk, xl), e)) => {
                if keyword_at(tokens, e, "center") {
                    return Ok((Position { x: PositionComponent::Side(xk, xl), y: PositionComponent::Center }, e + 1));
                }
                match side_of::<VerticalPositionKeyword>(tokens, e) {
                    Some(yk) => match lp_at(tokens, e + 1) {
                        Some(yl) => Ok((Position { x: PositionComponent::Side(xk, xl), y: PositionComponent::Side(yk, Some(yl)) }, e + 2)),
                        None => Ok((Position { x: PositionComponent::Side(xk, xl), y: PositionComponent::Side(yk, None) }, e + 1)),
                    },
                    None => Ok((
                        Position {
                            x: PositionComponent::Side(xk, None),
                            y: match xl {
                                Some(l) => PositionComponent::Length(l),
                                None => PositionComponent::Center,
                            },
                        },
                        e,
                    )),
                }
            },
            Err(_) => match side_of::<VerticalPositionKeyword>(tokens, pos) {
                Some(yk) => {
                    let q = pos + 1;
                    let (yl, q2) = match lp_at(tokens, q) {
                        Some(l) => (Some(l), q + 1),
                        None => (None, q),
                    };
                    match side_of::<HorizontalPositionKeyword>(tokens, q2) {
                        Some(xk) => match lp_at(tokens, q2 + 1) {
                            Some(xl) => Ok((Position { x: PositionComponent::Side(xk, Some(xl)), y: PositionComponent::Side(yk, yl) }, q2 + 2)),
                            None => Ok((Position { x: PositionComponent::Side(xk, None), y: PositionComponent::Side(yk, yl) }, q2 + 1)),
                        },
                        None => if keyword_at(tokens, q2, "center") {
                            Ok((Position { x: PositionComponent::Center, y: PositionComponent::Side(yk, yl) }, q2 + 1))
                        } else {
                            Ok((Position { x: PositionComponent::Center, y: PositionComponent::Side(yk, None) }, q))
                        },
                    }
                },
                None => Err(ParseError::new_at(pos, n)),
            },
        }
    }

    /// The tokens the position is written as.
    pub fn to_tokens(&self, minify: bool) -> (r: Vec<Token>)
        ensures
            views(r@) == position_views(*self, minify),
    {
        let mut out: Vec<Token> = Vec::new();
        assert(views(out@) =~= Seq::<TokenView>::empty());
        let half = LengthPercentage::Percentage(Decimal { scaled: 50 * DECIMAL_SCALE });
        match (&self.x, &self.y) {
            (PositionComponent::Side(_, Some(_)), PositionComponent::Length(yl)) => {
                self.x.write_tokens(&mut out, minify);
                push_token(&mut out, ident("top"));
                push_token(&mut out, lp_to_token(yl));
            },
            (PositionComponent::Length(xl), PositionComponent::Side(_, Some(_))) => {
                push_token(&mut out, ident("left"));
                push_token(&mut out, lp_to_token(xl));
                self.y.write_tokens(&mut out, minify);
            },
            (PositionComponent::Length(_), PositionComponent::Center)
            | (PositionComponent::Side(_, None), PositionComponent::Center) => {
                self.x.write_tokens(&mut out, minify);
            },
            (PositionComponent::Center, PositionComponent::Side(_, None)) => {
                self.y.write_tokens(&mut out, minify);
            },
            (PositionComponent::Length(_), PositionComponent::Length(yl))
            | (PositionComponent::Side(_, None), PositionComponent::Length(yl)) => {
                self.x.write_tokens(&mut out, minify);
                if *yl != half {
                    self.y.write_tokens(&mut out, minify);
                }
            },
            (PositionComponent::Length(xl), PositionComponent::Side(_, None)) => {
                if *xl != half {
                    self.x.write_tokens(&mut out, minify);
                }
                self.y.write_tokens(&mut out, minify);
            },
            _ => {
                self.x.write_tokens(&mut out, minify);
                self.y.write_tokens(&mut out, minify);
            },
        }
        assert(views(out@) =~= position_views(*self, minify));
        out
    }

    /// The position's text: its tokens separated by spaces.
    pub fn to_css(&self, minify: bool) -> (r: String)
        ensures
            r@ == spaced_tokens_text(position_views(*self, minify)),
    {
        let tokens = self.to_tokens(minify);
        tokens_to_css(&tokens)
    }

    /// `center center`.
    pub fn center() -> (r: Position)
        ensures
            r == (Position { x: PositionComponent::Center, y: PositionComponent::Center }),
    {
        Position { x: PositionComponent::Center, y: PositionComponent::Center }
    }

    /// Whether the position is the center: `center center`, or 50% on both axes.
    pub fn is_center(&self) -> (r: bool)
        ensures
            r == (*self == Position::spec_center() || *self == (Position {
                x: PositionComponent::Length(LengthPercentage::Percentage(Decimal { scaled: (50 * DECIMAL_SCALE) as i64 })),
                y: PositionComponent::Length(LengthPercentage::Percentage(Decimal { scaled: (50 * DECIMAL_SCALE) as i64 })),
            })),
    {
        let half = LengthPercentage::Percentage(Decimal { scaled: 50 * DECIMAL_SCALE });
        *self == Position::center() || *self == Position {
            x: PositionComponent::Length(half),
            y: PositionComponent::Length(half),
        }
    }

    pub open spec fn spec_center() -> Position {
        Position { x: PositionComponent::Center, y: PositionComponent::Center }
    }
}

impl Default for Position {
    /// The initial position: the top left corner, `0% 0%`.
    fn default() -> (r: Position)
        ensures
            r == (Position {
                x: PositionComponent::Length(LengthPercentage::Percentage(Decimal { scaled: 0 })),
                y: PositionComponent::Length(LengthPercentage::Percentage(Decimal { scaled: 0 })),
            }),
    {
        let zero = LengthPercentage::Percentage(Decimal { scaled: 0 });
        Position { x: PositionComponent::Length(zero), y: PositionComponent::Length(zero) }
    }
}

} // verus!
