//! Four values addressed as top, right, bottom, left, written with CSS's
//! one-to-four-value shorthand.
use vstd::prelude::*;
use crate::values::{LengthPercentage, length_percentage_text, length_percentage_of};
use crate::token::{Token, ParseError};

verus! {

/// Top, right, bottom and left values.
#[derive(Clone, Copy, Debug, PartialEq, Eq, Structural)]
pub struct Rect<T>(pub T, pub T, pub T, pub T);

/// The four values that one to four written values stand for: one value sets
/// all sides, two set top/bottom and right/left, three set top, right/left
/// and bottom.
pub open spec fn expand<T>(vals: Seq<T>) -> Rect<T>
    recommends
        1 <= vals.len() <= 4,
{
    if vals.len() == 1 {
        Rect(vals[0], vals[0], vals[0], vals[0])
    } else if vals.len() == 2 {
        Rect(vals[0], vals[1], vals[0], vals[1])
    } else if vals.len() == 3 {
        Rect(vals[0], vals[1], vals[2], vals[1])
    } else {
        Rect(vals[0], vals[1], vals[2], vals[3])
    }
}

/// How many values the shortest writing of the rect needs.
pub open spec fn collapsed_len<T>(r: Rect<T>) -> nat {
    if r.0 == r.1 && r.0 == r.2 && r.1 == r.3 {
        1
    } else if r.0 == r.2 && r.1 == r.3 {
        2
    } else if r.1 == r.3 {
        3
    } else {
        4
    }
}

/// The values written for the rect: its leading values, as few as re-expand to it.
pub open spec fn collapse<T>(r: Rect<T>) -> Seq<T> {
    seq![r.0, r.1, r.2, r.3].take(collapsed_len(r) as int)
}

/// Collapsing and then expanding gives the rect back, and no shorter list of
/// values expands to it.
pub proof fn lemma_collapse_expand<T>(q: Rect<T>)
    ensures
        1 <= collapse(q).len() <= 4,
        expand(collapse(q)) == q,
        forall|vals: Seq<T>|
            1 <= vals.len() < collapse(q).len() ==> #[trigger] expand(vals) != q,
{
    assert(collapse(q).len() == collapsed_len(q));
}

/// `vals` were read one after another from `pos` by `parse`, ending at the
/// indexes `ends`; fewer than four only where the next read failed.
pub open spec fn parsed_run<T, F: Fn(&Vec<Token>, usize) -> Result<(T, usize), ParseError>>(
    parse: F,
    tokens: &Vec<Token>,
    pos: usize,
    vals: Seq<T>,
    ends: Seq<usize>,
) -> bool {
    &&& 1 <= vals.len() <= 4
    &&& ends.len() == vals.len() + 1
    &&& ends[0] == pos
    &&& forall|k: int|
        0 <= k < vals.len() ==> parse.ensures((tokens, #[trigger] ends[k]), Ok((vals[k], ends[k + 1])))
    &&& vals.len() < 4 ==> exists|e: ParseError| parse.ensures((tokens, ends.last()), Err(e))
}

impl<T: Copy> Rect<T> {
    /// Reads one to four values with `parse`, stopping at the first that
    /// fails, and expands them to the four sides.
    pub fn parse_with<F: Fn(&Vec<Token>, usize) -> Result<(T, usize), ParseError>>(
        tokens: &Vec<Token>,
        pos: usize,
        parse: F,
    ) -> (r: Result<(Rect<T>, usize), ParseError>)
        requires
            forall|i: usize| #[trigger] parse.requires((tokens, i)),
        ensures
            match r {
                Ok((rect, end)) => exists|vals: Seq<T>, ends: Seq<usize>|
                    parsed_run(parse, tokens, pos, vals, ends) && rect == expand(vals) && end
                        == ends.last(),
                Err(e) => parse.ensures((tokens, pos), Err(e)),
            },
    {
        let (first, e1) = match parse(tokens, pos) {
            Ok(x) => x,
            Err(e) => return Err(e),
        };
        let (second, e2) = match parse(tokens, e1) {
            Ok(x) => x,
            Err(e) => {
                let ghost vals = seq![first];
                let ghost ends = seq![pos, e1];
                assert(parsed_run(parse, tokens, pos, vals, ends));
                return Ok((Rect(first, first, first, first), e1));
            },
        };
        let (third, e3) = match parse(tokens, e2) {
            Ok(x) => x,
            Err(e) => {
                let ghost vals = seq![first, second];
                let ghost ends = seq![pos, e1, e2];
                assert(parsed_run(parse, tokens, pos, vals, ends));
                return Ok((Rect(first, second, first, second), e2));
            },
        };
        match parse(tokens, e3) {
            Ok((fourth, e4)) => {
                let ghost vals = seq![first, second, third, fourth];
                let ghost ends = seq![pos, e1, e2, e3, e4];
                assert(parsed_run(parse, tokens, pos, vals, ends));
                Ok((Rect(first, second, third, fourth), e4))
            },
            Err(e) => {
                let ghost vals = seq![first, second, third];
                let ghost ends = seq![pos, e1, e2, e3];
                assert(parsed_run(parse, tokens, pos, vals, ends));
                Ok((Rect(first, second, third, second), e3))
            },
        }
    }

    pub fn new(first: T, second: T, third: T, fourth: T) -> (r: Rect<T>)
        ensures
            r == Rect(first, second, third, fourth),
    {
        Rect(first, second, third, fourth)
    }

    /// A rect with the same value on every side.
    pub fn all(v: T) -> (r: Rect<T>)
        ensures
            r == Rect(v, v, v, v),
    {
        Rect(v, v, v, v)
    }
}

/// The length or percentage at token `i`, if there is one.
pub open spec fn lp_token(toks: Seq<Token>, i: int) -> Option<LengthPercentage> {
    if 0 <= i < toks.len() {
        length_percentage_of(toks[i])
    } else {
        None
    }
}

/// The values read from `pos` on, one token each, as long as they parse and
/// at most `k` of them.
pub open spec fn lp_run(toks: Seq<Token>, pos: int, k: nat) -> Seq<LengthPercentage>
    decreases k,
{
    if k == 0 {
        Seq::empty()
    } else {
        match lp_token(toks, pos) {
            Some(v) => seq![v] + lp_run(toks, pos + 1, (k - 1) as nat),
            None => Seq::empty(),
        }
    }
}

/// A rect of lengths or percentages at `pos`: one to four values.
pub open spec fn lp_rect_at(toks: Seq<Token>, pos: int) -> Option<(Rect<LengthPercentage>, int)> {
    let vals = lp_run(toks, pos, 4);
    if vals.len() == 0 {
        None
    } else {
        Some((expand(vals), pos + vals.len()))
    }
}

proof fn lemma_lp_run_len(toks: Seq<Token>, pos: int, k: nat)
    ensures
        lp_run(toks, pos, k).len() <= k,
        forall|j: int|
            0 <= j < lp_run(toks, pos, k).len() ==> lp_token(toks, pos + j) == Some(
                #[trigger] lp_run(toks, pos, k)[j],
            ),
    decreases k,
{
    if k > 0 {
        lemma_lp_run_len(toks, pos + 1, (k - 1) as nat);
        if let Some(v) = lp_token(toks, pos) {
            let rest = lp_run(toks, pos + 1, (k - 1) as nat);
            assert forall|j: int| 0 <= j < lp_run(toks, pos, k).len() implies lp_token(toks, pos + j)
                == Some(#[trigger] lp_run(toks, pos, k)[j]) by {
                if j > 0 {
                    assert(lp_run(toks, pos, k)[j] == rest[j - 1]);
                    assert(pos + 1 + (j - 1) == pos + j);
                }
            }
        }
    }
}

/// The texts of the values joined by single spaces.
pub open spec fn spaced_text(vals: Seq<LengthPercentage>) -> Seq<char>
    decreases vals.len(),
{
    if vals.len() == 0 {
        Seq::empty()
    } else if vals.len() == 1 {
        length_percentage_text(vals[0])
    } else {
        spaced_text(vals.drop_last()) + " "@ + length_percentage_text(vals.last())
    }
}

pub open spec fn lp_rect_text(r: Rect<LengthPercentage>) -> Seq<char> {
    spaced_text(collapse(r))
}

impl Rect<LengthPercentage> {
    /// Parses one to four lengths or percentages at `pos` and expands them.
    pub fn parse(tokens: &Vec<Token>, pos: usize) -> (r: Result<(Rect<LengthPercentage>, usize), ParseError>)
        ensures
            match (lp_rect_at(tokens@, pos as int), r) {
                (Some((v, end)), Ok((w, e))) => w == v && e == end,
                (None, Err(err)) => err == ParseError::at(pos as int, tokens@.len() as int),
                _ => false,
            },
    {
        let n = tokens.len();
        let mut vals: Vec<LengthPercentage> = Vec::new();
        let mut i: usize = pos;
        proof {
            lemma_lp_run_len(tokens@, pos as int, 4);
        }
        loop
            invariant
                vals@.len() <= 4,
                i == pos + vals@.len(),
                n == tokens@.len(),
                lp_run(tokens@, pos as int, 4) == vals@ + lp_run(tokens@, i as int, (4 - vals@.len()) as nat),
            ensures
                vals@.len() <= 4,
                i == pos + vals@.len(),
                lp_run(tokens@, pos as int, 4) == vals@,
            decreases 4 - vals@.len(),
        {
            if vals.len() >= 4 {
                assert(lp_run(tokens@, i as int, 0) =~= Seq::<LengthPercentage>::empty());
                assert(vals@ + Seq::<LengthPercentage>::empty() =~= vals@);
                break;
            }
            if i >= n {
                assert(lp_run(tokens@, i as int, (4 - vals@.len()) as nat) =~= Seq::<LengthPercentage>::empty());
                assert(vals@ + Seq::<LengthPercentage>::empty() =~= vals@);
                break;
            }
            match LengthPercentage::from_token(&tokens[i]) {
                Some(v) => {
                    let ghost prev = vals@;
                    vals.push(v);
                    assert(prev + (seq![v] + lp_run(tokens@, i + 1, (4 - vals@.len()) as nat)) =~= vals@
                        + lp_run(tokens@, i + 1, (4 - vals@.len()) as nat));
                    i = i + 1;
                },
                None => {
                    assert(lp_run(tokens@, i as int, (4 - vals@.len()) as nat) =~= Seq::<LengthPercentage>::empty());
                    assert(vals@ + Seq::<LengthPercentage>::empty() =~= vals@);
                    break;
                },
            }
        }
        let len = vals.len();
        if len == 0 {
            return Err(ParseError::new_at(pos, n));
        }
        let first = vals[0];
        let rect = if len == 1 {
            Rect(first, first, first, first)
        } else if len == 2 {
            Rect(first, vals[1], first, vals[1])
        } else if len == 3 {
            Rect(first, vals[1], vals[2], vals[1])
        } else {
            Rect(first, vals[1], vals[2], vals[3])
        };
        Ok((rect, i))
    }

    /// The values to write: the fewest leading values that expand back to the rect.
    pub fn collapsed(&self) -> (r: Vec<LengthPercentage>)
        ensures
            r@ == collapse(*self),
    {
        let same_vertical = self.0 == self.2;
        let same_horizontal = self.1 == self.3;
        let r = if same_vertical && same_horizontal && self.0 == self.1 {
            vec![self.0]
        } else if same_vertical && same_horizontal {
            vec![self.0, self.1]
        } else if same_horizontal {
            vec![self.0, self.1, self.2]
        } else {
            vec![self.0, self.1, self.2, self.3]
        };
        assert(r@ =~= collapse(*self));
        r
    }

    /// Appends the shortest writing of the rect.
    pub fn write_to(&self, out: &mut String)
        ensures
            final(out)@ == old(out)@ + lp_rect_text(*self),
    {
        let vals = self.collapsed();
        let ghost start = out@;
        let mut i: usize = 0;
        while i < vals.len()
            invariant
                i <= vals@.len(),
                out@ == start + spaced_text(vals@.take(i as int)),
            decreases vals@.len() - i,
        {
            if i > 0 {
                out.append(" ");
            }
            vals[i].write_to(out);
            proof {
                let s = vals@.take((i + 1) as int);
                assert(s.drop_last() =~= vals@.take(i as int));
                if i == 0 {
                    assert(vals@.take(0) =~= Seq::<LengthPercentage>::empty());
                }
            }
            i = i + 1;
        }
        assert(vals@.take(vals@.len() as int) =~= vals@);
    }
}

} // verus!
