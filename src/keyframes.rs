//! `@keyframes` rules: keyframe selectors and the printing of a rule once per
//! vendor prefix.
use vstd::prelude::*;
use crate::number::{Decimal, DECIMAL_SCALE};
use crate::values::{percentage_text, write_percentage};
use crate::prefix::{VendorPrefix, PREFIX_NONE, PREFIX_WEBKIT, PREFIX_MOZ, PREFIX_O};
use crate::token::{Token, ParseError, is_keyword, keyword_at};

verus! {

/// The text cssparser writes for an identifier, escaping what needs it.
pub uninterp spec fn css_identifier(s: Seq<char>) -> Seq<char>;

/// Relies on `cssparser::serialize_identifier`, writing into a `String`:
/// the identifier escaped for CSS; nothing for an empty one.
#[verifier::external_body]
fn serialize_identifier(name: &str) -> (r: String)
    ensures
        r@ == css_identifier(name@),
        name@.len() == 0 ==> r@.len() == 0,
{
    let mut out = String::new();
    let _ = cssparser::serialize_identifier(name, &mut out);
    out
}

/// Where in an animation a keyframe stands.
#[derive(Clone, Copy, Debug, PartialEq, Eq, Structural)]
pub enum KeyframeSelector {
    /// The number written before `%`.
    Percentage(Decimal),
    From,
    To,
}

/// The keyframe selector at token `pos`.
pub open spec fn keyframe_selector_at(toks: Seq<Token>, pos: int) -> Option<KeyframeSelector> {
    if 0 <= pos < toks.len() {
        match toks[pos] {
            Token::Percentage(p) => Some(KeyframeSelector::Percentage(p)),
            _ => if is_keyword(toks[pos], "from"@) {
                Some(KeyframeSelector::From)
            } else if is_keyword(toks[pos], "to"@) {
                Some(KeyframeSelector::To)
            } else {
                None
            },
        }
    } else {
        None
    }
}

/// A selector's text; when minifying, `100%` is written `to` and `from` is
/// written `0%`.
pub open spec fn keyframe_selector_text(s: KeyframeSelector, minify: bool) -> Seq<char> {
    match s {
        KeyframeSelector::Percentage(p) => if minify && p.scaled == 100 * DECIMAL_SCALE {
            "to"@
        } else {
            percentage_text(p)
        },
        KeyframeSelector::From => if minify {
            "0%"@
        } else {
            "from"@
        },
        KeyframeSelector::To => "to"@,
    }
}

impl KeyframeSelector {
    /// Parses a keyframe selector at `pos`: a percentage, `from` or `to`.
    pub fn parse(tokens: &Vec<Token>, pos: usize) -> (r: Result<(KeyframeSelector, usize), ParseError>)
        ensures
            match (keyframe_selector_at(tokens@, pos as int), r) {
                (Some(s), Ok((v, e))) => v == s && e == pos + 1,
                (None, Err(err)) => err == ParseError::at(pos as int, tokens@.len() as int),
                _ => false,
            },
    {
        let n = tokens.len();
        if pos >= n {
            return Err(ParseError::new_at(pos, n));
        }
        match &tokens[pos] {
            Token::Percentage(p) => Ok((KeyframeSelector::Percentage(*p), pos + 1)),
            _ => if keyword_at(tokens, pos, "from") {
                Ok((KeyframeSelector::From, pos + 1))
            } else if keyword_at(tokens, pos, "to") {
                Ok((KeyframeSelector::To, pos + 1))
            } else {
                Err(ParseError::new_at(pos, n))
            },
        }
    }

    pub fn write_to(&self, out: &mut String, minify: bool)
        ensures
            final(out)@ == old(out)@ + keyframe_selector_text(*self, minify),
    {
        match self {
            KeyframeSelector::Percentage(p) => {
                if minify && p.scaled == 100 * DECIMAL_SCALE {
                    out.append("to");
                } else {
                    write_percentage(*p, out);
                }
            },
            KeyframeSelector::From => {
                if minify {
                    out.append("0%");
                } else {
                    out.append("from");
                }
            },
            KeyframeSelector::To => out.append("to"),
        }
    }
}

/// One keyframe: its selectors, and its declaration block as already printed.
#[derive(Debug)]
pub struct Keyframe {
    pub selectors: Vec<KeyframeSelector>,
    pub declarations: String,
}

/// The selectors' texts joined by commas (with a space unless minifying).
pub open spec fn selectors_text(ss: Seq<KeyframeSelector>, minify: bool) -> Seq<char>
    decreases ss.len(),
{
    if ss.len() == 0 {
        Seq::empty()
    } else if ss.len() == 1 {
        keyframe_selector_text(ss[0], minify)
    } else {
        selectors_text(ss.drop_last(), minify) + (if minify {
            ","@
        } else {
            ", "@
        }) + keyframe_selector_text(ss.last(), minify)
    }
}

pub open spec fn keyframe_text(k: Keyframe, minify: bool) -> Seq<char> {
    selectors_text(k.selectors@, minify) + k.declarations@
}

impl Keyframe {
    pub fn write_to(&self, out: &mut String, minify: bool)
        ensures
            final(out)@ == old(out)@ + keyframe_text(*self, minify),
    {
        let ghost start = out@;
        let ss = &self.selectors;
        let mut i: usize = 0;
        while i < ss.len()
            invariant
                i <= ss@.len(),
                out@ == start + selectors_text(ss@.take(i as int), minify),
            decreases ss@.len() - i,
        {
            if i > 0 {
                out.append(
                    if minify {
                        ","
                    } else {
                        ", "
                    },
                );
            }
            ss[i].write_to(out, minify);
            proof {
                let s = ss@.take((i + 1) as int);
                assert(s.drop_last() =~= ss@.take(i as int));
                if i == 0 {
                    assert(ss@.take(0) =~= Seq::<KeyframeSelector>::empty());
                }
            }
            i = i + 1;
        }
        assert(ss@.take(ss@.len() as int) =~= ss@);
        out.append(self.declarations.as_str());
        assert(out@ =~= start + keyframe_text(*self, minify));
    }
}

/// An `@keyframes` rule, declared under one or more vendor prefixes.
#[derive(Debug)]
pub struct KeyframesRule {
    pub name: String,
    pub keyframes: Vec<Keyframe>,
    pub vendor_prefix: VendorPrefix,
}

/// The keyframes, each on a line of its own, indented, with an empty line
/// between them; all run together when minifying.
pub open spec fn keyframes_text(ks: Seq<Keyframe>, minify: bool) -> Seq<char>
    decreases ks.len(),
{
    if ks.len() == 0 {
        Seq::empty()
    } else {
        keyframes_text(ks.drop_last(), minify) + (if minify {
            Seq::empty()
        } else if ks.len() > 1 {
            "\n\n  "@
        } else {
            "\n  "@
        }) + keyframe_text(ks.last(), minify)
    }
}

/// The rule written once, under the prefix text `prefix`.
pub open spec fn rule_block(r: KeyframesRule, prefix: Seq<char>, minify: bool) -> Seq<char> {
    "@"@ + prefix + "keyframes "@ + css_identifier(r.name@) + (if minify {
        ""@
    } else {
        " "@
    }) + "{"@ + keyframes_text(r.keyframes@, minify) + (if minify {
        ""@
    } else {
        "\n"@
    }) + "}"@
}

/// The prefixes a rule is written under, in this order, with their text.
pub open spec fn prefix_order() -> Seq<(u8, Seq<char>)> {
    seq![(PREFIX_WEBKIT, "-webkit-"@), (PREFIX_MOZ, "-moz-"@), (PREFIX_O, "-o-"@), (PREFIX_NONE, ""@)]
}

/// The blocks for the first `k` prefixes of the order that the rule has.
pub open spec fn rule_blocks(r: KeyframesRule, k: int, minify: bool) -> Seq<Seq<char>>
    decreases k,
{
    if k <= 0 {
        Seq::empty()
    } else {
        let (bit, text) = prefix_order()[k - 1];
        rule_blocks(r, k - 1, minify) + if r.vendor_prefix.spec_contains(VendorPrefix { bits: bit }) {
            seq![rule_block(r, text, minify)]
        } else {
            Seq::empty()
        }
    }
}

/// Texts joined by `sep`.
pub open spec fn joined(parts: Seq<Seq<char>>, sep: Seq<char>) -> Seq<char>
    decreases parts.len(),
{
    if parts.len() == 0 {
        Seq::empty()
    } else if parts.len() == 1 {
        parts[0]
    } else {
        joined(parts.drop_last(), sep) + sep + parts.last()
    }
}

/// The rule written once per prefix it has, separated by an empty line
/// unless minifying.
pub open spec fn keyframes_rule_text(r: KeyframesRule, minify: bool) -> Seq<char> {
    joined(
        rule_blocks(r, 4, minify),
        if minify {
            ""@
        } else {
            "\n\n"@
        },
    )
}

impl KeyframesRule {
    fn write_block(&self, out: &mut String, prefix: &str, minify: bool)
        ensures
            final(out)@ == old(out)@ + rule_block(*self, prefix@, minify),
    {
        let ghost start = out@;
        out.append("@");
        out.append(prefix);
        out.append("keyframes ");
        let name = serialize_identifier(self.name.as_str());
        out.append(name.as_str());
        out.append(
            if minify {
                ""
            } else {
                " "
            },
        );
        out.append("{");
        let ghost open_at = out@;
        let ks = &self.keyframes;
        let mut i: usize = 0;
        while i < ks.len()
            invariant
                i <= ks@.len(),
                out@ == open_at + keyframes_text(ks@.take(i as int), minify),
            decreases ks@.len() - i,
        {
            if !minify {
                out.append(
                    if i > 0 {
                        "\n\n  "
                    } else {
                        "\n  "
                    },
                );
            }
            ks[i].write_to(out, minify);
            proof {
                let s = ks@.take((i + 1) as int);
                assert(s.drop_last() =~= ks@.take(i as int));
                assert(ks@.take(0) =~= Seq::<Keyframe>::empty());
            }
            assert(out@ =~= open_at + keyframes_text(ks@.take((i + 1) as int), minify));
            i = i + 1;
        }
        assert(ks@.take(ks@.len() as int) =~= ks@);
        out.append(
            if minify {
                ""
            } else {
                "\n"
            },
        );
        out.append("}");
        assert(out@ =~= start + rule_block(*self, prefix@, minify));
    }

    /// Writes the rule once for each of its prefixes, in the order WebKit,
    /// Moz, O, unprefixed.
    pub fn to_css(&self, minify: bool) -> (r: String)
        ensures
            r@ == keyframes_rule_text(*self, minify),
    {
        let order: Vec<(u8, &str)> = vec![(PREFIX_WEBKIT, "-webkit-"), (PREFIX_MOZ, "-moz-"), (PREFIX_O, "-o-"), (PREFIX_NONE, "")];
        let sep = if minify {
            ""
        } else {
            "\n\n"
        };
        let mut out = String::new();
        let mut first = true;
        let mut i: usize = 0;
        while i < 4
            invariant
                i <= 4,
                first == (rule_blocks(*self, i as int, minify).len() == 0),
                order@.len() == 4,
                forall|j: int| 0 <= j < 4 ==> (#[trigger] order@[j]).0 == prefix_order()[j].0 && order@[j].1@ == prefix_order()[j].1,
                sep@ == if minify { ""@ } else { "\n\n"@ },
                out@ == joined(rule_blocks(*self, i as int, minify), sep@),
            decreases 4 - i,
        {
            let (bit, text) = order[i];
            let ghost before = rule_blocks(*self, i as int, minify);
            if self.vendor_prefix.contains(&VendorPrefix { bits: bit }) {
                if !first {
                    out.append(sep);
                }
                first = false;
                self.write_block(&mut out, text, minify);
                proof {
                    let after = rule_blocks(*self, (i + 1) as int, minify);
                    assert(after =~= before.push(rule_block(*self, text@, minify)));
                    assert(after.drop_last() =~= before);
                }
            } else {
                assert(rule_blocks(*self, (i + 1) as int, minify) =~= before);
            }
            i = i + 1;
        }
        out
    }
}

/// Comma-separated keyframe selectors from `i` on, and the index after the last.
pub open spec fn selectors_from(toks: Seq<Token>, i: int) -> Option<(Seq<KeyframeSelector>, int)>
    decreases toks.len() - i,
{
    match keyframe_selector_at(toks, i) {
        Some(s) => if i + 1 < toks.len() && toks[i + 1] is Comma {
            match selectors_from(toks, i + 2) {
                Some((rest, end)) => Some((seq![s] + rest, end)),
                None => None,
            }
        } else {
            Some((seq![s], i + 1))
        },
        None => None,
    }
}

/// Where reading a selector list from `i` on fails.
pub open spec fn selectors_error_at(toks: Seq<Token>, i: int) -> int
    decreases toks.len() - i,
{
    match keyframe_selector_at(toks, i) {
        Some(s) => if i + 1 < toks.len() && toks[i + 1] is Comma {
            selectors_error_at(toks, i + 2)
        } else {
            i
        },
        None => i,
    }
}

/// Reads the keyframes of an `@keyframes` block.
pub struct KeyframeListParser;

impl KeyframeListParser {
    /// Parses the selector list in front of a keyframe's block.
    pub fn parse_prelude(&self, tokens: &Vec<Token>, pos: usize) -> (r: Result<(Vec<KeyframeSelector>, usize), ParseError>)
        ensures
            match (selectors_from(tokens@, pos as int), r) {
                (Some((ss, end)), Ok((v, e))) => v@ == ss && e == end,
                (None, Err(err)) => err == ParseError::at(
                    selectors_error_at(tokens@, pos as int),
                    tokens@.len() as int,
                ),
                _ => false,
            },
    {
        let n = tokens.len();
        let mut out: Vec<KeyframeSelector> = Vec::new();
        let mut i: usize = pos;
        loop
            invariant
                n == tokens@.len(),
                selectors_error_at(tokens@, pos as int) == selectors_error_at(tokens@, i as int),
                selectors_from(tokens@, pos as int) == match selectors_from(tokens@, i as int) {
                    Some((rest, end)) => Some((out@ + rest, end)),
                    None => None::<(Seq<KeyframeSelector>, int)>,
                },
            decreases n - i,
        {
            match KeyframeSelector::parse(tokens, i) {
                Ok((s, _)) => {
                    let ghost prev = out@;
                    out.push(s);
                    let more = i + 1 < n && match &tokens[i + 1] {
                        Token::Comma => true,
                        _ => false,
                    };
                    if more {
                        assert(forall|rest: Seq<KeyframeSelector>| prev + (seq![s] + rest) =~= out@ + rest);
                        i = i + 2;
                    } else {
                        assert(out@ =~= prev + seq![s]);
                        return Ok((out, i + 1));
                    }
                },
                Err(e) => {
                    return Err(e);
                },
            }
        }
    }
}

} // verus!
