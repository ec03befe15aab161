//! The token stream that value parsers read, and the error they report.
use vstd::prelude::*;
use crate::number::{Decimal, decimal_text};

verus! {

/// A CSS token with whitespace and comments already removed. A function token
/// carries its name; its arguments follow and a `CloseParen` ends it.
#[derive(Debug)]
pub enum Token {
    Ident(String),
    Number(Decimal),
    /// A percentage, holding the number written before `%`.
    Percentage(Decimal),
    Dimension(Decimal, String),
    Function(String),
    CloseParen,
    Comma,
    Delim(char),
}

#[derive(Clone, Copy, Debug, PartialEq, Eq, Structural)]
pub enum ParseErrorKind {
    /// The token at the error position does not fit the grammar.
    UnexpectedToken,
    /// The input ended where the grammar asked for more.
    EndOfInput,
}

/// A typed parse failure with the index of the offending token.
#[derive(Clone, Copy, Debug, PartialEq, Eq, Structural)]
pub struct ParseError {
    pub kind: ParseErrorKind,
    pub position: usize,
}

impl ParseError {
    pub open spec fn at(position: int, len: int) -> ParseError {
        ParseError {
            kind: if position < len {
                ParseErrorKind::UnexpectedToken
            } else {
                ParseErrorKind::EndOfInput
            },
            position: position as usize,
        }
    }

    /// The error for a failure at token index `position` of a stream of `len` tokens.
    pub fn new_at(position: usize, len: usize) -> (r: ParseError)
        ensures
            r == ParseError::at(position as int, len as int),
    {
        ParseError {
            kind: if position < len {
                ParseErrorKind::UnexpectedToken
            } else {
                ParseErrorKind::EndOfInput
            },
            position,
        }
    }
}

/// ASCII case-insensitive match of `s` against a lower-case keyword `kw`.
pub open spec fn keyword_eq(s: Seq<char>, kw: Seq<char>) -> bool {
    &&& s.len() == kw.len()
    &&& forall|i: int|
        0 <= i < s.len() ==> (s[i] == kw[i] || ('a' <= kw[i] <= 'z' && s[i] as u32 + 32 == kw[i]
            as u32))
}

/// Whether `s` matches the lower-case keyword `kw`, ignoring ASCII case.
pub fn matches_keyword(s: &str, kw: &str) -> (r: bool)
    ensures
        r == keyword_eq(s@, kw@),
{
    let n = s.unicode_len();
    if n != kw.unicode_len() {
        return false;
    }
    let mut i: usize = 0;
    while i < n
        invariant
            n == s@.len(),
            n == kw@.len(),
            i <= n,
            forall|j: int|
                0 <= j < i ==> (s@[j] == kw@[j] || ('a' <= kw@[j] <= 'z' && s@[j] as u32 + 32
                    == kw@[j] as u32)),
        decreases n - i,
    {
        let a = s.get_char(i);
        let b = kw.get_char(i);
        if !(a == b || ('a' <= b && b <= 'z' && a as u32 + 32 == b as u32)) {
            return false;
        }
        i = i + 1;
    }
    true
}

/// The token is an identifier matching the keyword.
pub open spec fn is_keyword(t: Token, kw: Seq<char>) -> bool {
    match t {
        Token::Ident(s) => keyword_eq(s@, kw),
        _ => false,
    }
}

/// Whether `tokens[pos]` is an identifier matching the keyword.
pub fn keyword_at(tokens: &Vec<Token>, pos: usize, kw: &str) -> (r: bool)
    ensures
        r == (pos < tokens@.len() && is_keyword(tokens@[pos as int], kw@)),
{
    if pos >= tokens.len() {
        return false;
    }
    match &tokens[pos] {
        Token::Ident(s) => matches_keyword(s.as_str(), kw),
        _ => false,
    }
}

/// A token that can stand as one argument of a function.
pub open spec fn is_argument(t: Token) -> bool {
    t is Number || t is Percentage || t is Dimension || t is Ident
}

/// The arguments of a function whose first argument is at `i`: one token each,
/// separated by commas, ended by `CloseParen`. Gives the arguments and the
/// index after the closing parenthesis.
pub open spec fn arguments_from(toks: Seq<Token>, i: int) -> Option<(Seq<Token>, int)>
    decreases toks.len() - i,
{
    if i < 0 || i + 1 >= toks.len() || !is_argument(toks[i]) {
        None
    } else if toks[i + 1] is CloseParen {
        Some((seq![toks[i]], i + 2))
    } else if toks[i + 1] is Comma {
        match arguments_from(toks, i + 2) {
            Some((rest, end)) => Some((seq![toks[i]] + rest, end)),
            None => None,
        }
    } else {
        None
    }
}

/// A copy of a token.
pub fn copy_token(t: &Token) -> (r: Token)
    ensures
        r == *t,
{
    match t {
        Token::Ident(s) => Token::Ident(s.clone()),
        Token::Number(n) => Token::Number(*n),
        Token::Percentage(n) => Token::Percentage(*n),
        Token::Dimension(n, u) => Token::Dimension(*n, u.clone()),
        Token::Function(s) => Token::Function(s.clone()),
        Token::CloseParen => Token::CloseParen,
        Token::Comma => Token::Comma,
        Token::Delim(c) => Token::Delim(*c),
    }
}

/// Reads the arguments of a function whose first argument is at `start`.
pub fn parse_arguments(tokens: &Vec<Token>, start: usize) -> (r: Option<(Vec<Token>, usize)>)
    ensures
        match (arguments_from(tokens@, start as int), r) {
            (Some((args, end)), Some((v, e))) => v@ == args && e == end,
            (None, None) => true,
            _ => false,
        },
{
    let mut args: Vec<Token> = Vec::new();
    let mut i: usize = start;
    loop
        invariant
            start <= i,
            arguments_from(tokens@, start as int) == match arguments_from(tokens@, i as int) {
                Some((rest, end)) => Some((args@ + rest, end)),
                None => None::<(Seq<Token>, int)>,
            },
        decreases tokens@.len() - i,
    {
        if i >= tokens.len() || i + 1 >= tokens.len() {
            return None;
        }
        let ok = match &tokens[i] {
            Token::Number(_) | Token::Percentage(_) | Token::Dimension(_, _) | Token::Ident(_) => true,
            _ => false,
        };
        if !ok {
            return None;
        }
        let ghost old_args = args@;
        args.push(copy_token(&tokens[i]));
        match &tokens[i + 1] {
            Token::CloseParen => {
                assert(args@ =~= old_args + seq![tokens@[i as int]]);
                return Some((args, i + 2));
            },
            Token::Comma => {
                assert(forall|rest: Seq<Token>|
                    old_args + (seq![tokens@[i as int]] + rest) =~= args@ + rest);
                i = i + 2;
            },
            _ => {
                return None;
            },
        }
    }
}

/// What a token holds, with its text as characters.
pub enum TokenView {
    Ident(Seq<char>),
    Number(Decimal),
    Percentage(Decimal),
    Dimension(Decimal, Seq<char>),
    Function(Seq<char>),
    CloseParen,
    Comma,
    Delim(char),
}

pub open spec fn token_view(t: Token) -> TokenView {
    match t {
        Token::Ident(s) => TokenView::Ident(s@),
        Token::Number(n) => TokenView::Number(n),
        Token::Percentage(n) => TokenView::Percentage(n),
        Token::Dimension(n, u) => TokenView::Dimension(n, u@),
        Token::Function(s) => TokenView::Function(s@),
        Token::CloseParen => TokenView::CloseParen,
        Token::Comma => TokenView::Comma,
        Token::Delim(c) => TokenView::Delim(c),
    }
}

pub open spec fn views(ts: Seq<Token>) -> Seq<TokenView> {
    ts.map_values(|t: Token| token_view(t))
}

/// An identifier token with the given text.
pub fn ident(s: &str) -> (r: Token)
    ensures
        token_view(r) == TokenView::Ident(s@),
{
    Token::Ident(String::from_str(s))
}

/// The text of a token.
pub open spec fn token_text(t: TokenView) -> Seq<char> {
    match t {
        TokenView::Ident(s) => s,
        TokenView::Number(n) => decimal_text(n),
        TokenView::Percentage(n) => decimal_text(n) + "%"@,
        TokenView::Dimension(n, u) => decimal_text(n) + u,
        TokenView::Function(s) => s + "("@,
        TokenView::CloseParen => ")"@,
        TokenView::Comma => ","@,
        TokenView::Delim(c) => seq![c],
    }
}

/// The texts of the tokens separated by single spaces.
pub open spec fn spaced_tokens_text(ts: Seq<TokenView>) -> Seq<char>
    decreases ts.len(),
{
    if ts.len() == 0 {
        Seq::empty()
    } else if ts.len() == 1 {
        token_text(ts[0])
    } else {
        spaced_tokens_text(ts.drop_last()) + " "@ + token_text(ts.last())
    }
}

/// Relies on `char`'s `ToString`: a string of that one character.
#[verifier::external_body]
fn char_text(c: char) -> (r: String)
    ensures
        r@ == seq![c],
{
    c.to_string()
}

/// Appends the token's text.
pub fn write_token(t: &Token, out: &mut String)
    ensures
        final(out)@ == old(out)@ + token_text(token_view(*t)),
{
    let ghost start = out@;
    match t {
        Token::Ident(s) => out.append(s.as_str()),
        Token::Number(n) => n.write_to(out),
        Token::Percentage(n) => {
            n.write_to(out);
            out.append("%");
        },
        Token::Dimension(n, u) => {
            n.write_to(out);
            out.append(u.as_str());
        },
        Token::Function(s) => {
            out.append(s.as_str());
            out.append("(");
        },
        Token::CloseParen => out.append(")"),
        Token::Comma => out.append(","),
        Token::Delim(c) => {
            let text = char_text(*c);
            out.append(text.as_str());
        },
    }
    assert(out@ =~= start + token_text(token_view(*t)));
}

/// The tokens' texts separated by single spaces.
pub fn tokens_to_css(tokens: &Vec<Token>) -> (r: String)
    ensures
        r@ == spaced_tokens_text(views(tokens@)),
{
    let mut out = String::new();
    let mut i: usize = 0;
    while i < tokens.len()
        invariant
            i <= tokens@.len(),
            out@ == spaced_tokens_text(views(tokens@).take(i as int)),
        decreases tokens@.len() - i,
    {
        if i > 0 {
            out.append(" ");
        }
        write_token(&tokens[i], &mut out);
        proof {
            let s = views(tokens@).take((i + 1) as int);
            assert(s.drop_last() =~= views(tokens@).take(i as int));
            if i == 0 {
                assert(views(tokens@).take(0) =~= Seq::<TokenView>::empty());
            }
        }
        i = i + 1;
    }
    assert(views(tokens@).take(tokens@.len() as int) =~= views(tokens@));
    out
}

} // verus!
