//! The `outline` shorthand, its longhands, and their merging.
use vstd::prelude::*;
use crate::values::Length;
use crate::property::Property;
use crate::token::{Token, ParseError, is_keyword, keyword_at};

verus! {

/// A line style of a border side.
#[derive(Clone, Copy, Debug, PartialEq, Eq, Structural)]
pub enum BorderStyle {
    Hidden,
    /// The keyword `none`.
    NoStyle,
    Inset,
    Groove,
    Outset,
    Ridge,
    Dotted,
    Dashed,
    Solid,
    Double,
}

pub open spec fn border_style_name(b: BorderStyle) -> Seq<char> {
    match b {
        BorderStyle::Hidden => "hidden"@,
        BorderStyle::NoStyle => "none"@,
        BorderStyle::Inset => "inset"@,
        BorderStyle::Groove => "groove"@,
        BorderStyle::Outset => "outset"@,
        BorderStyle::Ridge => "ridge"@,
        BorderStyle::Dotted => "dotted"@,
        BorderStyle::Dashed => "dashed"@,
        BorderStyle::Solid => "solid"@,
        BorderStyle::Double => "double"@,
    }
}

/// The border style a token names, ignoring ASCII case.
pub open spec fn border_style_of(t: Token) -> Option<BorderStyle> {
    if is_keyword(t, "hidden"@) {
        Some(BorderStyle::Hidden)
    } else if is_keyword(t, "none"@) {
        Some(BorderStyle::NoStyle)
    } else if is_keyword(t, "inset"@) {
        Some(BorderStyle::Inset)
    } else if is_keyword(t, "groove"@) {
        Some(BorderStyle::Groove)
    } else if is_keyword(t, "outset"@) {
        Some(BorderStyle::Outset)
    } else if is_keyword(t, "ridge"@) {
        Some(BorderStyle::Ridge)
    } else if is_keyword(t, "dotted"@) {
        Some(BorderStyle::Dotted)
    } else if is_keyword(t, "dashed"@) {
        Some(BorderStyle::Dashed)
    } else if is_keyword(t, "solid"@) {
        Some(BorderStyle::Solid)
    } else if is_keyword(t, "double"@) {
        Some(BorderStyle::Double)
    } else {
        None
    }
}

impl BorderStyle {
    pub fn name(&self) -> (r: &'static str)
        ensures
            r@ == border_style_name(*self),
    {
        match self {
            BorderStyle::Hidden => "hidden",
            BorderStyle::NoStyle => "none",
            BorderStyle::Inset => "inset",
            BorderStyle::Groove => "groove",
            BorderStyle::Outset => "outset",
            BorderStyle::Ridge => "ridge",
            BorderStyle::Dotted => "dotted",
            BorderStyle::Dashed => "dashed",
            BorderStyle::Solid => "solid",
            BorderStyle::Double => "double",
        }
    }

    /// The border style named by the token at `pos`.
    pub fn at(tokens: &Vec<Token>, pos: usize) -> (r: Option<BorderStyle>)
        ensures
            r == if pos < tokens@.len() {
                border_style_of(tokens@[pos as int])
            } else {
                None
            },
    {
        if keyword_at(tokens, pos, "hidden") {
            Some(BorderStyle::Hidden)
        } else if keyword_at(tokens, pos, "none") {
            Some(BorderStyle::NoStyle)
        } else if keyword_at(tokens, pos, "inset") {
            Some(BorderStyle::Inset)
        } else if keyword_at(tokens, pos, "groove") {
            Some(BorderStyle::Groove)
        } else if keyword_at(tokens, pos, "outset") {
            Some(BorderStyle::Outset)
        } else if keyword_at(tokens, pos, "ridge") {
            Some(BorderStyle::Ridge)
        } else if keyword_at(tokens, pos, "dotted") {
            Some(BorderStyle::Dotted)
        } else if keyword_at(tokens, pos, "dashed") {
            Some(BorderStyle::Dashed)
        } else if keyword_at(tokens, pos, "solid") {
            Some(BorderStyle::Solid)
        } else if keyword_at(tokens, pos, "double") {
            Some(BorderStyle::Double)
        } else {
            None
        }
    }
}

/// The style of an outline: `auto` or a border style.
#[derive(Clone, Copy, Debug, PartialEq, Eq, Structural)]
pub enum OutlineStyle {
    Auto,
    BorderStyle(BorderStyle),
}

pub open spec fn outline_style_text(s: OutlineStyle) -> Seq<char> {
    match s {
        OutlineStyle::Auto => "auto"@,
        OutlineStyle::BorderStyle(b) => border_style_name(b),
    }
}

/// The outline style at token `pos`: a border style keyword, else `auto`.
pub open spec fn outline_style_at(toks: Seq<Token>, pos: int) -> Option<OutlineStyle> {
    if 0 <= pos < toks.len() {
        match border_style_of(toks[pos]) {
            Some(b) => Some(OutlineStyle::BorderStyle(b)),
            None => if is_keyword(toks[pos], "auto"@) {
                Some(OutlineStyle::Auto)
            } else {
                None
            },
        }
    } else {
        None
    }
}

impl OutlineStyle {
    /// Parses an outline style at `pos`; it is one token long.
    pub fn parse(tokens: &Vec<Token>, pos: usize) -> (r: Result<(OutlineStyle, usize), ParseError>)
        ensures
            match (outline_style_at(tokens@, pos as int), r) {
                (Some(s), Ok((v, e))) => v == s && e == pos + 1,
                (None, Err(err)) => err == ParseError::at(pos as int, tokens@.len() as int),
                _ => false,
            },
    {
        let n = tokens.len();
        match BorderStyle::at(tokens, pos) {
            Some(b) => Ok((OutlineStyle::BorderStyle(b), pos + 1)),
            None => if keyword_at(tokens, pos, "auto") {
                Ok((OutlineStyle::Auto, pos + 1))
            } else {
                Err(ParseError::new_at(pos, n))
            },
        }
    }

    pub fn to_css(&self) -> (r: &'static str)
        ensures
            r@ == outline_style_text(*self),
    {
        match self {
            OutlineStyle::Auto => "auto",
            OutlineStyle::BorderStyle(b) => b.name(),
        }
    }

}

impl Default for OutlineStyle {
    /// The initial outline style: the border style `none`.
    fn default() -> (r: OutlineStyle)
        ensures
            r == OutlineStyle::BorderStyle(BorderStyle::NoStyle),
    {
        OutlineStyle::BorderStyle(BorderStyle::NoStyle)
    }
}

/// The width of a border side or an outline.
#[derive(Clone, Copy, Debug, PartialEq, Eq, Structural)]
pub enum BorderSideWidth {
    Thin,
    Medium,
    Thick,
    Length(Length),
}

/// A color value, kept as it was declared.
#[derive(Clone, Copy, Debug, PartialEq, Eq, Structural)]
pub enum CssColor {
    CurrentColor,
    Rgba(u8, u8, u8, u8),
}

/// The value of the `outline` shorthand.
#[derive(Clone, Copy, Debug, PartialEq, Eq, Structural)]
pub struct Outline {
    pub width: BorderSideWidth,
    pub style: OutlineStyle,
    pub color: CssColor,
}

/// Collects the outline longhands of a declaration block and emits the
/// shorthand when all three are known.
#[derive(Debug)]
pub struct OutlineHandler {
    pub width: Option<BorderSideWidth>,
    pub style: Option<OutlineStyle>,
    pub color: Option<CssColor>,
}

/// What finalizing emits: the shorthand when all three parts are set, else
/// each set part in the order color, style, width.
pub open spec fn outline_output(
    width: Option<BorderSideWidth>,
    style: Option<OutlineStyle>,
    color: Option<CssColor>,
) -> Seq<Property> {
    match (width, style, color) {
        (Some(w), Some(s), Some(c)) => seq![Property::Outline(Outline { width: w, style: s, color: c })],
        _ => (match color {
            Some(c) => seq![Property::OutlineColor(c)],
            None => Seq::empty(),
        }) + (match style {
            Some(s) => seq![Property::OutlineStyle(s)],
            None => Seq::empty(),
        }) + (match width {
            Some(w) => seq![Property::OutlineWidth(w)],
            None => Seq::empty(),
        }),
    }
}

impl Default for OutlineHandler {
    /// A handler with no part collected.
    fn default() -> (r: OutlineHandler)
        ensures
            r.width is None && r.style is None && r.color is None,
    {
        OutlineHandler { width: None, style: None, color: None }
    }
}

impl OutlineHandler {
    /// Takes in an outline declaration; gives `false`, changing nothing, for
    /// any other property. The last value given for each part wins.
    pub fn handle_property(&mut self, property: &Property) -> (r: bool)
        ensures
            r == (property is OutlineColor || property is OutlineStyle || property is OutlineWidth
                || property is Outline),
            match *property {
                Property::OutlineColor(c) => final(self).color == Some(c) && final(self).style
                    == old(self).style && final(self).width == old(self).width,
                Property::OutlineStyle(s) => final(self).style == Some(s) && final(self).color
                    == old(self).color && final(self).width == old(self).width,
                Property::OutlineWidth(w) => final(self).width == Some(w) && final(self).color
                    == old(self).color && final(self).style == old(self).style,
                Property::Outline(o) => final(self).width == Some(o.width) && final(self).style
                    == Some(o.style) && final(self).color == Some(o.color),
                _ => final(self).width == old(self).width && final(self).style == old(self).style
                    && final(self).color == old(self).color,
            },
    {
        match property {
            Property::OutlineColor(c) => self.color = Some(*c),
            Property::OutlineStyle(s) => self.style = Some(*s),
            Property::OutlineWidth(w) => self.width = Some(*w),
            Property::Outline(o) => {
                self.color = Some(o.color);
                self.style = Some(o.style);
                self.width = Some(o.width);
            },
            _ => return false,
        }
        true
    }

    /// Emits what was collected and empties the handler.
    pub fn finalize(&mut self) -> (r: Vec<Property>)
        ensures
            r@ == outline_output(old(self).width, old(self).style, old(self).color),
            final(self).width is None && final(self).style is None && final(self).color is None,
    {
        let width = self.width;
        let style = self.style;
        let color = self.color;
        self.width = None;
        self.style = None;
        self.color = None;
        let mut decls: Vec<Property> = Vec::new();
        match (width, style, color) {
            (Some(w), Some(s), Some(c)) => {
                decls.push(Property::Outline(Outline { width: w, style: s, color: c }));
                assert(decls@ =~= outline_output(width, style, color));
            },
            _ => {
                if let Some(c) = color {
                    decls.push(Property::OutlineColor(c));
                }
                if let Some(s) = style {
                    decls.push(Property::OutlineStyle(s));
                }
                if let Some(w) = width {
                    decls.push(Property::OutlineWidth(w));
                }
                assert(decls@ =~= outline_output(width, style, color));
            },
        }
        decls
    }
}

} // verus!
