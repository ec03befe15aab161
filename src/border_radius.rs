//! The `border-radius` shorthand and the reconstruction of it from
//! vendor-prefixed corner longhands.
use vstd::prelude::*;
use crate::values::LengthPercentage;
use crate::prefix::{VendorPrefix, PREFIX_NONE};
use crate::property::{Property, Size2D};
use crate::rect::{Rect, lp_rect_at, lp_rect_text};
use crate::token::{Token, ParseError};

verus! {

/// The radii of the four corners.
#[derive(Clone, Copy, Debug, PartialEq, Eq, Structural)]
pub struct BorderRadius {
    pub top_left: Size2D<LengthPercentage>,
    pub top_right: Size2D<LengthPercentage>,
    pub bottom_left: Size2D<LengthPercentage>,
    pub bottom_right: Size2D<LengthPercentage>,
}

/// The radii whose horizontal values are `w` and vertical values `h`, each
/// given in the order top-left, top-right, bottom-left, bottom-right.
pub open spec fn radius_of(w: Rect<LengthPercentage>, h: Rect<LengthPercentage>) -> BorderRadius {
    BorderRadius {
        top_left: Size2D(w.0, h.0),
        top_right: Size2D(w.1, h.1),
        bottom_left: Size2D(w.2, h.2),
        bottom_right: Size2D(w.3, h.3),
    }
}

pub open spec fn is_slash(toks: Seq<Token>, i: int) -> bool {
    0 <= i < toks.len() && toks[i] == Token::Delim('/')
}

/// A `border-radius` value at `pos`: one to four horizontal radii, then
/// optionally `/` and one to four vertical radii; without them the vertical
/// radii equal the horizontal ones.
pub open spec fn border_radius_at(toks: Seq<Token>, pos: int) -> Option<(BorderRadius, int)> {
    match lp_rect_at(toks, pos) {
        Some((w, e1)) => if is_slash(toks, e1) {
            match lp_rect_at(toks, e1 + 1) {
                Some((h, e2)) => Some((radius_of(w, h), e2)),
                None => None,
            }
        } else {
            Some((radius_of(w, w), e1))
        },
        None => None,
    }
}

/// Where parsing a `border-radius` value at `pos` fails.
pub open spec fn border_radius_error_at(toks: Seq<Token>, pos: int) -> int {
    match lp_rect_at(toks, pos) {
        Some((w, e1)) => e1 + 1,
        None => pos,
    }
}

pub open spec fn widths_of(r: BorderRadius) -> Rect<LengthPercentage> {
    Rect(r.top_left.0, r.top_right.0, r.bottom_left.0, r.bottom_right.0)
}

pub open spec fn heights_of(r: BorderRadius) -> Rect<LengthPercentage> {
    Rect(r.top_left.1, r.top_right.1, r.bottom_left.1, r.bottom_right.1)
}

/// The horizontal radii, then `/` and the vertical ones when they differ.
pub open spec fn border_radius_text(r: BorderRadius, minify: bool) -> Seq<char> {
    lp_rect_text(widths_of(r)) + if widths_of(r) != heights_of(r) {
        (if minify {
            "/"@
        } else {
            " / "@
        }) + lp_rect_text(heights_of(r))
    } else {
        Seq::empty()
    }
}

impl BorderRadius {
    pub fn parse(tokens: &Vec<Token>, pos: usize) -> (r: Result<(BorderRadius, usize), ParseError>)
        ensures
            match (border_radius_at(tokens@, pos as int), r) {
                (Some((v, end)), Ok((w, e))) => w == v && e == end,
                (None, Err(err)) => err == ParseError::at(
                    border_radius_error_at(tokens@, pos as int),
                    tokens@.len() as int,
                ),
                _ => false,
            },
    {
        let (widths, e1) = match Rect::<LengthPercentage>::parse(tokens, pos) {
            Ok(x) => x,
            Err(e) => return Err(e),
        };
        let slash = e1 < tokens.len() && match &tokens[e1] {
            Token::Delim(c) => *c == '/',
            _ => false,
        };
        if slash {
            let (heights, e2) = match Rect::<LengthPercentage>::parse(tokens, e1 + 1) {
                Ok(x) => x,
                Err(e) => return Err(e),
            };
            Ok((
                BorderRadius {
                    top_left: Size2D(widths.0, heights.0),
                    top_right: Size2D(widths.1, heights.1),
                    bottom_left: Size2D(widths.2, heights.2),
                    bottom_right: Size2D(widths.3, heights.3),
                },
                e2,
            ))
        } else {
            Ok((
                BorderRadius {
                    top_left: Size2D(widths.0, widths.0),
                    top_right: Size2D(widths.1, widths.1),
                    bottom_left: Size2D(widths.2, widths.2),
                    bottom_right: Size2D(widths.3, widths.3),
                },
                e1,
            ))
        }
    }

    pub fn to_css(&self, minify: bool) -> (r: String)
        ensures
            r@ == border_radius_text(*self, minify),
    {
        let widths = Rect(self.top_left.0, self.top_right.0, self.bottom_left.0, self.bottom_right.0);
        let heights = Rect(self.top_left.1, self.top_right.1, self.bottom_left.1, self.bottom_right.1);
        let mut out = String::new();
        widths.write_to(&mut out);
        if widths != heights {
            out.append(
                if minify {
                    "/"
                } else {
                    " / "
                },
            );
            heights.write_to(&mut out);
        }
        assert(out@ =~= border_radius_text(*self, minify));
        out
    }
}

/// A feature whose prefixes depend on the browser targets.
#[derive(Clone, Copy, Debug, PartialEq, Eq, Structural)]
pub enum Feature {
    BorderRadius,
    BorderTopLeftRadius,
    BorderTopRightRadius,
    BorderBottomLeftRadius,
    BorderBottomRightRadius,
}

/// The prefixes that the configured browser targets need, for each feature.
#[derive(Clone, Copy, Debug, PartialEq, Eq, Structural)]
pub struct TargetPrefixes {
    pub border_radius: VendorPrefix,
    pub border_top_left_radius: VendorPrefix,
    pub border_top_right_radius: VendorPrefix,
    pub border_bottom_left_radius: VendorPrefix,
    pub border_bottom_right_radius: VendorPrefix,
}

impl TargetPrefixes {
    pub open spec fn spec_prefixes_for(self, f: Feature) -> VendorPrefix {
        match f {
            Feature::BorderRadius => self.border_radius,
            Feature::BorderTopLeftRadius => self.border_top_left_radius,
            Feature::BorderTopRightRadius => self.border_top_right_radius,
            Feature::BorderBottomLeftRadius => self.border_bottom_left_radius,
            Feature::BorderBottomRightRadius => self.border_bottom_right_radius,
        }
    }

    pub fn prefixes_for(&self, f: Feature) -> (r: VendorPrefix)
        ensures
            r == self.spec_prefixes_for(f),
    {
        match f {
            Feature::BorderRadius => self.border_radius,
            Feature::BorderTopLeftRadius => self.border_top_left_radius,
            Feature::BorderTopRightRadius => self.border_top_right_radius,
            Feature::BorderBottomLeftRadius => self.border_bottom_left_radius,
            Feature::BorderBottomRightRadius => self.border_bottom_right_radius,
        }
    }
}

#[derive(Clone, Copy, Debug, PartialEq, Eq, Structural)]
pub enum Corner {
    TopLeft,
    TopRight,
    BottomLeft,
    BottomRight,
}

/// A corner value waiting to be emitted, with the prefixes it was declared under.
#[derive(Clone, Copy, Debug, PartialEq, Eq, Structural)]
pub struct PendingCorner {
    pub value: Size2D<LengthPercentage>,
    pub prefix: VendorPrefix,
}

/// What a handler holds: the pending corners, the logical corner
/// declarations kept in arrival order, and the declarations already emitted.
pub struct RadiusState {
    pub targets: Option<TargetPrefixes>,
    pub top_left: Option<PendingCorner>,
    pub top_right: Option<PendingCorner>,
    pub bottom_left: Option<PendingCorner>,
    pub bottom_right: Option<PendingCorner>,
    pub logical: Seq<Property>,
    pub decls: Seq<Property>,
}

pub open spec fn pending_of(s: RadiusState, c: Corner) -> Option<PendingCorner> {
    match c {
        Corner::TopLeft => s.top_left,
        Corner::TopRight => s.top_right,
        Corner::BottomLeft => s.bottom_left,
        Corner::BottomRight => s.bottom_right,
    }
}

pub open spec fn with_pending(s: RadiusState, c: Corner, p: Option<PendingCorner>) -> RadiusState {
    match c {
        Corner::TopLeft => RadiusState { top_left: p, ..s },
        Corner::TopRight => RadiusState { top_right: p, ..s },
        Corner::BottomLeft => RadiusState { bottom_left: p, ..s },
        Corner::BottomRight => RadiusState { bottom_right: p, ..s },
    }
}

pub open spec fn corner_feature(c: Corner) -> Feature {
    match c {
        Corner::TopLeft => Feature::BorderTopLeftRadius,
        Corner::TopRight => Feature::BorderTopRightRadius,
        Corner::BottomLeft => Feature::BorderBottomLeftRadius,
        Corner::BottomRight => Feature::BorderBottomRightRadius,
    }
}

pub open spec fn corner_property(c: Corner, v: Size2D<LengthPercentage>, p: VendorPrefix) -> Property {
    match c {
        Corner::TopLeft => Property::BorderTopLeftRadius(v, p),
        Corner::TopRight => Property::BorderTopRightRadius(v, p),
        Corner::BottomLeft => Property::BorderBottomLeftRadius(v, p),
        Corner::BottomRight => Property::BorderBottomRightRadius(v, p),
    }
}

/// The prefixes to emit: an unprefixed declaration becomes what the targets
/// need for the feature, when targets are configured.
pub open spec fn resolve_prefix(p: VendorPrefix, f: Feature, targets: Option<TargetPrefixes>) -> VendorPrefix {
    if p.spec_contains(VendorPrefix { bits: PREFIX_NONE }) {
        match targets {
            Some(t) => t.spec_prefixes_for(f),
            None => p,
        }
    } else {
        p
    }
}

pub open spec fn all_pending(s: RadiusState) -> bool {
    s.top_left is Some && s.top_right is Some && s.bottom_left is Some && s.bottom_right is Some
}

/// The prefixes under which every corner is pending; empty unless all four are.
pub open spec fn common_prefix(s: RadiusState) -> VendorPrefix {
    if all_pending(s) {
        s.top_left->0.prefix.spec_intersect(s.top_right->0.prefix).spec_intersect(
            s.bottom_left->0.prefix,
        ).spec_intersect(s.bottom_right->0.prefix)
    } else {
        VendorPrefix { bits: 0 }
    }
}

/// The combined shorthand, under the common prefixes, when there are any.
pub open spec fn combined_output(s: RadiusState) -> Seq<Property> {
    let common = common_prefix(s);
    if all_pending(s) && !common.spec_is_empty() {
        seq![
            Property::BorderRadius(
                BorderRadius {
                    top_left: s.top_left->0.value,
                    top_right: s.top_right->0.value,
                    bottom_left: s.bottom_left->0.value,
                    bottom_right: s.bottom_right->0.value,
                },
                resolve_prefix(common, Feature::BorderRadius, s.targets),
            ),
        ]
    } else {
        Seq::empty()
    }
}

/// A corner on its own, under the prefixes the shorthand did not carry.
pub open spec fn single_output(s: RadiusState, c: Corner) -> Seq<Property> {
    match pending_of(s, c) {
        Some(p) => {
            let rest = p.prefix.spec_remove(common_prefix(s));
            if rest.spec_is_empty() {
                Seq::empty()
            } else {
                seq![corner_property(c, p.value, resolve_prefix(rest, corner_feature(c), s.targets))]
            }
        },
        None => Seq::empty(),
    }
}

/// The physical declarations that a flush emits.
pub open spec fn flush_output(s: RadiusState) -> Seq<Property> {
    combined_output(s) + single_output(s, Corner::TopLeft) + single_output(s, Corner::TopRight)
        + single_output(s, Corner::BottomLeft) + single_output(s, Corner::BottomRight)
}

/// The state after a flush: logical declarations first, in arrival order,
/// then the physical result; nothing stays pending.
pub open spec fn flushed(s: RadiusState) -> RadiusState {
    RadiusState {
        targets: s.targets,
        top_left: None,
        top_right: None,
        bottom_left: None,
        bottom_right: None,
        logical: Seq::empty(),
        decls: s.decls + s.logical + flush_output(s),
    }
}

/// Flushing again right after a flush changes nothing: with nothing pending
/// and no logical declarations, a flush emits nothing.
pub proof fn lemma_flush_idempotent(s: RadiusState)
    ensures
        flushed(flushed(s)) == flushed(s),
{
    let f = flushed(s);
    assert(flush_output(f) =~= Seq::<Property>::empty());
    assert(f.decls + f.logical + flush_output(f) =~= f.decls);
}

/// Declares corner `c` with value `v` under prefixes `vp`. A pending value
/// that differs and was not declared under all of `vp` is flushed first, so
/// that the later declaration cannot jump ahead of it.
pub open spec fn updated(s: RadiusState, c: Corner, v: Size2D<LengthPercentage>, vp: VendorPrefix) -> RadiusState {
    let s1 = match pending_of(s, c) {
        Some(p) => if p.value != v && !p.prefix.spec_contains(vp) {
            flushed(s)
        } else {
            s
        },
        None => s,
    };
    match pending_of(s1, c) {
        Some(p) => with_pending(s1, c, Some(PendingCorner { value: v, prefix: p.prefix.spec_union(vp) })),
        None => with_pending(s1, c, Some(PendingCorner { value: v, prefix: vp })),
    }
}

/// The state after taking in a declaration, and whether it was a border
/// radius property.
pub open spec fn handled(s: RadiusState, p: Property) -> (RadiusState, bool) {
    match p {
        Property::BorderTopLeftRadius(v, vp) => (updated(s, Corner::TopLeft, v, vp), true),
        Property::BorderTopRightRadius(v, vp) => (updated(s, Corner::TopRight, v, vp), true),
        Property::BorderBottomLeftRadius(v, vp) => (updated(s, Corner::BottomLeft, v, vp), true),
        Property::BorderBottomRightRadius(v, vp) => (updated(s, Corner::BottomRight, v, vp), true),
        Property::BorderStartStartRadius(_) | Property::BorderStartEndRadius(_)
        | Property::BorderEndStartRadius(_) | Property::BorderEndEndRadius(_) => {
            let f = flushed(s);
            (RadiusState { logical: f.logical.push(p), ..f }, true)
        },
        Property::BorderRadius(r, vp) => {
            let s0 = RadiusState { logical: Seq::empty(), ..s };
            let s1 = updated(s0, Corner::TopLeft, r.top_left, vp);
            let s2 = updated(s1, Corner::TopRight, r.top_right, vp);
            let s3 = updated(s2, Corner::BottomLeft, r.bottom_left, vp);
            (updated(s3, Corner::BottomRight, r.bottom_right, vp), true)
        },
        _ => (s, false),
    }
}

/// Merges the border radius declarations of one block into as few
/// declarations as keep their meaning and order.
#[derive(Debug)]
pub struct BorderRadiusHandler {
    targets: Option<TargetPrefixes>,
    top_left: Option<PendingCorner>,
    top_right: Option<PendingCorner>,
    bottom_left: Option<PendingCorner>,
    bottom_right: Option<PendingCorner>,
    logical: Vec<Property>,
    decls: Vec<Property>,
}

impl BorderRadiusHandler {
    pub closed spec fn view(&self) -> RadiusState {
        RadiusState {
            targets: self.targets,
            top_left: self.top_left,
            top_right: self.top_right,
            bottom_left: self.bottom_left,
            bottom_right: self.bottom_right,
            logical: self.logical@,
            decls: self.decls@,
        }
    }

    /// A handler with nothing pending, for the given browser targets.
    pub fn new(targets: Option<TargetPrefixes>) -> (r: BorderRadiusHandler)
        ensures
            r@ == (RadiusState {
                targets,
                top_left: None,
                top_right: None,
                bottom_left: None,
                bottom_right: None,
                logical: Seq::empty(),
                decls: Seq::empty(),
            }),
    {
        let r = BorderRadiusHandler {
            targets,
            top_left: None,
            top_right: None,
            bottom_left: None,
            bottom_right: None,
            logical: Vec::new(),
            decls: Vec::new(),
        };
        assert(r@.logical =~= Seq::empty() && r@.decls =~= Seq::empty());
        r
    }

    fn pending(&self, c: Corner) -> (r: Option<PendingCorner>)
        ensures
            r == pending_of(self@, c),
    {
        match c {
            Corner::TopLeft => self.top_left,
            Corner::TopRight => self.top_right,
            Corner::BottomLeft => self.bottom_left,
            Corner::BottomRight => self.bottom_right,
        }
    }

    fn set_pending(&mut self, c: Corner, p: Option<PendingCorner>)
        ensures
            final(self)@ == with_pending(old(self)@, c, p),
    {
        match c {
            Corner::TopLeft => self.top_left = p,
            Corner::TopRight => self.top_right = p,
            Corner::BottomLeft => self.bottom_left = p,
            Corner::BottomRight => self.bottom_right = p,
        }
    }

    fn resolve(&self, p: VendorPrefix, f: Feature) -> (r: VendorPrefix)
        ensures
            r == resolve_prefix(p, f, self@.targets),
    {
        if p.contains(&VendorPrefix::none()) {
            match &self.targets {
                Some(t) => t.prefixes_for(f),
                None => p,
            }
        } else {
            p
        }
    }

    fn emit_single(&mut self, c: Corner, p: Option<PendingCorner>, common: VendorPrefix)
        ensures
            final(self)@ == (RadiusState { decls: old(self)@.decls + match p {
                Some(pc) => {
                    let rest = pc.prefix.spec_remove(common);
                    if rest.spec_is_empty() {
                        Seq::empty()
                    } else {
                        seq![corner_property(c, pc.value, resolve_prefix(rest, corner_feature(c), old(self)@.targets))]
                    }
                },
                None => Seq::<Property>::empty(),
            }, ..old(self)@ }),
    {
        let ghost before = self.decls@;
        match p {
            Some(pc) => {
                let rest = pc.prefix.remove(&common);
                if !rest.is_empty() {
                    let f = match c {
                        Corner::TopLeft => Feature::BorderTopLeftRadius,
                        Corner::TopRight => Feature::BorderTopRightRadius,
                        Corner::BottomLeft => Feature::BorderBottomLeftRadius,
                        Corner::BottomRight => Feature::BorderBottomRightRadius,
                    };
                    let vp = self.resolve(rest, f);
                    let prop = match c {
                        Corner::TopLeft => Property::BorderTopLeftRadius(pc.value, vp),
                        Corner::TopRight => Property::BorderTopRightRadius(pc.value, vp),
                        Corner::BottomLeft => Property::BorderBottomLeftRadius(pc.value, vp),
                        Corner::BottomRight => Property::BorderBottomRightRadius(pc.value, vp),
                    };
                    self.decls.push(prop);
                    assert(self.decls@ =~= before + seq![prop]);
                } else {
                    assert(self.decls@ =~= before + Seq::<Property>::empty());
                }
            },
            None => {
                assert(self.decls@ =~= before + Seq::<Property>::empty());
            },
        }
    }

    /// Emits the logical declarations, then the shorthand under the prefixes
    /// common to all four corners, then each corner under the prefixes left.
    pub fn flush(&mut self)
        ensures
            final(self)@ == flushed(old(self)@),
    {
        let ghost s = self@;
        let top_left = self.top_left;
        let top_right = self.top_right;
        let bottom_left = self.bottom_left;
        let bottom_right = self.bottom_right;
        self.top_left = None;
        self.top_right = None;
        self.bottom_left = None;
        self.bottom_right = None;
        let mut i: usize = 0;
        while i < self.logical.len()
            invariant
                i <= self.logical@.len(),
                self.logical@ == s.logical,
                self.decls@ == s.decls + s.logical.take(i as int),
                self.targets == s.targets,
                self.top_left is None && self.top_right is None && self.bottom_left is None
                    && self.bottom_right is None,
            decreases self.logical@.len() - i,
        {
            let p = self.logical[i];
            self.decls.push(p);
            assert(s.logical.take((i + 1) as int) =~= s.logical.take(i as int).push(p));
            i = i + 1;
        }
        assert(s.logical.take(s.logical.len() as int) =~= s.logical);
        self.logical = Vec::new();
        let ghost after_logical = self.decls@;
        let mut common = VendorPrefix::empty();
        match (top_left, top_right, bottom_left, bottom_right) {
            (Some(tl), Some(tr), Some(bl), Some(br)) => {
                let inter = tl.prefix.intersect(&tr.prefix).intersect(&bl.prefix).intersect(&br.prefix);
                if !inter.is_empty() {
                    let vp = self.resolve(inter, Feature::BorderRadius);
                    self.decls.push(
                        Property::BorderRadius(
                            BorderRadius {
                                top_left: tl.value,
                                top_right: tr.value,
                                bottom_left: bl.value,
                                bottom_right: br.value,
                            },
                            vp,
                        ),
                    );
                    common = inter;
                } else {
                    common = inter;
                }
            },
            _ => {},
        }
        assert(common == common_prefix(s));
        assert(self.decls@ =~= after_logical + combined_output(s));
        self.emit_single(Corner::TopLeft, top_left, common);
        self.emit_single(Corner::TopRight, top_right, common);
        self.emit_single(Corner::BottomLeft, bottom_left, common);
        self.emit_single(Corner::BottomRight, bottom_right, common);
        assert(self@.logical =~= Seq::<Property>::empty());
        assert(self@.decls =~= flushed(s).decls);
    }

    fn update(&mut self, c: Corner, v: Size2D<LengthPercentage>, vp: VendorPrefix)
        ensures
            final(self)@ == updated(old(self)@, c, v, vp),
    {
        match self.pending(c) {
            Some(p) => {
                if p.value != v && !p.prefix.contains(&vp) {
                    self.flush();
                }
            },
            None => {},
        }
        match self.pending(c) {
            Some(p) => self.set_pending(c, Some(PendingCorner { value: v, prefix: p.prefix.union(&vp) })),
            None => self.set_pending(c, Some(PendingCorner { value: v, prefix: vp })),
        }
    }

    /// Takes in one declaration of the block, in source order; gives `false`,
    /// changing nothing, for a property other than a border radius.
    pub fn handle_property(&mut self, property: &Property) -> (r: bool)
        ensures
            (final(self)@, r) == handled(old(self)@, *property),
    {
        match property {
            Property::BorderTopLeftRadius(v, vp) => self.update(Corner::TopLeft, *v, *vp),
            Property::BorderTopRightRadius(v, vp) => self.update(Corner::TopRight, *v, *vp),
            Property::BorderBottomLeftRadius(v, vp) => self.update(Corner::BottomLeft, *v, *vp),
            Property::BorderBottomRightRadius(v, vp) => self.update(Corner::BottomRight, *v, *vp),
            Property::BorderStartStartRadius(_) | Property::BorderStartEndRadius(_)
            | Property::BorderEndStartRadius(_) | Property::BorderEndEndRadius(_) => {
                self.flush();
                self.logical.push(*property);
            },
            Property::BorderRadius(r, vp) => {
                self.logical = Vec::new();
                self.update(Corner::TopLeft, r.top_left, *vp);
                self.update(Corner::TopRight, r.top_right, *vp);
                self.update(Corner::BottomLeft, r.bottom_left, *vp);
                self.update(Corner::BottomRight, r.bottom_right, *vp);
            },
            _ => return false,
        }
        true
    }

    /// Flushes and hands over every declaration emitted so far.
    pub fn finalize(&mut self) -> (r: Vec<Property>)
        ensures
            r@ == flushed(old(self)@).decls,
            final(self)@ == (RadiusState { decls: Seq::empty(), ..flushed(old(self)@) }),
    {
        self.flush();
        let mut out: Vec<Property> = Vec::new();
        core::mem::swap(&mut out, &mut self.decls);
        assert(self@.decls =~= Seq::<Property>::empty());
        out
    }
}

} // verus!
