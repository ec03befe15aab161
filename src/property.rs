//! Property declarations as the handlers take them in and give them out.
use vstd::prelude::*;
use crate::number::Decimal;
use crate::values::LengthPercentage;
use crate::prefix::VendorPrefix;
use crate::border_radius::BorderRadius;
use crate::outline::{BorderSideWidth, CssColor, Outline, OutlineStyle};

verus! {

/// A pair of values: horizontal then vertical.
#[derive(Clone, Copy, Debug, PartialEq, Eq, Structural)]
pub struct Size2D<T>(pub T, pub T);

/// One declaration: the property, its value, and for prefixable properties
/// the vendor prefixes it was declared under.
#[derive(Clone, Copy, Debug, PartialEq, Eq, Structural)]
pub enum Property {
    BorderTopLeftRadius(Size2D<LengthPercentage>, VendorPrefix),
    BorderTopRightRadius(Size2D<LengthPercentage>, VendorPrefix),
    BorderBottomLeftRadius(Size2D<LengthPercentage>, VendorPrefix),
    BorderBottomRightRadius(Size2D<LengthPercentage>, VendorPrefix),
    BorderStartStartRadius(Size2D<LengthPercentage>),
    BorderStartEndRadius(Size2D<LengthPercentage>),
    BorderEndStartRadius(Size2D<LengthPercentage>),
    BorderEndEndRadius(Size2D<LengthPercentage>),
    BorderRadius(BorderRadius, VendorPrefix),
    OutlineColor(CssColor),
    OutlineStyle(OutlineStyle),
    OutlineWidth(BorderSideWidth),
    Outline(Outline),
    /// A property that none of the shorthand handlers here takes in.
    Opacity(Decimal),
}

} // verus!
