//! Sets of vendor prefixes as bit flags.
use vstd::prelude::*;

verus! {

/// A set of vendor prefixes under which a property is declared. Bit 0 is the
/// unprefixed form.
#[derive(Clone, Copy, Debug, PartialEq, Eq, Structural)]
pub struct VendorPrefix {
    pub bits: u8,
}

pub const PREFIX_NONE: u8 = 1;
pub const PREFIX_WEBKIT: u8 = 2;
pub const PREFIX_MOZ: u8 = 4;
pub const PREFIX_MS: u8 = 8;
pub const PREFIX_O: u8 = 16;

impl VendorPrefix {
    pub open spec fn spec_union(self, o: VendorPrefix) -> VendorPrefix {
        VendorPrefix { bits: self.bits | o.bits }
    }

    pub open spec fn spec_intersect(self, o: VendorPrefix) -> VendorPrefix {
        VendorPrefix { bits: self.bits & o.bits }
    }

    pub open spec fn spec_remove(self, o: VendorPrefix) -> VendorPrefix {
        VendorPrefix { bits: self.bits & !o.bits }
    }

    pub open spec fn spec_contains(self, o: VendorPrefix) -> bool {
        self.bits & o.bits == o.bits
    }

    pub open spec fn spec_is_empty(self) -> bool {
        self.bits == 0
    }

    /// The unprefixed form.
    pub fn none() -> (r: VendorPrefix)
        ensures
            r.bits == PREFIX_NONE,
    {
        VendorPrefix { bits: PREFIX_NONE }
    }

    pub fn webkit() -> (r: VendorPrefix)
        ensures
            r.bits == PREFIX_WEBKIT,
    {
        VendorPrefix { bits: PREFIX_WEBKIT }
    }

    pub fn moz() -> (r: VendorPrefix)
        ensures
            r.bits == PREFIX_MOZ,
    {
        VendorPrefix { bits: PREFIX_MOZ }
    }

    pub fn ms() -> (r: VendorPrefix)
        ensures
            r.bits == PREFIX_MS,
    {
        VendorPrefix { bits: PREFIX_MS }
    }

    pub fn o() -> (r: VendorPrefix)
        ensures
            r.bits == PREFIX_O,
    {
        VendorPrefix { bits: PREFIX_O }
    }

    pub fn empty() -> (r: VendorPrefix)
        ensures
            r.bits == 0,
    {
        VendorPrefix { bits: 0 }
    }

    pub fn union(&self, o: &VendorPrefix) -> (r: VendorPrefix)
        ensures
            r == self.spec_union(*o),
    {
        VendorPrefix { bits: self.bits | o.bits }
    }

    pub fn intersect(&self, o: &VendorPrefix) -> (r: VendorPrefix)
        ensures
            r == self.spec_intersect(*o),
    {
        VendorPrefix { bits: self.bits & o.bits }
    }

    /// The prefixes of `self` that are not in `o`.
    pub fn remove(&self, o: &VendorPrefix) -> (r: VendorPrefix)
        ensures
            r == self.spec_remove(*o),
    {
        VendorPrefix { bits: self.bits & !o.bits }
    }

    /// Whether every prefix of `o` is in `self`.
    pub fn contains(&self, o: &VendorPrefix) -> (r: bool)
        ensures
            r == self.spec_contains(*o),
    {
        self.bits & o.bits == o.bits
    }

    pub fn is_empty(&self) -> (r: bool)
        ensures
            r == self.spec_is_empty(),
    {
        self.bits == 0
    }
}

} // verus!
