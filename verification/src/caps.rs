//! Capability profiles and validation flags: two small bit sets. Flags are
//! additive; enabling more flags can only reject more modules, which
//! `lemma_flags_monotonic` in the validator states precisely.
use vstd::prelude::*;

verus! {

/// Double-precision scalars anywhere in a module.
pub const CAP_FLOAT64: u32 = 1;

/// Multisampled array textures among the module's resources.
pub const CAP_MULTISAMPLED_ARRAY_TEXTURES: u32 = 2;

/// All capability bits the validator knows.
pub const CAP_ALL: u32 = 3;

/// The set of optional language features the validator may accept.
#[derive(Clone, Copy, PartialEq, Eq, Structural, Debug)]
pub struct Capabilities {
    pub bits: u32,
}

impl Capabilities {
    /// The empty profile: no optional feature is allowed.
    pub fn empty() -> (r: Capabilities)
        ensures
            r.bits == 0,
    {
        Capabilities { bits: 0 }
    }

    /// Every capability the validator knows.
    pub fn all() -> (r: Capabilities)
        ensures
            r.bits == CAP_ALL,
    {
        Capabilities { bits: CAP_ALL }
    }

    /// The profile holding exactly the given bits.
    pub fn from_bits(bits: u32) -> (r: Capabilities)
        ensures
            r.bits == bits,
    {
        Capabilities { bits }
    }

    /// Whether every capability in `need` is present.
    pub open spec fn spec_contains_all(self, need: u32) -> bool {
        self.bits & need == need
    }

    /// Returns whether every capability in `need` is present.
    pub fn contains_all(&self, need: u32) -> (r: bool)
        ensures
            r == self.spec_contains_all(need),
    {
        self.bits & need == need
    }
}

/// Expression well-typedness (check category `TypeMismatch`).
pub const FLAG_TYPES: u32 = 1;

/// Capability presence for every referenced feature (`CapabilityMissing`).
pub const FLAG_CAPABILITIES: u32 = 2;

/// Resource visibility against reachable entry points (`VisibilityViolation`).
pub const FLAG_VISIBILITY: u32 = 4;

/// Control-flow uniformity around barriers (`NonUniformControlFlow`).
pub const FLAG_UNIFORMITY: u32 = 8;

/// All check categories.
pub const FLAG_ALL: u32 = 15;

/// The set of independently toggleable static-check categories.
#[derive(Clone, Copy, PartialEq, Eq, Structural, Debug)]
pub struct ValidationFlags {
    pub bits: u32,
}

impl ValidationFlags {
    /// Run no optional check.
    pub fn empty() -> (r: ValidationFlags)
        ensures
            r.bits == 0,
    {
        ValidationFlags { bits: 0 }
    }

    /// Run every check.
    pub fn all() -> (r: ValidationFlags)
        ensures
            r.bits == FLAG_ALL,
    {
        ValidationFlags { bits: FLAG_ALL }
    }

    /// The flag set holding exactly the given bits.
    pub fn from_bits(bits: u32) -> (r: ValidationFlags)
        ensures
            r.bits == bits,
    {
        ValidationFlags { bits }
    }

    /// Whether the check gated by `flag` is enabled.
    pub open spec fn spec_enabled(self, flag: u32) -> bool {
        self.bits & flag != 0
    }

    /// Returns whether the check gated by `flag` is enabled.
    pub fn enabled(&self, flag: u32) -> (r: bool)
        ensures
            r == self.spec_enabled(flag),
    {
        self.bits & flag != 0
    }

    /// Whether every check enabled here is also enabled in `other`.
    pub open spec fn spec_subset_of(self, other: ValidationFlags) -> bool {
        self.bits & other.bits == self.bits
    }

    /// Returns whether every check enabled here is also enabled in `other`.
    pub fn subset_of(&self, other: &ValidationFlags) -> (r: bool)
        ensures
            r == self.spec_subset_of(*other),
    {
        self.bits & other.bits == self.bits
    }
}

/// A subset's enabled checks are enabled in the superset.
pub proof fn lemma_subset_enabled(f1: ValidationFlags, f2: ValidationFlags, flag: u32)
    requires
        f1.spec_subset_of(f2),
        f1.spec_enabled(flag),
    ensures
        f2.spec_enabled(flag),
{
    let a = f1.bits;
    let b = f2.bits;
    assert(a & b == a && a & flag != 0 ==> b & flag != 0) by (bit_vector);
}

} // verus!
