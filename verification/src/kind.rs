use vstd::prelude::*;

verus! {

/// Bit of the capability set: the entity is a software stream.
pub const KIND_SOFTWARE: u8 = 0x1;

/// Bit of the capability set: the entity is a hardware sink.
pub const KIND_HARDWARE: u8 = 0x2;

/// Bit of the capability set: the entity plays audio out.
pub const KIND_OUT: u8 = 0x4;

/// Bit of the capability set: the entity records audio.
pub const KIND_IN: u8 = 0x8;

/// Capability tag of a server entity or of a command: software stream or
/// hardware sink, crossed with output or input.  A small bit-set; commands
/// are routed to the matching native call by the bits set here, and
/// subscription interest masks are built from them.
#[derive(Clone, Copy, Debug, PartialEq, Eq, Structural)]
pub struct Kind {
    /// The capability bits.
    pub bits: u8,
}

impl Kind {
    /// The bits this tag carries.
    pub open spec fn spec_bits(self) -> u8 {
        self.bits
    }

    /// The tag of a software stream, for contracts.
    pub open spec fn software_spec() -> Kind {
        Kind { bits: KIND_SOFTWARE }
    }

    /// The tag of a hardware sink, for contracts.
    pub open spec fn hardware_spec() -> Kind {
        Kind { bits: KIND_HARDWARE }
    }

    /// An empty capability set.
    pub fn none() -> (r: Kind)
        ensures
            r.spec_bits() == 0,
    {
        Kind { bits: 0 }
    }

    /// The tag of a software stream.
    pub fn software() -> (r: Kind)
        ensures
            r.spec_bits() == KIND_SOFTWARE,
    {
        Kind { bits: KIND_SOFTWARE }
    }

    /// The tag of a hardware sink.
    pub fn hardware() -> (r: Kind)
        ensures
            r.spec_bits() == KIND_HARDWARE,
    {
        Kind { bits: KIND_HARDWARE }
    }

    /// The tag of an output.
    pub fn out() -> (r: Kind)
        ensures
            r.spec_bits() == KIND_OUT,
    {
        Kind { bits: KIND_OUT }
    }

    /// The tag of an input.
    pub fn input() -> (r: Kind)
        ensures
            r.spec_bits() == KIND_IN,
    {
        Kind { bits: KIND_IN }
    }

    /// Whether every capability of `other` is also in `self`.
    pub open spec fn spec_contains(self, other: Kind) -> bool {
        self.spec_bits() & other.spec_bits() == other.spec_bits()
    }

    /// Whether every capability of `other` is also in `self`.
    pub fn contains(self, other: Kind) -> (r: bool)
        ensures
            r == self.spec_contains(other),
    {
        self.bits & other.bits == other.bits
    }

    /// The union of the two capability sets.
    pub fn union(self, other: Kind) -> (r: Kind)
        ensures
            r.spec_bits() == self.spec_bits() | other.spec_bits(),
    {
        Kind { bits: self.bits | other.bits }
    }
}

} // verus!
