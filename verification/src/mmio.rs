//! Register writes as plain values.
//!
//! The drivers of this crate do not touch hardware themselves: every operation that changes a
//! register computes the register word to write and hands it back as a [`RegWrite`], and the
//! caller performs the writes, in order, as volatile stores. Register reads come in the same
//! way, as plain register words passed to the operation that needs them.
use vstd::prelude::*;

verus! {

/// One 32-bit register write: store `value` at byte `offset` from the register block's base
/// address.
#[derive(Clone, Copy, PartialEq, Eq, Structural, Debug)]
pub struct RegWrite {
    /// Byte offset of the register from the register block's base address.
    pub offset: usize,
    /// The word to store.
    pub value: u32,
}

impl RegWrite {
    /// A write of `value` to the register at `offset`.
    pub open spec fn spec_new(offset: usize, value: u32) -> RegWrite {
        RegWrite { offset, value }
    }

    /// A write of `value` to the register at `offset`.
    #[verifier::when_used_as_spec(spec_new)]
    pub fn new(offset: usize, value: u32) -> (r: RegWrite)
        ensures
            r == Self::spec_new(offset, value),
    {
        RegWrite { offset, value }
    }
}

} // verus!
