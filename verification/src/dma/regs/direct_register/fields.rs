//! Bitfield types specific to direct-register mode.
use vstd::prelude::*;
use crate::bits::{field, set_field, get_field, with_field, lemma_field_bound};

verus! {

/// Shared MM2S/S2MM transfer length field. Bits 26..=31 are reserved.
#[derive(Clone, Copy, PartialEq, Eq, Structural, Debug)]
pub struct TransferLength {
    /// The raw register word.
    pub raw: u32,
}

impl View for TransferLength {
    type V = u32;

    open spec fn view(&self) -> u32 {
        self.raw
    }
}

impl TransferLength {
    /// The all-zero register word.
    pub open spec fn spec_zero() -> Self {
        TransferLength { raw: 0 }
    }

    /// The all-zero register word.
    #[verifier::when_used_as_spec(spec_zero)]
    pub fn zero() -> (r: Self)
        ensures
            r == Self::spec_zero(),
    {
        TransferLength { raw: 0 }
    }

    /// Wraps a raw register word.
    pub fn new_with_raw_value(raw: u32) -> (r: Self)
        ensures
            r@ == raw,
    {
        TransferLength { raw }
    }

    /// The raw register word.
    pub fn raw_value(self) -> (r: u32)
        ensures
            r == self@,
    {
        self.raw
    }

    /// Number of bytes to transfer (MM2S) or the maximum to receive (S2MM).
    pub open spec fn spec_length(self) -> u32 {
        field(self.raw, 0, 26) as u32
    }

    /// Number of bytes to transfer (MM2S) or the maximum to receive (S2MM).
    #[verifier::when_used_as_spec(spec_length)]
    pub fn length(self) -> (r: u32)
        ensures
            r == self.spec_length(),
            r <= 0x3FFFFFF,
    {
        proof {
            lemma_field_bound(self.raw, 0, 26);
        }
        get_field(self.raw, 0, 26) as u32
    }

    /// Sets `length`, every other bit unchanged.
    pub open spec fn spec_with_length(self, value: u32) -> Self {
        TransferLength { raw: set_field(self.raw, 0, 26, value as u32) }
    }

    /// Sets `length`, every other bit unchanged.
    #[verifier::when_used_as_spec(spec_with_length)]
    pub fn with_length(self, value: u32) -> (r: Self)
        requires
            value <= 0x3FFFFFF,
        ensures
            r == self.spec_with_length(value),
    {
        TransferLength { raw: with_field(self.raw, 0, 26, value as u32) }
    }
}

impl Default for TransferLength {
    fn default() -> (r: Self)
        ensures
            r@ == 0,
    {
        TransferLength { raw: 0 }
    }
}

} // verus!
