//! Bitfield types specific to scatter-gather mode.
use vstd::prelude::*;
use crate::bits::{bit, field, set_bit, set_field, get_bit, get_field, with_bit, with_field, lemma_field_bound};

verus! {

/// Scatter-gather engine control register (SGCTL).
#[derive(Clone, Copy, PartialEq, Eq, Structural, Debug)]
pub struct SgControl {
    /// The raw register word.
    pub raw: u32,
}

impl View for SgControl {
    type V = u32;

    open spec fn view(&self) -> u32 {
        self.raw
    }
}

impl SgControl {
    /// The all-zero register word.
    pub open spec fn spec_zero() -> Self {
        SgControl { raw: 0 }
    }

    /// The all-zero register word.
    #[verifier::when_used_as_spec(spec_zero)]
    pub fn zero() -> (r: Self)
        ensures
            r == Self::spec_zero(),
    {
        SgControl { raw: 0 }
    }

    /// Wraps a raw register word.
    pub fn new_with_raw_value(raw: u32) -> (r: Self)
        ensures
            r@ == raw,
    {
        SgControl { raw }
    }

    /// The raw register word.
    pub fn raw_value(self) -> (r: u32)
        ensures
            r == self@,
    {
        self.raw
    }

    /// AXI `AUSER` sideband value used for descriptor fetches/updates.
    pub open spec fn spec_user(self) -> u8 {
        field(self.raw, 8, 4) as u8
    }

    /// AXI `AUSER` sideband value used for descriptor fetches/updates.
    #[verifier::when_used_as_spec(spec_user)]
    pub fn user(self) -> (r: u8)
        ensures
            r == self.spec_user(),
            r <= 0xF,
    {
        proof {
            lemma_field_bound(self.raw, 8, 4);
        }
        get_field(self.raw, 8, 4) as u8
    }

    /// Sets `user`, every other bit unchanged.
    pub open spec fn spec_with_user(self, value: u8) -> Self {
        SgControl { raw: set_field(self.raw, 8, 4, value as u32) }
    }

    /// Sets `user`, every other bit unchanged.
    #[verifier::when_used_as_spec(spec_with_user)]
    pub fn with_user(self, value: u8) -> (r: Self)
        requires
            value <= 0xF,
        ensures
            r == self.spec_with_user(value),
    {
        SgControl { raw: with_field(self.raw, 8, 4, value as u32) }
    }

    /// AXI `ACACHE` value used for descriptor fetches/updates.
    pub open spec fn spec_cache(self) -> u8 {
        field(self.raw, 0, 4) as u8
    }

    /// AXI `ACACHE` value used for descriptor fetches/updates.
    #[verifier::when_used_as_spec(spec_cache)]
    pub fn cache(self) -> (r: u8)
        ensures
            r == self.spec_cache(),
            r <= 0xF,
    {
        proof {
            lemma_field_bound(self.raw, 0, 4);
        }
        get_field(self.raw, 0, 4) as u8
    }

    /// Sets `cache`, every other bit unchanged.
    pub open spec fn spec_with_cache(self, value: u8) -> Self {
        SgControl { raw: set_field(self.raw, 0, 4, value as u32) }
    }

    /// Sets `cache`, every other bit unchanged.
    #[verifier::when_used_as_spec(spec_with_cache)]
    pub fn with_cache(self, value: u8) -> (r: Self)
        requires
            value <= 0xF,
        ensures
            r == self.spec_with_cache(value),
    {
        SgControl { raw: with_field(self.raw, 0, 4, value as u32) }
    }
}

impl Default for SgControl {
    fn default() -> (r: Self)
        ensures
            r@ == 0,
    {
        SgControl { raw: 0 }
    }
}

/// Per-descriptor control word.
#[derive(Clone, Copy, PartialEq, Eq, Structural, Debug)]
pub struct DescriptorControl {
    /// The raw register word.
    pub raw: u32,
}

impl View for DescriptorControl {
    type V = u32;

    open spec fn view(&self) -> u32 {
        self.raw
    }
}

impl DescriptorControl {
    /// The all-zero register word.
    pub open spec fn spec_zero() -> Self {
        DescriptorControl { raw: 0 }
    }

    /// The all-zero register word.
    #[verifier::when_used_as_spec(spec_zero)]
    pub fn zero() -> (r: Self)
        ensures
            r == Self::spec_zero(),
    {
        DescriptorControl { raw: 0 }
    }

    /// Wraps a raw register word.
    pub fn new_with_raw_value(raw: u32) -> (r: Self)
        ensures
            r@ == raw,
    {
        DescriptorControl { raw }
    }

    /// The raw register word.
    pub fn raw_value(self) -> (r: u32)
        ensures
            r == self@,
    {
        self.raw
    }

    /// Should be set by the CPU to indicate that this descriptor describes the start of the
    /// packet.
    pub open spec fn spec_tx_start_of_frame(self) -> bool {
        bit(self.raw, 27)
    }

    /// Should be set by the CPU to indicate that this descriptor describes the start of the
    /// packet.
    #[verifier::when_used_as_spec(spec_tx_start_of_frame)]
    pub fn tx_start_of_frame(self) -> (r: bool)
        ensures
            r == self.spec_tx_start_of_frame(),
    {
        get_bit(self.raw, 27)
    }

    /// Sets `tx_start_of_frame`, every other bit unchanged.
    pub open spec fn spec_with_tx_start_of_frame(self, value: bool) -> Self {
        DescriptorControl { raw: set_bit(self.raw, 27, value) }
    }

    /// Sets `tx_start_of_frame`, every other bit unchanged.
    #[verifier::when_used_as_spec(spec_with_tx_start_of_frame)]
    pub fn with_tx_start_of_frame(self, value: bool) -> (r: Self)
        ensures
            r == self.spec_with_tx_start_of_frame(value),
    {
        DescriptorControl { raw: with_bit(self.raw, 27, value) }
    }

    /// Should be set by the CPU to indicate that this descriptor describes the end of the
    /// packet.
    pub open spec fn spec_tx_end_of_frame(self) -> bool {
        bit(self.raw, 26)
    }

    /// Should be set by the CPU to indicate that this descriptor describes the end of the
    /// packet.
    #[verifier::when_used_as_spec(spec_tx_end_of_frame)]
    pub fn tx_end_of_frame(self) -> (r: bool)
        ensures
            r == self.spec_tx_end_of_frame(),
    {
        get_bit(self.raw, 26)
    }

    /// Sets `tx_end_of_frame`, every other bit unchanged.
    pub open spec fn spec_with_tx_end_of_frame(self, value: bool) -> Self {
        DescriptorControl { raw: set_bit(self.raw, 26, value) }
    }

    /// Sets `tx_end_of_frame`, every other bit unchanged.
    #[verifier::when_used_as_spec(spec_with_tx_end_of_frame)]
    pub fn with_tx_end_of_frame(self, value: bool) -> (r: Self)
        ensures
            r == self.spec_with_tx_end_of_frame(value),
    {
        DescriptorControl { raw: with_bit(self.raw, 26, value) }
    }

    /// Number of bytes to transfer (MM2S) or the maximum to receive (S2MM).
    pub open spec fn spec_buffer_length(self) -> u32 {
        field(self.raw, 0, 26) as u32
    }

    /// Number of bytes to transfer (MM2S) or the maximum to receive (S2MM).
    #[verifier::when_used_as_spec(spec_buffer_length)]
    pub fn buffer_length(self) -> (r: u32)
        ensures
            r == self.spec_buffer_length(),
            r <= 0x3FFFFFF,
    {
        proof {
            lemma_field_bound(self.raw, 0, 26);
        }
        get_field(self.raw, 0, 26) as u32
    }

    /// Sets `buffer_length`, every other bit unchanged.
    pub open spec fn spec_with_buffer_length(self, value: u32) -> Self {
        DescriptorControl { raw: set_field(self.raw, 0, 26, value as u32) }
    }

    /// Sets `buffer_length`, every other bit unchanged.
    #[verifier::when_used_as_spec(spec_with_buffer_length)]
    pub fn with_buffer_length(self, value: u32) -> (r: Self)
        requires
            value <= 0x3FFFFFF,
        ensures
            r == self.spec_with_buffer_length(value),
    {
        DescriptorControl { raw: with_field(self.raw, 0, 26, value as u32) }
    }
}

impl Default for DescriptorControl {
    fn default() -> (r: Self)
        ensures
            r@ == 0,
    {
        DescriptorControl { raw: 0 }
    }
}

/// Per-descriptor status word, written back by the engine.
#[derive(Clone, Copy, PartialEq, Eq, Structural, Debug)]
pub struct DescriptorStatus {
    /// The raw register word.
    pub raw: u32,
}

impl View for DescriptorStatus {
    type V = u32;

    open spec fn view(&self) -> u32 {
        self.raw
    }
}

impl DescriptorStatus {
    /// The all-zero register word.
    pub open spec fn spec_zero() -> Self {
        DescriptorStatus { raw: 0 }
    }

    /// The all-zero register word.
    #[verifier::when_used_as_spec(spec_zero)]
    pub fn zero() -> (r: Self)
        ensures
            r == Self::spec_zero(),
    {
        DescriptorStatus { raw: 0 }
    }

    /// Wraps a raw register word.
    pub fn new_with_raw_value(raw: u32) -> (r: Self)
        ensures
            r@ == raw,
    {
        DescriptorStatus { raw }
    }

    /// The raw register word.
    pub fn raw_value(self) -> (r: u32)
        ensures
            r == self@,
    {
        self.raw
    }

    /// Set by the engine once this descriptor's transfer has completed.
    pub open spec fn spec_completed(self) -> bool {
        bit(self.raw, 31)
    }

    /// Set by the engine once this descriptor's transfer has completed.
    #[verifier::when_used_as_spec(spec_completed)]
    pub fn completed(self) -> (r: bool)
        ensures
            r == self.spec_completed(),
    {
        get_bit(self.raw, 31)
    }

    /// Sets `completed`, every other bit unchanged.
    pub open spec fn spec_with_completed(self, value: bool) -> Self {
        DescriptorStatus { raw: set_bit(self.raw, 31, value) }
    }

    /// Sets `completed`, every other bit unchanged.
    #[verifier::when_used_as_spec(spec_with_completed)]
    pub fn with_completed(self, value: bool) -> (r: Self)
        ensures
            r == self.spec_with_completed(value),
    {
        DescriptorStatus { raw: with_bit(self.raw, 31, value) }
    }

    /// DMA/data stream decode error.
    pub open spec fn spec_dma_decode_error(self) -> bool {
        bit(self.raw, 30)
    }

    /// DMA/data stream decode error.
    #[verifier::when_used_as_spec(spec_dma_decode_error)]
    pub fn dma_decode_error(self) -> (r: bool)
        ensures
            r == self.spec_dma_decode_error(),
    {
        get_bit(self.raw, 30)
    }

    /// Sets `dma_decode_error`, every other bit unchanged.
    pub open spec fn spec_with_dma_decode_error(self, value: bool) -> Self {
        DescriptorStatus { raw: set_bit(self.raw, 30, value) }
    }

    /// Sets `dma_decode_error`, every other bit unchanged.
    #[verifier::when_used_as_spec(spec_with_dma_decode_error)]
    pub fn with_dma_decode_error(self, value: bool) -> (r: Self)
        ensures
            r == self.spec_with_dma_decode_error(value),
    {
        DescriptorStatus { raw: with_bit(self.raw, 30, value) }
    }

    /// DMA slave (AXI) error.
    pub open spec fn spec_dma_slave_error(self) -> bool {
        bit(self.raw, 29)
    }

    /// DMA slave (AXI) error.
    #[verifier::when_used_as_spec(spec_dma_slave_error)]
    pub fn dma_slave_error(self) -> (r: bool)
        ensures
            r == self.spec_dma_slave_error(),
    {
        get_bit(self.raw, 29)
    }

    /// Sets `dma_slave_error`, every other bit unchanged.
    pub open spec fn spec_with_dma_slave_error(self, value: bool) -> Self {
        DescriptorStatus { raw: set_bit(self.raw, 29, value) }
    }

    /// Sets `dma_slave_error`, every other bit unchanged.
    #[verifier::when_used_as_spec(spec_with_dma_slave_error)]
    pub fn with_dma_slave_error(self, value: bool) -> (r: Self)
        ensures
            r == self.spec_with_dma_slave_error(value),
    {
        DescriptorStatus { raw: with_bit(self.raw, 29, value) }
    }

    /// DMA internal error.
    pub open spec fn spec_dma_internal_error(self) -> bool {
        bit(self.raw, 28)
    }

    /// DMA internal error.
    #[verifier::when_used_as_spec(spec_dma_internal_error)]
    pub fn dma_internal_error(self) -> (r: bool)
        ensures
            r == self.spec_dma_internal_error(),
    {
        get_bit(self.raw, 28)
    }

    /// Sets `dma_internal_error`, every other bit unchanged.
    pub open spec fn spec_with_dma_internal_error(self, value: bool) -> Self {
        DescriptorStatus { raw: set_bit(self.raw, 28, value) }
    }

    /// Sets `dma_internal_error`, every other bit unchanged.
    #[verifier::when_used_as_spec(spec_with_dma_internal_error)]
    pub fn with_dma_internal_error(self, value: bool) -> (r: Self)
        ensures
            r == self.spec_with_dma_internal_error(value),
    {
        DescriptorStatus { raw: with_bit(self.raw, 28, value) }
    }

    /// Number of bytes actually transferred.
    pub open spec fn spec_transferred_bytes(self) -> u32 {
        field(self.raw, 0, 26) as u32
    }

    /// Number of bytes actually transferred.
    #[verifier::when_used_as_spec(spec_transferred_bytes)]
    pub fn transferred_bytes(self) -> (r: u32)
        ensures
            r == self.spec_transferred_bytes(),
            r <= 0x3FFFFFF,
    {
        proof {
            lemma_field_bound(self.raw, 0, 26);
        }
        get_field(self.raw, 0, 26) as u32
    }

    /// Sets `transferred_bytes`, every other bit unchanged.
    pub open spec fn spec_with_transferred_bytes(self, value: u32) -> Self {
        DescriptorStatus { raw: set_field(self.raw, 0, 26, value as u32) }
    }

    /// Sets `transferred_bytes`, every other bit unchanged.
    #[verifier::when_used_as_spec(spec_with_transferred_bytes)]
    pub fn with_transferred_bytes(self, value: u32) -> (r: Self)
        requires
            value <= 0x3FFFFFF,
        ensures
            r == self.spec_with_transferred_bytes(value),
    {
        DescriptorStatus { raw: with_field(self.raw, 0, 26, value as u32) }
    }
}

impl Default for DescriptorStatus {
    fn default() -> (r: Self)
        ensures
            r@ == 0,
    {
        DescriptorStatus { raw: 0 }
    }
}

} // verus!
