//! Bitfield types shared by [`super::direct_register`] and [`super::scatter_gather`].
use vstd::prelude::*;
use crate::bits::{bit, field, set_bit, set_field, get_bit, get_field, with_bit, with_field, lemma_field_bound};

verus! {

/// DMA channel run/stop control bit value.
#[derive(Clone, Copy, PartialEq, Eq, Structural, Debug)]
pub enum RunStop {
    /// Stop the DMA channel.
    Stop,
    /// Run the DMA channel.
    Run,
}

impl RunStop {
    /// The raw field encoding of this variant.
    pub open spec fn spec_raw_value(self) -> u8 {
        match self {
            RunStop::Stop => 0x0,
            RunStop::Run => 0x1,
        }
    }

    /// The field encoding of each variant is the core's, and decoding it gives the variant
    /// back.
    pub proof fn lemma_raw_values()
        ensures
            RunStop::Stop.spec_raw_value() == 0x0,
            RunStop::Run.spec_raw_value() == 0x1,
            forall|v: RunStop| #[trigger] RunStop::spec_new_with_raw_value(v.spec_raw_value()) == v,
    {
    }

    /// The raw field encoding of this variant.
    #[verifier::when_used_as_spec(spec_raw_value)]
    pub fn raw_value(self) -> (r: u8)
        ensures
            r == self.spec_raw_value(),
    {
        match self {
            RunStop::Stop => 0x0,
            RunStop::Run => 0x1,
        }
    }

    /// Decodes a one-bit field value.
    pub open spec fn spec_new_with_raw_value(value: u8) -> Self {
        if value == 1 { RunStop::Run } else { RunStop::Stop }
    }

    /// Decodes a one-bit field value.
    #[verifier::when_used_as_spec(spec_new_with_raw_value)]
    pub fn new_with_raw_value(value: u8) -> (r: Self)
        requires
            value < 2,
        ensures
            r == Self::spec_new_with_raw_value(value),
            r.spec_raw_value() == value,
    {
        if value == 1 { RunStop::Run } else { RunStop::Stop }
    }
}

/// MM2S/S2MM control register (DMACR).
#[derive(Clone, Copy, PartialEq, Eq, Structural, Debug)]
pub struct Control {
    /// The raw register word.
    pub raw: u32,
}

impl View for Control {
    type V = u32;

    open spec fn view(&self) -> u32 {
        self.raw
    }
}

impl Control {
    /// The all-zero register word.
    pub open spec fn spec_zero() -> Self {
        Control { raw: 0 }
    }

    /// The all-zero register word.
    #[verifier::when_used_as_spec(spec_zero)]
    pub fn zero() -> (r: Self)
        ensures
            r == Self::spec_zero(),
    {
        Control { raw: 0 }
    }

    /// Wraps a raw register word.
    pub fn new_with_raw_value(raw: u32) -> (r: Self)
        ensures
            r@ == raw,
    {
        Control { raw }
    }

    /// The raw register word.
    pub fn raw_value(self) -> (r: u32)
        ensures
            r == self@,
    {
        self.raw
    }

    /// Interrupt delay timeout count.
    pub open spec fn spec_interrupt_delay(self) -> u8 {
        field(self.raw, 24, 8) as u8
    }

    /// Interrupt delay timeout count.
    #[verifier::when_used_as_spec(spec_interrupt_delay)]
    pub fn interrupt_delay(self) -> (r: u8)
        ensures
            r == self.spec_interrupt_delay(),
            r <= 0xFF,
    {
        proof {
            lemma_field_bound(self.raw, 24, 8);
        }
        get_field(self.raw, 24, 8) as u8
    }

    /// Sets `interrupt_delay`, every other bit unchanged.
    pub open spec fn spec_with_interrupt_delay(self, value: u8) -> Self {
        Control { raw: set_field(self.raw, 24, 8, value as u32) }
    }

    /// Sets `interrupt_delay`, every other bit unchanged.
    #[verifier::when_used_as_spec(spec_with_interrupt_delay)]
    pub fn with_interrupt_delay(self, value: u8) -> (r: Self)
        ensures
            r == self.spec_with_interrupt_delay(value),
    {
        Control { raw: with_field(self.raw, 24, 8, value as u32) }
    }

    /// Number of completed transfers before an interrupt-on-complete fires.
    pub open spec fn spec_interrupt_threshold(self) -> u8 {
        field(self.raw, 16, 8) as u8
    }

    /// Number of completed transfers before an interrupt-on-complete fires.
    #[verifier::when_used_as_spec(spec_interrupt_threshold)]
    pub fn interrupt_threshold(self) -> (r: u8)
        ensures
            r == self.spec_interrupt_threshold(),
            r <= 0xFF,
    {
        proof {
            lemma_field_bound(self.raw, 16, 8);
        }
        get_field(self.raw, 16, 8) as u8
    }

    /// Sets `interrupt_threshold`, every other bit unchanged.
    pub open spec fn spec_with_interrupt_threshold(self, value: u8) -> Self {
        Control { raw: set_field(self.raw, 16, 8, value as u32) }
    }

    /// Sets `interrupt_threshold`, every other bit unchanged.
    #[verifier::when_used_as_spec(spec_with_interrupt_threshold)]
    pub fn with_interrupt_threshold(self, value: u8) -> (r: Self)
        ensures
            r == self.spec_with_interrupt_threshold(value),
    {
        Control { raw: with_field(self.raw, 16, 8, value as u32) }
    }

    /// Enables the error interrupt.
    pub open spec fn spec_error_interrupt_enable(self) -> bool {
        bit(self.raw, 14)
    }

    /// Enables the error interrupt.
    #[verifier::when_used_as_spec(spec_error_interrupt_enable)]
    pub fn error_interrupt_enable(self) -> (r: bool)
        ensures
            r == self.spec_error_interrupt_enable(),
    {
        get_bit(self.raw, 14)
    }

    /// Sets `error_interrupt_enable`, every other bit unchanged.
    pub open spec fn spec_with_error_interrupt_enable(self, value: bool) -> Self {
        Control { raw: set_bit(self.raw, 14, value) }
    }

    /// Sets `error_interrupt_enable`, every other bit unchanged.
    #[verifier::when_used_as_spec(spec_with_error_interrupt_enable)]
    pub fn with_error_interrupt_enable(self, value: bool) -> (r: Self)
        ensures
            r == self.spec_with_error_interrupt_enable(value),
    {
        Control { raw: with_bit(self.raw, 14, value) }
    }

    /// Enables the delay timer interrupt.
    pub open spec fn spec_delay_timer_interrupt_enable(self) -> bool {
        bit(self.raw, 13)
    }

    /// Enables the delay timer interrupt.
    #[verifier::when_used_as_spec(spec_delay_timer_interrupt_enable)]
    pub fn delay_timer_interrupt_enable(self) -> (r: bool)
        ensures
            r == self.spec_delay_timer_interrupt_enable(),
    {
        get_bit(self.raw, 13)
    }

    /// Sets `delay_timer_interrupt_enable`, every other bit unchanged.
    pub open spec fn spec_with_delay_timer_interrupt_enable(self, value: bool) -> Self {
        Control { raw: set_bit(self.raw, 13, value) }
    }

    /// Sets `delay_timer_interrupt_enable`, every other bit unchanged.
    #[verifier::when_used_as_spec(spec_with_delay_timer_interrupt_enable)]
    pub fn with_delay_timer_interrupt_enable(self, value: bool) -> (r: Self)
        ensures
            r == self.spec_with_delay_timer_interrupt_enable(value),
    {
        Control { raw: with_bit(self.raw, 13, value) }
    }

    /// Enables the completion (IOC) interrupt.
    pub open spec fn spec_interrupt_on_complete(self) -> bool {
        bit(self.raw, 12)
    }

    /// Enables the completion (IOC) interrupt.
    #[verifier::when_used_as_spec(spec_interrupt_on_complete)]
    pub fn interrupt_on_complete(self) -> (r: bool)
        ensures
            r == self.spec_interrupt_on_complete(),
    {
        get_bit(self.raw, 12)
    }

    /// Sets `interrupt_on_complete`, every other bit unchanged.
    pub open spec fn spec_with_interrupt_on_complete(self, value: bool) -> Self {
        Control { raw: set_bit(self.raw, 12, value) }
    }

    /// Sets `interrupt_on_complete`, every other bit unchanged.
    #[verifier::when_used_as_spec(spec_with_interrupt_on_complete)]
    pub fn with_interrupt_on_complete(self, value: bool) -> (r: Self)
        ensures
            r == self.spec_with_interrupt_on_complete(value),
    {
        Control { raw: with_bit(self.raw, 12, value) }
    }

    /// Enables cyclic buffer descriptor mode (scatter-gather only).
    pub open spec fn spec_cyclic_bd_enable(self) -> bool {
        bit(self.raw, 4)
    }

    /// Enables cyclic buffer descriptor mode (scatter-gather only).
    #[verifier::when_used_as_spec(spec_cyclic_bd_enable)]
    pub fn cyclic_bd_enable(self) -> (r: bool)
        ensures
            r == self.spec_cyclic_bd_enable(),
    {
        get_bit(self.raw, 4)
    }

    /// Sets `cyclic_bd_enable`, every other bit unchanged.
    pub open spec fn spec_with_cyclic_bd_enable(self, value: bool) -> Self {
        Control { raw: set_bit(self.raw, 4, value) }
    }

    /// Sets `cyclic_bd_enable`, every other bit unchanged.
    #[verifier::when_used_as_spec(spec_with_cyclic_bd_enable)]
    pub fn with_cyclic_bd_enable(self, value: bool) -> (r: Self)
        ensures
            r == self.spec_with_cyclic_bd_enable(value),
    {
        Control { raw: with_bit(self.raw, 4, value) }
    }

    /// Enables keyhole addressing.
    pub open spec fn spec_keyhole(self) -> bool {
        bit(self.raw, 3)
    }

    /// Enables keyhole addressing.
    #[verifier::when_used_as_spec(spec_keyhole)]
    pub fn keyhole(self) -> (r: bool)
        ensures
            r == self.spec_keyhole(),
    {
        get_bit(self.raw, 3)
    }

    /// Sets `keyhole`, every other bit unchanged.
    pub open spec fn spec_with_keyhole(self, value: bool) -> Self {
        Control { raw: set_bit(self.raw, 3, value) }
    }

    /// Sets `keyhole`, every other bit unchanged.
    #[verifier::when_used_as_spec(spec_with_keyhole)]
    pub fn with_keyhole(self, value: bool) -> (r: Self)
        ensures
            r == self.spec_with_keyhole(value),
    {
        Control { raw: with_bit(self.raw, 3, value) }
    }

    /// Resets the DMA/SG engine. Self-clearing once the reset completes.
    pub open spec fn spec_reset(self) -> bool {
        bit(self.raw, 2)
    }

    /// Resets the DMA/SG engine. Self-clearing once the reset completes.
    #[verifier::when_used_as_spec(spec_reset)]
    pub fn reset(self) -> (r: bool)
        ensures
            r == self.spec_reset(),
    {
        get_bit(self.raw, 2)
    }

    /// Sets `reset`, every other bit unchanged.
    pub open spec fn spec_with_reset(self, value: bool) -> Self {
        Control { raw: set_bit(self.raw, 2, value) }
    }

    /// Sets `reset`, every other bit unchanged.
    #[verifier::when_used_as_spec(spec_with_reset)]
    pub fn with_reset(self, value: bool) -> (r: Self)
        ensures
            r == self.spec_with_reset(value),
    {
        Control { raw: with_bit(self.raw, 2, value) }
    }

    /// Starts or stops the channel.
    pub open spec fn spec_run_stop(self) -> RunStop {
        RunStop::spec_new_with_raw_value(field(self.raw, 0, 1) as u8)
    }

    /// Starts or stops the channel.
    #[verifier::when_used_as_spec(spec_run_stop)]
    pub fn run_stop(self) -> (r: RunStop)
        ensures
            r == self.spec_run_stop(),
    {
        proof {
            lemma_field_bound(self.raw, 0, 1);
        }
        let value = get_field(self.raw, 0, 1) as u8;
        RunStop::new_with_raw_value(value)
    }

    /// Sets `run_stop`, every other bit unchanged.
    pub open spec fn spec_with_run_stop(self, value: RunStop) -> Self {
        Control { raw: set_field(self.raw, 0, 1, value.spec_raw_value() as u32) }
    }

    /// Sets `run_stop`, every other bit unchanged.
    #[verifier::when_used_as_spec(spec_with_run_stop)]
    pub fn with_run_stop(self, value: RunStop) -> (r: Self)
        ensures
            r == self.spec_with_run_stop(value),
    {
        Control { raw: with_field(self.raw, 0, 1, value.raw_value() as u32) }
    }
}

impl Default for Control {
    fn default() -> (r: Self)
        ensures
            r@ == 0,
    {
        Control { raw: 0 }
    }
}

/// MM2S/S2MM status register (DMASR).
#[derive(Clone, Copy, PartialEq, Eq, Structural, Debug)]
pub struct Status {
    /// The raw register word.
    pub raw: u32,
}

impl View for Status {
    type V = u32;

    open spec fn view(&self) -> u32 {
        self.raw
    }
}

impl Status {
    /// The all-zero register word.
    pub open spec fn spec_zero() -> Self {
        Status { raw: 0 }
    }

    /// The all-zero register word.
    #[verifier::when_used_as_spec(spec_zero)]
    pub fn zero() -> (r: Self)
        ensures
            r == Self::spec_zero(),
    {
        Status { raw: 0 }
    }

    /// Wraps a raw register word.
    pub fn new_with_raw_value(raw: u32) -> (r: Self)
        ensures
            r@ == raw,
    {
        Status { raw }
    }

    /// The raw register word.
    pub fn raw_value(self) -> (r: u32)
        ensures
            r == self@,
    {
        self.raw
    }

    /// Current interrupt delay timeout count.
    pub open spec fn spec_interrupt_delay(self) -> u8 {
        field(self.raw, 24, 8) as u8
    }

    /// Current interrupt delay timeout count.
    #[verifier::when_used_as_spec(spec_interrupt_delay)]
    pub fn interrupt_delay(self) -> (r: u8)
        ensures
            r == self.spec_interrupt_delay(),
            r <= 0xFF,
    {
        proof {
            lemma_field_bound(self.raw, 24, 8);
        }
        get_field(self.raw, 24, 8) as u8
    }

    /// Current interrupt threshold count.
    pub open spec fn spec_interrupt_threshold(self) -> u8 {
        field(self.raw, 16, 8) as u8
    }

    /// Current interrupt threshold count.
    #[verifier::when_used_as_spec(spec_interrupt_threshold)]
    pub fn interrupt_threshold(self) -> (r: u8)
        ensures
            r == self.spec_interrupt_threshold(),
            r <= 0xFF,
    {
        proof {
            lemma_field_bound(self.raw, 16, 8);
        }
        get_field(self.raw, 16, 8) as u8
    }

    /// Write-to-clear interrupt status bit.
    pub open spec fn spec_error_interrupt(self) -> bool {
        bit(self.raw, 14)
    }

    /// Write-to-clear interrupt status bit.
    #[verifier::when_used_as_spec(spec_error_interrupt)]
    pub fn error_interrupt(self) -> (r: bool)
        ensures
            r == self.spec_error_interrupt(),
    {
        get_bit(self.raw, 14)
    }

    /// Sets `error_interrupt`, every other bit unchanged.
    pub open spec fn spec_with_error_interrupt(self, value: bool) -> Self {
        Status { raw: set_bit(self.raw, 14, value) }
    }

    /// Sets `error_interrupt`, every other bit unchanged.
    #[verifier::when_used_as_spec(spec_with_error_interrupt)]
    pub fn with_error_interrupt(self, value: bool) -> (r: Self)
        ensures
            r == self.spec_with_error_interrupt(value),
    {
        Status { raw: with_bit(self.raw, 14, value) }
    }

    /// Write-to-clear interrupt status bit.
    pub open spec fn spec_delay_timer_interrupt(self) -> bool {
        bit(self.raw, 13)
    }

    /// Write-to-clear interrupt status bit.
    #[verifier::when_used_as_spec(spec_delay_timer_interrupt)]
    pub fn delay_timer_interrupt(self) -> (r: bool)
        ensures
            r == self.spec_delay_timer_interrupt(),
    {
        get_bit(self.raw, 13)
    }

    /// Sets `delay_timer_interrupt`, every other bit unchanged.
    pub open spec fn spec_with_delay_timer_interrupt(self, value: bool) -> Self {
        Status { raw: set_bit(self.raw, 13, value) }
    }

    /// Sets `delay_timer_interrupt`, every other bit unchanged.
    #[verifier::when_used_as_spec(spec_with_delay_timer_interrupt)]
    pub fn with_delay_timer_interrupt(self, value: bool) -> (r: Self)
        ensures
            r == self.spec_with_delay_timer_interrupt(value),
    {
        Status { raw: with_bit(self.raw, 13, value) }
    }

    /// Write-to-clear interrupt status bit.
    pub open spec fn spec_completion_interrupt(self) -> bool {
        bit(self.raw, 12)
    }

    /// Write-to-clear interrupt status bit.
    #[verifier::when_used_as_spec(spec_completion_interrupt)]
    pub fn completion_interrupt(self) -> (r: bool)
        ensures
            r == self.spec_completion_interrupt(),
    {
        get_bit(self.raw, 12)
    }

    /// Sets `completion_interrupt`, every other bit unchanged.
    pub open spec fn spec_with_completion_interrupt(self, value: bool) -> Self {
        Status { raw: set_bit(self.raw, 12, value) }
    }

    /// Sets `completion_interrupt`, every other bit unchanged.
    #[verifier::when_used_as_spec(spec_with_completion_interrupt)]
    pub fn with_completion_interrupt(self, value: bool) -> (r: Self)
        ensures
            r == self.spec_with_completion_interrupt(value),
    {
        Status { raw: with_bit(self.raw, 12, value) }
    }

    /// Scatter-gather descriptor decode error.
    pub open spec fn spec_sg_decode_error(self) -> bool {
        bit(self.raw, 10)
    }

    /// Scatter-gather descriptor decode error.
    #[verifier::when_used_as_spec(spec_sg_decode_error)]
    pub fn sg_decode_error(self) -> (r: bool)
        ensures
            r == self.spec_sg_decode_error(),
    {
        get_bit(self.raw, 10)
    }

    /// Scatter-gather slave (AXI) error.
    pub open spec fn spec_sg_slave_error(self) -> bool {
        bit(self.raw, 9)
    }

    /// Scatter-gather slave (AXI) error.
    #[verifier::when_used_as_spec(spec_sg_slave_error)]
    pub fn sg_slave_error(self) -> (r: bool)
        ensures
            r == self.spec_sg_slave_error(),
    {
        get_bit(self.raw, 9)
    }

    /// Scatter-gather internal error.
    pub open spec fn spec_sg_internal_error(self) -> bool {
        bit(self.raw, 8)
    }

    /// Scatter-gather internal error.
    #[verifier::when_used_as_spec(spec_sg_internal_error)]
    pub fn sg_internal_error(self) -> (r: bool)
        ensures
            r == self.spec_sg_internal_error(),
    {
        get_bit(self.raw, 8)
    }

    /// DMA/data stream decode error.
    pub open spec fn spec_dma_decode_error(self) -> bool {
        bit(self.raw, 6)
    }

    /// DMA/data stream decode error.
    #[verifier::when_used_as_spec(spec_dma_decode_error)]
    pub fn dma_decode_error(self) -> (r: bool)
        ensures
            r == self.spec_dma_decode_error(),
    {
        get_bit(self.raw, 6)
    }

    /// DMA slave (AXI) error.
    pub open spec fn spec_dma_slave_error(self) -> bool {
        bit(self.raw, 5)
    }

    /// DMA slave (AXI) error.
    #[verifier::when_used_as_spec(spec_dma_slave_error)]
    pub fn dma_slave_error(self) -> (r: bool)
        ensures
            r == self.spec_dma_slave_error(),
    {
        get_bit(self.raw, 5)
    }

    /// DMA internal error.
    pub open spec fn spec_dma_internal_error(self) -> bool {
        bit(self.raw, 4)
    }

    /// DMA internal error.
    #[verifier::when_used_as_spec(spec_dma_internal_error)]
    pub fn dma_internal_error(self) -> (r: bool)
        ensures
            r == self.spec_dma_internal_error(),
    {
        get_bit(self.raw, 4)
    }

    /// Whether scatter-gather mode is enabled for this channel.
    pub open spec fn spec_scatter_gather_enabled(self) -> bool {
        bit(self.raw, 3)
    }

    /// Whether scatter-gather mode is enabled for this channel.
    #[verifier::when_used_as_spec(spec_scatter_gather_enabled)]
    pub fn scatter_gather_enabled(self) -> (r: bool)
        ensures
            r == self.spec_scatter_gather_enabled(),
    {
        get_bit(self.raw, 3)
    }

    /// Channel is idle (no transfer in progress).
    pub open spec fn spec_idle(self) -> bool {
        bit(self.raw, 1)
    }

    /// Channel is idle (no transfer in progress).
    #[verifier::when_used_as_spec(spec_idle)]
    pub fn idle(self) -> (r: bool)
        ensures
            r == self.spec_idle(),
    {
        get_bit(self.raw, 1)
    }

    /// Channel is halted.
    pub open spec fn spec_halted(self) -> bool {
        bit(self.raw, 0)
    }

    /// Channel is halted.
    #[verifier::when_used_as_spec(spec_halted)]
    pub fn halted(self) -> (r: bool)
        ensures
            r == self.spec_halted(),
    {
        get_bit(self.raw, 0)
    }
}

impl Default for Status {
    fn default() -> (r: Self)
        ensures
            r@ == 0,
    {
        Status { raw: 0 }
    }
}

} // verus!
