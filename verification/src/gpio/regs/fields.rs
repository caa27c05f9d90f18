//! Register fields.
use vstd::prelude::*;
use crate::bits::{bit, set_bit, get_bit, with_bit};

verus! {

/// Data register.
#[derive(Clone, Copy, PartialEq, Eq, Structural, Debug)]
pub struct Pins {
    /// The raw register word.
    pub raw: u32,
}

impl View for Pins {
    type V = u32;

    open spec fn view(&self) -> u32 {
        self.raw
    }
}

impl Pins {
    /// The all-zero register word.
    pub open spec fn spec_zero() -> Self {
        Pins { raw: 0 }
    }

    /// The all-zero register word.
    #[verifier::when_used_as_spec(spec_zero)]
    pub fn zero() -> (r: Self)
        ensures
            r == Self::spec_zero(),
    {
        Pins { raw: 0 }
    }

    /// Wraps a raw register word.
    pub fn new_with_raw_value(raw: u32) -> (r: Self)
        ensures
            r@ == raw,
    {
        Pins { raw }
    }

    /// The raw register word.
    pub fn raw_value(self) -> (r: u32)
        ensures
            r == self@,
    {
        self.raw
    }

    /// Individual data bits.
    pub open spec fn spec_pins(self, index: usize) -> bool {
        bit(self.raw, index as u32)
    }

    /// Individual data bits.
    #[verifier::when_used_as_spec(spec_pins)]
    pub fn pins(self, index: usize) -> (r: bool)
        requires
            index < 32,
        ensures
            r == self.spec_pins(index),
    {
        get_bit(self.raw, index as u32)
    }

    /// Sets element `index` of `pins`, every other bit unchanged.
    pub open spec fn spec_with_pins(self, index: usize, value: bool) -> Self {
        Pins { raw: set_bit(self.raw, index as u32, value) }
    }

    /// Sets element `index` of `pins`, every other bit unchanged.
    #[verifier::when_used_as_spec(spec_with_pins)]
    pub fn with_pins(self, index: usize, value: bool) -> (r: Self)
        requires
            index < 32,
        ensures
            r == self.spec_with_pins(index, value),
    {
        Pins { raw: with_bit(self.raw, index as u32, value) }
    }
}

/// Global interrupt enable field.
#[derive(Clone, Copy, PartialEq, Eq, Structural, Debug)]
pub struct GlobalInterruptEnable {
    /// The raw register word.
    pub raw: u32,
}

impl View for GlobalInterruptEnable {
    type V = u32;

    open spec fn view(&self) -> u32 {
        self.raw
    }
}

impl GlobalInterruptEnable {
    /// The all-zero register word.
    pub open spec fn spec_zero() -> Self {
        GlobalInterruptEnable { raw: 0 }
    }

    /// The all-zero register word.
    #[verifier::when_used_as_spec(spec_zero)]
    pub fn zero() -> (r: Self)
        ensures
            r == Self::spec_zero(),
    {
        GlobalInterruptEnable { raw: 0 }
    }

    /// Wraps a raw register word.
    pub fn new_with_raw_value(raw: u32) -> (r: Self)
        ensures
            r@ == raw,
    {
        GlobalInterruptEnable { raw }
    }

    /// The raw register word.
    pub fn raw_value(self) -> (r: u32)
        ensures
            r == self@,
    {
        self.raw
    }

    /// Enable bit.
    pub open spec fn spec_enable(self) -> bool {
        bit(self.raw, 31)
    }

    /// Enable bit.
    #[verifier::when_used_as_spec(spec_enable)]
    pub fn enable(self) -> (r: bool)
        ensures
            r == self.spec_enable(),
    {
        get_bit(self.raw, 31)
    }

    /// Sets `enable`, every other bit unchanged.
    pub open spec fn spec_with_enable(self, value: bool) -> Self {
        GlobalInterruptEnable { raw: set_bit(self.raw, 31, value) }
    }

    /// Sets `enable`, every other bit unchanged.
    #[verifier::when_used_as_spec(spec_with_enable)]
    pub fn with_enable(self, value: bool) -> (r: Self)
        ensures
            r == self.spec_with_enable(value),
    {
        GlobalInterruptEnable { raw: with_bit(self.raw, 31, value) }
    }
}

impl Default for GlobalInterruptEnable {
    fn default() -> (r: Self)
        ensures
            r@ == 0,
    {
        GlobalInterruptEnable { raw: 0 }
    }
}

/// Interrupt bits field.
#[derive(Clone, Copy, PartialEq, Eq, Structural, Debug)]
pub struct InterruptBits {
    /// The raw register word.
    pub raw: u32,
}

impl View for InterruptBits {
    type V = u32;

    open spec fn view(&self) -> u32 {
        self.raw
    }
}

impl InterruptBits {
    /// The all-zero register word.
    pub open spec fn spec_zero() -> Self {
        InterruptBits { raw: 0 }
    }

    /// The all-zero register word.
    #[verifier::when_used_as_spec(spec_zero)]
    pub fn zero() -> (r: Self)
        ensures
            r == Self::spec_zero(),
    {
        InterruptBits { raw: 0 }
    }

    /// Wraps a raw register word.
    pub fn new_with_raw_value(raw: u32) -> (r: Self)
        ensures
            r@ == raw,
    {
        InterruptBits { raw }
    }

    /// The raw register word.
    pub fn raw_value(self) -> (r: u32)
        ensures
            r == self@,
    {
        self.raw
    }

    /// Channel 2 bit.
    pub open spec fn spec_channel2(self) -> bool {
        bit(self.raw, 1)
    }

    /// Channel 2 bit.
    #[verifier::when_used_as_spec(spec_channel2)]
    pub fn channel2(self) -> (r: bool)
        ensures
            r == self.spec_channel2(),
    {
        get_bit(self.raw, 1)
    }

    /// Sets `channel2`, every other bit unchanged.
    pub open spec fn spec_with_channel2(self, value: bool) -> Self {
        InterruptBits { raw: set_bit(self.raw, 1, value) }
    }

    /// Sets `channel2`, every other bit unchanged.
    #[verifier::when_used_as_spec(spec_with_channel2)]
    pub fn with_channel2(self, value: bool) -> (r: Self)
        ensures
            r == self.spec_with_channel2(value),
    {
        InterruptBits { raw: with_bit(self.raw, 1, value) }
    }

    /// Channel 1 bit.
    pub open spec fn spec_channel1(self) -> bool {
        bit(self.raw, 0)
    }

    /// Channel 1 bit.
    #[verifier::when_used_as_spec(spec_channel1)]
    pub fn channel1(self) -> (r: bool)
        ensures
            r == self.spec_channel1(),
    {
        get_bit(self.raw, 0)
    }

    /// Sets `channel1`, every other bit unchanged.
    pub open spec fn spec_with_channel1(self, value: bool) -> Self {
        InterruptBits { raw: set_bit(self.raw, 0, value) }
    }

    /// Sets `channel1`, every other bit unchanged.
    #[verifier::when_used_as_spec(spec_with_channel1)]
    pub fn with_channel1(self, value: bool) -> (r: Self)
        ensures
            r == self.spec_with_channel1(value),
    {
        InterruptBits { raw: with_bit(self.raw, 0, value) }
    }
}

impl Default for InterruptBits {
    fn default() -> (r: Self)
        ensures
            r@ == 0,
    {
        InterruptBits { raw: 0 }
    }
}

} // verus!
