//! # AMD AXI GPIO driver
//!
//! Driver logic for the
//! [AMD AXI GPIO IP core](https://www.amd.com/en/products/adaptive-socs-and-fpgas/intellectual-property/axi_gpio.html).
//!
//! Every operation that touches a register takes the register words it reads as arguments and
//! returns the register writes it makes as [`RegWrite`]s, see [`crate::mmio`].
pub mod asynch;
pub mod regs;

use core::marker::PhantomData;
use vstd::prelude::*;

use crate::bits::{bit, lemma_set_bit, set_bit};
use crate::mmio::RegWrite;
use crate::wakers::WakerSlots;
use self::asynch::{AsyncChannel, ClaimWakerError};
use self::regs::fields::{GlobalInterruptEnable, InterruptBits, Pins};

verus! {

/// Individual channel identifier on an AXI GPIO block.
#[derive(Debug, PartialEq, Eq, Structural, Clone, Copy)]
pub enum ChannelId {
    /// Channel 1.
    Ch1,
    /// Channel 2.
    Ch2,
}

/// Offset of the data register of `channel`.
pub open spec fn data_offset(channel: ChannelId) -> usize {
    match channel {
        ChannelId::Ch1 => regs::CH1_DATA_OFFSET,
        ChannelId::Ch2 => regs::CH2_DATA_OFFSET,
    }
}

/// Offset of the tri-state register of `channel`.
pub open spec fn tri_state_offset(channel: ChannelId) -> usize {
    match channel {
        ChannelId::Ch1 => regs::CH1_TRI_STATE_OFFSET,
        ChannelId::Ch2 => regs::CH2_TRI_STATE_OFFSET,
    }
}

/// Offset of the data register of `channel`.
#[verifier::when_used_as_spec(data_offset)]
pub fn data_register_offset(channel: ChannelId) -> (r: usize)
    ensures
        r == data_offset(channel),
{
    match channel {
        ChannelId::Ch1 => regs::CH1_DATA_OFFSET,
        ChannelId::Ch2 => regs::CH2_DATA_OFFSET,
    }
}

/// Offset of the tri-state register of `channel`.
#[verifier::when_used_as_spec(tri_state_offset)]
pub fn tri_state_register_offset(channel: ChannelId) -> (r: usize)
    ensures
        r == tri_state_offset(channel),
{
    match channel {
        ChannelId::Ch1 => regs::CH1_TRI_STATE_OFFSET,
        ChannelId::Ch2 => regs::CH2_TRI_STATE_OFFSET,
    }
}

/// `bits` with the interrupt bit of `channel` set to `enabled`, the other channel's bit
/// unchanged.
pub open spec fn with_channel_bit(bits: InterruptBits, channel: ChannelId, enabled: bool) -> InterruptBits {
    match channel {
        ChannelId::Ch1 => bits.spec_with_channel1(enabled),
        ChannelId::Ch2 => bits.spec_with_channel2(enabled),
    }
}

/// The interrupt bit of `channel` in `bits`.
pub open spec fn channel_bit(bits: InterruptBits, channel: ChannelId) -> bool {
    match channel {
        ChannelId::Ch1 => bits.spec_channel1(),
        ChannelId::Ch2 => bits.spec_channel2(),
    }
}

/// Sets the interrupt bit of `channel` in `bits` to `enabled`.
pub fn set_channel_bit(bits: InterruptBits, channel: ChannelId, enabled: bool) -> (r: InterruptBits)
    ensures
        r == with_channel_bit(bits, channel, enabled),
{
    match channel {
        ChannelId::Ch1 => bits.with_channel1(enabled),
        ChannelId::Ch2 => bits.with_channel2(enabled),
    }
}

/// Type-level marker for channel 1.
pub struct Channel1Marker {}

/// Type-level marker for channel 2.
pub struct Channel2Marker {}

/// Marker trait implemented by channel markers.
pub trait AxiGpioChannel {
    /// Actual channel ID.
    const ID: ChannelId;
}

impl AxiGpioChannel for Channel1Marker {
    const ID: ChannelId = ChannelId::Ch1;
}

impl AxiGpioChannel for Channel2Marker {
    const ID: ChannelId = ChannelId::Ch2;
}

/// Marker type representing ownership of pin `N` of a GPIO channel on a [AxiGpioChannel].
#[derive(Debug)]
pub struct Pin<Ch: AxiGpioChannel, const N: usize>(PhantomData<Ch>);

impl<Ch: AxiGpioChannel, const N: usize> Pin<Ch, N> {
    /// The ownership token of pin `N` of channel `Ch`.
    pub closed spec fn spec_token() -> Self {
        Pin(PhantomData::<Ch>)
    }

    /// Create new pin resource structure.
    fn new() -> (r: Self)
        ensures
            r == Self::spec_token(),
    {
        Pin(PhantomData)
    }

    /// Steal a pin resource structure.
    ///
    /// This can duplicate a resource tracking structure, which in turn can lead to data races
    /// when using other APIs relying on ownership guarantees. `N` must be smaller or equal to
    /// 31.
    pub fn steal() -> (r: Self)
        requires
            N <= 31,
        ensures
            r == Self::spec_token(),
    {
        Pin(PhantomData)
    }
}

/// Ownership tokens for the 32 pins of one AXI GPIO channel.
#[derive(Debug)]
pub struct ChannelPins<Ch: AxiGpioChannel> {
    /// GPIO pin 0.
    pub p0: Pin<Ch, 0>,
    /// GPIO pin 1.
    pub p1: Pin<Ch, 1>,
    /// GPIO pin 2.
    pub p2: Pin<Ch, 2>,
    /// GPIO pin 3.
    pub p3: Pin<Ch, 3>,
    /// GPIO pin 4.
    pub p4: Pin<Ch, 4>,
    /// GPIO pin 5.
    pub p5: Pin<Ch, 5>,
    /// GPIO pin 6.
    pub p6: Pin<Ch, 6>,
    /// GPIO pin 7.
    pub p7: Pin<Ch, 7>,
    /// GPIO pin 8.
    pub p8: Pin<Ch, 8>,
    /// GPIO pin 9.
    pub p9: Pin<Ch, 9>,
    /// GPIO pin 10.
    pub p10: Pin<Ch, 10>,
    /// GPIO pin 11.
    pub p11: Pin<Ch, 11>,
    /// GPIO pin 12.
    pub p12: Pin<Ch, 12>,
    /// GPIO pin 13.
    pub p13: Pin<Ch, 13>,
    /// GPIO pin 14.
    pub p14: Pin<Ch, 14>,
    /// GPIO pin 15.
    pub p15: Pin<Ch, 15>,
    /// GPIO pin 16.
    pub p16: Pin<Ch, 16>,
    /// GPIO pin 17.
    pub p17: Pin<Ch, 17>,
    /// GPIO pin 18.
    pub p18: Pin<Ch, 18>,
    /// GPIO pin 19.
    pub p19: Pin<Ch, 19>,
    /// GPIO pin 20.
    pub p20: Pin<Ch, 20>,
    /// GPIO pin 21.
    pub p21: Pin<Ch, 21>,
    /// GPIO pin 22.
    pub p22: Pin<Ch, 22>,
    /// GPIO pin 23.
    pub p23: Pin<Ch, 23>,
    /// GPIO pin 24.
    pub p24: Pin<Ch, 24>,
    /// GPIO pin 25.
    pub p25: Pin<Ch, 25>,
    /// GPIO pin 26.
    pub p26: Pin<Ch, 26>,
    /// GPIO pin 27.
    pub p27: Pin<Ch, 27>,
    /// GPIO pin 28.
    pub p28: Pin<Ch, 28>,
    /// GPIO pin 29.
    pub p29: Pin<Ch, 29>,
    /// GPIO pin 30.
    pub p30: Pin<Ch, 30>,
    /// GPIO pin 31.
    pub p31: Pin<Ch, 31>,
}

impl<Ch: AxiGpioChannel> ChannelPins<Ch> {
    /// The full set of ownership tokens of channel `Ch`: the token of each of its 32 pins.
    pub open spec fn spec_all() -> Self {
        ChannelPins {
            p0: Pin::spec_token(),
            p1: Pin::spec_token(),
            p2: Pin::spec_token(),
            p3: Pin::spec_token(),
            p4: Pin::spec_token(),
            p5: Pin::spec_token(),
            p6: Pin::spec_token(),
            p7: Pin::spec_token(),
            p8: Pin::spec_token(),
            p9: Pin::spec_token(),
            p10: Pin::spec_token(),
            p11: Pin::spec_token(),
            p12: Pin::spec_token(),
            p13: Pin::spec_token(),
            p14: Pin::spec_token(),
            p15: Pin::spec_token(),
            p16: Pin::spec_token(),
            p17: Pin::spec_token(),
            p18: Pin::spec_token(),
            p19: Pin::spec_token(),
            p20: Pin::spec_token(),
            p21: Pin::spec_token(),
            p22: Pin::spec_token(),
            p23: Pin::spec_token(),
            p24: Pin::spec_token(),
            p25: Pin::spec_token(),
            p26: Pin::spec_token(),
            p27: Pin::spec_token(),
            p28: Pin::spec_token(),
            p29: Pin::spec_token(),
            p30: Pin::spec_token(),
            p31: Pin::spec_token(),
        }
    }

    /// Steal a new set of pin ownership tokens for channel `Ch`.
    ///
    /// Only one set of tokens must exist per channel at a time. The caller must ensure that no
    /// other [ChannelPins] for the same channel is alive, since nothing here prevents handing
    /// out tokens for pins that are already configured and in use elsewhere.
    pub fn steal() -> (r: Self)
        ensures
            r == Self::spec_all(),
    {
        ChannelPins {
            p0: Pin::new(),
            p1: Pin::new(),
            p2: Pin::new(),
            p3: Pin::new(),
            p4: Pin::new(),
            p5: Pin::new(),
            p6: Pin::new(),
            p7: Pin::new(),
            p8: Pin::new(),
            p9: Pin::new(),
            p10: Pin::new(),
            p11: Pin::new(),
            p12: Pin::new(),
            p13: Pin::new(),
            p14: Pin::new(),
            p15: Pin::new(),
            p16: Pin::new(),
            p17: Pin::new(),
            p18: Pin::new(),
            p19: Pin::new(),
            p20: Pin::new(),
            p21: Pin::new(),
            p22: Pin::new(),
            p23: Pin::new(),
            p24: Pin::new(),
            p25: Pin::new(),
            p26: Pin::new(),
            p27: Pin::new(),
            p28: Pin::new(),
            p29: Pin::new(),
            p30: Pin::new(),
            p31: Pin::new(),
        }
    }
}

/// AXI GPIO peripheral driver.
pub struct AxiGpio {
    base_addr: usize,
    ch1_events_taken: bool,
    ch2_events_taken: bool,
}

impl AxiGpio {
    /// Base address of the register block.
    pub closed spec fn spec_base_addr(&self) -> usize {
        self.base_addr
    }

    /// Whether the events of `channel` were taken from this instance.
    pub closed spec fn events_taken(&self, channel: ChannelId) -> bool {
        match channel {
            ChannelId::Ch1 => self.ch1_events_taken,
            ChannelId::Ch2 => self.ch2_events_taken,
        }
    }

    /// Create a new AXI GPIO peripheral driver for an IP core instance configured with only
    /// one channel block, together with pin ownership tokens for that channel.
    ///
    /// `base_addr` must be the memory-mapped register address of an AXI GPIO peripheral, and
    /// no other driver instance may use the same registers.
    pub fn new_single_channel(base_addr: u32) -> (r: (Self, ChannelPins<Channel1Marker>))
        ensures
            r.0.spec_base_addr() == base_addr as usize,
            !r.0.events_taken(ChannelId::Ch1),
            !r.0.events_taken(ChannelId::Ch2),
    {
        (Self::from_base_addr(base_addr), ChannelPins::steal())
    }

    /// Create a new AXI GPIO peripheral driver for an IP core instance configured with both
    /// channels, together with pin ownership tokens for both of them.
    ///
    /// See [Self::new_single_channel] for the requirements on `base_addr`.
    pub fn new_dual_channel(base_addr: u32) -> (r: (
        Self,
        ChannelPins<Channel1Marker>,
        ChannelPins<Channel2Marker>,
    ))
        ensures
            r.0.spec_base_addr() == base_addr as usize,
            !r.0.events_taken(ChannelId::Ch1),
            !r.0.events_taken(ChannelId::Ch2),
    {
        (Self::from_base_addr(base_addr), ChannelPins::steal(), ChannelPins::steal())
    }

    fn from_base_addr(base_addr: u32) -> (r: Self)
        ensures
            r.base_addr == base_addr as usize,
            !r.ch1_events_taken,
            !r.ch2_events_taken,
    {
        AxiGpio { base_addr: base_addr as usize, ch1_events_taken: false, ch2_events_taken: false }
    }

    /// Direct register access: the base address of the register block, at which the offsets
    /// of [regs] apply.
    pub fn regs(&mut self) -> (r: usize)
        ensures
            r == old(self).spec_base_addr(),
            *final(self) == *old(self),
    {
        self.base_addr
    }

    /// Configure a pin as an [Input]. `tri_state` is the current word of the pin's channel
    /// tri-state register; the returned write updates it.
    pub fn input_pin<Ch: AxiGpioChannel, const N: usize>(&self, pin: Pin<Ch, N>, tri_state: Pins) -> (r: (Input, RegWrite))
        requires
            N < 32,
        ensures
            r.0.pin().spec_channel() == Ch::ID,
            r.0.pin().spec_offset() == N,
            r.0.pin().spec_base_addr() == self.spec_base_addr(),
            r.1 == RegWrite::spec_new(tri_state_offset(Ch::ID), tri_state.spec_with_pins(N, true)@),
    {
        Input::new(self.base_addr, pin, tri_state)
    }

    /// Configure a pin as an [Output], driving the level `init_high` immediately. `data` and
    /// `tri_state` are the current words of the pin's channel data and tri-state registers; the
    /// returned writes are to be made in order.
    pub fn output_pin<Ch: AxiGpioChannel, const N: usize>(
        &self,
        pin: Pin<Ch, N>,
        init_high: bool,
        data: Pins,
        tri_state: Pins,
    ) -> (r: (Output, Vec<RegWrite>))
        requires
            N < 32,
        ensures
            r.0.pin().spec_channel() == Ch::ID,
            r.0.pin().spec_offset() == N,
            r.0.pin().spec_base_addr() == self.spec_base_addr(),
            r.1@ == seq![
                RegWrite::spec_new(data_offset(Ch::ID), data.spec_with_pins(N, init_high)@),
                RegWrite::spec_new(tri_state_offset(Ch::ID), tri_state.spec_with_pins(N, false)@),
            ],
    {
        Output::new(self.base_addr, pin, init_high, data, tri_state)
    }

    /// Enable the peripheral's global interrupt output.
    ///
    /// Has no effect unless at least one channel also has its interrupt enabled via
    /// [Self::enable_channel_interrupt].
    pub fn enable_global_interrupt(&mut self) -> (r: RegWrite)
        ensures
            r == RegWrite::spec_new(
                regs::GLOBAL_INTERRUPT_ENABLE_OFFSET,
                GlobalInterruptEnable::spec_zero().spec_with_enable(true)@,
            ),
            *final(self) == *old(self),
    {
        RegWrite::new(regs::GLOBAL_INTERRUPT_ENABLE_OFFSET, GlobalInterruptEnable::zero().with_enable(true).raw_value())
    }

    /// Disable the peripheral's global interrupt output.
    pub fn disable_global_interrupt(&mut self) -> (r: RegWrite)
        ensures
            r == RegWrite::spec_new(
                regs::GLOBAL_INTERRUPT_ENABLE_OFFSET,
                GlobalInterruptEnable::spec_zero().spec_with_enable(false)@,
            ),
            *final(self) == *old(self),
    {
        RegWrite::new(regs::GLOBAL_INTERRUPT_ENABLE_OFFSET, GlobalInterruptEnable::zero().with_enable(false).raw_value())
    }

    /// Enable the interrupt for one channel. `interrupt_enable` is the current word of the
    /// interrupt enable register.
    ///
    /// The AXI GPIO core only has one interrupt bit per channel: it fires when any pin of that
    /// channel changes, see [asynch] for what that means for async support. Don't call this for
    /// a channel that has an [asynch::AsyncChannel]: it manages this same bit itself, and the
    /// two would fight over it.
    pub fn enable_channel_interrupt(&mut self, channel: ChannelId, interrupt_enable: InterruptBits) -> (r: RegWrite)
        ensures
            r == RegWrite::spec_new(
                regs::INTERRUPT_ENABLE_OFFSET,
                with_channel_bit(interrupt_enable, channel, true)@,
            ),
            *final(self) == *old(self),
    {
        RegWrite::new(regs::INTERRUPT_ENABLE_OFFSET, set_channel_bit(interrupt_enable, channel, true).raw_value())
    }

    /// Disable the interrupt for one channel. `interrupt_enable` is the current word of the
    /// interrupt enable register.
    pub fn disable_channel_interrupt(&mut self, channel: ChannelId, interrupt_enable: InterruptBits) -> (r: RegWrite)
        ensures
            r == RegWrite::spec_new(
                regs::INTERRUPT_ENABLE_OFFSET,
                with_channel_bit(interrupt_enable, channel, false)@,
            ),
            *final(self) == *old(self),
    {
        RegWrite::new(regs::INTERRUPT_ENABLE_OFFSET, set_channel_bit(interrupt_enable, channel, false).raw_value())
    }

    /// Create an asynchronous, interrupt-driven event source for one channel, claiming waker
    /// slot `waker_idx` of `wakers`.
    ///
    /// Returns `Ok(None)` if this channel's events were already taken from this [AxiGpio]
    /// instance - each channel's events can only be taken once per instance. Otherwise the
    /// claim is attempted, and the channel's events count as taken only if it succeeds.
    ///
    /// See [asynch::AsyncChannel] for details and the interrupt handler wiring this requires to
    /// make progress.
    pub fn event_channel(
        &mut self,
        channel: ChannelId,
        waker_idx: usize,
        wakers: &mut WakerSlots,
    ) -> (r: Result<Option<AsyncChannel>, ClaimWakerError>)
        ensures
            old(self).events_taken(channel) ==> {
                &&& r == Ok::<Option<AsyncChannel>, ClaimWakerError>(None)
                &&& *final(self) == *old(self)
                &&& final(wakers)@ == old(wakers)@
            },
            !old(self).events_taken(channel) ==> {
                &&& final(wakers)@ == crate::wakers::claim_next(old(wakers)@, waker_idx)
                &&& match r {
                    Ok(Some(events)) => {
                        &&& crate::wakers::claim_result(old(wakers)@, waker_idx) is Ok
                        &&& events.token() == asynch::ChannelToken::spec_steal(old(self).spec_base_addr(), channel, waker_idx)
                        &&& final(self).events_taken(channel)
                    },
                    Ok(None) => false,
                    Err(e) => {
                        &&& e == asynch::claim_error(crate::wakers::claim_result(old(wakers)@, waker_idx), waker_idx)
                        &&& crate::wakers::claim_result(old(wakers)@, waker_idx) is Err
                        &&& !final(self).events_taken(channel)
                    },
                }
            },
            final(self).spec_base_addr() == old(self).spec_base_addr(),
            final(self).events_taken(other_channel(channel)) == old(self).events_taken(other_channel(channel)),
    {
        let taken = match channel {
            ChannelId::Ch1 => self.ch1_events_taken,
            ChannelId::Ch2 => self.ch2_events_taken,
        };
        if taken {
            return Ok(None);
        }
        // The waker claim below can still fail, so only commit to `taken` once it succeeds.
        let events = AsyncChannel::new(self.base_addr, channel, waker_idx, wakers)?;
        match channel {
            ChannelId::Ch1 => self.ch1_events_taken = true,
            ChannelId::Ch2 => self.ch2_events_taken = true,
        }
        Ok(Some(events))
    }
}

/// The channel that is not `channel`.
pub open spec fn other_channel(channel: ChannelId) -> ChannelId {
    match channel {
        ChannelId::Ch1 => ChannelId::Ch2,
        ChannelId::Ch2 => ChannelId::Ch1,
    }
}

/// Low-level, unchecked access to a single GPIO pin.
///
/// Data and tri-state are shared 32-bit registers across all 32 pins of a channel, and the AXI
/// GPIO core has no atomic set/clear/toggle registers, so a pin operation is a plain
/// read-modify-write of that shared register. Concurrently accessing different pins of the same
/// channel from different execution contexts (e.g. thread and interrupt handler) is a data race
/// and must be externally synchronized.
pub struct LowLevelGpio {
    base_addr: usize,
    channel: ChannelId,
    offset: u8,
}

impl LowLevelGpio {
    #[verifier::type_invariant]
    spec fn offset_in_range(self) -> bool {
        self.offset < 32
    }

    /// Base address of the register block of the pin's GPIO instance.
    pub closed spec fn spec_base_addr(self) -> usize {
        self.base_addr
    }

    /// The pin's channel.
    pub closed spec fn spec_channel(self) -> ChannelId {
        self.channel
    }

    /// The pin's index within its channel, below 32.
    pub closed spec fn spec_offset(self) -> u8 {
        self.offset
    }

    /// Create a new low-level pin handle from a [Pin] ownership token.
    pub fn new<Ch: AxiGpioChannel, const N: usize>(base_addr: usize, _pin: Pin<Ch, N>) -> (r: Self)
        requires
            N < 32,
        ensures
            r.spec_base_addr() == base_addr,
            r.spec_channel() == Ch::ID,
            r.spec_offset() == N,
    {
        // `_pin` is a `Pin<N>` ownership token, so this (channel, offset) is genuinely
        // owned here.
        Self::steal(base_addr, Ch::ID, N as u8)
    }

    /// Create a new low-level pin handle without requiring a [Pin] ownership token.
    ///
    /// Prefer [Self::new] where possible. The caller must ensure no other handle
    /// (`LowLevelGpio`, [Input], [Output], or another [Self::steal]) already exists for the
    /// same `(channel, offset)` pin, for the same reason documented on [ChannelPins::steal].
    pub fn steal(base_addr: usize, channel: ChannelId, offset: u8) -> (r: Self)
        requires
            offset < 32,
        ensures
            r.spec_base_addr() == base_addr,
            r.spec_channel() == channel,
            r.spec_offset() == offset,
    {
        LowLevelGpio { base_addr, channel, offset }
    }

    /// Offset of the data register of the pin's channel.
    pub fn data_offset(&self) -> (r: usize)
        ensures
            r == data_offset(self.spec_channel()),
    {
        data_register_offset(self.channel)
    }

    /// Offset of the tri-state register of the pin's channel.
    pub fn tri_state_offset(&self) -> (r: usize)
        ensures
            r == tri_state_offset(self.spec_channel()),
    {
        tri_state_register_offset(self.channel)
    }

    /// Configure the pin as an input. `tri_state` is the current word of the channel's
    /// tri-state register.
    ///
    /// The tri-state register bit is set to 1, which tri-states (releases) the output driver.
    pub fn configure_as_input_pin(&mut self, tri_state: Pins) -> (r: RegWrite)
        ensures
            r == RegWrite::spec_new(
                tri_state_offset(old(self).spec_channel()),
                tri_state.spec_with_pins(old(self).spec_offset() as usize, true)@,
            ),
            *final(self) == *old(self),
    {
        proof {
            use_type_invariant(&*self);
        }
        RegWrite::new(self.tri_state_offset(), tri_state.with_pins(self.offset as usize, true).raw_value())
    }

    /// Configure the pin as an output. `tri_state` is the current word of the channel's
    /// tri-state register.
    ///
    /// The tri-state register bit is cleared to 0, which enables the output driver.
    pub fn configure_as_output_pin(&mut self, tri_state: Pins) -> (r: RegWrite)
        ensures
            r == RegWrite::spec_new(
                tri_state_offset(old(self).spec_channel()),
                tri_state.spec_with_pins(old(self).spec_offset() as usize, false)@,
            ),
            *final(self) == *old(self),
    {
        proof {
            use_type_invariant(&*self);
        }
        RegWrite::new(self.tri_state_offset(), tri_state.with_pins(self.offset as usize, false).raw_value())
    }

    /// Read the sampled input level from `data`, the current word of the channel's data
    /// register.
    pub fn is_high(&self, data: Pins) -> (r: bool)
        ensures
            r == data.spec_pins(self.spec_offset() as usize),
    {
        proof {
            use_type_invariant(self);
        }
        data.pins(self.offset as usize)
    }

    /// Read the sampled input level from `data`, the current word of the channel's data
    /// register.
    pub fn is_low(&self, data: Pins) -> (r: bool)
        ensures
            r == !data.spec_pins(self.spec_offset() as usize),
    {
        !self.is_high(data)
    }

    /// Drive the pin high. `data` is the current word of the channel's data register.
    pub fn set_high(&mut self, data: Pins) -> (r: RegWrite)
        ensures
            r == RegWrite::spec_new(
                data_offset(old(self).spec_channel()),
                data.spec_with_pins(old(self).spec_offset() as usize, true)@,
            ),
            *final(self) == *old(self),
    {
        proof {
            use_type_invariant(&*self);
        }
        RegWrite::new(self.data_offset(), data.with_pins(self.offset as usize, true).raw_value())
    }

    /// Drive the pin low. `data` is the current word of the channel's data register.
    pub fn set_low(&mut self, data: Pins) -> (r: RegWrite)
        ensures
            r == RegWrite::spec_new(
                data_offset(old(self).spec_channel()),
                data.spec_with_pins(old(self).spec_offset() as usize, false)@,
            ),
            *final(self) == *old(self),
    {
        proof {
            use_type_invariant(&*self);
        }
        RegWrite::new(self.data_offset(), data.with_pins(self.offset as usize, false).raw_value())
    }

    /// Toggle the driven pin level. `data` is the current word of the channel's data register.
    pub fn toggle(&mut self, data: Pins) -> (r: RegWrite)
        ensures
            r == RegWrite::spec_new(
                data_offset(old(self).spec_channel()),
                data.spec_with_pins(
                    old(self).spec_offset() as usize,
                    !data.spec_pins(old(self).spec_offset() as usize),
                )@,
            ),
            *final(self) == *old(self),
    {
        proof {
            use_type_invariant(&*self);
        }
        let cur = data.pins(self.offset as usize);
        RegWrite::new(self.data_offset(), data.with_pins(self.offset as usize, !cur).raw_value())
    }

    /// Read back the last driven output level from `data`, the current word of the channel's
    /// data register.
    ///
    /// AXI GPIO has a single data register for both directions, so this reads the same register
    /// as [Self::is_high].
    pub fn is_set_high(&self, data: Pins) -> (r: bool)
        ensures
            r == data.spec_pins(self.spec_offset() as usize),
    {
        self.is_high(data)
    }

    /// Read back the last driven output level from `data`, the current word of the channel's
    /// data register.
    pub fn is_set_low(&self, data: Pins) -> (r: bool)
        ensures
            r == !data.spec_pins(self.spec_offset() as usize),
    {
        !self.is_set_high(data)
    }
}

/// GPIO output pin driver.
pub struct Output(LowLevelGpio);

impl Output {
    /// The underlying pin handle.
    pub closed spec fn pin(&self) -> LowLevelGpio {
        self.0
    }

    /// Offset of the data register of the pin's channel.
    pub fn data_offset(&self) -> (r: usize)
        ensures
            r == data_offset(self.pin().spec_channel()),
    {
        self.0.data_offset()
    }

    /// Configure a [Pin] as an output, driving the level `init_high` immediately. `data` and
    /// `tri_state` are the current words of the pin's channel data and tri-state registers;
    /// the returned writes are to be made in order.
    ///
    /// It is recommended to use [AxiGpio::output_pin] to retrieve an instance of an output pin.
    pub fn new<Ch: AxiGpioChannel, const N: usize>(
        base_addr: usize,
        pin: Pin<Ch, N>,
        init_high: bool,
        data: Pins,
        tri_state: Pins,
    ) -> (r: (Self, Vec<RegWrite>))
        requires
            N < 32,
        ensures
            r.0.pin().spec_channel() == Ch::ID,
            r.0.pin().spec_offset() == N,
            r.0.pin().spec_base_addr() == base_addr,
            r.1@ == seq![
                RegWrite::spec_new(data_offset(Ch::ID), data.spec_with_pins(N, init_high)@),
                RegWrite::spec_new(tri_state_offset(Ch::ID), tri_state.spec_with_pins(N, false)@),
            ],
    {
        let mut pin = LowLevelGpio::new(base_addr, pin);
        let level = if init_high {
            pin.set_high(data)
        } else {
            pin.set_low(data)
        };
        let direction = pin.configure_as_output_pin(tri_state);
        let mut writes: Vec<RegWrite> = Vec::new();
        writes.push(level);
        writes.push(direction);
        (Output(pin), writes)
    }

    /// Drive the pin high. `data` is the current word of the channel's data register.
    pub fn set_high(&mut self, data: Pins) -> (r: RegWrite)
        ensures
            r == RegWrite::spec_new(
                data_offset(old(self).pin().spec_channel()),
                data.spec_with_pins(old(self).pin().spec_offset() as usize, true)@,
            ),
            *final(self) == *old(self),
    {
        self.0.set_high(data)
    }

    /// Drive the pin low. `data` is the current word of the channel's data register.
    pub fn set_low(&mut self, data: Pins) -> (r: RegWrite)
        ensures
            r == RegWrite::spec_new(
                data_offset(old(self).pin().spec_channel()),
                data.spec_with_pins(old(self).pin().spec_offset() as usize, false)@,
            ),
            *final(self) == *old(self),
    {
        self.0.set_low(data)
    }

    /// Toggle the driven pin level. `data` is the current word of the channel's data register.
    pub fn toggle(&mut self, data: Pins) -> (r: RegWrite)
        ensures
            r == RegWrite::spec_new(
                data_offset(old(self).pin().spec_channel()),
                data.spec_with_pins(
                    old(self).pin().spec_offset() as usize,
                    !data.spec_pins(old(self).pin().spec_offset() as usize),
                )@,
            ),
            *final(self) == *old(self),
    {
        self.0.toggle(data)
    }

    /// Read back the last driven output level from `data`, the current word of the channel's
    /// data register.
    pub fn is_set_high(&self, data: Pins) -> (r: bool)
        ensures
            r == data.spec_pins(self.pin().spec_offset() as usize),
    {
        self.0.is_set_high(data)
    }

    /// Read back the last driven output level from `data`, the current word of the channel's
    /// data register.
    pub fn is_set_low(&self, data: Pins) -> (r: bool)
        ensures
            r == !data.spec_pins(self.pin().spec_offset() as usize),
    {
        self.0.is_set_low(data)
    }
}

/// GPIO input pin driver.
pub struct Input(LowLevelGpio);

impl Input {
    /// The underlying pin handle.
    pub closed spec fn pin(&self) -> LowLevelGpio {
        self.0
    }

    /// Offset of the data register of the pin's channel.
    pub fn data_offset(&self) -> (r: usize)
        ensures
            r == data_offset(self.pin().spec_channel()),
    {
        self.0.data_offset()
    }

    /// Configure a [Pin] as an input. `tri_state` is the current word of the pin's channel
    /// tri-state register; the returned write updates it.
    ///
    /// It is recommended to use [AxiGpio::input_pin] to retrieve an instance of an input pin.
    pub fn new<Ch: AxiGpioChannel, const N: usize>(base_addr: usize, pin: Pin<Ch, N>, tri_state: Pins) -> (r: (Self, RegWrite))
        requires
            N < 32,
        ensures
            r.0.pin().spec_channel() == Ch::ID,
            r.0.pin().spec_offset() == N,
            r.0.pin().spec_base_addr() == base_addr,
            r.1 == RegWrite::spec_new(tri_state_offset(Ch::ID), tri_state.spec_with_pins(N, true)@),
    {
        let mut pin = LowLevelGpio::new(base_addr, pin);
        let direction = pin.configure_as_input_pin(tri_state);
        (Input(pin), direction)
    }

    /// Read the sampled input level from `data`, the current word of the channel's data
    /// register.
    pub fn is_high(&self, data: Pins) -> (r: bool)
        ensures
            r == data.spec_pins(self.pin().spec_offset() as usize),
    {
        self.0.is_high(data)
    }

    /// Read the sampled input level from `data`, the current word of the channel's data
    /// register.
    pub fn is_low(&self, data: Pins) -> (r: bool)
        ensures
            r == !data.spec_pins(self.pin().spec_offset() as usize),
    {
        self.0.is_low(data)
    }
}

/// A pin operation changes only its own pin: driving, clearing or toggling pin `offset`
/// leaves every other pin of the data word as it was, and the pin then reads back the level
/// that was written.
pub proof fn lemma_pin_write_is_local(data: Pins, offset: usize, level: bool, other: usize)
    requires
        offset < 32,
        other < 32,
    ensures
        data.spec_with_pins(offset, level).spec_pins(offset) == level,
        other != offset ==> data.spec_with_pins(offset, level).spec_pins(other) == data.spec_pins(other),
{
    lemma_set_bit(data@, offset as u32, other as u32, level);
}

/// Toggling a pin twice restores the data word.
pub proof fn lemma_toggle_twice(data: Pins, offset: usize)
    requires
        offset < 32,
    ensures
        ({
            let once = data.spec_with_pins(offset, !data.spec_pins(offset));
            once.spec_with_pins(offset, !once.spec_pins(offset)) == data
        }),
{
    let once = data.spec_with_pins(offset, !data.spec_pins(offset));
    let twice = once.spec_with_pins(offset, !once.spec_pins(offset));
    let v = data.raw;
    let i = offset as u32;
    assert(set_bit(set_bit(v, i, !bit(v, i)), i, !bit(set_bit(v, i, !bit(v, i)), i)) == v)
        by (bit_vector)
        requires i < 32;
    assert(twice.raw == data.raw);
}

/// The register map and bit layout of the GPIO core: channel 1's data and tri-state
/// registers are at 0x0 and 0x4, channel 2's at 0x8 and 0xC; a channel's interrupt bit is bit
/// 0 (channel 1) or bit 1 (channel 2) of the interrupt enable and status words, and setting it
/// keeps every other bit; pin `offset` is bit `offset` of the data and tri-state words, and
/// setting it keeps every other pin; the global interrupt enable is bit 31.
pub proof fn lemma_gpio_layout(bits: InterruptBits, enabled: bool, data: Pins, offset: usize, level: bool, j: u32)
    requires
        offset < 32,
        j < 32,
    ensures
        data_offset(ChannelId::Ch1) == 0x0,
        tri_state_offset(ChannelId::Ch1) == 0x4,
        data_offset(ChannelId::Ch2) == 0x8,
        tri_state_offset(ChannelId::Ch2) == 0xC,
        channel_bit(bits, ChannelId::Ch1) == bit(bits@, 0),
        channel_bit(bits, ChannelId::Ch2) == bit(bits@, 1),
        bit(with_channel_bit(bits, ChannelId::Ch1, enabled)@, 0) == enabled,
        j != 0 ==> bit(with_channel_bit(bits, ChannelId::Ch1, enabled)@, j) == bit(bits@, j),
        bit(with_channel_bit(bits, ChannelId::Ch2, enabled)@, 1) == enabled,
        j != 1 ==> bit(with_channel_bit(bits, ChannelId::Ch2, enabled)@, j) == bit(bits@, j),
        data.spec_pins(offset) == bit(data@, offset as u32),
        bit(data.spec_with_pins(offset, level)@, offset as u32) == level,
        j != offset ==> bit(data.spec_with_pins(offset, level)@, j) == bit(data@, j),
        GlobalInterruptEnable::spec_zero().spec_with_enable(true)@ == 0x8000_0000u32,
        GlobalInterruptEnable::spec_zero().spec_with_enable(false)@ == 0u32,
{
    lemma_set_bit(bits@, 0, j, enabled);
    lemma_set_bit(bits@, 1, j, enabled);
    lemma_set_bit(data@, offset as u32, j, level);
    assert(set_bit(0, 31, true) == 0x8000_0000u32) by (bit_vector);
    assert(set_bit(0, 31, false) == 0u32) by (bit_vector);
}

} // verus!
