//! # Asynchronous, interrupt-driven channel events.
//!
//! The AXI GPIO core only exposes one interrupt bit per channel: it fires when *any* pin of
//! that channel changes, and gives no indication of which pin, or which edge. There is no
//! per-pin interrupt enable or mask register in this IP core, unlike some other GPIO
//! controllers. So the only thing this module can offer is "channel had an event", not "pin N
//! went high" - a caller wanting per-pin resolution has to diff the returned snapshot against
//! the previous one itself.
//!
//! Each [AsyncChannel] owns one slot of a table of [NUM_WAKERS] waker slots. Retrieve the
//! resulting [ChannelToken] via [AsyncChannel::token] right after construction and pass it to
//! [on_interrupt] from your interrupt handler.
use vstd::prelude::*;

use crate::mmio::RegWrite;
use crate::wakers::{claim_result, claim_next, SlotClaimError, WakerSlots};
use super::{channel_bit, set_channel_bit, with_channel_bit, ChannelId};
use super::regs;
use super::regs::fields::InterruptBits;

verus! {

/// Number of waker slots (one per channel with interrupts enabled).
pub const NUM_WAKERS: usize = 1;

/// Error returned by [AsyncChannel::new] when claiming a waker slot fails.
#[derive(Debug, Clone, Copy, PartialEq, Eq, Structural)]
pub enum ClaimWakerError {
    /// `waker_idx` is out of range for [NUM_WAKERS].
    InvalidWakerIndex(usize),
    /// `waker_idx` was already claimed by another live [AsyncChannel].
    WakerIndexInUse(usize),
}

/// The error that claiming `waker_idx` reports for the slot table's verdict `claim`.
pub open spec fn claim_error(claim: Result<(), SlotClaimError>, waker_idx: usize) -> ClaimWakerError {
    match claim {
        Err(SlotClaimError::InUse) => ClaimWakerError::WakerIndexInUse(waker_idx),
        _ => ClaimWakerError::InvalidWakerIndex(waker_idx),
    }
}

/// Claims `waker_idx` in the slot table `wakers`. There is no matching release: like the rest
/// of this crate's `steal`/`take`-style ownership, a claim lasts for the program's lifetime.
fn claim_waker(wakers: &mut WakerSlots, waker_idx: usize) -> (r: Result<(), ClaimWakerError>)
    ensures
        final(wakers)@ == claim_next(old(wakers)@, waker_idx),
        r is Ok <==> claim_result(old(wakers)@, waker_idx) is Ok,
        r is Err ==> r == Err::<(), ClaimWakerError>(claim_error(claim_result(old(wakers)@, waker_idx), waker_idx)),
{
    match wakers.claim(waker_idx) {
        Ok(()) => Ok(()),
        Err(SlotClaimError::OutOfRange) => Err(ClaimWakerError::InvalidWakerIndex(waker_idx)),
        Err(SlotClaimError::InUse) => Err(ClaimWakerError::WakerIndexInUse(waker_idx)),
    }
}

/// The per-waker-slot event flags: whether the interrupt handler signalled an event for the
/// slot's channel that its wait has not consumed yet. Shared by the waits (which clear and
/// take their slot's flag) and the interrupt handler (which sets it).
pub struct EventFlags {
    flags: Vec<bool>,
}

impl View for EventFlags {
    type V = Seq<bool>;

    closed spec fn view(&self) -> Seq<bool> {
        self.flags@
    }
}

impl EventFlags {
    /// `len` flags, none set.
    pub fn new(len: usize) -> (r: Self)
        ensures
            r@ == Seq::new(len as nat, |i: int| false),
    {
        let mut flags: Vec<bool> = Vec::new();
        let mut k: usize = 0;
        while k < len
            invariant
                k <= len,
                flags@.len() == k,
                forall|i: int| 0 <= i < k ==> !flags@[i],
            decreases len - k,
        {
            flags.push(false);
            k = k + 1;
        }
        let r = EventFlags { flags };
        assert(r@ =~= Seq::new(len as nat, |i: int| false));
        r
    }

    /// Number of flags.
    pub fn len(&self) -> (r: usize)
        ensures
            r == self@.len(),
    {
        self.flags.len()
    }

    fn set(&mut self, i: usize, value: bool)
        requires
            i < old(self)@.len(),
        ensures
            final(self)@ == old(self)@.update(i as int, value),
    {
        self.flags.set(i, value);
    }

    fn take(&mut self, i: usize) -> (r: bool)
        requires
            i < old(self)@.len(),
        ensures
            r == old(self)@[i as int],
            final(self)@ == old(self)@.update(i as int, false),
    {
        let was = self.flags[i];
        self.flags.set(i, false);
        was
    }
}

/// Identifies an [AsyncChannel]'s peripheral instance, channel, and waker slot, e.g. for use in
/// an interrupt handler.
#[derive(Debug, Clone, Copy, PartialEq, Eq, Structural)]
pub struct ChannelToken {
    base_addr: usize,
    channel: ChannelId,
    waker_idx: usize,
}

impl ChannelToken {
    /// The token of the given base address, channel and waker slot.
    pub closed spec fn spec_steal(base_addr: usize, channel: ChannelId, waker_idx: usize) -> ChannelToken {
        ChannelToken { base_addr, channel, waker_idx }
    }

    /// The GPIO register block's base address.
    pub closed spec fn spec_base_addr(&self) -> usize {
        self.base_addr
    }

    /// The channel of the token.
    pub closed spec fn spec_channel(&self) -> ChannelId {
        self.channel
    }

    /// The waker slot of the token.
    pub closed spec fn spec_waker_idx(&self) -> usize {
        self.waker_idx
    }

    /// The GPIO register block's base address.
    #[verifier::when_used_as_spec(spec_base_addr)]
    pub fn base_addr(&self) -> (r: usize)
        ensures
            r == self.spec_base_addr(),
    {
        self.base_addr
    }

    /// The channel this token's [AsyncChannel] was constructed for.
    #[verifier::when_used_as_spec(spec_channel)]
    pub fn channel(&self) -> (r: ChannelId)
        ensures
            r == self.spec_channel(),
    {
        self.channel
    }

    /// The waker slot this token's [AsyncChannel] was constructed with.
    #[verifier::when_used_as_spec(spec_waker_idx)]
    pub fn waker_idx(&self) -> (r: usize)
        ensures
            r == self.spec_waker_idx(),
    {
        self.waker_idx
    }

    /// Constructs a token from a raw base address, channel, and waker index, e.g. for use in an
    /// interrupt handler that only has these values available from static configuration, rather
    /// than a token retrieved via [AsyncChannel::token].
    ///
    /// `base_addr` must be the real base address of the GPIO register block whose interrupt is
    /// being serviced, and `channel`/`waker_idx` must match the values originally passed to the
    /// corresponding [AsyncChannel::new] call.
    #[verifier::when_used_as_spec(spec_steal)]
    pub fn steal(base_addr: usize, channel: ChannelId, waker_idx: usize) -> (r: Self)
        ensures
            r == Self::spec_steal(base_addr, channel, waker_idx),
            r.spec_base_addr() == base_addr,
            r.spec_channel() == channel,
            r.spec_waker_idx() == waker_idx,
    {
        ChannelToken { base_addr, channel, waker_idx }
    }

    /// A token made from a base address, channel and waker slot reads them back.
    pub proof fn lemma_steal_fields(base_addr: usize, channel: ChannelId, waker_idx: usize)
        ensures
            Self::spec_steal(base_addr, channel, waker_idx).spec_base_addr() == base_addr,
            Self::spec_steal(base_addr, channel, waker_idx).spec_channel() == channel,
            Self::spec_steal(base_addr, channel, waker_idx).spec_waker_idx() == waker_idx,
    {
    }
}

/// The acknowledge word for `channel`'s interrupt: `interrupt_status` toggles on write, so
/// only this channel's bit is set, and a 0 bit leaves the other channel's pending status
/// untouched.
pub open spec fn ack_bits(channel: ChannelId) -> InterruptBits {
    match channel {
        ChannelId::Ch1 => InterruptBits::spec_zero().spec_with_channel1(true).spec_with_channel2(false),
        ChannelId::Ch2 => InterruptBits::spec_zero().spec_with_channel1(false).spec_with_channel2(true),
    }
}

/// Generic interrupt handler for a channel's asynchronous events.
///
/// Call this from the interrupt handler responsible for the GPIO channel tracked by `token`,
/// with `interrupt_enable` and `interrupt_status` the current words of the interrupt enable
/// and interrupt status registers. Returns `None` if `token`'s waker slot is out of range, or
/// if `token`'s channel has no interrupt pending or its interrupt is not enabled: then there
/// is nothing to do. Otherwise sets the event flag of waker slot `token.waker_idx()` in `flags`
/// and returns the acknowledge write; the caller makes it, then wakes that slot's waker.
pub fn on_interrupt(
    token: &ChannelToken,
    interrupt_enable: InterruptBits,
    interrupt_status: InterruptBits,
    flags: &mut EventFlags,
) -> (r: Option<RegWrite>)
    requires
        old(flags)@.len() == NUM_WAKERS,
    ensures
        final(flags)@ == if r is Some { old(flags)@.update(token.spec_waker_idx() as int, true) } else { old(flags)@ },
        r == (if token.spec_waker_idx() < NUM_WAKERS && channel_bit(interrupt_enable, token.spec_channel())
            && channel_bit(interrupt_status, token.spec_channel()) {
            Some(RegWrite::spec_new(regs::INTERRUPT_STATUS_OFFSET, ack_bits(token.spec_channel())@))
        } else {
            None
        }),
{
    if token.waker_idx >= NUM_WAKERS {
        return None;
    }
    let (enabled, pending) = match token.channel {
        ChannelId::Ch1 => (interrupt_enable.channel1(), interrupt_status.channel1()),
        ChannelId::Ch2 => (interrupt_enable.channel2(), interrupt_status.channel2()),
    };
    if !enabled || !pending {
        return None;
    }
    // Acknowledge only this channel's bit. `interrupt_status` toggles on write, so a 0 bit is a
    // no-op and leaves the other channel's pending status untouched.
    let ack = match token.channel {
        ChannelId::Ch1 => InterruptBits::zero().with_channel1(true).with_channel2(false),
        ChannelId::Ch2 => InterruptBits::zero().with_channel1(false).with_channel2(true),
    };
    flags.set(token.waker_idx, true);
    Some(RegWrite::new(regs::INTERRUPT_STATUS_OFFSET, ack.raw_value()))
}

/// The acknowledge word of a channel's interrupt sets that channel's bit and leaves the other
/// channel's bit clear, so that writing it (interrupt status toggles on write) acknowledges
/// only that channel.
pub proof fn lemma_ack_only_own_channel(channel: ChannelId)
    ensures
        ack_bits(ChannelId::Ch1)@ == 0x1u32,
        ack_bits(ChannelId::Ch2)@ == 0x2u32,
        channel_bit(ack_bits(channel), channel),
        !channel_bit(ack_bits(channel), super::other_channel(channel)),
{
    crate::bits::lemma_set_bit(0, 0, 1, true);
    crate::bits::lemma_set_bit(crate::bits::set_bit(0, 0, true), 1, 0, false);
    crate::bits::lemma_set_bit(0, 0, 1, false);
    crate::bits::lemma_set_bit(crate::bits::set_bit(0, 0, false), 1, 0, true);
    assert(!crate::bits::bit(0, 1) && !crate::bits::bit(0, 0)) by (bit_vector);
    assert(crate::bits::set_bit(crate::bits::set_bit(0, 0, true), 1, false) == 0x1u32) by (bit_vector);
    assert(crate::bits::set_bit(crate::bits::set_bit(0, 0, false), 1, true) == 0x2u32) by (bit_vector);
}

/// Asynchronous, interrupt-driven channel event source.
///
/// Relies on [on_interrupt] being called with this driver's [ChannelToken] (see
/// [Self::token]) from the GPIO interrupt handler: without it, waits never complete.
///
/// The caller is also responsible for enabling the global interrupt, e.g. via
/// [crate::gpio::AxiGpio::enable_global_interrupt]: the per-channel interrupt is enabled for
/// the lifetime of each wait only (see [Self::wait] and [Self::set_channel_interrupt_enabled]),
/// so it stays off whenever nothing is actually waiting. This assumes only one [AsyncChannel]
/// exists per channel at a time.
pub struct AsyncChannel {
    base_addr: usize,
    token: ChannelToken,
}

impl AsyncChannel {
    /// The token of this event source.
    pub closed spec fn spec_token(&self) -> ChannelToken {
        self.token
    }

    /// Create a new asynchronous channel event source for the GPIO instance at `base_addr`,
    /// claiming waker slot `waker_idx` of `wakers`.
    pub fn new(base_addr: usize, channel: ChannelId, waker_idx: usize, wakers: &mut WakerSlots) -> (r: Result<Self, ClaimWakerError>)
        ensures
            final(wakers)@ == claim_next(old(wakers)@, waker_idx),
            r is Ok <==> claim_result(old(wakers)@, waker_idx) is Ok,
            match r {
                Ok(events) => events.spec_token() == ChannelToken::spec_steal(base_addr, channel, waker_idx),
                Err(e) => e == claim_error(claim_result(old(wakers)@, waker_idx), waker_idx),
            },
    {
        claim_waker(wakers, waker_idx)?;
        let token = ChannelToken { base_addr, channel, waker_idx };
        Ok(AsyncChannel { base_addr, token })
    }

    /// The token identifying this driver's GPIO instance, channel, and waker slot, fixed for its
    /// whole lifetime. Retrieve it once, right after construction, to hand to
    /// [on_interrupt] in your interrupt handler.
    #[verifier::when_used_as_spec(spec_token)]
    pub fn token(&self) -> (r: ChannelToken)
        ensures
            r == self.spec_token(),
    {
        self.token
    }

    /// Start waiting for the next interrupt event on this channel. `interrupt_enable` is the
    /// current word of the interrupt enable register.
    ///
    /// Clears the event flag of this channel's waker slot in `flags`, then returns the wait and
    /// the write that enables this channel's interrupt, keeping the other channel's bit. The
    /// flag is cleared before the interrupt is enabled, so a status bit already latched from
    /// before (interrupt disabled, but the hardware condition still recorded) re-fires
    /// immediately once enabled rather than racing the flag. The wait resolves once the flag is
    /// set (see [ChannelEventFuture::poll]); when it ends, completed or cancelled, the
    /// interrupt is disabled again (see [ChannelEventFuture::on_drop]).
    pub fn wait(&mut self, flags: &mut EventFlags, interrupt_enable: InterruptBits) -> (r: (ChannelEventFuture, RegWrite))
        requires
            old(self).spec_token().spec_waker_idx() < old(flags)@.len(),
        ensures
            final(flags)@ == old(flags)@.update(old(self).spec_token().spec_waker_idx() as int, false),
            r.0.spec_channel() == old(self).spec_token().spec_channel(),
            r.0.spec_waker_idx() == old(self).spec_token().spec_waker_idx(),
            r.1 == RegWrite::spec_new(
                regs::INTERRUPT_ENABLE_OFFSET,
                with_channel_bit(interrupt_enable, old(self).spec_token().spec_channel(), true)@,
            ),
            *final(self) == *old(self),
    {
        flags.set(self.token.waker_idx, false);
        let enable = self.set_channel_interrupt_enabled(true, interrupt_enable);
        (ChannelEventFuture::new(self), enable)
    }

    /// Sets this channel's interrupt enable bit to `enabled`. `interrupt_enable` is the current
    /// word of the interrupt enable register.
    pub fn set_channel_interrupt_enabled(&mut self, enabled: bool, interrupt_enable: InterruptBits) -> (r: RegWrite)
        ensures
            r == RegWrite::spec_new(
                regs::INTERRUPT_ENABLE_OFFSET,
                with_channel_bit(interrupt_enable, old(self).spec_token().spec_channel(), enabled)@,
            ),
            *final(self) == *old(self),
    {
        RegWrite::new(regs::INTERRUPT_ENABLE_OFFSET, set_channel_bit(interrupt_enable, self.token.channel, enabled).raw_value())
    }
}

} // verus!

verus! {

/// State of one wait for a channel event, started by [`AsyncChannel::wait`].
pub struct ChannelEventFuture {
    channel: ChannelId,
    waker_idx: usize,
}

impl ChannelEventFuture {
    /// The channel waited on.
    pub closed spec fn spec_channel(&self) -> ChannelId {
        self.channel
    }

    /// The waker slot of the wait.
    pub closed spec fn spec_waker_idx(&self) -> usize {
        self.waker_idx
    }

    /// The wait of `channel`'s event source.
    pub fn new(channel: &AsyncChannel) -> (r: Self)
        ensures
            r.spec_channel() == channel.spec_token().spec_channel(),
            r.spec_waker_idx() == channel.spec_token().spec_waker_idx(),
    {
        ChannelEventFuture { channel: channel.token.channel, waker_idx: channel.token.waker_idx }
    }

    /// Polls the wait: takes (reads and clears) the event flag of its waker slot in `flags`.
    /// Once the event fired, returns the offset of the channel's data register, whose word,
    /// read then, is what the wait resolves to.
    pub fn poll(&mut self, flags: &mut EventFlags) -> (r: Option<usize>)
        requires
            old(self).spec_waker_idx() < old(flags)@.len(),
        ensures
            r == if old(flags)@[old(self).spec_waker_idx() as int] {
                Some(super::data_offset(old(self).spec_channel()))
            } else {
                None::<usize>
            },
            final(flags)@ == old(flags)@.update(old(self).spec_waker_idx() as int, false),
            *final(self) == *old(self),
    {
        if !flags.take(self.waker_idx) {
            return None;
        }
        Some(super::data_register_offset(self.channel))
    }

    /// Ends the wait, completed or cancelled: returns the write that disables the channel's
    /// interrupt again, given the current word `interrupt_enable` of the interrupt enable
    /// register, keeping the other channel's bit.
    pub fn on_drop(self, interrupt_enable: InterruptBits) -> (r: RegWrite)
        ensures
            r == RegWrite::spec_new(
                regs::INTERRUPT_ENABLE_OFFSET,
                with_channel_bit(interrupt_enable, self.spec_channel(), false)@,
            ),
    {
        RegWrite::new(regs::INTERRUPT_ENABLE_OFFSET, set_channel_bit(interrupt_enable, self.channel, false).raw_value())
    }
}

/// A wait resolves to its own event only: a wait starts with its slot's flag cleared, so an
/// event signalled before it started does not resolve it; it resolves once the interrupt
/// handler signals its slot, and not on an event signalled for another slot. Enabling the
/// channel's interrupt for the wait and disabling it when the wait ends leaves the channel's
/// bit clear and the other channel's bit as it was.
pub proof fn lemma_wait_lifecycle(flags: Seq<bool>, w: int, v: int, interrupt_enable: InterruptBits, channel: ChannelId)
    requires
        0 <= w < flags.len(),
        0 <= v < flags.len(),
    ensures
        !flags.update(w, false)[w],
        flags.update(w, false).update(w, true)[w],
        v != w ==> flags.update(w, false).update(v, true)[w] == false,
        ({
            let on = with_channel_bit(interrupt_enable, channel, true);
            let off = with_channel_bit(on, channel, false);
            &&& channel_bit(on, channel)
            &&& !channel_bit(off, channel)
            &&& channel_bit(off, super::other_channel(channel)) == channel_bit(interrupt_enable, super::other_channel(channel))
        }),
{
    let on = with_channel_bit(interrupt_enable, channel, true);
    crate::bits::lemma_set_bit(interrupt_enable.raw, 0, 1, true);
    crate::bits::lemma_set_bit(interrupt_enable.raw, 1, 0, true);
    crate::bits::lemma_set_bit(on.raw, 0, 1, false);
    crate::bits::lemma_set_bit(on.raw, 1, 0, false);
}

} // verus!
