//! # Driver logic for the Xilinx/AMD AXI DMA IP core (PG021)
//!
//! Supports both simple MM2S/S2MM transfers, and interrupt-driven transfers.
//!
//! Every operation that touches a register takes the register words it reads as arguments and
//! returns the register writes it makes as [`RegWrite`]s, with offsets relative to the register
//! block of the handle that makes them (see [`crate::mmio`]).
//!
//! ## Cache maintenance
//!
//! The AXI DMA engine might read and write physical memory directly, bypassing any CPU data
//! cache. If your target has a data cache, you are responsible for explicit cache maintenance
//! around every transfer: clean the source buffer's cache lines before starting an MM2S
//! transfer, and invalidate the destination buffer's cache lines after an S2MM transfer
//! completes, before reading the result.
pub mod regs;

use vstd::prelude::*;

use crate::mmio::RegWrite;
use crate::wakers::{claim_next, claim_result, SlotClaimError, WakerSlots};
use self::regs::direct_register::{Mm2sRegisters, Registers, S2mmRegisters, TransferLength};
use self::regs::fields::{Control, RunStop, Status};

verus! {

/// Number of waker slots for interrupt-driven MM2S writers (one per concurrently live
/// [`DmaWriterAsync`], across all [`DmaController`] instances).
pub const NUM_TX_WAKERS: usize = 1;

/// Number of times a channel's `reset` bit is polled after a reset before giving up.
///
/// There is no timer here, so this is a poll count rather than an actual time-based timeout.
/// It just needs to be generous enough that it never trips on real hardware, while still
/// keeping a controller from waiting forever if its base address doesn't point at a real AXI
/// DMA peripheral (an unmapped or otherwise bogus address can read back a `reset` bit that
/// never clears).
pub const RESET_POLL_ATTEMPTS: u32 = 100_000;

/// The largest transfer length the transfer-length register can encode: 2^26 - 1 bytes.
pub const MAX_TRANSFER_LENGTH: usize = 0x3FF_FFFF;

/// A channel's `reset` bit did not clear within the poll timeout. This usually means the base
/// address does not point at a real AXI DMA peripheral.
#[derive(Debug, Clone, Copy, PartialEq, Eq, Structural)]
pub struct ResetTimeoutError;

/// Waiting for a channel's self-clearing `reset` bit: polls it up to
/// [`RESET_POLL_ATTEMPTS`] times, finishing as soon as it reads clear.
#[derive(Clone, Copy)]
pub struct ResetWait {
    polls: u32,
}

impl ResetWait {
    #[verifier::type_invariant]
    spec fn polls_in_range(self) -> bool {
        self.polls <= RESET_POLL_ATTEMPTS
    }

    /// How many polls have read the bit still set.
    pub closed spec fn spec_polls(&self) -> u32 {
        self.polls
    }

    /// A wait that has not polled yet.
    pub fn new() -> (r: ResetWait)
        ensures
            r.spec_polls() == 0,
    {
        ResetWait { polls: 0 }
    }

    /// Records one poll that read the `reset` bit as `is_resetting`.
    ///
    /// Returns `Some(Ok(()))` once the bit reads clear, `Some(Err(ResetTimeoutError))` when the
    /// [`RESET_POLL_ATTEMPTS`]th poll still reads it set, and `None` while it should be polled
    /// again. A wait that has finished is not polled again.
    pub fn poll(&mut self, is_resetting: bool) -> (r: Option<Result<(), ResetTimeoutError>>)
        requires
            old(self).spec_polls() < RESET_POLL_ATTEMPTS,
        ensures
            !is_resetting ==> r == Some(Ok::<(), ResetTimeoutError>(())),
            is_resetting ==> final(self).spec_polls() == old(self).spec_polls() + 1,
            is_resetting ==> r == if final(self).spec_polls() == RESET_POLL_ATTEMPTS {
                Some(Err::<(), ResetTimeoutError>(ResetTimeoutError))
            } else {
                None
            },
    {
        proof {
            use_type_invariant(&*self);
        }
        if !is_resetting {
            return Some(Ok(()));
        }
        self.polls = self.polls + 1;
        if self.polls == RESET_POLL_ATTEMPTS {
            Some(Err(ResetTimeoutError))
        } else {
            None
        }
    }
}

/// A requested DMA transfer buffer is longer than the 2^26 - 1 byte limit the transfer-length
/// register can encode.
#[derive(Debug, Clone, Copy, PartialEq, Eq, Structural)]
pub struct InvalidBufferLengthError {
    /// The buffer length that was rejected.
    pub len: usize,
}

/// `tx_waker_index` is out of range for [`NUM_TX_WAKERS`].
#[derive(Debug, Clone, Copy, PartialEq, Eq, Structural)]
pub struct InvalidTxWakerIndexError(pub usize);

/// `tx_waker_index` was already claimed by another async writer.
#[derive(Debug, Clone, Copy, PartialEq, Eq, Structural)]
pub struct TxWakerIndexInUseError(pub usize);

/// Error returned when claiming a waker slot for an async writer fails.
#[derive(Debug, Clone, Copy, PartialEq, Eq, Structural)]
pub enum TakeAsyncError {
    /// See [`InvalidTxWakerIndexError`].
    InvalidWakerIndex(InvalidTxWakerIndexError),
    /// See [`TxWakerIndexInUseError`].
    WakerIndexInUse(TxWakerIndexInUseError),
}

/// The error that claiming `tx_waker_index` reports for the slot table's verdict `claim`.
pub open spec fn take_async_error(claim: Result<(), SlotClaimError>, tx_waker_index: usize) -> TakeAsyncError {
    match claim {
        Err(SlotClaimError::InUse) => TakeAsyncError::WakerIndexInUse(TxWakerIndexInUseError(tx_waker_index)),
        _ => TakeAsyncError::InvalidWakerIndex(InvalidTxWakerIndexError(tx_waker_index)),
    }
}

/// Claims `tx_waker_index` in the slot table `wakers`.
fn claim_tx_waker(wakers: &mut WakerSlots, tx_waker_index: usize) -> (r: Result<(), TakeAsyncError>)
    ensures
        final(wakers)@ == claim_next(old(wakers)@, tx_waker_index),
        r is Ok <==> claim_result(old(wakers)@, tx_waker_index) is Ok,
        r is Err ==> r == Err::<(), TakeAsyncError>(
            take_async_error(claim_result(old(wakers)@, tx_waker_index), tx_waker_index),
        ),
{
    match wakers.claim(tx_waker_index) {
        Ok(()) => Ok(()),
        Err(SlotClaimError::OutOfRange) => Err(TakeAsyncError::InvalidWakerIndex(InvalidTxWakerIndexError(tx_waker_index))),
        Err(SlotClaimError::InUse) => Err(TakeAsyncError::WakerIndexInUse(TxWakerIndexInUseError(tx_waker_index))),
    }
}

/// Reports the underlying DMA/SG error bits latched alongside a channel's `error_interrupt`
/// status bit, so that a failed transfer is told apart from a completed one.
#[derive(Debug, Clone, Copy, PartialEq, Eq, Structural)]
pub struct DmaTransferError {
    /// DMA/data stream decode error.
    pub decode: bool,
    /// DMA slave (AXI) error.
    pub slave: bool,
    /// DMA internal error.
    pub internal: bool,
}

/// The error bits latched in `status`.
pub open spec fn status_error(status: Status) -> DmaTransferError {
    DmaTransferError {
        decode: status.spec_dma_decode_error(),
        slave: status.spec_dma_slave_error(),
        internal: status.spec_dma_internal_error(),
    }
}

/// Marks a byte of [`DmaTransferError::to_bits`] as holding an error.
pub const TRANSFER_ERROR_PRESENT_BIT: u8 = 0b1000;

impl DmaTransferError {
    /// The one-byte encoding of this error.
    pub open spec fn spec_to_bits(self) -> u8 {
        TRANSFER_ERROR_PRESENT_BIT | (if self.decode { 1u8 } else { 0u8 }) | (if self.slave { 2u8 } else { 0u8 })
            | (if self.internal { 4u8 } else { 0u8 })
    }

    /// Packs this error into a single byte, so that it can be handed from an interrupt handler
    /// to the task waiting for the transfer through a lock-free `Copy` slot: bit 3 marks an
    /// error as present, bits 0, 1 and 2 hold `decode`, `slave` and `internal`.
    #[verifier::when_used_as_spec(spec_to_bits)]
    pub fn to_bits(self) -> (r: u8)
        ensures
            r == self.spec_to_bits(),
    {
        TRANSFER_ERROR_PRESENT_BIT | (if self.decode { 1u8 } else { 0u8 }) | (if self.slave { 2u8 } else { 0u8 })
            | (if self.internal { 4u8 } else { 0u8 })
    }

    /// Decodes a byte of [`Self::to_bits`].
    pub open spec fn spec_from_bits(bits: u8) -> Option<DmaTransferError> {
        if bits & TRANSFER_ERROR_PRESENT_BIT == 0 {
            None
        } else {
            Some(DmaTransferError {
                decode: bits & 0b001 != 0,
                slave: bits & 0b010 != 0,
                internal: bits & 0b100 != 0,
            })
        }
    }

    /// Inverse of [`Self::to_bits`]. Returns `None` for a byte without the present bit, such
    /// as `0`, the initial/no-error state of such a slot.
    #[verifier::when_used_as_spec(spec_from_bits)]
    pub fn from_bits(bits: u8) -> (r: Option<Self>)
        ensures
            r == Self::spec_from_bits(bits),
    {
        if bits & TRANSFER_ERROR_PRESENT_BIT == 0 {
            return None;
        }
        Some(DmaTransferError {
            decode: bits & 0b001 != 0,
            slave: bits & 0b010 != 0,
            internal: bits & 0b100 != 0,
        })
    }
}

/// Decoding the encoding of an error gives the error back, and the no-error byte `0` decodes
/// to no error.
pub proof fn lemma_transfer_error_bits_round_trip(error: DmaTransferError)
    ensures
        DmaTransferError::spec_from_bits(error.spec_to_bits()) == Some(error),
        DmaTransferError::spec_from_bits(0) == None::<DmaTransferError>,
{
    let d = error.decode;
    let s = error.slave;
    let i = error.internal;
    let b = error.spec_to_bits();
    assert(b == 8u8 | (if d { 1u8 } else { 0u8 }) | (if s { 2u8 } else { 0u8 }) | (if i { 4u8 } else { 0u8 }));
    assert(b & 8u8 != 0 && (b & 1u8 != 0) == d && (b & 2u8 != 0) == s && (b & 4u8 != 0) == i)
        by (bit_vector)
        requires b == 8u8 | (if d { 1u8 } else { 0u8 }) | (if s { 2u8 } else { 0u8 }) | (if i { 4u8 } else { 0u8 });
    assert(0u8 & 8u8 == 0) by (bit_vector);
}

/// Error of an interrupt-driven MM2S write: either the buffer was rejected up front, or the
/// transfer was armed but the hardware reported an error on completion.
#[derive(Debug, Clone, Copy, PartialEq, Eq, Structural)]
pub enum DmaWriteError {
    /// See [`InvalidBufferLengthError`].
    InvalidBufferLength(InvalidBufferLengthError),
    /// See [`DmaTransferError`].
    Transfer(DmaTransferError),
}

/// The word written to a control register to reset its channel.
pub open spec fn reset_control() -> Control {
    Control::spec_zero().spec_with_reset(true)
}

/// The writes that program a transfer of `buf_len` bytes at `buf_addr` into a channel whose
/// control register reads `control`: set the channel running, write the buffer address's lower
/// word at `address_offset`, then write the length, which starts the transfer. Offsets are
/// relative to the channel's subregister block.
pub open spec fn start_transfer_writes(control: Control, address_offset: usize, buf_addr: u32, buf_len: usize) -> Seq<RegWrite> {
    seq![
        RegWrite::spec_new(Mm2sRegisters::CONTROL, control.spec_with_run_stop(RunStop::Run)@),
        RegWrite::spec_new(address_offset, buf_addr),
        RegWrite::spec_new(Mm2sRegisters::TRANSFER_LENGTH, TransferLength::spec_zero().spec_with_length(buf_len as u32)@),
    ]
}

fn start_transfer(control: Control, address_offset: usize, buf_addr: u32, buf_len: usize) -> (r: Result<Vec<RegWrite>, InvalidBufferLengthError>)
    ensures
        buf_len > MAX_TRANSFER_LENGTH ==> r == Err::<Vec<RegWrite>, InvalidBufferLengthError>(InvalidBufferLengthError { len: buf_len }),
        buf_len <= MAX_TRANSFER_LENGTH ==> (r matches Ok(w) && w@ == start_transfer_writes(control, address_offset, buf_addr, buf_len)),
{
    if buf_len > MAX_TRANSFER_LENGTH {
        return Err(InvalidBufferLengthError { len: buf_len });
    }
    let mut writes: Vec<RegWrite> = Vec::new();
    writes.push(RegWrite::new(Mm2sRegisters::CONTROL, control.with_run_stop(RunStop::Run).raw_value()));
    writes.push(RegWrite::new(address_offset, buf_addr));
    writes.push(RegWrite::new(Mm2sRegisters::TRANSFER_LENGTH, TransferLength::zero().with_length(buf_len as u32).raw_value()));
    Ok(writes)
}

/// Programs an MM2S transfer of the `buf_len` bytes at `buf_addr` (the lower 32 bits of the
/// source buffer's address), given the current word `control` of the channel's control
/// register. Does not wait for completion.
///
/// Fails if the length exceeds [`MAX_TRANSFER_LENGTH`]; then nothing is written. Please note
/// that the source address must be aligned to the MM2S memory map data width if the data
/// realignment engine is not included.
pub fn start_write(control: Control, buf_addr: u32, buf_len: usize) -> (r: Result<Vec<RegWrite>, InvalidBufferLengthError>)
    ensures
        buf_len > MAX_TRANSFER_LENGTH ==> r == Err::<Vec<RegWrite>, InvalidBufferLengthError>(InvalidBufferLengthError { len: buf_len }),
        buf_len <= MAX_TRANSFER_LENGTH ==> (r matches Ok(w) && w@ == start_transfer_writes(
            control,
            Mm2sRegisters::SOURCE_ADDRESS_LOWER_WORD,
            buf_addr,
            buf_len,
        )),
{
    start_transfer(control, Mm2sRegisters::SOURCE_ADDRESS_LOWER_WORD, buf_addr, buf_len)
}

/// Programs an S2MM transfer into the `buf_len` bytes at `buf_addr` (the lower 32 bits of the
/// destination buffer's address), given the current word `control` of the channel's control
/// register. Does not wait for completion.
///
/// `buf_len` is the maximum number of bytes to receive; the stream can terminate the
/// transfer early (e.g. via `TLAST` on a short packet), so fewer bytes may end up written.
/// Fails if the length exceeds [`MAX_TRANSFER_LENGTH`]; then nothing is written. Please note
/// that the destination address must be aligned to the S2MM memory map data width if the data
/// realignment engine is not included.
pub fn start_read(control: Control, buf_addr: u32, buf_len: usize) -> (r: Result<Vec<RegWrite>, InvalidBufferLengthError>)
    ensures
        buf_len > MAX_TRANSFER_LENGTH ==> r == Err::<Vec<RegWrite>, InvalidBufferLengthError>(InvalidBufferLengthError { len: buf_len }),
        buf_len <= MAX_TRANSFER_LENGTH ==> (r matches Ok(w) && w@ == start_transfer_writes(
            control,
            S2mmRegisters::DEST_ADDRESS_LOWER_WORD,
            buf_addr,
            buf_len,
        )),
{
    start_transfer(control, S2mmRegisters::DEST_ADDRESS_LOWER_WORD, buf_addr, buf_len)
}

/// The control word with the completion and error interrupts enabled.
pub open spec fn interrupts_enabled(control: Control) -> Control {
    control.spec_with_interrupt_on_complete(true).spec_with_error_interrupt_enable(true)
}

/// The status word that clears all three write-to-clear interrupt status bits.
pub open spec fn clear_all_interrupts() -> Status {
    Status::spec_zero().spec_with_completion_interrupt(true).spec_with_delay_timer_interrupt(true).spec_with_error_interrupt(
        true,
    )
}

/// The writes that prepare an interrupt-driven transfer on a channel whose control register
/// reads `control`: enable the completion and error interrupts, then clear any pending interrupt
/// status bits, so a stale, unrelated completion does not assert the interrupt line for the new
/// transfer.
pub open spec fn arm_interrupt_writes(control: Control) -> Seq<RegWrite> {
    seq![
        RegWrite::spec_new(Mm2sRegisters::CONTROL, interrupts_enabled(control)@),
        RegWrite::spec_new(Mm2sRegisters::STATUS, clear_all_interrupts()@),
    ]
}

fn arm_interrupts(control: Control) -> (r: Vec<RegWrite>)
    ensures
        r@ == arm_interrupt_writes(control),
{
    let enabled = control.with_interrupt_on_complete(true).with_error_interrupt_enable(true);
    let clear = Status::zero().with_completion_interrupt(true).with_delay_timer_interrupt(true).with_error_interrupt(true);
    let mut writes: Vec<RegWrite> = Vec::new();
    writes.push(RegWrite::new(Mm2sRegisters::CONTROL, enabled.raw_value()));
    writes.push(RegWrite::new(Mm2sRegisters::STATUS, clear.raw_value()));
    writes
}

/// The channel whose `reset` bit a [`DmaControllerReset`] polls.
#[derive(Debug, Clone, Copy, PartialEq, Eq, Structural)]
pub enum ResetChannel {
    /// The MM2S channel, polled first.
    Mm2s,
    /// The S2MM channel, polled once the MM2S channel's reset finished.
    S2mm,
}

/// The offset of the control register of `channel`, relative to the controller's register
/// block.
pub open spec fn reset_control_offset(channel: ResetChannel) -> usize {
    match channel {
        ResetChannel::Mm2s => (Registers::MM2S + Mm2sRegisters::CONTROL) as usize,
        ResetChannel::S2mm => (Registers::S2MM + S2mmRegisters::CONTROL) as usize,
    }
}

/// One poll of the reset wait that polls `channel`, with `polls` earlier polls of it reading
/// its `reset` bit set, when this poll reads the bit as `is_resetting`: the channel polled and
/// the count after it, and the outcome once there (`Some(true)`: both channels came out of
/// reset; `Some(false)`: a channel timed out).
pub open spec fn reset_step(channel: ResetChannel, polls: nat, is_resetting: bool) -> (ResetChannel, nat, Option<bool>) {
    if is_resetting {
        if polls + 1 >= RESET_POLL_ATTEMPTS {
            (channel, polls + 1, Some(false))
        } else {
            (channel, polls + 1, None)
        }
    } else {
        match channel {
            ResetChannel::Mm2s => (ResetChannel::S2mm, 0, None),
            ResetChannel::S2mm => (ResetChannel::S2mm, polls, Some(true)),
        }
    }
}

/// The outcome of the reset wait from the given state when its polls read `reads` in turn:
/// `None` if it has not finished by the end of them.
pub open spec fn reset_run(channel: ResetChannel, polls: nat, reads: Seq<bool>) -> Option<bool>
    decreases reads.len(),
{
    if reads.len() == 0 {
        None
    } else {
        let (next, count, outcome) = reset_step(channel, polls, reads[0]);
        if outcome is Some {
            outcome
        } else {
            reset_run(next, count, reads.drop_first())
        }
    }
}

proof fn lemma_reset_phase_clears(channel: ResetChannel, polls: nat, reads: Seq<bool>, k: int)
    requires
        0 <= k < reads.len(),
        !reads[k],
        forall|j: int| 0 <= j < k ==> reads[j],
        polls + k < RESET_POLL_ATTEMPTS,
    ensures
        reset_run(channel, polls, reads) == match channel {
            ResetChannel::Mm2s => reset_run(ResetChannel::S2mm, 0, reads.skip(k + 1)),
            ResetChannel::S2mm => Some(true),
        },
    decreases k,
{
    if k == 0 {
        assert(reads.drop_first() =~= reads.skip(1));
    } else {
        let rest = reads.drop_first();
        assert forall|j: int| 0 <= j < k - 1 implies rest[j] by {
            assert(rest[j] == reads[j + 1]);
        }
        lemma_reset_phase_clears(channel, polls + 1, rest, k - 1);
        assert(rest.skip(k) =~= reads.skip(k + 1));
    }
}

proof fn lemma_reset_phase_times_out(channel: ResetChannel, polls: nat, reads: Seq<bool>, k: int)
    requires
        1 <= k <= reads.len(),
        forall|j: int| 0 <= j < k ==> reads[j],
        polls + k == RESET_POLL_ATTEMPTS,
    ensures
        reset_run(channel, polls, reads) == Some(false),
    decreases k,
{
    if k > 1 {
        let rest = reads.drop_first();
        assert forall|j: int| 0 <= j < k - 1 implies rest[j] by {
            assert(rest[j] == reads[j + 1]);
        }
        lemma_reset_phase_times_out(channel, polls + 1, rest, k - 1);
    }
}

/// The reset wait of a new controller succeeds exactly when the MM2S channel's `reset` bit
/// reads clear within [`RESET_POLL_ATTEMPTS`] polls and then, polled only after that, the
/// S2MM channel's does too: given the MM2S reads `mm2s` up to and including the first clear
/// one (at `i`), and the S2MM reads `s2mm` after it, the wait yields the controller if the
/// first clear S2MM read comes within the poll limit, and times out if the limit's worth of
/// S2MM reads all read set; and it times out if the limit's worth of MM2S reads all read set.
pub proof fn lemma_reset_outcome(mm2s: Seq<bool>, s2mm: Seq<bool>, i: int, k: int)
    requires
        0 <= k < RESET_POLL_ATTEMPTS,
    ensures
        (0 <= i < RESET_POLL_ATTEMPTS && i < mm2s.len() && !mm2s[i] && (forall|j: int| 0 <= j < i ==> mm2s[j])
            && k < s2mm.len() && !s2mm[k] && (forall|j: int| 0 <= j < k ==> s2mm[j]))
            ==> reset_run(ResetChannel::Mm2s, 0, mm2s.take(i + 1) + s2mm) == Some(true),
        (0 <= i < RESET_POLL_ATTEMPTS && i < mm2s.len() && !mm2s[i] && (forall|j: int| 0 <= j < i ==> mm2s[j])
            && RESET_POLL_ATTEMPTS <= s2mm.len() && (forall|j: int| 0 <= j < RESET_POLL_ATTEMPTS ==> s2mm[j]))
            ==> reset_run(ResetChannel::Mm2s, 0, mm2s.take(i + 1) + s2mm) == Some(false),
        (RESET_POLL_ATTEMPTS <= mm2s.len() && (forall|j: int| 0 <= j < RESET_POLL_ATTEMPTS ==> mm2s[j]))
            ==> reset_run(ResetChannel::Mm2s, 0, mm2s) == Some(false),
{
    if 0 <= i < RESET_POLL_ATTEMPTS && i < mm2s.len() && !mm2s[i] && (forall|j: int| 0 <= j < i ==> mm2s[j]) {
        let all = mm2s.take(i + 1) + s2mm;
        assert forall|j: int| 0 <= j < i implies all[j] by {
            assert(all[j] == mm2s[j]);
        }
        assert(all[i] == mm2s[i]);
        lemma_reset_phase_clears(ResetChannel::Mm2s, 0, all, i);
        assert(all.skip(i + 1) =~= s2mm);
        if k < s2mm.len() && !s2mm[k] && (forall|j: int| 0 <= j < k ==> s2mm[j]) {
            lemma_reset_phase_clears(ResetChannel::S2mm, 0, s2mm, k);
        }
        if RESET_POLL_ATTEMPTS <= s2mm.len() && (forall|j: int| 0 <= j < RESET_POLL_ATTEMPTS ==> s2mm[j]) {
            lemma_reset_phase_times_out(ResetChannel::S2mm, 0, s2mm, RESET_POLL_ATTEMPTS as int);
        }
    }
    if RESET_POLL_ATTEMPTS <= mm2s.len() && (forall|j: int| 0 <= j < RESET_POLL_ATTEMPTS ==> mm2s[j]) {
        lemma_reset_phase_times_out(ResetChannel::Mm2s, 0, mm2s, RESET_POLL_ATTEMPTS as int);
    }
}

/// Waiting for both channels of a new [`DmaController`] to come out of reset: the MM2S
/// channel's `reset` bit is polled until it clears, then the S2MM channel's, each for at most
/// [`RESET_POLL_ATTEMPTS`] polls.
pub struct DmaControllerReset {
    base_addr: usize,
    channel: ResetChannel,
    wait: ResetWait,
    finished: bool,
}

impl DmaControllerReset {
    #[verifier::type_invariant]
    spec fn reset_wf(self) -> bool {
        &&& self.base_addr + Registers::SIZE <= usize::MAX
        &&& !self.finished ==> self.wait.spec_polls() < RESET_POLL_ATTEMPTS
    }

    /// Base address of the controller's register block.
    pub closed spec fn spec_base_addr(&self) -> usize {
        self.base_addr
    }

    /// The channel being polled.
    pub closed spec fn spec_channel(&self) -> ResetChannel {
        self.channel
    }

    /// How many polls of the current channel read its `reset` bit still set.
    pub closed spec fn spec_polls(&self) -> u32 {
        self.wait.spec_polls()
    }

    /// Whether the wait has yielded its outcome.
    pub closed spec fn spec_finished(&self) -> bool {
        self.finished
    }

    /// The offset of the control register to poll next, relative to the controller's register
    /// block.
    pub fn control_offset(&self) -> (r: usize)
        ensures
            r == reset_control_offset(self.spec_channel()),
    {
        match self.channel {
            ResetChannel::Mm2s => Registers::MM2S + Mm2sRegisters::CONTROL,
            ResetChannel::S2mm => Registers::S2MM + S2mmRegisters::CONTROL,
        }
    }

    /// Records one poll of the current channel's control register, whose `reset` bit read
    /// `is_resetting`.
    ///
    /// While the bit reads set, the channel is polled again, up to [`RESET_POLL_ATTEMPTS`]
    /// polls; the poll that reaches that count still reading it set yields
    /// `Some(Err(ResetTimeoutError))`. Once the MM2S bit reads clear, the S2MM channel is
    /// polled, from a count of zero; once the S2MM bit reads clear, the wait yields the
    /// controller, with neither handle taken. `None` means: poll again.
    pub fn poll(&mut self, is_resetting: bool) -> (r: Option<Result<DmaController, ResetTimeoutError>>)
        requires
            !old(self).spec_finished(),
        ensures
            final(self).spec_base_addr() == old(self).spec_base_addr(),
            ({
                let (next, count, outcome) = reset_step(old(self).spec_channel(), old(self).spec_polls() as nat, is_resetting);
                &&& outcome is None ==> r is None && final(self).spec_channel() == next
                    && final(self).spec_polls() == count
                &&& outcome == Some(true) ==> (r matches Some(Ok(_)))
                &&& outcome == Some(false) ==> r == Some(Err::<DmaController, ResetTimeoutError>(ResetTimeoutError))
            }),
            is_resetting && old(self).spec_polls() + 1 == RESET_POLL_ATTEMPTS ==> {
                &&& r == Some(Err::<DmaController, ResetTimeoutError>(ResetTimeoutError))
                &&& final(self).spec_finished()
            },
            is_resetting && old(self).spec_polls() + 1 < RESET_POLL_ATTEMPTS ==> {
                &&& r is None
                &&& !final(self).spec_finished()
                &&& final(self).spec_channel() == old(self).spec_channel()
                &&& final(self).spec_polls() == old(self).spec_polls() + 1
            },
            !is_resetting && old(self).spec_channel() == ResetChannel::Mm2s ==> {
                &&& r is None
                &&& !final(self).spec_finished()
                &&& final(self).spec_channel() == ResetChannel::S2mm
                &&& final(self).spec_polls() == 0
            },
            !is_resetting && old(self).spec_channel() == ResetChannel::S2mm ==> {
                &&& r matches Some(Ok(c)) && c.spec_base_addr() == old(self).spec_base_addr()
                    && !c.writer_taken() && !c.reader_taken()
                &&& final(self).spec_finished()
            },
    {
        proof {
            use_type_invariant(&*self);
        }
        let mut wait = self.wait;
        match wait.poll(is_resetting) {
            None => {
                self.wait = wait;
                None
            },
            Some(Err(e)) => {
                self.finished = true;
                self.wait = wait;
                Some(Err(e))
            },
            Some(Ok(())) => match self.channel {
                ResetChannel::Mm2s => {
                    self.channel = ResetChannel::S2mm;
                    self.wait = ResetWait::new();
                    None
                },
                ResetChannel::S2mm => {
                    self.finished = true;
                    Some(Ok(DmaController { base_addr: self.base_addr, writer_taken: false, reader_taken: false }))
                },
            },
        }
    }
}

/// Top-level driver for an AXI DMA peripheral instance, used to hand out the individual
/// reader/writer handles.
pub struct DmaController {
    base_addr: usize,
    writer_taken: bool,
    reader_taken: bool,
}

impl DmaController {
    #[verifier::type_invariant]
    spec fn block_fits(self) -> bool {
        self.base_addr + Registers::SIZE <= usize::MAX
    }

    /// Base address of the register block.
    pub closed spec fn spec_base_addr(&self) -> usize {
        self.base_addr
    }

    /// Whether the MM2S writer was handed out.
    pub closed spec fn writer_taken(&self) -> bool {
        self.writer_taken
    }

    /// Whether the S2MM reader was handed out.
    pub closed spec fn reader_taken(&self) -> bool {
        self.reader_taken
    }

    /// Create a new AXI DMA controller peripheral driver for the register block at `base_addr`:
    /// returns the writes that reset both channels, and the wait for the resets to finish.
    ///
    /// The caller makes the writes, then polls the control register that
    /// [`DmaControllerReset::control_offset`] names with [`DmaControllerReset::poll`] until
    /// it yields the controller, or the [`ResetTimeoutError`] of a channel whose `reset` bit
    /// did not clear within [`RESET_POLL_ATTEMPTS`] polls: first the MM2S channel's, then, only
    /// once that one cleared, the S2MM channel's.
    ///
    /// `base_addr` must be the memory-mapped register address of an AXI DMA peripheral, and
    /// no other driver instance may use the same registers.
    pub fn new(base_addr: usize) -> (r: (DmaControllerReset, Vec<RegWrite>))
        requires
            base_addr + Registers::SIZE <= usize::MAX,
        ensures
            r.0.spec_base_addr() == base_addr,
            r.0.spec_channel() == ResetChannel::Mm2s,
            r.0.spec_polls() == 0,
            !r.0.spec_finished(),
            r.1@ == seq![
                RegWrite::spec_new((Registers::MM2S + Mm2sRegisters::CONTROL) as usize, reset_control()@),
                RegWrite::spec_new((Registers::S2MM + S2mmRegisters::CONTROL) as usize, reset_control()@),
            ],
    {
        let reset = Control::zero().with_reset(true);
        let mut writes: Vec<RegWrite> = Vec::new();
        writes.push(RegWrite::new(Registers::MM2S + Mm2sRegisters::CONTROL, reset.raw_value()));
        writes.push(RegWrite::new(Registers::S2MM + S2mmRegisters::CONTROL, reset.raw_value()));
        (DmaControllerReset { base_addr, channel: ResetChannel::Mm2s, wait: ResetWait::new(), finished: false }, writes)
    }

    /// This API can be used to retrieve a simple DMA writer once.
    pub fn take_simple_writer(&mut self) -> (r: Option<SimpleDmaWriter>)
        ensures
            old(self).writer_taken() ==> r is None,
            !old(self).writer_taken() ==> (r matches Some(w) && w.spec_base_addr() == old(self).spec_base_addr() + Registers::MM2S),
            final(self).writer_taken(),
            final(self).reader_taken() == old(self).reader_taken(),
            final(self).spec_base_addr() == old(self).spec_base_addr(),
    {
        proof {
            use_type_invariant(&*self);
        }
        if self.writer_taken {
            return None;
        }
        self.writer_taken = true;
        Some(self.steal_simple_writer())
    }

    /// Steal a simple writer instance.
    ///
    /// Allows creating multiple handles to the same peripheral, which can lead to data races.
    pub fn steal_simple_writer(&mut self) -> (r: SimpleDmaWriter)
        ensures
            r.spec_base_addr() == old(self).spec_base_addr() + Registers::MM2S,
            *final(self) == *old(self),
    {
        proof {
            use_type_invariant(&*self);
        }
        SimpleDmaWriter { regs_base: self.base_addr + Registers::MM2S }
    }

    /// This API can be used to retrieve an interrupt-driven DMA writer once, claiming waker
    /// slot `tx_waker_index` of `wakers`.
    ///
    /// Returns `Ok(None)` if the writer was already taken. The writer counts as taken only if
    /// the claim succeeds.
    pub fn take_writer_async(&mut self, tx_waker_index: usize, wakers: &mut WakerSlots) -> (r: Result<Option<DmaWriterAsync>, TakeAsyncError>)
        ensures
            old(self).writer_taken() ==> {
                &&& r == Ok::<Option<DmaWriterAsync>, TakeAsyncError>(None)
                &&& *final(self) == *old(self)
                &&& final(wakers)@ == old(wakers)@
            },
            !old(self).writer_taken() ==> {
                &&& final(wakers)@ == claim_next(old(wakers)@, tx_waker_index)
                &&& match r {
                    Ok(Some(w)) => {
                        &&& claim_result(old(wakers)@, tx_waker_index) is Ok
                        &&& w.token() == DmaTxToken::spec_steal(tx_waker_index, (old(self).spec_base_addr() + Registers::MM2S) as usize)
                        &&& final(self).writer_taken()
                    },
                    Ok(None) => false,
                    Err(e) => {
                        &&& claim_result(old(wakers)@, tx_waker_index) is Err
                        &&& e == take_async_error(claim_result(old(wakers)@, tx_waker_index), tx_waker_index)
                        &&& !final(self).writer_taken()
                    },
                }
            },
            final(self).reader_taken() == old(self).reader_taken(),
            final(self).spec_base_addr() == old(self).spec_base_addr(),
    {
        proof {
            use_type_invariant(&*self);
        }
        if self.writer_taken {
            return Ok(None);
        }
        // Writer ownership checked above; the waker slot is claimed (or the claim fails)
        // before committing to `writer_taken` below.
        let writer = self.steal_writer_async(tx_waker_index, wakers)?;
        self.writer_taken = true;
        Ok(Some(writer))
    }

    /// Steal an interrupt-driven writer instance, claiming waker slot `tx_waker_index` of
    /// `wakers`.
    ///
    /// Allows creating multiple handles to the same peripheral, which can lead to data races.
    pub fn steal_writer_async(&mut self, tx_waker_index: usize, wakers: &mut WakerSlots) -> (r: Result<DmaWriterAsync, TakeAsyncError>)
        ensures
            final(wakers)@ == claim_next(old(wakers)@, tx_waker_index),
            r is Ok <==> claim_result(old(wakers)@, tx_waker_index) is Ok,
            match r {
                Ok(w) => w.token() == DmaTxToken::spec_steal(tx_waker_index, (old(self).spec_base_addr() + Registers::MM2S) as usize),
                Err(e) => e == take_async_error(claim_result(old(wakers)@, tx_waker_index), tx_waker_index),
            },
            *final(self) == *old(self),
    {
        proof {
            use_type_invariant(&*self);
        }
        claim_tx_waker(wakers, tx_waker_index)?;
        let regs_base = self.base_addr + Registers::MM2S;
        let token = DmaTxToken { base_addr: regs_base, tx_waker_index };
        Ok(DmaWriterAsync { regs_base, token })
    }

    /// This API can be used to retrieve a simple DMA reader once.
    pub fn take_simple_reader(&mut self) -> (r: Option<SimpleDmaReader>)
        ensures
            old(self).reader_taken() ==> r is None,
            !old(self).reader_taken() ==> (r matches Some(rd) && rd.spec_base_addr() == old(self).spec_base_addr() + Registers::S2MM),
            final(self).reader_taken(),
            final(self).writer_taken() == old(self).writer_taken(),
            final(self).spec_base_addr() == old(self).spec_base_addr(),
    {
        proof {
            use_type_invariant(&*self);
        }
        if self.reader_taken {
            return None;
        }
        self.reader_taken = true;
        Some(self.steal_simple_reader())
    }

    /// Steal a simple reader instance.
    ///
    /// Allows creating multiple handles to the same peripheral, which can lead to data races.
    pub fn steal_simple_reader(&mut self) -> (r: SimpleDmaReader)
        ensures
            r.spec_base_addr() == old(self).spec_base_addr() + Registers::S2MM,
            *final(self) == *old(self),
    {
        proof {
            use_type_invariant(&*self);
        }
        SimpleDmaReader { regs_base: self.base_addr + Registers::S2MM }
    }

    /// This API can be used to retrieve an interrupt-driven DMA reader once.
    pub fn take_reader_interrupt_driven(&mut self) -> (r: Option<DmaReaderInterruptDriven>)
        ensures
            old(self).reader_taken() ==> r is None,
            !old(self).reader_taken() ==> (r matches Some(rd)
                && rd.token() == DmaInterruptRxToken::spec_steal((old(self).spec_base_addr() + Registers::S2MM) as usize)),
            final(self).reader_taken(),
            final(self).writer_taken() == old(self).writer_taken(),
            final(self).spec_base_addr() == old(self).spec_base_addr(),
    {
        proof {
            use_type_invariant(&*self);
        }
        if self.reader_taken {
            return None;
        }
        self.reader_taken = true;
        Some(self.steal_reader_interrupt_driven())
    }

    /// Steal an interrupt-driven reader instance.
    ///
    /// Allows creating multiple handles to the same peripheral, which can lead to data races.
    pub fn steal_reader_interrupt_driven(&mut self) -> (r: DmaReaderInterruptDriven)
        ensures
            r.token() == DmaInterruptRxToken::spec_steal((old(self).spec_base_addr() + Registers::S2MM) as usize),
            *final(self) == *old(self),
    {
        proof {
            use_type_invariant(&*self);
        }
        let regs_base = self.base_addr + Registers::S2MM;
        DmaReaderInterruptDriven { regs_base, token: DmaInterruptRxToken { base_addr: regs_base } }
    }
}

/// A blocking, polling-driven MM2S (write/TX) DMA writer.
#[derive(Debug)]
pub struct SimpleDmaWriter {
    regs_base: usize,
}

impl SimpleDmaWriter {
    /// Base address of the MM2S subregister block.
    pub closed spec fn spec_base_addr(&self) -> usize {
        self.regs_base
    }

    /// Base address of the MM2S subregister block, at which the offsets of this writer's
    /// writes apply.
    pub fn base_addr(&self) -> (r: usize)
        ensures
            r == self.spec_base_addr(),
    {
        self.regs_base
    }

    /// Programs the registers to start an MM2S transfer of the `buf_len` bytes at `buf_addr`
    /// (see [`start_write`]), given the current word `control` of the control register, and
    /// returns the transfer together with the writes; use the transfer to find out when it's
    /// done. The source buffer must stay untouched until then.
    pub fn start_write(&mut self, control: Control, buf_addr: u32, buf_len: usize) -> (r: Result<(SimpleDmaWriteTransfer, Vec<RegWrite>), InvalidBufferLengthError>)
        ensures
            buf_len > MAX_TRANSFER_LENGTH ==> r == Err::<(SimpleDmaWriteTransfer, Vec<RegWrite>), InvalidBufferLengthError>(
                InvalidBufferLengthError { len: buf_len },
            ),
            buf_len <= MAX_TRANSFER_LENGTH ==> (r matches Ok((t, w)) && w@ == start_transfer_writes(
                control,
                Mm2sRegisters::SOURCE_ADDRESS_LOWER_WORD,
                buf_addr,
                buf_len,
            )),
            *final(self) == *old(self),
    {
        if buf_len > MAX_TRANSFER_LENGTH {
            return Err(InvalidBufferLengthError { len: buf_len });
        }
        let writes = start_write(control, buf_addr, buf_len)?;
        Ok((SimpleDmaWriteTransfer { regs_base: self.regs_base }, writes))
    }
}

/// An armed, in-progress MM2S transfer started by [`SimpleDmaWriter::start_write`].
pub struct SimpleDmaWriteTransfer {
    regs_base: usize,
}

impl SimpleDmaWriteTransfer {
    /// Non-blocking check for completion, given the current word `status` of the status
    /// register. Returns `true` once the transfer has completed; waiting for the transfer is
    /// polling until then.
    pub fn poll(&mut self, status: Status) -> (r: bool)
        ensures
            r == status.spec_idle(),
            *final(self) == *old(self),
    {
        status.idle()
    }
}

/// Interrupt-driven MM2S (write/TX) DMA writer.
#[derive(Debug)]
pub struct DmaWriterAsync {
    regs_base: usize,
    token: DmaTxToken,
}

/// Identifies a [`DmaWriterAsync`]'s MM2S channel, e.g. for use in an interrupt handler.
#[derive(Debug, Clone, Copy, PartialEq, Eq, Structural)]
pub struct DmaTxToken {
    base_addr: usize,
    tx_waker_index: usize,
}

impl DmaTxToken {
    /// The token of the given waker slot and MM2S base address.
    pub closed spec fn spec_steal(tx_waker_index: usize, base_addr: usize) -> DmaTxToken {
        DmaTxToken { base_addr, tx_waker_index }
    }

    /// The MM2S register block's base address.
    pub closed spec fn spec_base_addr(&self) -> usize {
        self.base_addr
    }

    /// The waker slot of the token.
    pub closed spec fn spec_tx_waker_index(&self) -> usize {
        self.tx_waker_index
    }

    /// The MM2S register block's base address.
    #[verifier::when_used_as_spec(spec_base_addr)]
    pub fn base_addr(&self) -> (r: usize)
        ensures
            r == self.spec_base_addr(),
    {
        self.base_addr
    }

    /// The waker slot this token's writer was constructed with.
    #[verifier::when_used_as_spec(spec_tx_waker_index)]
    pub fn tx_waker_index(&self) -> (r: usize)
        ensures
            r == self.spec_tx_waker_index(),
    {
        self.tx_waker_index
    }

    /// Constructs a transfer token from a raw base address and waker index, e.g. for use in an
    /// interrupt handler that only has these two values available from static configuration.
    ///
    /// `base_addr` must be the real base address of the MM2S register block whose completion
    /// interrupt is being serviced, and `tx_waker_index` must match the slot originally claimed
    /// for the writer.
    #[verifier::when_used_as_spec(spec_steal)]
    pub fn steal(tx_waker_index: usize, base_addr: usize) -> (r: Self)
        ensures
            r == Self::spec_steal(tx_waker_index, base_addr),
            r.spec_base_addr() == base_addr,
            r.spec_tx_waker_index() == tx_waker_index,
    {
        DmaTxToken { base_addr, tx_waker_index }
    }

    /// A token made from a waker slot and a base address reads them back.
    pub proof fn lemma_steal_fields(tx_waker_index: usize, base_addr: usize)
        ensures
            Self::spec_steal(tx_waker_index, base_addr).spec_tx_waker_index() == tx_waker_index,
            Self::spec_steal(tx_waker_index, base_addr).spec_base_addr() == base_addr,
    {
    }
}

/// What servicing an MM2S interrupt does, in this order: make `error_ack` if any; then, if
/// `wake`, record `error` (where there is one) and the done mark into the writer's waker slot
/// (which [`DmaWriterAsync::on_interrupt`] does) and wake the slot's waker; then make
/// `completion_ack` if any. `error` is what the interrupt handler reports.
#[derive(Debug, Clone, Copy)]
pub struct Mm2sInterruptService {
    /// Acknowledges the error interrupt.
    pub error_ack: Option<RegWrite>,
    /// The error the transfer ended with, if any.
    pub error: Option<DmaTransferError>,
    /// Whether the waiting task is to be woken.
    pub wake: bool,
    /// Acknowledges the completion interrupt.
    pub completion_ack: Option<RegWrite>,
}

/// The acknowledge write for the error interrupt.
pub open spec fn error_ack() -> RegWrite {
    RegWrite::spec_new(Mm2sRegisters::STATUS, Status::spec_zero().spec_with_error_interrupt(true)@)
}

/// The acknowledge write for the completion interrupt.
pub open spec fn completion_ack() -> RegWrite {
    RegWrite::spec_new(Mm2sRegisters::STATUS, Status::spec_zero().spec_with_completion_interrupt(true)@)
}

/// What servicing an MM2S interrupt whose status register reads `status` does.
pub open spec fn mm2s_service(status: Status) -> Mm2sInterruptService {
    Mm2sInterruptService {
        error_ack: if status.spec_error_interrupt() { Some(error_ack()) } else { None },
        error: if status.spec_error_interrupt() { Some(status_error(status)) } else { None },
        wake: status.spec_completion_interrupt() || status.spec_error_interrupt(),
        completion_ack: if status.spec_completion_interrupt() { Some(completion_ack()) } else { None },
    }
}

/// Servicing an MM2S interrupt follows the status word bit by bit: an error is reported
/// exactly when the error interrupt bit (14) is set, and then carries the decode (6), slave (5)
/// and internal (4) error bits; each interrupt bit that is set, and only that one, is
/// acknowledged by writing it alone to the status register (write-to-clear); and the writer is
/// woken exactly when the completion (12) or error bit is set.
pub proof fn lemma_mm2s_service_follows_status(status: Status)
    ensures
        mm2s_service(status).error is Some <==> crate::bits::bit(status@, 14),
        (mm2s_service(status).error matches Some(e) ==> (e.decode == crate::bits::bit(status@, 6)
            && e.slave == crate::bits::bit(status@, 5) && e.internal == crate::bits::bit(status@, 4))),
        mm2s_service(status).wake <==> (crate::bits::bit(status@, 12) || crate::bits::bit(status@, 14)),
        mm2s_service(status).error_ack == if crate::bits::bit(status@, 14) {
            Some(RegWrite::spec_new(0x04, 0x4000))
        } else {
            None
        },
        mm2s_service(status).completion_ack == if crate::bits::bit(status@, 12) {
            Some(RegWrite::spec_new(0x04, 0x1000))
        } else {
            None
        },
{
    assert(crate::bits::set_bit(0, 14, true) == 0x4000u32) by (bit_vector);
    assert(crate::bits::set_bit(0, 12, true) == 0x1000u32) by (bit_vector);
}

/// Arming a channel's interrupts is a read-modify-write of its control word: the first write
/// goes to the control register and sets the completion (12) and error (14) interrupt enables,
/// keeping every other bit of `control`; the second clears the completion, delay and error
/// interrupt status bits (12 to 14, write-to-clear) and nothing else.
pub proof fn lemma_arm_keeps_control(control: Control, j: u32)
    requires
        j < 32,
    ensures
        arm_interrupt_writes(control).len() == 2,
        arm_interrupt_writes(control)[0].offset == 0x00,
        crate::bits::bit(arm_interrupt_writes(control)[0].value, 12),
        crate::bits::bit(arm_interrupt_writes(control)[0].value, 14),
        j != 12 && j != 14 ==> crate::bits::bit(arm_interrupt_writes(control)[0].value, j) == crate::bits::bit(control@, j),
        arm_interrupt_writes(control)[1] == RegWrite::spec_new(0x04, 0x7000),
{
    let once = crate::bits::set_bit(control@, 12, true);
    crate::bits::lemma_set_bit(control@, 12, j, true);
    crate::bits::lemma_set_bit(control@, 12, 14, true);
    crate::bits::lemma_set_bit(once, 14, j, true);
    crate::bits::lemma_set_bit(once, 14, 12, true);
    assert(crate::bits::set_bit(crate::bits::set_bit(crate::bits::set_bit(0, 12, true), 13, true), 14, true) == 0x7000u32)
        by (bit_vector);
}

/// Starting a transfer is a read-modify-write of the channel's control word, then the buffer
/// address and length: the first write goes to the control register and sets the run bit (0),
/// keeping every other bit of `control`; the second writes the buffer address at
/// `address_offset`; the third writes the length to the transfer-length register, which holds
/// it in its low 26 bits.
pub proof fn lemma_start_keeps_control(control: Control, address_offset: usize, buf_addr: u32, buf_len: usize, j: u32)
    requires
        j < 32,
        buf_len <= MAX_TRANSFER_LENGTH,
    ensures
        start_transfer_writes(control, address_offset, buf_addr, buf_len).len() == 3,
        start_transfer_writes(control, address_offset, buf_addr, buf_len)[0].offset == 0x00,
        crate::bits::bit(start_transfer_writes(control, address_offset, buf_addr, buf_len)[0].value, 0),
        j != 0 ==> crate::bits::bit(start_transfer_writes(control, address_offset, buf_addr, buf_len)[0].value, j)
            == crate::bits::bit(control@, j),
        start_transfer_writes(control, address_offset, buf_addr, buf_len)[1] == RegWrite::spec_new(address_offset, buf_addr),
        start_transfer_writes(control, address_offset, buf_addr, buf_len)[2] == RegWrite::spec_new(0x28, buf_len as u32),
{
    let v = control@;
    assert(crate::bits::set_field(v, 0, 1, 1) == crate::bits::set_bit(v, 0, true)) by (bit_vector);
    crate::bits::lemma_set_bit(v, 0, j, true);
    let len = buf_len as u32;
    assert(len <= 0x3FF_FFFF);
    assert(crate::bits::set_field(0, 0, 26, len) == len) by (bit_vector)
        requires len <= 0x3FF_FFFF;
}

/// The bit layout of a channel's control and status words, as the interrupt and transfer
/// logic reads them: control bit 0 runs the channel, bit 2 resets it, bits 12 and 14 enable
/// the completion and error interrupts; status bit 1 reports the channel idle, bits 12, 13
/// and 14 the completion, delay and error interrupts, bits 4, 5 and 6 the internal, slave and
/// decode errors; the transfer-length register holds the length in its low 26 bits. Resetting
/// a channel writes bit 2 alone to its control register, at offset 0x00 (MM2S) or 0x30 (S2MM).
pub proof fn lemma_register_layout(control: Control, status: Status, length: TransferLength)
    ensures
        control.spec_reset() == crate::bits::bit(control@, 2),
        control.spec_interrupt_on_complete() == crate::bits::bit(control@, 12),
        control.spec_error_interrupt_enable() == crate::bits::bit(control@, 14),
        (control.spec_run_stop() == RunStop::Run) == crate::bits::bit(control@, 0),
        status.spec_idle() == crate::bits::bit(status@, 1),
        status.spec_completion_interrupt() == crate::bits::bit(status@, 12),
        status.spec_delay_timer_interrupt() == crate::bits::bit(status@, 13),
        status.spec_error_interrupt() == crate::bits::bit(status@, 14),
        status.spec_dma_internal_error() == crate::bits::bit(status@, 4),
        status.spec_dma_slave_error() == crate::bits::bit(status@, 5),
        status.spec_dma_decode_error() == crate::bits::bit(status@, 6),
        length.spec_length() == length@ % 0x400_0000,
        reset_control()@ == 0x4u32,
        reset_control_offset(ResetChannel::Mm2s) == 0x00,
        reset_control_offset(ResetChannel::S2mm) == 0x30,
{
    let v = control@;
    assert((crate::bits::field(v, 0, 1) == 1) == crate::bits::bit(v, 0)) by (bit_vector);
    assert(crate::bits::field(v, 0, 1) <= 1) by (bit_vector);
    let l = length@;
    assert(crate::bits::field(l, 0, 26) == l % 0x400_0000) by (bit_vector);
    assert(crate::bits::set_bit(0, 2, true) == 0x4u32) by (bit_vector);
}

/// A completion check of a read finds the transfer done exactly when the status word's idle
/// bit (1) is set, and then gives the length in the low 26 bits of the transfer-length word.
pub proof fn lemma_read_poll_result(status: Status, length: TransferLength)
    ensures
        read_poll_result(status, length) == if crate::bits::bit(status@, 1) {
            Some((length@ % 0x400_0000) as usize)
        } else {
            None
        },
{
    lemma_register_layout(Control { raw: 0 }, status, length);
}

/// The one-byte encoding of a transfer error: bit 3 marks an error as present, bits 0, 1 and 2
/// hold the decode, slave and internal errors, and nothing else is set.
pub proof fn lemma_transfer_error_encoding(error: DmaTransferError)
    ensures
        error.spec_to_bits() & 0x8 == 0x8,
        (error.spec_to_bits() & 0x1 != 0) == error.decode,
        (error.spec_to_bits() & 0x2 != 0) == error.slave,
        (error.spec_to_bits() & 0x4 != 0) == error.internal,
        error.spec_to_bits() < 0x10,
{
    let d = error.decode;
    let sl = error.slave;
    let i = error.internal;
    let b = error.spec_to_bits();
    assert(b == 8u8 | (if d { 1u8 } else { 0u8 }) | (if sl { 2u8 } else { 0u8 }) | (if i { 4u8 } else { 0u8 }));
    assert(b & 0x8 == 0x8 && (b & 0x1 != 0) == d && (b & 0x2 != 0) == sl && (b & 0x4 != 0) == i && b < 0x10) by (bit_vector)
        requires b == 8u8 | (if d { 1u8 } else { 0u8 }) | (if sl { 2u8 } else { 0u8 }) | (if i { 4u8 } else { 0u8 });
}

/// The per-waker-slot outcome of interrupt-driven MM2S transfers: for each slot, whether its
/// transfer is done, and the error recorded for it, encoded by [`DmaTransferError::to_bits`]
/// (`0` for none). Shared by the writers (which arm and read their slot) and the interrupt
/// handler (which records into it).
pub struct TxTransferSlots {
    slots: Vec<(bool, u8)>,
}

impl View for TxTransferSlots {
    type V = Seq<(bool, u8)>;

    closed spec fn view(&self) -> Seq<(bool, u8)> {
        self.slots@
    }
}

/// The slots after slot `i` was armed for a new transfer: not done, no error.
pub open spec fn slot_armed(slots: Seq<(bool, u8)>, i: int) -> Seq<(bool, u8)> {
    slots.update(i, (false, 0u8))
}

/// The slots after an interrupt serviced as `service` for slot `i`: where the task is to be
/// woken, the error (if any) is stored and the slot marked done.
pub open spec fn slot_recorded(slots: Seq<(bool, u8)>, i: int, service: Mm2sInterruptService) -> Seq<(bool, u8)> {
    if service.wake {
        slots.update(i, (true, match service.error {
            Some(e) => e.spec_to_bits(),
            None => slots[i].1,
        }))
    } else {
        slots
    }
}

/// The result of slot `i`'s transfer: `None` while not done, then the recorded error, if any.
pub open spec fn slot_outcome(slots: Seq<(bool, u8)>, i: int) -> Option<Result<(), DmaWriteError>> {
    if slots[i].0 {
        Some(match DmaTransferError::spec_from_bits(slots[i].1) {
            Some(e) => Err(DmaWriteError::Transfer(e)),
            None => Ok(()),
        })
    } else {
        None
    }
}

impl TxTransferSlots {
    /// `len` slots, none done, no error recorded.
    pub fn new(len: usize) -> (r: Self)
        ensures
            r@ == Seq::new(len as nat, |i: int| (false, 0u8)),
    {
        let mut slots: Vec<(bool, u8)> = Vec::new();
        let mut k: usize = 0;
        while k < len
            invariant
                k <= len,
                slots@.len() == k,
                forall|i: int| 0 <= i < k ==> slots@[i] == (false, 0u8),
            decreases len - k,
        {
            slots.push((false, 0u8));
            k = k + 1;
        }
        let r = TxTransferSlots { slots };
        assert(r@ =~= Seq::new(len as nat, |i: int| (false, 0u8)));
        r
    }

    /// Number of slots.
    pub fn len(&self) -> (r: usize)
        ensures
            r == self@.len(),
    {
        self.slots.len()
    }

    fn arm(&mut self, i: usize)
        requires
            i < old(self)@.len(),
        ensures
            final(self)@ == slot_armed(old(self)@, i as int),
    {
        self.slots.set(i, (false, 0u8));
    }

    fn record(&mut self, i: usize, error: Option<DmaTransferError>)
        requires
            i < old(self)@.len(),
        ensures
            final(self)@ == old(self)@.update(i as int, (true, match error {
                Some(e) => e.spec_to_bits(),
                None => old(self)@[i as int].1,
            })),
    {
        let bits = match error {
            Some(e) => e.to_bits(),
            None => self.slots[i].1,
        };
        self.slots.set(i, (true, bits));
    }

    fn outcome(&self, i: usize) -> (r: Option<Result<(), DmaWriteError>>)
        requires
            i < self@.len(),
        ensures
            r == slot_outcome(self@, i as int),
    {
        let (done, bits) = self.slots[i];
        if !done {
            return None;
        }
        match DmaTransferError::from_bits(bits) {
            Some(e) => Some(Err(DmaWriteError::Transfer(e))),
            None => Some(Ok(())),
        }
    }
}

/// A write's result is the error its own interrupt recorded: once a slot is armed, its
/// outcome stays `None` until an interrupt that wakes the task is recorded for it, which makes
/// it the error that interrupt reported, or success; whatever an earlier transfer left in the
/// slot does not show, and interrupts recorded for other slots leave it as it is.
pub proof fn lemma_write_outcome_is_own_interrupt(slots: Seq<(bool, u8)>, i: int, j: int, status: Status)
    requires
        0 <= i < slots.len(),
        0 <= j < slots.len(),
    ensures
        slot_outcome(slot_armed(slots, i), i) is None,
        slot_outcome(slot_recorded(slot_armed(slots, i), i, mm2s_service(status)), i) == if status.spec_error_interrupt() {
            Some(Err::<(), DmaWriteError>(DmaWriteError::Transfer(status_error(status))))
        } else if status.spec_completion_interrupt() {
            Some(Ok::<(), DmaWriteError>(()))
        } else {
            None::<Result<(), DmaWriteError>>
        },
        j != i ==> slot_outcome(slot_recorded(slots, j, mm2s_service(status)), i) == slot_outcome(slots, i),
{
    lemma_transfer_error_bits_round_trip(status_error(status));
}

fn error_ack_write() -> (r: RegWrite)
    ensures
        r == error_ack(),
{
    RegWrite::new(Mm2sRegisters::STATUS, Status::zero().with_error_interrupt(true).raw_value())
}

fn completion_ack_write() -> (r: RegWrite)
    ensures
        r == completion_ack(),
{
    RegWrite::new(Mm2sRegisters::STATUS, Status::zero().with_completion_interrupt(true).raw_value())
}

impl DmaWriterAsync {
    /// The token of this writer.
    pub closed spec fn spec_token(&self) -> DmaTxToken {
        self.token
    }

    /// The token identifying this writer's MM2S channel, fixed for the writer's whole lifetime.
    /// Retrieve it once, right after construction, to hand to your interrupt handler.
    #[verifier::when_used_as_spec(spec_token)]
    pub fn token(&self) -> (r: DmaTxToken)
        ensures
            r == self.spec_token(),
    {
        self.token
    }

    /// First step of an interrupt-driven write: clears the done flag and the error byte of this
    /// writer's waker slot in `slots`, and returns the writes that, given the current word
    /// `control` of the control register, enable the completion and error interrupts and clear
    /// any pending interrupt status bits.
    ///
    /// After making them, the caller reads the control register again and starts the transfer
    /// with [`Self::write`]; completion (or error) is then recorded into `slots` by
    /// [`Self::on_interrupt`] called from your interrupt handler, and [`Self::outcome`] tells
    /// the write's result once it is there.
    pub fn arm(&mut self, slots: &mut TxTransferSlots, control: Control) -> (r: Vec<RegWrite>)
        requires
            old(self).spec_token().spec_tx_waker_index() < old(slots)@.len(),
        ensures
            r@ == arm_interrupt_writes(control),
            final(slots)@ == slot_armed(old(slots)@, old(self).spec_token().spec_tx_waker_index() as int),
            *final(self) == *old(self),
    {
        slots.arm(self.token.tx_waker_index);
        arm_interrupts(control)
    }

    /// Second step of an interrupt-driven write: starts the MM2S transfer of the `buf_len`
    /// bytes at `buf_addr`, given the word `control` the control register reads after
    /// [`Self::arm`]'s writes were made. Fails, writing nothing, if the length exceeds
    /// [`MAX_TRANSFER_LENGTH`].
    pub fn write(&mut self, control: Control, buf_addr: u32, buf_len: usize) -> (r: Result<Vec<RegWrite>, DmaWriteError>)
        ensures
            buf_len > MAX_TRANSFER_LENGTH ==> r == Err::<Vec<RegWrite>, DmaWriteError>(
                DmaWriteError::InvalidBufferLength(InvalidBufferLengthError { len: buf_len }),
            ),
            buf_len <= MAX_TRANSFER_LENGTH ==> (r matches Ok(w) && w@ == start_transfer_writes(
                control,
                Mm2sRegisters::SOURCE_ADDRESS_LOWER_WORD,
                buf_addr,
                buf_len,
            )),
            *final(self) == *old(self),
    {
        match start_write(control, buf_addr, buf_len) {
            Ok(writes) => Ok(writes),
            Err(e) => Err(DmaWriteError::InvalidBufferLength(e)),
        }
    }

    /// The result of this writer's transfer, from its waker slot in `slots`: `None` while the
    /// transfer is not marked done, then the error recorded for it, if any.
    pub fn outcome(&self, slots: &TxTransferSlots) -> (r: Option<Result<(), DmaWriteError>>)
        requires
            self.spec_token().spec_tx_waker_index() < slots@.len(),
        ensures
            r == slot_outcome(slots@, self.spec_token().spec_tx_waker_index() as int),
    {
        slots.outcome(self.token.tx_waker_index)
    }

    /// Services the MM2S completion interrupt, given the current word `status` of the MM2S
    /// status register: see [`Mm2sInterruptService`] for what the caller does with the result.
    ///
    /// The error interrupt is acknowledged and reported whenever its status bit is set. A
    /// hardware error halts the channel without ever setting `completion_interrupt`, so the
    /// waiting task is woken on an error too, not only on completion.
    ///
    /// When the task is to be woken, the error (if any) and then the done mark are recorded
    /// into the waker slot of `token` in `slots`.
    pub fn on_interrupt(token: &DmaTxToken, status: Status, slots: &mut TxTransferSlots) -> (r: Mm2sInterruptService)
        requires
            (status.spec_completion_interrupt() || status.spec_error_interrupt())
                ==> token.spec_tx_waker_index() < old(slots)@.len(),
        ensures
            r == mm2s_service(status),
            final(slots)@ == slot_recorded(old(slots)@, token.spec_tx_waker_index() as int, r),
    {
        let service = Self::service(status);
        if service.wake {
            slots.record(token.tx_waker_index, service.error);
        }
        service
    }

    fn service(status: Status) -> (r: Mm2sInterruptService)
        ensures
            r == mm2s_service(status),
    {
        let (error_ack, error) = if status.error_interrupt() {
            (
                Some(error_ack_write()),
                Some(
                    DmaTransferError {
                        decode: status.dma_decode_error(),
                        slave: status.dma_slave_error(),
                        internal: status.dma_internal_error(),
                    },
                ),
            )
        } else {
            (None, None)
        };
        let completed = status.completion_interrupt();
        Mm2sInterruptService {
            error_ack,
            error,
            wake: completed || error.is_some(),
            completion_ack: if completed { Some(completion_ack_write()) } else { None },
        }
    }
}

/// A blocking, polling-driven S2MM (read/RX) DMA reader.
#[derive(Debug)]
pub struct SimpleDmaReader {
    regs_base: usize,
}

impl SimpleDmaReader {
    /// Base address of the S2MM subregister block.
    pub closed spec fn spec_base_addr(&self) -> usize {
        self.regs_base
    }

    /// Base address of the S2MM subregister block, at which the offsets of this reader's
    /// writes apply.
    pub fn base_addr(&self) -> (r: usize)
        ensures
            r == self.spec_base_addr(),
    {
        self.regs_base
    }

    /// Programs the registers to start an S2MM transfer into the `buf_len` bytes at `buf_addr`
    /// (see [`start_read`]), given the current word `control` of the control register, and
    /// returns the transfer together with the writes; use the transfer to find out when it's
    /// done. The destination buffer must stay untouched until then.
    pub fn start_read(&mut self, control: Control, buf_addr: u32, buf_len: usize) -> (r: Result<(SimpleDmaReadTransfer, Vec<RegWrite>), InvalidBufferLengthError>)
        ensures
            buf_len > MAX_TRANSFER_LENGTH ==> r == Err::<(SimpleDmaReadTransfer, Vec<RegWrite>), InvalidBufferLengthError>(
                InvalidBufferLengthError { len: buf_len },
            ),
            buf_len <= MAX_TRANSFER_LENGTH ==> (r matches Ok((t, w)) && t.spec_buf_len() == buf_len
                && w@ == start_transfer_writes(control, S2mmRegisters::DEST_ADDRESS_LOWER_WORD, buf_addr, buf_len)),
            *final(self) == *old(self),
    {
        if buf_len > MAX_TRANSFER_LENGTH {
            return Err(InvalidBufferLengthError { len: buf_len });
        }
        let writes = start_read(control, buf_addr, buf_len)?;
        Ok((SimpleDmaReadTransfer { regs_base: self.regs_base, buf_len }, writes))
    }
}

/// An armed, in-progress S2MM transfer started by [`SimpleDmaReader::start_read`].
pub struct SimpleDmaReadTransfer {
    regs_base: usize,
    buf_len: usize,
}

impl SimpleDmaReadTransfer {
    /// Length of the destination buffer.
    pub closed spec fn spec_buf_len(&self) -> usize {
        self.buf_len
    }

    /// Length of the destination buffer.
    pub fn buf_len(&self) -> (r: usize)
        ensures
            r == self.spec_buf_len(),
    {
        self.buf_len
    }

    /// Non-blocking check for completion, given the current words `status` and
    /// `transfer_length` of the status and transfer-length registers.
    ///
    /// Returns `None` while the transfer is still in progress. Once done, returns the number of
    /// bytes actually received: the data is the destination buffer truncated to it, which can be
    /// less than the buffer's length, e.g. on a short frame terminated early via `TLAST`.
    /// Waiting for the transfer is polling until then.
    pub fn poll(&mut self, status: Status, transfer_length: TransferLength) -> (r: Option<usize>)
        requires
            status.spec_idle() ==> old(self).spec_buf_len() >= transfer_length.spec_length(),
        ensures
            r == read_poll_result(status, transfer_length),
            *final(self) == *old(self),
    {
        self.poll_len(status, transfer_length)
    }

    /// Non-blocking completion check that returns just the received length.
    fn poll_len(&mut self, status: Status, transfer_length: TransferLength) -> (r: Option<usize>)
        ensures
            r == if status.spec_idle() { Some(transfer_length.spec_length() as usize) } else { None },
            *final(self) == *old(self),
    {
        if !status.idle() {
            return None;
        }
        Some(transfer_length.length() as usize)
    }
}

/// What one completion check of an S2MM transfer gives, given the words `status` and
/// `transfer_length` of the status and transfer-length registers: the received length once the
/// channel is idle.
pub open spec fn read_poll_result(status: Status, transfer_length: TransferLength) -> Option<usize> {
    if status.spec_idle() { Some(transfer_length.spec_length() as usize) } else { None }
}

/// What waiting for an S2MM transfer gives, given the register words its successive
/// completion checks read: the result of the first check that finds the transfer done, `None`
/// while none has.
pub open spec fn read_wait_result(polls: Seq<(Status, TransferLength)>) -> Option<usize>
    decreases polls.len(),
{
    if polls.len() == 0 {
        None
    } else if read_poll_result(polls[0].0, polls[0].1) is Some {
        read_poll_result(polls[0].0, polls[0].1)
    } else {
        read_wait_result(polls.drop_first())
    }
}

/// A blocking read: [`SimpleDmaReader::start_read`] followed by waiting for the transfer,
/// whose completion checks read `polls`. Gives the writes made and the read's result (`None`
/// while it has not finished).
pub open spec fn read_result(control: Control, buf_addr: u32, buf_len: usize, polls: Seq<(Status, TransferLength)>) -> (
    Seq<RegWrite>,
    Option<Result<usize, InvalidBufferLengthError>>,
) {
    if buf_len > MAX_TRANSFER_LENGTH {
        (Seq::empty(), Some(Err(InvalidBufferLengthError { len: buf_len })))
    } else {
        (
            start_transfer_writes(control, S2mmRegisters::DEST_ADDRESS_LOWER_WORD, buf_addr, buf_len),
            match read_wait_result(polls) {
                Some(n) => Some(Ok(n)),
                None => None,
            },
        )
    }
}

/// A blocking read fails, writing nothing, exactly when the buffer is longer than
/// [`MAX_TRANSFER_LENGTH`]; otherwise it arms the S2MM channel with the buffer's address and
/// length, keeps waiting exactly as long as no completion check has found the channel idle,
/// and then gives the length read by the first check that did, which is at most the buffer's
/// length. The hardware is taken to report at most the buffer's length, as the driver relies
/// on (it stops on a longer one).
pub proof fn lemma_read_is_start_then_wait(
    control: Control,
    buf_addr: u32,
    buf_len: usize,
    polls: Seq<(Status, TransferLength)>,
)
    requires
        forall|j: int| 0 <= j < polls.len() && polls[j].0.spec_idle() ==> polls[j].1.spec_length() <= buf_len,
    ensures
        buf_len > MAX_TRANSFER_LENGTH ==> read_result(control, buf_addr, buf_len, polls) == (
            Seq::<RegWrite>::empty(),
            Some(Err::<usize, InvalidBufferLengthError>(InvalidBufferLengthError { len: buf_len })),
        ),
        buf_len <= MAX_TRANSFER_LENGTH ==> read_result(control, buf_addr, buf_len, polls).0
            == start_transfer_writes(control, S2mmRegisters::DEST_ADDRESS_LOWER_WORD, buf_addr, buf_len),
        buf_len <= MAX_TRANSFER_LENGTH ==> (read_result(control, buf_addr, buf_len, polls).1 is None
            <==> forall|j: int| 0 <= j < polls.len() ==> !polls[j].0.spec_idle()),
        forall|k: int|
            0 <= k < polls.len() && polls[k].0.spec_idle() && (forall|j: int| 0 <= j < k ==> !polls[j].0.spec_idle())
                && buf_len <= MAX_TRANSFER_LENGTH ==> read_result(control, buf_addr, buf_len, polls).1 == Some(
                Ok::<usize, InvalidBufferLengthError>(polls[k].1.spec_length() as usize),
            ),
        read_result(control, buf_addr, buf_len, polls).1 matches Some(Ok(n)) ==> n <= buf_len,
{
    lemma_wait_result_shape(polls);
    assert forall|k: int|
        0 <= k < polls.len() && polls[k].0.spec_idle() && (forall|j: int| 0 <= j < k ==> !polls[j].0.spec_idle())
        implies read_wait_result(polls) == Some(polls[k].1.spec_length() as usize) by {
        lemma_wait_finds_first_idle(polls, k);
    }
}

proof fn lemma_wait_result_shape(polls: Seq<(Status, TransferLength)>)
    ensures
        read_wait_result(polls) is None <==> forall|j: int| 0 <= j < polls.len() ==> !polls[j].0.spec_idle(),
        read_wait_result(polls) matches Some(n) ==> exists|k: int|
            0 <= k < polls.len() && #[trigger] polls[k].0.spec_idle() && n == polls[k].1.spec_length() as usize,
    decreases polls.len(),
{
    if polls.len() > 0 {
        let rest = polls.drop_first();
        lemma_wait_result_shape(rest);
        if !polls[0].0.spec_idle() {
            assert forall|j: int| 0 <= j < rest.len() implies rest[j] == polls[j + 1] by {}
            if read_wait_result(polls) is None {
                assert forall|j: int| 0 <= j < polls.len() implies !polls[j].0.spec_idle() by {
                    if j > 0 {
                        assert(rest[j - 1] == polls[j]);
                    }
                }
            }
            if read_wait_result(rest) is Some {
                let n = read_wait_result(rest)->0;
                let k = choose|k: int| 0 <= k < rest.len() && #[trigger] rest[k].0.spec_idle() && n == rest[k].1.spec_length() as usize;
                assert(polls[k + 1] == rest[k]);
            }
        }
    }
}

proof fn lemma_wait_finds_first_idle(polls: Seq<(Status, TransferLength)>, k: int)
    requires
        0 <= k < polls.len(),
        polls[k].0.spec_idle(),
        forall|j: int| 0 <= j < k ==> !polls[j].0.spec_idle(),
    ensures
        read_wait_result(polls) == Some(polls[k].1.spec_length() as usize),
    decreases k,
{
    if k > 0 {
        assert(!polls[0].0.spec_idle());
        let rest = polls.drop_first();
        assert forall|j: int| 0 <= j < k - 1 implies !rest[j].0.spec_idle() by {
            assert(rest[j] == polls[j + 1]);
        }
        lemma_wait_finds_first_idle(rest, k - 1);
        assert(rest[k - 1] == polls[k]);
    }
}

/// Identifies an in-flight (or just-completed) S2MM transfer for [`DmaReaderInterruptDriven`],
/// e.g. for use in an interrupt handler.
#[derive(Debug, Clone, Copy, PartialEq, Eq, Structural)]
pub struct DmaInterruptRxToken {
    base_addr: usize,
}

impl DmaInterruptRxToken {
    /// The token of the given S2MM base address.
    pub closed spec fn spec_steal(base_addr: usize) -> DmaInterruptRxToken {
        DmaInterruptRxToken { base_addr }
    }

    /// The S2MM register block's base address.
    pub closed spec fn spec_base_addr(&self) -> usize {
        self.base_addr
    }

    /// The S2MM register block's base address.
    #[verifier::when_used_as_spec(spec_base_addr)]
    pub fn base_addr(&self) -> (r: usize)
        ensures
            r == self.spec_base_addr(),
    {
        self.base_addr
    }

    /// Constructs a read token from a raw base address, e.g. for use in an interrupt handler
    /// that only has this value available from static configuration.
    ///
    /// `base_addr` must be the real base address of the S2MM register block whose completion
    /// interrupt is being serviced.
    #[verifier::when_used_as_spec(spec_steal)]
    pub fn steal(base_addr: usize) -> (r: Self)
        ensures
            r == Self::spec_steal(base_addr),
            r.spec_base_addr() == base_addr,
    {
        DmaInterruptRxToken { base_addr }
    }

    /// A token made from a base address reads it back.
    pub proof fn lemma_steal_fields(base_addr: usize)
        ensures
            Self::spec_steal(base_addr).spec_base_addr() == base_addr,
    {
    }
}

/// Error of servicing an S2MM interrupt.
#[derive(Debug, Clone, Copy, PartialEq, Eq, Structural)]
pub enum DmaReadError {
    /// See [`DmaTransferError`]. The transfer whose completion interrupt was serviced itself
    /// failed on the bus, so no data is available.
    Transfer(DmaTransferError),
    /// The transfer completed, but the next buffer could not be armed (e.g. it was too long),
    /// so the channel is now disarmed and has to be started again.
    Rearm {
        /// Address (lower 32 bits) of the data received by the transfer that just completed.
        /// Not lost just because arming the next one failed.
        data_addr: u32,
        /// Length of the data received by the transfer that just completed.
        data_len: usize,
        /// Why re-arming failed.
        error: InvalidBufferLengthError,
    },
}

/// What servicing an S2MM interrupt does: make `error_ack` if any, then `completion_ack` if
/// any (never both). `outcome` is `Err` if the transfer failed, and otherwise whether a transfer completed:
/// then the received data is at the destination address register's word, with the length the
/// transfer-length register holds, and the next buffer may be armed with [`start_read`].
#[derive(Debug, Clone, Copy)]
pub struct S2mmInterruptService {
    /// Acknowledges the error interrupt.
    pub error_ack: Option<RegWrite>,
    /// Acknowledges the completion interrupt.
    pub completion_ack: Option<RegWrite>,
    /// The transfer's error, or whether a transfer completed.
    pub outcome: Result<bool, DmaReadError>,
}

/// An S2MM reader that is driven entirely by the interrupt handler.
///
/// [`Self::start`] just arms a transfer, and [`Self::on_interrupt`] is the only place that finds
/// out when it's done.
#[derive(Debug)]
pub struct DmaReaderInterruptDriven {
    regs_base: usize,
    token: DmaInterruptRxToken,
}

impl DmaReaderInterruptDriven {
    /// The token of this reader.
    pub closed spec fn spec_token(&self) -> DmaInterruptRxToken {
        self.token
    }

    /// The token identifying this reader's S2MM channel, fixed for the reader's whole lifetime.
    /// Retrieve it once, right after construction, to hand to your interrupt handler, before
    /// the first transfer is armed and the completion interrupt can possibly fire.
    #[verifier::when_used_as_spec(spec_token)]
    pub fn token(&self) -> (r: DmaInterruptRxToken)
        ensures
            r == self.spec_token(),
    {
        self.token
    }

    /// First step of starting interrupt-driven DMA reception: given the current word `control`
    /// of the control register, the writes that enable the completion and error interrupts
    /// and clear all three write-to-clear status bits, so a completion left pending by an
    /// earlier transfer does not assert the interrupt line for this one.
    ///
    /// After making them, the caller reads the control register again and starts the
    /// transfer with [`Self::start`].
    pub fn arm(&mut self, control: Control) -> (r: Vec<RegWrite>)
        ensures
            r@ == arm_interrupt_writes(control),
            *final(self) == *old(self),
    {
        arm_interrupts(control)
    }

    /// Second step of starting interrupt-driven DMA reception: starts the transfer into the
    /// `buf_len` bytes at `buf_addr`, given the word `control` the control register reads
    /// after [`Self::arm`]'s writes were made. Fails, writing nothing, if the length exceeds
    /// [`MAX_TRANSFER_LENGTH`]. Does not wait for completion: call [`Self::on_interrupt`]
    /// from your interrupt handler to find out when it's done.
    pub fn start(&mut self, control: Control, buf_addr: u32, buf_len: usize) -> (r: Result<(Vec<RegWrite>, DmaInterruptRxToken), InvalidBufferLengthError>)
        ensures
            buf_len > MAX_TRANSFER_LENGTH ==> r == Err::<(Vec<RegWrite>, DmaInterruptRxToken), InvalidBufferLengthError>(
                InvalidBufferLengthError { len: buf_len },
            ),
            buf_len <= MAX_TRANSFER_LENGTH ==> (r matches Ok((w, token)) && token == old(self).spec_token()
                && w@ == start_transfer_writes(control, S2mmRegisters::DEST_ADDRESS_LOWER_WORD, buf_addr, buf_len)),
            *final(self) == *old(self),
    {
        let writes = start_read(control, buf_addr, buf_len)?;
        Ok((writes, self.token))
    }

    /// Services the S2MM completion interrupt, given the current word `status` of the S2MM
    /// status register: see [`S2mmInterruptService`] for what the caller does with the result.
    ///
    /// If the `error_interrupt` status bit is set, the transfer didn't complete cleanly: then
    /// only `error_interrupt` is acknowledged, the error is reported, no data is available and
    /// no next buffer is armed, so the channel is left disarmed. Otherwise a set completion bit
    /// is acknowledged and the transfer reported as completed. Without either bit there is
    /// nothing to service.
    pub fn on_interrupt(status: Status) -> (r: S2mmInterruptService)
        ensures
            r.error_ack == if status.spec_error_interrupt() { Some(error_ack()) } else { None },
            r.completion_ack == if !status.spec_error_interrupt() && status.spec_completion_interrupt() {
                Some(completion_ack())
            } else {
                None
            },
            r.outcome == if status.spec_error_interrupt() {
                Err::<bool, DmaReadError>(DmaReadError::Transfer(status_error(status)))
            } else {
                Ok(status.spec_completion_interrupt())
            },
    {
        let error_ack = if status.error_interrupt() { Some(error_ack_write()) } else { None };
        let completion_ack = if !status.error_interrupt() && status.completion_interrupt() {
            Some(completion_ack_write())
        } else {
            None
        };
        let outcome = if status.error_interrupt() {
            Err(
                DmaReadError::Transfer(
                    DmaTransferError {
                        decode: status.dma_decode_error(),
                        slave: status.dma_slave_error(),
                        internal: status.dma_internal_error(),
                    },
                ),
            )
        } else {
            Ok(status.completion_interrupt())
        };
        S2mmInterruptService { error_ack, completion_ack, outcome }
    }

    /// Re-arms the channel after a completed transfer whose data is the `data_len` bytes at
    /// `data_addr`, with the next buffer `next` (its address and length), if any, given the
    /// current word `control` of the control register.
    ///
    /// Returns the writes and the received data. If `next` is too long to arm, nothing is
    /// written and the received data comes back inside [`DmaReadError::Rearm`]; the channel is
    /// then left disarmed. Without a next buffer nothing is written.
    pub fn rearm(data_addr: u32, data_len: usize, next: Option<(u32, usize)>, control: Control) -> (r: (Vec<RegWrite>, Result<(u32, usize), DmaReadError>))
        ensures
            match next {
                None => r.0@.len() == 0 && r.1 == Ok::<(u32, usize), DmaReadError>((data_addr, data_len)),
                Some((addr, len)) => if len > MAX_TRANSFER_LENGTH {
                    r.0@.len() == 0 && r.1 == Err::<(u32, usize), DmaReadError>(
                        DmaReadError::Rearm { data_addr, data_len, error: InvalidBufferLengthError { len } },
                    )
                } else {
                    r.0@ == start_transfer_writes(control, S2mmRegisters::DEST_ADDRESS_LOWER_WORD, addr, len)
                        && r.1 == Ok::<(u32, usize), DmaReadError>((data_addr, data_len))
                },
            },
    {
        match next {
            None => (Vec::new(), Ok((data_addr, data_len))),
            Some((addr, len)) => match start_read(control, addr, len) {
                Ok(writes) => (writes, Ok((data_addr, data_len))),
                Err(error) => (Vec::new(), Err(DmaReadError::Rearm { data_addr, data_len, error })),
            },
        }
    }
}

/// The two buffers passed to [`DoubleBufferHelper::init`] have different lengths.
#[derive(Debug, Clone, Copy, PartialEq, Eq, Structural)]
pub struct LengthNotEqualError;

/// Error returned by [`DoubleBufferHelper::init`].
#[derive(Debug, Clone, Copy, PartialEq, Eq, Structural)]
pub enum DoubleBufferInitError {
    /// See [`LengthNotEqualError`].
    LengthNotEqual(LengthNotEqualError),
    /// [`DoubleBufferHelper::init`] was already called once on this instance.
    AlreadyInitialized,
}

/// Ping-pongs an interrupt-driven reader between a pair of same-length buffers, given by their
/// addresses: after a transfer into one of them completes, the other one is armed next.
#[derive(Debug)]
pub struct DoubleBufferHelper {
    buffer_0: Option<usize>,
    buffer_1: usize,
    buffer_len: usize,
}

/// The abstract state of a [`DoubleBufferHelper`]: `None` before initialization, otherwise the
/// addresses of buffer 0 and buffer 1 and their common length.
pub type DoubleBufferState = Option<(usize, usize, usize)>;

impl View for DoubleBufferHelper {
    type V = DoubleBufferState;

    closed spec fn view(&self) -> DoubleBufferState {
        match self.buffer_0 {
            None => None,
            Some(b0) => Some((b0, self.buffer_1, self.buffer_len)),
        }
    }
}

/// The outcome of initializing a helper in state `state` with buffers of lengths `len0` and
/// `len1`: the length check comes first.
pub open spec fn double_buffer_init_result(state: DoubleBufferState, len0: usize, len1: usize) -> Result<(), DoubleBufferInitError> {
    if len0 != len1 {
        Err(DoubleBufferInitError::LengthNotEqual(LengthNotEqualError))
    } else if state is Some {
        Err(DoubleBufferInitError::AlreadyInitialized)
    } else {
        Ok(())
    }
}

/// Buffer 0 of an initialized helper, as address and length.
pub open spec fn buffer_0_of(state: DoubleBufferState) -> (usize, usize) {
    match state {
        Some((b0, _, len)) => (b0, len),
        None => (0, 0),
    }
}

/// Buffer 1 of an initialized helper, as address and length.
pub open spec fn buffer_1_of(state: DoubleBufferState) -> (usize, usize) {
    match state {
        Some((_, b1, len)) => (b1, len),
        None => (0, 0),
    }
}

/// The buffer armed after the buffer at `completed_addr` completes: buffer 1 after buffer 0,
/// and buffer 0 otherwise.
pub open spec fn other_buffer(state: DoubleBufferState, completed_addr: usize) -> (usize, usize) {
    if completed_addr == buffer_0_of(state).0 {
        buffer_1_of(state)
    } else {
        buffer_0_of(state)
    }
}

impl DoubleBufferHelper {
    /// Creates an empty helper with no buffers assigned yet.
    pub fn new() -> (r: Self)
        ensures
            r@ is None,
    {
        DoubleBufferHelper { buffer_0: None, buffer_1: 0, buffer_len: 0 }
    }

    /// Assigns the pair of same-length buffers (by address and length) to ping-pong between.
    /// Only succeeds once per instance; call it before arming the first transfer.
    pub fn init(&mut self, buf0_addr: usize, buf0_len: usize, buf1_addr: usize, buf1_len: usize) -> (r: Result<(), DoubleBufferInitError>)
        ensures
            r == double_buffer_init_result(old(self)@, buf0_len, buf1_len),
            final(self)@ == if r is Ok { Some((buf0_addr, buf1_addr, buf0_len)) } else { old(self)@ },
    {
        if buf0_len != buf1_len {
            return Err(DoubleBufferInitError::LengthNotEqual(LengthNotEqualError));
        }
        if self.buffer_0.is_some() {
            return Err(DoubleBufferInitError::AlreadyInitialized);
        }
        self.buffer_0 = Some(buf0_addr);
        self.buffer_len = buf0_len;
        self.buffer_1 = buf1_addr;
        Ok(())
    }

    /// Whether the buffers were assigned.
    pub fn is_initialized(&self) -> (r: bool)
        ensures
            r == self@ is Some,
    {
        self.buffer_0.is_some()
    }

    /// Buffer 0, as address and length.
    ///
    /// The DMA engine must not currently be writing to this buffer when it is accessed.
    pub fn buffer_0(&self) -> (r: (usize, usize))
        requires
            self@ is Some,
        ensures
            r == buffer_0_of(self@),
    {
        (self.buffer_0.unwrap(), self.buffer_len)
    }

    /// Buffer 1, as address and length.
    ///
    /// The DMA engine must not currently be writing to this buffer when it is accessed.
    pub fn buffer_1(&self) -> (r: (usize, usize))
        requires
            self@ is Some,
        ensures
            r == buffer_1_of(self@),
    {
        (self.buffer_1, self.buffer_len)
    }

    /// Identifies the buffer at `completed_addr` as buffer 0 or buffer 1 (by address) and
    /// returns the other one, so it can be armed for the next transfer.
    pub fn other(&self, completed_addr: usize) -> (r: (usize, usize))
        requires
            self@ is Some,
        ensures
            r == other_buffer(self@, completed_addr),
    {
        if completed_addr == self.buffer_0.unwrap() {
            self.buffer_1()
        } else {
            self.buffer_0()
        }
    }
}

/// A double-buffer helper alternates between its two (distinct) buffers: after buffer 0
/// completes, buffer 1 is armed, and after that one completes, buffer 0 again.
pub proof fn lemma_double_buffer_alternates(b0: usize, b1: usize, len: usize)
    requires
        b0 != b1,
    ensures
        other_buffer(Some((b0, b1, len)), b0) == (b1, len),
        other_buffer(Some((b0, b1, len)), b1) == (b0, len),
        other_buffer(Some((b0, b1, len)), other_buffer(Some((b0, b1, len)), b0).0) == (b0, len),
{
}

/// A helper is initialized at most once: after a successful `init`, every later `init` fails.
pub proof fn lemma_double_buffer_init_once(state: DoubleBufferState, b0: usize, b1: usize, len: usize, len0: usize, len1: usize)
    requires
        double_buffer_init_result(state, len, len) is Ok,
    ensures
        double_buffer_init_result(Some((b0, b1, len)), len0, len1) is Err,
{
}

/// Initializing a helper succeeds exactly when it is not initialized yet and both buffers
/// have the same length; different lengths are reported first, then a second
/// initialization. Once initialized with distinct buffers, the buffer armed after one
/// completes is always the other one, with the common length.
pub proof fn lemma_double_buffer_rules(state: DoubleBufferState, len0: usize, len1: usize, b0: usize, b1: usize, len: usize, x: usize)
    ensures
        (double_buffer_init_result(state, len0, len1) is Ok) <==> (state is None && len0 == len1),
        (double_buffer_init_result(state, len0, len1) == Err::<(), DoubleBufferInitError>(
            DoubleBufferInitError::LengthNotEqual(LengthNotEqualError),
        )) <==> len0 != len1,
        (double_buffer_init_result(state, len0, len1) == Err::<(), DoubleBufferInitError>(
            DoubleBufferInitError::AlreadyInitialized,
        )) <==> (len0 == len1 && state is Some),
        buffer_0_of(Some((b0, b1, len))) == (b0, len),
        buffer_1_of(Some((b0, b1, len))) == (b1, len),
        other_buffer(Some((b0, b1, len)), b0) == (b1, len),
        x != b0 ==> other_buffer(Some((b0, b1, len)), x) == (b0, len),
{
}

} // verus!
