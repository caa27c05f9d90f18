//! Progress of an interrupt-driven UART transmission, shared by the UART 16550 and UARTLite
//! drivers.
//!
//! A transfer fills the transmit FIFO with the first bytes of the buffer up front; every
//! transmit interrupt then refills the FIFO with the following bytes, as far as it takes them,
//! until all bytes are written and the transmitter has emptied, when the transfer completes.
use vstd::prelude::*;

verus! {

/// What a transmit interrupt calls for.
#[derive(Debug, Clone, Copy, PartialEq, Eq, Structural)]
pub enum TxInterruptAction {
    /// Nothing to do: interrupts are not enabled, or no transfer is active.
    Ignore,
    /// The transfer is done: mark the waker slot's transfer as done and wake its waker.
    Complete,
    /// Write the pending bytes into the FIFO, one by one from [`TxContext::progress`] on,
    /// recording each with [`TxContext::record_byte_written`], until the FIFO takes no more or
    /// no byte is pending.
    Refill,
}

/// The decision of a transmit interrupt for a transfer of `transfer_len` bytes of which
/// `progress` are written, given whether interrupts are enabled and the transmitter is empty.
pub open spec fn interrupt_action(active: bool, progress: usize, transfer_len: usize, interrupts_enabled: bool, tx_empty: bool) -> TxInterruptAction {
    if !interrupts_enabled || !active {
        TxInterruptAction::Ignore
    } else if (progress >= transfer_len && tx_empty) || transfer_len == 0 {
        TxInterruptAction::Complete
    } else {
        TxInterruptAction::Refill
    }
}

/// How many bytes of a transfer of `len` bytes go into a FIFO of `fifo_depth` bytes up front:
/// all of them, or as many as the FIFO holds.
pub open spec fn spec_initial_fill_count(len: usize, fifo_depth: usize) -> usize {
    if len < fifo_depth {
        len
    } else {
        fifo_depth
    }
}

/// How many bytes of a transfer of `len` bytes go into a FIFO of `fifo_depth` bytes up front:
/// all of them, or as many as the FIFO holds.
#[verifier::when_used_as_spec(spec_initial_fill_count)]
pub fn initial_fill_count(len: usize, fifo_depth: usize) -> (r: usize)
    ensures
        r == spec_initial_fill_count(len, fifo_depth),
        r <= len,
        r <= fifo_depth,
{
    if len < fifo_depth {
        len
    } else {
        fifo_depth
    }
}

/// TX context: the transfer in flight on one waker slot.
#[derive(Debug, Clone, Copy)]
pub struct TxContext {
    progress: usize,
    transfer_len: usize,
    active: bool,
}

impl TxContext {
    #[verifier::type_invariant]
    spec fn progress_within_transfer(self) -> bool {
        self.progress <= self.transfer_len
    }

    /// Number of bytes written into the FIFO so far.
    pub closed spec fn spec_progress(self) -> usize {
        self.progress
    }

    /// Length of the transfer.
    pub closed spec fn spec_transfer_len(self) -> usize {
        self.transfer_len
    }

    /// Whether a transfer is active.
    pub closed spec fn spec_active(self) -> bool {
        self.active
    }

    /// Create a new TX context structure, with no transfer active.
    pub fn new() -> (r: Self)
        ensures
            !r.spec_active(),
            r.spec_progress() == 0,
            r.spec_transfer_len() == 0,
    {
        TxContext { progress: 0, transfer_len: 0, active: false }
    }

    /// Number of bytes written into the FIFO so far.
    pub fn progress(&self) -> (r: usize)
        ensures
            r == self.spec_progress(),
            r <= self.spec_transfer_len(),
    {
        proof {
            use_type_invariant(self);
        }
        self.progress
    }

    /// Length of the transfer.
    pub fn transfer_len(&self) -> (r: usize)
        ensures
            r == self.spec_transfer_len(),
    {
        self.transfer_len
    }

    /// Whether a transfer is active.
    pub fn is_active(&self) -> (r: bool)
        ensures
            r == self.spec_active(),
    {
        self.active
    }

    /// Starts a transfer of `len` bytes with a FIFO of `fifo_depth` bytes. Returns how many
    /// bytes to write into the FIFO up front: all of them, or as many as the FIFO holds.
    pub fn start(&mut self, len: usize, fifo_depth: usize) -> (r: usize)
        ensures
            r == spec_initial_fill_count(len, fifo_depth),
            final(self).spec_active(),
            final(self).spec_transfer_len() == len,
            final(self).spec_progress() == r,
    {
        let init_fill_count = initial_fill_count(len, fifo_depth);
        *self = TxContext { progress: init_fill_count, transfer_len: len, active: true };
        init_fill_count
    }

    /// The decision of a transmit interrupt, given whether interrupts are enabled and whether
    /// the transmitter is empty.
    ///
    /// The transfer is done once every byte is written and the transmitter has emptied (the
    /// UART might still be busy shifting the last bytes out before), or right away for an
    /// empty transfer.
    pub fn on_interrupt(&self, interrupts_enabled: bool, tx_empty: bool) -> (r: TxInterruptAction)
        ensures
            r == interrupt_action(self.spec_active(), self.spec_progress(), self.spec_transfer_len(), interrupts_enabled, tx_empty),
    {
        if !interrupts_enabled || !self.active {
            return TxInterruptAction::Ignore;
        }
        if (self.progress >= self.transfer_len && tx_empty) || self.transfer_len == 0 {
            TxInterruptAction::Complete
        } else {
            TxInterruptAction::Refill
        }
    }

    /// Whether bytes of the transfer are still waiting to be written into the FIFO.
    pub fn has_pending(&self) -> (r: bool)
        ensures
            r == (self.spec_progress() < self.spec_transfer_len()),
    {
        self.progress < self.transfer_len
    }

    /// Records that the byte at index [`Self::progress`] was written into the FIFO.
    pub fn record_byte_written(&mut self)
        requires
            old(self).spec_progress() < old(self).spec_transfer_len(),
        ensures
            final(self).spec_progress() == old(self).spec_progress() + 1,
            final(self).spec_transfer_len() == old(self).spec_transfer_len(),
            final(self).spec_active() == old(self).spec_active(),
    {
        self.progress = self.progress + 1;
    }

    /// Ends the transfer after completion, returning the number of bytes written.
    pub fn complete(&mut self) -> (r: usize)
        ensures
            r == old(self).spec_progress(),
            !final(self).spec_active(),
            final(self).spec_progress() == old(self).spec_progress(),
            final(self).spec_transfer_len() == old(self).spec_transfer_len(),
    {
        proof {
            use_type_invariant(&*self);
        }
        self.active = false;
        self.progress
    }

    /// Abandons the transfer on cancellation, so that a spurious or later interrupt finds no
    /// transfer active.
    pub fn cancel(&mut self)
        ensures
            !final(self).spec_active(),
            final(self).spec_progress() == 0,
            final(self).spec_transfer_len() == old(self).spec_transfer_len(),
    {
        self.progress = 0;
        self.active = false;
    }
}

/// The bytes put into the FIFO up front are all of the transfer when it fits, and a full FIFO
/// otherwise: never more than the transfer or the FIFO holds.
pub proof fn lemma_initial_fill_count(len: usize, fifo_depth: usize)
    ensures
        spec_initial_fill_count(len, fifo_depth) <= len,
        spec_initial_fill_count(len, fifo_depth) <= fifo_depth,
        len <= fifo_depth ==> spec_initial_fill_count(len, fifo_depth) == len,
        len >= fifo_depth ==> spec_initial_fill_count(len, fifo_depth) == fifo_depth,
{
}

/// A transmit interrupt does nothing unless interrupts are enabled and a transfer is active;
/// it completes a non-empty transfer only once every byte is written and the transmitter
/// reports empty, and an empty transfer at once; in every other case it refills the FIFO, so
/// a transfer whose bytes are all in the FIFO but not yet sent out keeps waiting.
pub proof fn lemma_interrupt_action_cases(active: bool, progress: usize, transfer_len: usize, interrupts_enabled: bool, tx_empty: bool)
    ensures
        (interrupt_action(active, progress, transfer_len, interrupts_enabled, tx_empty) == TxInterruptAction::Ignore)
            <==> (!interrupts_enabled || !active),
        (interrupt_action(active, progress, transfer_len, interrupts_enabled, tx_empty) == TxInterruptAction::Complete)
            <==> (interrupts_enabled && active && (transfer_len == 0 || (progress >= transfer_len && tx_empty))),
        (interrupts_enabled && active && transfer_len > 0 && !tx_empty)
            ==> interrupt_action(active, progress, transfer_len, interrupts_enabled, tx_empty) == TxInterruptAction::Refill,
        (interrupts_enabled && active && progress < transfer_len)
            ==> interrupt_action(active, progress, transfer_len, interrupts_enabled, tx_empty) == TxInterruptAction::Refill,
{
}

/// A transfer completes only with every byte written: when a transmit interrupt finds a
/// transfer done, its progress equals its length, so the transfer reports all bytes of the
/// buffer as written.
pub proof fn lemma_complete_means_all_written(ctx: TxContext, interrupts_enabled: bool, tx_empty: bool)
    requires
        ctx.spec_progress() <= ctx.spec_transfer_len(),
        interrupt_action(ctx.spec_active(), ctx.spec_progress(), ctx.spec_transfer_len(), interrupts_enabled, tx_empty)
            == TxInterruptAction::Complete,
    ensures
        ctx.spec_progress() == ctx.spec_transfer_len(),
{
}

} // verus!
