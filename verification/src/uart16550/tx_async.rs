//! # Asynchronous TX support.
//!
//! Support for asynchronous non-blocking TX transfers. Each [`TxAsync`] is explicitly assigned
//! one of [`NUM_WAKERS`] waker slots when it is created; the slot holds the [`TxContext`] of the
//! transfer in flight. Retrieve the resulting [`TxToken`] via [`TxAsync::token`] right after
//! construction and pass it to your interrupt handler, which services the slot's transfer with
//! [`TxContext::on_interrupt`].
//!
//! In the interrupt handler: nothing is done if the token's waker slot is out of range, if the
//! THR-empty interrupt is not enabled in the interrupt enable register, or if no transfer is
//! active. The transfer is done once all bytes are written and the THR-empty status flag of
//! the line status register is set (the THRE instead of the TEMT flag, because the interrupt
//! is configured to trigger on THRE and the UART might still be shifting the last byte out):
//! then the slot's done flag is set, the TX interrupt disabled, and the slot's waker woken.
//! Otherwise the pending bytes are written into the FIFO until it takes no more.
use vstd::prelude::*;

use super::FIFO_DEPTH;
pub use crate::uart_tx::{TxContext, TxInterruptAction};

verus! {

/// Number of waker slots.
pub const NUM_WAKERS: usize = 1;

/// Invalid waker index error.
#[derive(Debug, Clone, Copy, PartialEq, Eq, Structural)]
pub struct InvalidWakerIndex(pub usize);

/// Identifies a [`TxAsync`] driver's UART instance and waker slot, e.g. for use in an interrupt
/// handler.
#[derive(Debug, Clone, Copy, PartialEq, Eq, Structural)]
pub struct TxToken {
    base_addr: usize,
    waker_idx: usize,
}

impl TxToken {
    /// The UART register block's base address.
    pub closed spec fn spec_base_addr(&self) -> usize {
        self.base_addr
    }

    /// The waker slot of the token.
    pub closed spec fn spec_waker_idx(&self) -> usize {
        self.waker_idx
    }

    /// The UART register block's base address.
    #[verifier::when_used_as_spec(spec_base_addr)]
    pub fn base_addr(&self) -> (r: usize)
        ensures
            r == self.spec_base_addr(),
    {
        self.base_addr
    }

    /// The waker slot this token's TX driver was constructed with.
    #[verifier::when_used_as_spec(spec_waker_idx)]
    pub fn waker_idx(&self) -> (r: usize)
        ensures
            r == self.spec_waker_idx(),
    {
        self.waker_idx
    }

    /// Whether the token's waker slot exists: the interrupt handler does nothing for a token
    /// whose slot does not.
    pub fn has_valid_waker(&self) -> (r: bool)
        ensures
            r == (self.spec_waker_idx() < NUM_WAKERS),
    {
        self.waker_idx < NUM_WAKERS
    }

    /// Constructs a token from a raw base address and waker index, e.g. for use in an interrupt
    /// handler that only has these two values available from static configuration, rather than
    /// a token retrieved via [`TxAsync::token`].
    ///
    /// `base_addr` must be the real base address of the UART register block whose TX interrupt
    /// is being serviced, and `waker_idx` must match the slot originally passed to the
    /// corresponding [`TxAsync::new`] call.
    pub fn steal(base_addr: usize, waker_idx: usize) -> (r: Self)
        ensures
            r.spec_base_addr() == base_addr,
            r.spec_waker_idx() == waker_idx,
    {
        TxToken { base_addr, waker_idx }
    }
}

/// This is the generic interrupt handler for asynchronous TX operations: call it from the
/// interrupt handler of the UART with the token of its [`TxAsync`] (retrieved once via
/// [`TxAsync::token`]), the context of the token's waker slot, whether the THR-empty
/// interrupt is enabled in the interrupt enable register (`ier_thr_empty`), and whether the
/// line status register reports the transmit holding register empty (`lsr_thr_empty`).
/// Nothing is done for a token whose waker slot does not exist.
pub fn on_interrupt_tx(token: &TxToken, context: &TxContext, ier_thr_empty: bool, lsr_thr_empty: bool) -> (r: TxInterruptAction)
    ensures
        r == if token.spec_waker_idx() < NUM_WAKERS {
            crate::uart_tx::interrupt_action(context.spec_active(), context.spec_progress(), context.spec_transfer_len(), ier_thr_empty, lsr_thr_empty)
        } else {
            TxInterruptAction::Ignore
        },
{
    if token.waker_idx >= NUM_WAKERS {
        return TxInterruptAction::Ignore;
    }
    context.on_interrupt(ier_thr_empty, lsr_thr_empty)
}

/// TX future state: tells completion and cancellation apart when the future is dropped.
pub struct TxFuture {
    waker_idx: usize,
    completed: bool,
}

impl TxFuture {
    /// The waker slot of the future.
    pub closed spec fn spec_waker_idx(&self) -> usize {
        self.waker_idx
    }

    /// Whether the future has observed completion.
    pub closed spec fn spec_completed(&self) -> bool {
        self.completed
    }

    /// Create a new TX future for a transfer of `data_len` bytes on waker slot `waker_idx`,
    /// whose context is `context`. Returns the future and how many bytes to write into the
    /// FIFO up front.
    ///
    /// Before, the caller clears the slot's done flag, disables the TX interrupt and resets the
    /// FIFO; after, it writes the up-front bytes into the FIFO and enables the TX interrupt.
    pub fn new(context: &mut TxContext, waker_idx: usize, data_len: usize) -> (r: Result<(Self, usize), InvalidWakerIndex>)
        requires
            waker_idx < NUM_WAKERS,
        ensures
            r matches Ok((future, fill)) && {
                &&& future.spec_waker_idx() == waker_idx
                &&& !future.spec_completed()
                &&& fill == crate::uart_tx::spec_initial_fill_count(data_len, FIFO_DEPTH)
                &&& final(context).spec_active()
                &&& final(context).spec_transfer_len() == data_len
                &&& final(context).spec_progress() == fill
            },
    {
        Ok(Self::start(context, waker_idx, data_len))
    }

    fn start(context: &mut TxContext, waker_idx: usize, data_len: usize) -> (r: (Self, usize))
        ensures
            r.0.waker_idx == waker_idx,
            !r.0.completed,
            r.1 == crate::uart_tx::spec_initial_fill_count(data_len, FIFO_DEPTH),
            final(context).spec_active(),
            final(context).spec_transfer_len() == data_len,
            final(context).spec_progress() == r.1,
    {
        let fill = context.start(data_len, FIFO_DEPTH);
        (TxFuture { waker_idx, completed: false }, fill)
    }

    /// Polls the future, given the done flag of its waker slot (read and cleared by the
    /// caller). Once done, ends the transfer and resolves to the number of bytes written.
    pub fn poll(&mut self, done: bool, context: &mut TxContext) -> (r: Option<usize>)
        ensures
            done ==> r == Some(old(context).spec_progress()) && final(self).spec_completed() && !final(context).spec_active()
                && final(context).spec_progress() == old(context).spec_progress()
                && final(context).spec_transfer_len() == old(context).spec_transfer_len(),
            !done ==> r is None && *final(self) == *old(self) && *final(context) == *old(context),
            final(self).spec_waker_idx() == old(self).spec_waker_idx(),
    {
        if done {
            let progress = context.complete();
            self.completed = true;
            return Some(progress);
        }
        None
    }

    /// Drops the future: the caller disables the TX interrupt, and on cancellation (the future
    /// never observed completion) the transfer is abandoned, so a spurious or future interrupt
    /// for this waker slot never touches the stale buffer.
    pub fn on_drop(self, context: &mut TxContext)
        ensures
            !self.spec_completed() ==> !final(context).spec_active() && final(context).spec_progress() == 0
                && final(context).spec_transfer_len() == old(context).spec_transfer_len(),
            self.spec_completed() ==> *final(context) == *old(context),
    {
        if !self.completed {
            context.cancel();
        }
    }
}

/// Asynchronous TX driver.
///
/// Relies on the interrupt handler servicing this driver's [`TxToken`] (see [`Self::token`]):
/// without it, transfers never make progress past the initial FIFO fill and never complete.
pub struct TxAsync {
    tx_base_addr: usize,
    token: TxToken,
}

impl TxAsync {
    #[verifier::type_invariant]
    spec fn token_matches(self) -> bool {
        self.token.waker_idx < NUM_WAKERS && self.token.base_addr == self.tx_base_addr
    }

    /// The token of the driver.
    pub closed spec fn spec_token(&self) -> TxToken {
        self.token
    }

    /// Create a new asynchronous TX structure for the UART at `tx_base_addr`, on waker slot
    /// `waker_idx`.
    ///
    /// The `Drop` of all futures generated with this driver must run on transfer cancellation,
    /// which is what happens by default.
    pub fn new(tx_base_addr: usize, waker_idx: usize) -> (r: Result<Self, InvalidWakerIndex>)
        ensures
            waker_idx >= NUM_WAKERS ==> r == Err::<TxAsync, InvalidWakerIndex>(InvalidWakerIndex(waker_idx)),
            waker_idx < NUM_WAKERS ==> (r matches Ok(tx) && tx.spec_token().spec_base_addr() == tx_base_addr
                && tx.spec_token().spec_waker_idx() == waker_idx),
    {
        if waker_idx >= NUM_WAKERS {
            return Err(InvalidWakerIndex(waker_idx));
        }
        let token = TxToken { base_addr: tx_base_addr, waker_idx };
        Ok(TxAsync { tx_base_addr, token })
    }

    /// The token identifying this driver's UART instance and waker slot, fixed for its whole
    /// lifetime. Retrieve it once, right after construction, to hand to your interrupt handler.
    #[verifier::when_used_as_spec(spec_token)]
    pub fn token(&self) -> (r: TxToken)
        ensures
            r == self.spec_token(),
    {
        self.token
    }

    /// Write a buffer of `data_len` bytes asynchronously, on this driver's waker slot, whose
    /// context is `context` (see [`TxFuture::new`]).
    ///
    /// This is not side effect free: a started future might have already written part of the
    /// buffer.
    pub fn write(&mut self, context: &mut TxContext, data_len: usize) -> (r: (TxFuture, usize))
        ensures
            r.0.spec_waker_idx() == old(self).spec_token().spec_waker_idx(),
            !r.0.spec_completed(),
            r.1 == crate::uart_tx::spec_initial_fill_count(data_len, FIFO_DEPTH),
            final(context).spec_active(),
            final(context).spec_transfer_len() == data_len,
            final(context).spec_progress() == r.1,
            *final(self) == *old(self),
    {
        proof {
            use_type_invariant(&*self);
        }
        TxFuture::start(context, self.token.waker_idx, data_len)
    }

    /// Release the underlying TX handle: the UART's base address.
    pub fn release(self) -> (r: usize)
        ensures
            r == self.spec_token().spec_base_addr(),
    {
        proof {
            use_type_invariant(&self);
        }
        self.tx_base_addr
    }
}

} // verus!
