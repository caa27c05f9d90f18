//! Ownership table of waker slots.
//!
//! Each interrupt-driven driver of this crate is tied to one slot of a fixed-size table of
//! wakers. A slot is claimed once and then stays claimed for the rest of the program: there is
//! no release, like the rest of the `steal`/`take`-style ownership of the drivers.
use vstd::prelude::*;

verus! {

/// Why claiming a waker slot failed.
#[derive(Clone, Copy, PartialEq, Eq, Structural, Debug)]
pub enum SlotClaimError {
    /// The index is outside the table.
    OutOfRange,
    /// The slot was claimed before.
    InUse,
}

/// What claiming slot `idx` of a table whose slots are claimed as in `slots` returns.
pub open spec fn claim_result(slots: Seq<bool>, idx: usize) -> Result<(), SlotClaimError> {
    if idx >= slots.len() {
        Err(SlotClaimError::OutOfRange)
    } else if slots[idx as int] {
        Err(SlotClaimError::InUse)
    } else {
        Ok(())
    }
}

/// The table after claiming slot `idx`: the slot is marked claimed where the claim succeeds, and
/// the table is unchanged otherwise.
pub open spec fn claim_next(slots: Seq<bool>, idx: usize) -> Seq<bool> {
    if claim_result(slots, idx) is Ok {
        slots.update(idx as int, true)
    } else {
        slots
    }
}

/// Fixed-size table of waker slots, each either free or claimed.
pub struct WakerSlots {
    taken: Vec<bool>,
}

impl View for WakerSlots {
    type V = Seq<bool>;

    closed spec fn view(&self) -> Seq<bool> {
        self.taken@
    }
}

impl WakerSlots {
    /// A table of `count` slots, none of them claimed.
    pub fn new(count: usize) -> (r: WakerSlots)
        ensures
            r@ == Seq::new(count as nat, |i: int| false),
    {
        let mut taken: Vec<bool> = Vec::new();
        let mut i: usize = 0;
        while i < count
            invariant
                i <= count,
                taken@ == Seq::new(i as nat, |k: int| false),
            decreases count - i,
        {
            taken.push(false);
            i = i + 1;
        }
        WakerSlots { taken }
    }

    /// Number of slots of the table.
    pub fn len(&self) -> (r: usize)
        ensures
            r == self@.len(),
    {
        self.taken.len()
    }

    /// Whether slot `idx` exists and is claimed.
    pub fn is_claimed(&self, idx: usize) -> (r: bool)
        ensures
            r == (idx < self@.len() && self@[idx as int]),
    {
        idx < self.taken.len() && self.taken[idx]
    }

    /// Claims slot `idx`. Fails if the slot does not exist or was claimed before; only a
    /// successful claim changes the table.
    pub fn claim(&mut self, idx: usize) -> (r: Result<(), SlotClaimError>)
        ensures
            r == claim_result(old(self)@, idx),
            final(self)@ == claim_next(old(self)@, idx),
    {
        if idx >= self.taken.len() {
            return Err(SlotClaimError::OutOfRange);
        }
        if self.taken[idx] {
            return Err(SlotClaimError::InUse);
        }
        self.taken.set(idx, true);
        Ok(())
    }
}

/// A slot can be claimed only once: once a claim of `idx` has succeeded, every later claim of
/// `idx` fails with [`SlotClaimError::InUse`].
pub proof fn lemma_claim_is_exclusive(slots: Seq<bool>, idx: usize)
    requires
        claim_result(slots, idx) is Ok,
    ensures
        claim_result(claim_next(slots, idx), idx) == Err::<(), SlotClaimError>(SlotClaimError::InUse),
{
}

/// Claims are never released: a claim, successful or not, leaves every claimed slot claimed and
/// changes no slot other than `idx`.
pub proof fn lemma_claim_keeps_claims(slots: Seq<bool>, idx: usize, j: int)
    requires
        0 <= j < slots.len(),
    ensures
        claim_next(slots, idx).len() == slots.len(),
        slots[j] ==> claim_next(slots, idx)[j],
        j != idx ==> claim_next(slots, idx)[j] == slots[j],
{
}

/// Claiming slot `idx` succeeds exactly when the slot is in the table and free, fails as out
/// of range when it is outside, and as in use when it was claimed before; a successful claim
/// marks that slot claimed, and no claim changes the table's size or any other slot.
pub proof fn lemma_claim_semantics(slots: Seq<bool>, idx: usize, j: int)
    requires
        0 <= j < slots.len(),
    ensures
        (claim_result(slots, idx) is Ok) <==> (idx < slots.len() && !slots[idx as int]),
        (claim_result(slots, idx) == Err::<(), SlotClaimError>(SlotClaimError::OutOfRange)) <==> idx >= slots.len(),
        (claim_result(slots, idx) == Err::<(), SlotClaimError>(SlotClaimError::InUse)) <==> (idx < slots.len() && slots[idx as int]),
        claim_next(slots, idx).len() == slots.len(),
        idx < slots.len() ==> claim_next(slots, idx)[idx as int],
        j != idx ==> claim_next(slots, idx)[j] == slots[j],
{
}

} // verus!
