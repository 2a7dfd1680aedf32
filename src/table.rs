//! The table of visible readers: fixed-size and shared by every lock.
//!
//! A slot holds at most one claim. A biased reader publishes a claim for its
//! lock in the slot of its thread before it trusts the bias, and clears it
//! when it is done; a writer that revokes a bias waits until no slot holds a
//! claim for its lock.
use vstd::prelude::*;

use crate::hash::NR_ENTRIES;

verus! {

/// A biased reader's claim: the identity of the lock it reads and the clock
/// reading at which it was published.
#[derive(Clone, Copy, Debug, PartialEq, Eq, Structural)]
pub struct Claim {
    pub lock: u64,
    pub stamp: u64,
}

/// Whether slot content `c` is a claim for the lock with identity `lock`.
pub open spec fn claims(c: Option<Claim>, lock: u64) -> bool {
    c matches Some(k) && k.lock == lock
}

/// Whether some slot of `slots` holds a claim for the lock `lock`.
pub open spec fn claimed_by(slots: Seq<Option<Claim>>, lock: u64) -> bool {
    exists|i: int| 0 <= i < slots.len() && #[trigger] claims(slots[i], lock)
}

/// A table of visible readers.
pub struct VisibleReaders {
    slots: Vec<Option<Claim>>,
}

impl View for VisibleReaders {
    type V = Seq<Option<Claim>>;

    closed spec fn view(&self) -> Seq<Option<Claim>> {
        self.slots@
    }
}

impl VisibleReaders {
    /// Every table has exactly `NR_ENTRIES` slots.
    pub open spec fn wf(&self) -> bool {
        self@.len() == NR_ENTRIES
    }

    /// A table whose slots are all empty.
    pub fn new() -> (r: Self)
        ensures
            r.wf(),
            forall|i: int| 0 <= i < r@.len() ==> r@[i] is None,
    {
        let mut slots: Vec<Option<Claim>> = Vec::new();
        while slots.len() < NR_ENTRIES
            invariant
                slots@.len() <= NR_ENTRIES,
                forall|i: int| 0 <= i < slots@.len() ==> slots@[i] is None,
            decreases NR_ENTRIES - slots@.len(),
        {
            slots.push(None);
        }
        VisibleReaders { slots }
    }

    /// The content of slot `slot`.
    pub fn slot(&self, slot: usize) -> (r: Option<Claim>)
        requires
            self.wf(),
            slot < NR_ENTRIES,
        ensures
            r == self@[slot as int],
    {
        self.slots[slot]
    }

    /// Publishes a claim for `lock` in slot `slot` if that slot is empty.
    /// Returns whether the claim was published; an occupied slot is left as
    /// it was.
    pub fn try_claim(&mut self, slot: usize, lock: u64, stamp: u64) -> (r: bool)
        requires
            old(self).wf(),
            slot < NR_ENTRIES,
        ensures
            final(self).wf(),
            r == old(self)@[slot as int] is None,
            r ==> final(self)@ == old(self)@.update(slot as int, Some(Claim { lock, stamp })),
            !r ==> final(self)@ == old(self)@,
    {
        if self.slots[slot].is_none() {
            self.slots.set(slot, Some(Claim { lock, stamp }));
            true
        } else {
            false
        }
    }

    /// Empties slot `slot`.
    pub fn clear(&mut self, slot: usize)
        requires
            old(self).wf(),
            slot < NR_ENTRIES,
        ensures
            final(self).wf(),
            final(self)@ == old(self)@.update(slot as int, None),
    {
        self.slots.set(slot, None);
    }

    /// The first slot that holds a claim for `lock`, if any.
    pub fn first_claim_of(&self, lock: u64) -> (r: Option<usize>)
        requires
            self.wf(),
        ensures
            r is None <==> !claimed_by(self@, lock),
            r matches Some(i) ==> i < NR_ENTRIES && claims(self@[i as int], lock)
                && forall|j: int| 0 <= j < i ==> !claims(self@[j], lock),
    {
        let mut i: usize = 0;
        while i < NR_ENTRIES
            invariant
                self.wf(),
                i <= NR_ENTRIES,
                forall|j: int| 0 <= j < i ==> !claims(self@[j], lock),
            decreases NR_ENTRIES - i,
        {
            match self.slots[i] {
                Some(c) => {
                    if c.lock == lock {
                        assert(claims(self@[i as int], lock));
                        return Some(i);
                    }
                },
                None => {},
            }
            i = i + 1;
        }
        None
    }
}

} // verus!
