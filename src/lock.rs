//! The lock core: bias state machine, read and write paths, revocation and
//! guards.
//!
//! Every operation is one atomic step of the protocol. Guards are tokens that
//! record which hold they stand for; they are neither `Clone` nor `Copy`, so
//! each one is released at most once, by value.
use vstd::prelude::*;

use vstd::std_specs::cmp::PartialEqSpec;
use vstd::std_specs::convert::FromSpec;

use crate::error::{BravoRWlockErrorType, BravoRWlockResult};
use crate::hash::{bravo_hash, spec_slot, NR_ENTRIES};
use crate::table::{claimed_by, claims, Claim, VisibleReaders};

verus! {

/// Clock ticks for which a revoked bias may not be armed again.
pub const INHIBIT_TICKS: u64 = 1u64 << 24u64;

/// Relies on coarsetime::Instant::recent: the most recently cached reading of
/// the coarse monotonic clock, taken as ticks with `as_ticks`. Nothing is
/// assumed of the value.
#[verifier::external_body]
fn recent_ticks() -> (r: u64) {
    coarsetime::Instant::recent().as_ticks()
}

/// The abstract state of a lock.
pub struct LockView<T> {
    /// Whether readers may bypass the underlying lock.
    pub biased: bool,
    /// Earliest clock reading at which the bias may be armed again.
    pub inhibit_until: u64,
    /// The identity that this lock's claims carry in the table.
    pub id: u64,
    /// Number of read holds on the underlying lock.
    pub readers: u64,
    /// Whether a writer holds the underlying lock.
    pub writing: bool,
    /// Whether a writer failed while holding the underlying lock.
    pub poisoned: bool,
    /// The protected value.
    pub value: T,
}

/// A biased reader-writer lock protecting one value.
#[derive(Debug)]
pub struct BravoRWlock<T> {
    rbias: bool,
    inhibit_until: u64,
    id: u64,
    readers: u64,
    writing: bool,
    poisoned: bool,
    data: T,
}

impl<T> View for BravoRWlock<T> {
    type V = LockView<T>;

    closed spec fn view(&self) -> LockView<T> {
        LockView {
            biased: self.rbias,
            inhibit_until: self.inhibit_until,
            id: self.id,
            readers: self.readers,
            writing: self.writing,
            poisoned: self.poisoned,
            value: self.data,
        }
    }
}

/// A read hold: either a claim in a slot of the table (biased) or a read hold
/// on the underlying lock. It is given back with `unlock` or `try_sync`.
#[must_use]
#[derive(Debug)]
pub struct BravoRWlockReadGuard {
    lock: u64,
    slot: Option<usize>,
}

/// The write hold on the underlying lock. It is given back with `unlock` or
/// `try_sync`.
#[must_use]
#[derive(Debug)]
pub struct BravoRWlockWriteGuard {
    lock: u64,
}

impl BravoRWlockReadGuard {
    /// Identity of the lock that this guard reads.
    pub closed spec fn lock_id(&self) -> u64 {
        self.lock
    }

    /// The slot claimed by a biased read; `None` for a read through the
    /// underlying lock.
    pub closed spec fn claimed_slot(&self) -> Option<usize> {
        self.slot
    }

    /// Whether this guard came through the biased path.
    pub fn is_biased(&self) -> (r: bool)
        ensures
            r == self.claimed_slot() is Some,
    {
        self.slot.is_some()
    }
}

impl BravoRWlockWriteGuard {
    /// Identity of the lock that this guard writes.
    pub closed spec fn lock_id(&self) -> u64 {
        self.lock
    }
}

/// The clock reading at which a revocation at `now` lets the bias be armed
/// again.
pub open spec fn inhibit_deadline(now: u64) -> u64 {
    now.saturating_add(INHIBIT_TICKS)
}

/// The state after the bias of `pre` is revoked at clock reading `now`.
pub open spec fn after_revocation<T>(pre: LockView<T>, now: u64) -> LockView<T> {
    LockView { biased: false, inhibit_until: inhibit_deadline(now), ..pre }
}

/// Whether a read by `thread` takes the biased path: the bias is armed and the
/// thread's slot is free.
pub open spec fn takes_fast_path<T>(pre: LockView<T>, slots: Seq<Option<Claim>>, thread: u64) -> bool {
    pre.biased && slots[spec_slot(thread) as int] is None
}

/// What a read by `thread` at clock reading `now` does: from lock state `pre`
/// and table `slots` to `post`, `slots_post` and result `r`.
pub open spec fn read_step<T>(
    pre: LockView<T>,
    slots: Seq<Option<Claim>>,
    thread: u64,
    now: u64,
    post: LockView<T>,
    slots_post: Seq<Option<Claim>>,
    r: BravoRWlockResult<BravoRWlockReadGuard>,
) -> bool {
    let slot = spec_slot(thread) as usize;
    if takes_fast_path(pre, slots, thread) {
        &&& r matches Ok(g) && g.lock_id() == pre.id && g.claimed_slot() == Some(slot)
        &&& slots_post == slots.update(slot as int, Some(Claim { lock: pre.id, stamp: now }))
        &&& post == pre
    } else if pre.poisoned {
        &&& r == Err::<BravoRWlockReadGuard, _>(BravoRWlockErrorType::RWLockRLockFail)
        &&& slots_post == slots
        &&& post == pre
    } else {
        &&& r matches Ok(g) && g.lock_id() == pre.id && g.claimed_slot() is None
        &&& slots_post == slots
        &&& post == (LockView {
            readers: (pre.readers + 1) as u64,
            biased: pre.biased || now >= pre.inhibit_until,
            ..pre
        })
    }
}

/// What a non-blocking read does: it fails where a blocking one would wait
/// for the writer, and otherwise reads as `read_step` says.
pub open spec fn try_read_step<T>(
    pre: LockView<T>,
    slots: Seq<Option<Claim>>,
    thread: u64,
    now: u64,
    post: LockView<T>,
    slots_post: Seq<Option<Claim>>,
    r: BravoRWlockResult<BravoRWlockReadGuard>,
) -> bool {
    if pre.writing {
        &&& r == Err::<BravoRWlockReadGuard, _>(BravoRWlockErrorType::RWLockRLockFail)
        &&& slots_post == slots
        &&& post == pre
    } else {
        read_step(pre, slots, thread, now, post, slots_post, r)
    }
}

/// Whether a writer can take the lock at once: no hold on the underlying
/// lock and no claim for the lock in the table.
pub open spec fn write_ready<T>(pre: LockView<T>, slots: Seq<Option<Claim>>) -> bool {
    !pre.writing && pre.readers == 0 && !claimed_by(slots, pre.id)
}

/// The state in which a writer at clock reading `now` holds the lock: a live
/// bias has been revoked first.
pub open spec fn write_acquired<T>(pre: LockView<T>, now: u64) -> LockView<T> {
    let revoked = if pre.biased { after_revocation(pre, now) } else { pre };
    LockView { writing: true, ..revoked }
}

/// What a non-blocking write at clock reading `now` does. A live bias is
/// revoked even where biased readers are still in flight, so that no new one
/// can enter while they drain.
pub open spec fn try_write_step<T>(
    pre: LockView<T>,
    slots: Seq<Option<Claim>>,
    now: u64,
    post: LockView<T>,
    r: BravoRWlockResult<BravoRWlockWriteGuard>,
) -> bool {
    if pre.poisoned || pre.writing || pre.readers > 0 {
        &&& r == Err::<BravoRWlockWriteGuard, _>(BravoRWlockErrorType::RWLockWLockFail)
        &&& post == pre
    } else if claimed_by(slots, pre.id) {
        &&& r == Err::<BravoRWlockWriteGuard, _>(BravoRWlockErrorType::RWLockWLockFail)
        &&& post == (if pre.biased { after_revocation(pre, now) } else { pre })
    } else {
        &&& r matches Ok(g) && g.lock_id() == pre.id
        &&& post == write_acquired(pre, now)
    }
}

impl<T> BravoRWlock<T> {
    /// The lock's own invariant: a writer excludes read holds and the bias,
    /// and a poisoned lock is never biased.
    pub open spec fn wf(&self) -> bool {
        &&& self@.writing ==> self@.readers == 0 && !self@.biased
        &&& self@.poisoned ==> !self@.biased
    }

    /// The invariant of the lock together with the table it publishes claims
    /// in: while a writer holds the lock no claim for it is in flight.
    pub open spec fn inv(&self, table: &VisibleReaders) -> bool {
        &&& self.wf()
        &&& table.wf()
        &&& self@.writing ==> !claimed_by(table@, self@.id)
    }

    /// Whether `g` is a live read hold on this lock.
    pub open spec fn holds_read(&self, table: &VisibleReaders, g: &BravoRWlockReadGuard) -> bool {
        &&& g.lock_id() == self@.id
        &&& match g.claimed_slot() {
            Some(i) => i < NR_ENTRIES && claims(table@[i as int], self@.id),
            None => self@.readers > 0,
        }
    }

    /// Whether `g` is the live write hold on this lock.
    pub open spec fn holds_write(&self, g: &BravoRWlockWriteGuard) -> bool {
        g.lock_id() == self@.id && self@.writing
    }

    /// A lock around `t` whose claims carry identity `id`. Locks that share
    /// a table should have distinct identities: a shared one only makes
    /// their writers wait for each other's readers.
    pub fn with_identity(t: T, id: u64) -> (r: Self)
        ensures
            r@ == (LockView {
                biased: false,
                inhibit_until: 0,
                id,
                readers: 0,
                writing: false,
                poisoned: false,
                value: t,
            }),
            r.wf(),
    {
        BravoRWlock {
            rbias: false,
            inhibit_until: 0,
            id,
            readers: 0,
            writing: false,
            poisoned: false,
            data: t,
        }
    }

    /// A lock around `t` with identity 0, no bias and no inhibition.
    pub fn new(t: T) -> (r: Self)
        ensures
            r@ == (LockView {
                biased: false,
                inhibit_until: 0,
                id: 0,
                readers: 0,
                writing: false,
                poisoned: false,
                value: t,
            }),
            r.wf(),
    {
        Self::with_identity(t, 0)
    }

    /// A blocking read by thread `thread` at clock reading `now`. The caller
    /// holds no write guard of this lock, on which the read would wait
    /// forever.
    pub fn read_at(&mut self, table: &mut VisibleReaders, thread: u64, now: u64) -> (r: BravoRWlockResult<BravoRWlockReadGuard>)
        requires
            old(self).inv(old(table)),
            !old(self)@.writing,
            old(self)@.readers < u64::MAX,
        ensures
            final(self).inv(final(table)),
            read_step(old(self)@, old(table)@, thread, now, final(self)@, final(table)@, r),
            r matches Ok(g) ==> final(self).holds_read(final(table), &g),
    {
        if self.rbias {
            let slot = bravo_hash(thread) as usize;
            if table.try_claim(slot, self.id, now) {
                return Ok(BravoRWlockReadGuard { lock: self.id, slot: Some(slot) });
            }
        }
        if self.poisoned {
            return Err(BravoRWlockErrorType::RWLockRLockFail);
        }
        self.readers = self.readers + 1;
        if !self.rbias && now >= self.inhibit_until {
            self.rbias = true;
        }
        Ok(BravoRWlockReadGuard { lock: self.id, slot: None })
    }

    /// Retracts the bias at clock reading `now` and scans the table for
    /// claims of this lock that are still in flight. Returns whether none is:
    /// only then may a writer go on. The bias may not be armed again before
    /// `now + INHIBIT_TICKS`.
    pub fn revocate_at(&mut self, table: &VisibleReaders, now: u64) -> (clear: bool)
        requires
            old(self).inv(table),
        ensures
            final(self).inv(table),
            final(self)@ == after_revocation(old(self)@, now),
            clear == !claimed_by(table@, old(self)@.id),
    {
        self.rbias = false;
        let pending = table.first_claim_of(self.id);
        self.inhibit_until = now.saturating_add(INHIBIT_TICKS);
        pending.is_none()
    }

    /// A non-blocking read by thread `thread` at clock reading `now`.
    pub fn try_read_at(&mut self, table: &mut VisibleReaders, thread: u64, now: u64) -> (r: BravoRWlockResult<BravoRWlockReadGuard>)
        requires
            old(self).inv(old(table)),
            old(self)@.readers < u64::MAX,
        ensures
            final(self).inv(final(table)),
            try_read_step(old(self)@, old(table)@, thread, now, final(self)@, final(table)@, r),
            r matches Ok(g) ==> final(self).holds_read(final(table), &g),
    {
        if self.writing {
            return Err(BravoRWlockErrorType::RWLockRLockFail);
        }
        self.read_at(table, thread, now)
    }

    /// A non-blocking write at clock reading `now`. It fails while the
    /// underlying lock is held or poisoned, and while biased readers of this
    /// lock are in flight.
    pub fn try_write_at(&mut self, table: &VisibleReaders, now: u64) -> (r: BravoRWlockResult<BravoRWlockWriteGuard>)
        requires
            old(self).inv(table),
        ensures
            final(self).inv(table),
            try_write_step(old(self)@, table@, now, final(self)@, r),
            r is Ok <==> !old(self)@.poisoned && write_ready(old(self)@, table@),
            r matches Ok(g) ==> final(self).holds_write(&g),
    {
        if self.poisoned || self.writing || self.readers > 0 {
            return Err(BravoRWlockErrorType::RWLockWLockFail);
        }
        if self.rbias {
            if !self.revocate_at(table, now) {
                return Err(BravoRWlockErrorType::RWLockWLockFail);
            }
        } else if table.first_claim_of(self.id).is_some() {
            return Err(BravoRWlockErrorType::RWLockWLockFail);
        }
        self.writing = true;
        Ok(BravoRWlockWriteGuard { lock: self.id })
    }

    /// A blocking write at clock reading `now`. The caller holds no guard of
    /// this lock, on which the write would wait forever; it fails only on a
    /// poisoned lock.
    pub fn write_at(&mut self, table: &VisibleReaders, now: u64) -> (r: BravoRWlockResult<BravoRWlockWriteGuard>)
        requires
            old(self).inv(table),
            write_ready(old(self)@, table@),
        ensures
            final(self).inv(table),
            try_write_step(old(self)@, table@, now, final(self)@, r),
            r is Ok <==> !old(self)@.poisoned,
            r matches Ok(g) ==> final(self).holds_write(&g),
    {
        self.try_write_at(table, now)
    }

    /// A blocking read by thread `thread`, at the current clock reading.
    pub fn read(&mut self, table: &mut VisibleReaders, thread: u64) -> (r: BravoRWlockResult<BravoRWlockReadGuard>)
        requires
            old(self).inv(old(table)),
            !old(self)@.writing,
            old(self)@.readers < u64::MAX,
        ensures
            final(self).inv(final(table)),
            exists|now: u64| read_step(old(self)@, old(table)@, thread, now, final(self)@, final(table)@, r),
            r matches Ok(g) ==> final(self).holds_read(final(table), &g),
    {
        let now = recent_ticks();
        self.read_at(table, thread, now)
    }

    /// A non-blocking read by thread `thread`, at the current clock reading.
    pub fn try_read(&mut self, table: &mut VisibleReaders, thread: u64) -> (r: BravoRWlockResult<BravoRWlockReadGuard>)
        requires
            old(self).inv(old(table)),
            old(self)@.readers < u64::MAX,
        ensures
            final(self).inv(final(table)),
            exists|now: u64| try_read_step(old(self)@, old(table)@, thread, now, final(self)@, final(table)@, r),
            r matches Ok(g) ==> final(self).holds_read(final(table), &g),
    {
        let now = recent_ticks();
        self.try_read_at(table, thread, now)
    }

    /// A non-blocking write, at the current clock reading.
    pub fn try_write(&mut self, table: &VisibleReaders) -> (r: BravoRWlockResult<BravoRWlockWriteGuard>)
        requires
            old(self).inv(table),
        ensures
            final(self).inv(table),
            exists|now: u64| try_write_step(old(self)@, table@, now, final(self)@, r),
            r is Ok <==> !old(self)@.poisoned && write_ready(old(self)@, table@),
            r matches Ok(g) ==> final(self).holds_write(&g),
    {
        let now = recent_ticks();
        self.try_write_at(table, now)
    }

    /// A blocking write, at the current clock reading, by a caller that holds
    /// no guard of this lock.
    pub fn write(&mut self, table: &VisibleReaders) -> (r: BravoRWlockResult<BravoRWlockWriteGuard>)
        requires
            old(self).inv(table),
            write_ready(old(self)@, table@),
        ensures
            final(self).inv(table),
            exists|now: u64| try_write_step(old(self)@, table@, now, final(self)@, r),
            r is Ok <==> !old(self)@.poisoned,
            r matches Ok(g) ==> final(self).holds_write(&g),
    {
        let now = recent_ticks();
        self.write_at(table, now)
    }

    /// Retracts the bias at the current clock reading and reports whether no
    /// claim of this lock is in flight.
    pub fn revocate(&mut self, table: &VisibleReaders) -> (clear: bool)
        requires
            old(self).inv(table),
        ensures
            final(self).inv(table),
            exists|now: u64| final(self)@ == after_revocation(old(self)@, now),
            clear == !claimed_by(table@, old(self)@.id),
    {
        let now = recent_ticks();
        self.revocate_at(table, now)
    }

    /// Whether readers may currently bypass the underlying lock.
    pub fn rbias(&self) -> (r: bool)
        ensures
            r == self@.biased,
    {
        self.rbias
    }

    /// Whether the lock is poisoned.
    pub fn is_poisoned(&self) -> (r: bool)
        ensures
            r == self@.poisoned,
    {
        self.poisoned
    }

    /// Direct mutable access to the value, for a caller that holds no guard
    /// of this lock and has no biased reader of it in flight.
    pub fn get_mut(&mut self, table: &VisibleReaders) -> (r: BravoRWlockResult<&mut T>)
        requires
            old(self).inv(table),
            write_ready(old(self)@, table@),
        ensures
            r matches Ok(v) && *v == old(self)@.value
                && final(self)@ == (LockView { value: *final(v), ..old(self)@ }),
    {
        Ok(&mut self.data)
    }
}

impl BravoRWlockReadGuard {
    /// The value read under this guard.
    pub fn value<'a, T>(&self, lock: &'a BravoRWlock<T>, table: &VisibleReaders) -> (r: &'a T)
        requires
            lock.inv(table),
            lock.holds_read(table, self),
        ensures
            *r == lock@.value,
    {
        &lock.data
    }

    /// Releases this hold and nothing else: a biased guard empties its slot,
    /// any other gives back its read hold on the underlying lock.
    pub fn unlock<T>(self, lock: &mut BravoRWlock<T>, table: &mut VisibleReaders)
        requires
            old(lock).inv(old(table)),
            old(lock).holds_read(old(table), &self),
        ensures
            final(lock).inv(final(table)),
            match self.claimed_slot() {
                Some(i) => final(lock)@ == old(lock)@
                    && final(table)@ == old(table)@.update(i as int, None),
                None => final(lock)@ == (LockView { readers: (old(lock)@.readers - 1) as u64, ..old(lock)@ })
                    && final(table)@ == old(table)@,
            },
    {
        match self.slot {
            Some(i) => {
                table.clear(i);
            },
            None => {
                lock.readers = lock.readers - 1;
            },
        }
    }

    /// Releases this hold, then reports whether the underlying lock is
    /// poisoned.
    pub fn try_sync<T>(self, lock: &mut BravoRWlock<T>, table: &mut VisibleReaders) -> (r: BravoRWlockResult<()>)
        requires
            old(lock).inv(old(table)),
            old(lock).holds_read(old(table), &self),
        ensures
            final(lock).inv(final(table)),
            match self.claimed_slot() {
                Some(i) => final(lock)@ == old(lock)@
                    && final(table)@ == old(table)@.update(i as int, None),
                None => final(lock)@ == (LockView { readers: (old(lock)@.readers - 1) as u64, ..old(lock)@ })
                    && final(table)@ == old(table)@,
            },
            r == (if old(lock)@.poisoned {
                Err(BravoRWlockErrorType::RWLockSyncFail)
            } else {
                Ok(())
            }),
    {
        let poisoned = lock.poisoned;
        self.unlock(lock, table);
        if poisoned {
            Err(BravoRWlockErrorType::RWLockSyncFail)
        } else {
            Ok(())
        }
    }
}

impl BravoRWlockWriteGuard {
    /// The value under this guard.
    pub fn value<'a, T>(&self, lock: &'a BravoRWlock<T>) -> (r: &'a T)
        requires
            lock.holds_write(self),
        ensures
            *r == lock@.value,
    {
        &lock.data
    }

    /// Mutable access to the value under this guard.
    pub fn value_mut<'a, T>(&self, lock: &'a mut BravoRWlock<T>) -> (r: &'a mut T)
        requires
            old(lock).holds_write(self),
        ensures
            *r == old(lock)@.value,
            final(lock)@ == (LockView { value: *final(r), ..old(lock)@ }),
    {
        &mut lock.data
    }

    /// Releases the write hold. A writer that gives it up while unwinding
    /// from a failure (`panicking`) poisons the lock.
    pub fn unlock<T>(self, lock: &mut BravoRWlock<T>, panicking: bool)
        requires
            old(lock).wf(),
            old(lock).holds_write(&self),
        ensures
            final(lock).wf(),
            final(lock)@ == (LockView {
                writing: false,
                poisoned: old(lock)@.poisoned || panicking,
                ..old(lock)@
            }),
    {
        lock.writing = false;
        if panicking {
            lock.poisoned = true;
        }
    }

    /// Releases the write hold after a completed update, then reports
    /// whether the underlying lock is poisoned.
    pub fn try_sync<T>(self, lock: &mut BravoRWlock<T>) -> (r: BravoRWlockResult<()>)
        requires
            old(lock).wf(),
            old(lock).holds_write(&self),
        ensures
            final(lock).wf(),
            final(lock)@ == (LockView { writing: false, ..old(lock)@ }),
            r == (if old(lock)@.poisoned {
                Err(BravoRWlockErrorType::RWLockSyncFail)
            } else {
                Ok(())
            }),
    {
        let poisoned = lock.poisoned;
        self.unlock(lock, false);
        if poisoned {
            Err(BravoRWlockErrorType::RWLockSyncFail)
        } else {
            Ok(())
        }
    }
}

impl<T: PartialEq + PartialEqSpec> PartialEq for BravoRWlock<T> {
    /// Two locks are equal when their values are.
    fn eq(&self, other: &Self) -> (r: bool) {
        self.data == other.data
    }
}

impl<T: PartialEq + PartialEqSpec> vstd::std_specs::cmp::PartialEqSpecImpl for BravoRWlock<T> {
    open spec fn obeys_eq_spec() -> bool {
        T::obeys_eq_spec()
    }

    open spec fn eq_spec(&self, other: &Self) -> bool {
        self@.value.eq_spec(&other@.value)
    }
}

impl<T> From<T> for BravoRWlock<T> {
    fn from(t: T) -> (r: Self) {
        Self::new(t)
    }
}

impl<T> vstd::std_specs::convert::FromSpecImpl<T> for BravoRWlock<T> {
    open spec fn obeys_from_spec() -> bool {
        true
    }

    closed spec fn from_spec(t: T) -> Self {
        BravoRWlock {
            rbias: false,
            inhibit_until: 0,
            id: 0,
            readers: 0,
            writing: false,
            poisoned: false,
            data: t,
        }
    }
}

/// Equality round trip: locks made from equal values compare equal, and
/// locks made from different values do not, for a value type whose `==` is
/// equality of values.
pub proof fn lemma_from_eq<T: PartialEq + PartialEqSpec>(x: T, y: T)
    requires
        T::obeys_eq_spec(),
        forall|a: T, b: T| #[trigger] a.eq_spec(&b) <==> a == b,
    ensures
        BravoRWlock::<T>::obeys_eq_spec(),
        <BravoRWlock<T> as FromSpec<T>>::from_spec(x).eq_spec(&<BravoRWlock<T> as FromSpec<T>>::from_spec(x)),
        x != y ==> !<BravoRWlock<T> as FromSpec<T>>::from_spec(x).eq_spec(&<BravoRWlock<T> as FromSpec<T>>::from_spec(y)),
{
    assert(x.eq_spec(&x));
}

impl<T: Default> Default for BravoRWlock<T> {
    fn default() -> (r: Self)
        ensures
            !r@.biased && r@.inhibit_until == 0 && r@.id == 0 && r@.readers == 0
                && !r@.writing && !r@.poisoned,
            r.wf(),
    {
        Self::new(T::default())
    }
}

} // verus!
