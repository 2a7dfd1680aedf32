//! Properties of the protocol that relate several operations.
use vstd::prelude::*;

use crate::error::BravoRWlockResult;
use crate::lock::{
    after_revocation, read_step, takes_fast_path, write_ready, try_read_step, try_write_step, BravoRWlock,
    BravoRWlockReadGuard, BravoRWlockWriteGuard, LockView,
};
use crate::hash::{spec_slot, NR_ENTRIES};
use crate::table::{claimed_by, claims, Claim, VisibleReaders};

verus! {

/// Mutual exclusion: while a write guard of a lock is live, no read guard of
/// that lock is.
pub proof fn lemma_writer_excludes_readers<T>(
    lock: &BravoRWlock<T>,
    table: &VisibleReaders,
    w: &BravoRWlockWriteGuard,
    g: &BravoRWlockReadGuard,
)
    requires
        lock.inv(table),
        lock.holds_write(w),
    ensures
        !lock.holds_read(table, g),
{
    if let Some(i) = g.claimed_slot() {
        if g.lock_id() == lock@.id && i < NR_ENTRIES {
            assert(claims(table@[i as int], lock@.id) ==> claimed_by(table@, lock@.id));
        }
    }
}

/// Mutual exclusion: while a write guard of a lock is live, neither a second
/// writer nor a reader acquires it.
pub proof fn lemma_writer_excludes_acquisitions<T>(
    lock: &BravoRWlock<T>,
    table: &VisibleReaders,
    w: &BravoRWlockWriteGuard,
    thread: u64,
    now: u64,
    read_post: LockView<T>,
    read_slots: Seq<Option<Claim>>,
    read_result: BravoRWlockResult<BravoRWlockReadGuard>,
    write_post: LockView<T>,
    write_result: BravoRWlockResult<BravoRWlockWriteGuard>,
)
    requires
        lock.inv(table),
        lock.holds_write(w),
        try_read_step(lock@, table@, thread, now, read_post, read_slots, read_result),
        try_write_step(lock@, table@, now, write_post, write_result),
    ensures
        read_result is Err,
        write_result is Err,
{
}

/// Bias soundness: while a biased read guard is live, its claim stands in the
/// table, so a revocation does not report the table clear and no writer
/// acquires the lock.
pub proof fn lemma_biased_reader_blocks_writer<T>(
    lock: &BravoRWlock<T>,
    table: &VisibleReaders,
    g: &BravoRWlockReadGuard,
    now: u64,
    post: LockView<T>,
    r: BravoRWlockResult<BravoRWlockWriteGuard>,
)
    requires
        lock.inv(table),
        lock.holds_read(table, g),
        g.claimed_slot() is Some,
        try_write_step(lock@, table@, now, post, r),
    ensures
        claimed_by(table@, lock@.id),
        r is Err,
{
    let i = g.claimed_slot()->Some_0;
    assert(claims(table@[i as int], lock@.id));
}

/// Cooldown: after a revocation at `revoked_at`, a read at a clock reading
/// before the inhibition deadline does not arm the bias again.
pub proof fn lemma_cooldown_respected<T>(
    pre: LockView<T>,
    revoked_at: u64,
    slots: Seq<Option<Claim>>,
    thread: u64,
    now: u64,
    post: LockView<T>,
    slots_post: Seq<Option<Claim>>,
    r: BravoRWlockResult<BravoRWlockReadGuard>,
)
    requires
        read_step(after_revocation(pre, revoked_at), slots, thread, now, post, slots_post, r),
        now < after_revocation(pre, revoked_at).inhibit_until,
    ensures
        !post.biased,
{
}

/// Revocation drains: once the bias is off, a read adds no claim to the
/// table, so the claims of biased readers only go away until a writer can
/// proceed.
pub proof fn lemma_no_new_claims_without_bias<T>(
    pre: LockView<T>,
    slots: Seq<Option<Claim>>,
    thread: u64,
    now: u64,
    post: LockView<T>,
    slots_post: Seq<Option<Claim>>,
    r: BravoRWlockResult<BravoRWlockReadGuard>,
)
    requires
        !pre.biased,
        try_read_step(pre, slots, thread, now, post, slots_post, r),
    ensures
        slots_post == slots,
{
}

/// Revocation liveness: once no hold on the underlying lock and no claim for
/// the lock remain, a writer acquires an unpoisoned lock.
pub proof fn lemma_writer_proceeds_when_drained<T>(
    pre: LockView<T>,
    slots: Seq<Option<Claim>>,
    now: u64,
    post: LockView<T>,
    r: BravoRWlockResult<BravoRWlockWriteGuard>,
)
    requires
        !pre.poisoned,
        write_ready(pre, slots),
        try_write_step(pre, slots, now, post, r),
    ensures
        r is Ok,
        post.writing,
        !post.biased,
{
}

/// Mutual exclusion across a shared table: a read of another lock, with
/// another identity, adds no claim that a writer of this lock would have to
/// wait for, nor one it would miss.
pub proof fn lemma_other_lock_read_keeps_exclusion<T, U>(
    this: LockView<T>,
    other: LockView<U>,
    slots: Seq<Option<Claim>>,
    thread: u64,
    now: u64,
    other_post: LockView<U>,
    slots_post: Seq<Option<Claim>>,
    r: BravoRWlockResult<BravoRWlockReadGuard>,
)
    requires
        this.id != other.id,
        slots.len() == NR_ENTRIES,
        read_step(other, slots, thread, now, other_post, slots_post, r),
    ensures
        claimed_by(slots_post, this.id) == claimed_by(slots, this.id),
{
    if takes_fast_path(other, slots, thread) {
        let slot = spec_slot(thread) as int;
        assert(slots_post == slots.update(slot, Some(Claim { lock: other.id, stamp: now })));
        assert forall|i: int| 0 <= i < slots.len() implies #[trigger] claims(slots_post[i], this.id)
            == claims(slots[i], this.id) by {
            if i == slot {
                assert(!claims(slots[i], this.id));
            }
        }
        if claimed_by(slots, this.id) {
            let i = choose|i: int| 0 <= i < slots.len() && #[trigger] claims(slots[i], this.id);
            assert(claims(slots_post[i], this.id));
        }
        if claimed_by(slots_post, this.id) {
            let i = choose|i: int| 0 <= i < slots_post.len() && #[trigger] claims(slots_post[i], this.id);
            assert(claims(slots[i], this.id));
        }
    }
}

} // verus!
