use bravo_rwlock::{
    bravo_hash, mix32, BravoRWlock, BravoRWlockErrorType, Claim, VisibleReaders, NR_ENTRIES,
};

#[test]
fn read_lock() {
    let mut table = VisibleReaders::new();
    let mut lock = BravoRWlock::new(1);
    let r = lock.read(&mut table, 1).and_then(|r| {
        assert_eq!(*r.value(&lock, &table), 1);
        r.try_sync(&mut lock, &mut table)
    });
    assert_eq!(r, Ok(()));
}

#[test]
fn write_lock() {
    let mut table = VisibleReaders::new();
    let mut lock = BravoRWlock::new(1);
    let _w = lock.write(&table).and_then(|w| {
        *w.value_mut(&mut lock) += 1;
        w.try_sync(&mut lock)
    });
    // only a reader that went through the underlying lock arms the bias
    assert_eq!(lock.rbias(), false);
    let _r = lock.read(&mut table, 1).and_then(|r| {
        assert_eq!(*r.value(&lock, &table), 2);
        r.try_sync(&mut lock, &mut table)
    });
    assert_eq!(lock.rbias(), true);
}

#[test]
#[should_panic]
fn read_while_write() {
    let mut table = VisibleReaders::new();
    let mut lock = BravoRWlock::new(1);
    let _w = lock.write(&table).unwrap();
    // fails: the writer holds the lock
    let _r = lock.try_read(&mut table, 2).unwrap();
}

#[test]
fn lots_thread() {
    let mut table = VisibleReaders::new();
    let mut lock = BravoRWlock::from(0);
    let threads: [u64; 3] = [1, 2, 3];
    for _i in 0..10000 {
        for t in threads.iter() {
            let guard = lock.write(&table).unwrap();
            *guard.value_mut(&mut lock) += 1;
            guard.try_sync(&mut lock).unwrap();
            let r = lock.read(&mut table, *t).unwrap();
            r.unlock(&mut lock, &mut table);
        }
    }
    let read = lock.read(&mut table, 4).unwrap();
    assert_eq!(*read.value(&lock, &table), 30000);
    read.try_sync(&mut lock, &mut table).unwrap();
}

#[test]
fn mix32_known_values() {
    assert_eq!(mix32(0), 0);
    assert_eq!(mix32(1), 3025583356);
    assert_eq!(mix32(2), 985606688);
    assert_eq!(mix32(12345), 399682555);
    assert_eq!(mix32(u64::MAX), 1689612811);
}

#[test]
fn bravo_hash_reduces_mix_to_a_slot() {
    assert_eq!(bravo_hash(1), 3324);
    assert_eq!(bravo_hash(7), 2507);
    assert_eq!(bravo_hash(u64::MAX), 523);
    assert_eq!(bravo_hash(7), bravo_hash(7));
    for t in 0..1000u64 {
        assert!((bravo_hash(t) as usize) < NR_ENTRIES);
    }
}

#[test]
fn new_table_is_empty() {
    let table = VisibleReaders::new();
    for i in 0..NR_ENTRIES {
        assert_eq!(table.slot(i), None);
    }
}

#[test]
fn blocking_read_arms_bias_then_next_read_is_biased() {
    let mut table = VisibleReaders::new();
    let mut lock = BravoRWlock::new(10u32);
    assert!(!lock.rbias());
    let g = lock.read_at(&mut table, 7, 50).unwrap();
    assert!(!g.is_biased());
    assert!(lock.rbias());
    g.unlock(&mut lock, &mut table);
    let g = lock.read_at(&mut table, 7, 60).unwrap();
    assert!(g.is_biased());
    assert_eq!(table.slot(2507), Some(Claim { lock: 0, stamp: 60 }));
    assert_eq!(*g.value(&lock, &table), 10);
    g.unlock(&mut lock, &mut table);
    assert_eq!(table.slot(2507), None);
}

#[test]
fn occupied_slot_falls_back_to_underlying_lock() {
    let mut table = VisibleReaders::new();
    let mut lock = BravoRWlock::new(3u8);
    lock.read_at(&mut table, 7, 1).unwrap().unlock(&mut lock, &mut table);
    let first = lock.read_at(&mut table, 7, 2).unwrap();
    let second = lock.read_at(&mut table, 7, 3).unwrap();
    assert!(first.is_biased());
    assert!(!second.is_biased());
    assert_eq!(table.slot(2507), Some(Claim { lock: 0, stamp: 2 }));
    second.unlock(&mut lock, &mut table);
    first.unlock(&mut lock, &mut table);
}

#[test]
fn biased_reader_blocks_writer_until_it_leaves() {
    let mut table = VisibleReaders::new();
    let mut lock = BravoRWlock::new(1u64);
    lock.read_at(&mut table, 7, 1).unwrap().unlock(&mut lock, &mut table);
    let g = lock.read_at(&mut table, 7, 2).unwrap();
    assert!(g.is_biased());
    assert_eq!(lock.try_write_at(&table, 3).err(), Some(BravoRWlockErrorType::RWLockWLockFail));
    // the failed attempt still revoked the bias
    assert!(!lock.rbias());
    assert!(!lock.revocate_at(&table, 4));
    g.unlock(&mut lock, &mut table);
    let w = lock.try_write_at(&table, 5).unwrap();
    *w.value_mut(&mut lock) = 2;
    assert_eq!(w.try_sync(&mut lock), Ok(()));
}

#[test]
fn cooldown_holds_bias_off_until_deadline() {
    let mut table = VisibleReaders::new();
    let mut lock = BravoRWlock::new(0i32);
    lock.read_at(&mut table, 1, 0).unwrap().unlock(&mut lock, &mut table);
    assert!(lock.rbias());
    assert!(lock.revocate_at(&table, 100));
    assert!(!lock.rbias());
    let deadline: u64 = 100 + (1u64 << 24);
    lock.read_at(&mut table, 1, 101).unwrap().unlock(&mut lock, &mut table);
    assert!(!lock.rbias());
    lock.read_at(&mut table, 1, deadline - 1).unwrap().unlock(&mut lock, &mut table);
    assert!(!lock.rbias());
    lock.read_at(&mut table, 1, deadline).unwrap().unlock(&mut lock, &mut table);
    assert!(lock.rbias());
}

#[test]
fn revocation_deadline_saturates() {
    let mut table = VisibleReaders::new();
    let mut lock = BravoRWlock::new(0i32);
    assert!(lock.revocate_at(&table, u64::MAX - 1));
    lock.read_at(&mut table, 1, u64::MAX - 1).unwrap().unlock(&mut lock, &mut table);
    assert!(!lock.rbias());
    lock.read_at(&mut table, 1, u64::MAX).unwrap().unlock(&mut lock, &mut table);
    assert!(lock.rbias());
}

#[test]
fn each_unlock_releases_one_hold() {
    let mut table = VisibleReaders::new();
    let mut lock = BravoRWlock::new(5u32);
    lock.revocate_at(&table, 0);
    let a = lock.read_at(&mut table, 1, 1).unwrap();
    let b = lock.read_at(&mut table, 2, 2).unwrap();
    assert!(!a.is_biased() && !b.is_biased());
    a.unlock(&mut lock, &mut table);
    assert_eq!(lock.try_write_at(&table, 3).err(), Some(BravoRWlockErrorType::RWLockWLockFail));
    b.unlock(&mut lock, &mut table);
    let w = lock.try_write_at(&table, 4).unwrap();
    w.unlock(&mut lock, false);
}

#[test]
fn try_read_fails_while_writer_holds() {
    let mut table = VisibleReaders::new();
    let mut lock = BravoRWlock::new(1u8);
    let w = lock.write_at(&table, 1).unwrap();
    assert_eq!(lock.try_read_at(&mut table, 9, 2).err(), Some(BravoRWlockErrorType::RWLockRLockFail));
    assert_eq!(lock.try_read(&mut table, 9).err(), Some(BravoRWlockErrorType::RWLockRLockFail));
    assert_eq!(lock.try_write_at(&table, 2).err(), Some(BravoRWlockErrorType::RWLockWLockFail));
    *w.value_mut(&mut lock) = 4;
    w.try_sync(&mut lock).unwrap();
    let r = lock.try_read_at(&mut table, 9, 3).unwrap();
    assert_eq!(*r.value(&lock, &table), 4);
    r.unlock(&mut lock, &mut table);
}

#[test]
fn writer_proceeds_once_readers_drain() {
    let mut table = VisibleReaders::new();
    let mut lock = BravoRWlock::new(0u32);
    lock.read_at(&mut table, 1, 0).unwrap().unlock(&mut lock, &mut table);
    assert!(lock.rbias());
    let mut guards = Vec::new();
    for t in 1..4u64 {
        guards.push(lock.read_at(&mut table, t, 1).unwrap());
    }
    assert!(guards.iter().all(|g| g.is_biased()));
    assert!(lock.try_write_at(&table, 2).is_err());
    let mut now: u64 = 3;
    while let Some(g) = guards.pop() {
        g.unlock(&mut lock, &mut table);
        // readers that come back while the bias is off take the underlying lock
        let again = lock.read_at(&mut table, 1, now).unwrap();
        assert!(!again.is_biased());
        again.unlock(&mut lock, &mut table);
        now += 1;
    }
    let w = lock.try_write_at(&table, now).unwrap();
    w.unlock(&mut lock, false);
}

#[test]
fn poisoned_lock_refuses_access() {
    let mut table = VisibleReaders::new();
    let mut lock = BravoRWlock::new(1u32);
    let w = lock.write_at(&table, 1).unwrap();
    w.unlock(&mut lock, true);
    assert!(lock.is_poisoned());
    assert_eq!(lock.read_at(&mut table, 1, 2).err(), Some(BravoRWlockErrorType::RWLockRLockFail));
    assert_eq!(lock.try_read_at(&mut table, 1, 2).err(), Some(BravoRWlockErrorType::RWLockRLockFail));
    assert_eq!(lock.write_at(&table, 3).err(), Some(BravoRWlockErrorType::RWLockWLockFail));
    assert_eq!(lock.try_write(&table).err(), Some(BravoRWlockErrorType::RWLockWLockFail));
    assert!(!lock.rbias());
}

#[test]
fn get_mut_gives_direct_access() {
    let table = VisibleReaders::new();
    let mut lock = BravoRWlock::new(vec![1u8, 2]);
    lock.get_mut(&table).unwrap().push(3);
    let mut table = table;
    let r = lock.read(&mut table, 1).unwrap();
    assert_eq!(r.value(&lock, &table), &vec![1u8, 2, 3]);
    r.unlock(&mut lock, &mut table);
}

#[test]
fn identities_keep_locks_apart() {
    let mut table = VisibleReaders::new();
    let mut a = BravoRWlock::with_identity(1u32, 10);
    let mut b = BravoRWlock::with_identity(2u32, 11);
    a.read_at(&mut table, 7, 0).unwrap().unlock(&mut a, &mut table);
    let g = a.read_at(&mut table, 7, 1).unwrap();
    assert!(g.is_biased());
    let w = b.try_write_at(&table, 2).unwrap();
    w.unlock(&mut b, false);
    // a lock with the same identity waits for the other's reader
    let mut c = BravoRWlock::with_identity(3u32, 10);
    assert!(c.try_write_at(&table, 3).is_err());
    g.unlock(&mut a, &mut table);
    assert!(c.try_write_at(&table, 4).is_ok());
}

#[test]
fn equality_round_trip() {
    assert!(BravoRWlock::from(7) == BravoRWlock::from(7));
    assert!(BravoRWlock::from(7) != BravoRWlock::from(8));
    assert!(BravoRWlock::<i32>::default() == BravoRWlock::new(0));
}
