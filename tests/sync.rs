use generational_box::{
    BorrowError, BorrowMutError, GenerationalBox, Location, Storage, SyncStorage, UnsyncStorage,
};

fn at(line: u32) -> Location {
    Location::new(line, 0)
}

#[test]
fn sync_new_read_write() {
    let s: SyncStorage<i32> = SyncStorage::new();
    let h = s.insert(10, at(1)).unwrap();
    let g = s.try_read(h, at(2)).unwrap().unwrap();
    assert_eq!(s.read_cloned(&g), Some(10));
    assert!(s.release_read(g).is_ok());
    let w = s.try_write(h, at(3)).unwrap().unwrap();
    assert_eq!(s.replace(&w, 20), Ok(10));
    assert!(s.release_write(w).is_ok());
    let g = s.try_read(h, at(4)).unwrap().unwrap();
    assert_eq!(s.read_cloned(&g), Some(20));
    assert!(s.release_read(g).is_ok());
}

#[test]
fn sync_write_conflict_then_retry() {
    let s: SyncStorage<String> = SyncStorage::new();
    let h = s.insert("v".to_string(), at(1)).unwrap();
    let held = s.try_write(h, at(2)).unwrap().unwrap();
    match s.try_write(h, at(3)).unwrap() {
        Err(BorrowMutError::AlreadyBorrowedMut(e)) => assert_eq!(e.borrowed_mut_at, at(2)),
        _ => panic!("expected AlreadyBorrowedMut"),
    }
    match s.try_read(h, at(4)).unwrap() {
        Err(BorrowError::AlreadyBorrowedMut(e)) => assert_eq!(e.borrowed_mut_at, at(2)),
        _ => panic!("expected AlreadyBorrowedMut"),
    }
    assert!(s.release_write(held).is_ok());
    let w = s.try_write(h, at(5)).unwrap().unwrap();
    assert!(s.release_write(w).is_ok());
}

#[test]
fn sync_dispose_and_reclaim() {
    let s: SyncStorage<u8> = SyncStorage::new();
    let h = s.insert(1, at(1)).unwrap();
    assert_eq!(s.validate(h), Some(true));
    assert!(s.dispose(h));
    assert_eq!(s.validate(h), Some(false));
    assert!(s.try_read(h, at(2)).unwrap().unwrap_err().is_dropped());
    let h2 = s.claim(at(3)).unwrap();
    assert_eq!(h2.slot_index(), h.slot_index());
    assert_eq!(h2.generation_snapshot(), h.generation_snapshot() + 1);
    assert!(s.try_read(h2, at(4)).unwrap().unwrap_err().is_dropped());
    assert!(s.set(h2, 5).is_ok());
    let g = s.try_read(h2, at(5)).unwrap().unwrap();
    assert_eq!(s.read_cloned(&g), Some(5));
}

#[test]
fn sync_stale_guard_reads_nothing() {
    let s: SyncStorage<u8> = SyncStorage::new();
    let h = s.insert(1, at(1)).unwrap();
    let g = s.try_read(h, at(2)).unwrap().unwrap();
    let w_stale = {
        let w = s.try_write(h, at(3)).unwrap();
        assert!(w.is_err());
        w
    };
    assert!(w_stale.is_err());
    assert!(s.dispose(h));
    assert_eq!(s.read_cloned(&g), None);
    assert!(s.release_read(g).is_ok());
}

#[test]
fn sync_replace_through_stale_guard_hands_value_back() {
    let s: SyncStorage<u8> = SyncStorage::new();
    let h = s.insert(1, at(1)).unwrap();
    let w = s.try_write(h, at(2)).unwrap().unwrap();
    assert!(s.dispose(h));
    assert_eq!(s.replace(&w, 9), Err(9));
    let h2 = s.insert(2, at(3)).unwrap();
    assert_eq!(h2.slot_index(), h.slot_index());
    assert_eq!(s.replace(&w, 9), Err(9));
    assert!(s.release_write(w).is_ok());
}

#[test]
fn sync_two_readers_block_writer() {
    let s: SyncStorage<u8> = SyncStorage::new();
    let h = s.insert(1, at(1)).unwrap();
    let a = s.try_read(h, at(2)).unwrap().unwrap();
    let b = s.try_read(h, at(3)).unwrap().unwrap();
    match s.try_write(h, at(4)).unwrap() {
        Err(BorrowMutError::AlreadyBorrowed(e)) => assert_eq!(e.borrowed_at, vec![at(2), at(3)]),
        _ => panic!("expected AlreadyBorrowed"),
    }
    assert!(s.release_read(a).is_ok());
    assert!(s.release_read(b).is_ok());
    assert!(s.try_write(h, at(5)).unwrap().is_ok());
}

fn claim_set_write_dispose<S: Storage<u32>>(s: &mut S) -> GenerationalBox<u32> {
    let h = s.claim_box(at(1)).unwrap();
    assert!(s.set_box(h, 3).is_ok());
    let w = s.try_write_box(h, at(2)).unwrap().unwrap();
    match s.try_write_box(h, at(3)).unwrap() {
        Err(BorrowMutError::AlreadyBorrowedMut(e)) => assert_eq!(e.borrowed_mut_at, at(2)),
        _ => panic!("expected AlreadyBorrowedMut"),
    }
    assert!(s.release_write_box(w).is_ok());
    assert!(s.try_read_box(h, at(4)).unwrap().is_ok());
    assert!(s.dispose_box(h));
    assert!(s.try_read_box(h, at(5)).unwrap().unwrap_err().is_dropped());
    h
}

#[test]
fn both_backends_behave_alike() {
    let mut unsync: UnsyncStorage<u32> = UnsyncStorage::new();
    let mut sync: SyncStorage<u32> = SyncStorage::new();
    let a = claim_set_write_dispose(&mut unsync);
    let b = claim_set_write_dispose(&mut sync);
    assert_eq!(a.slot_index(), b.slot_index());
    assert_eq!(a.generation_snapshot(), b.generation_snapshot());
    assert!(!a.validate(&unsync));
    assert_eq!(sync.validate(b), Some(false));
}
