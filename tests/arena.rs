use generational_box::{
    BorrowError, BorrowMutError, GenerationalBox, Location, MemoryLocationBorrowInfo,
    UnsyncStorage,
};

fn at(line: u32) -> Location {
    Location::new(line, 1)
}

#[test]
fn new_read_write_read() {
    let mut s: UnsyncStorage<i32> = UnsyncStorage::new();
    let h = GenerationalBox::new(&mut s, 10, at(1));
    let g = h.read(&mut s, at(2));
    assert_eq!(*s.get(&g), 10);
    s.release_read(g);
    let w = h.write(&mut s, at(3));
    *s.get_mut(&w) = 20;
    s.release_write(w);
    let g = h.read(&mut s, at(4));
    assert_eq!(*s.get(&g), 20);
    s.release_read(g);
}

#[test]
fn dispose_then_try_read_is_dropped() {
    let mut s: UnsyncStorage<i32> = UnsyncStorage::new();
    let h = GenerationalBox::new(&mut s, 5, at(7));
    h.dispose(&mut s);
    match h.try_read(&mut s, at(8)) {
        Err(BorrowError::Dropped(e)) => assert_eq!(e.created_at, at(7)),
        _ => panic!("expected Dropped"),
    }
    match h.try_write(&mut s, at(9)) {
        Err(e) => assert!(e.is_dropped()),
        Ok(_) => panic!("expected Dropped"),
    }
    assert!(!h.validate(&s));
}

#[test]
fn dispose_then_claim_same_slot_next_generation() {
    let mut s: UnsyncStorage<i32> = UnsyncStorage::new();
    let h = GenerationalBox::new(&mut s, 1, at(1));
    h.dispose(&mut s);
    let h2: GenerationalBox<i32> = GenerationalBox::claim(&mut s, at(2));
    assert_eq!(h2.slot_index(), h.slot_index());
    assert_eq!(h2.generation_snapshot(), h.generation_snapshot() + 1);
    assert!(!h.validate(&s));
    assert!(h2.validate(&s));
    assert_eq!(s.len(), 1);
}

#[test]
fn stale_handle_stays_stale_after_many_cycles() {
    let mut s: UnsyncStorage<u8> = UnsyncStorage::new();
    let h = GenerationalBox::new(&mut s, 1, at(1));
    h.dispose(&mut s);
    for i in 0..10u8 {
        let other = GenerationalBox::new(&mut s, i, at(2));
        assert!(!h.validate(&s));
        other.dispose(&mut s);
    }
    assert!(!h.validate(&s));
    assert!(h.try_read(&mut s, at(3)).unwrap_err().is_dropped());
}

#[test]
fn two_reads_coexist_and_block_a_write() {
    let mut s: UnsyncStorage<String> = UnsyncStorage::new();
    let h = GenerationalBox::new(&mut s, "x".to_string(), at(1));
    let g1 = h.try_read(&mut s, at(2)).unwrap();
    let g2 = h.try_read(&mut s, at(3)).unwrap();
    assert_eq!(s.get(&g1), "x");
    assert_eq!(s.get(&g2), "x");
    match h.try_write(&mut s, at(4)) {
        Err(BorrowMutError::AlreadyBorrowed(e)) => assert_eq!(e.borrowed_at, vec![at(2), at(3)]),
        _ => panic!("expected AlreadyBorrowed"),
    }
    s.release_read(g1);
    match h.try_write(&mut s, at(5)) {
        Err(BorrowMutError::AlreadyBorrowed(e)) => assert_eq!(e.borrowed_at, vec![at(3)]),
        _ => panic!("expected AlreadyBorrowed"),
    }
    s.release_read(g2);
    let w = h.try_write(&mut s, at(6)).unwrap();
    s.release_write(w);
}

#[test]
fn write_excludes_write_and_read() {
    let mut s: UnsyncStorage<i32> = UnsyncStorage::new();
    let h = GenerationalBox::new(&mut s, 3, at(1));
    let w = h.try_write(&mut s, at(2)).unwrap();
    match h.try_write(&mut s, at(3)) {
        Err(BorrowMutError::AlreadyBorrowedMut(e)) => assert_eq!(e.borrowed_mut_at, at(2)),
        _ => panic!("expected AlreadyBorrowedMut"),
    }
    match h.try_read(&mut s, at(4)) {
        Err(BorrowError::AlreadyBorrowedMut(e)) => assert_eq!(e.borrowed_mut_at, at(2)),
        _ => panic!("expected AlreadyBorrowedMut"),
    }
    s.release_write(w);
    let g = h.try_read(&mut s, at(5)).unwrap();
    s.release_read(g);
}

#[test]
fn claimed_slot_without_value_reads_as_dropped() {
    let mut s: UnsyncStorage<i32> = UnsyncStorage::new();
    let h: GenerationalBox<i32> = GenerationalBox::claim(&mut s, at(1));
    assert!(h.validate(&s));
    assert!(h.try_read(&mut s, at(2)).unwrap_err().is_dropped());
    assert!(h.try_write(&mut s, at(3)).unwrap_err().is_dropped());
    h.set(&mut s, 4);
    let g = h.read(&mut s, at(4));
    assert_eq!(*s.get(&g), 4);
}

#[test]
fn set_then_read_round_trip() {
    let mut s: UnsyncStorage<Vec<u32>> = UnsyncStorage::new();
    let h = GenerationalBox::new(&mut s, vec![1], at(1));
    h.set(&mut s, vec![7, 8, 9]);
    let g = h.read(&mut s, at(2));
    assert_eq!(s.get(&g), &vec![7, 8, 9]);
    assert_eq!(*h.peek(&s), vec![7, 8, 9]);
}

#[test]
fn set_on_stale_handle_does_nothing() {
    let mut s: UnsyncStorage<i32> = UnsyncStorage::new();
    let h = GenerationalBox::new(&mut s, 1, at(1));
    h.dispose(&mut s);
    let h2 = GenerationalBox::new(&mut s, 2, at(2));
    h.set(&mut s, 99);
    assert_eq!(*h2.peek(&s), 2);
}

#[test]
fn dispose_twice_frees_slot_once() {
    let mut s: UnsyncStorage<i32> = UnsyncStorage::new();
    let h = GenerationalBox::new(&mut s, 1, at(1));
    h.dispose(&mut s);
    h.dispose(&mut s);
    let a = GenerationalBox::new(&mut s, 2, at(2));
    let b = GenerationalBox::new(&mut s, 3, at(3));
    assert_ne!(a.slot_index(), b.slot_index());
    assert_eq!(*a.peek(&s), 2);
    assert_eq!(*b.peek(&s), 3);
}

#[test]
fn ptr_eq_needs_same_slot_and_generation() {
    let mut s: UnsyncStorage<i32> = UnsyncStorage::new();
    let a = GenerationalBox::new(&mut s, 1, at(1));
    let copy = a;
    let b = GenerationalBox::new(&mut s, 1, at(2));
    assert!(a.ptr_eq(&copy));
    assert!(!a.ptr_eq(&b));
    a.dispose(&mut s);
    let c = GenerationalBox::new(&mut s, 1, at(3));
    assert_eq!(c.slot_index(), a.slot_index());
    assert!(!a.ptr_eq(&c));
}

#[test]
fn id_is_slot_and_generation() {
    let mut s: UnsyncStorage<i32> = UnsyncStorage::new();
    let a = GenerationalBox::new(&mut s, 1, at(1));
    let b = GenerationalBox::new(&mut s, 2, at(2));
    assert_eq!(a.id(), a.id());
    assert_ne!(a.id(), b.id());
    assert_eq!(b.id().data_ptr(), 1);
    assert_eq!(b.id().id_generation(), 0);
    a.dispose(&mut s);
    let c = GenerationalBox::new(&mut s, 3, at(3));
    assert_eq!(c.id().data_ptr(), 0);
    assert_eq!(c.id().id_generation(), 1);
    assert_ne!(a.id(), c.id());
}

#[test]
fn freelist_is_last_in_first_out() {
    let mut s: UnsyncStorage<i32> = UnsyncStorage::new();
    let a = GenerationalBox::new(&mut s, 1, at(1));
    let b = GenerationalBox::new(&mut s, 2, at(2));
    a.dispose(&mut s);
    b.dispose(&mut s);
    let c = GenerationalBox::new(&mut s, 3, at(3));
    let d = GenerationalBox::new(&mut s, 4, at(4));
    let e = GenerationalBox::new(&mut s, 5, at(5));
    assert_eq!(c.slot_index(), 1);
    assert_eq!(d.slot_index(), 0);
    assert_eq!(e.slot_index(), 2);
    assert_eq!(s.len(), 3);
    assert!(!s.is_empty());
}

#[test]
fn dispose_clears_outstanding_borrows() {
    let mut s: UnsyncStorage<i32> = UnsyncStorage::new();
    let h = GenerationalBox::new(&mut s, 1, at(1));
    let w = h.write(&mut s, at(2));
    h.dispose(&mut s);
    let h2 = GenerationalBox::new(&mut s, 2, at(3));
    s.release_write(w);
    let w2 = h2.try_write(&mut s, at(4)).unwrap();
    assert_eq!(*s.get_mut(&w2), 2);
}

#[test]
fn set_caller_changes_created_at() {
    let mut s: UnsyncStorage<i32> = UnsyncStorage::new();
    let mut h = GenerationalBox::new(&mut s, 1, at(1));
    h.set_caller(at(42));
    h.dispose(&mut s);
    match h.try_read(&mut s, at(2)) {
        Err(BorrowError::Dropped(e)) => assert_eq!(e.created_at, at(42)),
        _ => panic!("expected Dropped"),
    }
}

#[test]
fn projected_write_guard_releases_whole_borrow() {
    let mut s: UnsyncStorage<(u32, u32)> = UnsyncStorage::new();
    let h = GenerationalBox::new(&mut s, (1, 2), at(1));
    let w = h.try_write(&mut s, at(2)).unwrap();
    let m = w.map(|p: &mut (u32, u32)| &mut p.1);
    *m.get_mut(&mut s) = 20;
    m.release(&mut s);
    let w2 = h.try_write(&mut s, at(3)).unwrap();
    assert_eq!(*s.get_mut(&w2), (1, 20));
}

#[test]
fn projected_read_guard_selects_part() {
    let mut s: UnsyncStorage<(u32, String)> = UnsyncStorage::new();
    let h = GenerationalBox::new(&mut s, (1, "two".to_string()), at(1));
    let g = h.read(&mut s, at(2));
    let m = g.map(|p: &(u32, String)| &p.1);
    assert_eq!(m.get(&s), "two");
    assert!(h.try_write(&mut s, at(3)).is_err());
    m.release(&mut s);
    assert!(h.try_write(&mut s, at(4)).is_ok());
}

#[test]
fn failed_try_map_hands_guard_back() {
    let mut s: UnsyncStorage<Option<u32>> = UnsyncStorage::new();
    let h = GenerationalBox::new(&mut s, None, at(1));
    let g = h.read(&mut s, at(2));
    let back = match g.try_map(&s, |v: &Option<u32>| v.as_ref()) {
        Ok(_) => panic!("expected the guard back"),
        Err(g) => g,
    };
    assert!(h.try_write(&mut s, at(3)).is_err());
    s.release_read(back);
    assert!(h.try_write(&mut s, at(4)).is_ok());
}

#[test]
fn successful_try_map_projects() {
    let mut s: UnsyncStorage<Option<u32>> = UnsyncStorage::new();
    let h = GenerationalBox::new(&mut s, Some(9), at(1));
    let g = h.read(&mut s, at(2));
    let m = match g.try_map(&s, |v: &Option<u32>| v.as_ref()) {
        Ok(m) => m,
        Err(_) => panic!("expected a projection"),
    };
    assert_eq!(m.try_get(&s), Some(&9));
    let back = m.into_inner();
    s.release_read(back);
    assert!(h.try_write(&mut s, at(3)).is_ok());
}

#[test]
fn releasing_one_of_two_equal_markers_keeps_the_other() {
    let mut s: UnsyncStorage<i32> = UnsyncStorage::new();
    let h = GenerationalBox::new(&mut s, 1, at(1));
    let g1 = h.try_read(&mut s, at(5)).unwrap();
    let g2 = h.try_read(&mut s, at(5)).unwrap();
    s.release_read(g1);
    match h.try_write(&mut s, at(6)) {
        Err(BorrowMutError::AlreadyBorrowed(e)) => assert_eq!(e.borrowed_at, vec![at(5)]),
        _ => panic!("expected AlreadyBorrowed"),
    }
    s.release_read(g2);
    assert!(h.try_write(&mut s, at(7)).is_ok());
}

#[test]
fn error_messages() {
    let mut s: UnsyncStorage<i32> = UnsyncStorage::new();
    let h = GenerationalBox::new(&mut s, 1, at(1));
    let g = h.read(&mut s, at(2));
    let e = h.try_write(&mut s, at(3)).unwrap_err();
    assert_eq!(
        e.message(),
        "Failed to borrow mutably because the value was already borrowed immutably."
    );
    s.release_read(g);
    let w = h.write(&mut s, at(4));
    let e = h.try_read(&mut s, at(5)).unwrap_err();
    assert_eq!(e.message(), "Failed to borrow because the value was already borrowed mutably.");
    assert!(!e.is_dropped());
    s.release_write(w);
    h.dispose(&mut s);
    let e = h.try_read(&mut s, at(6)).unwrap_err();
    assert_eq!(e.message(), "Failed to borrow because the value was dropped.");
}

#[test]
fn borrow_info_errors() {
    let mut b = MemoryLocationBorrowInfo::new();
    b.add_reader(at(1));
    b.add_reader(at(2));
    match b.borrow_mut_error() {
        BorrowMutError::AlreadyBorrowed(e) => assert_eq!(e.borrowed_at, vec![at(1), at(2)]),
        _ => panic!("expected AlreadyBorrowed"),
    }
    b.remove_reader(at(1));
    assert_eq!(b.reader_count(), 1);
    b.remove_reader(at(9));
    assert_eq!(b.reader_count(), 1);
    b.clear();
    b.set_writer(at(3));
    assert!(b.has_writer());
    match b.borrow_error() {
        BorrowError::AlreadyBorrowedMut(e) => assert_eq!(e.borrowed_mut_at, at(3)),
        _ => panic!("expected AlreadyBorrowedMut"),
    }
    match b.borrow_mut_error() {
        BorrowMutError::AlreadyBorrowedMut(e) => assert_eq!(e.borrowed_mut_at, at(3)),
        _ => panic!("expected AlreadyBorrowedMut"),
    }
    b.clear_writer();
    assert!(!b.has_writer());
}

#[test]
fn write_guard_try_map() {
    let mut s: UnsyncStorage<Vec<u32>> = UnsyncStorage::new();
    let h = GenerationalBox::new(&mut s, vec![1, 2], at(1));
    let w = h.write(&mut s, at(2));
    let w = match w.try_map(&mut s, |v: &mut Vec<u32>| v.get_mut(5)) {
        Ok(_) => panic!("index 5 is out of range"),
        Err(w) => w,
    };
    let m = match w.try_map(&mut s, |v: &mut Vec<u32>| v.get_mut(1)) {
        Ok(m) => m,
        Err(_) => panic!("index 1 is in range"),
    };
    if let Some(x) = m.try_get_mut(&mut s) {
        *x = 7;
    }
    assert!(h.try_read(&mut s, at(3)).is_err());
    m.release(&mut s);
    let g = h.read(&mut s, at(4));
    assert_eq!(s.get(&g), &vec![1, 7]);
}

#[test]
fn swap_returns_previous_value() {
    let mut s: UnsyncStorage<i32> = UnsyncStorage::new();
    let h = GenerationalBox::new(&mut s, 1, at(1));
    assert_eq!(h.swap(&mut s, 2), Some(1));
    assert_eq!(*h.peek(&s), 2);
    let empty: GenerationalBox<i32> = GenerationalBox::claim(&mut s, at(2));
    assert_eq!(empty.swap(&mut s, 3), None);
    assert_eq!(*empty.peek(&s), 3);
    h.dispose(&mut s);
    assert_eq!(h.swap(&mut s, 4), None);
}

#[test]
fn dispose_through_foreign_handle_advances_free_slot() {
    let mut a: UnsyncStorage<i32> = UnsyncStorage::new();
    let mut b: UnsyncStorage<i32> = UnsyncStorage::new();
    let first = GenerationalBox::new(&mut a, 1, at(1));
    first.dispose(&mut a);
    let foreign = GenerationalBox::new(&mut a, 2, at(2));
    let own = GenerationalBox::new(&mut b, 3, at(3));
    own.dispose(&mut b);
    assert!(foreign.validate(&b));
    foreign.dispose(&mut b);
    assert!(!foreign.validate(&b));
    let next: GenerationalBox<i32> = GenerationalBox::claim(&mut b, at(4));
    assert_eq!(next.slot_index(), 0);
    assert_eq!(next.generation_snapshot(), 2);
    assert!(!foreign.ptr_eq(&next));
}

#[test]
fn ids_equal_exactly_when_ptr_eq() {
    let mut s: UnsyncStorage<i32> = UnsyncStorage::new();
    let a = GenerationalBox::new(&mut s, 1, at(1));
    let copy = a;
    let b = GenerationalBox::new(&mut s, 2, at(2));
    assert_eq!(a.id() == copy.id(), a.ptr_eq(&copy));
    assert_eq!(a.id() == b.id(), a.ptr_eq(&b));
    assert_eq!(a.id().data_ptr, 0);
    assert_eq!(b.id().generation, 0);
}
