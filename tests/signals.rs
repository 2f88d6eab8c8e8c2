use generational_box::{GlobalMemo, GlobalSignal, Location, Signal, UnsyncStorage};

fn at() -> Location {
    Location::new(1, 1)
}

#[test]
fn signal_vec_get() {
    let mut s: UnsyncStorage<Vec<u32>> = UnsyncStorage::new();
    let sig = Signal::new(&mut s, vec![10, 20, 30], at());
    assert_eq!(sig.get(&s, 1), Some(&20));
    assert_eq!(sig.get(&s, 3), None);
    assert_eq!(sig.get_static_ref(&s, 0), Some(&10));
    assert_eq!(sig.len(&s), 3);
    assert!(!sig.is_empty(&s));
}

#[test]
fn signal_option_take_replace() {
    let mut s: UnsyncStorage<Option<String>> = UnsyncStorage::new();
    let sig = Signal::new(&mut s, Some("a".to_string()), at());
    assert_eq!(sig.unwrap(&s), "a");
    assert_eq!(sig.as_ref(&s), Some(&"a".to_string()));
    assert_eq!(sig.replace(&mut s, "b".to_string()), Some("a".to_string()));
    assert_eq!(sig.take(&mut s), Some("b".to_string()));
    assert_eq!(sig.as_ref(&s), None);
    assert_eq!(sig.take(&mut s), None);
}

#[test]
fn signal_get_or_insert() {
    let mut s: UnsyncStorage<Option<u32>> = UnsyncStorage::new();
    let sig = Signal::new(&mut s, None, at());
    assert_eq!(*sig.get_or_insert(&mut s, 5), 5);
    assert_eq!(*sig.get_or_insert(&mut s, 6), 5);
    let other = Signal::new(&mut s, None, at());
    assert_eq!(*other.get_or_insert_with(&mut s, || 7), 7);
    assert_eq!(*other.get_or_insert_with(&mut s, || 8), 7);
}

#[test]
fn signal_with_and_with_mut() {
    let mut s: UnsyncStorage<Vec<u32>> = UnsyncStorage::new();
    let sig = Signal::new(&mut s, vec![1, 2], at());
    sig.with_mut(&mut s, |v: &mut Vec<u32>| v.push(3));
    assert_eq!(sig.with(&s, |v: &Vec<u32>| v.len()), 3);
    sig.set(&mut s, vec![]);
    assert!(sig.is_empty(&s));
    sig.set_untracked(&mut s, vec![4]);
    assert_eq!(sig.cloned(&s), vec![4]);
    assert_eq!(sig.read(&s), &vec![4]);
}

#[test]
fn signal_id_matches_handle() {
    let mut s: UnsyncStorage<u8> = UnsyncStorage::new();
    let a = Signal::new(&mut s, 1, at());
    let b = Signal::new(&mut s, 2, at());
    assert_eq!(a.id(), a.generational_box().id());
    assert_ne!(a.id(), b.id());
}

#[test]
fn global_signal_initializes_once() {
    let mut s: UnsyncStorage<u32> = UnsyncStorage::new();
    let mut g = GlobalSignal::new(|| 41u32);
    assert_eq!(g.cloned(&mut s), 41);
    g.set(&mut s, 42);
    assert_eq!(g.cloned(&mut s), 42);
    assert_eq!(g.with(&mut s, |v: &u32| *v + 1), 43);
    g.with_mut(&mut s, |v: &mut u32| *v = 50);
    assert_eq!(g.cloned(&mut s), 50);
    g.set_untracked(&mut s, 51);
    assert_eq!(g.cloned(&mut s), 51);
    let id = g.id(&mut s);
    assert_eq!(id, g.id(&mut s));
    assert_eq!(s.len(), 1);
}

#[test]
fn global_signal_keeps_its_signal_after_dispose() {
    let mut s: UnsyncStorage<u32> = UnsyncStorage::new();
    let mut g = GlobalSignal::new(|| 1u32);
    g.set(&mut s, 9);
    let first = g.signal(&mut s);
    first.generational_box().dispose(&mut s);
    let again = g.signal(&mut s);
    assert_eq!(again.id(), first.id());
    assert!(!again.generational_box().validate(&s));
    assert_eq!(s.len(), 1);
}

#[test]
fn global_signal_toggle() {
    let mut s: UnsyncStorage<bool> = UnsyncStorage::new();
    let mut g = GlobalSignal::new(|| false);
    g.toggle(&mut s);
    assert!(g.cloned(&mut s));
    g.toggle(&mut s);
    assert!(!g.cloned(&mut s));
}

#[test]
fn global_signal_option_methods() {
    let mut s: UnsyncStorage<Option<u32>> = UnsyncStorage::new();
    let mut g = GlobalSignal::new(|| Some(3u32));
    assert_eq!(g.unwrap(&mut s), 3);
    assert_eq!(g.replace(&mut s, 4), Some(3));
    assert_eq!(g.take(&mut s), Some(4));
    assert_eq!(g.take(&mut s), None);
    let mut fresh = GlobalSignal::new(|| Some(8u32));
    assert_eq!(fresh.take(&mut s), Some(8));
}

#[test]
fn global_memo_reads() {
    let mut s: UnsyncStorage<u64> = UnsyncStorage::new();
    let mut m = GlobalMemo::new(|| 6u64 * 7);
    assert_eq!(m.cloned(&mut s), 42);
    assert_eq!(m.with(&mut s, |v: &u64| *v / 2), 21);
    assert_eq!(m.id(&mut s), m.signal(&mut s).id());
    let mut o: UnsyncStorage<Option<u64>> = UnsyncStorage::new();
    let mut mo = GlobalMemo::new(|| Some(5u64));
    assert_eq!(mo.unwrap(&mut o), 5);
}

#[test]
fn global_signal_read_peek_get() {
    let mut s: UnsyncStorage<Vec<u32>> = UnsyncStorage::new();
    let mut g = GlobalSignal::new(|| vec![3u32, 4]);
    assert_eq!(g.read(&mut s), &vec![3, 4]);
    assert_eq!(g.peek(&mut s), &vec![3, 4]);
    assert_eq!(g.get(&mut s, 1), Some(&4));
    assert_eq!(g.get(&mut s, 2), None);
    let mut m = GlobalMemo::new(|| vec![9u32]);
    assert_eq!(m.read(&mut s), &vec![9]);
    assert_eq!(m.peek(&mut s), &vec![9]);
    assert_eq!(m.get(&mut s, 0), Some(&9));
    assert_eq!(m.get(&mut s, 5), None);
}

#[test]
fn global_signal_option_refs() {
    let mut s: UnsyncStorage<Option<u32>> = UnsyncStorage::new();
    let mut g = GlobalSignal::new(|| None);
    assert_eq!(g.as_ref(&mut s), None);
    assert_eq!(*g.get_or_insert(&mut s, 2), 2);
    assert_eq!(*g.get_or_insert(&mut s, 3), 2);
    assert_eq!(g.as_ref(&mut s), Some(&2));
    let mut h = GlobalSignal::new(|| None);
    assert_eq!(*h.get_or_insert_with(&mut s, || 5), 5);
    assert_eq!(*h.get_or_insert_with(&mut s, || 6), 5);
    let mut m = GlobalMemo::new(|| Some(1u32));
    assert_eq!(m.as_ref(&mut s), Some(&1));
}
