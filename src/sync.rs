//! The thread-safe arena: the same slots, freelist and borrow markers, kept
//! behind a mutex so that handles and guards can be used from any thread.
//!
//! No operation waits: each one tries the lock once and, if it gets it, runs
//! one step of the arena and releases it; if another thread holds the lock at
//! that moment, the operation changes nothing and says so, handing back what it
//! was given. No caller code runs under the lock except `Clone` in
//! `read_cloned`.
//!
//! Other threads may act between two calls, so each operation states its result
//! relative to the arena as it found it under the lock: the result is the one
//! the thread-confined operation gives on some well-formed arena. Each step
//! below states exactly which arena it stores back.
use vstd::prelude::*;
use crate::error::{
    BorrowError, BorrowMutError, Location,
};
use crate::gen_box::GenerationalBox;
use crate::references::{GenerationalRef, GenerationalRefMut};
use crate::storage::{SlotView, UnsyncStorage};

verus! {

/// The raw lock behind `parking_lot::Mutex`, carried as an opaque type.
#[verifier::external_type_specification]
#[verifier::external_body]
pub struct ExRawMutex(parking_lot::RawMutex);

/// `lock_api::Mutex`, which `parking_lot::Mutex` names, carried as an opaque
/// type: its contents are reached only through `locked_step`.
#[verifier::external_type_specification]
#[verifier::external_body]
#[verifier::reject_recursive_types(R)]
#[verifier::reject_recursive_types(T)]
pub struct ExMutex<R, T: ?Sized>(parking_lot::lock_api::Mutex<R, T>);

/// Relies on `lock_api::Mutex::new`: the mutex holds `value` and is unlocked.
#[verifier::external_body]
fn mutex_new<T>(value: T) -> parking_lot::Mutex<T> {
    parking_lot::Mutex::new(value)
}

/// Relies on `lock_api::Mutex::try_lock`, which never blocks. When this thread
/// gets the lock, `step` runs once on what the mutex holds and on `arg`, what it
/// hands back is stored there, and the guard is dropped, which releases the
/// lock. When the lock is held elsewhere, nothing runs and `arg` comes back.
#[verifier::external_body]
fn try_locked_step<T, A, R, F: FnOnce(Option<T>, A) -> (Option<T>, R)>(
    m: &parking_lot::Mutex<Option<T>>,
    arg: A,
    step: F,
) -> (r: Result<R, A>)
    requires
        forall|v: Option<T>, a: A| step.requires((v, a)),
    ensures
        r matches Ok(x) ==> exists|v: Option<T>, w: Option<T>| #[trigger] step.ensures((v, arg), (w, x)),
        r matches Err(a) ==> a == arg,
{
    match m.try_lock() {
        Some(mut guard) => {
            let (next, r) = step(guard.take(), arg);
            *guard = next;
            Ok(r)
        },
        None => Err(arg),
    }
}

/// The arena as the mutex holds it; well-formed whenever the lock is free.
struct Arena<T> {
    store: UnsyncStorage<T>,
}

impl<T> Arena<T> {
    #[verifier::type_invariant]
    spec fn inv(&self) -> bool {
        self.store.wf()
    }
}

/// The thread-safe arena of slots holding values of type `T`. Should a value's
/// `Clone` panic inside `read_cloned`, the arena is lost and every later
/// operation refuses as if the lock were held.
#[verifier::reject_recursive_types(T)]
pub struct SyncStorage<T> {
    arena: parking_lot::Mutex<Option<Arena<T>>>,
}

/// Under the lock: claims a slot. The mutex is empty only if a step failed to
/// finish; nothing is done then.
fn claim_step<T>(held: Option<Arena<T>>, at: Location) -> (out: (Option<Arena<T>>, Option<GenerationalBox<T>>))
    ensures
        held matches Some(a) ==> a.store.wf() && (out.0 matches Some(b) && out.1 matches Some(h)
            && h.created_at() == at && GenerationalBox::claim_post(a.store, h, b.store)),
        held is None ==> out.0 is None && out.1 is None,
{
    match held {
        Some(a) => {
            proof {
                use_type_invariant(&a);
            }
            let mut store = a.store;
            let h = GenerationalBox::claim(&mut store, at);
            (Some(Arena { store }), Some(h))
        },
        None => (None, None),
    }
}

/// Under the lock: claims a slot and stores `value` in it.
fn insert_step<T>(held: Option<Arena<T>>, value: T, at: Location) -> (out: (
    Option<Arena<T>>,
    Result<GenerationalBox<T>, T>,
))
    ensures
        held matches Some(a) ==> a.store.wf() && (out.0 matches Some(b) && out.1 matches Ok(h)
            && h.created_at() == at && exists|s: UnsyncStorage<T>|
            GenerationalBox::claim_post(a.store, h, s) && #[trigger] h.set_post(s, value, b.store)),
        held is None ==> out.0 is None && out.1 == Err::<GenerationalBox<T>, T>(value),
{
    match held {
        Some(a) => {
            proof {
                use_type_invariant(&a);
            }
            let mut store = a.store;
            let ghost s0 = store;
            let h = GenerationalBox::claim(&mut store, at);
            let ghost s = store;
            h.set(&mut store, value);
            let ghost s2 = store;
            assert(GenerationalBox::claim_post(s0, h, s) && h.set_post(s, value, s2));
            let out = (Some(Arena { store }), Ok(h));
            assert(out.0 matches Some(b) && b.store == s2);
            out
        },
        None => (None, Err(value)),
    }
}

/// Under the lock: disposes the value behind `h`.
fn dispose_step<T>(held: Option<Arena<T>>, h: GenerationalBox<T>) -> (out: (Option<Arena<T>>, bool))
    ensures
        held matches Some(a) ==> a.store.wf() && (out.0 matches Some(b) && out.1 && h.dispose_post(
            a.store,
            b.store,
        )),
        held is None ==> out.0 is None && !out.1,
{
    match held {
        Some(a) => {
            proof {
                use_type_invariant(&a);
            }
            let mut store = a.store;
            h.dispose(&mut store);
            (Some(Arena { store }), true)
        },
        None => (None, false),
    }
}

/// Under the lock: replaces the value behind `h`.
fn set_step<T>(held: Option<Arena<T>>, h: GenerationalBox<T>, value: T) -> (out: (
    Option<Arena<T>>,
    Result<(), T>,
))
    ensures
        held matches Some(a) ==> a.store.wf() && (out.0 matches Some(b) && out.1 is Ok && h.set_post(
            a.store,
            value,
            b.store,
        )),
        held is None ==> out.0 is None && out.1 == Err::<(), T>(value),
{
    match held {
        Some(a) => {
            proof {
                use_type_invariant(&a);
            }
            let mut store = a.store;
            h.set(&mut store, value);
            (Some(Arena { store }), Ok(()))
        },
        None => (None, Err(value)),
    }
}

/// Under the lock: whether `h` is still in its slot's generation.
fn validate_step<T>(held: Option<Arena<T>>, h: GenerationalBox<T>) -> (out: (Option<Arena<T>>, Option<bool>))
    ensures
        held matches Some(a) ==> a.store.wf() && out.0 == held && out.1 == Some(h.valid_in(a.store)),
        held is None ==> out.0 is None && out.1 is None,
{
    match held {
        Some(a) => {
            proof {
                use_type_invariant(&a);
            }
            let r = h.validate(&a.store);
            (Some(a), Some(r))
        },
        None => (None, None),
    }
}

/// Under the lock: takes a read borrow through `h`.
fn try_read_step<T>(held: Option<Arena<T>>, h: GenerationalBox<T>, at: Location) -> (out: (
    Option<Arena<T>>,
    Option<Result<GenerationalRef<T>, BorrowError>>,
))
    ensures
        held matches Some(a) ==> a.store.wf() && (out.0 matches Some(b) && out.1 matches Some(x)
            && h.try_read_post(a.store, at, x, b.store)),
        held is None ==> out.0 is None && out.1 is None,
{
    match held {
        Some(a) => {
            proof {
                use_type_invariant(&a);
            }
            let mut store = a.store;
            let r = h.try_read(&mut store, at);
            (Some(Arena { store }), Some(r))
        },
        None => (None, None),
    }
}

/// Under the lock: takes the write borrow through `h`.
fn try_write_step<T>(held: Option<Arena<T>>, h: GenerationalBox<T>, at: Location) -> (out: (
    Option<Arena<T>>,
    Option<Result<GenerationalRefMut<T>, BorrowMutError>>,
))
    ensures
        held matches Some(a) ==> a.store.wf() && (out.0 matches Some(b) && out.1 matches Some(x)
            && h.try_write_post(a.store, at, x, b.store)),
        held is None ==> out.0 is None && out.1 is None,
{
    match held {
        Some(a) => {
            proof {
                use_type_invariant(&a);
            }
            let mut store = a.store;
            let r = h.try_write(&mut store, at);
            (Some(Arena { store }), Some(r))
        },
        None => (None, None),
    }
}

/// Under the lock: ends a read borrow.
fn release_read_step<T>(held: Option<Arena<T>>, g: GenerationalRef<T>) -> (out: (
    Option<Arena<T>>,
    Result<(), GenerationalRef<T>>,
))
    ensures
        held matches Some(a) ==> a.store.wf() && (out.0 matches Some(b) && out.1 is Ok
            && UnsyncStorage::release_read_post(a.store, g, b.store)),
        held is None ==> out.0 is None && out.1 == Err::<(), GenerationalRef<T>>(g),
{
    match held {
        Some(a) => {
            proof {
                use_type_invariant(&a);
            }
            let mut store = a.store;
            store.release_read(g);
            (Some(Arena { store }), Ok(()))
        },
        None => (None, Err(g)),
    }
}

/// Under the lock: ends a write borrow.
fn release_write_step<T>(held: Option<Arena<T>>, g: GenerationalRefMut<T>) -> (out: (
    Option<Arena<T>>,
    Result<(), GenerationalRefMut<T>>,
))
    ensures
        held matches Some(a) ==> a.store.wf() && (out.0 matches Some(b) && out.1 is Ok
            && UnsyncStorage::release_write_post(a.store, g, b.store)),
        held is None ==> out.0 is None && out.1 == Err::<(), GenerationalRefMut<T>>(g),
{
    match held {
        Some(a) => {
            proof {
                use_type_invariant(&a);
            }
            let mut store = a.store;
            store.release_write(g);
            (Some(Arena { store }), Ok(()))
        },
        None => (None, Err(g)),
    }
}

/// Under the lock: a clone of the value behind a read guard, if its slot still
/// holds one in the guard's generation.
fn read_cloned_step<T: Clone>(held: Option<Arena<T>>, g: &GenerationalRef<T>) -> (out: (
    Option<Arena<T>>,
    Option<T>,
))
    ensures
        held matches Some(a) ==> {
            &&& a.store.wf()
            &&& out.0 == held
            &&& a.store.holds_value(g.slot(), g.generation()) ==> (out.1 matches Some(x)
                && vstd::pervasive::cloned(a.store@[g.slot() as int].data.unwrap(), x))
            &&& !a.store.holds_value(g.slot(), g.generation()) ==> out.1 is None
        },
        held is None ==> out.0 is None && out.1 is None,
{
    match held {
        Some(a) => {
            proof {
                use_type_invariant(&a);
            }
            let raw = g.slot_index();
            if raw < a.store.len() && a.store.generation(raw) == g.borrowed_generation()
                && a.store.has_value(raw) {
                let x = a.store.get(g).clone();
                (Some(a), Some(x))
            } else {
                (Some(a), None)
            }
        },
        None => (None, None),
    }
}

/// Under the lock: puts `value` behind a write guard and returns what was
/// there, if the guard's slot still holds a value in the guard's generation.
fn replace_step<T>(held: Option<Arena<T>>, g: &GenerationalRefMut<T>, value: T) -> (out: (
    Option<Arena<T>>,
    Result<T, T>,
))
    ensures
        held matches Some(a) ==> {
            &&& a.store.wf()
            &&& a.store.holds_value(g.slot(), g.generation()) ==> (out.1 == Ok::<T, T>(
                a.store@[g.slot() as int].data.unwrap(),
            ) && (out.0 matches Some(b) && b.store.wf() && b.store.free_list() == a.store.free_list()
                && b.store@ == a.store@.update(
                g.slot() as int,
                (SlotView { data: Some(value), ..a.store@[g.slot() as int] }),
            )))
            &&& !a.store.holds_value(g.slot(), g.generation()) ==> out.1 == Err::<T, T>(value)
                && out.0 == held
        },
        held is None ==> out.0 is None && out.1 == Err::<T, T>(value),
{
    match held {
        Some(a) => {
            proof {
                use_type_invariant(&a);
            }
            let raw = g.slot_index();
            if raw < a.store.len() && a.store.generation(raw) == g.borrowed_generation()
                && a.store.has_value(raw) {
                let mut store = a.store;
                match store.swap(raw, value) {
                    Some(previous) => (Some(Arena { store }), Ok(previous)),
                    None => vstd::pervasive::unreached(),
                }
            } else {
                (Some(a), Err(value))
            }
        },
        None => (None, Err(value)),
    }
}

impl<T> SyncStorage<T> {
    /// An empty arena.
    pub fn new() -> (r: Self) {
        SyncStorage { arena: mutex_new(Some(Arena { store: UnsyncStorage::new() })) }
    }

    /// Claims a slot and returns a handle to it; the slot holds no value yet.
    /// `None` if another thread held the lock at that moment.
    pub fn claim(&self, at: Location) -> (r: Option<GenerationalBox<T>>)
        ensures
            r matches Some(h) ==> h.created_at() == at && exists|s1: UnsyncStorage<T>, s2: UnsyncStorage<T>|
                s1.wf() && #[trigger] GenerationalBox::claim_post(s1, h, s2),
    {
        let step = (move |held: Option<Arena<T>>, unit: ()| -> (out: (
            Option<Arena<T>>,
            Option<GenerationalBox<T>>,
        ))
            ensures
                held matches Some(a) ==> a.store.wf() && (out.0 matches Some(b) && out.1 matches Some(h)
                    && h.created_at() == at && GenerationalBox::claim_post(a.store, h, b.store)),
                held is None ==> out.0 is None && out.1 is None,
            { claim_step(held, at) });
        match try_locked_step(&self.arena, (), step) {
            Ok(r) => r,
            Err(_) => None,
        }
    }

    /// Claims a slot and stores `value` in it. Hands `value` back if another
    /// thread held the lock at that moment.
    pub fn insert(&self, value: T, at: Location) -> (r: Result<GenerationalBox<T>, T>)
        ensures
            r matches Ok(h) ==> h.created_at() == at && exists|
                s1: UnsyncStorage<T>,
                s2: UnsyncStorage<T>,
                s3: UnsyncStorage<T>,
            |
                s1.wf() && #[trigger] GenerationalBox::claim_post(s1, h, s2) && #[trigger] h.set_post(
                    s2,
                    value,
                    s3,
                ),
            r matches Err(v) ==> v == value,
    {
        let step = (move |held: Option<Arena<T>>, value: T| -> (out: (
            Option<Arena<T>>,
            Result<GenerationalBox<T>, T>,
        ))
            ensures
                held matches Some(a) ==> a.store.wf() && (out.0 matches Some(b) && out.1 matches Ok(h)
                    && h.created_at() == at && exists|s: UnsyncStorage<T>|
                    GenerationalBox::claim_post(a.store, h, s) && #[trigger] h.set_post(s, value, b.store)),
                held is None ==> out.0 is None && out.1 == Err::<GenerationalBox<T>, T>(value),
            { insert_step(held, value, at) });
        match try_locked_step(&self.arena, value, step) {
            Ok(r) => r,
            Err(v) => Err(v),
        }
    }

    /// Disposes the value behind `h`, as `GenerationalBox::dispose` does.
    /// `false` if another thread held the lock at that moment and nothing was
    /// done.
    pub fn dispose(&self, h: GenerationalBox<T>) -> (r: bool)
        ensures
            r ==> exists|s1: UnsyncStorage<T>, s2: UnsyncStorage<T>|
                s1.wf() && #[trigger] h.dispose_post(s1, s2),
    {
        let step = (move |held: Option<Arena<T>>, unit: ()| -> (out: (Option<Arena<T>>, bool))
            ensures
                held matches Some(a) ==> a.store.wf() && (out.0 matches Some(b) && out.1 && h.dispose_post(
                    a.store,
                    b.store,
                )),
                held is None ==> out.0 is None && !out.1,
            { dispose_step(held, h) });
        match try_locked_step(&self.arena, (), step) {
            Ok(done) => done,
            Err(_) => false,
        }
    }

    /// Replaces the value behind `h`, as `GenerationalBox::set` does. Hands
    /// `value` back if another thread held the lock at that moment.
    pub fn set(&self, h: GenerationalBox<T>, value: T) -> (r: Result<(), T>)
        ensures
            r is Ok ==> exists|s1: UnsyncStorage<T>, s2: UnsyncStorage<T>|
                s1.wf() && #[trigger] h.set_post(s1, value, s2),
            r matches Err(v) ==> v == value,
    {
        let step = (move |held: Option<Arena<T>>, value: T| -> (out: (Option<Arena<T>>, Result<(), T>))
            ensures
                held matches Some(a) ==> a.store.wf() && (out.0 matches Some(b) && out.1 is Ok
                    && h.set_post(a.store, value, b.store)),
                held is None ==> out.0 is None && out.1 == Err::<(), T>(value),
            { set_step(held, h, value) });
        match try_locked_step(&self.arena, value, step) {
            Ok(r) => r,
            Err(v) => Err(v),
        }
    }

    /// Whether `h` is still in its slot's generation; `None` if another thread
    /// held the lock at that moment.
    pub fn validate(&self, h: GenerationalBox<T>) -> (r: Option<bool>)
        ensures
            r matches Some(b) ==> exists|s: UnsyncStorage<T>| s.wf() && b == #[trigger] h.valid_in(s),
    {
        let step = (move |held: Option<Arena<T>>, unit: ()| -> (out: (Option<Arena<T>>, Option<bool>))
            ensures
                held matches Some(a) ==> a.store.wf() && out.0 == held && out.1 == Some(h.valid_in(a.store)),
                held is None ==> out.0 is None && out.1 is None,
            { validate_step(held, h) });
        match try_locked_step(&self.arena, (), step) {
            Ok(r) => r,
            Err(_) => None,
        }
    }

    /// Takes a read borrow through `h`, as `GenerationalBox::try_read` does; `None`
    /// if another thread held the lock at that moment, in which case nothing
    /// changed and the call can be made again.
    pub fn try_read(&self, h: GenerationalBox<T>, at: Location) -> (r: Option<Result<GenerationalRef<T>, BorrowError>>)
        ensures
            r matches Some(x) ==> exists|s1: UnsyncStorage<T>, s2: UnsyncStorage<T>|
                s1.wf() && #[trigger] h.try_read_post(s1, at, x, s2),
    {
        let step = (move |held: Option<Arena<T>>, unit: ()| -> (out: (
            Option<Arena<T>>,
            Option<Result<GenerationalRef<T>, BorrowError>>,
        ))
            ensures
                held matches Some(a) ==> a.store.wf() && (out.0 matches Some(b) && out.1 matches Some(x)
                    && h.try_read_post(a.store, at, x, b.store)),
                held is None ==> out.0 is None && out.1 is None,
            { try_read_step(held, h, at) });
        match try_locked_step(&self.arena, (), step) {
            Ok(r) => r,
            Err(_) => None,
        }
    }

    /// Takes the write borrow through `h`, as `GenerationalBox::try_write` does; `None`
    /// if another thread held the lock at that moment, in which case nothing
    /// changed and the call can be made again.
    pub fn try_write(&self, h: GenerationalBox<T>, at: Location) -> (r: Option<Result<GenerationalRefMut<T>, BorrowMutError>>)
        ensures
            r matches Some(x) ==> exists|s1: UnsyncStorage<T>, s2: UnsyncStorage<T>|
                s1.wf() && #[trigger] h.try_write_post(s1, at, x, s2),
    {
        let step = (move |held: Option<Arena<T>>, unit: ()| -> (out: (
            Option<Arena<T>>,
            Option<Result<GenerationalRefMut<T>, BorrowMutError>>,
        ))
            ensures
                held matches Some(a) ==> a.store.wf() && (out.0 matches Some(b) && out.1 matches Some(x)
                    && h.try_write_post(a.store, at, x, b.store)),
                held is None ==> out.0 is None && out.1 is None,
            { try_write_step(held, h, at) });
        match try_locked_step(&self.arena, (), step) {
            Ok(r) => r,
            Err(_) => None,
        }
    }

    /// Ends a read borrow. Hands the guard back if another thread held the lock
    /// at that moment, so that the release can be tried again.
    pub fn release_read(&self, guard: GenerationalRef<T>) -> (r: Result<(), GenerationalRef<T>>)
        ensures
            r is Ok ==> exists|s1: UnsyncStorage<T>, s2: UnsyncStorage<T>|
                s1.wf() && #[trigger] UnsyncStorage::release_read_post(s1, guard, s2),
            r matches Err(g) ==> g == guard,
    {
        let step = (move |held: Option<Arena<T>>, g: GenerationalRef<T>| -> (out: (Option<Arena<T>>, Result<(), GenerationalRef<T>>))
            ensures
                held matches Some(a) ==> a.store.wf() && (out.0 matches Some(b) && out.1 is Ok
                    && UnsyncStorage::release_read_post(a.store, g, b.store)),
                held is None ==> out.0 is None && out.1 == Err::<(), GenerationalRef<T>>(g),
            { release_read_step(held, g) });
        match try_locked_step(&self.arena, guard, step) {
            Ok(r) => r,
            Err(g) => Err(g),
        }
    }

    /// Ends a write borrow. Hands the guard back if another thread held the lock
    /// at that moment, so that the release can be tried again.
    pub fn release_write(&self, guard: GenerationalRefMut<T>) -> (r: Result<(), GenerationalRefMut<T>>)
        ensures
            r is Ok ==> exists|s1: UnsyncStorage<T>, s2: UnsyncStorage<T>|
                s1.wf() && #[trigger] UnsyncStorage::release_write_post(s1, guard, s2),
            r matches Err(g) ==> g == guard,
    {
        let step = (move |held: Option<Arena<T>>, g: GenerationalRefMut<T>| -> (out: (Option<Arena<T>>, Result<(), GenerationalRefMut<T>>))
            ensures
                held matches Some(a) ==> a.store.wf() && (out.0 matches Some(b) && out.1 is Ok
                    && UnsyncStorage::release_write_post(a.store, g, b.store)),
                held is None ==> out.0 is None && out.1 == Err::<(), GenerationalRefMut<T>>(g),
            { release_write_step(held, g) });
        match try_locked_step(&self.arena, guard, step) {
            Ok(r) => r,
            Err(g) => Err(g),
        }
    }

    /// A clone of the value behind a read guard; `None` if the guard's slot no
    /// longer holds a value in the guard's generation, or if another thread held
    /// the lock at that moment.
    pub fn read_cloned(&self, guard: &GenerationalRef<T>) -> (r: Option<T>)
        where
            T: Clone,
        ensures
            r matches Some(x) ==> exists|s: UnsyncStorage<T>|
                s.wf() && #[trigger] s.holds_value(guard.slot(), guard.generation())
                    && vstd::pervasive::cloned(s@[guard.slot() as int].data.unwrap(), x),
    {
        let step = (move |held: Option<Arena<T>>, g: &GenerationalRef<T>| -> (out: (Option<Arena<T>>, Option<T>))
            ensures
                held matches Some(a) ==> {
                    &&& a.store.wf()
                    &&& out.0 == held
                    &&& a.store.holds_value(g.slot(), g.generation()) ==> (out.1 matches Some(x)
                        && vstd::pervasive::cloned(a.store@[g.slot() as int].data.unwrap(), x))
                    &&& !a.store.holds_value(g.slot(), g.generation()) ==> out.1 is None
                },
                held is None ==> out.0 is None && out.1 is None,
            { read_cloned_step(held, g) });
        match try_locked_step(&self.arena, guard, step) {
            Ok(r) => r,
            Err(_) => None,
        }
    }

    /// Puts `value` behind a write guard and returns what was there. Hands
    /// `value` back if the guard's slot no longer holds a value in the guard's
    /// generation, or if another thread held the lock at that moment.
    pub fn replace(&self, guard: &GenerationalRefMut<T>, value: T) -> (r: Result<T, T>)
        ensures
            r matches Ok(x) ==> exists|s1: UnsyncStorage<T>, s2: UnsyncStorage<T>|
                s1.wf() && #[trigger] s1.holds_value(guard.slot(), guard.generation()) && x
                    == s1@[guard.slot() as int].data.unwrap() && s2.wf() && #[trigger] s2@ == s1@.update(
                    guard.slot() as int,
                    (SlotView { data: Some(value), ..s1@[guard.slot() as int] }),
                ),
            r matches Err(v) ==> v == value,
    {
        let step = (move |held: Option<Arena<T>>, value: T| -> (out: (Option<Arena<T>>, Result<T, T>))
            ensures
                held matches Some(a) ==> {
                    &&& a.store.wf()
                    &&& a.store.holds_value(guard.slot(), guard.generation()) ==> (out.1 == Ok::<T, T>(
                        a.store@[guard.slot() as int].data.unwrap(),
                    ) && (out.0 matches Some(b) && b.store.wf() && b.store.free_list() == a.store.free_list()
                        && b.store@ == a.store@.update(
                        guard.slot() as int,
                        (SlotView { data: Some(value), ..a.store@[guard.slot() as int] }),
                    )))
                    &&& !a.store.holds_value(guard.slot(), guard.generation()) ==> out.1 == Err::<T, T>(value)
                        && out.0 == held
                },
                held is None ==> out.0 is None && out.1 == Err::<T, T>(value),
            { replace_step(held, guard, value) });
        match try_locked_step(&self.arena, value, step) {
            Ok(r) => r,
            Err(v) => Err(v),
        }
    }
}

} // verus!
