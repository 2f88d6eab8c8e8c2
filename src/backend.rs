//! One interface over both arenas, for code that does not care which one it
//! uses. Its contracts are the ones both can keep: each result is the one the
//! thread-confined operation gives on some well-formed arena, or, where another
//! thread held the lock of the thread-safe arena, a refusal that changed
//! nothing. The thread-confined arena never refuses.
use vstd::prelude::*;
use crate::error::{BorrowError, BorrowMutError, Location};
use crate::gen_box::GenerationalBox;
use crate::references::{GenerationalRef, GenerationalRefMut};
use crate::storage::UnsyncStorage;
use crate::sync::SyncStorage;

verus! {

/// A storage backend: an arena that claims slots and lends their values.
pub trait Storage<T>: Sized {
    /// The backend's own invariant.
    spec fn backend_inv(&self) -> bool;

    /// Claims a slot; `None` if the backend could not act at that moment.
    fn claim_box(&mut self, at: Location) -> (r: Option<GenerationalBox<T>>)
        requires
            old(self).backend_inv(),
        ensures
            final(self).backend_inv(),
            r matches Some(h) ==> h.created_at() == at && exists|s1: UnsyncStorage<T>, s2: UnsyncStorage<T>|
                s1.wf() && #[trigger] GenerationalBox::claim_post(s1, h, s2),
    ;

    /// Disposes the value behind `h`; `false` if the backend could not act at
    /// that moment.
    fn dispose_box(&mut self, h: GenerationalBox<T>) -> (r: bool)
        requires
            old(self).backend_inv(),
        ensures
            final(self).backend_inv(),
            r ==> exists|s1: UnsyncStorage<T>, s2: UnsyncStorage<T>|
                s1.wf() && #[trigger] h.dispose_post(s1, s2),
    ;

    /// Replaces the value behind `h`; hands `value` back if the backend could
    /// not act at that moment.
    fn set_box(&mut self, h: GenerationalBox<T>, value: T) -> (r: Result<(), T>)
        requires
            old(self).backend_inv(),
        ensures
            final(self).backend_inv(),
            r is Ok ==> exists|s1: UnsyncStorage<T>, s2: UnsyncStorage<T>|
                s1.wf() && #[trigger] h.set_post(s1, value, s2),
            r matches Err(v) ==> v == value,
    ;

    /// Takes a read borrow through `h`.
    fn try_read_box(&mut self, h: GenerationalBox<T>, at: Location) -> (r: Option<
        Result<GenerationalRef<T>, BorrowError>,
    >)
        requires
            old(self).backend_inv(),
        ensures
            final(self).backend_inv(),
            r matches Some(x) ==> exists|s1: UnsyncStorage<T>, s2: UnsyncStorage<T>|
                s1.wf() && #[trigger] h.try_read_post(s1, at, x, s2),
    ;

    /// Takes the write borrow through `h`.
    fn try_write_box(&mut self, h: GenerationalBox<T>, at: Location) -> (r: Option<
        Result<GenerationalRefMut<T>, BorrowMutError>,
    >)
        requires
            old(self).backend_inv(),
        ensures
            final(self).backend_inv(),
            r matches Some(x) ==> exists|s1: UnsyncStorage<T>, s2: UnsyncStorage<T>|
                s1.wf() && #[trigger] h.try_write_post(s1, at, x, s2),
    ;

    /// Ends a write borrow; hands the guard back if the backend could not act
    /// at that moment.
    fn release_write_box(&mut self, guard: GenerationalRefMut<T>) -> (r: Result<
        (),
        GenerationalRefMut<T>,
    >)
        requires
            old(self).backend_inv(),
        ensures
            final(self).backend_inv(),
            r is Ok ==> exists|s1: UnsyncStorage<T>, s2: UnsyncStorage<T>|
                s1.wf() && #[trigger] UnsyncStorage::release_write_post(s1, guard, s2),
            r matches Err(g) ==> g == guard,
    ;
}

impl<T> Storage<T> for UnsyncStorage<T> {
    open spec fn backend_inv(&self) -> bool {
        self.wf()
    }

    fn claim_box(&mut self, at: Location) -> (r: Option<GenerationalBox<T>>) {
        let ghost s1 = *self;
        let h = GenerationalBox::claim(self, at);
        assert(s1.wf() && GenerationalBox::claim_post(s1, h, *self));
        Some(h)
    }

    fn dispose_box(&mut self, h: GenerationalBox<T>) -> (r: bool) {
        let ghost s1 = *self;
        h.dispose(self);
        assert(s1.wf() && h.dispose_post(s1, *self));
        true
    }

    fn set_box(&mut self, h: GenerationalBox<T>, value: T) -> (r: Result<(), T>) {
        let ghost s1 = *self;
        h.set(self, value);
        assert(s1.wf() && h.set_post(s1, value, *self));
        Ok(())
    }

    fn try_read_box(&mut self, h: GenerationalBox<T>, at: Location) -> (r: Option<
        Result<GenerationalRef<T>, BorrowError>,
    >) {
        let ghost s1 = *self;
        let r = h.try_read(self, at);
        assert(s1.wf() && h.try_read_post(s1, at, r, *self));
        Some(r)
    }

    fn try_write_box(&mut self, h: GenerationalBox<T>, at: Location) -> (r: Option<
        Result<GenerationalRefMut<T>, BorrowMutError>,
    >) {
        let ghost s1 = *self;
        let r = h.try_write(self, at);
        assert(s1.wf() && h.try_write_post(s1, at, r, *self));
        Some(r)
    }

    fn release_write_box(&mut self, guard: GenerationalRefMut<T>) -> (r: Result<
        (),
        GenerationalRefMut<T>,
    >) {
        let ghost s1 = *self;
        let ghost g = guard;
        self.release_write(guard);
        assert(s1.wf() && UnsyncStorage::release_write_post(s1, g, *self));
        Ok(())
    }
}

impl<T> Storage<T> for SyncStorage<T> {
    open spec fn backend_inv(&self) -> bool {
        true
    }

    fn claim_box(&mut self, at: Location) -> (r: Option<GenerationalBox<T>>) {
        self.claim(at)
    }

    fn dispose_box(&mut self, h: GenerationalBox<T>) -> (r: bool) {
        self.dispose(h)
    }

    fn set_box(&mut self, h: GenerationalBox<T>, value: T) -> (r: Result<(), T>) {
        self.set(h, value)
    }

    fn try_read_box(&mut self, h: GenerationalBox<T>, at: Location) -> (r: Option<
        Result<GenerationalRef<T>, BorrowError>,
    >) {
        SyncStorage::try_read(self, h, at)
    }

    fn try_write_box(&mut self, h: GenerationalBox<T>, at: Location) -> (r: Option<
        Result<GenerationalRefMut<T>, BorrowMutError>,
    >) {
        SyncStorage::try_write(self, h, at)
    }

    fn release_write_box(&mut self, guard: GenerationalRefMut<T>) -> (r: Result<
        (),
        GenerationalRefMut<T>,
    >) {
        self.release_write(guard)
    }
}

} // verus!
