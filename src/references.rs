//! Borrow guards: tokens that stand for an outstanding read or write borrow of a
//! slot. A guard is not `Clone`, so each one is released at most once.
//!
//! A guard is released explicitly, with `release_read` or `release_write` of the
//! arena that issued it (or `release` of a projection). A guard that is dropped
//! unreleased leaves its marker on the slot until the value is disposed. Where
//! the access need not outlive one call, `Signal::with` reads without a guard
//! and `Signal::with_mut` takes and releases the write borrow in one call.
use vstd::prelude::*;
use std::marker::PhantomData;
use crate::error::Location;
use crate::storage::{SlotView, UnsyncStorage};

verus! {

/// An outstanding read borrow of the slot at `raw`, taken under `generation`.
#[derive(Debug)]
pub struct GenerationalRef<T> {
    pub(crate) raw: usize,
    pub(crate) generation: u32,
    pub(crate) borrowed_at: Location,
    pub(crate) created_at: Location,
    pub(crate) _marker: PhantomData<T>,
}

/// An outstanding write borrow of the slot at `raw`, taken under `generation`.
#[derive(Debug)]
pub struct GenerationalRefMut<T> {
    pub(crate) raw: usize,
    pub(crate) generation: u32,
    pub(crate) borrowed_at: Location,
    pub(crate) created_at: Location,
    pub(crate) _marker: PhantomData<T>,
}

impl<T> GenerationalRef<T> {
    /// The index of the borrowed slot.
    pub fn slot_index(&self) -> (r: usize)
        ensures
            r == self.slot(),
    {
        self.raw
    }

    /// The slot's generation when the borrow was taken.
    pub fn borrowed_generation(&self) -> (r: u32)
        ensures
            r == self.generation(),
    {
        self.generation
    }

    /// Where the borrow was taken.
    pub fn location(&self) -> (r: Location)
        ensures
            r == self.borrowed_at(),
    {
        self.borrowed_at
    }

    /// The index of the borrowed slot.
    pub closed spec fn slot(&self) -> usize {
        self.raw
    }

    /// The slot's generation when the borrow was taken.
    pub closed spec fn generation(&self) -> u32 {
        self.generation
    }

    /// Where the borrow was taken.
    pub closed spec fn borrowed_at(&self) -> Location {
        self.borrowed_at
    }

    pub(crate) fn new(raw: usize, generation: u32, borrowed_at: Location, created_at: Location) -> (r: Self)
        ensures
            r.slot() == raw,
            r.generation() == generation,
            r.borrowed_at() == borrowed_at,
    {
        GenerationalRef { raw, generation, borrowed_at, created_at, _marker: PhantomData }
    }
}

impl<T> GenerationalRefMut<T> {
    /// The index of the borrowed slot.
    pub fn slot_index(&self) -> (r: usize)
        ensures
            r == self.slot(),
    {
        self.raw
    }

    /// The slot's generation when the borrow was taken.
    pub fn borrowed_generation(&self) -> (r: u32)
        ensures
            r == self.generation(),
    {
        self.generation
    }

    /// Where the borrow was taken.
    pub fn location(&self) -> (r: Location)
        ensures
            r == self.borrowed_at(),
    {
        self.borrowed_at
    }

    /// The index of the borrowed slot.
    pub closed spec fn slot(&self) -> usize {
        self.raw
    }

    /// The slot's generation when the borrow was taken.
    pub closed spec fn generation(&self) -> u32 {
        self.generation
    }

    /// Where the borrow was taken.
    pub closed spec fn borrowed_at(&self) -> Location {
        self.borrowed_at
    }

    pub(crate) fn new(raw: usize, generation: u32, borrowed_at: Location, created_at: Location) -> (r: Self)
        ensures
            r.slot() == raw,
            r.generation() == generation,
            r.borrowed_at() == borrowed_at,
    {
        GenerationalRefMut { raw, generation, borrowed_at, created_at, _marker: PhantomData }
    }
}

/// A read borrow narrowed by `project` to a part of the value. It carries the
/// underlying guard, so releasing it releases the underlying borrow exactly once.
pub struct MappedRef<T, F> {
    pub(crate) guard: GenerationalRef<T>,
    pub(crate) project: F,
}

/// A write borrow narrowed by `project` to a part of the value. It carries the
/// underlying guard, so releasing it releases the underlying borrow exactly once.
pub struct MappedRefMut<T, F> {
    pub(crate) guard: GenerationalRefMut<T>,
    pub(crate) project: F,
}

impl<T> GenerationalRef<T> {
    /// Narrows this borrow to the part of the value that `project` selects.
    pub fn map<U, F: Fn(&T) -> &U>(self, project: F) -> (r: MappedRef<T, F>)
        ensures
            r.inner() == self,
            r.projection() == project,
    {
        MappedRef { guard: self, project }
    }

    /// Narrows this borrow to the part of the value that `project` selects, if
    /// it selects one; otherwise hands the borrow back unchanged.
    pub fn try_map<U, F: Fn(&T) -> Option<&U>>(self, store: &UnsyncStorage<T>, project: F) -> (r:
        Result<MappedRef<T, F>, GenerationalRef<T>>)
        requires
            self.slot() < store@.len(),
            store@[self.slot() as int].generation == self.generation(),
            store@[self.slot() as int].data is Some,
            forall|x: &T| project.requires((x,)),
        ensures
            r matches Ok(m) ==> m.inner() == self && m.projection() == project,
            r matches Err(g) ==> g == self,
            r is Ok ==> exists|p: Option<&U>|
                #[trigger] project.ensures((store.get_spec(&self),), p) && p is Some,
            r is Err ==> exists|p: Option<&U>|
                #[trigger] project.ensures((store.get_spec(&self),), p) && p is None,
    {
        let selected = project(store.get(&self));
        match selected {
            Some(_) => Ok(MappedRef { guard: self, project }),
            None => Err(self),
        }
    }
}

impl<T> GenerationalRefMut<T> {
    /// Narrows this borrow to the part of the value that `project` selects.
    pub fn map<U, F: Fn(&mut T) -> &mut U>(self, project: F) -> (r: MappedRefMut<T, F>)
        ensures
            r.inner() == self,
            r.projection() == project,
    {
        MappedRefMut { guard: self, project }
    }

    /// Narrows this borrow to the part of the value that `project` selects, if
    /// it selects one; otherwise hands the borrow back unchanged. `project` may
    /// change the value while it looks.
    pub fn try_map<U, F: Fn(&mut T) -> Option<&mut U>>(
        self,
        store: &mut UnsyncStorage<T>,
        project: F,
    ) -> (r: Result<MappedRefMut<T, F>, GenerationalRefMut<T>>)
        requires
            old(store).wf(),
            self.slot() < old(store)@.len(),
            old(store)@[self.slot() as int].generation == self.generation(),
            old(store)@[self.slot() as int].data is Some,
            forall|x: &mut T| project.requires((x,)),
        ensures
            r matches Ok(m) ==> m.inner() == self && m.projection() == project,
            r matches Err(g) ==> g == self,
            exists|x: &mut T, p: Option<&mut U>|
                *x == old(store)@[self.slot() as int].data.unwrap() && final(store)@[self.slot() as int].data
                    == Some(*final(x)) && #[trigger] project.ensures((x,), p) && (r is Ok <==> p is Some),
            final(store).wf(),
            final(store).free_list() == old(store).free_list(),
            final(store).advances_from(old(store)),
            final(store)@.len() == old(store)@.len(),
            final(store)@[self.slot() as int].data is Some,
            forall|i: int|
                0 <= i < old(store)@.len() && i != self.slot() ==> #[trigger] final(store)@[i]
                    == old(store)@[i],
            final(store)@[self.slot() as int] == (SlotView {
                data: final(store)@[self.slot() as int].data,
                ..old(store)@[self.slot() as int]
            }),
    {
        let whole = store.get_mut(&self);
        assert(project.requires((whole,)));
        let ghost before = *whole;
        let selected = project(whole);
        assert(exists|x: &mut T|
            #[trigger] project.ensures((x,), selected) && *x == before && *final(x) == *whole);
        match selected {
            Some(_) => Ok(MappedRefMut { guard: self, project }),
            None => Err(self),
        }
    }
}

impl<T, F> MappedRef<T, F> {
    /// The underlying guard this projection carries.
    pub closed spec fn inner(&self) -> GenerationalRef<T> {
        self.guard
    }

    /// The projection.
    pub closed spec fn projection(&self) -> F {
        self.project
    }

    /// The selected part of the value.
    pub fn get<'a, U>(&self, store: &'a UnsyncStorage<T>) -> (r: &'a U)
        where
            F: Fn(&T) -> &U,
        requires
            self.inner().slot() < store@.len(),
            store@[self.inner().slot() as int].generation == self.inner().generation(),
            store@[self.inner().slot() as int].data is Some,
            forall|x: &T| self.projection().requires((x,)),
        ensures
            self.projection().ensures((store.get_spec(&self.inner()),), r),
    {
        let f = &self.project;
        let whole = store.get(&self.guard);
        assert(self.projection() == self.project);
        assert(self.project.requires((whole,)));
        f(whole)
    }

    /// The selected part of the value, for a projection that may select none.
    pub fn try_get<'a, U>(&self, store: &'a UnsyncStorage<T>) -> (r: Option<&'a U>)
        where
            F: Fn(&T) -> Option<&U>,
        requires
            self.inner().slot() < store@.len(),
            store@[self.inner().slot() as int].generation == self.inner().generation(),
            store@[self.inner().slot() as int].data is Some,
            forall|x: &T| self.projection().requires((x,)),
        ensures
            self.projection().ensures((store.get_spec(&self.inner()),), r),
    {
        let f = &self.project;
        let whole = store.get(&self.guard);
        assert(self.projection() == self.project);
        assert(self.project.requires((whole,)));
        f(whole)
    }

    /// Hands back the underlying guard, ending the projection.
    pub fn into_inner(self) -> (r: GenerationalRef<T>)
        ensures
            r == self.inner(),
    {
        self.guard
    }

    /// Releases the underlying borrow.
    pub fn release(self, store: &mut UnsyncStorage<T>)
        requires
            old(store).wf(),
        ensures
            UnsyncStorage::release_read_post(*old(store), self.inner(), *final(store)),
    {
        store.release_read(self.guard)
    }
}

impl<T, F> MappedRefMut<T, F> {
    /// The underlying guard this projection carries.
    pub closed spec fn inner(&self) -> GenerationalRefMut<T> {
        self.guard
    }

    /// The projection.
    pub closed spec fn projection(&self) -> F {
        self.project
    }

    /// The selected part of the value, for writing. Only that slot's value can
    /// change through the result.
    pub fn get_mut<'a, U>(&self, store: &'a mut UnsyncStorage<T>) -> (r: &'a mut U)
        where
            F: Fn(&mut T) -> &mut U,
        requires
            old(store).wf(),
            self.inner().slot() < old(store)@.len(),
            old(store)@[self.inner().slot() as int].generation == self.inner().generation(),
            old(store)@[self.inner().slot() as int].data is Some,
            forall|x: &mut T| self.projection().requires((x,)),
        ensures
            exists|x: &mut T, p: &mut U|
                *x == old(store)@[self.inner().slot() as int].data.unwrap() && #[trigger] self.projection().ensures(
                    (x,),
                    p,
                ) && *r == *p,
            final(store).wf(),
            final(store).free_list() == old(store).free_list(),
            final(store).advances_from(old(store)),
            final(store)@.len() == old(store)@.len(),
            forall|i: int|
                0 <= i < old(store)@.len() && i != self.inner().slot() ==> #[trigger] final(store)@[i]
                    == old(store)@[i],
            final(store)@[self.inner().slot() as int].data is Some,
            final(store)@[self.inner().slot() as int] == (SlotView {
                data: final(store)@[self.inner().slot() as int].data,
                ..old(store)@[self.inner().slot() as int]
            }),
    {
        let f = &self.project;
        let whole = store.get_mut(&self.guard);
        assert(self.projection() == self.project);
        assert(self.project.requires((whole,)));
        let ghost before = *whole;
        let r = f(whole);
        assert(before == old(store)@[self.inner().slot() as int].data.unwrap());
        assert(exists|x: &mut T| #[trigger] self.projection().ensures((x,), r) && *x == before);
        r
    }

    /// The selected part of the value, for writing, for a projection that may
    /// select none. Only that slot's value can change through the result.
    pub fn try_get_mut<'a, U>(&self, store: &'a mut UnsyncStorage<T>) -> (r: Option<&'a mut U>)
        where
            F: Fn(&mut T) -> Option<&mut U>,
        requires
            old(store).wf(),
            self.inner().slot() < old(store)@.len(),
            old(store)@[self.inner().slot() as int].generation == self.inner().generation(),
            old(store)@[self.inner().slot() as int].data is Some,
            forall|x: &mut T| self.projection().requires((x,)),
        ensures
            exists|x: &mut T|
                *x == old(store)@[self.inner().slot() as int].data.unwrap() && final(store)@[self.inner().slot() as int].data
                    == Some(*final(x)) && #[trigger] self.projection().ensures((x,), r),
            final(store).wf(),
            final(store).free_list() == old(store).free_list(),
            final(store).advances_from(old(store)),
            final(store)@.len() == old(store)@.len(),
            forall|i: int|
                0 <= i < old(store)@.len() && i != self.inner().slot() ==> #[trigger] final(store)@[i]
                    == old(store)@[i],
            final(store)@[self.inner().slot() as int].data is Some,
            final(store)@[self.inner().slot() as int] == (SlotView {
                data: final(store)@[self.inner().slot() as int].data,
                ..old(store)@[self.inner().slot() as int]
            }),
    {
        let f = &self.project;
        let whole = store.get_mut(&self.guard);
        assert(self.projection() == self.project);
        assert(self.project.requires((whole,)));
        let ghost before = *whole;
        let r = f(whole);
        assert(exists|x: &mut T|
            #[trigger] self.projection().ensures((x,), r) && *x == before && *final(x) == *final(whole));
        r
    }

    /// Hands back the underlying guard, ending the projection.
    pub fn into_inner(self) -> (r: GenerationalRefMut<T>)
        ensures
            r == self.inner(),
    {
        self.guard
    }

    /// Releases the underlying borrow.
    pub fn release(self, store: &mut UnsyncStorage<T>)
        requires
            old(store).wf(),
        ensures
            UnsyncStorage::release_write_post(*old(store), self.inner(), *final(store)),
    {
        store.release_write(self.guard)
    }
}

} // verus!
