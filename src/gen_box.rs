//! Handles: small copyable references to a slot, valid while the slot is still
//! in the generation the handle was created under.
use vstd::prelude::*;
use std::marker::PhantomData;
use crate::error::{
    AlreadyBorrowedMutError, BorrowError, BorrowMutError, Location, ValueDroppedError,
};
use crate::references::{GenerationalRef, GenerationalRefMut};
use crate::storage::{clean_slot, SlotView, UnsyncStorage, MAX_GENERATION};

verus! {

/// A copyable handle to a value of type `T` stored in an arena.
#[derive(Debug)]
pub struct GenerationalBox<T> {
    pub(crate) raw: usize,
    pub(crate) generation: u32,
    pub(crate) created_at: Location,
    pub(crate) _marker: PhantomData<T>,
}

/// The identity of a handle: its slot and generation. Usable as a map key.
#[derive(Clone, Copy, PartialEq, Eq, Hash, Debug, Structural)]
pub struct GenerationalBoxId {
    /// The slot of the identified handle.
    pub data_ptr: usize,
    /// The generation of the identified handle.
    pub generation: u32,
}

impl GenerationalBoxId {
    /// The slot of the identified handle.
    pub open spec fn slot(&self) -> usize {
        self.data_ptr
    }

    /// The generation of the identified handle.
    pub open spec fn generation(&self) -> u32 {
        self.generation
    }

    /// The slot of the identified handle.
    pub fn data_ptr(&self) -> (r: usize)
        ensures
            r == self.slot(),
    {
        self.data_ptr
    }

    /// The generation of the identified handle.
    pub fn id_generation(&self) -> (r: u32)
        ensures
            r == self.generation(),
    {
        self.generation
    }
}

impl<T> Clone for GenerationalBox<T> {
    fn clone(&self) -> (r: Self)
        ensures
            r == *self,
    {
        *self
    }
}

impl<T> Copy for GenerationalBox<T> {
}

impl<T> GenerationalBox<T> {
    /// A handle is only ever made for a generation that can still advance.
    #[verifier::type_invariant]
    spec fn handle_inv(&self) -> bool {
        self.generation < MAX_GENERATION
    }

    /// The slot this handle refers to.
    pub closed spec fn slot(&self) -> usize {
        self.raw
    }

    /// The generation this handle was created under.
    pub closed spec fn generation(&self) -> u32 {
        self.generation
    }

    /// Where this handle was created.
    pub closed spec fn created_at(&self) -> Location {
        self.created_at
    }

    /// The handle's slot exists in `s` and is still in the handle's generation.
    pub open spec fn valid_in(&self, s: UnsyncStorage<T>) -> bool {
        self.slot() < s@.len() && s@[self.slot() as int].generation == self.generation()
    }

    /// The handle's slot as `s` holds it.
    pub open spec fn slot_in(&self, s: UnsyncStorage<T>) -> SlotView<T> {
        s@[self.slot() as int]
    }

    /// The handle was issued by `s`: its slot exists, has not gone back to an
    /// earlier generation, and was claimed in the handle's generation.
    pub open spec fn owned_by(&self, s: UnsyncStorage<T>) -> bool {
        &&& self.slot() < s@.len()
        &&& self.generation() <= s@[self.slot() as int].generation
        &&& s@[self.slot() as int].generation == self.generation() ==> s@[self.slot() as int].claimed
    }

    /// The handle's generation has been superseded in `s`: its value was
    /// disposed.
    pub open spec fn superseded_in(&self, s: UnsyncStorage<T>) -> bool {
        self.slot() < s@.len() && self.generation() < s@[self.slot() as int].generation
    }

    /// The handle is valid and its slot claimed: the value is live.
    pub open spec fn live_in(&self, s: UnsyncStorage<T>) -> bool {
        self.valid_in(s) && self.slot_in(s).claimed
    }

    /// What `claim` leaves behind: `r` is a valid handle to an empty, unborrowed
    /// slot, taken from the end of the freelist, or new when the freelist was
    /// empty or holding only a slot that cannot advance; the generation is the
    /// slot's own.
    pub open spec fn claim_post(old: UnsyncStorage<T>, r: Self, new: UnsyncStorage<T>) -> bool {
        &&& new.wf()
        &&& new.advances_from(&old)
        &&& r.valid_in(new)
        &&& r.owned_by(new)
        &&& r.slot_in(new) == clean_slot::<T>(r.generation(), true)
        &&& r.generation() < MAX_GENERATION
        &&& old.reusable() ==> {
            &&& r.slot() == old.free_list().last()
            &&& r.generation() == old@[r.slot() as int].generation
            &&& new.free_list() == old.free_list().drop_last()
            &&& new@ == old@.update(r.slot() as int, clean_slot::<T>(r.generation(), true))
        }
        &&& !old.reusable() ==> {
            &&& r.slot() == old@.len()
            &&& r.generation() == 0
            &&& new.free_list() == if old.free_list().len() > 0 {
                old.free_list().drop_last()
            } else {
                old.free_list()
            }
            &&& new@ == old@.push(clean_slot::<T>(0, true))
        }
    }

    /// What `dispose` leaves behind: a valid handle's slot moves one generation
    /// on, which makes this handle and every copy of it stale; if the value was
    /// live, the slot is also emptied, freed of borrows and put back on the
    /// freelist unless it reached the last generation. A handle that is not
    /// valid changes nothing.
    pub open spec fn dispose_post(&self, old: UnsyncStorage<T>, new: UnsyncStorage<T>) -> bool {
        &&& new.wf()
        &&& new.advances_from(&old)
        &&& self.live_in(old) ==> {
            &&& new@ == old@.update(
                self.slot() as int,
                clean_slot::<T>((self.generation() + 1) as u32, false),
            )
            &&& new.free_list() == if self.generation() + 1 < MAX_GENERATION {
                old.free_list().push(self.slot())
            } else {
                old.free_list()
            }
        }
        &&& (self.valid_in(old) && !self.slot_in(old).claimed) ==> {
            &&& new@ == old@.update(
                self.slot() as int,
                (SlotView { generation: (self.generation() + 1) as u32, ..self.slot_in(old) }),
            )
            &&& new.free_list() == old.free_list()
        }
        &&& !self.valid_in(old) ==> new@ == old@ && new.free_list() == old.free_list()
        &&& self.valid_in(old) ==> self.superseded_in(new)
        &&& self.owned_by(old) ==> self.superseded_in(new)
    }

    /// What `set` leaves behind: a live value is replaced by `value`; otherwise
    /// nothing changes.
    pub open spec fn set_post(&self, old: UnsyncStorage<T>, value: T, new: UnsyncStorage<T>) -> bool {
        &&& new.wf()
        &&& new.advances_from(&old)
        &&& new.free_list() == old.free_list()
        &&& self.live_in(old) ==> new@ == old@.update(
            self.slot() as int,
            (SlotView { data: Some(value), ..self.slot_in(old) }),
        )
        &&& !self.live_in(old) ==> new@ == old@
    }

    /// What `try_read` at `at` returns and leaves behind.
    pub open spec fn try_read_post(
        &self,
        old: UnsyncStorage<T>,
        at: Location,
        r: Result<GenerationalRef<T>, BorrowError>,
        new: UnsyncStorage<T>,
    ) -> bool {
        let s = self.slot_in(old);
        &&& new.wf()
        &&& new.advances_from(&old)
        &&& new.free_list() == old.free_list()
        &&& !self.valid_in(old) ==> r == Err::<GenerationalRef<T>, _>(
            BorrowError::Dropped(ValueDroppedError { created_at: self.created_at() }),
        ) && new@ == old@
        &&& self.valid_in(old) ==> {
            &&& s.writer matches Some(w) ==> r == Err::<GenerationalRef<T>, _>(
                BorrowError::AlreadyBorrowedMut(AlreadyBorrowedMutError { borrowed_mut_at: w }),
            ) && new@ == old@
            &&& (s.writer is None && s.data is None) ==> r == Err::<GenerationalRef<T>, _>(
                BorrowError::Dropped(ValueDroppedError { created_at: self.created_at() }),
            ) && new@ == old@
            &&& (s.writer is None && s.data is Some) ==> {
                &&& r matches Ok(g) && g.slot() == self.slot() && g.generation()
                    == self.generation() && g.borrowed_at() == at
                &&& new@ == old@.update(
                    self.slot() as int,
                    (SlotView { readers: s.readers.push(at), ..s }),
                )
            }
        }
    }

    /// What `try_write` at `at` returns and leaves behind.
    pub open spec fn try_write_post(
        &self,
        old: UnsyncStorage<T>,
        at: Location,
        r: Result<GenerationalRefMut<T>, BorrowMutError>,
        new: UnsyncStorage<T>,
    ) -> bool {
        let s = self.slot_in(old);
        &&& new.wf()
        &&& new.advances_from(&old)
        &&& new.free_list() == old.free_list()
        &&& !self.valid_in(old) ==> r == Err::<GenerationalRefMut<T>, _>(
            BorrowMutError::Dropped(ValueDroppedError { created_at: self.created_at() }),
        ) && new@ == old@
        &&& self.valid_in(old) ==> {
            &&& s.writer matches Some(w) ==> r == Err::<GenerationalRefMut<T>, _>(
                BorrowMutError::AlreadyBorrowedMut(AlreadyBorrowedMutError { borrowed_mut_at: w }),
            ) && new@ == old@
            &&& (s.writer is None && s.readers.len() > 0) ==> (r matches Err(
                BorrowMutError::AlreadyBorrowed(e),
            ) && e.borrowed_at@ == s.readers) && new@ == old@
            &&& (s.writer is None && s.readers.len() == 0 && s.data is None) ==> r
                == Err::<GenerationalRefMut<T>, _>(
                BorrowMutError::Dropped(ValueDroppedError { created_at: self.created_at() }),
            ) && new@ == old@
            &&& (s.writer is None && s.readers.len() == 0 && s.data is Some) ==> {
                &&& r matches Ok(g) && g.slot() == self.slot() && g.generation()
                    == self.generation() && g.borrowed_at() == at
                &&& new@ == old@.update(self.slot() as int, (SlotView { writer: Some(at), ..s }))
            }
        }
    }

    /// Claims a slot of `store` and returns a handle to it; the slot holds no
    /// value yet.
    pub fn claim(store: &mut UnsyncStorage<T>, at: Location) -> (r: Self)
        requires
            old(store).wf(),
        ensures
            Self::claim_post(*old(store), r, *final(store)),
            r.created_at() == at,
    {
        let raw = store.claim();
        let generation = store.generation(raw);
        GenerationalBox { raw, generation, created_at: at, _marker: PhantomData }
    }

    /// Claims a slot of `store` and stores `value` in it.
    pub fn new(store: &mut UnsyncStorage<T>, value: T, at: Location) -> (r: Self)
        requires
            old(store).wf(),
        ensures
            final(store).wf(),
            final(store).advances_from(old(store)),
            r.valid_in(*final(store)),
            r.owned_by(*final(store)),
            r.created_at() == at,
            r.slot_in(*final(store)) == (SlotView {
                data: Some(value),
                ..clean_slot::<T>(r.generation(), true)
            }),
            old(store).reusable() ==> {
                &&& r.slot() == old(store).free_list().last()
                &&& r.generation() == old(store)@[r.slot() as int].generation
                &&& final(store).free_list() == old(store).free_list().drop_last()
            },
            !old(store).reusable() ==> {
                &&& r.slot() == old(store)@.len()
                &&& r.generation() == 0
            },
            forall|i: int|
                0 <= i < old(store)@.len() && i != r.slot() ==> #[trigger] final(store)@[i]
                    == old(store)@[i],
    {
        let h = Self::claim(store, at);
        store.set(h.raw, value);
        h
    }

    /// Disposes the value: if the handle is valid, its slot moves to the next
    /// generation, which makes this handle and every copy of it stale, and a
    /// live value is dropped and its slot freed. Otherwise nothing changes.
    pub fn dispose(&self, store: &mut UnsyncStorage<T>)
        requires
            old(store).wf(),
        ensures
            self.dispose_post(*old(store), *final(store)),
    {
        proof {
            use_type_invariant(self);
        }
        if self.validate(store) {
            store.advance_generation(self.raw);
            if store.is_claimed(self.raw) {
                store.dispose(self.raw);
            }
            proof {
                if old(store)@[self.slot() as int].claimed {
                    assert(final(store)@ =~= old(store)@.update(
                        self.slot() as int,
                        clean_slot::<T>((self.generation() + 1) as u32, false),
                    ));
                }
            }
        }
    }

    /// Sets where this handle counts as created, for diagnostics.
    pub fn set_caller(&mut self, created_at: Location)
        ensures
            final(self).slot() == old(self).slot(),
            final(self).generation() == old(self).generation(),
            final(self).created_at() == created_at,
    {
        proof {
            use_type_invariant(&*self);
        }
        self.created_at = created_at;
    }

    /// Whether the handle's slot is still in the handle's generation.
    pub fn validate(&self, store: &UnsyncStorage<T>) -> (r: bool)
        ensures
            r == self.valid_in(*store),
    {
        self.raw < store.len() && store.generation(self.raw) == self.generation
    }

    /// The index of the handle's slot.
    pub fn slot_index(&self) -> (r: usize)
        ensures
            r == self.slot(),
    {
        self.raw
    }

    /// Where the handle was created.
    pub fn created_location(&self) -> (r: Location)
        ensures
            r == self.created_at(),
    {
        self.created_at
    }

    /// The generation the handle was created under.
    pub fn generation_snapshot(&self) -> (r: u32)
        ensures
            r == self.generation(),
    {
        self.generation
    }

    /// The identity of this handle.
    pub fn id(&self) -> (r: GenerationalBoxId)
        ensures
            r == (GenerationalBoxId { data_ptr: self.slot(), generation: self.generation() }),
    {
        GenerationalBoxId { data_ptr: self.raw, generation: self.generation }
    }

    /// Takes a read borrow at `at`. Fails with `Dropped` when the handle is stale
    /// or the slot holds no value, and with `AlreadyBorrowedMut` while a write
    /// borrow is outstanding.
    pub fn try_read(&self, store: &mut UnsyncStorage<T>, at: Location) -> (r: Result<
        GenerationalRef<T>,
        BorrowError,
    >)
        requires
            old(store).wf(),
        ensures
            self.try_read_post(*old(store), at, r, *final(store)),
    {
        if !self.validate(store) {
            return Err(BorrowError::Dropped(ValueDroppedError { created_at: self.created_at }));
        }
        store.try_read(self.raw, at, self.created_at)
    }

    /// Takes a read borrow at `at`; the handle must be valid, its slot must hold a
    /// value, and no write borrow may be outstanding.
    pub fn read(&self, store: &mut UnsyncStorage<T>, at: Location) -> (g: GenerationalRef<T>)
        requires
            old(store).wf(),
            self.valid_in(*old(store)),
            self.slot_in(*old(store)).writer is None,
            self.slot_in(*old(store)).data is Some,
        ensures
            final(store).wf(),
            final(store).advances_from(old(store)),
            final(store).free_list() == old(store).free_list(),
            g.slot() == self.slot(),
            g.generation() == self.generation(),
            g.borrowed_at() == at,
            final(store)@ == old(store)@.update(
                self.slot() as int,
                (SlotView {
                    readers: self.slot_in(*old(store)).readers.push(at),
                    ..self.slot_in(*old(store))
                }),
            ),
    {
        match self.try_read(store, at) {
            Ok(g) => g,
            Err(_) => vstd::pervasive::unreached(),
        }
    }

    /// Takes the write borrow at `at`. Fails with `Dropped` when the handle is
    /// stale or the slot holds no value, with `AlreadyBorrowedMut` while a write
    /// borrow is outstanding, and with `AlreadyBorrowed` while read borrows are.
    pub fn try_write(&self, store: &mut UnsyncStorage<T>, at: Location) -> (r: Result<
        GenerationalRefMut<T>,
        BorrowMutError,
    >)
        requires
            old(store).wf(),
        ensures
            self.try_write_post(*old(store), at, r, *final(store)),
    {
        if !self.validate(store) {
            return Err(BorrowMutError::Dropped(ValueDroppedError { created_at: self.created_at }));
        }
        store.try_write(self.raw, at, self.created_at)
    }

    /// Takes the write borrow at `at`; the handle must be valid, its slot must
    /// hold a value, and no borrow may be outstanding.
    pub fn write(&self, store: &mut UnsyncStorage<T>, at: Location) -> (g: GenerationalRefMut<T>)
        requires
            old(store).wf(),
            self.valid_in(*old(store)),
            self.slot_in(*old(store)).writer is None,
            self.slot_in(*old(store)).readers.len() == 0,
            self.slot_in(*old(store)).data is Some,
        ensures
            final(store).wf(),
            final(store).advances_from(old(store)),
            final(store).free_list() == old(store).free_list(),
            g.slot() == self.slot(),
            g.generation() == self.generation(),
            g.borrowed_at() == at,
            final(store)@ == old(store)@.update(
                self.slot() as int,
                (SlotView { writer: Some(at), ..self.slot_in(*old(store)) }),
            ),
    {
        match self.try_write(store, at) {
            Ok(g) => g,
            Err(_) => vstd::pervasive::unreached(),
        }
    }

    /// Replaces the value outright, if the handle is valid and its slot claimed;
    /// borrows are not consulted. Otherwise nothing changes.
    pub fn set(&self, store: &mut UnsyncStorage<T>, value: T)
        requires
            old(store).wf(),
        ensures
            self.set_post(*old(store), value, *final(store)),
    {
        if self.validate(store) {
            store.set(self.raw, value);
        }
    }

    /// Puts `value` in place of a live value and returns what was there; borrows
    /// are not consulted. Otherwise returns `None` and changes nothing.
    pub fn swap(&self, store: &mut UnsyncStorage<T>, value: T) -> (r: Option<T>)
        requires
            old(store).wf(),
        ensures
            self.set_post(*old(store), value, *final(store)),
            self.live_in(*old(store)) ==> r == self.slot_in(*old(store)).data,
            !self.live_in(*old(store)) ==> r is None,
    {
        if self.validate(store) {
            store.swap(self.raw, value)
        } else {
            None
        }
    }

    /// The value, read without recording a borrow: the shared borrow of `store`
    /// already keeps every write out while the result is in use.
    pub fn peek<'a>(&self, store: &'a UnsyncStorage<T>) -> (r: &'a T)
        requires
            self.valid_in(*store),
            self.slot_in(*store).data is Some,
        ensures
            *r == self.slot_in(*store).data.unwrap(),
    {
        let g = GenerationalRef::new(self.raw, self.generation, self.created_at, self.created_at);
        store.get(&g)
    }

    /// Whether both handles refer to the same slot under the same generation.
    pub fn ptr_eq(&self, other: &Self) -> (r: bool)
        ensures
            r == (self.slot() == other.slot() && self.generation() == other.generation()),
    {
        self.raw == other.raw && self.generation == other.generation
    }
}

} // verus!
