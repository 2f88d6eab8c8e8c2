//! The thread-confined arena: a table of reusable slots and a freelist.
//!
//! Slots are never removed from the table; a disposed slot goes back on the
//! freelist under a generation one higher than before. A slot whose generation
//! reaches `u32::MAX` is retired instead, so that no generation is ever reused.
use vstd::prelude::*;
use crate::borrow::MemoryLocationBorrowInfo;
use crate::error::{
    AlreadyBorrowedMutError, BorrowError, BorrowMutError, Location, ValueDroppedError,
};
use crate::references::{GenerationalRef, GenerationalRefMut};

verus! {

/// The largest generation; a slot that reaches it is never reused.
pub const MAX_GENERATION: u32 = 0xffff_ffff;

/// One slot of the arena.
pub struct MemoryLocation<T> {
    pub(crate) data: Option<T>,
    pub(crate) generation: u32,
    pub(crate) claimed: bool,
    pub(crate) borrow: MemoryLocationBorrowInfo,
}

/// What a slot holds, as a mathematical value.
pub struct SlotView<T> {
    /// The value, if the slot is live and initialised.
    pub data: Option<T>,
    /// The slot's current generation.
    pub generation: u32,
    /// The slot has been handed out by `claim` and not disposed since.
    pub claimed: bool,
    /// Call sites of the outstanding read borrows.
    pub readers: Seq<Location>,
    /// Call site of the outstanding write borrow.
    pub writer: Option<Location>,
}

/// A slot as it is when it sits on the freelist or has just been claimed.
pub open spec fn clean_slot<T>(generation: u32, claimed: bool) -> SlotView<T> {
    SlotView { data: None, generation, claimed, readers: Seq::empty(), writer: None }
}

/// The per-slot part of the arena's invariant.
pub open spec fn slot_wf<T>(s: SlotView<T>) -> bool {
    &&& !s.claimed ==> (s.data is None && s.readers.len() == 0 && s.writer is None)
    &&& (s.readers.len() == 0 || s.writer is None)
}

impl<T> MemoryLocation<T> {
    /// The slot as a mathematical value.
    pub closed spec fn view(&self) -> SlotView<T> {
        SlotView {
            data: self.data,
            generation: self.generation,
            claimed: self.claimed,
            readers: self.borrow.readers(),
            writer: self.borrow.writer(),
        }
    }
}

/// The thread-confined arena of slots holding values of type `T`.
pub struct UnsyncStorage<T> {
    slots: Vec<MemoryLocation<T>>,
    free: Vec<usize>,
}

impl<T> UnsyncStorage<T> {
    /// The slots, in the order they were created.
    pub closed spec fn view(&self) -> Seq<SlotView<T>> {
        self.slots@.map_values(|s: MemoryLocation<T>| s@)
    }

    /// The freelist; `claim` takes from its end.
    pub closed spec fn free_list(&self) -> Seq<usize> {
        self.free@
    }

    /// The arena's invariant: the freelist holds distinct unclaimed slots,
    /// unclaimed slots are empty, and no slot is read and written
    /// at once.
    pub open spec fn wf(&self) -> bool {
        &&& self.free_list().no_duplicates()
        &&& forall|k: int|
            0 <= k < self.free_list().len() ==> {
                let i = #[trigger] self.free_list()[k];
                &&& i < self@.len()
                &&& !self@[i as int].claimed
            }
        &&& forall|i: int| 0 <= i < self@.len() ==> slot_wf(#[trigger] self@[i])
    }

    /// Generations never go back, slots are never removed, and a slot claimed in
    /// a generation stays claimed until its generation moves on.
    pub open spec fn advances_from(&self, old: &Self) -> bool {
        &&& old@.len() <= self@.len()
        &&& forall|i: int|
            0 <= i < old@.len() ==> {
                &&& old@[i].generation <= #[trigger] self@[i].generation
                &&& (old@[i].generation == self@[i].generation && old@[i].claimed)
                    ==> self@[i].claimed
            }
    }

    proof fn lemma_view(&self)
        ensures
            self@.len() == self.slots@.len(),
            forall|i: int| 0 <= i < self@.len() ==> #[trigger] self@[i] == self.slots@[i]@,
    {
    }

    /// An empty arena.
    pub fn new() -> (r: Self)
        ensures
            r.wf(),
            r@.len() == 0,
            r.free_list().len() == 0,
    {
        let r = UnsyncStorage { slots: Vec::new(), free: Vec::new() };
        assert(r@ =~= Seq::empty());
        r
    }

    /// The number of slots ever created.
    pub fn len(&self) -> (r: usize)
        ensures
            r == self@.len(),
    {
        self.slots.len()
    }

    /// Whether no slot was ever created.
    pub fn is_empty(&self) -> (r: bool)
        ensures
            r == (self@.len() == 0),
    {
        self.slots.len() == 0
    }

    /// The current generation of slot `raw`.
    pub fn generation(&self, raw: usize) -> (r: u32)
        requires
            raw < self@.len(),
        ensures
            r == self@[raw as int].generation,
    {
        self.slots[raw].generation
    }

    /// Whether slot `raw` is claimed.
    pub fn is_claimed(&self, raw: usize) -> (r: bool)
        requires
            raw < self@.len(),
        ensures
            r == self@[raw as int].claimed,
    {
        proof {
            self.lemma_view();
        }
        self.slots[raw].claimed
    }

    /// Whether slot `raw` holds a value.
    pub fn has_value(&self, raw: usize) -> (r: bool)
        requires
            raw < self@.len(),
        ensures
            r == (self@[raw as int].data is Some),
    {
        proof {
            self.lemma_view();
        }
        self.slots[raw].data.is_some()
    }

    /// Slot `slot` exists, is in generation `generation` and holds a value.
    pub open spec fn holds_value(&self, slot: usize, generation: u32) -> bool {
        &&& slot < self@.len()
        &&& self@[slot as int].generation == generation
        &&& self@[slot as int].data is Some
    }

    /// An identity for slot `raw`: its index in the table, which never changes.
    pub fn data_ptr(&self, raw: usize) -> (r: usize)
        ensures
            r == raw,
    {
        raw
    }

    /// The slot at the end of the freelist can be handed out again.
    pub open spec fn reusable(&self) -> bool {
        self.free_list().len() > 0 && self@[self.free_list().last() as int].generation < MAX_GENERATION
    }

    /// Takes the slot at the end of the freelist, or creates one when there is
    /// none that can still advance (a slot at `MAX_GENERATION` taken off the end
    /// is dropped from the freelist). The slot comes back claimed, empty and free
    /// of borrows, below `MAX_GENERATION`.
    pub(crate) fn claim(&mut self) -> (raw: usize)
        requires
            old(self).wf(),
        ensures
            final(self).wf(),
            final(self).advances_from(old(self)),
            raw < final(self)@.len(),
            final(self)@[raw as int] == clean_slot::<T>(final(self)@[raw as int].generation, true),
            final(self)@[raw as int].generation < MAX_GENERATION,
            old(self).reusable() ==> {
                &&& raw == old(self).free_list().last()
                &&& final(self).free_list() == old(self).free_list().drop_last()
                &&& final(self)@ == old(self)@.update(
                    raw as int,
                    clean_slot::<T>(old(self)@[raw as int].generation, true),
                )
            },
            !old(self).reusable() ==> {
                &&& raw == old(self)@.len()
                &&& final(self).free_list() == if old(self).free_list().len() > 0 {
                    old(self).free_list().drop_last()
                } else {
                    old(self).free_list()
                }
                &&& final(self)@ == old(self)@.push(clean_slot::<T>(0, true))
            },
    {
        proof {
            self.lemma_view();
        }
        if let Some(raw) = self.free.pop() {
            proof {
                assert(old(self).free_list()[old(self).free_list().len() - 1] == raw);
                assert(slot_wf(old(self)@[raw as int]));
                assert(old(self)@[raw as int].readers =~= Seq::<Location>::empty());
                assert forall|k: int| 0 <= k < self.free_list().len() implies
                    #[trigger] self.free_list()[k] != raw by {
                    assert(old(self).free_list()[k] == self.free_list()[k]);
                    assert(old(self).free_list().no_duplicates());
                }
            }
            if self.slots[raw].generation < MAX_GENERATION {
                self.slots[raw].claimed = true;
                proof {
                    assert(self@ =~= old(self)@.update(
                        raw as int,
                        clean_slot::<T>(old(self)@[raw as int].generation, true),
                    ));
                }
                return raw;
            }
        }
        let ghost mid = *self;
        let raw = self.slots.len();
        self.slots.push(
            MemoryLocation {
                data: None,
                generation: 0,
                claimed: true,
                borrow: MemoryLocationBorrowInfo::new(),
            },
        );
        proof {
            assert(mid@ == old(self)@);
            assert(self@ =~= old(self)@.push(clean_slot::<T>(0, true)));
        }
        raw
    }

    /// Moves slot `raw` to the next generation, which makes every handle of its
    /// current generation stale; value, borrows and freelist stay. Nothing
    /// changes if the slot is already at `MAX_GENERATION`.
    pub(crate) fn advance_generation(&mut self, raw: usize)
        requires
            old(self).wf(),
            raw < old(self)@.len(),
        ensures
            final(self).wf(),
            final(self).advances_from(old(self)),
            final(self).free_list() == old(self).free_list(),
            old(self)@[raw as int].generation < MAX_GENERATION ==> final(self)@ == old(self)@.update(
                raw as int,
                (SlotView {
                    generation: (old(self)@[raw as int].generation + 1) as u32,
                    ..old(self)@[raw as int]
                }),
            ),
            old(self)@[raw as int].generation == MAX_GENERATION ==> final(self)@ == old(self)@,
    {
        proof {
            self.lemma_view();
        }
        if self.slots[raw].generation < MAX_GENERATION {
            self.slots[raw].generation = self.slots[raw].generation + 1;
            proof {
                assert(self@ =~= old(self)@.update(
                    raw as int,
                    (SlotView {
                        generation: (old(self)@[raw as int].generation + 1) as u32,
                        ..old(self)@[raw as int]
                    }),
                ));
            }
        }
    }

    /// Clears claimed slot `raw`: drops its value, forgets its borrows and puts
    /// it back on the freelist, unless its generation has reached
    /// `MAX_GENERATION`, which retires it. The generation is left as it is: the
    /// caller advances it first, so that no handle of the old lifetime outlives
    /// the slot's return to the freelist. Nothing changes if the slot is
    /// unclaimed.
    pub(crate) fn dispose(&mut self, raw: usize)
        requires
            old(self).wf(),
            raw < old(self)@.len(),
        ensures
            final(self).wf(),
            final(self)@.len() == old(self)@.len(),
            old(self)@[raw as int].claimed ==> {
                &&& final(self)@ == old(self)@.update(
                    raw as int,
                    clean_slot::<T>(old(self)@[raw as int].generation, false),
                )
                &&& final(self).free_list() == if old(self)@[raw as int].generation
                    < MAX_GENERATION {
                    old(self).free_list().push(raw)
                } else {
                    old(self).free_list()
                }
            },
            !old(self)@[raw as int].claimed ==> final(self)@ == old(self)@ && final(self).free_list()
                == old(self).free_list(),
    {
        proof {
            self.lemma_view();
        }
        if !self.slots[raw].claimed {
            return;
        }
        let generation = self.slots[raw].generation;
        self.slots[raw].data = None;
        self.slots[raw].claimed = false;
        self.slots[raw].borrow.clear();
        proof {
            assert(self@ =~= old(self)@.update(raw as int, clean_slot::<T>(generation, false)));
            assert forall|k: int| 0 <= k < self.free_list().len() implies
                #[trigger] self.free_list()[k] != raw by {
                assert(old(self)@[self.free_list()[k] as int].claimed == false);
            }
        }
        if generation < MAX_GENERATION {
            self.free.push(raw);
        }
    }

    /// Stores `value` in slot `raw`, if it is claimed, replacing what it held.
    pub(crate) fn set(&mut self, raw: usize, value: T)
        requires
            old(self).wf(),
            raw < old(self)@.len(),
        ensures
            final(self).wf(),
            final(self).advances_from(old(self)),
            final(self).free_list() == old(self).free_list(),
            old(self)@[raw as int].claimed ==> final(self)@ == old(self)@.update(
                raw as int,
                (SlotView { data: Some(value), ..old(self)@[raw as int] }),
            ),
            !old(self)@[raw as int].claimed ==> final(self)@ == old(self)@,
    {
        if self.slots[raw].claimed {
            self.slots[raw].data = Some(value);
            proof {
                assert(self@ =~= old(self)@.update(
                    raw as int,
                    (SlotView { data: Some(value), ..old(self)@[raw as int] }),
                ));
            }
        }
    }

    /// Puts `value` in slot `raw`, if it is claimed, and returns what it held;
    /// otherwise returns `None` and changes nothing.
    pub(crate) fn swap(&mut self, raw: usize, value: T) -> (r: Option<T>)
        requires
            old(self).wf(),
            raw < old(self)@.len(),
        ensures
            final(self).wf(),
            final(self).advances_from(old(self)),
            final(self).free_list() == old(self).free_list(),
            old(self)@[raw as int].claimed ==> r == old(self)@[raw as int].data && final(self)@
                == old(self)@.update(
                raw as int,
                (SlotView { data: Some(value), ..old(self)@[raw as int] }),
            ),
            !old(self)@[raw as int].claimed ==> r is None && final(self)@ == old(self)@,
    {
        proof {
            self.lemma_view();
        }
        if self.slots[raw].claimed {
            let r = self.slots[raw].data.take();
            self.slots[raw].data = Some(value);
            proof {
                assert(self@ =~= old(self)@.update(
                    raw as int,
                    (SlotView { data: Some(value), ..old(self)@[raw as int] }),
                ));
            }
            r
        } else {
            None
        }
    }

    /// Takes a read borrow of slot `raw` at `at`. Fails with `AlreadyBorrowedMut`
    /// while a write borrow is outstanding, and with `Dropped` (carrying
    /// `created_at`) when the slot holds no value.
    pub(crate) fn try_read(&mut self, raw: usize, at: Location, created_at: Location) -> (r: Result<
        GenerationalRef<T>,
        BorrowError,
    >)
        requires
            old(self).wf(),
            raw < old(self)@.len(),
        ensures
            final(self).wf(),
            final(self).advances_from(old(self)),
            final(self).free_list() == old(self).free_list(),
            old(self)@[raw as int].writer matches Some(w) ==> r == Err::<GenerationalRef<T>, _>(
                BorrowError::AlreadyBorrowedMut(AlreadyBorrowedMutError { borrowed_mut_at: w }),
            ) && final(self)@ == old(self)@,
            (old(self)@[raw as int].writer is None && old(self)@[raw as int].data is None) ==> r
                == Err::<GenerationalRef<T>, _>(
                BorrowError::Dropped(ValueDroppedError { created_at }),
            ) && final(self)@ == old(self)@,
            (old(self)@[raw as int].writer is None && old(self)@[raw as int].data is Some) ==> {
                &&& r matches Ok(g) && g.slot() == raw && g.generation()
                    == old(self)@[raw as int].generation && g.borrowed_at() == at
                &&& final(self)@ == old(self)@.update(
                    raw as int,
                    (SlotView { readers: old(self)@[raw as int].readers.push(at), ..old(self)@[raw as int] }),
                )
            },
    {
        proof {
            self.lemma_view();
        }
        if self.slots[raw].borrow.has_writer() {
            return Err(self.slots[raw].borrow.borrow_error());
        }
        if self.slots[raw].data.is_none() {
            return Err(BorrowError::Dropped(ValueDroppedError { created_at }));
        }
        self.slots[raw].borrow.add_reader(at);
        proof {
            assert(self@ =~= old(self)@.update(
                raw as int,
                (SlotView { readers: old(self)@[raw as int].readers.push(at), ..old(self)@[raw as int] }),
            ));
            assert(slot_wf(old(self)@[raw as int]));
        }
        Ok(GenerationalRef::new(raw, self.slots[raw].generation, at, created_at))
    }

    /// Takes the write borrow of slot `raw` at `at`. Fails with
    /// `AlreadyBorrowedMut` while a write borrow is outstanding, with
    /// `AlreadyBorrowed` while read borrows are, and with `Dropped` (carrying
    /// `created_at`) when the slot holds no value.
    pub(crate) fn try_write(&mut self, raw: usize, at: Location, created_at: Location) -> (r: Result<
        GenerationalRefMut<T>,
        BorrowMutError,
    >)
        requires
            old(self).wf(),
            raw < old(self)@.len(),
        ensures
            final(self).wf(),
            final(self).advances_from(old(self)),
            final(self).free_list() == old(self).free_list(),
            old(self)@[raw as int].writer matches Some(w) ==> r == Err::<GenerationalRefMut<T>, _>(
                BorrowMutError::AlreadyBorrowedMut(AlreadyBorrowedMutError { borrowed_mut_at: w }),
            ) && final(self)@ == old(self)@,
            (old(self)@[raw as int].writer is None && old(self)@[raw as int].readers.len() > 0) ==> (
            r matches Err(BorrowMutError::AlreadyBorrowed(e)) && e.borrowed_at@ == old(self)@[raw as int].readers)
                && final(self)@ == old(self)@,
            (old(self)@[raw as int].writer is None && old(self)@[raw as int].readers.len() == 0
                && old(self)@[raw as int].data is None) ==> r == Err::<GenerationalRefMut<T>, _>(
                BorrowMutError::Dropped(ValueDroppedError { created_at }),
            ) && final(self)@ == old(self)@,
            (old(self)@[raw as int].writer is None && old(self)@[raw as int].readers.len() == 0
                && old(self)@[raw as int].data is Some) ==> {
                &&& r matches Ok(g) && g.slot() == raw && g.generation()
                    == old(self)@[raw as int].generation && g.borrowed_at() == at
                &&& final(self)@ == old(self)@.update(
                    raw as int,
                    (SlotView { writer: Some(at), ..old(self)@[raw as int] }),
                )
            },
    {
        proof {
            self.lemma_view();
        }
        if self.slots[raw].borrow.has_writer() || self.slots[raw].borrow.reader_count() > 0 {
            return Err(self.slots[raw].borrow.borrow_mut_error());
        }
        if self.slots[raw].data.is_none() {
            return Err(BorrowMutError::Dropped(ValueDroppedError { created_at }));
        }
        self.slots[raw].borrow.set_writer(at);
        proof {
            assert(self@ =~= old(self)@.update(
                raw as int,
                (SlotView { writer: Some(at), ..old(self)@[raw as int] }),
            ));
        }
        Ok(GenerationalRefMut::new(raw, self.slots[raw].generation, at, created_at))
    }

    /// What releasing a read guard leaves behind: if the guard's slot is still in
    /// the guard's generation, one read marker taken at the guard's call site is
    /// removed from it; nothing else changes.
    pub open spec fn release_read_post(old: Self, guard: GenerationalRef<T>, new: Self) -> bool {
        &&& new.wf()
        &&& new.advances_from(&old)
        &&& new.free_list() == old.free_list()
        &&& new@.len() == old@.len()
        &&& (guard.slot() < old@.len() && old@[guard.slot() as int].generation == guard.generation())
            ==> {
            let s = old@[guard.slot() as int];
            let n = new@[guard.slot() as int];
            &&& n.data == s.data && n.generation == s.generation && n.claimed == s.claimed
            &&& n.writer == s.writer
            &&& n.readers.to_multiset() == s.readers.to_multiset().remove(guard.borrowed_at())
            &&& s.readers.contains(guard.borrowed_at()) ==> n.readers.len() + 1 == s.readers.len()
            &&& forall|i: int| 0 <= i < old@.len() && i != guard.slot() ==> new@[i] == old@[i]
        }
        &&& !(guard.slot() < old@.len() && old@[guard.slot() as int].generation
            == guard.generation()) ==> new@ == old@
    }

    /// What releasing a write guard leaves behind: if the guard's slot is still in
    /// the guard's generation, its write marker is cleared; nothing else changes.
    pub open spec fn release_write_post(old: Self, guard: GenerationalRefMut<T>, new: Self) -> bool {
        &&& new.wf()
        &&& new.advances_from(&old)
        &&& new.free_list() == old.free_list()
        &&& (guard.slot() < old@.len() && old@[guard.slot() as int].generation == guard.generation())
            ==> new@ == old@.update(
            guard.slot() as int,
            (SlotView { writer: None, ..old@[guard.slot() as int] }),
        )
        &&& !(guard.slot() < old@.len() && old@[guard.slot() as int].generation
            == guard.generation()) ==> new@ == old@
    }

    /// Ends a read borrow: removes one read marker taken at the guard's call site,
    /// if the guard's slot is still in the guard's generation.
    pub fn release_read(&mut self, guard: GenerationalRef<T>)
        requires
            old(self).wf(),
        ensures
            Self::release_read_post(*old(self), guard, *final(self)),
    {
        let raw = guard.slot_index();
        proof {
            self.lemma_view();
        }
        if raw < self.slots.len() && self.slots[raw].generation == guard.borrowed_generation() {
            proof {
                assert(slot_wf(old(self)@[raw as int]));
            }
            self.slots[raw].borrow.remove_reader(guard.location());
            proof {
                let s = old(self)@[raw as int];
                let n = self@[raw as int];
                if !s.readers.contains(guard.borrowed_at()) {
                    assert(n.readers == s.readers);
                }
                if n.readers.len() > 0 && s.readers.len() == 0 {
                    assert(false);
                }
                assert forall|i: int| 0 <= i < self@.len() implies slot_wf(#[trigger] self@[i]) by {
                    assert(self@[i] == self.slots@[i]@);
                    if i != raw {
                        assert(self@[i] == old(self)@[i]);
                    }
                }
            }
        }
    }

    /// Ends a write borrow: clears the write marker, if the guard's slot is still
    /// in the guard's generation.
    pub fn release_write(&mut self, guard: GenerationalRefMut<T>)
        requires
            old(self).wf(),
        ensures
            Self::release_write_post(*old(self), guard, *final(self)),
    {
        let raw = guard.slot_index();
        proof {
            self.lemma_view();
        }
        if raw < self.slots.len() && self.slots[raw].generation == guard.borrowed_generation() {
            self.slots[raw].borrow.clear_writer();
            proof {
                assert(self@ =~= old(self)@.update(
                    raw as int,
                    (SlotView { writer: None, ..old(self)@[raw as int] }),
                ));
                assert(slot_wf(old(self)@[raw as int]));
            }
        }
    }

    /// The value behind a guard for slot `raw`, as a specification.
    pub open spec fn get_spec(&self, guard: &GenerationalRef<T>) -> &T {
        &self@[guard.slot() as int].data.unwrap()
    }

    /// The value behind a read guard.
    pub fn get(&self, guard: &GenerationalRef<T>) -> (r: &T)
        requires
            guard.slot() < self@.len(),
            self@[guard.slot() as int].generation == guard.generation(),
            self@[guard.slot() as int].data is Some,
        ensures
            *r == self@[guard.slot() as int].data.unwrap(),
            r == self.get_spec(guard),
    {
        proof {
            self.lemma_view();
        }
        self.slots[guard.slot_index()].data.as_ref().unwrap()
    }

    /// The value behind a write guard, for writing.
    pub fn get_mut(&mut self, guard: &GenerationalRefMut<T>) -> (r: &mut T)
        requires
            old(self).wf(),
            guard.slot() < old(self)@.len(),
            old(self)@[guard.slot() as int].generation == guard.generation(),
            old(self)@[guard.slot() as int].data is Some,
        ensures
            *r == old(self)@[guard.slot() as int].data.unwrap(),
            final(self).wf(),
            final(self).advances_from(old(self)),
            final(self).free_list() == old(self).free_list(),
            final(self)@ == old(self)@.update(
                guard.slot() as int,
                (SlotView { data: Some(*final(r)), ..old(self)@[guard.slot() as int] }),
            ),
    {
        let raw = guard.slot_index();
        proof {
            self.lemma_view();
        }
        let r = self.slots[raw].data.as_mut().unwrap();
        proof {
            assert(after_borrow(self)@ =~= old(self)@.update(
                raw as int,
                (SlotView { data: Some(*final(r)), ..old(self)@[raw as int] }),
            ));
        }
        r
    }
}

} // verus!
