//! Per-slot bookkeeping of outstanding read and write borrows.
use vstd::prelude::*;
use vstd::seq_lib::to_multiset_remove;
use crate::error::{
    AlreadyBorrowedError, AlreadyBorrowedMutError, BorrowError, BorrowMutError, Location,
};

verus! {

/// The borrow state of one slot: the call sites of the outstanding read borrows
/// and of the outstanding write borrow, if any.
pub struct MemoryLocationBorrowInfo {
    pub(crate) borrowed_at: Vec<Location>,
    pub(crate) borrowed_mut_at: Option<Location>,
}

impl MemoryLocationBorrowInfo {
    /// The call sites of the outstanding read borrows.
    pub closed spec fn readers(&self) -> Seq<Location> {
        self.borrowed_at@
    }

    /// The call site of the outstanding write borrow, if any.
    pub closed spec fn writer(&self) -> Option<Location> {
        self.borrowed_mut_at
    }

    /// A borrow state with nothing outstanding.
    pub fn new() -> (r: Self)
        ensures
            r.readers() == Seq::<Location>::empty(),
            r.writer() is None,
    {
        let r = MemoryLocationBorrowInfo { borrowed_at: Vec::new(), borrowed_mut_at: None };
        assert(r.borrowed_at@ =~= Seq::<Location>::empty());
        r
    }

    /// The error for a write borrow that conflicts with the outstanding borrows:
    /// the write borrow if there is one, else the read borrows.
    pub fn borrow_mut_error(&self) -> (r: BorrowMutError)
        ensures
            self.writer() matches Some(w) ==> r == BorrowMutError::AlreadyBorrowedMut(
                AlreadyBorrowedMutError { borrowed_mut_at: w },
            ),
            self.writer() is None ==> (r matches BorrowMutError::AlreadyBorrowed(e)
                && e.borrowed_at@ == self.readers()),
    {
        match self.borrowed_mut_at {
            Some(w) => BorrowMutError::AlreadyBorrowedMut(
                AlreadyBorrowedMutError { borrowed_mut_at: w },
            ),
            None => BorrowMutError::AlreadyBorrowed(
                AlreadyBorrowedError { borrowed_at: self.copy_readers() },
            ),
        }
    }

    /// The error for a read borrow that conflicts with the outstanding write borrow.
    pub fn borrow_error(&self) -> (r: BorrowError)
        requires
            self.writer() is Some,
        ensures
            r == BorrowError::AlreadyBorrowedMut(
                AlreadyBorrowedMutError { borrowed_mut_at: self.writer().unwrap() },
            ),
    {
        BorrowError::AlreadyBorrowedMut(
            AlreadyBorrowedMutError { borrowed_mut_at: self.borrowed_mut_at.unwrap() },
        )
    }

    fn copy_readers(&self) -> (r: Vec<Location>)
        ensures
            r@ == self.readers(),
    {
        let mut r: Vec<Location> = Vec::new();
        let mut i: usize = 0;
        while i < self.borrowed_at.len()
            invariant
                i <= self.borrowed_at.len(),
                r@ == self.borrowed_at@.subrange(0, i as int),
            decreases self.borrowed_at.len() - i,
        {
            r.push(self.borrowed_at[i]);
            i += 1;
            assert(r@ =~= self.borrowed_at@.subrange(0, i as int));
        }
        assert(r@ =~= self.borrowed_at@);
        r
    }

    /// Whether a write borrow is outstanding.
    pub fn has_writer(&self) -> (r: bool)
        ensures
            r == (self.writer() is Some),
    {
        self.borrowed_mut_at.is_some()
    }

    /// The number of outstanding read borrows.
    pub fn reader_count(&self) -> (r: usize)
        ensures
            r == self.readers().len(),
    {
        self.borrowed_at.len()
    }

    /// Records a read borrow taken at `at`.
    pub fn add_reader(&mut self, at: Location)
        ensures
            final(self).readers() == old(self).readers().push(at),
            final(self).writer() == old(self).writer(),
    {
        self.borrowed_at.push(at);
    }

    /// Records the write borrow taken at `at`.
    pub fn set_writer(&mut self, at: Location)
        ensures
            final(self).readers() == old(self).readers(),
            final(self).writer() == Some(at),
    {
        self.borrowed_mut_at = Some(at);
    }

    /// Removes one read borrow taken at `at`, if there is one.
    pub fn remove_reader(&mut self, at: Location)
        ensures
            final(self).writer() == old(self).writer(),
            final(self).readers().to_multiset() == old(self).readers().to_multiset().remove(at),
            old(self).readers().contains(at) ==> final(self).readers().len() + 1
                == old(self).readers().len(),
            !old(self).readers().contains(at) ==> final(self).readers() == old(self).readers(),
    {
        let mut i: usize = 0;
        while i < self.borrowed_at.len()
            invariant
                i <= self.borrowed_at.len(),
                self.borrowed_at@ == old(self).borrowed_at@,
                self.borrowed_mut_at == old(self).borrowed_mut_at,
                forall|j: int| 0 <= j < i ==> self.borrowed_at@[j] != at,
            decreases self.borrowed_at.len() - i,
        {
            if self.borrowed_at[i] == at {
                proof {
                    to_multiset_remove(self.borrowed_at@, i as int);
                }
                self.borrowed_at.remove(i);
                return;
            }
            i += 1;
        }
        proof {
            assert(!self.borrowed_at@.contains(at));
            self.borrowed_at@.to_multiset_ensures();
            assert(self.borrowed_at@.to_multiset().count(at) == 0);
            assert(self.borrowed_at@.to_multiset().remove(at) =~= self.borrowed_at@.to_multiset());
        }
    }

    /// Clears the write borrow.
    pub fn clear_writer(&mut self)
        ensures
            final(self).readers() == old(self).readers(),
            final(self).writer() is None,
    {
        self.borrowed_mut_at = None;
    }

    /// Clears every borrow.
    pub fn clear(&mut self)
        ensures
            final(self).readers() == Seq::<Location>::empty(),
            final(self).writer() is None,
    {
        self.borrowed_at.clear();
        self.borrowed_mut_at = None;
        assert(self.borrowed_at@ =~= Seq::<Location>::empty());
    }
}

} // verus!
