//! Properties of the arena that relate several operations, proved from the
//! operations' contracts.
use vstd::prelude::*;
use crate::error::{AlreadyBorrowedMutError, BorrowError, BorrowMutError, Location};
use crate::gen_box::{GenerationalBox, GenerationalBoxId};
use crate::references::{GenerationalRef, GenerationalRefMut, MappedRefMut};
use crate::storage::UnsyncStorage;

verus! {

/// Advancing is transitive: generations that only grow across two steps only
/// grow across both.
pub proof fn lemma_advances_transitive<T>(
    a: UnsyncStorage<T>,
    b: UnsyncStorage<T>,
    c: UnsyncStorage<T>,
)
    requires
        b.advances_from(&a),
        c.advances_from(&b),
    ensures
        c.advances_from(&a),
{
    assert forall|i: int| 0 <= i < a@.len() implies {
        &&& a@[i].generation <= #[trigger] c@[i].generation
        &&& (a@[i].generation == c@[i].generation && a@[i].claimed) ==> c@[i].claimed
    } by {
        assert(a@[i].generation <= b@[i].generation);
        assert(b@[i].generation <= c@[i].generation);
    }
}

/// A handle whose generation has been superseded stays superseded, and so
/// invalid, in every later state of the arena.
pub proof fn lemma_superseded_stays<T>(
    h: GenerationalBox<T>,
    s: UnsyncStorage<T>,
    later: UnsyncStorage<T>,
)
    requires
        h.superseded_in(s),
        later.advances_from(&s),
    ensures
        h.superseded_in(later),
        !h.valid_in(later),
{
    assert(s@[h.slot() as int].generation <= later@[h.slot() as int].generation);
}

/// Every handle that an arena issued stays owned by it as the arena advances.
pub proof fn lemma_owned_stays<T>(h: GenerationalBox<T>, s: UnsyncStorage<T>, later: UnsyncStorage<T>)
    requires
        h.owned_by(s),
        later.advances_from(&s),
    ensures
        h.owned_by(later),
{
    assert(s@[h.slot() as int].generation <= later@[h.slot() as int].generation);
}

/// After `dispose`, a handle the arena issued is invalid in every later state,
/// and reading or writing through it fails with `Dropped`; `read` and `write`,
/// which require a valid handle, can no longer be called with it.
pub proof fn lemma_dispose_invalidates<T>(
    h: GenerationalBox<T>,
    before: UnsyncStorage<T>,
    disposed: UnsyncStorage<T>,
    later: UnsyncStorage<T>,
    at: Location,
    read: Result<GenerationalRef<T>, BorrowError>,
    after_read: UnsyncStorage<T>,
    write: Result<GenerationalRefMut<T>, BorrowMutError>,
    after_write: UnsyncStorage<T>,
)
    requires
        before.wf(),
        h.owned_by(before),
        h.dispose_post(before, disposed),
        later.advances_from(&disposed),
        h.try_read_post(later, at, read, after_read),
        h.try_write_post(later, at, write, after_write),
    ensures
        !h.valid_in(later),
        read matches Err(BorrowError::Dropped(e)) && e.created_at == h.created_at(),
        write matches Err(BorrowMutError::Dropped(e)) && e.created_at == h.created_at(),
{
    lemma_superseded_stays(h, disposed, later);
}

/// Any number of read borrows coexist: two reads of a live value with no write
/// outstanding both succeed, and a write attempted while they are outstanding
/// fails with `AlreadyBorrowed`, naming both.
pub proof fn lemma_reads_share<T>(
    h: GenerationalBox<T>,
    s0: UnsyncStorage<T>,
    at1: Location,
    r1: Result<GenerationalRef<T>, BorrowError>,
    s1: UnsyncStorage<T>,
    at2: Location,
    r2: Result<GenerationalRef<T>, BorrowError>,
    s2: UnsyncStorage<T>,
    at3: Location,
    w: Result<GenerationalRefMut<T>, BorrowMutError>,
    s3: UnsyncStorage<T>,
)
    requires
        s0.wf(),
        h.valid_in(s0),
        h.slot_in(s0).data is Some,
        h.slot_in(s0).writer is None,
        h.try_read_post(s0, at1, r1, s1),
        h.try_read_post(s1, at2, r2, s2),
        h.try_write_post(s2, at3, w, s3),
    ensures
        r1 is Ok,
        r2 is Ok,
        w matches Err(BorrowMutError::AlreadyBorrowed(e)) && e.borrowed_at@ == h.slot_in(
            s0,
        ).readers.push(at1).push(at2),
{
}

/// A write borrow excludes every other borrow: while it is outstanding, a second
/// write fails with `AlreadyBorrowedMut` and so does a read, both naming where
/// the write was taken.
pub proof fn lemma_write_excludes<T>(
    h: GenerationalBox<T>,
    s0: UnsyncStorage<T>,
    at1: Location,
    w1: Result<GenerationalRefMut<T>, BorrowMutError>,
    s1: UnsyncStorage<T>,
    at2: Location,
    w2: Result<GenerationalRefMut<T>, BorrowMutError>,
    s2: UnsyncStorage<T>,
    at3: Location,
    r: Result<GenerationalRef<T>, BorrowError>,
    s3: UnsyncStorage<T>,
)
    requires
        s0.wf(),
        h.valid_in(s0),
        h.slot_in(s0).data is Some,
        h.slot_in(s0).writer is None,
        h.slot_in(s0).readers.len() == 0,
        h.try_write_post(s0, at1, w1, s1),
        h.try_write_post(s1, at2, w2, s2),
        h.try_read_post(s1, at3, r, s3),
    ensures
        w1 is Ok,
        w2 == Err::<GenerationalRefMut<T>, _>(
            BorrowMutError::AlreadyBorrowedMut(AlreadyBorrowedMutError { borrowed_mut_at: at1 }),
        ),
        r == Err::<GenerationalRef<T>, _>(
            BorrowError::AlreadyBorrowedMut(AlreadyBorrowedMutError { borrowed_mut_at: at1 }),
        ),
{
}

/// Disposing a live value and claiming its slot again yields a handle exactly
/// one generation later, and the old handle is invalid from then on.
pub proof fn lemma_reclaim_next_generation<T>(
    h: GenerationalBox<T>,
    s0: UnsyncStorage<T>,
    s1: UnsyncStorage<T>,
    h2: GenerationalBox<T>,
    s2: UnsyncStorage<T>,
)
    requires
        s0.wf(),
        h.live_in(s0),
        h.dispose_post(s0, s1),
        GenerationalBox::claim_post(s1, h2, s2),
        h2.slot() == h.slot(),
    ensures
        h2.generation() == h.generation() + 1,
        h.superseded_in(s2),
        !h.valid_in(s2),
{
    assert(s1@[h.slot() as int].generation == h.generation() + 1);
    lemma_superseded_stays(h, s1, s2);
}

/// Setting the value through a valid handle the arena issued, and then reading
/// it, gives back the value set.
pub proof fn lemma_set_then_read<T>(
    h: GenerationalBox<T>,
    s0: UnsyncStorage<T>,
    v: T,
    s1: UnsyncStorage<T>,
    at: Location,
    r: Result<GenerationalRef<T>, BorrowError>,
    s2: UnsyncStorage<T>,
)
    requires
        s0.wf(),
        h.owned_by(s0),
        h.valid_in(s0),
        h.slot_in(s0).writer is None,
        h.set_post(s0, v, s1),
        h.try_read_post(s1, at, r, s2),
    ensures
        r matches Ok(g) && g.slot() == h.slot() && s2@[g.slot() as int].data == Some(v),
{
}

/// Releasing a projected write borrow releases the whole borrow: a later write
/// through the same handle succeeds.
pub proof fn lemma_projection_release<T, F>(
    h: GenerationalBox<T>,
    s0: UnsyncStorage<T>,
    at1: Location,
    w1: Result<GenerationalRefMut<T>, BorrowMutError>,
    s1: UnsyncStorage<T>,
    m: MappedRefMut<T, F>,
    s2: UnsyncStorage<T>,
    at2: Location,
    w2: Result<GenerationalRefMut<T>, BorrowMutError>,
    s3: UnsyncStorage<T>,
)
    requires
        s0.wf(),
        h.try_write_post(s0, at1, w1, s1),
        w1 == Ok::<_, BorrowMutError>(m.inner()),
        UnsyncStorage::release_write_post(s1, m.inner(), s2),
        h.try_write_post(s2, at2, w2, s3),
    ensures
        w2 matches Ok(g) && g.slot() == h.slot() && g.borrowed_at() == at2,
{
}

/// A claimed slot belongs to the new handle alone: no handle the arena issued
/// before refers to the same slot under the same generation, nor is valid on it.
pub proof fn lemma_claim_is_fresh<T>(
    h: GenerationalBox<T>,
    before: UnsyncStorage<T>,
    r: GenerationalBox<T>,
    after: UnsyncStorage<T>,
)
    requires
        before.wf(),
        h.owned_by(before),
        GenerationalBox::claim_post(before, r, after),
    ensures
        !(h.slot() == r.slot() && h.generation() == r.generation()),
        h.slot() == r.slot() ==> !h.valid_in(after),
{
    if h.slot() == r.slot() {
        assert(r.slot() < before@.len());
        assert(before.reusable());
        assert(!before@[r.slot() as int].claimed);
    }
}

/// Two handles have equal ids exactly when `ptr_eq` holds of them: same slot,
/// same generation.
pub proof fn lemma_id_eq_iff_ptr_eq<T>(a: GenerationalBox<T>, b: GenerationalBox<T>)
    ensures
        ((GenerationalBoxId { data_ptr: a.slot(), generation: a.generation() }) == (
        GenerationalBoxId { data_ptr: b.slot(), generation: b.generation() }))
            <==> (a.slot() == b.slot() && a.generation() == b.generation()),
{
}

} // verus!
