//! Signals: copyable handles to state kept in an arena, with the value-level
//! operations that state is read and changed through.
use vstd::prelude::*;
use crate::error::Location;
use crate::gen_box::{GenerationalBox, GenerationalBoxId};
use crate::storage::{SlotView, UnsyncStorage};

verus! {

/// A copyable handle to a value of type `T` kept in an arena.
pub struct Signal<T> {
    pub(crate) inner: GenerationalBox<T>,
}

impl<T> Clone for Signal<T> {
    fn clone(&self) -> (r: Self)
        ensures
            r == *self,
    {
        *self
    }
}

impl<T> Copy for Signal<T> {
}

/// The element at `index` of `v`, if there is one.
pub open spec fn element<T>(v: Seq<T>, index: int) -> Option<T> {
    if 0 <= index < v.len() {
        Some(v[index])
    } else {
        None
    }
}

impl<T> Signal<T> {
    /// The handle behind this signal.
    pub closed spec fn handle(&self) -> GenerationalBox<T> {
        self.inner
    }

    /// The signal's value, as `s` holds it.
    pub open spec fn value_in(&self, s: UnsyncStorage<T>) -> T {
        self.handle().slot_in(s).data.unwrap()
    }

    /// The signal holds a value and no write borrow of it is outstanding.
    pub open spec fn readable_in(&self, s: UnsyncStorage<T>) -> bool {
        &&& self.handle().valid_in(s)
        &&& self.handle().slot_in(s).data is Some
        &&& self.handle().slot_in(s).writer is None
    }

    /// The signal holds a value and no borrow of it is outstanding.
    pub open spec fn writable_in(&self, s: UnsyncStorage<T>) -> bool {
        &&& self.readable_in(s)
        &&& self.handle().slot_in(s).readers.len() == 0
    }

    /// `new` is `old` with the signal's value replaced by `v` and nothing else
    /// changed.
    pub open spec fn replaced(&self, old: UnsyncStorage<T>, v: T, new: UnsyncStorage<T>) -> bool {
        &&& new.wf()
        &&& new.advances_from(&old)
        &&& new.free_list() == old.free_list()
        &&& new@ == old@.update(
            self.handle().slot() as int,
            (SlotView { data: Some(v), ..self.handle().slot_in(old) }),
        )
    }

    /// A signal holding `value` in a newly claimed slot of `store`.
    pub fn new(store: &mut UnsyncStorage<T>, value: T, at: Location) -> (r: Self)
        requires
            old(store).wf(),
        ensures
            final(store).wf(),
            final(store).advances_from(old(store)),
            r.handle().live_in(*final(store)),
            r.handle().owned_by(*final(store)),
            r.writable_in(*final(store)),
            r.value_in(*final(store)) == value,
            forall|i: int|
                0 <= i < old(store)@.len() && i != r.handle().slot() ==> #[trigger] final(store)@[i]
                    == old(store)@[i],
    {
        Signal { inner: GenerationalBox::new(store, value, at) }
    }

    /// A signal over an existing handle.
    pub fn from_box(inner: GenerationalBox<T>) -> (r: Self)
        ensures
            r.handle() == inner,
    {
        Signal { inner }
    }

    /// The handle behind this signal.
    pub fn generational_box(&self) -> (r: GenerationalBox<T>)
        ensures
            r == self.handle(),
    {
        self.inner
    }

    /// The identity of the signal's handle.
    pub fn id(&self) -> (r: GenerationalBoxId)
        ensures
            r.slot() == self.handle().slot(),
            r.generation() == self.handle().generation(),
    {
        self.inner.id()
    }

    /// The signal's value.
    pub fn read<'a>(&self, store: &'a UnsyncStorage<T>) -> (r: &'a T)
        requires
            self.readable_in(*store),
        ensures
            *r == self.value_in(*store),
    {
        self.inner.peek(store)
    }

    /// Runs `f` on the signal's value.
    pub fn with<O, F: FnOnce(&T) -> O>(&self, store: &UnsyncStorage<T>, f: F) -> (r: O)
        requires
            self.readable_in(*store),
            f.requires((&self.value_in(*store),)),
        ensures
            f.ensures((&self.value_in(*store),), r),
    {
        f(self.read(store))
    }

    /// Runs `f` on the signal's value, for writing. Only the signal's value can
    /// change.
    pub fn with_mut<O, F: FnOnce(&mut T) -> O>(&self, store: &mut UnsyncStorage<T>, f: F) -> (r: O)
        requires
            old(store).wf(),
            self.writable_in(*old(store)),
            forall|x: &mut T| f.requires((x,)),
        ensures
            self.replaced(*old(store), self.value_in(*final(store)), *final(store)),
            exists|x: &mut T|
                *x == self.value_in(*old(store)) && *final(x) == self.value_in(*final(store))
                    && #[trigger] f.ensures((x,), r),
    {
        let h = self.inner;
        let g = h.write(store, h.created_at);
        let v = store.get_mut(&g);
        let ghost before = *v;
        let r = f(v);
        assert(exists|x: &mut T| #[trigger] f.ensures((x,), r) && *x == before && *final(x) == *v);
        store.release_write(g);
        proof {
            assert(final(store)@ =~= old(store)@.update(
                self.handle().slot() as int,
                (SlotView { data: Some(self.value_in(*final(store))), ..self.handle().slot_in(*old(store)) }),
            ));
        }
        r
    }

    /// Replaces the signal's value outright.
    pub fn set(&self, store: &mut UnsyncStorage<T>, value: T)
        requires
            old(store).wf(),
            self.handle().live_in(*old(store)),
        ensures
            self.replaced(*old(store), value, *final(store)),
    {
        self.inner.set(store, value)
    }

    /// Replaces the signal's value outright; there are no subscribers to notify.
    pub fn set_untracked(&self, store: &mut UnsyncStorage<T>, value: T)
        requires
            old(store).wf(),
            self.handle().live_in(*old(store)),
        ensures
            self.replaced(*old(store), value, *final(store)),
    {
        self.inner.set(store, value)
    }

    /// A clone of the signal's value.
    pub fn cloned(&self, store: &UnsyncStorage<T>) -> (r: T)
        where
            T: Clone,
        requires
            self.readable_in(*store),
        ensures
            vstd::pervasive::cloned(self.value_in(*store), r),
    {
        self.read(store).clone()
    }
}

impl<T> Signal<Vec<T>> {
    /// The element at `index` of the signal's vector, if there is one.
    pub fn get<'a>(&self, store: &'a UnsyncStorage<Vec<T>>, index: usize) -> (r: Option<&'a T>)
        requires
            self.readable_in(*store),
        ensures
            r matches Some(x) ==> element(self.value_in(*store)@, index as int) == Some(*x),
            r is None ==> element(self.value_in(*store)@, index as int) is None,
    {
        let v = self.read(store);
        if index < v.len() {
            Some(&v[index])
        } else {
            None
        }
    }

    /// The element at `index` of the signal's vector, if there is one; the result
    /// borrows only the arena, not the signal.
    pub fn get_static_ref<'a>(&self, store: &'a UnsyncStorage<Vec<T>>, index: usize) -> (r: Option<&'a T>)
        requires
            self.readable_in(*store),
        ensures
            r matches Some(x) ==> element(self.value_in(*store)@, index as int) == Some(*x),
            r is None ==> element(self.value_in(*store)@, index as int) is None,
    {
        let s = *self;
        s.get(store, index)
    }

    /// The length of the signal's vector.
    pub fn len(&self, store: &UnsyncStorage<Vec<T>>) -> (r: usize)
        requires
            self.readable_in(*store),
        ensures
            r == self.value_in(*store)@.len(),
    {
        self.read(store).len()
    }

    /// Whether the signal's vector is empty.
    pub fn is_empty(&self, store: &UnsyncStorage<Vec<T>>) -> (r: bool)
        requires
            self.readable_in(*store),
        ensures
            r == (self.value_in(*store)@.len() == 0),
    {
        self.read(store).len() == 0
    }
}

impl<T> Signal<Option<T>> {
    /// A clone of the value inside the signal's option, which must be `Some`.
    pub fn unwrap(&self, store: &UnsyncStorage<Option<T>>) -> (r: T)
        where
            T: Clone,
        requires
            self.readable_in(*store),
            self.value_in(*store) is Some,
        ensures
            vstd::pervasive::cloned(self.value_in(*store).unwrap(), r),
    {
        match self.read(store) {
            Some(v) => v.clone(),
            None => vstd::pervasive::unreached(),
        }
    }

    /// The value inside the signal's option, if there is one.
    pub fn as_ref<'a>(&self, store: &'a UnsyncStorage<Option<T>>) -> (r: Option<&'a T>)
        requires
            self.readable_in(*store),
        ensures
            r matches Some(x) ==> self.value_in(*store) == Some(*x),
            r is None ==> self.value_in(*store) is None,
    {
        match self.read(store) {
            Some(v) => Some(v),
            None => None,
        }
    }

    /// Takes the value out of the signal's option, leaving `None`.
    pub fn take(&self, store: &mut UnsyncStorage<Option<T>>) -> (r: Option<T>)
        requires
            old(store).wf(),
            self.writable_in(*old(store)),
        ensures
            r == self.value_in(*old(store)),
            self.replaced(*old(store), None, *final(store)),
    {
        let h = self.inner;
        let g = h.write(store, h.created_at);
        let v = store.get_mut(&g);
        let r = v.take();
        store.release_write(g);
        proof {
            assert(final(store)@ =~= old(store)@.update(
                self.handle().slot() as int,
                (SlotView { data: Some(None), ..self.handle().slot_in(*old(store)) }),
            ));
        }
        r
    }

    /// Puts `value` into the signal's option and returns what it held.
    pub fn replace(&self, store: &mut UnsyncStorage<Option<T>>, value: T) -> (r: Option<T>)
        requires
            old(store).wf(),
            self.writable_in(*old(store)),
        ensures
            r == self.value_in(*old(store)),
            self.replaced(*old(store), Some(value), *final(store)),
    {
        let h = self.inner;
        let g = h.write(store, h.created_at);
        let v = store.get_mut(&g);
        let r = v.take();
        *v = Some(value);
        store.release_write(g);
        proof {
            assert(final(store)@ =~= old(store)@.update(
                self.handle().slot() as int,
                (SlotView { data: Some(Some(value)), ..self.handle().slot_in(*old(store)) }),
            ));
        }
        r
    }

    /// The value inside the signal's option, after putting `default` there if
    /// the option was `None`.
    pub fn get_or_insert<'a>(&self, store: &'a mut UnsyncStorage<Option<T>>, default: T) -> (r: &'a T)
        requires
            old(store).wf(),
            self.writable_in(*old(store)),
        ensures
            self.value_in(*old(store)) is Some ==> *final(store) == *old(store) && *r
                == self.value_in(*old(store)).unwrap(),
            self.value_in(*old(store)) is None ==> self.replaced(*old(store), Some(default), *final(store))
                && *r == default,
    {
        if self.read(store).is_none() {
            self.inner.set(store, Some(default));
        }
        self.read(store).as_ref().unwrap()
    }

    /// The value inside the signal's option, after putting the result of
    /// `default` there if the option was `None`; `default` runs only then.
    pub fn get_or_insert_with<'a, F: FnOnce() -> T>(
        &self,
        store: &'a mut UnsyncStorage<Option<T>>,
        default: F,
    ) -> (r: &'a T)
        requires
            old(store).wf(),
            self.writable_in(*old(store)),
            default.requires(()),
        ensures
            self.value_in(*old(store)) is Some ==> *final(store) == *old(store) && *r
                == self.value_in(*old(store)).unwrap(),
            self.value_in(*old(store)) is None ==> default.ensures((), *r) && self.replaced(
                *old(store),
                Some(*r),
                *final(store),
            ),
    {
        if self.read(store).is_none() {
            let v = default();
            self.inner.set(store, Some(v));
        }
        self.read(store).as_ref().unwrap()
    }
}

} // verus!
