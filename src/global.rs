//! Globals: values defined by an initializer and created in an arena on first
//! use. A global keeps the signal it created and creates a new one only if that
//! signal's value has been disposed.
use vstd::prelude::*;
use crate::error::Location;
use crate::gen_box::GenerationalBoxId;
use crate::signal::{element, Signal};
use crate::storage::UnsyncStorage;

verus! {

/// A global value: `initializer` gives its first value, on first use.
pub struct GlobalSignal<T, F> {
    initializer: F,
    signal: Option<Signal<T>>,
}

/// A global computed value: `selector` computes it on first use, and it is
/// only read afterwards.
pub struct GlobalMemo<T, F> {
    inner: GlobalSignal<T, F>,
}

impl<T, F: Fn() -> T> GlobalSignal<T, F> {
    /// The initializer.
    pub closed spec fn initializer(&self) -> F {
        self.initializer
    }

    /// The signal this global created, if it created one.
    pub closed spec fn current(&self) -> Option<Signal<T>> {
        self.signal
    }

    /// The global has created its signal; using it creates nothing more.
    pub open spec fn initialized(&self) -> bool {
        self.current() is Some
    }

    /// Reading the global at `s` finds a value and no write borrow of it.
    pub open spec fn readable_in(&self, s: UnsyncStorage<T>) -> bool {
        self.initialized() ==> self.current().unwrap().readable_in(s)
    }

    /// Changing the global at `s` finds a value and no borrow of it.
    pub open spec fn writable_in(&self, s: UnsyncStorage<T>) -> bool {
        self.initialized() ==> self.current().unwrap().writable_in(s)
    }

    /// Setting the global at `s` finds its signal's value live.
    pub open spec fn settable_in(&self, s: UnsyncStorage<T>) -> bool {
        self.initialized() ==> self.current().unwrap().handle().live_in(s)
    }

    /// The global's value at `s`, once it is initialized.
    pub open spec fn value_in(&self, s: UnsyncStorage<T>) -> T {
        self.current().unwrap().value_in(s)
    }

    /// What using the global leaves behind: its signal is `r`. If it had one,
    /// nothing changed; otherwise `r` holds a value that the initializer
    /// returned, in a newly claimed slot.
    pub open spec fn access_post(
        old: Self,
        old_store: UnsyncStorage<T>,
        r: Signal<T>,
        new: Self,
        new_store: UnsyncStorage<T>,
    ) -> bool {
        &&& new.initializer() == old.initializer()
        &&& new.current() == Some(r)
        &&& new_store.wf()
        &&& new_store.advances_from(&old_store)
        &&& old.initialized() ==> r == old.current().unwrap() && new_store == old_store && new == old
        &&& !old.initialized() ==> {
            &&& old.initializer().ensures((), r.value_in(new_store))
            &&& r.handle().live_in(new_store)
            &&& r.handle().owned_by(new_store)
            &&& r.writable_in(new_store)
            &&& forall|i: int|
                0 <= i < old_store@.len() && i != r.handle().slot() ==> #[trigger] new_store@[i]
                    == old_store@[i]
        }
    }

    /// A global whose first value `initializer` gives.
    pub fn new(initializer: F) -> (r: Self)
        ensures
            r.initializer() == initializer,
            r.current() is None,
    {
        GlobalSignal { initializer, signal: None }
    }

    /// The signal behind this global, created from the initializer on first use.
    pub fn signal(&mut self, store: &mut UnsyncStorage<T>) -> (r: Signal<T>)
        requires
            old(store).wf(),
            old(self).initializer().requires(()),
        ensures
            Self::access_post(*old(self), *old(store), r, *final(self), *final(store)),
    {
        if let Some(s) = self.signal {
            return s;
        }
        let value = (self.initializer)();
        let s = Signal::new(store, value, Location::new(0, 0));
        self.signal = Some(s);
        s
    }

    /// The global's value.
    pub fn read<'a>(&mut self, store: &'a mut UnsyncStorage<T>) -> (r: &'a T)
        requires
            old(store).wf(),
            old(self).initializer().requires(()),
            old(self).readable_in(*old(store)),
        ensures
            final(self).initialized(),
            final(self).initializer() == old(self).initializer(),
            old(self).initialized() ==> *final(self) == *old(self),
            *r == final(self).value_in(*final(store)),
            old(self).initialized() ==> *final(store) == *old(store),
            !old(self).initialized() ==> old(self).initializer().ensures((), *r),
            final(store).advances_from(old(store)),
            final(store).wf(),
    {
        let s = self.signal(store);
        let shared: &'a UnsyncStorage<T> = store;
        s.read(shared)
    }

    /// The global's value; the same as `read`, as nothing subscribes to it.
    pub fn peek<'a>(&mut self, store: &'a mut UnsyncStorage<T>) -> (r: &'a T)
        requires
            old(store).wf(),
            old(self).initializer().requires(()),
            old(self).readable_in(*old(store)),
        ensures
            final(self).initialized(),
            final(self).initializer() == old(self).initializer(),
            old(self).initialized() ==> *final(self) == *old(self),
            *r == final(self).value_in(*final(store)),
            old(self).initialized() ==> *final(store) == *old(store),
            !old(self).initialized() ==> old(self).initializer().ensures((), *r),
            final(store).advances_from(old(store)),
            final(store).wf(),
    {
        self.read(store)
    }

    /// Sets the global's value.
    pub fn set(&mut self, store: &mut UnsyncStorage<T>, value: T)
        requires
            old(store).wf(),
            old(self).initializer().requires(()),
            old(self).settable_in(*old(store)),
        ensures
            final(self).initializer() == old(self).initializer(),
            final(self).initialized(),
            old(self).initialized() ==> *final(self) == *old(self),
            final(self).value_in(*final(store)) == value,
            final(store).advances_from(old(store)),
            final(store).wf(),
    {
        let s = self.signal(store);
        s.set(store, value);
    }

    /// Sets the global's value; there are no subscribers to notify.
    pub fn set_untracked(&mut self, store: &mut UnsyncStorage<T>, value: T)
        requires
            old(store).wf(),
            old(self).initializer().requires(()),
            old(self).settable_in(*old(store)),
        ensures
            final(self).initializer() == old(self).initializer(),
            final(self).initialized(),
            old(self).initialized() ==> *final(self) == *old(self),
            final(self).value_in(*final(store)) == value,
            final(store).advances_from(old(store)),
            final(store).wf(),
    {
        let s = self.signal(store);
        s.set_untracked(store, value);
    }

    /// Runs `f` on the global's value.
    pub fn with<O, G: FnOnce(&T) -> O>(&mut self, store: &mut UnsyncStorage<T>, f: G) -> (r: O)
        requires
            old(store).wf(),
            old(self).initializer().requires(()),
            old(self).readable_in(*old(store)),
            forall|x: &T| f.requires((x,)),
        ensures
            final(self).initialized(),
            final(self).initializer() == old(self).initializer(),
            old(self).initialized() ==> *final(self) == *old(self),
            f.ensures((&final(self).value_in(*final(store)),), r),
            old(self).initialized() ==> *final(store) == *old(store),
            final(store).advances_from(old(store)),
            final(store).wf(),
    {
        let s = self.signal(store);
        s.with(store, f)
    }

    /// Runs `f` on the global's value, for writing.
    pub fn with_mut<O, G: FnOnce(&mut T) -> O>(&mut self, store: &mut UnsyncStorage<T>, f: G) -> (r: O)
        requires
            old(store).wf(),
            old(self).initializer().requires(()),
            old(self).writable_in(*old(store)),
            forall|x: &mut T| f.requires((x,)),
        ensures
            final(self).initialized(),
            final(self).initializer() == old(self).initializer(),
            old(self).initialized() ==> *final(self) == *old(self),
            final(store).advances_from(old(store)),
            final(store).wf(),
            exists|x: &mut T|
                *final(x) == final(self).value_in(*final(store)) && #[trigger] f.ensures((x,), r) && (
                old(self).initialized() ==> *x == old(self).value_in(*old(store))) && (
                !old(self).initialized() ==> old(self).initializer().ensures((), *x)),
    {
        let s = self.signal(store);
        let ghost accessed = *store;
        let r = s.with_mut(store, f);
        proof {
            crate::laws::lemma_advances_transitive(*old(store), accessed, *store);
        }
        r
    }

    /// The identity of the global's signal.
    pub fn id(&mut self, store: &mut UnsyncStorage<T>) -> (r: GenerationalBoxId)
        requires
            old(store).wf(),
            old(self).initializer().requires(()),
        ensures
            final(self).current() matches Some(s) && r.slot() == s.handle().slot()
                && r.generation() == s.handle().generation(),
            final(self).initialized(),
            final(self).initializer() == old(self).initializer(),
            old(self).initialized() ==> *final(self) == *old(self),
            old(self).initialized() ==> *final(store) == *old(store) && *final(self)
                == *old(self),
            final(store).advances_from(old(store)),
            final(store).wf(),
    {
        let s = self.signal(store);
        s.id()
    }

    /// A clone of the global's value.
    pub fn cloned(&mut self, store: &mut UnsyncStorage<T>) -> (r: T)
        where
            T: Clone,
        requires
            old(store).wf(),
            old(self).initializer().requires(()),
            old(self).readable_in(*old(store)),
        ensures
            final(self).initialized(),
            final(self).initializer() == old(self).initializer(),
            old(self).initialized() ==> *final(self) == *old(self),
            vstd::pervasive::cloned(final(self).value_in(*final(store)), r),
            old(self).initialized() ==> *final(store) == *old(store),
            final(store).advances_from(old(store)),
            final(store).wf(),
    {
        let s = self.signal(store);
        s.cloned(store)
    }
}

impl<F: Fn() -> bool> GlobalSignal<bool, F> {
    /// Inverts the global's value.
    pub fn toggle(&mut self, store: &mut UnsyncStorage<bool>)
        requires
            old(store).wf(),
            old(self).initializer().requires(()),
            old(self).readable_in(*old(store)),
        ensures
            final(self).initialized(),
            final(self).initializer() == old(self).initializer(),
            old(self).initialized() ==> *final(self) == *old(self),
            old(self).initialized() ==> final(self).value_in(*final(store))
                == !old(self).value_in(*old(store)),
            !old(self).initialized() ==> old(self).initializer().ensures(
                (),
                !final(self).value_in(*final(store)),
            ),
            final(store).advances_from(old(store)),
            final(store).wf(),
    {
        let s = self.signal(store);
        let v = *s.read(store);
        s.set(store, !v);
    }
}

impl<T, F: Fn() -> Option<T>> GlobalSignal<Option<T>, F> {
    /// A clone of the value inside the global's option, which must be `Some`.
    pub fn unwrap(&mut self, store: &mut UnsyncStorage<Option<T>>) -> (r: T)
        where
            T: Clone,
        requires
            old(store).wf(),
            old(self).initializer().requires(()),
            old(self).readable_in(*old(store)),
            old(self).initialized() ==> old(self).value_in(*old(store)) is Some,
            !old(self).initialized() ==> forall|v: Option<T>|
                #[trigger] old(self).initializer().ensures((), v) ==> v is Some,
        ensures
            final(self).initialized(),
            final(self).initializer() == old(self).initializer(),
            old(self).initialized() ==> *final(self) == *old(self),
            vstd::pervasive::cloned(final(self).value_in(*final(store)).unwrap(), r),
            old(self).initialized() ==> *final(store) == *old(store),
            final(store).advances_from(old(store)),
            final(store).wf(),
    {
        let s = self.signal(store);
        s.unwrap(store)
    }

    /// Takes the value out of the global's option, leaving `None`.
    pub fn take(&mut self, store: &mut UnsyncStorage<Option<T>>) -> (r: Option<T>)
        requires
            old(store).wf(),
            old(self).initializer().requires(()),
            old(self).writable_in(*old(store)),
        ensures
            final(self).initialized(),
            final(self).initializer() == old(self).initializer(),
            old(self).initialized() ==> *final(self) == *old(self),
            final(self).value_in(*final(store)) is None,
            old(self).initialized() ==> r == old(self).value_in(*old(store)),
            !old(self).initialized() ==> old(self).initializer().ensures((), r),
            final(store).advances_from(old(store)),
            final(store).wf(),
    {
        let s = self.signal(store);
        s.take(store)
    }

    /// Puts `value` into the global's option and returns what it held.
    pub fn replace(&mut self, store: &mut UnsyncStorage<Option<T>>, value: T) -> (r: Option<T>)
        requires
            old(store).wf(),
            old(self).initializer().requires(()),
            old(self).writable_in(*old(store)),
        ensures
            final(self).initialized(),
            final(self).initializer() == old(self).initializer(),
            old(self).initialized() ==> *final(self) == *old(self),
            final(self).value_in(*final(store)) == Some(value),
            old(self).initialized() ==> r == old(self).value_in(*old(store)),
            !old(self).initialized() ==> old(self).initializer().ensures((), r),
            final(store).advances_from(old(store)),
            final(store).wf(),
    {
        let s = self.signal(store);
        s.replace(store, value)
    }
}

impl<T, F: Fn() -> Vec<T>> GlobalSignal<Vec<T>, F> {
    /// The element at `index` of the global's vector, if there is one.
    pub fn get<'a>(&mut self, store: &'a mut UnsyncStorage<Vec<T>>, index: usize) -> (r: Option<&'a T>)
        requires
            old(store).wf(),
            old(self).initializer().requires(()),
            old(self).readable_in(*old(store)),
        ensures
            final(self).initialized(),
            final(self).initializer() == old(self).initializer(),
            old(self).initialized() ==> *final(self) == *old(self),
            r matches Some(x) ==> element(final(self).value_in(*final(store))@, index as int) == Some(
                *x,
            ),
            r is None ==> element(final(self).value_in(*final(store))@, index as int) is None,
            old(self).initialized() ==> *final(store) == *old(store),
            final(store).advances_from(old(store)),
            final(store).wf(),
    {
        let s = self.signal(store);
        let shared: &'a UnsyncStorage<Vec<T>> = store;
        s.get(shared, index)
    }
}

impl<T, F: Fn() -> Option<T>> GlobalSignal<Option<T>, F> {
    /// The value inside the global's option, if there is one.
    pub fn as_ref<'a>(&mut self, store: &'a mut UnsyncStorage<Option<T>>) -> (r: Option<&'a T>)
        requires
            old(store).wf(),
            old(self).initializer().requires(()),
            old(self).readable_in(*old(store)),
        ensures
            final(self).initialized(),
            final(self).initializer() == old(self).initializer(),
            old(self).initialized() ==> *final(self) == *old(self),
            r matches Some(x) ==> final(self).value_in(*final(store)) == Some(*x),
            r is None ==> final(self).value_in(*final(store)) is None,
            old(self).initialized() ==> *final(store) == *old(store),
            final(store).advances_from(old(store)),
            final(store).wf(),
    {
        let s = self.signal(store);
        let shared: &'a UnsyncStorage<Option<T>> = store;
        s.as_ref(shared)
    }

    /// The value inside the global's option, after putting `default` there if
    /// the option was `None`.
    pub fn get_or_insert<'a>(&mut self, store: &'a mut UnsyncStorage<Option<T>>, default: T) -> (r: &'a T)
        requires
            old(store).wf(),
            old(self).initializer().requires(()),
            old(self).writable_in(*old(store)),
        ensures
            final(self).initialized(),
            final(self).initializer() == old(self).initializer(),
            old(self).initialized() ==> *final(self) == *old(self),
            final(self).value_in(*final(store)) == Some(*r),
            (old(self).initialized() && old(self).value_in(*old(store)) is Some) ==> *r
                == old(self).value_in(*old(store)).unwrap() && *final(store) == *old(store),
            (old(self).initialized() && old(self).value_in(*old(store)) is None) ==> *r
                == default,
            final(store).advances_from(old(store)),
            final(store).wf(),
    {
        let s = self.signal(store);
        s.get_or_insert(store, default)
    }

    /// The value inside the global's option, after putting the result of
    /// `default` there if the option was `None`.
    pub fn get_or_insert_with<'a, G: FnOnce() -> T>(
        &mut self,
        store: &'a mut UnsyncStorage<Option<T>>,
        default: G,
    ) -> (r: &'a T)
        requires
            old(store).wf(),
            old(self).initializer().requires(()),
            old(self).writable_in(*old(store)),
            default.requires(()),
        ensures
            final(self).initialized(),
            final(self).initializer() == old(self).initializer(),
            old(self).initialized() ==> *final(self) == *old(self),
            final(self).value_in(*final(store)) == Some(*r),
            (old(self).initialized() && old(self).value_in(*old(store)) is Some) ==> *r
                == old(self).value_in(*old(store)).unwrap() && *final(store) == *old(store),
            (old(self).initialized() && old(self).value_in(*old(store)) is None)
                ==> default.ensures((), *r),
            final(store).advances_from(old(store)),
            final(store).wf(),
    {
        let s = self.signal(store);
        s.get_or_insert_with(store, default)
    }
}

impl<T, F: Fn() -> T> GlobalMemo<T, F> {
    /// The selector.
    pub closed spec fn selector(&self) -> F {
        self.inner.initializer()
    }

    /// The global signal that holds the computed value.
    pub closed spec fn backing(&self) -> GlobalSignal<T, F> {
        self.inner
    }

    /// A global computed by `selector` on first use.
    pub fn new(selector: F) -> (r: Self)
        ensures
            r.selector() == selector,
            r.backing().current() is None,
    {
        GlobalMemo { inner: GlobalSignal::new(selector) }
    }

    /// The signal that holds the computed value, computing it if needed.
    pub fn signal(&mut self, store: &mut UnsyncStorage<T>) -> (r: Signal<T>)
        requires
            old(store).wf(),
            old(self).selector().requires(()),
        ensures
            GlobalSignal::access_post(
                old(self).backing(),
                *old(store),
                r,
                final(self).backing(),
                *final(store),
            ),
    {
        self.inner.signal(store)
    }

    /// The computed value.
    pub fn read<'a>(&mut self, store: &'a mut UnsyncStorage<T>) -> (r: &'a T)
        requires
            old(store).wf(),
            old(self).selector().requires(()),
            old(self).backing().readable_in(*old(store)),
        ensures
            final(self).backing().initialized(),
            final(self).selector() == old(self).selector(),
            old(self).backing().initialized() ==> *final(self) == *old(self),
            *r == final(self).backing().value_in(*final(store)),
            old(self).backing().initialized() ==> *final(store) == *old(store),
            !old(self).backing().initialized() ==> old(self).selector().ensures((), *r),
            final(store).advances_from(old(store)),
            final(store).wf(),
    {
        self.inner.read(store)
    }

    /// The computed value; the same as `read`, as nothing subscribes to it.
    pub fn peek<'a>(&mut self, store: &'a mut UnsyncStorage<T>) -> (r: &'a T)
        requires
            old(store).wf(),
            old(self).selector().requires(()),
            old(self).backing().readable_in(*old(store)),
        ensures
            final(self).backing().initialized(),
            final(self).selector() == old(self).selector(),
            old(self).backing().initialized() ==> *final(self) == *old(self),
            *r == final(self).backing().value_in(*final(store)),
            old(self).backing().initialized() ==> *final(store) == *old(store),
            !old(self).backing().initialized() ==> old(self).selector().ensures((), *r),
            final(store).advances_from(old(store)),
            final(store).wf(),
    {
        self.inner.read(store)
    }

    /// Runs `f` on the computed value.
    pub fn with<O, G: FnOnce(&T) -> O>(&mut self, store: &mut UnsyncStorage<T>, f: G) -> (r: O)
        requires
            old(store).wf(),
            old(self).selector().requires(()),
            old(self).backing().readable_in(*old(store)),
            forall|x: &T| f.requires((x,)),
        ensures
            final(self).backing().initialized(),
            final(self).selector() == old(self).selector(),
            old(self).backing().initialized() ==> *final(self) == *old(self),
            f.ensures((&final(self).backing().value_in(*final(store)),), r),
            old(self).backing().initialized() ==> *final(store) == *old(store),
            final(store).advances_from(old(store)),
            final(store).wf(),
    {
        self.inner.with(store, f)
    }

    /// The identity of the signal that holds the computed value.
    pub fn id(&mut self, store: &mut UnsyncStorage<T>) -> (r: GenerationalBoxId)
        requires
            old(store).wf(),
            old(self).selector().requires(()),
        ensures
            final(self).backing().current() matches Some(s) && r.slot() == s.handle().slot()
                && r.generation() == s.handle().generation(),
            final(self).backing().initialized(),
            final(self).selector() == old(self).selector(),
            old(self).backing().initialized() ==> *final(self) == *old(self),
            old(self).backing().initialized() ==> *final(store) == *old(store)
                && *final(self) == *old(self),
            final(store).advances_from(old(store)),
            final(store).wf(),
    {
        self.inner.id(store)
    }

    /// A clone of the computed value.
    pub fn cloned(&mut self, store: &mut UnsyncStorage<T>) -> (r: T)
        where
            T: Clone,
        requires
            old(store).wf(),
            old(self).selector().requires(()),
            old(self).backing().readable_in(*old(store)),
        ensures
            final(self).backing().initialized(),
            final(self).selector() == old(self).selector(),
            old(self).backing().initialized() ==> *final(self) == *old(self),
            vstd::pervasive::cloned(final(self).backing().value_in(*final(store)), r),
            old(self).backing().initialized() ==> *final(store) == *old(store),
            final(store).advances_from(old(store)),
            final(store).wf(),
    {
        self.inner.cloned(store)
    }
}

impl<T, F: Fn() -> Vec<T>> GlobalMemo<Vec<T>, F> {
    /// The element at `index` of the computed vector, if there is one.
    pub fn get<'a>(&mut self, store: &'a mut UnsyncStorage<Vec<T>>, index: usize) -> (r: Option<&'a T>)
        requires
            old(store).wf(),
            old(self).selector().requires(()),
            old(self).backing().readable_in(*old(store)),
        ensures
            final(self).backing().initialized(),
            final(self).selector() == old(self).selector(),
            old(self).backing().initialized() ==> *final(self) == *old(self),
            r matches Some(x) ==> element(final(self).backing().value_in(*final(store))@, index as int)
                == Some(*x),
            r is None ==> element(final(self).backing().value_in(*final(store))@, index as int) is None,
            old(self).backing().initialized() ==> *final(store) == *old(store),
            final(store).advances_from(old(store)),
            final(store).wf(),
    {
        self.inner.get(store, index)
    }
}

impl<T, F: Fn() -> Option<T>> GlobalMemo<Option<T>, F> {
    /// The value inside the computed option, if there is one.
    pub fn as_ref<'a>(&mut self, store: &'a mut UnsyncStorage<Option<T>>) -> (r: Option<&'a T>)
        requires
            old(store).wf(),
            old(self).selector().requires(()),
            old(self).backing().readable_in(*old(store)),
        ensures
            final(self).backing().initialized(),
            final(self).selector() == old(self).selector(),
            old(self).backing().initialized() ==> *final(self) == *old(self),
            r matches Some(x) ==> final(self).backing().value_in(*final(store)) == Some(*x),
            r is None ==> final(self).backing().value_in(*final(store)) is None,
            old(self).backing().initialized() ==> *final(store) == *old(store),
            final(store).advances_from(old(store)),
            final(store).wf(),
    {
        self.inner.as_ref(store)
    }

    /// A clone of the value inside the computed option, which must be `Some`.
    pub fn unwrap(&mut self, store: &mut UnsyncStorage<Option<T>>) -> (r: T)
        where
            T: Clone,
        requires
            old(store).wf(),
            old(self).selector().requires(()),
            old(self).backing().readable_in(*old(store)),
            old(self).backing().initialized() ==> old(self).backing().value_in(
                *old(store),
            ) is Some,
            !old(self).backing().initialized() ==> forall|v: Option<T>|
                #[trigger] old(self).selector().ensures((), v) ==> v is Some,
        ensures
            final(self).backing().initialized(),
            final(self).selector() == old(self).selector(),
            old(self).backing().initialized() ==> *final(self) == *old(self),
            vstd::pervasive::cloned(final(self).backing().value_in(*final(store)).unwrap(), r),
            old(self).backing().initialized() ==> *final(store) == *old(store),
            final(store).advances_from(old(store)),
            final(store).wf(),
    {
        self.inner.unwrap(store)
    }
}

} // verus!
