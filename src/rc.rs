use vstd::prelude::*;
use crate::borrow::{BorrowState, InteriorMut, Ref, RefMut};
use core::marker::PhantomData;

verus! {

/// A strong handle: it keeps its container alive in the store.
#[derive(Debug)]
pub struct Rc<I> {
    index: usize,
    marker: PhantomData<I>,
}

/// A weak handle: it observes a container without keeping it alive.
#[derive(Debug)]
pub struct Weak<I> {
    index: usize,
    marker: PhantomData<I>,
}

/// The reference-counted containers. Each container has a strong count; it
/// is dropped when that count falls to zero, whatever weak handles remain.
pub struct RcStore<I> {
    values: Vec<Option<I>>,
    strong: Vec<usize>,
}

impl<I> Rc<I> {
    /// Which container this handle points at.
    pub closed spec fn id(&self) -> int {
        self.index as int
    }

    /// Which container this handle points at.
    pub fn index(&self) -> (r: usize)
        ensures
            r == self.id(),
    {
        self.index
    }

    /// Whether two strong handles point at the same container.
    pub fn ptr_eq(&self, other: &Rc<I>) -> (b: bool)
        ensures
            b == (self.id() == other.id()),
    {
        self.index == other.index
    }
}

impl<I> Weak<I> {
    /// Which container this handle observes.
    pub closed spec fn id(&self) -> int {
        self.index as int
    }

    /// Which container this handle observes.
    pub fn index(&self) -> (r: usize)
        ensures
            r == self.id(),
    {
        self.index
    }
}

impl<I> RcStore<I> {
    /// Number of containers ever created in the store.
    pub closed spec fn len(self) -> nat {
        self.values@.len()
    }

    /// Strong count of container `i`.
    pub closed spec fn strong(self, i: int) -> nat {
        self.strong@[i] as nat
    }

    /// Container `i` exists and is still alive.
    pub open spec fn live(self, i: int) -> bool {
        0 <= i < self.len() && self.strong(i) > 0
    }

    /// The value of container `i`, while it is alive.
    pub closed spec fn inner(self, i: int) -> I {
        self.values@[i]->Some_0
    }

    /// A container holds a value exactly while its strong count is positive.
    pub closed spec fn wf(self) -> bool {
        &&& self.values@.len() == self.strong@.len()
        &&& forall|i: int|
            0 <= i < self.values@.len() ==> (#[trigger] self.values@[i] is Some <==> self.strong@[i] > 0)
    }

    /// `self` and `other` differ at most in container `i`.
    pub closed spec fn same_except(self, other: Self, i: int) -> bool {
        &&& self.values@.len() == other.values@.len()
        &&& forall|j: int|
            0 <= j < self.values@.len() && j != i ==> #[trigger] self.values@[j] == other.values@[j]
                && self.strong@[j] == other.strong@[j]
    }

    /// No container that was dropped in `self` comes back in `later`.
    pub open spec fn keeps_dead(self, later: Self) -> bool {
        &&& self.len() <= later.len()
        &&& forall|j: int| 0 <= j < self.len() && !self.live(j) ==> !#[trigger] later.live(j)
    }

    /// Which container upgrading `w` reaches: the one it observes while that
    /// is alive, none after.
    pub open spec fn upgraded(self, w: Weak<I>) -> Option<int> {
        if self.live(w.id()) {
            Some(w.id())
        } else {
            None
        }
    }

    /// Which container an optional strong handle points at.
    pub open spec fn target(r: Option<Rc<I>>) -> Option<int> {
        match r {
            Some(s) => Some(s.id()),
            None => None,
        }
    }

    /// An empty store.
    pub fn new() -> (s: Self)
        ensures
            s.wf(),
            s.len() == 0,
    {
        RcStore { values: Vec::new(), strong: Vec::new() }
    }

    /// Puts `value` into a new container with one strong handle.
    pub fn insert(&mut self, value: I) -> (r: Rc<I>)
        requires
            old(self).wf(),
        ensures
            final(self).wf(),
            r.id() == old(self).len(),
            final(self).len() == old(self).len() + 1,
            final(self).strong(r.id()) == 1,
            final(self).inner(r.id()) == value,
            forall|j: int|
                0 <= j < old(self).len() ==> final(self).strong(j) == old(self).strong(j)
                    && (old(self).live(j) ==> #[trigger] final(self).inner(j) == old(self).inner(j)),
            old(self).keeps_dead(*final(self)),
    {
        let index = self.values.len();
        self.values.push(Some(value));
        self.strong.push(1);
        Rc { index, marker: PhantomData }
    }

    /// Current strong count of the container that `w` observes.
    pub fn strong_count(&self, w: &Weak<I>) -> (n: usize)
        requires
            self.wf(),
            w.id() < self.len(),
        ensures
            n == self.strong(w.id()),
    {
        self.strong[w.index]
    }

    /// Another strong handle to the container that `r` points at.
    pub fn clone_strong(&mut self, r: &Rc<I>) -> (c: Rc<I>)
        requires
            old(self).wf(),
            old(self).live(r.id()),
            old(self).strong(r.id()) < usize::MAX,
        ensures
            final(self).wf(),
            c.id() == r.id(),
            final(self).strong(r.id()) == old(self).strong(r.id()) + 1,
            final(self).inner(r.id()) == old(self).inner(r.id()),
            final(self).same_except(*old(self), r.id()),
            old(self).keeps_dead(*final(self)),
    {
        let n = self.strong[r.index];
        self.strong.set(r.index, n + 1);
        Rc { index: r.index, marker: PhantomData }
    }

    /// Drops a strong handle. When it was the last one, the container's value
    /// is dropped and every weak handle to it stops upgrading.
    pub fn drop_strong(&mut self, r: Rc<I>)
        requires
            old(self).wf(),
            old(self).live(r.id()),
        ensures
            final(self).wf(),
            final(self).strong(r.id()) == old(self).strong(r.id()) - 1,
            final(self).live(r.id()) ==> final(self).inner(r.id()) == old(self).inner(r.id()),
            final(self).same_except(*old(self), r.id()),
            old(self).keeps_dead(*final(self)),
    {
        let n = self.strong[r.index];
        self.strong.set(r.index, n - 1);
        if n == 1 {
            self.values.set(r.index, None);
        }
    }

    /// Upgrades a weak handle: a new strong handle while the container is
    /// alive, nothing once it has been dropped.
    pub fn upgrade(&mut self, w: &Weak<I>) -> (r: Option<Rc<I>>)
        requires
            old(self).wf(),
            w.id() < old(self).len(),
            old(self).strong(w.id()) < usize::MAX,
        ensures
            final(self).wf(),
            Self::target(r) == old(self).upgraded(*w),
            r is Some ==> final(self).strong(w.id()) == old(self).strong(w.id()) + 1,
            r is None ==> final(self).strong(w.id()) == old(self).strong(w.id()),
            final(self).live(w.id()) ==> final(self).inner(w.id()) == old(self).inner(w.id()),
            final(self).same_except(*old(self), w.id()),
            old(self).keeps_dead(*final(self)),
    {
        let n = self.strong[w.index];
        if n == 0 {
            None
        } else {
            self.strong.set(w.index, n + 1);
            Some(Rc { index: w.index, marker: PhantomData })
        }
    }

    /// A step that touches container `i` without changing its strong count
    /// drops nothing.
    pub proof fn lemma_same_count_keeps_dead(self, later: Self, i: int)
        requires
            later.same_except(self, i),
            0 <= i < self.len() ==> later.strong(i) == self.strong(i),
        ensures
            self.keeps_dead(later),
    {
        assert forall|j: int| 0 <= j < self.len() && !self.live(j) implies !#[trigger] later.live(j) by {
            if j != i {
                assert(later.values@[j] == self.values@[j]);
            }
        }
    }

    /// The container that `r` points at, lent out for a change in place.
    fn inner_mut(&mut self, r: &Rc<I>) -> (v: &mut I)
        requires
            old(self).wf(),
            old(self).live(r.id()),
        ensures
            *v == old(self).inner(r.id()),
            final(self).wf(),
            final(self).live(r.id()),
            final(self).strong(r.id()) == old(self).strong(r.id()),
            final(self).inner(r.id()) == *final(v),
            final(self).same_except(*old(self), r.id()),
    {
        match self.values[r.index].as_mut() {
            Some(v) => v,
            None => vstd::pervasive::unreached(),
        }
    }
}

/// Borrowing through a strong handle: every request goes to the container
/// that the handle points at, and its answer comes back unchanged.
impl<I> RcStore<I> {
    /// Requests a shared borrow of the container that `r` points at.
    pub fn borrow_int<T>(&mut self, r: &Rc<I>) -> (res: Result<Ref, I::Error>) where
        I: InteriorMut<T>,
        requires
            old(self).wf(),
            old(self).live(r.id()),
            old(self).inner(r.id()).state().wf(),
        ensures
            final(self).wf(),
            final(self).live(r.id()),
            final(self).strong(r.id()) == old(self).strong(r.id()),
            final(self).same_except(*old(self), r.id()),
            old(self).keeps_dead(*final(self)),
            final(self).inner(r.id()).state().wf(),
            final(self).inner(r.id()).value() == old(self).inner(r.id()).value(),
            I::shared_outcome(old(self).inner(r.id()).state(), final(self).inner(r.id()).state(), res),
    {
        let v = self.inner_mut(r);
        let res = v.borrow_int();
        proof {
            old(self).lemma_same_count_keeps_dead(*self, r.id());
        }
        res
    }

    /// Requests an exclusive borrow of the container that `r` points at.
    pub fn borrow_int_mut<T>(&mut self, r: &Rc<I>) -> (res: Result<RefMut, I::ErrorMut>) where
        I: InteriorMut<T>,
        requires
            old(self).wf(),
            old(self).live(r.id()),
            old(self).inner(r.id()).state().wf(),
        ensures
            final(self).wf(),
            final(self).live(r.id()),
            final(self).strong(r.id()) == old(self).strong(r.id()),
            final(self).same_except(*old(self), r.id()),
            old(self).keeps_dead(*final(self)),
            final(self).inner(r.id()).state().wf(),
            final(self).inner(r.id()).value() == old(self).inner(r.id()).value(),
            I::exclusive_outcome(old(self).inner(r.id()).state(), final(self).inner(r.id()).state(), res),
    {
        let v = self.inner_mut(r);
        let res = v.borrow_int_mut();
        proof {
            old(self).lemma_same_count_keeps_dead(*self, r.id());
        }
        res
    }

    /// Ends a shared borrow of the container that `r` points at.
    pub fn release<T>(&mut self, r: &Rc<I>, guard: Ref) where
        I: InteriorMut<T>,
        requires
            old(self).wf(),
            old(self).live(r.id()),
            old(self).inner(r.id()).state().wf(),
            I::holds_shared(old(self).inner(r.id()).state()),
        ensures
            final(self).wf(),
            final(self).live(r.id()),
            final(self).strong(r.id()) == old(self).strong(r.id()),
            final(self).same_except(*old(self), r.id()),
            old(self).keeps_dead(*final(self)),
            final(self).inner(r.id()).state().wf(),
            final(self).inner(r.id()).value() == old(self).inner(r.id()).value(),
            final(self).inner(r.id()).state() == I::after_release(old(self).inner(r.id()).state()),
    {
        let v = self.inner_mut(r);
        let res = v.release(guard);
        proof {
            old(self).lemma_same_count_keeps_dead(*self, r.id());
        }
        res
    }

    /// Ends an exclusive borrow of the container that `r` points at.
    pub fn release_mut<T>(&mut self, r: &Rc<I>, guard: RefMut) where
        I: InteriorMut<T>,
        requires
            old(self).wf(),
            old(self).live(r.id()),
            old(self).inner(r.id()).state().wf(),
            old(self).inner(r.id()).state().writing,
        ensures
            final(self).wf(),
            final(self).live(r.id()),
            final(self).strong(r.id()) == old(self).strong(r.id()),
            final(self).same_except(*old(self), r.id()),
            old(self).keeps_dead(*final(self)),
            final(self).inner(r.id()).state().wf(),
            final(self).inner(r.id()).value() == old(self).inner(r.id()).value(),
            final(self).inner(r.id()).state() == (BorrowState {
                writing: false,
                ..old(self).inner(r.id()).state()
            }),
    {
        let v = self.inner_mut(r);
        let res = v.release_mut(guard);
        proof {
            old(self).lemma_same_count_keeps_dead(*self, r.id());
        }
        res
    }

    /// Reads the value of the container that `r` points at.
    pub fn get<T>(&self, r: &Rc<I>) -> (v: &T) where I: InteriorMut<T>,
        requires
            self.wf(),
            self.live(r.id()),
        ensures
            *v == self.inner(r.id()).value(),
    {
        match &self.values[r.index] {
            Some(c) => c.get(),
            None => vstd::pervasive::unreached(),
        }
    }

    /// Writes through an exclusive borrow of the container that `r` points at.
    pub fn get_mut<T>(&mut self, r: &Rc<I>, guard: &RefMut) -> (v: &mut T) where
        I: InteriorMut<T>,
        requires
            old(self).wf(),
            old(self).live(r.id()),
            old(self).inner(r.id()).state().writing,
        ensures
            *v == old(self).inner(r.id()).value(),
            final(self).wf(),
            final(self).live(r.id()),
            final(self).strong(r.id()) == old(self).strong(r.id()),
            final(self).same_except(*old(self), r.id()),
            final(self).inner(r.id()).state() == old(self).inner(r.id()).state(),
            final(self).inner(r.id()).value() == *final(v),
    {
        let c = self.inner_mut(r);
        c.get_mut(guard)
    }
}

/// A handle that keeps its container alive and can hand out a weak
/// counterpart.
pub trait StrongReference<T>: Sized {
    /// The weak counterpart.
    type Weak;

    /// Whether `w` observes the container that `self` points at.
    spec fn same_target(&self, w: &Self::Weak) -> bool;

    /// A new weak handle to the same container. Never fails.
    fn downgrade(&self) -> (w: Self::Weak)
        ensures
            self.same_target(&w),
    ;
}

/// A handle that observes a container without keeping it alive.
pub trait WeakReference<T>: Sized {
    /// The strong counterpart.
    type Strong;

    /// Where the strong counts live.
    type Store;

    /// Whether an upgrade can be asked for in `store`.
    spec fn can_upgrade(&self, store: Self::Store) -> bool;

    /// What an upgrade in `before` gives: the answer `r` and the store `after`.
    spec fn upgrade_outcome(&self, before: Self::Store, after: Self::Store, r: Option<Self::Strong>) -> bool;

    /// A strong handle while the container is alive; nothing after.
    fn upgrade(&self, store: &mut Self::Store) -> (r: Option<Self::Strong>)
        requires
            self.can_upgrade(*old(store)),
        ensures
            self.upgrade_outcome(*old(store), *final(store), r),
    ;
}

impl<T, I: InteriorMut<T>> StrongReference<T> for Rc<I> {
    type Weak = Weak<I>;

    open spec fn same_target(&self, w: &Weak<I>) -> bool {
        self.id() == w.id()
    }

    fn downgrade(&self) -> (w: Weak<I>) {
        Weak { index: self.index, marker: PhantomData }
    }
}

impl<T, I: InteriorMut<T>> WeakReference<T> for Weak<I> {
    type Strong = Rc<I>;

    type Store = RcStore<I>;

    open spec fn can_upgrade(&self, store: RcStore<I>) -> bool {
        &&& store.wf()
        &&& self.id() < store.len()
        &&& store.strong(self.id()) < usize::MAX
    }

    open spec fn upgrade_outcome(&self, before: RcStore<I>, after: RcStore<I>, r: Option<Rc<I>>) -> bool {
        &&& after.wf()
        &&& RcStore::target(r) == before.upgraded(*self)
        &&& r is Some ==> after.strong(self.id()) == before.strong(self.id()) + 1
        &&& r is None ==> after.strong(self.id()) == before.strong(self.id())
        &&& after.live(self.id()) ==> after.inner(self.id()) == before.inner(self.id())
        &&& after.same_except(before, self.id())
        &&& before.keeps_dead(after)
    }

    fn upgrade(&self, store: &mut RcStore<I>) -> (r: Option<Rc<I>>) {
        store.upgrade(self)
    }
}

/// Downgrading a live strong handle and upgrading the result at once reaches
/// the same container.
pub proof fn lemma_downgrade_upgrade<T, I: InteriorMut<T>>(store: RcStore<I>, r: Rc<I>, w: Weak<I>)
    requires
        store.wf(),
        store.live(r.id()),
        <Rc<I> as StrongReference<T>>::same_target(&r, &w),
    ensures
        store.upgraded(w) == Some(r.id()),
{
}

/// Once a container has been dropped, upgrading a weak handle to it gives
/// nothing, in every later state of the store.
pub proof fn lemma_upgrade_after_drop<I>(store: RcStore<I>, later: RcStore<I>, w: Weak<I>)
    requires
        0 <= w.id() < store.len(),
        !store.live(w.id()),
        store.keeps_dead(later),
    ensures
        later.upgraded(w) is None,
{
}

/// Dropped containers stay dropped across any run of steps.
pub proof fn lemma_keeps_dead_trans<I>(a: RcStore<I>, b: RcStore<I>, c: RcStore<I>)
    requires
        a.keeps_dead(b),
        b.keeps_dead(c),
    ensures
        a.keeps_dead(c),
{
}

} // verus!
