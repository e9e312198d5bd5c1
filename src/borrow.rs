use vstd::prelude::*;

verus! {

/// Bookkeeping of the borrows that are out on one container.
#[derive(Clone, Copy, Debug, PartialEq, Eq, Structural)]
pub struct BorrowState {
    /// Number of shared borrows currently out.
    pub readers: usize,
    /// Whether an exclusive borrow is currently out.
    pub writing: bool,
    /// Whether a holder of an exclusive borrow failed while holding it.
    pub poisoned: bool,
}

impl BorrowState {
    /// An exclusive borrow never coexists with a shared one.
    pub open spec fn wf(self) -> bool {
        !(self.writing && self.readers > 0)
    }

    /// No borrow of any kind is out.
    pub open spec fn is_free(self) -> bool {
        self.readers == 0 && !self.writing
    }

    /// The state of a container that nobody has borrowed yet.
    pub fn unused() -> (s: BorrowState)
        ensures
            s.is_free(),
            !s.poisoned,
            s.wf(),
    {
        BorrowState { readers: 0, writing: false, poisoned: false }
    }
}

/// Token for a granted shared borrow. Give it back to end the borrow.
#[derive(Debug)]
pub struct Ref {
    pub(crate) token: (),
}

/// Token for a granted exclusive borrow. Give it back to end the borrow.
#[derive(Debug)]
pub struct RefMut {
    pub(crate) token: (),
}

/// A container that lends its value out, shared or exclusively, checking
/// conflicts between borrows when they are requested.
pub trait InteriorMut<T>: Sized {
    /// Why a shared borrow was refused.
    type Error;

    /// Why an exclusive borrow was refused.
    type ErrorMut;

    /// The value held.
    spec fn value(&self) -> T;

    /// The borrows that are out.
    spec fn state(&self) -> BorrowState;

    /// What a shared request made in state `before` leads to: the new state
    /// `after` and the answer `r`.
    spec fn shared_outcome(before: BorrowState, after: BorrowState, r: Result<Ref, Self::Error>) -> bool;

    /// What an exclusive request made in state `before` leads to.
    spec fn exclusive_outcome(
        before: BorrowState,
        after: BorrowState,
        r: Result<RefMut, Self::ErrorMut>,
    ) -> bool;

    /// Whether a shared borrow is out that can be handed back.
    spec fn holds_shared(s: BorrowState) -> bool;

    /// The state after a shared borrow is handed back.
    spec fn after_release(s: BorrowState) -> BorrowState;

    /// Requests a shared borrow of the value.
    fn borrow_int(&mut self) -> (r: Result<Ref, Self::Error>)
        requires
            old(self).state().wf(),
        ensures
            final(self).state().wf(),
            final(self).value() == old(self).value(),
            Self::shared_outcome(old(self).state(), final(self).state(), r),
    ;

    /// Requests an exclusive borrow of the value.
    fn borrow_int_mut(&mut self) -> (r: Result<RefMut, Self::ErrorMut>)
        requires
            old(self).state().wf(),
        ensures
            final(self).state().wf(),
            final(self).value() == old(self).value(),
            Self::exclusive_outcome(old(self).state(), final(self).state(), r),
    ;

    /// Ends a shared borrow.
    fn release(&mut self, guard: Ref)
        requires
            old(self).state().wf(),
            Self::holds_shared(old(self).state()),
        ensures
            final(self).state().wf(),
            final(self).value() == old(self).value(),
            final(self).state() == Self::after_release(old(self).state()),
    ;

    /// Ends an exclusive borrow.
    fn release_mut(&mut self, guard: RefMut)
        requires
            old(self).state().wf(),
            old(self).state().writing,
        ensures
            final(self).state().wf(),
            final(self).value() == old(self).value(),
            final(self).state() == (BorrowState { writing: false, ..old(self).state() }),
    ;

    /// Reads the value.
    fn get(&self) -> (r: &T)
        ensures
            *r == self.value(),
    ;

    /// Writes through an exclusive borrow.
    fn get_mut(&mut self, guard: &RefMut) -> (r: &mut T)
        requires
            old(self).state().writing,
        ensures
            *r == old(self).value(),
            final(self).value() == *final(r),
            final(self).state() == old(self).state(),
    ;
}

} // verus!
