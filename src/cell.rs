use vstd::prelude::*;
use crate::borrow::{BorrowState, InteriorMut, Ref, RefMut};

verus! {

/// A single-threaded cell whose borrows are checked when requested and
/// refused at once on conflict.
pub struct RefCell<T> {
    value: T,
    state: BorrowState,
}

/// A shared borrow was refused: an exclusive borrow is out, or the count of
/// shared borrows is at its limit.
#[derive(Clone, Copy, Debug, PartialEq, Eq, Structural)]
pub struct BorrowError {}

/// An exclusive borrow was refused: some borrow is out.
#[derive(Clone, Copy, Debug, PartialEq, Eq, Structural)]
pub struct BorrowMutError {}

impl BorrowError {
    /// A description for diagnostics.
    pub fn description(&self) -> (r: &'static str)
        ensures
            r@ == "already mutably borrowed"@,
    {
        proof {
            reveal_strlit("already mutably borrowed");
        }
        "already mutably borrowed"
    }
}

impl BorrowMutError {
    /// A description for diagnostics.
    pub fn description(&self) -> (r: &'static str)
        ensures
            r@ == "already borrowed"@,
    {
        proof {
            reveal_strlit("already borrowed");
        }
        "already borrowed"
    }
}

impl<T> RefCell<T> {
    /// A cell holding `value`, with no borrow out.
    pub fn new(value: T) -> (c: Self)
        ensures
            c.value() == value,
            c.state().is_free(),
            !c.state().poisoned,
    {
        RefCell { value, state: BorrowState::unused() }
    }

    /// The current borrow bookkeeping.
    pub fn borrow_state(&self) -> (s: BorrowState)
        ensures
            s == self.state(),
    {
        self.state
    }

    /// Gives the value back, consuming the cell.
    pub fn into_inner(self) -> (v: T)
        ensures
            v == self.value(),
    {
        self.value
    }
}

impl<T> InteriorMut<T> for RefCell<T> {
    type Error = BorrowError;

    type ErrorMut = BorrowMutError;

    closed spec fn value(&self) -> T {
        self.value
    }

    closed spec fn state(&self) -> BorrowState {
        self.state
    }

    /// Granted unless an exclusive borrow is out or the reader count is full;
    /// a refusal leaves the state as it was.
    open spec fn shared_outcome(before: BorrowState, after: BorrowState, r: Result<Ref, BorrowError>) -> bool {
        if !before.writing && before.readers < usize::MAX {
            r is Ok && after == (BorrowState { readers: (before.readers + 1) as usize, ..before })
        } else {
            r is Err && after == before
        }
    }

    /// Granted only when no borrow at all is out.
    open spec fn exclusive_outcome(
        before: BorrowState,
        after: BorrowState,
        r: Result<RefMut, BorrowMutError>,
    ) -> bool {
        if before.is_free() {
            r is Ok && after == (BorrowState { writing: true, ..before })
        } else {
            r is Err && after == before
        }
    }

    open spec fn holds_shared(s: BorrowState) -> bool {
        s.readers > 0
    }

    open spec fn after_release(s: BorrowState) -> BorrowState {
        BorrowState { readers: (s.readers - 1) as usize, ..s }
    }

    fn borrow_int(&mut self) -> (r: Result<Ref, BorrowError>) {
        if !self.state.writing && self.state.readers < usize::MAX {
            self.state.readers = self.state.readers + 1;
            Ok(Ref { token: () })
        } else {
            Err(BorrowError {})
        }
    }

    fn borrow_int_mut(&mut self) -> (r: Result<RefMut, BorrowMutError>) {
        if !self.state.writing && self.state.readers == 0 {
            self.state.writing = true;
            Ok(RefMut { token: () })
        } else {
            Err(BorrowMutError {})
        }
    }

    fn release(&mut self, guard: Ref) {
        self.state.readers = self.state.readers - 1;
    }

    fn release_mut(&mut self, guard: RefMut) {
        self.state.writing = false;
    }

    fn get(&self) -> (r: &T) {
        &self.value
    }

    fn get_mut(&mut self, guard: &RefMut) -> (r: &mut T) {
        &mut self.value
    }
}

/// A shared request is refused while an exclusive borrow is out, and granted
/// while only shared borrows are out (short of the reader limit).
pub proof fn lemma_cell_shared<T>(before: BorrowState, after: BorrowState, r: Result<Ref, BorrowError>)
    requires
        before.wf(),
        <RefCell<T> as InteriorMut<T>>::shared_outcome(before, after, r),
    ensures
        before.writing ==> r is Err && after == before,
        !before.writing && before.readers < usize::MAX ==> r is Ok && after.readers == before.readers + 1,
{
}

/// An exclusive request is refused while any borrow is out.
pub proof fn lemma_cell_exclusive<T>(before: BorrowState, after: BorrowState, r: Result<RefMut, BorrowMutError>)
    requires
        before.wf(),
        <RefCell<T> as InteriorMut<T>>::exclusive_outcome(before, after, r),
    ensures
        r is Ok <==> before.is_free(),
        r is Err ==> after == before,
{
}

} // verus!
