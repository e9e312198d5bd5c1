use vstd::prelude::*;
use crate::borrow::{BorrowState, InteriorMut, Ref, RefMut};

verus! {

/// Why a lock request was not granted outright.
#[derive(Debug)]
pub enum TryLockError<G> {
    /// A conflicting holder is still there; the request has to wait until
    /// it lets go.
    WouldBlock,
    /// The lock was taken, but an earlier holder failed while writing, so the
    /// value may be inconsistent. The guard is handed out all the same.
    Poisoned(G),
}

impl<G> TryLockError<G> {
    /// A description for diagnostics.
    pub fn description(&self) -> (r: &'static str)
        ensures
            self is WouldBlock ==> r@ == "lock held by another borrow"@,
            self is Poisoned ==> r@ == "poisoned lock: another holder failed"@,
    {
        match self {
            TryLockError::WouldBlock => {
                proof {
                    reveal_strlit("lock held by another borrow");
                }
                "lock held by another borrow"
            },
            TryLockError::Poisoned(_) => {
                proof {
                    reveal_strlit("poisoned lock: another holder failed");
                }
                "poisoned lock: another holder failed"
            },
        }
    }

    /// Takes the guard out of a poisoned answer, to recover the value.
    pub fn into_guard(self) -> (g: Option<G>)
        ensures
            match self {
                TryLockError::WouldBlock => g is None,
                TryLockError::Poisoned(x) => g == Some(x),
            },
    {
        match self {
            TryLockError::WouldBlock => None,
            TryLockError::Poisoned(x) => Some(x),
        }
    }
}

/// The answer to a request that the lock can grant now: the guard, wrapped in
/// `Poisoned` when an earlier holder failed.
pub open spec fn granted<G>(poisoned: bool, r: Result<G, TryLockError<G>>) -> bool {
    if poisoned {
        r is Err && r->Err_0 is Poisoned
    } else {
        r is Ok
    }
}

/// A lock with exclusive access only: a shared request takes the lock
/// exclusively too.
pub struct Mutex<T> {
    value: T,
    state: BorrowState,
}

/// A lock that lets many readers in together, or one writer alone.
pub struct RwLock<T> {
    value: T,
    state: BorrowState,
}

impl<T> Mutex<T> {
    /// A lock holding `value`, free and not poisoned.
    pub fn new(value: T) -> (m: Self)
        ensures
            m.value() == value,
            m.state().is_free(),
            !m.state().poisoned,
    {
        Mutex { value, state: BorrowState::unused() }
    }

    /// The current borrow bookkeeping.
    pub fn borrow_state(&self) -> (s: BorrowState)
        ensures
            s == self.state(),
    {
        self.state
    }

    /// Whether an earlier holder failed while writing.
    pub fn is_poisoned(&self) -> (b: bool)
        ensures
            b == self.state().poisoned,
    {
        self.state.poisoned
    }

    /// Ends an exclusive borrow whose holder failed: the lock is let go and
    /// marked poisoned for good.
    pub fn release_poisoned(&mut self, guard: RefMut)
        requires
            old(self).state().writing,
        ensures
            final(self).value() == old(self).value(),
            final(self).state() == (BorrowState { writing: false, poisoned: true, ..old(self).state() }),
    {
        self.state.writing = false;
        self.state.poisoned = true;
    }
}

impl<T> RwLock<T> {
    /// A lock holding `value`, free and not poisoned.
    pub fn new(value: T) -> (m: Self)
        ensures
            m.value() == value,
            m.state().is_free(),
            !m.state().poisoned,
    {
        RwLock { value, state: BorrowState::unused() }
    }

    /// The current borrow bookkeeping.
    pub fn borrow_state(&self) -> (s: BorrowState)
        ensures
            s == self.state(),
    {
        self.state
    }

    /// Whether an earlier holder failed while writing.
    pub fn is_poisoned(&self) -> (b: bool)
        ensures
            b == self.state().poisoned,
    {
        self.state.poisoned
    }

    /// Ends an exclusive borrow whose holder failed: the lock is let go and
    /// marked poisoned for good.
    pub fn release_poisoned(&mut self, guard: RefMut)
        requires
            old(self).state().writing,
        ensures
            final(self).value() == old(self).value(),
            final(self).state() == (BorrowState { writing: false, poisoned: true, ..old(self).state() }),
    {
        self.state.writing = false;
        self.state.poisoned = true;
    }
}

impl<T> InteriorMut<T> for Mutex<T> {
    type Error = TryLockError<Ref>;

    type ErrorMut = TryLockError<RefMut>;

    closed spec fn value(&self) -> T {
        self.value
    }

    closed spec fn state(&self) -> BorrowState {
        self.state
    }

    /// The lock is taken exclusively when it is free; otherwise the request
    /// waits and nothing changes.
    open spec fn shared_outcome(
        before: BorrowState,
        after: BorrowState,
        r: Result<Ref, TryLockError<Ref>>,
    ) -> bool {
        if before.is_free() {
            granted(before.poisoned, r) && after == (BorrowState { writing: true, ..before })
        } else {
            r is Err && r->Err_0 is WouldBlock && after == before
        }
    }

    open spec fn exclusive_outcome(
        before: BorrowState,
        after: BorrowState,
        r: Result<RefMut, TryLockError<RefMut>>,
    ) -> bool {
        if before.is_free() {
            granted(before.poisoned, r) && after == (BorrowState { writing: true, ..before })
        } else {
            r is Err && r->Err_0 is WouldBlock && after == before
        }
    }

    /// A shared borrow of a mutex is held as the exclusive lock.
    open spec fn holds_shared(s: BorrowState) -> bool {
        s.writing
    }

    open spec fn after_release(s: BorrowState) -> BorrowState {
        BorrowState { writing: false, ..s }
    }

    fn borrow_int(&mut self) -> (r: Result<Ref, TryLockError<Ref>>) {
        if self.state.writing || self.state.readers > 0 {
            Err(TryLockError::WouldBlock)
        } else {
            self.state.writing = true;
            if self.state.poisoned {
                Err(TryLockError::Poisoned(Ref { token: () }))
            } else {
                Ok(Ref { token: () })
            }
        }
    }

    fn borrow_int_mut(&mut self) -> (r: Result<RefMut, TryLockError<RefMut>>) {
        if self.state.writing || self.state.readers > 0 {
            Err(TryLockError::WouldBlock)
        } else {
            self.state.writing = true;
            if self.state.poisoned {
                Err(TryLockError::Poisoned(RefMut { token: () }))
            } else {
                Ok(RefMut { token: () })
            }
        }
    }

    fn release(&mut self, guard: Ref) {
        self.state.writing = false;
    }

    fn release_mut(&mut self, guard: RefMut) {
        self.state.writing = false;
    }

    fn get(&self) -> (r: &T) {
        &self.value
    }

    fn get_mut(&mut self, guard: &RefMut) -> (r: &mut T) {
        &mut self.value
    }
}

impl<T> InteriorMut<T> for RwLock<T> {
    type Error = TryLockError<Ref>;

    type ErrorMut = TryLockError<RefMut>;

    closed spec fn value(&self) -> T {
        self.value
    }

    closed spec fn state(&self) -> BorrowState {
        self.state
    }

    /// A reader gets in unless a writer is there or the reader count is
    /// full; then it waits and nothing changes.
    open spec fn shared_outcome(
        before: BorrowState,
        after: BorrowState,
        r: Result<Ref, TryLockError<Ref>>,
    ) -> bool {
        if !before.writing && before.readers < usize::MAX {
            granted(before.poisoned, r) && after == (BorrowState {
                readers: (before.readers + 1) as usize,
                ..before
            })
        } else {
            r is Err && r->Err_0 is WouldBlock && after == before
        }
    }

    /// A writer gets in only when nobody is there.
    open spec fn exclusive_outcome(
        before: BorrowState,
        after: BorrowState,
        r: Result<RefMut, TryLockError<RefMut>>,
    ) -> bool {
        if before.is_free() {
            granted(before.poisoned, r) && after == (BorrowState { writing: true, ..before })
        } else {
            r is Err && r->Err_0 is WouldBlock && after == before
        }
    }

    open spec fn holds_shared(s: BorrowState) -> bool {
        s.readers > 0
    }

    open spec fn after_release(s: BorrowState) -> BorrowState {
        BorrowState { readers: (s.readers - 1) as usize, ..s }
    }

    fn borrow_int(&mut self) -> (r: Result<Ref, TryLockError<Ref>>) {
        if self.state.writing || self.state.readers == usize::MAX {
            Err(TryLockError::WouldBlock)
        } else {
            self.state.readers = self.state.readers + 1;
            if self.state.poisoned {
                Err(TryLockError::Poisoned(Ref { token: () }))
            } else {
                Ok(Ref { token: () })
            }
        }
    }

    fn borrow_int_mut(&mut self) -> (r: Result<RefMut, TryLockError<RefMut>>) {
        if self.state.writing || self.state.readers > 0 {
            Err(TryLockError::WouldBlock)
        } else {
            self.state.writing = true;
            if self.state.poisoned {
                Err(TryLockError::Poisoned(RefMut { token: () }))
            } else {
                Ok(RefMut { token: () })
            }
        }
    }

    fn release(&mut self, guard: Ref) {
        self.state.readers = self.state.readers - 1;
    }

    fn release_mut(&mut self, guard: RefMut) {
        self.state.writing = false;
    }

    fn get(&self) -> (r: &T) {
        &self.value
    }

    fn get_mut(&mut self, guard: &RefMut) -> (r: &mut T) {
        &mut self.value
    }
}

/// Once every holder has let go, a mutex grants either request: the guard
/// comes back, wrapped in `Poisoned` only if an earlier holder failed.
pub proof fn lemma_mutex_free_grants<T>(
    s: BorrowState,
    after_shared: BorrowState,
    rs: Result<Ref, TryLockError<Ref>>,
    after_excl: BorrowState,
    re: Result<RefMut, TryLockError<RefMut>>,
)
    requires
        s.wf(),
        s.is_free(),
        <Mutex<T> as InteriorMut<T>>::shared_outcome(s, after_shared, rs),
        <Mutex<T> as InteriorMut<T>>::exclusive_outcome(s, after_excl, re),
    ensures
        granted(s.poisoned, rs),
        granted(s.poisoned, re),
{
}

/// Once every holder has let go, a read/write lock grants either request.
pub proof fn lemma_rwlock_free_grants<T>(
    s: BorrowState,
    after_shared: BorrowState,
    rs: Result<Ref, TryLockError<Ref>>,
    after_excl: BorrowState,
    re: Result<RefMut, TryLockError<RefMut>>,
)
    requires
        s.wf(),
        s.is_free(),
        <RwLock<T> as InteriorMut<T>>::shared_outcome(s, after_shared, rs),
        <RwLock<T> as InteriorMut<T>>::exclusive_outcome(s, after_excl, re),
    ensures
        granted(s.poisoned, rs),
        granted(s.poisoned, re),
{
}

/// Letting go of the only holder frees the lock: the writer of a mutex, the
/// writer or the last reader of a read/write lock.
pub proof fn lemma_last_release_frees<T>(s: BorrowState)
    requires
        s.wf(),
    ensures
        s.writing ==> (BorrowState { writing: false, ..s }).is_free(),
        s.writing ==> <Mutex<T> as InteriorMut<T>>::after_release(s).is_free(),
        s.readers == 1 ==> <RwLock<T> as InteriorMut<T>>::after_release(s).is_free(),
{
}

/// A read/write lock lets readers in together, and never lets a writer in
/// beside a reader or a reader beside a writer.
pub proof fn lemma_rwlock_sharing<T>(
    s: BorrowState,
    after_shared: BorrowState,
    rs: Result<Ref, TryLockError<Ref>>,
    after_excl: BorrowState,
    re: Result<RefMut, TryLockError<RefMut>>,
)
    requires
        s.wf(),
        <RwLock<T> as InteriorMut<T>>::shared_outcome(s, after_shared, rs),
        <RwLock<T> as InteriorMut<T>>::exclusive_outcome(s, after_excl, re),
    ensures
        !s.writing && s.readers < usize::MAX ==> granted(s.poisoned, rs) && after_shared.readers
            == s.readers + 1,
        s.writing ==> rs is Err && rs->Err_0 is WouldBlock && after_shared == s,
        s.readers > 0 ==> re is Err && re->Err_0 is WouldBlock && after_excl == s,
        after_shared.wf() && after_excl.wf(),
{
}

} // verus!
