//! Uniform fallible shared and exclusive borrowing over containers whose
//! borrow conflicts are checked at run time.
//!
//! Every container keeps a [`BorrowState`]: how many shared borrows are out,
//! whether an exclusive one is out, and whether a holder failed while writing.
//! A borrow hands back a guard token ([`Ref`] or [`RefMut`]); handing the token
//! back to the container ends the borrow.

mod borrow;
mod cell;
mod lock;
mod rc;

pub use borrow::{BorrowState, InteriorMut, Ref, RefMut};
pub use cell::{lemma_cell_exclusive, lemma_cell_shared, BorrowError, BorrowMutError, RefCell};
pub use lock::{
    granted, lemma_last_release_frees, lemma_mutex_free_grants, lemma_rwlock_free_grants,
    lemma_rwlock_sharing, Mutex, RwLock, TryLockError,
};
pub use rc::{
    lemma_downgrade_upgrade, lemma_keeps_dead_trans, lemma_upgrade_after_drop, Rc, RcStore,
    StrongReference, Weak, WeakReference,
};
