use interior_mut::{InteriorMut, Mutex, RwLock, TryLockError};

#[test]
fn mutex_shared_request_takes_lock_exclusively() {
    let mut m = Mutex::new(7u32);
    let g = m.borrow_int().unwrap();
    assert!(m.borrow_state().writing);
    assert!(matches!(m.borrow_int(), Err(TryLockError::WouldBlock)));
    assert!(matches!(m.borrow_int_mut(), Err(TryLockError::WouldBlock)));
    m.release(g);
    assert_eq!(m.borrow_state().readers, 0);
    assert!(!m.borrow_state().writing);
    let w = m.borrow_int_mut().unwrap();
    m.release_mut(w);
    assert!(m.borrow_int().is_ok());
}

#[test]
fn mutex_poisoned_still_hands_guard() {
    let mut m = Mutex::new(7u32);
    let w = m.borrow_int_mut().unwrap();
    *m.get_mut(&w) = 9;
    m.release_poisoned(w);
    assert!(m.is_poisoned());
    let e = m.borrow_int_mut().unwrap_err();
    assert_eq!(e.description(), "poisoned lock: another holder failed");
    let g = e.into_guard().unwrap();
    assert_eq!(*m.get(), 9);
    m.release_mut(g);
    assert!(matches!(m.borrow_int(), Err(TryLockError::Poisoned(_))));
}

#[test]
fn rwlock_readers_together() {
    let mut l = RwLock::new(String::from("x"));
    let a = l.borrow_int().unwrap();
    let b = l.borrow_int().unwrap();
    let c = l.borrow_int().unwrap();
    assert_eq!(l.borrow_state().readers, 3);
    assert_eq!(l.get().as_str(), "x");
    l.release(a);
    l.release(b);
    l.release(c);
    assert_eq!(l.borrow_state().readers, 0);
    assert!(!l.borrow_state().writing);
}

#[test]
fn rwlock_writer_excluded_by_reader() {
    let mut l = RwLock::new(0u8);
    let a = l.borrow_int().unwrap();
    let e = l.borrow_int_mut().unwrap_err();
    assert!(matches!(e, TryLockError::WouldBlock));
    assert_eq!(e.description(), "lock held by another borrow");
    l.release(a);
    let w = l.borrow_int_mut().unwrap();
    assert!(matches!(l.borrow_int(), Err(TryLockError::WouldBlock)));
    l.release_mut(w);
    assert!(l.borrow_int().is_ok());
}

#[test]
fn rwlock_poisoned_reader_gets_guard() {
    let mut l = RwLock::new(3u16);
    let w = l.borrow_int_mut().unwrap();
    l.release_poisoned(w);
    let e = l.borrow_int().unwrap_err();
    assert!(e.into_guard().is_some());
    assert_eq!(l.borrow_state().readers, 1);
    assert!(l.is_poisoned());
}
