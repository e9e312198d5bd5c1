use interior_mut::{InteriorMut, RcStore, RefCell, RwLock, StrongReference, WeakReference};

#[test]
fn downgrade_then_upgrade_reaches_same_container() {
    let mut store = RcStore::new();
    let r = store.insert(RefCell::new(42u32));
    let w = StrongReference::<u32>::downgrade(&r);
    let u = WeakReference::<u32>::upgrade(&w, &mut store).unwrap();
    assert!(u.ptr_eq(&r));
    assert_eq!(store.strong_count(&w), 2);
    assert_eq!(*store.get(&u), 42);
    assert_eq!(*store.get(&r), 42);
}

#[test]
fn upgrade_while_another_strong_remains() {
    let mut store = RcStore::new();
    let r = store.insert(RefCell::new(1u8));
    let r2 = store.clone_strong(&r);
    let w = StrongReference::<u8>::downgrade(&r);
    store.drop_strong(r);
    assert_eq!(store.strong_count(&w), 1);
    let u = store.upgrade(&w).unwrap();
    assert_eq!(u.index(), w.index());
    assert_eq!(store.strong_count(&w), 2);
    store.drop_strong(u);
    store.drop_strong(r2);
    assert_eq!(store.strong_count(&w), 0);
    assert!(store.upgrade(&w).is_none());
}

#[test]
fn upgrade_none_forever_after_drop() {
    let mut store = RcStore::new();
    let r = store.insert(RefCell::new(1u8));
    let w = StrongReference::<u8>::downgrade(&r);
    store.drop_strong(r);
    assert_eq!(store.strong_count(&w), 0);
    assert!(store.upgrade(&w).is_none());
    let other = store.insert(RefCell::new(2u8));
    assert!(store.upgrade(&w).is_none());
    assert!(WeakReference::<u8>::upgrade(&w, &mut store).is_none());
    assert_eq!(*store.get(&other), 2);
}

#[test]
fn forwarding_matches_direct_cell() {
    let mut store = RcStore::new();
    let r = store.insert(RefCell::new(10i32));
    let mut direct = RefCell::new(10i32);

    let a = store.borrow_int(&r).unwrap();
    let b = direct.borrow_int().unwrap();
    assert!(store.borrow_int_mut(&r).is_err());
    assert!(direct.borrow_int_mut().is_err());
    store.release(&r, a);
    direct.release(b);

    let wa = store.borrow_int_mut(&r).unwrap();
    let wb = direct.borrow_int_mut().unwrap();
    assert!(store.borrow_int(&r).is_err());
    assert!(direct.borrow_int().is_err());
    *store.get_mut(&r, &wa) = 11;
    *direct.get_mut(&wb) = 11;
    store.release_mut(&r, wa);
    direct.release_mut(wb);
    assert_eq!(*store.get(&r), *direct.get());
}

#[test]
fn forwarding_matches_direct_rwlock() {
    let mut store = RcStore::new();
    let r = store.insert(RwLock::new(0u64));
    let mut direct = RwLock::new(0u64);
    let a = store.borrow_int(&r).unwrap();
    let b = direct.borrow_int().unwrap();
    assert!(store.borrow_int(&r).is_ok());
    assert!(direct.borrow_int().is_ok());
    assert!(store.borrow_int_mut(&r).is_err());
    assert!(direct.borrow_int_mut().is_err());
    store.release(&r, a);
    direct.release(b);
}
