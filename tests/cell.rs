use interior_mut::{BorrowError, BorrowMutError, InteriorMut, RefCell};

#[test]
fn shared_refused_while_exclusive_out() {
    let mut c = RefCell::new(5u32);
    let w = c.borrow_int_mut().unwrap();
    assert!(matches!(c.borrow_int(), Err(BorrowError {})));
    c.release_mut(w);
    assert!(c.borrow_int().is_ok());
}

#[test]
fn shared_granted_beside_other_shared() {
    let mut c = RefCell::new(5u32);
    let a = c.borrow_int().unwrap();
    let b = c.borrow_int().unwrap();
    assert_eq!(c.borrow_state().readers, 2);
    assert_eq!(*c.get(), 5);
    c.release(a);
    c.release(b);
    assert_eq!(c.borrow_state().readers, 0);
}

#[test]
fn exclusive_refused_while_shared_out() {
    let mut c = RefCell::new(1i64);
    let a = c.borrow_int().unwrap();
    assert!(matches!(c.borrow_int_mut(), Err(BorrowMutError {})));
    c.release(a);
    assert!(c.borrow_int_mut().is_ok());
}

#[test]
fn exclusive_refused_while_exclusive_out() {
    let mut c = RefCell::new(1i64);
    let w = c.borrow_int_mut().unwrap();
    assert!(c.borrow_int_mut().is_err());
    assert!(c.borrow_state().writing);
    c.release_mut(w);
    assert!(!c.borrow_state().writing);
}

#[test]
fn exclusive_borrow_writes_value() {
    let mut c = RefCell::new(vec![1u8, 2]);
    let w = c.borrow_int_mut().unwrap();
    c.get_mut(&w).push(3);
    c.release_mut(w);
    assert_eq!(c.into_inner(), vec![1u8, 2, 3]);
}

#[test]
fn cell_error_descriptions() {
    assert_eq!(BorrowError {}.description(), "already mutably borrowed");
    assert_eq!(BorrowMutError {}.description(), "already borrowed");
}
