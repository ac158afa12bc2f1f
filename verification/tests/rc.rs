use mini_cells::rc::MyRc;

#[test]
fn shared_pointer_clone_reads_same_value() {
    let (a, mut inner) = MyRc::new(42u64);
    let b = a.clone(&mut inner);
    assert_eq!(*a.deref(&inner), 42);
    assert_eq!(*b.deref(&inner), 42);
    assert!(b.release(inner).is_some());
}

#[test]
fn shared_pointer_survives_first_release() {
    let (ptr1, mut inner) = MyRc::new(String::from("x"));
    let ptr2 = ptr1.clone(&mut inner);
    let inner = ptr1.release(inner).expect("a handle is still live");
    assert_eq!(ptr2.deref(&inner), "x");
    assert!(ptr2.release(inner).is_none());
}

#[test]
fn shared_pointer_frees_exactly_at_last_release() {
    let (h1, mut inner) = MyRc::new(7i32);
    let h2 = h1.clone(&mut inner);
    let h3 = h2.clone(&mut inner);
    let inner = h3.release(inner).expect("two handles are still live");
    let inner = h1.release(inner).expect("one handle is still live");
    assert_eq!(*h2.deref(&inner), 7);
    assert!(h2.release(inner).is_none());
}
