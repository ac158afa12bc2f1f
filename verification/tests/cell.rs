use mini_cells::cell::MyCell;

#[test]
fn mutable_cell_new_then_get_returns_initial() {
    let c = MyCell::new(5u64);
    assert_eq!(c.get(), 5);
    let b = MyCell::new(true);
    assert!(b.get());
    let ch = MyCell::new('q');
    assert_eq!(ch.get(), 'q');
}

#[test]
fn mutable_cell_set_overwrites_value() {
    let mut c = MyCell::new(1i32);
    c.set(2);
    assert_eq!(c.get(), 2);
    c.set(-7);
    assert_eq!(c.get(), -7);
}

#[test]
fn mutable_cell_swap_exchanges_contents() {
    let mut a = MyCell::new(10u8);
    let mut b = MyCell::new(20u8);
    a.swap(&mut b);
    assert_eq!(a.get(), 20);
    assert_eq!(b.get(), 10);
}
