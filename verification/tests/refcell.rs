use mini_cells::refcell::MyRefCell;

#[test]
fn borrow_cell_shared_then_exclusive_scenario() {
    let mut cell = MyRefCell::new(5i32);
    let r1 = cell.borrow();
    assert!(r1.is_some());
    let r2 = cell.borrow();
    assert!(r2.is_some());
    assert!(cell.borrow_mut().is_none());
    let r1 = r1.unwrap();
    let r2 = r2.unwrap();
    assert_eq!(*r1.deref(&cell), 5);
    assert_eq!(*r2.deref(&cell), 5);
    r1.release(&mut cell);
    r2.release(&mut cell);
    let m = cell.borrow_mut();
    assert!(m.is_some());
    let m = m.unwrap();
    *m.deref_mut(&mut cell) = 6;
    assert_eq!(*m.deref(&cell), 6);
    m.release(&mut cell);
    let r = cell.borrow().unwrap();
    assert_eq!(*r.deref(&cell), 6);
    r.release(&mut cell);
}

#[test]
fn exclusive_guard_denies_every_other_borrow() {
    let mut cell = MyRefCell::new(0u8);
    let m = cell.borrow_mut().unwrap();
    assert!(cell.borrow_mut().is_none());
    assert!(cell.borrow().is_none());
    m.release(&mut cell);
}

#[test]
fn releasing_guards_restores_both_borrows() {
    let mut cell = MyRefCell::new(1u16);
    let r1 = cell.borrow().unwrap();
    let r2 = cell.borrow().unwrap();
    assert!(cell.borrow_mut().is_none());
    r1.release(&mut cell);
    assert!(cell.borrow_mut().is_none());
    r2.release(&mut cell);
    let m = cell.borrow_mut().unwrap();
    m.release(&mut cell);
    let r = cell.borrow().unwrap();
    r.release(&mut cell);
    let m2 = cell.borrow_mut().unwrap();
    m2.release(&mut cell);
}

#[test]
fn shared_borrows_repeat_without_bound() {
    let mut cell = MyRefCell::new(9u32);
    let mut guards = Vec::new();
    let mut i: usize = 0;
    while i < 100 {
        let g = cell.borrow();
        assert!(g.is_some());
        guards.push(g.unwrap());
        i += 1;
    }
    assert!(cell.borrow_mut().is_none());
    for g in guards {
        assert_eq!(*g.deref(&cell), 9);
        g.release(&mut cell);
    }
    assert!(cell.borrow_mut().is_some());
}
