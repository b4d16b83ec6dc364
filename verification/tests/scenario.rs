use combarc::CombArc;
use combarc::CombRc;
use std::cell::Cell;
use std::rc::Rc;
use std::sync::Arc;

#[test]
fn arc_end_to_end_boolean_cell() {
    // Two aliasing handles over one self-mutable boolean cell.
    let mut h1 = CombArc::new(Cell::new(false));
    let h2 = h1.clone();
    assert_eq!(h1, h2);
    assert!(Arc::ptr_eq(CombArc::get_arc(&h1), CombArc::get_arc(&h2)));

    // Interior mutation through the shared view: no divergence.
    h1.get().set(true);
    assert_eq!(h1, h2);
    assert!(Arc::ptr_eq(CombArc::get_arc(&h1), CombArc::get_arc(&h2)));

    // Exclusive access on the shared handle: the writer diverges,
    // the sibling keeps its cell and its value.
    let h2_addr = Arc::as_ptr(CombArc::get_arc(&h2));
    h1.make_mut().set(false);
    assert_ne!(h1, h2);
    assert!(!Arc::ptr_eq(CombArc::get_arc(&h1), CombArc::get_arc(&h2)));
    assert_eq!(Arc::as_ptr(CombArc::get_arc(&h2)), h2_addr);

    // Exclusive access on the now-unique handle: in place, no divergence.
    let h1_addr = Arc::as_ptr(CombArc::get_arc(&h1));
    h1.make_mut().set(true);
    assert_eq!(Arc::as_ptr(CombArc::get_arc(&h1)), h1_addr);
    assert!(!Arc::ptr_eq(CombArc::get_arc(&h1), CombArc::get_arc(&h2)));
    assert!(h2.get().get());
    // Equality is deep, through the pointers: both cells hold true again,
    // so the handles compare equal although their cells stay distinct.
    assert_eq!(h1, h2);
}

#[test]
fn rc_end_to_end_boolean_cell() {
    let mut h1 = CombRc::new(Cell::new(false));
    let h2 = h1.clone();
    assert_eq!(h1, h2);
    assert!(Rc::ptr_eq(CombRc::get_rc(&h1), CombRc::get_rc(&h2)));

    h1.get().set(true);
    assert_eq!(h1, h2);
    assert!(Rc::ptr_eq(CombRc::get_rc(&h1), CombRc::get_rc(&h2)));

    let h2_addr = Rc::as_ptr(CombRc::get_rc(&h2));
    h1.make_mut().set(false);
    assert_ne!(h1, h2);
    assert!(!Rc::ptr_eq(CombRc::get_rc(&h1), CombRc::get_rc(&h2)));
    assert_eq!(Rc::as_ptr(CombRc::get_rc(&h2)), h2_addr);

    let h1_addr = Rc::as_ptr(CombRc::get_rc(&h1));
    h1.make_mut().set(true);
    assert_eq!(Rc::as_ptr(CombRc::get_rc(&h1)), h1_addr);
    assert!(!Rc::ptr_eq(CombRc::get_rc(&h1), CombRc::get_rc(&h2)));
    assert!(h2.get().get());
    assert_eq!(h1, h2);
}
