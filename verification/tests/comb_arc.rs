use combarc::CombArc;
use std::cell::Cell;
use std::cmp::Ordering;
use std::sync::Arc;

#[test]
fn arc_clone_aliases_and_compares_equal() {
    let h1 = CombArc::new(5u32);
    let h2 = h1.clone();
    assert_eq!(h1, h2);
    assert!(Arc::ptr_eq(CombArc::get_arc(&h1), CombArc::get_arc(&h2)));
    assert_eq!(Arc::strong_count(CombArc::get_arc(&h1)), 2);
}

#[test]
fn arc_interior_mutation_does_not_diverge() {
    let h1 = CombArc::new(Cell::new(false));
    let h2 = h1.clone();
    h1.get().set(true);
    assert!(Arc::ptr_eq(CombArc::get_arc(&h1), CombArc::get_arc(&h2)));
    assert_eq!(h1, h2);
    assert!(h2.get().get());
}

#[test]
fn arc_exclusive_mutation_on_shared_handle_diverges() {
    let mut h1 = CombArc::new(1u32);
    let h2 = h1.clone();
    let h2_addr = Arc::as_ptr(CombArc::get_arc(&h2));
    *h1.make_mut() = 2;
    assert!(!Arc::ptr_eq(CombArc::get_arc(&h1), CombArc::get_arc(&h2)));
    assert_eq!(Arc::as_ptr(CombArc::get_arc(&h2)), h2_addr);
    assert_ne!(h1, h2);
    assert_eq!(*h1.get(), 2);
    assert_eq!(*h2.get(), 1);
}

#[test]
fn arc_exclusive_mutation_on_unique_handle_stays_in_place() {
    let mut h = CombArc::new(0u32);
    let addr = Arc::as_ptr(CombArc::get_arc(&h));
    for i in 0..5u32 {
        *h.make_mut() = i;
    }
    assert_eq!(Arc::as_ptr(CombArc::get_arc(&h)), addr);
    assert_eq!(*h.get(), 4);
}

#[test]
fn arc_set_diverges_only_the_writer() {
    let mut h1 = CombArc::new(1u8);
    let h2 = h1.clone();
    h1.set(9);
    assert_eq!(*h1.get(), 9);
    assert_eq!(*h2.get(), 1);
}

#[test]
fn arc_observer_blocks_move_out_until_dropped() {
    let h = CombArc::new(4u32);
    let w = Arc::downgrade(CombArc::get_arc(&h));
    let h = match CombArc::try_unwrap(h) {
        Ok(_) => panic!("an observed cell must not be moved out of"),
        Err(h) => h,
    };
    assert_eq!(*h.get(), 4);
    drop(w);
    match CombArc::try_unwrap(h) {
        Ok(v) => assert_eq!(v, 4),
        Err(_) => panic!("a sole unobserved owner must move the value out"),
    }
}

#[test]
fn arc_sibling_owner_blocks_move_out() {
    let h1 = CombArc::new(9i32);
    let h2 = h1.clone();
    let h1 = match CombArc::try_unwrap(h1) {
        Ok(_) => panic!("a shared cell must not be moved out of"),
        Err(h) => h,
    };
    assert!(Arc::ptr_eq(CombArc::get_arc(&h1), CombArc::get_arc(&h2)));
    assert_eq!(*h1.get(), 9);
}

#[test]
fn arc_move_round_trip() {
    match CombArc::try_unwrap(CombArc::new(String::from("abc"))) {
        Ok(v) => assert_eq!(v, "abc"),
        Err(_) => panic!("a sole unobserved owner must move the value out"),
    }
}

#[test]
fn arc_observer_invalidated_when_owners_gone() {
    let h = CombArc::new(1u8);
    let w = Arc::downgrade(CombArc::get_arc(&h));
    assert!(w.upgrade().is_some());
    drop(h);
    assert!(w.upgrade().is_none());
    assert!(w.upgrade().is_none());
}

#[test]
fn arc_observer_survives_while_sibling_owner_exists() {
    let mut h1 = CombArc::new(10u32);
    let h2 = h1.clone();
    let w = Arc::downgrade(CombArc::get_arc(&h1));
    *h1.make_mut() = 11;
    let up = w.upgrade();
    match up {
        Some(a) => assert_eq!(*a, 10),
        None => panic!("the sibling owner keeps the observed cell alive"),
    }
    drop(h2);
    assert!(w.upgrade().is_none());
}

#[test]
fn arc_make_inner_moves_when_unique_and_clones_when_shared() {
    let h1 = CombArc::new(String::from("abc"));
    let h2 = h1.clone();
    assert_eq!(CombArc::make_inner(h1), "abc");
    assert_eq!(*h2.get(), "abc");
    assert_eq!(CombArc::make_inner(h2), "abc");
}

#[test]
fn arc_clone_unique_duplicates_into_fresh_cell() {
    let h1 = CombArc::new(7u64);
    let h2 = CombArc::clone_unique(&h1);
    assert!(!Arc::ptr_eq(CombArc::get_arc(&h1), CombArc::get_arc(&h2)));
    assert_eq!(h1, h2);
    assert_eq!(Arc::strong_count(CombArc::get_arc(&h1)), 1);
    assert_eq!(Arc::strong_count(CombArc::get_arc(&h2)), 1);
}

#[test]
fn arc_raw_handle_interop_changes_no_count() {
    let a = Arc::new(5u16);
    let alias = a.clone();
    let h = CombArc::from_arc(a);
    assert_eq!(Arc::strong_count(&alias), 2);
    assert!(Arc::ptr_eq(CombArc::get_arc(&h), &alias));
    assert_eq!(*h.get(), 5);
    let raw: Arc<u16> = CombArc::get_arc(&h).clone();
    assert_eq!(*raw, 5);
    assert_eq!(Arc::strong_count(&alias), 3);
}

#[test]
fn arc_default_holds_the_pointee_default() {
    let h: CombArc<u32> = Default::default();
    assert_eq!(*h.get(), 0);
}

#[test]
fn arc_compares_against_bare_values_and_handles() {
    let h = CombArc::new(5u32);
    assert!(h == 5u32);
    assert!(h != 6u32);
    assert!(h < 6u32);
    assert_eq!(h.partial_cmp(&4u32), Some(Ordering::Greater));
    let lo = CombArc::new(3u32);
    let hi = CombArc::new(8u32);
    assert!(lo < hi);
    assert_eq!(lo.partial_cmp(&hi), Some(Ordering::Less));
}

#[test]
fn arc_from_conversions_round_trip() {
    let a = Arc::new(3u32);
    let h = CombArc::from(a);
    assert_eq!(*h.get(), 3);
    let back: Arc<u32> = Arc::from(h);
    assert_eq!(*back, 3);
    assert_eq!(Arc::strong_count(&back), 1);
}

#[test]
fn arc_handles_order_totally_when_the_pointee_does() {
    let mut v = vec![CombArc::new(3u8), CombArc::new(1u8), CombArc::new(2u8)];
    v.sort();
    assert_eq!(*v[0].get(), 1);
    assert_eq!(*v[1].get(), 2);
    assert_eq!(*v[2].get(), 3);
}
