use darc::{Arc, Count, Heap, Rc, MAX_REFCOUNT};

#[test]
fn new_then_deref_yields_value() {
    let mut heap: Heap<i32> = Heap::new();
    let a = Rc::new(&mut heap, 42);
    assert_eq!(*a.deref(&heap), 42);
    assert_eq!(Rc::strong_count(&a, &heap), 1);
    assert!(!Rc::is_multi_threaded(&a, &heap));

    let mut strings: Heap<String> = Heap::new();
    let s = Rc::new(&mut strings, String::from("hello"));
    assert_eq!(s.deref(&strings).as_str(), "hello");
}

#[test]
fn clone_adds_one_owner() {
    let mut heap: Heap<i32> = Heap::new();
    let a = Rc::new(&mut heap, 1);
    let b = a.clone(&mut heap);
    assert_eq!(Rc::strong_count(&a, &heap), 2);
    let c = b.clone(&mut heap);
    assert_eq!(Rc::strong_count(&c, &heap), 3);
    assert!(Rc::ptr_eq(&a, &c));
    assert_eq!(*c.deref(&heap), 1);
}

#[test]
fn block_freed_after_exactly_all_drops() {
    let mut heap: Heap<i32> = Heap::new();
    let a = Rc::new(&mut heap, 5);
    let b = a.clone(&mut heap);
    let c = a.clone(&mut heap);
    let index_live = Rc::strong_count(&c, &heap);
    assert_eq!(index_live, 3);
    assert!(!b.drop(&mut heap));
    assert!(heap.is_live(0));
    assert!(!a.drop(&mut heap));
    assert!(heap.is_live(0));
    assert_eq!(Rc::strong_count(&c, &heap), 1);
    assert!(c.drop(&mut heap));
    assert!(!heap.is_live(0));
}

#[test]
fn promotion_is_idempotent() {
    let mut heap: Heap<i32> = Heap::new();
    let a = Rc::new(&mut heap, 3);
    let b = a.clone(&mut heap);
    let arc = Arc::from_rc(b, &mut heap);
    assert!(Rc::is_multi_threaded(&a, &heap));
    assert_eq!(Rc::strong_count(&a, &heap), 2);
    let back = Rc::from_arc(arc);
    let again = Arc::from_rc(back, &mut heap);
    assert!(Rc::is_multi_threaded(&a, &heap));
    assert_eq!(Rc::strong_count(&a, &heap), 2);
    assert!(!again.drop(&mut heap));
}

#[test]
fn unshare_succeeds_for_sole_owner_only() {
    let mut heap: Heap<i32> = Heap::new();
    let arc = Arc::new(&mut heap, 9);
    let a = Rc::from_arc(arc);
    let b = a.clone(&mut heap);
    assert!(!Rc::unshare(&a, &mut heap));
    assert!(Rc::is_multi_threaded(&a, &heap));
    assert_eq!(Rc::strong_count(&a, &heap), 2);
    assert!(!b.drop(&mut heap));
    assert!(Rc::unshare(&a, &mut heap));
    assert!(!Rc::is_multi_threaded(&a, &heap));
    assert_eq!(Rc::strong_count(&a, &heap), 1);
}

#[test]
fn unshare_of_single_block_succeeds_at_once() {
    let mut heap: Heap<i32> = Heap::new();
    let a = Rc::new(&mut heap, 9);
    let b = a.clone(&mut heap);
    assert!(Rc::unshare(&b, &mut heap));
    assert!(!Rc::is_multi_threaded(&a, &heap));
    assert_eq!(Rc::strong_count(&a, &heap), 2);
}

#[test]
fn promote_then_unwrap_round_trip() {
    let mut heap: Heap<i32> = Heap::new();
    let h = Rc::new(&mut heap, 11);
    let keep = h.clone(&mut heap);
    let back = Rc::from_arc(Arc::from_rc(h, &mut heap));
    assert!(Rc::ptr_eq(&back, &keep));
    assert_eq!(Rc::strong_count(&back, &heap), 2);
    assert!(Rc::is_multi_threaded(&back, &heap));
    assert_eq!(*back.deref(&heap), 11);
}

#[test]
fn scenario_clone_promote_drop_unshare() {
    let mut heap: Heap<i32> = Heap::new();
    let a = Rc::new(&mut heap, 42);
    let b = a.clone(&mut heap);
    assert_eq!(Rc::strong_count(&a, &heap), 2);
    let arc = Arc::from_rc(b, &mut heap);
    assert!(Rc::is_multi_threaded(&a, &heap));
    assert!(!arc.drop(&mut heap));
    assert_eq!(Rc::strong_count(&a, &heap), 1);
    assert!(Rc::unshare(&a, &mut heap));
    assert!(!Rc::is_multi_threaded(&a, &heap));
    assert!(a.drop(&mut heap));
    assert!(!heap.is_live(0));
}

#[test]
fn scenario_unshare_refused_while_shared() {
    let mut heap: Heap<i32> = Heap::new();
    let a = Rc::new(&mut heap, 1);
    let b = a.clone(&mut heap);
    let c = a.clone(&mut heap);
    assert_eq!(Rc::strong_count(&a, &heap), 3);
    let arc = Arc::from_rc(c, &mut heap);
    let c = Rc::from_arc(arc);
    assert!(!c.drop(&mut heap));
    assert_eq!(Rc::strong_count(&a, &heap), 2);
    assert!(!Rc::unshare(&a, &mut heap));
    assert!(Rc::is_multi_threaded(&a, &heap));
    assert_eq!(Rc::strong_count(&b, &heap), 2);
}

#[test]
fn arc_counts_in_multi_mode() {
    let mut heap: Heap<i32> = Heap::new();
    let arc = Arc::new(&mut heap, 8);
    let copies: Vec<Arc<i32>> = (0..10).map(|_| arc.clone(&mut heap)).collect();
    let rc = Rc::from_arc(arc);
    assert_eq!(Rc::strong_count(&rc, &heap), 11);
    assert!(Rc::is_multi_threaded(&rc, &heap));
    for copy in copies {
        assert_eq!(*copy.deref(&heap), 8);
        assert!(!copy.drop(&mut heap));
    }
    assert_eq!(Rc::strong_count(&rc, &heap), 1);
    assert!(rc.drop(&mut heap));
    assert!(!heap.is_live(0));
}

#[test]
fn separate_blocks_count_separately() {
    let mut heap: Heap<i32> = Heap::new();
    let a = Rc::new(&mut heap, 1);
    let b = Rc::new(&mut heap, 2);
    assert!(!Rc::ptr_eq(&a, &b));
    let arc = Arc::from_rc(b, &mut heap);
    assert!(!Rc::is_multi_threaded(&a, &heap));
    assert!(a.drop(&mut heap));
    assert!(!heap.is_live(0));
    assert!(heap.is_live(1));
    assert_eq!(*arc.deref(&heap), 2);
}

#[test]
fn counter_steps() {
    let mut c = Count::new();
    assert!(c == Count::Single(1));
    assert_eq!(c.increment(), 2);
    assert!(c == Count::Single(2));
    c.make_multi_threaded();
    assert!(c == Count::Multi(2));
    assert!(!c.make_single_threaded());
    assert!(c == Count::Multi(2));
    assert_eq!(c.decrement(), 1);
    assert!(c.make_single_threaded());
    assert!(c == Count::Single(1));
    assert_eq!(c.decrement(), 0);
}

#[test]
fn counter_reaches_ceiling() {
    let mut c = Count::Multi(MAX_REFCOUNT - 1);
    assert_eq!(c.increment(), MAX_REFCOUNT);
    assert_eq!(c.get(), MAX_REFCOUNT);
    assert_eq!(MAX_REFCOUNT, isize::MAX as usize);
}

#[test]
fn arc_reports_its_count() {
    let mut heap: Heap<i32> = Heap::new();
    let arc = Arc::new(&mut heap, 4);
    assert_eq!(Arc::strong_count(&arc, &heap), 1);
    let other = arc.clone(&mut heap);
    assert_eq!(Arc::strong_count(&arc, &heap), 2);
    assert!(!other.drop(&mut heap));
    assert!(arc.drop(&mut heap));
}
