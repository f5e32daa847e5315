use arcweak::Arc;
use arcweak::Weak;

use std::cell::Cell;
use std::rc::Rc;

/// A payload whose destructor counts how often it has run.
struct DetectDrop(Rc<Cell<u32>>);

impl Drop for DetectDrop {
    fn drop(&mut self) {
        self.0.set(self.0.get() + 1);
    }
}

#[test]
fn deref_reads_the_constructed_value() {
    let a = Arc::new(42u64);
    assert_eq!(*a.deref(), 42);
}

#[test]
fn clone_shares_the_same_value() {
    let a = Arc::new(("hello", 7u8));
    let b = a.clone();
    assert_eq!(b.deref().0, "hello");
    drop(a);
    assert_eq!(b.deref().0, "hello");
    assert_eq!(b.deref().1, 7);
}

#[test]
fn strong_clones_destroy_payload_once_after_last_drop() {
    let drops: Rc<Cell<u32>> = Rc::new(Cell::new(0));
    let arc = Arc::new(("hello", DetectDrop(drops.clone())));
    let second = arc.clone();
    let third = arc.clone();
    assert_eq!(arc.deref().0, "hello");
    assert_eq!(third.deref().0, "hello");
    assert_eq!(drops.get(), 0);
    drop(arc);
    assert_eq!(drops.get(), 0);
    drop(second);
    assert_eq!(drops.get(), 0);
    drop(third);
    assert_eq!(drops.get(), 1);
}

#[test]
fn downgrade_upgrade_lifecycle() {
    let drops: Rc<Cell<u32>> = Rc::new(Cell::new(0));
    let arc = Arc::new(DetectDrop(drops.clone()));
    let weak = Arc::downgrade(&arc);

    let upgraded = weak.upgrade();
    assert!(upgraded.is_some());
    assert_eq!(drops.get(), 0);

    drop(arc);
    assert_eq!(drops.get(), 0);
    drop(upgraded);
    assert_eq!(drops.get(), 1);

    assert!(weak.upgrade().is_none());
    assert_eq!(drops.get(), 1);
}

#[test]
fn upgrade_returns_empty_even_while_weak_clones_exist() {
    let drops: Rc<Cell<u32>> = Rc::new(Cell::new(0));
    let arc = Arc::new(DetectDrop(drops.clone()));
    let weak = Arc::downgrade(&arc);
    let weak_clone: Weak<DetectDrop> = weak.clone();
    drop(arc);
    assert_eq!(drops.get(), 1);
    assert!(weak.upgrade().is_none());
    assert!(weak_clone.upgrade().is_none());
    assert_eq!(drops.get(), 1);
}

#[test]
fn weak_clone_observes_the_same_payload() {
    let arc = Arc::new(String::from("payload"));
    let weak = Arc::downgrade(&arc);
    let weak_clone = weak.clone();
    let upgraded = weak_clone.upgrade().unwrap();
    assert_eq!(upgraded.deref(), "payload");
}

#[test]
fn upgrade_succeeds_while_a_strong_handle_is_live() {
    let arc = Arc::new(3u32);
    let weak = Arc::downgrade(&arc);
    let upgraded = weak.upgrade().unwrap();
    assert_eq!(*upgraded.deref(), 3);
    drop(arc);
    let again = weak.upgrade();
    assert!(again.is_some());
    assert_eq!(*again.unwrap().deref(), 3);
}
