//! Behavior of the change-tracked field wrapper.

use mal::list::ChangeTracker;

#[test]
fn new_field_is_not_dirty() {
    let t: ChangeTracker<u32> = ChangeTracker::new(5);
    assert!(!t.dirty());
    assert_eq!(*t.get(), 5);
}

#[test]
fn set_marks_dirty() {
    let mut t: ChangeTracker<u32> = ChangeTracker::new(5);
    t.set(7);
    assert!(t.dirty());
    assert_eq!(*t.get(), 7);
}

#[test]
fn set_same_value_still_marks_dirty() {
    let mut t: ChangeTracker<u32> = ChangeTracker::new(3);
    t.set(3);
    assert!(t.dirty());
    assert_eq!(*t.get(), 3);
}

#[test]
fn reset_clears_dirty_and_keeps_value() {
    let mut t: ChangeTracker<u32> = ChangeTracker::new(1);
    t.set(9);
    t.reset();
    assert!(!t.dirty());
    assert_eq!(*t.get(), 9);
}

#[test]
fn get_mut_marks_dirty_even_without_a_write() {
    let mut t: ChangeTracker<Vec<String>> = ChangeTracker::new(Vec::new());
    let _ = t.get_mut();
    assert!(t.dirty());
}

#[test]
fn get_mut_write_is_kept() {
    let mut t: ChangeTracker<Vec<String>> = ChangeTracker::new(Vec::new());
    t.get_mut().push(String::from("a"));
    assert!(t.dirty());
    assert_eq!(t.get().len(), 1);
}
