use bounded_store::cell::{BoundedCell, CapacityExceeded};

#[test]
fn new_cell_is_empty() {
    let c = BoundedCell::new(8);
    assert_eq!(c.capacity(), 8);
    assert!(c.get().is_none());
    assert!(!c.is_present());
    assert_eq!(c.len(), 0);
}

#[test]
fn set_within_capacity_returns_length() {
    let mut c = BoundedCell::new(4);
    assert_eq!(c.set(vec![1, 2, 3]), Ok(3));
    assert_eq!(c.get(), Some(&vec![1, 2, 3]));
    assert_eq!(c.len(), 3);
}

#[test]
fn set_over_capacity_keeps_value() {
    let mut c = BoundedCell::new(4);
    assert_eq!(c.set(vec![9, 9]), Ok(2));
    assert_eq!(c.set(vec![1, 2, 3, 4, 5]), Err(CapacityExceeded));
    assert_eq!(c.get(), Some(&vec![9, 9]));
}

#[test]
fn set_empty_payload() {
    let mut c = BoundedCell::new(0);
    assert_eq!(c.set(Vec::new()), Ok(0));
    assert_eq!(c.get(), Some(&Vec::new()));
    assert_eq!(c.set(vec![1]), Err(CapacityExceeded));
}

#[test]
fn clear_reports_presence() {
    let mut c = BoundedCell::new(4);
    assert!(!c.clear());
    c.set(vec![7]).unwrap();
    assert!(c.is_present());
    assert!(c.clear());
    assert!(c.get().is_none());
    assert!(!c.clear());
}
