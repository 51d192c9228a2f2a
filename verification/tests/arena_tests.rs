use std::cell::RefCell;

use arena_id::Arena;
use arena_id::Id;

#[test]
fn alloc_three_scenario() {
    let mut a: Arena<Id<usize>, String> = Arena::default();
    let i0 = a.allocate(|_| "a".to_string());
    let i1 = a.allocate(|_| "b".to_string());
    let i2 = a.allocate(|_| "c".to_string());
    assert_eq!(i0.to_raw(), 0);
    assert_eq!(i1.to_raw(), 1);
    assert_eq!(i2.to_raw(), 2);
    assert_eq!(a.len(), 3);
    let expected = vec!["a".to_string(), "b".to_string(), "c".to_string()];
    assert_eq!(a.slice(), expected.as_slice());

    let json = serde_json::to_string(&a.to_vec()).unwrap();
    assert_eq!(json, "[\"a\",\"b\",\"c\"]");
    let decoded: Vec<String> = serde_json::from_str(&json).unwrap();
    let b: Arena<Id<usize>, String> = Arena::from_elements(decoded);
    assert_eq!(b.len(), 3);
    assert_eq!(b.slice(), a.slice());
}

#[test]
fn builder_receives_own_position() {
    let mut a: Arena<Id<u32>, (u32, String)> = Arena::with_capacity(0);
    for k in 0..5u32 {
        let id = a.allocate(|i: Id<u32>| (i.to_raw(), format!("elem{}", i.to_raw())));
        assert_eq!(id.to_raw(), k);
        assert_eq!(a.index(id).0, k);
        assert_eq!(a.index(id).1, format!("elem{}", k));
    }
}

#[test]
fn len_counts_allocations() {
    let mut a: Arena<Id<usize>, u64> = Arena::with_capacity(2);
    assert_eq!(a.len(), 0);
    assert!(a.is_empty());
    for n in 1..=10u64 {
        a.allocate(|_| n);
        assert_eq!(a.len(), n as usize);
        assert!(!a.is_empty());
    }
}

#[test]
fn capacity_is_at_least_len() {
    let mut a: Arena<Id<usize>, u8> = Arena::with_capacity(4);
    assert!(a.capacity() >= a.len());
    for _ in 0..9 {
        a.allocate(|_| 0);
    }
    assert!(a.capacity() >= a.len());
    a.reserve(100);
    assert_eq!(a.len(), 9);
    assert!(a.capacity() >= 109);
}

#[test]
fn default_arena_is_presized() {
    let a: Arena<Id<usize>, u8> = Arena::default();
    assert!(a.is_empty());
    assert!(a.capacity() >= 512);
}

#[test]
fn for_each_visits_in_order() {
    let mut a: Arena<Id<usize>, u64> = Arena::default();
    for k in 0..4u64 {
        a.allocate(|_| k);
    }
    let visited: RefCell<Vec<usize>> = RefCell::new(Vec::new());
    let r: Result<(), u32> = a.for_each(|id: Id<usize>| {
        visited.borrow_mut().push(id.to_raw());
        Ok(())
    });
    assert_eq!(r, Ok(()));
    assert_eq!(*visited.borrow(), vec![0, 1, 2, 3]);
}

#[test]
fn for_each_stops_at_first_failure() {
    let mut a: Arena<Id<usize>, u64> = Arena::default();
    for k in 0..6u64 {
        a.allocate(|_| k);
    }
    let visited: RefCell<Vec<usize>> = RefCell::new(Vec::new());
    let r: Result<(), String> = a.for_each(|id: Id<usize>| {
        visited.borrow_mut().push(id.to_raw());
        if id.to_raw() == 2 {
            Err(format!("stopped at {}", id.to_raw()))
        } else {
            Ok(())
        }
    });
    assert_eq!(r, Err("stopped at 2".to_string()));
    assert_eq!(*visited.borrow(), vec![0, 1, 2]);
}

#[test]
fn clear_restarts_id_issuance() {
    let mut a: Arena<Id<u16>, &'static str> = Arena::default();
    let first = a.allocate(|_| "x");
    assert_eq!(first.to_raw(), 0);
    a.allocate(|_| "y");
    assert_eq!(a.len(), 2);
    a.clear();
    assert_eq!(a.len(), 0);
    assert!(a.is_empty());
    let fresh = a.allocate(|_| "z");
    assert_eq!(fresh.to_raw(), 0);
    assert_eq!(a.len(), 1);
    assert_eq!(*a.index(fresh), "z");
}

#[test]
fn get_is_none_out_of_bounds() {
    let mut a: Arena<Id<i64>, u64> = Arena::default();
    let id = a.allocate(|_| 41);
    assert_eq!(a.get(id), Some(&41));
    assert_eq!(a.get(Id(1i64)), None);
    assert_eq!(a.get(Id(-1i64)), None);
    a.clear();
    assert_eq!(a.get(id), None);
}

#[test]
fn index_mut_replaces_element() {
    let mut a: Arena<Id<usize>, String> = Arena::default();
    let id = a.allocate(|_| "old".to_string());
    *a.index_mut(id) = "new".to_string();
    assert_eq!(*a.index(id), "new".to_string());
    assert_eq!(a.len(), 1);
}

#[test]
fn to_vec_copies_all_elements() {
    let mut a: Arena<Id<usize>, String> = Arena::default();
    a.allocate(|_| "p".to_string());
    a.allocate(|_| "q".to_string());
    let copy = a.to_vec();
    assert_eq!(copy, vec!["p".to_string(), "q".to_string()]);
    let cloned = a.clone();
    assert_eq!(cloned.slice(), a.slice());
}

#[test]
fn json_round_trip_preserves_elements() {
    let mut a: Arena<Id<usize>, u64> = Arena::default();
    for k in [3u64, 1, 4, 1, 5] {
        a.allocate(|_| k);
    }
    let json = serde_json::to_string(&a.to_vec()).unwrap();
    assert_eq!(json, "[3,1,4,1,5]");
    let decoded: Vec<u64> = serde_json::from_str(&json).unwrap();
    let b: Arena<Id<usize>, u64> = Arena::from_elements(decoded);
    assert_eq!(b.len(), a.len());
    assert_eq!(b.slice(), a.slice());
}

#[test]
fn empty_arena_round_trip() {
    let a: Arena<Id<usize>, u64> = Arena::with_capacity(0);
    let json = serde_json::to_string(&a.to_vec()).unwrap();
    assert_eq!(json, "[]");
    let decoded: Vec<u64> = serde_json::from_str(&json).unwrap();
    let b: Arena<Id<usize>, u64> = Arena::from_elements(decoded);
    assert!(b.is_empty());
}
