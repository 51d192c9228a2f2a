use std::cmp::Ordering;

use num::FromPrimitive;

use arena_id::Arena;
use arena_id::HasId;
use arena_id::Id;

#[test]
fn raw_round_trip_is_identity() {
    for v in [0u8, 1, 10, 254, 255] {
        assert_eq!(Id::from(v).to_raw(), v);
    }
    for v in [i64::MIN, -5, 0, 7, i64::MAX] {
        assert_eq!(Id::from(v).to_raw(), v);
    }
    for v in [0usize, 512, usize::MAX] {
        assert_eq!(Id::from(v).to_raw(), v);
    }
}

#[test]
fn from_u64_respects_range() {
    let small: Option<Id<u8>> = Id::from_u64(10);
    assert_eq!(small.map(|i| i.to_raw()), Some(10u8));
    let large: Option<Id<u8>> = Id::from_u64(300);
    assert!(large.is_none());
    let max: Option<Id<u8>> = Id::from_u64(255);
    assert_eq!(max.map(|i| i.to_raw()), Some(255u8));
}

#[test]
fn from_i64_respects_range() {
    let neg: Option<Id<u16>> = Id::from_i64(-1);
    assert!(neg.is_none());
    let ok: Option<Id<u16>> = Id::from_i64(65535);
    assert_eq!(ok.map(|i| i.to_raw()), Some(65535u16));
    let signed: Option<Id<i32>> = Id::from_i64(-40);
    assert_eq!(signed.map(|i| i.to_raw()), Some(-40i32));
    let too_low: Option<Id<i32>> = Id::from_i64(i64::MIN);
    assert!(too_low.is_none());
}

#[test]
fn conversions_agree_with_num() {
    assert_eq!(Id::<u8>::from_u64(10).map(|i| i.to_raw()), u8::from_u64(10));
    assert_eq!(Id::<u8>::from_u64(300).map(|i| i.to_raw()), u8::from_u64(300));
    assert_eq!(Id::<u16>::from_i64(-1).map(|i| i.to_raw()), u16::from_i64(-1));
    assert_eq!(Id::<i32>::from_i64(-40).map(|i| i.to_raw()), i32::from_i64(-40));
    assert_eq!(
        Id::<i64>::from_u64(u64::MAX).map(|i| i.to_raw()),
        i64::from_u64(u64::MAX)
    );
}

#[test]
fn ids_order_as_their_raw_values() {
    let a: Id<u32> = Id::from(3u32);
    let b: Id<u32> = Id::from(5u32);
    assert!(a == a);
    assert!(a != b);
    assert!(a < b);
    assert!(b > a);
    assert_eq!(a.partial_cmp(&b), Some(Ordering::Less));
    assert_eq!(a.cmp(&a), Ordering::Equal);
    assert_eq!(b.cmp(&a), Ordering::Greater);
}

#[test]
fn default_id_is_zero() {
    let d: Id<u8> = Id::default();
    assert_eq!(d.to_raw(), 0);
    let e: Id<i64> = Id::default();
    assert_eq!(e.to_raw(), 0);
}

#[test]
fn id_serializes_as_bare_integer() {
    let id: Id<u8> = Id::from(10u8);
    assert_eq!(serde_json::to_string(&id.to_raw()).unwrap(), "10");
    let raw: u8 = serde_json::from_str("10").unwrap();
    assert_eq!(Id::from(raw), id);
}

struct Node {
    own: Id<usize>,
    label: String,
}

impl HasId for Node {
    type I = usize;

    fn id(&self) -> Id<usize> {
        self.own
    }
}

#[test]
fn element_can_embed_its_own_id() {
    let mut a: Arena<Id<usize>, Node> = Arena::default();
    let first = a.allocate(|i| Node { own: i, label: "root".to_string() });
    let second = a.allocate(|i| Node { own: i, label: "leaf".to_string() });
    assert_eq!(a.index(first).id(), first);
    assert_eq!(a.index(second).id(), second);
    assert_eq!(a.index(second).label, "leaf");
}
