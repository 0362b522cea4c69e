use core::cmp::Ordering;
use std::collections::hash_map::DefaultHasher;
use std::hash::Hasher;

use keyed::{Key, Keyed, RefKey, RefKeyed};

pub struct OwnedItem {
    pub key: i32,
    pub value: i32,
}

impl Key for OwnedItem {
    type Output = i32;

    fn key(&self) -> i32 {
        self.key
    }
}

pub struct RefItem {
    pub key: i32,
    pub value: i32,
}

impl RefKey for RefItem {
    type Output = i32;

    fn key(&self) -> &i32 {
        &self.key
    }
}

fn owned(key: i32, value: i32) -> Keyed<OwnedItem> {
    Keyed(OwnedItem { key, value })
}

fn by_ref(key: i32, value: i32) -> RefKeyed<RefItem> {
    RefKeyed(RefItem { key, value })
}

fn owned_hash(w: &Keyed<OwnedItem>) -> u64 {
    let mut hasher = DefaultHasher::default();
    w.hash(&mut hasher);
    hasher.finish()
}

fn ref_hash(w: &RefKeyed<RefItem>) -> u64 {
    let mut hasher = DefaultHasher::default();
    w.hash(&mut hasher);
    hasher.finish()
}

#[test]
fn variants_agree_on_same_data() {
    let pairs: [(i32, i32); 5] = [(4, 3), (3, 3), (4, 4), (-7, 0), (0, -7)];

    for &(x, y) in &pairs {
        let (a, b) = (owned(x, 1), owned(y, 2));
        let (c, d) = (by_ref(x, 1), by_ref(y, 2));

        assert_eq!(a.eq(&b), c.eq(&d));
        assert_eq!(a.ne(&b), c.ne(&d));
        assert_eq!(a.lt(&b), c.lt(&d));
        assert_eq!(a.le(&b), c.le(&d));
        assert_eq!(a.gt(&b), c.gt(&d));
        assert_eq!(a.ge(&b), c.ge(&d));
        assert_eq!(a.partial_cmp(&b), c.partial_cmp(&d));
        assert_eq!(a.cmp(&b), c.cmp(&d));
        assert_eq!(owned_hash(&a), ref_hash(&c));
    }
}

#[test]
fn comparisons_give_exact_orderings() {
    assert_eq!(owned(4, 0).cmp(&owned(3, 9)), Ordering::Greater);
    assert_eq!(owned(4, 0).cmp(&owned(4, 9)), Ordering::Equal);
    assert_eq!(owned(4, 0).cmp(&owned(5, 9)), Ordering::Less);
    assert_eq!(by_ref(4, 0).partial_cmp(&by_ref(3, 9)), Some(Ordering::Greater));
    assert_eq!(by_ref(4, 0).partial_cmp(&by_ref(4, 9)), Some(Ordering::Equal));
    assert_eq!(by_ref(4, 0).partial_cmp(&by_ref(5, 9)), Some(Ordering::Less));
}
