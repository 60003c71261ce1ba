use filesha::store::ExpiringStore;

const DAY: u64 = 86_400_000;

#[test]
fn insert_get_remove() {
    let mut s: ExpiringStore<&str> = ExpiringStore::new();
    assert_eq!(s.len(), 0);
    s.insert(7, "seven", 100);
    assert!(s.contains(7));
    assert_eq!(s.get(7).map(|e| (e.value, e.created)), Some(("seven", 100)));
    s.insert(7, "again", 200);
    assert_eq!(s.len(), 1);
    assert_eq!(s.get(7).map(|e| e.value), Some("again"));
    assert_eq!(s.remove(7).map(|e| e.value), Some("again"));
    assert!(s.remove(7).is_none());
    assert!(s.get(7).is_none());
}

#[test]
fn sweep_boundary_is_exclusive() {
    let t = 5_000;
    for (now, present) in [(t + DAY - 1, true), (t + DAY, false), (t + DAY + 1, false), (t, true)] {
        let mut s: ExpiringStore<u8> = ExpiringStore::new();
        s.insert(1, 0, t);
        s.sweep(now, DAY);
        assert_eq!(s.contains(1), present, "now = {}", now);
    }
}

#[test]
fn sweep_keeps_only_young_entries() {
    let mut s: ExpiringStore<u32> = ExpiringStore::new();
    for k in 0..10u128 {
        s.insert(k, k as u32, (k as u64) * 1_000);
    }
    s.sweep(10_000, 4_500);
    for k in 0..10u128 {
        assert_eq!(s.contains(k), k >= 6, "key {}", k);
    }
    assert_eq!(s.get(8).map(|e| e.value), Some(8));
    assert_eq!(s.len(), 4);
}

#[test]
fn sweep_with_stamp_after_now_keeps_entry() {
    let mut s: ExpiringStore<u8> = ExpiringStore::new();
    s.insert(3, 1, 900);
    s.sweep(100, 10);
    assert!(s.contains(3));
    s.sweep(100, 0);
    assert!(!s.contains(3));
}

#[test]
fn sweep_on_empty_store() {
    let mut s: ExpiringStore<u8> = ExpiringStore::new();
    s.sweep(u64::MAX, 1);
    assert_eq!(s.len(), 0);
}
