use vox::handles::HandleTable;

#[test]
fn store_returns_consecutive_ids() {
    let mut t: HandleTable<String> = HandleTable::new();
    assert_eq!(t.store("a".to_string()), 0);
    assert_eq!(t.store("b".to_string()), 1);
    assert_eq!(t.store("c".to_string()), 2);
    assert_eq!(t.get(1).map(|s| s.as_str()), Some("b"));
}

#[test]
fn lookup_after_store_gives_the_value() {
    let mut t: HandleTable<u32> = HandleTable::new();
    let id = t.store(42);
    assert_eq!(t.get(id), Some(&42));
}

#[test]
fn freed_slot_is_reused_lowest_first() {
    let mut t: HandleTable<u32> = HandleTable::new();
    for v in 0..4u32 {
        t.store(v);
    }
    t.free(2);
    t.free(1);
    assert_eq!(t.get(1), None);
    assert_eq!(t.get(2), None);
    assert_eq!(t.get(3), Some(&3));
    assert_eq!(t.store(10), 1);
    assert_eq!(t.store(11), 2);
    assert_eq!(t.store(12), 4);
}

#[test]
fn unknown_and_negative_ids_name_nothing() {
    let mut t: HandleTable<u32> = HandleTable::new();
    t.store(7);
    assert_eq!(t.get(5), None);
    assert_eq!(t.get(-1), None);
    assert_eq!(t.take(-1), None);
    t.free(99);
    assert_eq!(t.get(0), Some(&7));
}

#[test]
fn take_removes_the_value() {
    let mut t: HandleTable<String> = HandleTable::new();
    let id = t.store("x".to_string());
    assert_eq!(t.take(id), Some("x".to_string()));
    assert_eq!(t.take(id), None);
    assert_eq!(t.get(id), None);
}

#[test]
fn with_entry_runs_on_the_value_in_place() {
    let mut t: HandleTable<u32> = HandleTable::new();
    let id = t.store(5);
    let r = t.with_entry(id, |v: &mut u32| {
        *v += 1;
        *v * 10
    });
    assert_eq!(r, Some(60));
    assert_eq!(t.get(id), Some(&6));
    assert_eq!(t.with_entry(3, |v: &mut u32| *v), None);
}
