use wascc_provider::registry::Registry;

#[test]
fn test_registry_insert_get_remove() {
    let mut r: Registry<u32> = Registry::new();
    assert_eq!(r.len(), 0);
    assert_eq!(r.insert("a".to_string(), 1), None);
    assert_eq!(r.insert("b".to_string(), 2), None);
    assert_eq!(r.get("a"), Some(&1));
    assert_eq!(r.insert("a".to_string(), 3), Some(1));
    assert_eq!(r.len(), 2);
    assert_eq!(r.get("a"), Some(&3));
    assert_eq!(r.remove("a"), Some(3));
    assert!(!r.contains_key("a"));
    assert_eq!(r.remove("a"), None);
    assert_eq!(r.len(), 1);
    assert!(r.contains_key("b"));
}

#[test]
fn test_registry_get_mut_updates_value() {
    let mut r: Registry<u32> = Registry::new();
    r.insert("b".to_string(), 2);
    if let Some(v) = r.get_mut("b") {
        *v = 5;
    }
    assert_eq!(r.get("b"), Some(&5));
    assert!(r.get_mut("missing").is_none());
    assert_eq!(r.len(), 1);
}

#[test]
fn test_registry_from_pairs_later_pair_wins() {
    let r = Registry::from_pairs(vec![
        ("x".to_string(), 1u8),
        ("y".to_string(), 2u8),
        ("x".to_string(), 3u8),
    ]);
    assert_eq!(r.len(), 2);
    assert_eq!(r.get("x"), Some(&3));
    assert_eq!(r.get("y"), Some(&2));
    assert_eq!(r.get("z"), None);
}
