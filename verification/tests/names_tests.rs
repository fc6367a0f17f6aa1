use rnl::names::NameMap;

#[test]
fn name_map_insert_replaces_and_keeps_order() {
    let mut m: NameMap<u32> = NameMap::new();
    assert!(!m.insert("b".to_string(), 1));
    assert!(!m.insert("a".to_string(), 2));
    assert!(m.insert("b".to_string(), 3));
    assert_eq!(m.len(), 2);
    assert_eq!(m.get("b"), Some(&3));
    assert_eq!(m.get("a"), Some(&2));
    assert_eq!(m.get("c"), None);
    assert!(m.contains("a"));
    assert_eq!(m.keys(), vec!["b", "a"]);
    let (k, v) = m.entry(1);
    assert_eq!((k.as_str(), *v), ("a", 2));
}
