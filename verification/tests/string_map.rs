use logappender::string_map::StrMap;

#[test]
fn insert_then_get() {
    let mut m: StrMap<u32> = StrMap::new();
    assert!(!m.contains_key("a"));
    m.insert("a".to_string(), 1);
    m.insert("b".to_string(), 2);
    assert_eq!(m.get("a"), Some(&1));
    assert_eq!(m.get("b"), Some(&2));
    assert_eq!(m.get("c"), None);
    m.insert("a".to_string(), 3);
    assert_eq!(m.get("a"), Some(&3));
    assert_eq!(m.pairs().len(), 2);
    assert!(m.contains_key("b"));
}

#[test]
fn duplicate_keeps_entries() {
    let mut m: StrMap<String> = StrMap::new();
    m.insert("k".to_string(), "v".to_string());
    let d = m.duplicate();
    assert!(d.same_text(&m));
    assert_eq!(d.get("k").map(|s| s.as_str()), Some("v"));
}

#[test]
fn different_values_are_not_the_same_text() {
    let mut a: StrMap<String> = StrMap::new();
    a.insert("k".to_string(), "v".to_string());
    let mut b: StrMap<String> = StrMap::new();
    b.insert("k".to_string(), "w".to_string());
    assert!(!a.same_text(&b));
    assert!(StrMap::<String>::new().same_text(&StrMap::new()));
}
