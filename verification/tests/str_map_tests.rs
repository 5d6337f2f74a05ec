use ambient_network::str_map::StrMap;

#[test]
fn insert_get_remove() {
    let mut m: StrMap<u32> = StrMap::new();
    assert_eq!(m.len(), 0);
    assert_eq!(m.insert("a".to_string(), 1), None);
    assert_eq!(m.insert("b".to_string(), 2), None);
    assert_eq!(m.insert("a".to_string(), 3), Some(1));
    assert_eq!(m.len(), 2);
    assert_eq!(m.get("a"), Some(&3));
    assert_eq!(m.get("b"), Some(&2));
    assert_eq!(m.get("c"), None);
    assert!(m.contains_key("b"));
    assert!(!m.contains_key("c"));
    assert_eq!(m.remove("a"), Some(3));
    assert_eq!(m.remove("a"), None);
    assert_eq!(m.len(), 1);
    assert_eq!(m.get("b"), Some(&2));
}

#[test]
fn entries_keep_the_order_of_their_keys() {
    let mut m: StrMap<u32> = StrMap::new();
    m.insert("x".to_string(), 10);
    m.insert("y".to_string(), 20);
    m.insert("z".to_string(), 30);
    m.insert("x".to_string(), 11);
    assert_eq!(m.position("x"), Some(0));
    assert_eq!(m.position("y"), Some(1));
    assert_eq!(m.position("z"), Some(2));
    assert_eq!(m.key_at(1), "y");
    assert_eq!(*m.value_at(0), 11);
    m.remove("y");
    assert_eq!(m.position("z"), Some(1));
    assert_eq!(m.position("y"), None);
    *m.value_at_mut(1) += 1;
    assert_eq!(m.get("z"), Some(&31));
}
