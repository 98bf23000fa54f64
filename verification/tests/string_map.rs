use netplay::string_map::StringMap;

#[test]
fn insert_replaces_what_stood_under_the_key() {
    let mut map: StringMap<String> = StringMap::new();
    assert!(map.get("a").is_none());
    map.insert("a".to_string(), "1".to_string());
    map.insert("b".to_string(), "2".to_string());
    map.insert("a".to_string(), "3".to_string());
    assert_eq!(map.get("a").unwrap(), "3");
    assert_eq!(map.get("b").unwrap(), "2");
    assert!(map.get("c").is_none());
    assert_eq!(map.into_entries().len(), 2);
}

#[test]
fn later_entry_counts() {
    let map = StringMap::from_entries(vec![
        ("k".to_string(), "old".to_string()),
        ("k".to_string(), "new".to_string()),
    ]);
    assert_eq!(map.into_entries(), vec![("k".to_string(), "new".to_string())]);
}
