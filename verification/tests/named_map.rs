use audio_locker::named_map::NamedMap;

#[test]
fn insert_get_take() {
    let mut map: NamedMap<u32> = NamedMap::new();
    assert!(!map.contains("a"));
    assert_eq!(map.insert_vacant("a".to_string(), 1), None);
    assert_eq!(map.insert_vacant("a".to_string(), 2), Some(2));
    assert_eq!(map.get("a"), Some(&1));
    assert_eq!(map.insert("a".to_string(), 3), Some(1));
    assert_eq!(map.get("a"), Some(&3));
    assert_eq!(map.insert("b".to_string(), 4), None);
    let mut names = map.names();
    names.sort();
    assert_eq!(names, vec!["a".to_string(), "b".to_string()]);
    assert_eq!(map.take("a"), Some(3));
    assert_eq!(map.take("a"), None);
    assert!(!map.contains("a"));
    assert!(map.contains("b"));
}
