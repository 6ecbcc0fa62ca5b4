use my_atmosphere::store::KeyedStore;

#[test]
fn stored_value_is_found_and_taken_once() {
    let mut s: KeyedStore<u32> = KeyedStore::new();
    let k = "state-1".to_string();
    assert!(!s.contains(&k));
    s.insert(k.clone(), 7);
    s.insert("other".to_string(), 9);
    assert_eq!(s.get(&k), Some(&7));
    assert_eq!(s.take(&k), Some(7));
    assert_eq!(s.take(&k), None);
    assert_eq!(s.get(&"other".to_string()), Some(&9));
}

#[test]
fn inserting_again_replaces_the_value() {
    let mut s: KeyedStore<&str> = KeyedStore::new();
    let k = "did:plc:abc".to_string();
    s.insert(k.clone(), "first");
    s.insert(k.clone(), "second");
    assert_eq!(s.get(&k), Some(&"second"));
    assert_eq!(s.take(&k), Some("second"));
    assert!(!s.contains(&k));
}
