use lambda_runtime_client::StringMap;

fn pair(key: &str, value: &str) -> (String, String) {
    (key.to_owned(), value.to_owned())
}

#[test]
fn new_map_is_empty() {
    let map = StringMap::new();
    assert!(map.is_empty());
    assert_eq!(map.len(), 0);
    assert!(map.get("a").is_none());
    assert!(map.entries().is_empty());
}

#[test]
fn insert_then_get() {
    let mut map = StringMap::new();
    map.insert("a".to_owned(), "1".to_owned());
    map.insert("b".to_owned(), "2".to_owned());
    assert!(!map.is_empty());
    assert_eq!(map.len(), 2);
    assert_eq!(map.get("a").unwrap(), "1");
    assert_eq!(map.get("b").unwrap(), "2");
    assert!(map.get("A").is_none());
    assert_eq!(map.entries(), &vec![pair("a", "1"), pair("b", "2")]);
}

#[test]
fn insert_replaces_the_value_of_a_key() {
    let mut map = StringMap::new();
    map.insert("a".to_owned(), "1".to_owned());
    map.insert("b".to_owned(), "2".to_owned());
    map.insert("a".to_owned(), "3".to_owned());
    assert_eq!(map.len(), 2);
    assert_eq!(map.get("a").unwrap(), "3");
    assert_eq!(map.get("b").unwrap(), "2");
    assert_eq!(map.entries(), &vec![pair("a", "3"), pair("b", "2")]);
}

#[test]
fn clone_holds_the_same_entries() {
    let mut map = StringMap::new();
    map.insert("k".to_owned(), "v".to_owned());
    let copy = map.clone();
    map.insert("k".to_owned(), "w".to_owned());
    assert_eq!(copy.get("k").unwrap(), "v");
    assert_eq!(map.get("k").unwrap(), "w");
    assert_eq!(copy.len(), 1);
}
