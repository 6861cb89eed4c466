use alphacentauri::string_map::StringMap;
use alphacentauri::text::{clone_texts, joined, same_texts};

#[test]
fn new_map_is_empty() {
    let map = StringMap::new();
    assert_eq!(map.len(), 0);
    assert_eq!(map.get("a"), None);
    assert!(!map.contains_key("a"));
}

#[test]
fn insert_binds_and_rebinds() {
    let mut map = StringMap::new();
    assert_eq!(map.insert("a".to_string(), "1".to_string()), None);
    assert_eq!(map.insert("b".to_string(), "2".to_string()), None);
    assert_eq!(map.insert("a".to_string(), "3".to_string()), Some("1".to_string()));
    assert_eq!(map.len(), 2);
    assert_eq!(map.get("a"), Some(&"3".to_string()));
    assert_eq!(map.get("b"), Some(&"2".to_string()));
    assert!(map.contains_key("b"));
    assert!(!map.contains_key("c"));
    assert_eq!(map.key_at(0), "a");
    assert_eq!(map.value_at(0), "3");
    assert_eq!(map.key_at(1), "b");
    assert_eq!(map.value_at(1), "2");
}

#[test]
fn from_pairs_keeps_last_value() {
    let map = StringMap::from_pairs(vec![
        ("x".to_string(), "1".to_string()),
        ("y".to_string(), "2".to_string()),
        ("x".to_string(), "9".to_string()),
    ]);
    assert_eq!(map.len(), 2);
    assert_eq!(map.get("x"), Some(&"9".to_string()));
    assert_eq!(map.get("y"), Some(&"2".to_string()));
}

#[test]
fn equality_ignores_order() {
    let a = StringMap::from_pairs(vec![
        ("x".to_string(), "1".to_string()),
        ("y".to_string(), "2".to_string()),
    ]);
    let b = StringMap::from_pairs(vec![
        ("y".to_string(), "2".to_string()),
        ("x".to_string(), "1".to_string()),
    ]);
    let c = StringMap::from_pairs(vec![
        ("y".to_string(), "2".to_string()),
        ("x".to_string(), "7".to_string()),
    ]);
    let d = StringMap::from_pairs(vec![("x".to_string(), "1".to_string())]);
    let e = StringMap::from_pairs(vec![
        ("x".to_string(), "1".to_string()),
        ("z".to_string(), "2".to_string()),
    ]);
    assert_eq!(a, b);
    assert_ne!(a, c);
    assert_ne!(a, d);
    assert_ne!(a, e);
    assert_eq!(a.clone(), a);
    assert_eq!(a.clone().key_at(0), "x");
}

#[test]
fn text_helpers() {
    assert_eq!(joined("ab", "cd"), "abcd");
    assert_eq!(joined("", ""), "");
    let items = vec!["a".to_string(), "b".to_string()];
    assert_eq!(clone_texts(&items), items);
    assert!(same_texts(&items, &items.clone()));
    assert!(!same_texts(&items, &vec!["a".to_string()]));
    assert!(!same_texts(&items, &vec!["a".to_string(), "c".to_string()]));
}
