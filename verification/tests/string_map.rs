use oagw::string_map::StringMap;
use oagw::text::{join, same_text};

#[test]
fn new_map_is_empty() {
    let map: StringMap<String> = StringMap::new();
    assert_eq!(map.len(), 0);
    assert!(map.is_empty());
    assert!(map.get("a").is_none());
    assert!(!map.contains_key("a"));
    assert!(map.entry(0).is_none());
}

#[test]
fn insert_stores_and_replaces() {
    let mut map = StringMap::new();
    assert_eq!(map.insert("a".to_string(), 1u32), None);
    assert_eq!(map.insert("b".to_string(), 2u32), None);
    assert_eq!(map.len(), 2);
    assert_eq!(map.insert("a".to_string(), 3u32), Some(1));
    assert_eq!(map.len(), 2);
    assert_eq!(map.get("a"), Some(&3));
    assert_eq!(map.get("b"), Some(&2));
    assert!(map.contains_key("a"));
    assert!(!map.contains_key("A"));
    assert!(!map.is_empty());
}

#[test]
fn keys_are_compared_exactly() {
    let mut map = StringMap::new();
    map.insert("Key".to_string(), 1u8);
    map.insert("key".to_string(), 2u8);
    map.insert("ke".to_string(), 3u8);
    map.insert("keyy".to_string(), 4u8);
    map.insert("".to_string(), 5u8);
    assert_eq!(map.len(), 5);
    assert_eq!(map.get("Key"), Some(&1));
    assert_eq!(map.get("key"), Some(&2));
    assert_eq!(map.get("ke"), Some(&3));
    assert_eq!(map.get("keyy"), Some(&4));
    assert_eq!(map.get(""), Some(&5));
    assert_eq!(map.get("k"), None);
}

#[test]
fn remove_hands_back_the_value_once() {
    let mut map = StringMap::new();
    map.insert("a".to_string(), 1u32);
    map.insert("b".to_string(), 2u32);
    map.insert("c".to_string(), 3u32);
    assert_eq!(map.remove("b"), Some(2));
    assert_eq!(map.remove("b"), None);
    assert_eq!(map.len(), 2);
    assert_eq!(map.get("a"), Some(&1));
    assert_eq!(map.get("b"), None);
    assert_eq!(map.get("c"), Some(&3));
    assert_eq!(map.remove("missing"), None);
    assert_eq!(map.len(), 2);
}

#[test]
fn entries_cover_every_key_once() {
    let mut map = StringMap::new();
    map.insert("a".to_string(), "1".to_string());
    map.insert("b".to_string(), "2".to_string());
    map.insert("a".to_string(), "3".to_string());
    map.insert("c".to_string(), "4".to_string());
    let mut seen = Vec::new();
    let mut index = 0;
    while let Some((key, value)) = map.entry(index) {
        seen.push((key.clone(), value.clone()));
        index += 1;
    }
    assert_eq!(index, map.len());
    seen.sort();
    assert_eq!(
        seen,
        vec![
            ("a".to_string(), "3".to_string()),
            ("b".to_string(), "2".to_string()),
            ("c".to_string(), "4".to_string()),
        ]
    );
    assert!(map.entry(3).is_none());
    assert!(map.entry(usize::MAX).is_none());
}

#[test]
fn overlay_prefers_the_upper_map() {
    let mut under = StringMap::new();
    under.insert("accept".to_string(), "*/*".to_string());
    under.insert("authorization".to_string(), "inbound".to_string());
    let mut over = StringMap::new();
    over.insert("authorization".to_string(), "injected".to_string());
    over.insert("x-api-key".to_string(), "k".to_string());

    under.overlay(over);
    assert_eq!(under.len(), 3);
    assert_eq!(under.get("accept").unwrap(), "*/*");
    assert_eq!(under.get("authorization").unwrap(), "injected");
    assert_eq!(under.get("x-api-key").unwrap(), "k");
}

#[test]
fn overlay_with_an_empty_map_changes_nothing() {
    let mut under = StringMap::new();
    under.insert("a".to_string(), "1".to_string());
    under.overlay(StringMap::new());
    assert_eq!(under.len(), 1);
    assert_eq!(under.get("a").unwrap(), "1");

    let mut empty: StringMap<String> = StringMap::new();
    let mut over = StringMap::new();
    over.insert("b".to_string(), "2".to_string());
    empty.overlay(over);
    assert_eq!(empty.len(), 1);
    assert_eq!(empty.get("b").unwrap(), "2");
}

#[test]
fn clone_is_independent() {
    let mut map = StringMap::new();
    map.insert("a".to_string(), "1".to_string());
    map.insert("b".to_string(), "2".to_string());
    let mut copy = map.clone();
    assert_eq!(copy.len(), 2);
    assert_eq!(copy.get("a").unwrap(), "1");
    copy.insert("a".to_string(), "changed".to_string());
    copy.remove("b");
    assert_eq!(map.get("a").unwrap(), "1");
    assert_eq!(map.get("b").unwrap(), "2");
    let second = map.duplicate();
    assert_eq!(second.len(), 2);
    assert_eq!(second.get("b").unwrap(), "2");
}

#[test]
fn same_text_compares_characters() {
    assert!(same_text("", ""));
    assert!(same_text("abc", "abc"));
    assert!(!same_text("abc", "abd"));
    assert!(!same_text("abc", "ab"));
    assert!(!same_text("ab", "abc"));
    assert!(!same_text("abc", "ABC"));
    assert!(same_text("clé", "clé"));
    assert!(!same_text("cle", "clé"));
}

#[test]
fn join_puts_head_before_tail() {
    assert_eq!(join("Bearer ", "sk-abc123"), "Bearer sk-abc123");
    assert_eq!(join("", "x"), "x");
    assert_eq!(join("x", ""), "x");
    assert_eq!(join("", ""), "");
}
