use lorian_bot::store::{KeyedStore, StringMap};

fn keys(m: &KeyedStore<u32>) -> Vec<String> {
    (0..m.len()).map(|i| m.key_at(i).clone()).collect()
}

#[test]
fn insert_replaces_in_place_and_appends_new_keys() {
    let mut m: KeyedStore<u32> = KeyedStore::new();
    assert!(m.is_empty());
    m.insert("a".into(), 1);
    m.insert("b".into(), 2);
    m.insert("a".into(), 3);
    assert_eq!(m.len(), 2);
    assert_eq!(keys(&m), vec!["a", "b"]);
    assert_eq!(m.get("a"), Some(&3));
    assert_eq!(m.get("b"), Some(&2));
    assert_eq!(m.get("c"), None);
    assert!(m.contains_key("b"));
    assert!(!m.contains_key("B"));
    assert_eq!(m.index_of("b"), Some(1));
    assert_eq!(m.index_of("z"), None);
}

#[test]
fn remove_of_an_absent_key_changes_nothing() {
    let mut m: KeyedStore<u32> = KeyedStore::new();
    m.insert("a".into(), 1);
    m.insert("b".into(), 2);
    assert_eq!(m.remove("zz"), None);
    assert_eq!(keys(&m), vec!["a", "b"]);
    assert_eq!(m.remove("a"), Some(1));
    assert_eq!(m.remove("a"), None);
    assert_eq!(keys(&m), vec!["b"]);
    assert_eq!(m.get("b"), Some(&2));
}

#[test]
fn values_can_be_changed_in_place() {
    let mut m: KeyedStore<u32> = KeyedStore::new();
    m.insert("a".into(), 1);
    m.insert("b".into(), 2);
    if let Some(v) = m.get_mut("b") {
        *v = 20;
    }
    assert!(m.get_mut("zz").is_none());
    *m.value_at_mut(0) = 10;
    assert_eq!(m.value_at(0), &10);
    assert_eq!(m.value_at(1), &20);
    m.set_value_at(1, 21);
    assert_eq!(m.get("b"), Some(&21));
    assert_eq!(m.remove_at(0), 10);
    assert_eq!(keys(&m), vec!["b"]);
}

#[test]
fn retain_marked_keeps_the_marked_in_order() {
    let mut m: KeyedStore<u32> = KeyedStore::new();
    for (i, k) in ["a", "b", "c", "d", "e"].iter().enumerate() {
        m.insert(k.to_string(), i as u32);
    }
    m.retain_marked(&vec![true, false, true, false, true]);
    assert_eq!(keys(&m), vec!["a", "c", "e"]);
    assert_eq!(m.get("c"), Some(&2));
    m.retain_marked(&vec![false, false, false]);
    assert!(m.is_empty());
    m.retain_marked(&vec![]);
    assert!(m.is_empty());
}

#[test]
fn a_duplicate_has_the_same_entries() {
    let mut m = StringMap::default();
    m.insert("k".into(), "v".into());
    m.push_entry("j".into(), "w".into());
    let d = m.duplicate();
    assert_eq!(d.len(), 2);
    assert_eq!(d.get("k").map(|s| s.as_str()), Some("v"));
    assert_eq!(d.key_at(1), "j");
    assert_eq!(d.value_at(1), "w");
}
