use actioneer::collections::{AssocMap, IdMap};

#[test]
fn id_map_reads_back_writes() {
    let mut m: IdMap<&str> = IdMap::new();
    assert_eq!(m.len(), 0);
    m.insert(3, "three");
    m.insert(5, "five");
    m.insert(3, "THREE");
    assert_eq!(m.len(), 2);
    assert_eq!(m.get(&3), Some(&"THREE"));
    assert_eq!(m.remove(&5), Some("five"));
    assert_eq!(m.remove(&5), None);
    assert!(!m.contains_key(&5));
    m.clear();
    assert_eq!(m.len(), 0);
}

#[test]
fn id_map_keys_and_retain() {
    let mut m: IdMap<i64> = IdMap::new();
    for k in [1, 2, 3, 4] {
        m.insert(k, k * 10);
    }
    let mut ks = m.keys();
    ks.sort();
    assert_eq!(ks, vec![1, 2, 3, 4]);
    m.retain_listed(&vec![2, 4, 9]);
    let mut ks = m.keys();
    ks.sort();
    assert_eq!(ks, vec![2, 4]);
    assert_eq!(m.get(&4), Some(&40));
}

#[test]
fn assoc_map_with_text_keys() {
    let mut m: AssocMap<String, i32> = AssocMap::new();
    m.insert("a/b".to_string(), 1);
    m.insert("a/b".to_string(), 2);
    assert_eq!(m.len(), 1);
    assert_eq!(m.get(&"a/b".to_string()), Some(&2));
    m.retain_listed(&vec!["x".to_string()]);
    assert_eq!(m.len(), 0);
}
