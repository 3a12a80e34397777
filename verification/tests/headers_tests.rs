use anisette_bridge::Headers;

#[test]
fn empty_has_no_entries() {
    let h = Headers::new();
    assert_eq!(h.len(), 0);
    assert!(h.get(&String::from("X-Test")).is_none());
}

#[test]
fn insert_then_get_returns_value() {
    let mut h = Headers::new();
    h.insert(String::from("X-Test"), String::from("1"));
    assert_eq!(h.len(), 1);
    assert_eq!(h.get(&String::from("X-Test")), Some(&String::from("1")));
    assert!(h.get(&String::from("X-Other")).is_none());
}

#[test]
fn insert_replaces_existing_name() {
    let mut h = Headers::new();
    h.insert(String::from("X-Test"), String::from("1"));
    h.insert(String::from("X-Test"), String::from("2"));
    assert_eq!(h.len(), 1);
    assert_eq!(h.get(&String::from("X-Test")), Some(&String::from("2")));
}

#[test]
fn distinct_names_are_kept_apart() {
    let mut h = Headers::new();
    h.insert(String::from("X-Apple-MD"), String::from("aaa"));
    h.insert(String::from("X-Apple-MD-M"), String::from("bbb"));
    assert_eq!(h.len(), 2);
    assert_eq!(h.get(&String::from("X-Apple-MD")), Some(&String::from("aaa")));
    assert_eq!(h.get(&String::from("X-Apple-MD-M")), Some(&String::from("bbb")));
}

#[test]
fn pair_walks_the_entries() {
    let mut h = Headers::new();
    h.insert(String::from("a"), String::from("1"));
    h.insert(String::from("b"), String::from("2"));
    let mut seen = Vec::new();
    for i in 0..h.len() {
        seen.push(h.pair(i));
    }
    assert_eq!(
        seen,
        vec![
            (String::from("a"), String::from("1")),
            (String::from("b"), String::from("2")),
        ]
    );
}

#[test]
fn clone_preserves_entries() {
    let mut h = Headers::new();
    h.insert(String::from("X-Test"), String::from("1"));
    let c = h.clone();
    assert_eq!(c.len(), 1);
    assert_eq!(c.get(&String::from("X-Test")), Some(&String::from("1")));
}
