use chat_mirror::routes::RouteTable;

#[test]
fn empty_table_routes_nothing() {
    let table: RouteTable<String> = RouteTable::new();
    assert_eq!(table.len(), 0);
    assert_eq!(table.lookup(1), None);
    assert!(!table.contains(1));
}

#[test]
fn insert_then_lookup() {
    let mut table = RouteTable::new();
    assert_eq!(table.insert(7, "https://hook/7".to_string()), None);
    assert_eq!(table.insert(8, "https://hook/8".to_string()), None);
    assert_eq!(table.lookup(7), Some(&"https://hook/7".to_string()));
    assert_eq!(table.lookup(8), Some(&"https://hook/8".to_string()));
    assert_eq!(table.lookup(9), None);
    assert!(table.contains(7));
    assert!(!table.contains(9));
    assert_eq!(table.len(), 2);
}

#[test]
fn insert_replaces_and_returns_the_previous_handle() {
    let mut table = RouteTable::new();
    table.insert(7, "old".to_string());
    assert_eq!(table.insert(7, "new".to_string()), Some("old".to_string()));
    assert_eq!(table.lookup(7), Some(&"new".to_string()));
    assert_eq!(table.len(), 1);
}

#[test]
fn from_pairs_lets_the_later_pair_count() {
    let table = RouteTable::from_pairs(vec![(1u64, "a"), (2, "b"), (1, "c")]);
    assert_eq!(table.lookup(1), Some(&"c"));
    assert_eq!(table.lookup(2), Some(&"b"));
    assert_eq!(table.lookup(3), None);
    assert_eq!(table.len(), 2);
}

#[test]
fn from_pairs_of_nothing_is_empty() {
    let table: RouteTable<u8> = RouteTable::from_pairs(Vec::new());
    assert_eq!(table.len(), 0);
    assert_eq!(table.lookup(0), None);
}

#[test]
fn channel_identifiers_span_the_whole_range() {
    let table = RouteTable::from_pairs(vec![(0u64, 'a'), (u64::MAX, 'z')]);
    assert_eq!(table.lookup(0), Some(&'a'));
    assert_eq!(table.lookup(u64::MAX), Some(&'z'));
    assert_eq!(table.lookup(u64::MAX - 1), None);
}
