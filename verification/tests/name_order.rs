use contract_interface::name_map::NameMap;
use contract_interface::names::precedes;

fn names_of(map: &NameMap<u32>) -> Vec<(String, u32)> {
    let mut out = Vec::new();
    for i in 0..map.len() {
        let (name, value) = map.entry(i);
        out.push((name.clone(), *value));
    }
    out
}

#[test]
fn precedes_is_strict() {
    assert!(!precedes("", ""));
    assert!(!precedes("abc", "abc"));
}

#[test]
fn a_proper_prefix_comes_first() {
    assert!(precedes("", "a"));
    assert!(precedes("a", "ab"));
    assert!(!precedes("ab", "a"));
    assert!(!precedes("a", ""));
}

#[test]
fn the_first_difference_decides() {
    assert!(precedes("abc", "abd"));
    assert!(!precedes("abd", "abc"));
    assert!(precedes("abz", "ac"));
    assert!(!precedes("b", "azzz"));
}

#[test]
fn upper_case_comes_before_lower_case() {
    assert!(precedes("B", "a"));
    assert!(!precedes("a", "B"));
}

#[test]
fn names_are_ordered_by_their_bytes() {
    assert!(precedes("z", "\u{e9}"));
    assert!(!precedes("\u{e9}", "z"));
    assert!(precedes("\u{e9}", "\u{4e2d}"));
    assert!(precedes("\u{ffff}", "\u{10000}"));
}

#[test]
fn precedes_agrees_with_the_order_of_strings() {
    let names = ["", "a", "A", "ab", "b", "get-balance", "get_balance", "\u{e9}", "zz"];
    for x in names.iter() {
        for y in names.iter() {
            assert_eq!(precedes(x, y), x < y);
        }
    }
}

#[test]
fn a_new_map_is_empty() {
    let map: NameMap<u32> = NameMap::new();
    assert_eq!(map.len(), 0);
    assert!(map.first().is_none());
}

#[test]
fn insert_keeps_the_names_in_order() {
    let mut map = NameMap::new();
    assert_eq!(map.insert("mint".to_string(), 1), None);
    assert_eq!(map.insert("burn".to_string(), 2), None);
    assert_eq!(map.insert("transfer".to_string(), 3), None);
    assert_eq!(map.insert("allow".to_string(), 4), None);
    assert_eq!(
        names_of(&map),
        vec![
            ("allow".to_string(), 4),
            ("burn".to_string(), 2),
            ("mint".to_string(), 1),
            ("transfer".to_string(), 3),
        ]
    );
}

#[test]
fn insert_replaces_the_value_of_a_known_name() {
    let mut map = NameMap::new();
    assert_eq!(map.insert("a".to_string(), 1), None);
    assert_eq!(map.insert("b".to_string(), 2), None);
    assert_eq!(map.insert("a".to_string(), 3), Some(1));
    assert_eq!(map.len(), 2);
    assert_eq!(names_of(&map), vec![("a".to_string(), 3), ("b".to_string(), 2)]);
    assert_eq!(map.insert("b".to_string(), 4), Some(2));
    assert_eq!(names_of(&map), vec![("a".to_string(), 3), ("b".to_string(), 4)]);
}

#[test]
fn the_order_of_inserts_does_not_matter() {
    let mut first = NameMap::new();
    first.insert("x".to_string(), 1);
    first.insert("y".to_string(), 2);
    first.insert("z".to_string(), 3);
    let mut second = NameMap::new();
    second.insert("z".to_string(), 3);
    second.insert("x".to_string(), 1);
    second.insert("y".to_string(), 2);
    assert_eq!(first, second);
}

#[test]
fn first_is_the_entry_whose_name_comes_first() {
    let mut map = NameMap::new();
    map.insert("note".to_string(), 10);
    map.insert("amount".to_string(), 20);
    let (name, value) = map.first().unwrap();
    assert_eq!(name, "amount");
    assert_eq!(*value, 20);
    let (name, value) = map.entry(1);
    assert_eq!(name, "note");
    assert_eq!(*value, 10);
}

#[test]
fn get_finds_the_value_of_a_name() {
    let mut map = NameMap::new();
    map.insert("mint".to_string(), 1);
    map.insert("burn".to_string(), 2);
    map.insert("transfer".to_string(), 3);
    assert_eq!(map.get("burn"), Some(&2));
    assert_eq!(map.get("mint"), Some(&1));
    assert_eq!(map.get("transfer"), Some(&3));
    assert_eq!(map.get("bur"), None);
    assert_eq!(map.get("burns"), None);
    assert_eq!(map.get(""), None);
    assert_eq!(map.get("zzz"), None);
    map.insert("mint".to_string(), 9);
    assert_eq!(map.get("mint"), Some(&9));
    let empty: NameMap<u32> = NameMap::new();
    assert_eq!(empty.get("mint"), None);
}
