use lunar::name_map::NameMap;

fn names(map: &NameMap<String>) -> Vec<(String, String)> {
    let mut all = Vec::new();
    for i in 0..map.len() {
        all.push((map.name_at(i).clone(), map.value_at(i).clone()));
    }
    all
}

fn pair(name: &str, value: &str) -> (String, String) {
    (name.to_string(), value.to_string())
}

#[test]
fn a_new_map_is_empty() {
    let map: NameMap<String> = NameMap::new();
    assert_eq!(map.len(), 0);
    assert_eq!(map.get("a"), None);
    assert!(!map.contains("a"));
    assert_eq!(map.position("a"), None);
}

#[test]
fn names_keep_the_order_of_their_first_insertion() {
    let mut map: NameMap<String> = NameMap::new();
    map.insert("b".to_string(), "1".to_string());
    map.insert("a".to_string(), "2".to_string());
    map.insert("c".to_string(), "3".to_string());
    assert_eq!(names(&map), vec![pair("b", "1"), pair("a", "2"), pair("c", "3")]);
    assert_eq!(map.position("a"), Some(1));
}

#[test]
fn the_last_write_under_a_name_wins() {
    let mut map: NameMap<String> = NameMap::new();
    map.insert("a".to_string(), "first".to_string());
    map.insert("b".to_string(), "other".to_string());
    map.insert("a".to_string(), "second".to_string());
    assert_eq!(map.len(), 2);
    assert_eq!(map.get("a"), Some(&"second".to_string()));
    assert_eq!(map.get("b"), Some(&"other".to_string()));
    assert_eq!(names(&map), vec![pair("a", "second"), pair("b", "other")]);
}

#[test]
fn names_are_compared_exactly() {
    let mut map: NameMap<String> = NameMap::new();
    map.insert("Task".to_string(), "1".to_string());
    assert!(map.contains("Task"));
    assert!(!map.contains("task"));
    assert!(!map.contains("Task "));
    assert!(!map.contains(""));
}
