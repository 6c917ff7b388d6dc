use api_data_sync::{Document, ResultSet};

fn doc(id: &str, name: &str) -> Document {
    Document {
        address_name: String::new(),
        category_name: String::new(),
        id: id.to_string(),
        phone: String::new(),
        place_name: name.to_string(),
        place_url: String::new(),
        road_address_name: String::new(),
        x: String::new(),
        y: String::new(),
    }
}

#[test]
fn dedup_keeps_first_record() {
    // Two records with equal identifiers but different descriptive
    // fields: exactly one entry survives, the one inserted first.
    let mut set = ResultSet::new();
    set.insert(doc("k1", "first name"));
    set.insert(doc("k1", "second name"));
    assert_eq!(set.len(), 1);
    assert_eq!(set.documents()[0].place_name, "first name");
}

#[test]
fn distinct_ids_all_kept_in_order() {
    let mut set = ResultSet::new();
    set.insert(doc("a", "1"));
    set.insert(doc("b", "2"));
    set.insert(doc("c", "3"));
    assert_eq!(set.len(), 3);
    let ids: Vec<&str> = set.documents().iter().map(|d| d.id.as_str()).collect();
    assert_eq!(ids, vec!["a", "b", "c"]);
}

#[test]
fn contains_id_sees_inserted_keys() {
    let mut set = ResultSet::new();
    assert!(!set.contains_id(&"a".to_string()));
    set.insert(doc("a", "x"));
    assert!(set.contains_id(&"a".to_string()));
    assert!(!set.contains_id(&"b".to_string()));
}

#[test]
fn merge_prefers_left_entry() {
    let mut a = ResultSet::new();
    a.insert(doc("shared", "from a"));
    a.insert(doc("only-a", "a"));
    let mut b = ResultSet::new();
    b.insert(doc("shared", "from b"));
    b.insert(doc("only-b", "b"));

    let merged = ResultSet::merge(a, b);
    assert_eq!(merged.len(), 3);
    let shared = merged
        .documents()
        .iter()
        .find(|d| d.id == "shared")
        .unwrap();
    assert_eq!(shared.place_name, "from a");
}
