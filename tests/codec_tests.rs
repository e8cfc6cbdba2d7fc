use wishlist_api::codec::{decode_all, decode_item, from_attributes, to_attributes, AttrValue, AttributeMap};
use wishlist_api::error::AppError;
use wishlist_api::wishlist::Wishlist;

fn record(id: &str, items: &[&str]) -> Wishlist {
    Wishlist {
        id: id.to_string(),
        name: "Christmas".to_string(),
        owner: "Alice".to_string(),
        items: items.iter().map(|s| s.to_string()).collect(),
    }
}

fn s(v: &str) -> AttrValue {
    AttrValue::S(v.to_string())
}

#[test]
fn encoding_has_one_attribute_per_field() {
    let m = to_attributes(&record("w1", &["Socks", "Book"]));
    assert_eq!(m.len(), 4);
    assert_eq!(m[0].0, "id");
    assert!(matches!(&m[0].1, AttrValue::S(v) if v == "w1"));
    assert_eq!(m[1].0, "name");
    assert_eq!(m[2].0, "owner");
    assert_eq!(m[3].0, "items");
    match &m[3].1 {
        AttrValue::L(l) => {
            assert_eq!(l.len(), 2);
            assert!(matches!(&l[0], AttrValue::S(v) if v == "Socks"));
            assert!(matches!(&l[1], AttrValue::S(v) if v == "Book"));
        }
        _ => panic!("items is not a list"),
    }
}

#[test]
fn round_trip_keeps_item_order_and_duplicates() {
    let w = record("w1", &["b", "a", "b"]);
    let back = from_attributes(&to_attributes(&w)).unwrap();
    assert_eq!(back.id, "w1");
    assert_eq!(back.name, "Christmas");
    assert_eq!(back.owner, "Alice");
    assert_eq!(back.items, vec!["b".to_string(), "a".to_string(), "b".to_string()]);
}

#[test]
fn missing_items_decode_to_empty() {
    let m: AttributeMap = vec![
        ("owner".to_string(), s("Alice")),
        ("id".to_string(), s("x")),
        ("name".to_string(), s("N")),
    ];
    let w = from_attributes(&m).unwrap();
    assert_eq!(w.id, "x");
    assert!(w.items.is_empty());
}

#[test]
fn non_string_list_entries_are_skipped() {
    let m: AttributeMap = vec![
        ("id".to_string(), s("x")),
        ("name".to_string(), s("N")),
        ("owner".to_string(), s("O")),
        ("items".to_string(), AttrValue::L(vec![s("a"), AttrValue::Other, s("c")])),
    ];
    let w = from_attributes(&m).unwrap();
    assert_eq!(w.items, vec!["a".to_string(), "c".to_string()]);
}

#[test]
fn decode_errors_name_the_field() {
    let no_id: AttributeMap = vec![("name".to_string(), s("N")), ("owner".to_string(), s("O"))];
    assert_eq!(from_attributes(&no_id).unwrap_err(), "ID not found or not a string");
    let bad_name: AttributeMap = vec![
        ("id".to_string(), s("x")),
        ("name".to_string(), AttrValue::Other),
        ("owner".to_string(), s("O")),
    ];
    assert_eq!(from_attributes(&bad_name).unwrap_err(), "Name not found or not a string");
    let no_owner: AttributeMap = vec![("id".to_string(), s("x")), ("name".to_string(), s("N"))];
    assert_eq!(from_attributes(&no_owner).unwrap_err(), "Owner not found or not a string");
}

#[test]
fn first_entry_of_a_name_counts() {
    let m: AttributeMap = vec![
        ("id".to_string(), s("first")),
        ("id".to_string(), s("second")),
        ("name".to_string(), s("N")),
        ("owner".to_string(), s("O")),
    ];
    assert_eq!(from_attributes(&m).unwrap().id, "first");
}

#[test]
fn decode_item_cases() {
    assert!(matches!(decode_item(None), Ok(None)));
    let found = decode_item(Some(to_attributes(&record("k", &[])))).unwrap().unwrap();
    assert_eq!(found.id, "k");
    let broken: AttributeMap = vec![("id".to_string(), s("k"))];
    match decode_item(Some(broken)) {
        Err(AppError::Generic(t)) => assert_eq!(t, "Name not found or not a string"),
        other => panic!("unexpected {:?}", other),
    }
}

#[test]
fn decode_all_skips_broken_items() {
    let items = vec![
        to_attributes(&record("a", &["1"])),
        vec![("id".to_string(), s("broken"))],
        to_attributes(&record("b", &[])),
    ];
    let all = decode_all(items);
    assert_eq!(all.len(), 2);
    assert_eq!(all[0].id, "a");
    assert_eq!(all[1].id, "b");
}
