use wishlist_api::wishlist::Wishlist;

#[test]
fn wishlist_tests_test_wishlist_creation() {
    let w = Wishlist {
        id: "test-id".to_string(),
        name: "Test Wishlist".to_string(),
        owner: "Test Owner".to_string(),
        items: Vec::new(),
    };
    assert_eq!(w.owner, "Test Owner");
    assert!(w.items.is_empty());
}

#[test]
fn test_item_addition() {
    let mut w = Wishlist {
        id: "test-id".to_string(),
        name: "Test Wishlist".to_string(),
        owner: "Test Owner".to_string(),
        items: Vec::new(),
    };
    w.items.push("Item 1".to_string());
    assert_eq!(w.items.len(), 1);
}

#[test]
fn duplicate_keeps_every_field() {
    let w = Wishlist {
        id: "a".to_string(),
        name: "n".to_string(),
        owner: "o".to_string(),
        items: vec!["x".to_string(), "x".to_string(), "y".to_string()],
    };
    let d = w.duplicate();
    assert_eq!(d.id, "a");
    assert_eq!(d.name, "n");
    assert_eq!(d.owner, "o");
    assert_eq!(d.items, vec!["x".to_string(), "x".to_string(), "y".to_string()]);
}

#[test]
fn stack_props_keep_repository() {
    let p = wishlist_api::deployment::WishappStackProps::new("morgaesis", "wishapp");
    assert_eq!(p.github_org, "morgaesis");
    assert_eq!(p.github_repo, "wishapp");
}
