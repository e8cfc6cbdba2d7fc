use wishlist_api::router::{has_prefix, route, strip_stage, trim_end_char, trim_start_matches, Route};

#[test]
fn routes() {
    assert_eq!(route("GET", "/anything"), Route::Get);
    assert_eq!(route("POST", "/wishlists"), Route::Post);
    assert_eq!(route("PUT", "/prod/wishlists"), Route::Put);
    assert_eq!(route("DELETE", "/wishlists"), Route::Delete);
    assert_eq!(route("POST", "/wishlist"), Route::NotFound);
    assert_eq!(route("DELETE", "/wishlists/x"), Route::NotFound);
    assert_eq!(route("PATCH", "/wishlists"), Route::MethodNotAllowed);
}

#[test]
fn stage_prefix_is_stripped() {
    assert_eq!(strip_stage("/prod/wishlists"), "/wishlists");
    assert_eq!(strip_stage("/prod/prod/health"), "/health");
    assert_eq!(strip_stage("/wishlists"), "/wishlists");
    assert_eq!(strip_stage(""), "");
}

#[test]
fn text_helpers() {
    assert_eq!(trim_start_matches("abababc", "ab"), "c");
    assert_eq!(trim_start_matches("abc", ""), "abc");
    assert_eq!(trim_end_char("id///", '/'), "id");
    assert_eq!(trim_end_char("///", '/'), "");
    assert!(has_prefix("/wishlists/1", "/wishlists/"));
    assert!(!has_prefix("/wish", "/wishlists/"));
}
