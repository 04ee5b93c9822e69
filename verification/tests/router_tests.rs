use toshi::router::{route_request, QueryOptions, RequestMethod, Route};

fn s(x: &str) -> Option<String> {
    Some(x.to_string())
}

#[test]
fn query_flags_default_to_off() {
    let opts = QueryOptions::default();
    assert!(!opts.pretty());
    assert!(!opts.include_sizes());
}

#[test]
fn query_flags_follow_given_values() {
    let opts = QueryOptions { pretty: Some(true), include_sizes: Some(false) };
    assert!(opts.pretty());
    assert!(!opts.include_sizes());
    let opts = QueryOptions { pretty: Some(false), include_sizes: Some(true) };
    assert!(!opts.pretty());
    assert!(opts.include_sizes());
}

#[test]
fn put_create_creates_the_index() {
    let r = route_request(RequestMethod::Put, s("test_index"), s("_create"));
    assert_eq!(r, Route::CreateIndex("test_index".to_string()));
}

#[test]
fn put_with_another_action_is_not_found() {
    assert_eq!(route_request(RequestMethod::Put, s("test_index"), s("_bulk")), Route::NotFound);
    assert_eq!(route_request(RequestMethod::Put, s("test_index"), s("_Create")), Route::NotFound);
}

#[test]
fn put_without_action_is_not_found() {
    assert_eq!(route_request(RequestMethod::Put, s("test_index"), None), Route::NotFound);
    assert_eq!(route_request(RequestMethod::Put, None, None), Route::NotFound);
}

#[test]
fn get_is_the_root() {
    assert_eq!(route_request(RequestMethod::Get, None, None), Route::Root);
    assert_eq!(route_request(RequestMethod::Get, s("idx"), s("_summary")), Route::Root);
}

#[test]
fn other_methods_are_not_found() {
    assert_eq!(route_request(RequestMethod::Post, s("idx"), s("_create")), Route::NotFound);
    assert_eq!(route_request(RequestMethod::Delete, s("idx"), None), Route::NotFound);
    assert_eq!(route_request(RequestMethod::Other, None, None), Route::NotFound);
}
