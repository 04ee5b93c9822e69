use toshi::handlers::root::root;

const TOSHI_INFO: &[u8] = b"{\"name\":\"Toshi Search\",\"version\":\"0.1.1\"}";

#[test]
fn test_root() {
    let reply = root();
    assert_eq!(reply.body.as_bytes(), TOSHI_INFO);
}

#[test]
fn root_is_json() {
    assert_eq!(root().content_type, "application/json");
}
