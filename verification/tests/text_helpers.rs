use shore_mcp::text::{join_path, str_eq};

#[test]
fn str_eq_compares_characters() {
    assert!(str_eq("status", "status"));
    assert!(!str_eq("status", "statuses"));
    assert!(!str_eq("status", "Status"));
    assert!(str_eq("", ""));
    assert!(str_eq("héllo", "héllo"));
    assert!(!str_eq("héllo", "hello"));
}

#[test]
fn join_path_matches_unix_paths() {
    assert_eq!(join_path("/tmp", "x"), "/tmp/x");
    assert_eq!(join_path("/tmp/", "x"), "/tmp/x");
    assert_eq!(join_path("", "x"), "x");
    assert_eq!(join_path("/tmp", "/abs"), "/abs");
    assert_eq!(join_path("/", "x"), "/x");
    for (base, child) in [("/a/b", "c"), ("rel", "d"), ("/a/", "e"), ("/q", "/r")] {
        let expected = std::path::Path::new(base).join(child);
        assert_eq!(join_path(base, child), expected.to_str().unwrap());
    }
}
