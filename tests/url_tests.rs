use barrage::url::resolve_url;

#[test]
fn one_slash_between_host_and_path() {
    assert_eq!(resolve_url("http://example.com/", Some("/api/v1")), "http://example.com/api/v1");
    assert_eq!(resolve_url("http://example.com", Some("api/v1")), "http://example.com/api/v1");
    assert_eq!(resolve_url("http://example.com", Some("/api/v1")), "http://example.com/api/v1");
    assert_eq!(resolve_url("http://example.com/", Some("api/v1")), "http://example.com/api/v1");
    assert_eq!(resolve_url("http://example.com///", Some("//api/v1/")), "http://example.com/api/v1/");
}

#[test]
fn host_alone_without_path() {
    assert_eq!(resolve_url("http://example.com/", None), "http://example.com/");
}

#[test]
fn empty_path_and_slash_only_parts() {
    assert_eq!(resolve_url("http://h", Some("")), "http://h/");
    assert_eq!(resolve_url("/", Some("/")), "/");
    assert_eq!(resolve_url("http://hé/", Some("/ünï")), "http://hé/ünï");
}
