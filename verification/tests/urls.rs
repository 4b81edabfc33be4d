use httpkit::http_url::HttpUrl;

#[test]
fn parse_accepts_an_absolute_url() {
    let url = HttpUrl::parse("https://api.example.com/v1/").unwrap();
    assert_eq!(url.as_str(), "https://api.example.com/v1/");
}

#[test]
fn parse_rejects_a_malformed_url() {
    assert!(HttpUrl::parse("not a url").is_err());
    assert!(HttpUrl::parse("users/42").is_err());
}

#[test]
fn join_resolves_a_relative_path() {
    let base = HttpUrl::parse("https://api.example.com/v1/").unwrap();
    let joined = base.join("users/42").unwrap();
    assert_eq!(joined.as_str(), "https://api.example.com/v1/users/42");
}

#[test]
fn join_without_trailing_slash_replaces_the_last_segment() {
    let base = HttpUrl::parse("https://example.net/a/b.html").unwrap();
    let joined = base.join("c.png").unwrap();
    assert_eq!(joined.as_str(), "https://example.net/a/c.png");
}

#[test]
fn join_with_an_absolute_path_resets_the_path() {
    let base = HttpUrl::parse("https://alice.com/a").unwrap();
    let joined = base.join("/v1/meta").unwrap();
    assert_eq!(joined.as_str(), "https://alice.com/v1/meta");
}

#[test]
fn join_with_an_absolute_url_ignores_the_base() {
    let base = HttpUrl::parse("https://alice.com/a").unwrap();
    let joined = base.join("http://eve.com/b").unwrap();
    assert_eq!(joined.as_str(), "http://eve.com/b");
}

#[test]
fn query_pairs_are_appended_in_order() {
    let url = HttpUrl::parse("https://api.example.com/v1/users/42").unwrap();
    let pairs = vec![
        ("active".to_string(), "true".to_string()),
        ("page".to_string(), "2".to_string()),
    ];
    let with_query = url.with_query_pairs(&pairs);
    assert_eq!(with_query.as_str(), "https://api.example.com/v1/users/42?active=true&page=2");
}

#[test]
fn appending_preserves_a_pre_existing_query() {
    let url = HttpUrl::parse("https://example.net/search?q=rust").unwrap();
    let pairs = vec![("lang".to_string(), "en".to_string())];
    let with_query = url.with_query_pairs(&pairs);
    assert_eq!(with_query.as_str(), "https://example.net/search?q=rust&lang=en");
}

#[test]
fn resolution_then_query_application_yields_the_joined_url_with_params() {
    let base = HttpUrl::parse("https://api.example.com/v1/").unwrap();
    let joined = base.join("users/42").unwrap();
    let pairs = vec![("active".to_string(), "true".to_string())];
    let full = joined.with_query_pairs(&pairs);
    assert_eq!(full.as_str(), "https://api.example.com/v1/users/42?active=true");
}

#[test]
fn pair_values_are_form_encoded() {
    let url = HttpUrl::parse("https://example.net/").unwrap();
    let pairs = vec![("q".to_string(), "a b".to_string())];
    let with_query = url.with_query_pairs(&pairs);
    assert_eq!(with_query.as_str(), "https://example.net/?q=a+b");
}

#[test]
fn duplicate_copies_the_url() {
    let url = HttpUrl::parse("https://example.net/x").unwrap();
    let copy = url.duplicate();
    assert_eq!(url.as_str(), copy.as_str());
}

#[test]
fn path_text_returns_the_path_component() {
    let url = HttpUrl::parse("https://api.example.com/v1/users/42?active=true").unwrap();
    assert_eq!(url.path_text(), "/v1/users/42");
}

#[test]
fn parse_error_carries_a_message() {
    let error = HttpUrl::parse("::://").unwrap_err();
    assert!(!error.message().is_empty());
}
