use zingo_netutils::{GetClientError, GrpcIndexer, ServerUri};

#[test]
fn rejects_non_http_schemes() {
    let uri: http::Uri = "ftp://example.com:1234".parse().unwrap();
    let res = GrpcIndexer::new(uri);

    assert!(
        res.is_err(),
        "expected GrpcIndexer::new() to reject non-http(s) schemes, but got Ok"
    );
}

#[test]
fn non_http_scheme_is_invalid_scheme() {
    let uri: http::Uri = "ftp://example.com:1234".parse().unwrap();
    assert!(matches!(GrpcIndexer::new(uri), Err(GetClientError::InvalidScheme)));
}

#[test]
fn missing_scheme_is_invalid_scheme() {
    let uri: http::Uri = "example.com:9067".parse().unwrap();
    assert_eq!(uri.scheme_str(), None);
    assert!(matches!(GrpcIndexer::new(uri), Err(GetClientError::InvalidScheme)));
}

#[test]
fn path_only_uri_is_invalid_scheme() {
    let uri: http::Uri = "/just/a/path".parse().unwrap();
    assert!(matches!(GrpcIndexer::new(uri), Err(GetClientError::InvalidScheme)));
}

#[test]
fn server_uri_parts() {
    let uri = ServerUri::parse("https://zec.rocks:443").unwrap();
    assert_eq!(uri.scheme(), Some("https"));
    assert_eq!(uri.authority(), Some("zec.rocks:443"));
    assert_eq!(uri.as_str(), "https://zec.rocks:443/");
    assert_eq!(uri.as_http().host(), Some("zec.rocks"));
}

#[test]
fn server_uri_from_http_parts() {
    let http_uri: http::Uri = "http://127.0.0.1:9067/path?q=1".parse().unwrap();
    let uri = ServerUri::from_http(http_uri.clone());
    assert_eq!(uri.scheme(), Some("http"));
    assert_eq!(uri.authority(), Some("127.0.0.1:9067"));
    assert_eq!(uri.as_str(), "http://127.0.0.1:9067/path?q=1");
    assert_eq!(*uri.as_http(), http_uri);
}

#[test]
fn server_uri_rejects_non_uris() {
    assert!(ServerUri::parse("").is_none());
    assert!(ServerUri::parse("http://exa mple.com").is_none());
}

#[test]
fn accepts_http_uri() {
    let uri: http::Uri = "http://127.0.0.1:9067".parse().unwrap();
    let indexer = GrpcIndexer::new(uri).expect("http uri to be accepted");
    assert_eq!(indexer.uri().to_string(), "http://127.0.0.1:9067/");
}

#[test]
fn accepts_https_uri() {
    let uri: http::Uri = "https://zec.rocks:443".parse().unwrap();
    let indexer = GrpcIndexer::new(uri.clone()).expect("https uri to be accepted");
    assert_eq!(*indexer.uri(), uri);
    assert_eq!(indexer.uri().scheme_str(), Some("https"));
    assert_eq!(indexer.uri().authority().map(|a| a.as_str()), Some("zec.rocks:443"));
    let copy = indexer.clone();
    assert_eq!(*copy.uri(), uri);
}

#[test]
fn accepts_https_ip_address() {
    let uri: http::Uri = "https://127.0.0.1:9067".parse().unwrap();
    assert!(GrpcIndexer::new(uri).is_ok());
}

#[test]
fn uppercase_scheme_is_accepted() {
    let uri: http::Uri = "HTTP://127.0.0.1:9067".parse().unwrap();
    assert_eq!(uri.scheme_str(), Some("http"));
    assert!(GrpcIndexer::new(uri).is_ok());
}

#[test]
fn debug_text_shows_scheme_and_authority() {
    let indexer = GrpcIndexer::new("https://zec.rocks:443".parse().unwrap()).unwrap();
    assert_eq!(
        indexer.debug_text(),
        "GrpcIndexer { scheme: \"https\", authority: zec.rocks:443, .. }"
    );
    let plain = GrpcIndexer::new("http://127.0.0.1:9067".parse().unwrap()).unwrap();
    assert_eq!(
        plain.debug_text(),
        "GrpcIndexer { scheme: \"http\", authority: 127.0.0.1:9067, .. }"
    );
}

#[test]
fn clone_keeps_the_uri() {
    let given: http::Uri = "https://zec.rocks:443".parse().unwrap();
    let indexer = GrpcIndexer::new(given.clone()).unwrap();
    assert_eq!(*indexer.uri(), given);
    assert_eq!(*indexer.clone().uri(), given);
}
