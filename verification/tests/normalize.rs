use btc_ticker::mempool::normalize_url;

#[test]
fn bare_host_gets_scheme_and_suffix() {
    // Scheme prepended, trailing slash stripped, path suffix ensured.
    assert_eq!(normalize_url("example.com/"), "https://example.com/api");
}

#[test]
fn bare_host_without_slash() {
    assert_eq!(normalize_url("example.com"), "https://example.com/api");
}

#[test]
fn already_normalized_is_kept() {
    assert_eq!(normalize_url("https://mempool.space/api"), "https://mempool.space/api");
}

#[test]
fn http_scheme_is_kept() {
    assert_eq!(normalize_url("http://foo.example"), "http://foo.example/api");
}

#[test]
fn trailing_slash_after_api_is_stripped() {
    assert_eq!(normalize_url("https://mempool.space/api/"), "https://mempool.space/api");
}

#[test]
fn host_with_port_parses_as_scheme() {
    // `myhost.local` is itself a valid scheme, so the bare input parses and
    // no default scheme is prepended; only the path suffix is ensured.
    assert_eq!(normalize_url("myhost.local:8080"), "myhost.local:8080/api");
}

#[test]
fn unparseable_input_returned_unchanged() {
    // A space cannot appear in a host, so this parses neither bare nor with
    // the default scheme prepended.
    assert_eq!(normalize_url("exa mple.com"), "exa mple.com");
}
