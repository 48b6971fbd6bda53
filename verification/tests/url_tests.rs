use rigil_proxy::html_parser::{get_base_url, normalize_url};

#[test]
fn normalize_prepends_scheme() {
    assert_eq!(normalize_url("example.com/a"), "https://example.com/a");
}

#[test]
fn normalize_keeps_http() {
    assert_eq!(normalize_url("http://x"), "http://x");
}

#[test]
fn normalize_keeps_https() {
    assert_eq!(normalize_url("https://example.com"), "https://example.com");
}

#[test]
fn normalize_empty_stays_empty() {
    assert_eq!(normalize_url(""), "");
}

#[test]
fn normalize_scheme_after_first_character() {
    // "http://" fits inside the first eight characters even when it
    // does not start the string
    assert_eq!(normalize_url("xhttp://foo"), "xhttp://foo");
}

#[test]
fn normalize_scheme_too_late_is_missed() {
    // the first eight characters hold no full "http://", so the
    // address is treated as scheme-less
    assert_eq!(
        normalize_url("mirror: http://x"),
        "https://mirror: http://x"
    );
}

#[test]
fn base_of_deep_path() {
    assert_eq!(
        get_base_url("https://example.com/a/b/c"),
        "https://example.com/a/b/"
    );
}

#[test]
fn base_of_host_only() {
    assert_eq!(get_base_url("https://example.com"), "https://example.com");
}

#[test]
fn base_of_host_with_slash() {
    assert_eq!(get_base_url("https://example.com/"), "https://example.com/");
}

#[test]
fn base_of_single_segment() {
    assert_eq!(
        get_base_url("https://example.com/page"),
        "https://example.com/"
    );
}

#[test]
fn base_of_without_scheme_slashes() {
    assert_eq!(get_base_url("no-slashes-here"), "no-slashes-here");
}

#[test]
fn base_of_trailing_slash_kept() {
    assert_eq!(
        get_base_url("https://example.com/a/"),
        "https://example.com/a/"
    );
}
