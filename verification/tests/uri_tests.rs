use djrip::uri::Uri;

#[test]
fn parse_extracts_serialization_and_host() {
    let u = Uri::parse("https://tidal.com/playlist/42").expect("absolute URL must parse");
    assert_eq!(u.text, "https://tidal.com/playlist/42");
    assert_eq!(u.host, Some("tidal.com".to_owned()));
}

#[test]
fn parse_normalizes_scheme_and_host() {
    // The stored serialization is the parser's normalized form, not the raw
    // input: scheme and host are lowercased.
    let u = Uri::parse("HTTPS://TIDAL.COM/playlist/42").expect("absolute URL must parse");
    assert_eq!(u.text, "https://tidal.com/playlist/42");
    assert_eq!(u.host, Some("tidal.com".to_owned()));
}

#[test]
fn parse_rejects_relative_or_malformed_input() {
    assert!(Uri::parse("not a url").is_none());
    assert!(Uri::parse("/playlist/42").is_none());
    assert!(Uri::parse("").is_none());
}

#[test]
fn parse_keeps_hostless_urls_hostless() {
    let u = Uri::parse("mailto:someone@example.org").expect("mailto URL must parse");
    assert_eq!(u.host, None);
}
