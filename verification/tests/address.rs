use torshare::share::TorShareUrlOptions;
use torshare::tor_share_url::{ParseError, TorShareUrl, RANDOM_PATH_LENGTH};

fn address(hostname: &str, path: &str) -> TorShareUrl {
    TorShareUrl { hostname: hostname.to_string(), path: path.to_string() }
}

#[test]
fn parses_identity_and_path() {
    let url = TorShareUrl::from_str("abc.onion/xyz").unwrap();
    assert_eq!(url.hostname, "abc.onion");
    assert_eq!(url.path, "xyz");
}

#[test]
fn rejects_identity_without_onion_suffix() {
    assert_eq!(TorShareUrl::from_str("abc.com/xyz"), Err(ParseError::BadSuffix));
}

#[test]
fn rejects_text_without_separator() {
    assert_eq!(TorShareUrl::from_str("noslash"), Err(ParseError::MissingDelimiter));
    assert_eq!(TorShareUrl::from_str(""), Err(ParseError::MissingDelimiter));
    assert_eq!(TorShareUrl::from_str("abc.onion"), Err(ParseError::MissingDelimiter));
}

#[test]
fn splits_at_the_first_separator_only() {
    let url = TorShareUrl::from_str("abc.onion/dir/file.txt").unwrap();
    assert_eq!(url, address("abc.onion", "dir/file.txt"));
    let url = TorShareUrl::from_str("abc.onion//").unwrap();
    assert_eq!(url, address("abc.onion", "/"));
}

#[test]
fn accepts_an_empty_path() {
    assert_eq!(TorShareUrl::from_str("abc.onion/").unwrap(), address("abc.onion", ""));
}

#[test]
fn accepts_the_bare_suffix_as_identity() {
    assert_eq!(TorShareUrl::from_str(".onion/x").unwrap(), address(".onion", "x"));
}

#[test]
fn rejects_an_empty_identity() {
    assert_eq!(TorShareUrl::from_str("/xyz"), Err(ParseError::BadSuffix));
}

#[test]
fn rejects_a_suffix_that_is_not_at_the_end() {
    assert_eq!(TorShareUrl::from_str("abc.onion.com/xyz"), Err(ParseError::BadSuffix));
    assert_eq!(TorShareUrl::from_str("abc.onio/n"), Err(ParseError::BadSuffix));
    assert_eq!(TorShareUrl::from_str("onion/x"), Err(ParseError::BadSuffix));
}

#[test]
fn handles_characters_beyond_ascii() {
    let url = TorShareUrl::from_str("äbc.onion/päth/ü").unwrap();
    assert_eq!(url, address("äbc.onion", "päth/ü"));
    assert_eq!(url.to_string(), "äbc.onion/päth/ü");
}

#[test]
fn names_the_reason_of_a_rejection() {
    assert_eq!(ParseError::BadSuffix.message(), "Hostname doesn't end with .onion");
    assert_eq!(ParseError::MissingDelimiter.message(), "Hostname doesn't contain a / delimiter");
}

#[test]
fn writes_identity_separator_path() {
    assert_eq!(address("abc.onion", "xyz").to_string(), "abc.onion/xyz");
    assert_eq!(address("abc.onion", "").to_string(), "abc.onion/");
}

#[test]
fn writes_the_location_with_its_scheme() {
    assert_eq!(address("abc.onion", "xyz").to_url(), "http://abc.onion/xyz");
}

#[test]
fn reads_back_what_it_wrote() {
    for (hostname, path) in [("abc.onion", "xyz"), ("x.onion", ""), (".onion", "a/b/c"), ("q.onion", "/")] {
        let url = address(hostname, path);
        assert_eq!(TorShareUrl::from_str(&url.to_string()), Ok(url));
    }
}

#[test]
fn writes_back_what_it_read() {
    for text in ["abc.onion/xyz", "abc.onion/", "abc.onion/a/b", ".onion//"] {
        assert_eq!(TorShareUrl::from_str(text).unwrap().to_string(), text);
    }
}

#[test]
fn generates_a_path_of_thirty_letters_and_digits() {
    let url = TorShareUrl::random_path("abc.onion".to_string());
    assert_eq!(url.hostname, "abc.onion");
    assert_eq!(RANDOM_PATH_LENGTH, 30);
    assert_eq!(url.path.chars().count(), 30);
    assert!(url.path.chars().all(|c| c.is_ascii_alphanumeric()));
}

#[test]
fn generated_paths_differ() {
    let first = TorShareUrl::random_path("abc.onion".to_string());
    let second = TorShareUrl::random_path("abc.onion".to_string());
    assert_ne!(first.path, second.path);
}

#[test]
fn generated_address_reads_back() {
    let url = TorShareUrl::random_path("abc.onion".to_string());
    assert_eq!(TorShareUrl::from_str(&url.to_string()), Ok(url));
}

#[test]
fn keeps_the_path_the_user_chose() {
    let options = TorShareUrlOptions { path: Some("my-file".to_string()) };
    assert_eq!(options.into_tor_share_url("abc.onion"), address("abc.onion", "my-file"));
}

#[test]
fn draws_a_path_where_the_user_chose_none() {
    let options = TorShareUrlOptions { path: None };
    let url = options.into_tor_share_url("abc.onion");
    assert_eq!(url.hostname, "abc.onion");
    assert_eq!(url.path.chars().count(), 30);
    assert!(url.path.chars().all(|c| c.is_ascii_alphanumeric()));
}

#[test]
fn options_read_from_a_text_hold_it_as_the_path() {
    for text in ["my-file", "", "a/b", "grüße"] {
        let options: TorShareUrlOptions = text.parse().unwrap();
        assert_eq!(options, TorShareUrlOptions { path: Some(text.to_string()) });
    }
}
