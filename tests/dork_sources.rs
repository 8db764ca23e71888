use ruskeros::dorks::{dork_lines, percent_encode, resolve_dorks, search_url};
use ruskeros::scrape::ConfigError;

#[test]
fn list_keeps_non_empty_lines_in_order() {
    assert_eq!(dork_lines("a\nb\n"), vec!["a", "b"]);
    assert_eq!(dork_lines("a\r\n\r\n\nsite:x.com inurl:y\r\nlast"), vec!["a", "site:x.com inurl:y", "last"]);
    assert_eq!(dork_lines(""), Vec::<String>::new());
    assert_eq!(dork_lines("\n\n"), Vec::<String>::new());
    assert_eq!(dork_lines(" \n"), vec![" "]);
}

#[test]
fn source_must_be_exactly_one() {
    assert_eq!(resolve_dorks(None, None), Err(ConfigError::MissingDorkSource));
    assert_eq!(
        resolve_dorks(Some("a".to_string()), Some("b".to_string())),
        Err(ConfigError::ConflictingDorkSources)
    );
    assert_eq!(resolve_dorks(Some(String::new()), None), Err(ConfigError::EmptyDork));
    assert_eq!(resolve_dorks(Some("x y".to_string()), None), Ok(vec!["x y".to_string()]));
    assert_eq!(
        resolve_dorks(None, Some("a\nb\n".to_string())),
        Ok(vec!["a".to_string(), "b".to_string()])
    );
}

#[test]
fn query_is_percent_encoded() {
    assert_eq!(percent_encode("abc-_.~XYZ019"), "abc-_.~XYZ019");
    assert_eq!(percent_encode("a b"), "a%20b");
    assert_eq!(percent_encode("site:x.com&q=1"), "site%3Ax.com%26q%3D1");
    assert_eq!(percent_encode("é"), "%C3%A9");
    assert_eq!(percent_encode("€"), "%E2%82%AC");
    assert_eq!(percent_encode("😀"), "%F0%9F%98%80");
    assert_eq!(
        search_url("intitle:index.of"),
        "https://www.google.com/search?q=intitle%3Aindex.of"
    );
}
