use wikipedia_network::{WikipediaUrl, WikipediaUrlInvalidError};

#[test]
fn test_from_path_leading_separator() {
    let url = WikipediaUrl::from_path("/wiki/Waffle").unwrap();
    assert_eq!(url.get_url().as_str(), "https://en.wikipedia.org/wiki/Waffle");
}

#[test]
fn test_from_path_backslash_separator() {
    let url = WikipediaUrl::from_path("\\wiki/Waffle").unwrap();
    assert_eq!(url.get_url().as_str(), "https://en.wikipedia.org\\wiki/Waffle");
}

#[test]
fn test_from_path_without_separator() {
    let url = WikipediaUrl::from_path("wiki/Waffle").unwrap();
    assert_eq!(url.get_url().as_str(), "https://en.wikipedia.org/wiki/Waffle");
}

#[test]
fn test_from_path_empty() {
    let url = WikipediaUrl::from_path("").unwrap();
    assert_eq!(url.get_url().as_str(), "https://en.wikipedia.org/");
}

#[test]
fn test_new_accepts_allowed_host() {
    let url = WikipediaUrl::new("https://en.wikipedia.org/wiki/Waffle").unwrap();
    assert_eq!(url.get_url().as_str(), "https://en.wikipedia.org/wiki/Waffle");
}

#[test]
fn test_new_rejects_foreign_host() {
    let r = WikipediaUrl::new("https://de.wikipedia.org/wiki/Waffel");
    assert!(matches!(r, Err(WikipediaUrlInvalidError::InvalidHostError(_))));
}

#[test]
fn test_new_rejects_unparsable() {
    let r = WikipediaUrl::new("://not a url");
    assert!(matches!(r, Err(WikipediaUrlInvalidError::InvalidUrlError { .. })));
}

#[test]
fn test_invalid_host_error_carries_input() {
    match WikipediaUrl::new("https://example.com/wiki/Waffle") {
        Err(WikipediaUrlInvalidError::InvalidHostError(bad)) => {
            assert_eq!(bad.as_str(), "https://example.com/wiki/Waffle");
        }
        _ => panic!("expected InvalidHostError"),
    }
}

#[test]
fn test_invalid_url_error_carries_input() {
    match WikipediaUrl::new("://not a url") {
        Err(WikipediaUrlInvalidError::InvalidUrlError { invalid_url, .. }) => {
            assert_eq!(invalid_url.as_str(), "://not a url");
        }
        _ => panic!("expected InvalidUrlError"),
    }
}

#[test]
fn test_new_accepts_hostless_url() {
    let url = WikipediaUrl::new("mailto:someone@example.org").unwrap();
    assert_eq!(url.get_url().as_str(), "mailto:someone@example.org");
}
