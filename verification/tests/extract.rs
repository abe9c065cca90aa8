use wikipedia_network::extract::{extract_connections, extract_title};

#[test]
fn test_extract_title_simple() {
    let body = "<head>\n<title>Waffle - Wikipedia</title>\n</head>";
    assert_eq!(extract_title(body).unwrap().as_str(), "Waffle");
}

#[test]
fn test_extract_title_with_spaces() {
    let body = "<title>Maple syrup - Wikipedia</title>";
    assert_eq!(extract_title(body).unwrap().as_str(), "Maple syrup");
}

#[test]
fn test_extract_title_none_without_marker_line() {
    // The suffix pattern occurs, but not on a line containing the
    // <title> marker, so no line survives the filter.
    let body = "Waffle - Wikipedia\nplain text";
    assert!(extract_title(body).is_none());
}

#[test]
fn test_extract_title_none_without_suffix() {
    let body = "<title>Waffle</title>";
    assert!(extract_title(body).is_none());
}

#[test]
fn test_extract_title_first_anchor_wins() {
    let body = "<title>Alpha - Wikipedia and Beta - Wikipedia</title>";
    assert_eq!(extract_title(body).unwrap().as_str(), "Alpha");
}

#[test]
fn test_extract_title_crlf_lines() {
    let body = "<head>\r\n<title>Waffle - Wikipedia</title>\r\n</head>\r\n";
    assert_eq!(extract_title(body).unwrap().as_str(), "Waffle");
}

#[test]
fn test_extract_connections_shapes() {
    let body = "pre <a href=\"/wiki/Syrup\" title=\"Syrup\">x</a> \
                <a href=\"/wiki/Batter_(cooking)\" class=\"m\" title=\"Batter\">y</a> post";
    let mut pages = extract_connections(body);
    assert_eq!(pages.len(), 2);
    assert_eq!(pages[0].get_url().as_str(), "https://en.wikipedia.org/wiki/Syrup");
    assert_eq!(pages[0].get_title().unwrap().as_str(), "Syrup");
    assert_eq!(
        pages[1].get_url().as_str(),
        "https://en.wikipedia.org/wiki/Batter_(cooking)"
    );
    assert_eq!(pages[1].get_title().unwrap().as_str(), "Batter");
}

#[test]
fn test_extract_connections_rejects_malformed() {
    // A path with characters outside the path class, an empty title, and a
    // missing title attribute each fail the pattern.
    let body = "<a href=\"/wiki/Nr7\" title=\"Seven\">a</a>\
                <a href=\"/wiki/Ok\" title=\"\">b</a>\
                <a href=\"/wiki/Plain\">c</a>";
    assert!(extract_connections(body).is_empty());
}

#[test]
fn test_extract_connections_drops_archive_links() {
    let body = "<a href=\"/wiki/Old\" title=\"Wayback Machine copy\">w</a>";
    assert!(extract_connections(body).is_empty());
}

#[test]
fn test_extract_connections_empty_body() {
    assert!(extract_connections("").is_empty());
}
