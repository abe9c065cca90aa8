use wikipedia_network::{Page, TitleError, WikipediaUrl};

const WAFFLE_BODY: &str = "<html>\n<title>Waffle - Wikipedia</title>\n<body>waffles</body>\n</html>";

fn waffle_url() -> WikipediaUrl {
    WikipediaUrl::from_path("/wiki/Waffle").unwrap()
}

#[test]
fn test_page_initialization() {
    let url = WikipediaUrl::from_path("/wiki/Waffle".to_string().as_str()).unwrap();
    let mut waffle_page = Page::new_load_title(url, WAFFLE_BODY.to_string()).unwrap();

    assert_eq!(waffle_page.get_title().unwrap().as_str(), "Waffle")
}

#[test]
fn test_get_connections() {
    let url = WikipediaUrl::from_path("/wiki/Waffle".to_string().as_str()).unwrap();
    let mut waffle_page = Page::new(url);
    waffle_page.load_body(
        "<a href=\"/wiki/Syrup\" title=\"Syrup\">syrup</a>".to_string(),
    );

    waffle_page.get_connections();
}

#[test]
fn test_derived_title_from_path() {
    // A locator built from the article path, loaded with a page whose title
    // element reads "Waffle - Wikipedia", derives exactly the title "Waffle".
    let mut page = Page::new(waffle_url());
    assert_eq!(page.get_url().as_str(), "https://en.wikipedia.org/wiki/Waffle");
    page.load_body(WAFFLE_BODY.to_string());
    assert_eq!(page.get_title().unwrap().as_str(), "Waffle");
}

#[test]
fn test_load_body_is_idempotent() {
    let mut page = Page::new(waffle_url());
    assert!(page.fetch_request().is_some());
    page.load_body(WAFFLE_BODY.to_string());
    // The body is present: no further fetch is requested, and a second load
    // leaves the stored body unchanged.
    assert!(page.fetch_request().is_none());
    page.load_body("other text entirely".to_string());
    assert!(page.fetch_request().is_none());
    assert_eq!(page.get_title().unwrap().as_str(), "Waffle");
}

#[test]
fn test_unload_then_title_recomputed() {
    let mut page = Page::new(waffle_url());
    page.load_body(WAFFLE_BODY.to_string());
    let before = page.get_title().unwrap();

    let mut other = Page::new(waffle_url());
    other.load_body(WAFFLE_BODY.to_string());
    other.unload_body();
    // The body is gone, so a body-requiring operation needs one new fetch.
    assert!(other.fetch_request().is_some());
    other.load_body(WAFFLE_BODY.to_string());
    let after = other.get_title().unwrap();
    assert_eq!(before, after);
}

#[test]
fn test_unload_body_keeps_title() {
    let mut page = Page::new(waffle_url());
    page.load_body(WAFFLE_BODY.to_string());
    page.load_title().unwrap();
    page.unload_body();
    assert!(page.title_loaded());
    assert!(!page.body_loaded());
    assert_eq!(page.get_title().unwrap().as_str(), "Waffle");
}

#[test]
fn test_title_not_found() {
    let mut page = Page::new(waffle_url());
    page.load_body("<html>no title element here</html>".to_string());
    assert_eq!(page.load_title(), Err(TitleError::TitleNotFound));
}

#[test]
fn test_try_get_title_without_body() {
    let mut page = Page::new(waffle_url());
    assert_eq!(page.try_get_title().unwrap(), None);
}

#[test]
fn test_try_load_title_without_body_is_noop() {
    let mut page = Page::new(waffle_url());
    assert!(page.try_load_title().is_ok());
    assert!(!page.title_loaded());
}

#[test]
fn test_try_get_connections_without_body() {
    let page = Page::new(waffle_url());
    assert!(page.try_get_connections().is_none());
}

#[test]
fn test_title_ignores_lines_without_marker() {
    let body = "Decoy - Wikipedia\n<title>Waffle - Wikipedia</title>\n";
    let mut page = Page::new(waffle_url());
    page.load_body(body.to_string());
    assert_eq!(page.get_title().unwrap().as_str(), "Waffle");
}

#[test]
fn test_connections_filter_archive_links() {
    // Three distinct valid article links and one archive-reference link: the
    // archive reference is dropped, the rest keep their link-text titles.
    let body = "<a href=\"/wiki/Syrup\" title=\"Syrup\">s</a>\n\
                <a href=\"/wiki/Batter_(cooking)\" class=\"x\" title=\"Batter\">b</a>\n\
                <a href=\"/wiki/Old_page\" title=\"Wayback Machine copy\">w</a>\n\
                <a href=\"/wiki/Breakfast\" title=\"Breakfast food\">f</a>";
    let mut page = Page::new(waffle_url());
    page.load_body(body.to_string());
    let mut conns = page.try_get_connections().unwrap();
    assert_eq!(conns.len(), 3);
    assert_eq!(conns[0].get_url().as_str(), "https://en.wikipedia.org/wiki/Syrup");
    assert_eq!(
        conns[1].get_url().as_str(),
        "https://en.wikipedia.org/wiki/Batter_(cooking)"
    );
    assert_eq!(conns[2].get_url().as_str(), "https://en.wikipedia.org/wiki/Breakfast");
    let titles: Vec<String> = conns
        .iter_mut()
        .map(|c| c.get_title().unwrap())
        .collect();
    assert_eq!(titles, vec!["Syrup", "Batter", "Breakfast food"]);
    for t in titles {
        assert!(!t.contains("Wayback Machine"));
    }
}
