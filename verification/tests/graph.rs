use wikipedia_network::{GraphError, Page, WikipediaGraph, WikipediaUrl};

fn waffle_page() -> Page {
    Page::new(WikipediaUrl::from_path("/wiki/Waffle").unwrap())
}

const LINKED_BODY: &str = "<a href=\"/wiki/Syrup\" title=\"Syrup\">s</a>\
    <a href=\"/wiki/Batter\" title=\"Batter\">b</a>\
    <a href=\"/wiki/Old\" title=\"Wayback Machine copy\">w</a>\
    <a href=\"/wiki/Breakfast\" class=\"q\" title=\"Breakfast\">f</a>";

#[test]
fn test_new_graph_is_empty() {
    let graph = WikipediaGraph::new();
    assert_eq!(graph.node_count(), 0);
    assert_eq!(graph.edge_count(), 0);
}

#[test]
fn test_add_page_returns_handle() {
    let mut graph = WikipediaGraph::new();
    let a = graph.add_page(waffle_page());
    let b = graph.add_page(Page::new(WikipediaUrl::from_path("/wiki/Syrup").unwrap()));
    assert_ne!(a, b);
    assert_eq!(graph.node_count(), 2);
    assert_eq!(
        graph.get_page(a).unwrap().get_url().as_str(),
        "https://en.wikipedia.org/wiki/Waffle"
    );
    assert_eq!(
        graph.get_page(b).unwrap().get_url().as_str(),
        "https://en.wikipedia.org/wiki/Syrup"
    );
}

#[test]
fn test_expand_page_three_links() {
    // A page linking to three valid articles and one archive reference yields
    // exactly three new nodes and three new edges, none for the archive link.
    let mut graph = WikipediaGraph::new();
    let handle = graph.add_page(waffle_page());
    let new_handles = graph.expand_page(handle, Some(LINKED_BODY.to_string())).unwrap();
    assert_eq!(new_handles.len(), 3);
    assert_eq!(graph.node_count(), 4);
    assert_eq!(graph.edge_count(), 3);
    let expected = [
        "https://en.wikipedia.org/wiki/Syrup",
        "https://en.wikipedia.org/wiki/Batter",
        "https://en.wikipedia.org/wiki/Breakfast",
    ];
    for (ix, url) in new_handles.iter().zip(expected.iter()) {
        assert!(graph.has_edge(handle, *ix));
        let node = graph.get_page(*ix).unwrap();
        assert_eq!(node.get_url().as_str(), *url);
        assert!(node.title_loaded());
        assert!(!node.body_loaded());
    }
    assert!(!graph.has_edge(handle, handle));
}

#[test]
fn test_expand_page_uses_loaded_body() {
    let mut graph = WikipediaGraph::new();
    let mut page = waffle_page();
    page.load_body(LINKED_BODY.to_string());
    let handle = graph.add_page(page);
    let new_handles = graph.expand_page(handle, None).unwrap();
    assert_eq!(new_handles.len(), 3);
    assert_eq!(graph.edge_count(), 3);
}

#[test]
fn test_expand_page_invalid_handle() {
    // An unknown handle is reported as a recoverable error, never an abort.
    let mut graph = WikipediaGraph::new();
    let handle = graph.add_page(waffle_page());
    let r = graph.expand_page(handle + 1, Some(LINKED_BODY.to_string()));
    assert_eq!(r, Err(GraphError::NodeNotFound));
    let r = graph.expand_page(123456, None);
    assert_eq!(r, Err(GraphError::NodeNotFound));
    assert_eq!(graph.node_count(), 1);
    assert_eq!(graph.edge_count(), 0);
}

#[test]
fn test_expand_page_leaves_expanded_node_unchanged() {
    let mut graph = WikipediaGraph::new();
    let handle = graph.add_page(waffle_page());
    graph.expand_page(handle, Some(LINKED_BODY.to_string())).unwrap();
    let node = graph.get_page(handle).unwrap();
    assert!(!node.body_loaded());
    assert!(!node.title_loaded());
}

#[test]
fn test_expand_page_no_links() {
    let mut graph = WikipediaGraph::new();
    let handle = graph.add_page(waffle_page());
    let new_handles = graph.expand_page(handle, Some("no anchors here".to_string())).unwrap();
    assert!(new_handles.is_empty());
    assert_eq!(graph.node_count(), 1);
    assert_eq!(graph.edge_count(), 0);
}
