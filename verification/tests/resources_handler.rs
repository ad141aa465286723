use mcp_agent::json::JsonValue;
use mcp_agent::mcp::resources::error::ResourceError;
use mcp_agent::mcp::resources::handler::{ResourceRoute, ResourcesCapabilities, ResourcesHandler};
use mcp_agent::mcp::resources::models::{
    Resource, ResourceListResponse, ResourceSubscribeParams, ResourceUnsubscribeParams,
};
use mcp_agent::mcp::resources::provider::{FileSystemProvider, ReadKind};

fn sub(uri: &str) -> ResourceSubscribeParams {
    ResourceSubscribeParams { uri: uri.to_string() }
}

fn unsub(uri: &str) -> ResourceUnsubscribeParams {
    ResourceUnsubscribeParams { uri: uri.to_string() }
}

#[test]
fn subscribers_follow_subscriptions() {
    let mut h = ResourcesHandler::new();
    assert!(h.subscribe_resource("a", sub("file:///x")).is_ok());
    assert!(h.subscribe_resource("b", sub("file:///x")).is_ok());
    assert!(h.subscribe_resource("b", sub("file:///y")).is_ok());
    assert!(h.subscribe_resource("a", sub("file:///x")).is_ok());
    assert_eq!(h.get_subscribers_for_resource("file:///x"), vec!["a".to_string(), "b".to_string()]);
    assert_eq!(h.get_subscribers_for_resource("file:///y"), vec!["b".to_string()]);
    assert!(h.unsubscribe_resource("a", unsub("file:///x")).is_ok());
    assert_eq!(h.get_subscribers_for_resource("file:///x"), vec!["b".to_string()]);
    assert!(h.get_subscribers_for_resource("file:///z").is_empty());
}

#[test]
fn subscriptions_need_the_capability() {
    let mut h = ResourcesHandler::new();
    h.set_capabilities(ResourcesCapabilities { subscribe: false, list_changed: true });
    assert_eq!(
        h.subscribe_resource("a", sub("file:///x")),
        Err(ResourceError::CapabilityNotSupported("subscribe".to_string()))
    );
    assert_eq!(
        h.unsubscribe_resource("a", unsub("file:///x")),
        Err(ResourceError::CapabilityNotSupported("subscribe".to_string()))
    );
    assert!(h.get_subscribers_for_resource("file:///x").is_empty());
    match h.route("resources/subscribe") {
        ResourceRoute::Rejected(e) => {
            assert_eq!(e.code, -32601);
            assert_eq!(e.message, "Method not supported");
        }
        other => panic!("unexpected route {:?}", other),
    }
}

#[test]
fn routes_of_resource_methods() {
    let h = ResourcesHandler::new();
    assert!(matches!(h.route("resources/list"), ResourceRoute::List));
    assert!(matches!(h.route("resources/read"), ResourceRoute::Read));
    assert!(matches!(h.route("resources/subscribe"), ResourceRoute::Subscribe));
    assert!(matches!(h.route("resources/unsubscribe"), ResourceRoute::Unsubscribe));
    match h.route("resources/other") {
        ResourceRoute::Rejected(e) => assert_eq!(e.code, -32601),
        other => panic!("unexpected route {:?}", other),
    }
}

#[test]
fn notifications_carry_the_uri() {
    let h = ResourcesHandler::new();
    let n = h.create_resource_updated_notification("file:///a.txt");
    assert_eq!(n.get("method").and_then(|m| m.as_str()), Some("notifications/resources/updated"));
    let params = n.get("params").unwrap();
    assert_eq!(params.get("uri").and_then(|u| u.as_str()), Some("file:///a.txt"));
    let l = h.create_list_changed_notification();
    assert_eq!(l.get("jsonrpc").and_then(|m| m.as_str()), Some("2.0"));
    assert!(l.get("params").is_none());
    assert!(matches!(l, JsonValue::Object(_)));
}

#[test]
fn listings_are_merged_in_order() {
    let a = ResourceListResponse { resources: vec![Resource::new("file:///a", "a")], next_cursor: Some("1".to_string()) };
    let b = ResourceListResponse {
        resources: vec![Resource::new("file:///b", "b"), Resource::new("file:///c", "c")],
        next_cursor: None,
    };
    let m = ResourcesHandler::merge_listings(vec![a, b]);
    let uris: Vec<&str> = m.resources.iter().map(|r| r.uri.as_str()).collect();
    assert_eq!(uris, vec!["file:///a", "file:///b", "file:///c"]);
    assert_eq!(m.next_cursor, Some("1".to_string()));
    let empty = ResourcesHandler::merge_listings(vec![]);
    assert!(empty.resources.is_empty() && empty.next_cursor.is_none());
}

#[test]
fn first_provider_that_handles_the_uri() {
    assert_eq!(ResourcesHandler::select_provider(&vec![false, true, true], "u"), Ok(1));
    assert_eq!(
        ResourcesHandler::select_provider(&vec![false, false], "file:///q"),
        Err(ResourceError::ResourceNotFound("file:///q".to_string()))
    );
}

#[test]
fn file_provider_paths_and_pages() {
    let p = FileSystemProvider::new("/base").with_page_size(2);
    assert!(p.can_handle_uri("file:///notes.txt"));
    assert!(!p.can_handle_uri("https://example.com"));
    assert_eq!(p.uri_to_path("http://x"), Err(ResourceError::InvalidUri("http://x".to_string())));
    assert_eq!(p.page_window(None, 5), (0, 2, Some("2".to_string())));
    assert_eq!(p.page_window(Some("4"), 5), (4, 5, None));
    assert_eq!(p.page_window(Some("junk"), 1), (0, 1, None));
    assert_eq!(FileSystemProvider::default_mime_type("md"), Some("text/markdown".to_string()));
    assert_eq!(FileSystemProvider::default_mime_type("zzz"), None);
    assert_eq!(p.get_mime_type("/base/a.json"), Some("application/json".to_string()));
}

#[test]
fn file_provider_extension_filter() {
    let p = FileSystemProvider::new("/base").with_extensions(vec!["txt".to_string()]);
    assert!(p.should_include_file("/base/a.txt"));
    assert!(!p.should_include_file("/base/a.md"));
    assert!(!p.should_include_file("/base/noext"));
    let all = FileSystemProvider::new("/base");
    assert!(all.should_include_file("/base/a.md"));
}

#[test]
fn read_kind_by_size_and_type() {
    assert_eq!(
        FileSystemProvider::read_kind("u", 10 * 1024 * 1024 + 1, &None),
        Err(ResourceError::ResourceTooLarge("u".to_string()))
    );
    assert_eq!(FileSystemProvider::read_kind("u", 5, &Some("text/plain".to_string())), Ok(ReadKind::Text));
    assert_eq!(FileSystemProvider::read_kind("u", 5, &Some("application/json".to_string())), Ok(ReadKind::Text));
    assert_eq!(FileSystemProvider::read_kind("u", 5, &Some("image/png".to_string())), Ok(ReadKind::Binary));
}

#[test]
fn next_cursor_starts_the_next_page() {
    let p = FileSystemProvider::new("/base").with_page_size(2);
    let (s0, e0, c0) = p.page_window(None, 5);
    assert_eq!((s0, e0), (0, 2));
    let (s1, e1, c1) = p.page_window(c0.as_deref(), 5);
    assert_eq!((s1, e1), (2, 4));
    let (s2, e2, c2) = p.page_window(c1.as_deref(), 5);
    assert_eq!((s2, e2, c2), (4, 5, None));
}

#[test]
fn listed_resources_describe_their_files() {
    let p = FileSystemProvider::new("/base");
    let r = p.resource_for("/base/docs/readme.md", 42);
    assert_eq!(r.uri, "file:///docs/readme.md");
    assert_eq!(r.name, "readme.md");
    assert_eq!(r.mime_type, Some("text/markdown".to_string()));
    assert_eq!(r.size, Some(42));
    assert!(r.description.is_none());
    let outside = p.resource_for("/elsewhere/data.bin", 1);
    assert_eq!(outside.uri, "file:////elsewhere/data.bin");
    assert_eq!(outside.mime_type, None);
    assert_eq!(p.base_dir(), "/base");
    assert_eq!(p.page_size(), 100);
}

#[test]
fn pages_hold_the_offered_files_in_order() {
    let files: Vec<String> = ["/base/a.txt", "/base/b.md", "/base/c.txt", "/base/d.txt", "/base/e"]
        .iter()
        .map(|s| s.to_string())
        .collect();
    let p = FileSystemProvider::new("/base").with_extensions(vec!["txt".to_string()]).with_page_size(2);
    let (page, next) = p.page_of_files(&files, None);
    assert_eq!(page, vec!["/base/a.txt".to_string(), "/base/c.txt".to_string()]);
    assert_eq!(next, Some("2".to_string()));
    let (page, next) = p.page_of_files(&files, Some("2"));
    assert_eq!(page, vec!["/base/d.txt".to_string()]);
    assert_eq!(next, None);
    let (page, next) = FileSystemProvider::new("/base").page_of_files(&files, None);
    assert_eq!(page.len(), 5);
    assert_eq!(next, None);
}

#[test]
fn extensions_are_read_as_std_reads_them() {
    let exts = ["txt", "", "bashrc", "gz", "d"];
    let p = FileSystemProvider::new("/base").with_extensions(exts.iter().map(|e| e.to_string()).collect());
    let paths = ["a.txt", "/x/y/a.tar.gz", ".bashrc", "dir/.bashrc", "a.", "noext", "a/b.txt/", "a/..", "/", "c.d/.", ".a.d", ""];
    for path in paths.iter() {
        let std_ext = std::path::Path::new(path).extension().and_then(|e| e.to_str());
        let expected = std_ext.map_or(false, |e| exts.contains(&e));
        assert_eq!(p.should_include_file(path), expected, "{}", path);
    }
}
