use argos::registry::method_supported;
use argos::response::RenderMode;
use argos::{FilterInfo, Path, Predicate, Registry, RouteInfo};

fn filter(order: u32, handler: usize) -> FilterInfo {
    FilterInfo::new(
        Predicate::from_str("path_pattern", ".*"),
        order,
        handler,
    )
}

#[test]
fn filters_sorted_ascending_with_stable_ties() {
    let mut reg = Registry::new();
    reg.register_filter(filter(5, 0));
    reg.register_filter(filter(1, 1));
    reg.register_filter(filter(5, 2));
    reg.register_filter(filter(3, 3));
    let orders: Vec<u32> = reg.all_filters().iter().map(|f| f.order()).collect();
    let handlers: Vec<usize> = reg.all_filters().iter().map(|f| f.handler()).collect();
    assert_eq!(orders, vec![1, 3, 5, 5]);
    // the two order-5 filters keep their registration order
    assert_eq!(handlers, vec![1, 3, 0, 2]);
}

#[test]
fn routes_keep_registration_order() {
    let mut reg = Registry::new();
    reg.register_route(RouteInfo::new("GET".to_string(), Path::new("/a"), 0));
    reg.register_route(RouteInfo::new("POST".to_string(), Path::new("/a"), 1));
    let methods: Vec<&str> = reg.all_routes().iter().map(|r| r.method()).collect();
    assert_eq!(methods, vec!["GET", "POST"]);
}

#[test]
fn resolve_takes_first_matching_route() {
    let mut reg = Registry::new();
    reg.register_route(RouteInfo::new("GET".to_string(), Path::new("/x"), 0));
    reg.register_route(RouteInfo::new("GET".to_string(), Path::new("/items/:id"), 1));
    reg.register_route(RouteInfo::new("GET".to_string(), Path::new("/items/42"), 2));
    assert_eq!(reg.resolve("GET", &"/items/42".to_string()), Some(1));
}

#[test]
fn resolve_requires_exact_method() {
    let mut reg = Registry::new();
    reg.register_route(RouteInfo::new("GET".to_string(), Path::new("/a"), 0));
    assert_eq!(reg.resolve("POST", &"/a".to_string()), None);
    assert_eq!(reg.resolve("get", &"/a".to_string()), None);
    assert_eq!(reg.resolve("GET", &"/a".to_string()), Some(0));
}

#[test]
fn predicate_from_str_builds_path_pattern() {
    let p = Predicate::from_str("path_pattern", "/api/.*");
    let Predicate::PathPattern(s) = p;
    assert_eq!(s, "/api/.*");
}

#[test]
fn path_pattern_predicate_uses_regex() {
    let p = Predicate::from_str("path_pattern", "/api/hello.*");
    assert!(p.matches_path("/api/hello"));
    assert!(p.matches_path("/api/hello/world"));
    assert!(!p.matches_path("/other"));
}

#[test]
fn invalid_regex_matches_nothing() {
    let p = Predicate::from_str("path_pattern", "(");
    assert!(!p.matches_path("/anything"));
    assert!(!p.matches_path("("));
}

#[test]
fn supported_methods_are_the_registration_set() {
    for m in [
        "GET", "POST", "PUT", "DELETE", "HEAD", "OPTIONS", "PATCH", "TRACE", "CONNECT",
    ] {
        assert!(method_supported(m));
    }
    assert!(!method_supported("get"));
    assert!(!method_supported(""));
    assert!(!method_supported("FETCH"));
}

#[test]
fn render_mode_names() {
    assert_eq!(RenderMode::from_name("json"), Some(RenderMode::Json));
    assert_eq!(RenderMode::from_name("text"), Some(RenderMode::Text));
    assert_eq!(RenderMode::from_name("html"), Some(RenderMode::Html));
    assert_eq!(RenderMode::from_name("xml"), None);
}
