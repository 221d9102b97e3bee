use argos::error::ReturnError;
use argos::request::HttpRequest;
use argos::response::{format_response, RenderMode};
use argos::strutil::lookup_value;
use argos::{Chain, FilterInfo, Path, PipelineStep, Predicate, Registry, RouteInfo};

fn req(method: &str, path: &str, query: &str) -> HttpRequest {
    HttpRequest::new(
        method.to_string(),
        path.to_string(),
        query.to_string(),
        Vec::new(),
    )
}

#[test]
fn scenario_text_route_with_query_param() {
    // route GET /api/hello, formatter text; request GET /api/hello?name=Ada
    let mut reg = Registry::new();
    reg.register_route(RouteInfo::new(
        "GET".to_string(),
        Path::new("/api/hello"),
        0,
    ));
    let step = reg.dispatch_begin(req("GET", "/api/hello", "name=Ada"));
    let (handler, request) = match step {
        PipelineStep::InvokeRoute {
            handler, req: r, ..
        } => (handler, r),
        _ => panic!("expected a route invocation"),
    };
    assert_eq!(handler, 0);
    // the handler: greet whoever the query names
    let name = lookup_value(&request.url_params(), "name").unwrap();
    let outcome: Result<String, ReturnError> = Ok(format!("hello {}", name));
    let resp = format_response(outcome, RenderMode::Text);
    assert_eq!(resp.status, 200);
    assert_eq!(
        resp.headers,
        vec![("Content-Type".to_string(), "text/plain".to_string())]
    );
    assert!(resp.body.contains("Ada"));
}

#[test]
fn scenario_filter_rejects_missing_token() {
    // filter path_pattern = "/api/hello.*", order 1: reject without a token
    // header with 401 and a "filter: rejected" header; the route handler
    // must never be invoked.
    let mut route_handler_calls = 0usize;
    let mut reg = Registry::new();
    reg.register_filter(FilterInfo::new(
        Predicate::from_str("path_pattern", "/api/hello.*"),
        1,
        0,
    ));
    reg.register_route(RouteInfo::new(
        "GET".to_string(),
        Path::new("/api/hello"),
        0,
    ));
    let step = reg.dispatch_begin(req("GET", "/api/hello", ""));
    let (index, request) = match step {
        PipelineStep::InvokeFilter { index, req: r, .. } => (index, r),
        _ => panic!("expected a filter invocation"),
    };
    // the filter handler's decision
    let decision = if request.header("token").is_some() {
        Chain::Continune(request)
    } else {
        let mut err = ReturnError::new(401, "not authorized".to_string());
        err.headers
            .push(("filter".to_string(), "rejected".to_string()));
        Chain::Reject(err)
    };
    let step = reg.dispatch_resume(index, decision);
    match step {
        PipelineStep::Respond { response } => {
            assert_eq!(response.status, 401);
            assert_eq!(response.body, "not authorized");
            assert_eq!(
                response.headers,
                vec![("filter".to_string(), "rejected".to_string())]
            );
        }
        PipelineStep::InvokeRoute { .. } => {
            route_handler_calls += 1;
            panic!("route handler must not run after a rejection");
        }
        PipelineStep::InvokeFilter { .. } => panic!("no later filter may run"),
    }
    assert_eq!(route_handler_calls, 0);
}

#[test]
fn scenario_filter_continues_with_token() {
    let mut reg = Registry::new();
    reg.register_filter(FilterInfo::new(
        Predicate::from_str("path_pattern", "/api/hello.*"),
        1,
        0,
    ));
    reg.register_route(RouteInfo::new(
        "GET".to_string(),
        Path::new("/api/hello"),
        7,
    ));
    let mut request = req("GET", "/api/hello", "");
    request
        .headers
        .push(("token".to_string(), "opensesame".to_string()));
    let step = reg.dispatch_begin(request);
    let (index, mut request) = match step {
        PipelineStep::InvokeFilter { index, req: r, .. } => (index, r),
        _ => panic!("expected a filter invocation"),
    };
    request.set_attribute("kk".to_string(), "value".to_string());
    let step = reg.dispatch_resume(index, Chain::Continune(request));
    match step {
        PipelineStep::InvokeRoute {
            handler, req: r, ..
        } => {
            assert_eq!(handler, 7);
            // the filter's mutation is visible downstream
            assert_eq!(
                lookup_value(r.attributes(), "kk"),
                Some("value".to_string())
            );
        }
        _ => panic!("expected the route invocation after the chain"),
    }
}

#[test]
fn scenario_path_params_reach_the_handler() {
    // route GET /items/:id; request GET /items/42
    let mut reg = Registry::new();
    reg.register_route(RouteInfo::new(
        "GET".to_string(),
        Path::new("/items/:id"),
        0,
    ));
    let step = reg.dispatch_begin(req("GET", "/items/42", ""));
    match step {
        PipelineStep::InvokeRoute { req: r, .. } => {
            assert_eq!(
                r.path_params(),
                &vec![("id".to_string(), "42".to_string())]
            );
        }
        _ => panic!("expected a route invocation"),
    }
}

#[test]
fn segment_count_mismatch_falls_through_to_not_found() {
    // pattern /a/:b, path /a: no match, so the result is the 404 response
    let mut reg = Registry::new();
    reg.register_route(RouteInfo::new("GET".to_string(), Path::new("/a/:b"), 0));
    let step = reg.dispatch_begin(req("GET", "/a", ""));
    match step {
        PipelineStep::Respond { response } => {
            assert_eq!(response.status, 404);
            assert_eq!(response.body, "not found!");
            assert!(response.headers.is_empty());
        }
        _ => panic!("expected the not-found response"),
    }
}

#[test]
fn nonmatching_filter_is_skipped() {
    let mut reg = Registry::new();
    reg.register_filter(FilterInfo::new(
        Predicate::from_str("path_pattern", "^/admin.*"),
        1,
        0,
    ));
    reg.register_filter(FilterInfo::new(
        Predicate::from_str("path_pattern", "^/api.*"),
        2,
        1,
    ));
    let step = reg.dispatch_begin(req("GET", "/api/x", ""));
    match step {
        PipelineStep::InvokeFilter { index, handler, .. } => {
            // the admin filter at position 0 does not match and is skipped
            assert_eq!(index, 1);
            assert_eq!(handler, 1);
        }
        _ => panic!("expected the second filter"),
    }
}

#[test]
fn filters_run_in_ascending_order() {
    let mut reg = Registry::new();
    // registered out of order; both match everything
    reg.register_filter(FilterInfo::new(
        Predicate::from_str("path_pattern", ".*"),
        9,
        100,
    ));
    reg.register_filter(FilterInfo::new(
        Predicate::from_str("path_pattern", ".*"),
        2,
        200,
    ));
    let step = reg.dispatch_begin(req("GET", "/", ""));
    let (i1, h1, request) = match step {
        PipelineStep::InvokeFilter {
            index,
            handler,
            req: r,
        } => (index, handler, r),
        _ => panic!("expected a filter invocation"),
    };
    assert_eq!(h1, 200);
    let step = reg.dispatch_resume(i1, Chain::Continune(request));
    match step {
        PipelineStep::InvokeFilter { handler, .. } => assert_eq!(handler, 100),
        _ => panic!("expected the higher-order filter next"),
    }
}
