use argos::error::ReturnError;
use argos::response::{
    format_response, not_found_response, rejection_response, HttpResponse, RenderMode,
};

fn assert_same_response(a: &HttpResponse, b: &HttpResponse) {
    assert_eq!(a.status, b.status);
    assert_eq!(a.headers, b.headers);
    assert_eq!(a.body, b.body);
}

#[test]
fn success_gets_status_200_and_mode_content_type() {
    let r = format_response(Ok("{\"a\":1}".to_string()), RenderMode::Json);
    assert_eq!(r.status, 200);
    assert_eq!(
        r.headers,
        vec![("Content-Type".to_string(), "application/json".to_string())]
    );
    assert_eq!(r.body, "{\"a\":1}");

    let r = format_response(Ok("<p>hi</p>".to_string()), RenderMode::Html);
    assert_eq!(
        r.headers,
        vec![("Content-Type".to_string(), "text/html".to_string())]
    );
}

#[test]
fn error_keeps_status_body_and_headers_then_content_type() {
    let mut err = ReturnError::new(418, "teapot".to_string());
    err.headers.push(("x-why".to_string(), "because".to_string()));
    let r = format_response(Err(err), RenderMode::Text);
    assert_eq!(r.status, 418);
    assert_eq!(r.body, "teapot");
    assert_eq!(
        r.headers,
        vec![
            ("x-why".to_string(), "because".to_string()),
            ("Content-Type".to_string(), "text/plain".to_string()),
        ]
    );
}

#[test]
fn formatting_twice_is_byte_identical() {
    let make = || {
        let mut err = ReturnError::new(500, "boom".to_string());
        err.headers.push(("a".to_string(), "b".to_string()));
        Err::<String, ReturnError>(err)
    };
    let r1 = format_response(make(), RenderMode::Json);
    let r2 = format_response(make(), RenderMode::Json);
    assert_same_response(&r1, &r2);

    let s1 = format_response(Ok("same".to_string()), RenderMode::Text);
    let s2 = format_response(Ok("same".to_string()), RenderMode::Text);
    assert_same_response(&s1, &s2);
}

#[test]
fn rejection_response_adds_nothing() {
    let mut err = ReturnError::new(401, "not authorized".to_string());
    err.headers
        .push(("filter".to_string(), "rejected".to_string()));
    let r = rejection_response(err);
    assert_eq!(r.status, 401);
    assert_eq!(r.body, "not authorized");
    assert_eq!(
        r.headers,
        vec![("filter".to_string(), "rejected".to_string())]
    );
}

#[test]
fn not_found_is_minimal() {
    let r = not_found_response();
    assert_eq!(r.status, 404);
    assert_eq!(r.body, "not found!");
    assert!(r.headers.is_empty());
}

#[test]
fn error_new_starts_with_no_headers() {
    let err = ReturnError::new(400, "bad".to_string());
    assert_eq!(err.response_code, 400);
    assert_eq!(err.response_body, "bad");
    assert!(err.headers.is_empty());
}
