use argos::strutil::lookup_value;
use argos::Path;

fn params_of(p: &Path, cand: &str) -> Option<Vec<(String, String)>> {
    p.pattern_match(&cand.to_string())
}

#[test]
fn path_equality_is_by_template_string() {
    assert!(Path::new("/a/:b") == Path::new("/a/:b"));
    assert!(Path::new("/a/:b") != Path::new("/a/:c"));
}

#[test]
fn path_keeps_its_template() {
    assert_eq!(Path::new("/items/:id").template(), "/items/:id");
}

#[test]
fn literal_pattern_matches_itself() {
    let p = Path::new("/api/hello");
    let r = params_of(&p, "/api/hello");
    assert!(r.is_some());
    assert_eq!(r.unwrap().len(), 0);
}

#[test]
fn param_segment_binds_value() {
    let p = Path::new("/items/:id");
    let r = params_of(&p, "/items/42").unwrap();
    assert_eq!(r, vec![("id".to_string(), "42".to_string())]);
}

#[test]
fn multiple_params_bind_in_order() {
    let p = Path::new("/a/:x/b/:y");
    let r = params_of(&p, "/a/1/b/2").unwrap();
    assert_eq!(
        r,
        vec![
            ("x".to_string(), "1".to_string()),
            ("y".to_string(), "2".to_string()),
        ]
    );
}

#[test]
fn literal_mismatch_fails() {
    let p = Path::new("/a/b");
    assert!(params_of(&p, "/a/c").is_none());
}

#[test]
fn fewer_candidate_segments_fail() {
    let p = Path::new("/a/:b");
    assert!(params_of(&p, "/a").is_none());
}

#[test]
fn more_candidate_segments_fail() {
    let p = Path::new("/a");
    assert!(params_of(&p, "/a/b").is_none());
}

#[test]
fn empty_param_value_still_binds() {
    let p = Path::new("/a/:id");
    let r = params_of(&p, "/a/").unwrap();
    assert_eq!(r, vec![("id".to_string(), "".to_string())]);
}

#[test]
fn root_pattern_matches_root() {
    let p = Path::new("/");
    assert!(params_of(&p, "/").is_some());
    assert!(params_of(&p, "").is_none());
}

#[test]
fn duplicate_param_name_keeps_last_on_lookup() {
    let p = Path::new("/:v/:v");
    let r = params_of(&p, "/first/second").unwrap();
    assert_eq!(r.len(), 2);
    assert_eq!(lookup_value(&r, "v"), Some("second".to_string()));
}

#[test]
fn param_in_middle_of_literals() {
    let p = Path::new("/users/:name/posts");
    let r = params_of(&p, "/users/ada/posts").unwrap();
    assert_eq!(r, vec![("name".to_string(), "ada".to_string())]);
    assert!(params_of(&p, "/users/ada/comments").is_none());
}
