use eve_sde::error::ResolveError;
use eve_sde::manifest::build_from;
use eve_sde::manifest::read_build;

#[test]
fn build_is_read_from_a_manifest() {
    assert_eq!(read_build(br#"{"build":"123456"}"#), Ok("123456".to_string()));
}

#[test]
fn build_is_read_whatever_else_the_manifest_holds() {
    let data =
        br#"{"protected": false, "platforms": ["win"], "build": "3100123", "more": 1}"#;
    assert_eq!(read_build(data), Ok("3100123".to_string()));
}

#[test]
fn build_is_read_though_the_other_fields_are_mistyped() {
    let data = br#"{"build": "77", "protected": "yes", "platforms": 3}"#;
    assert_eq!(read_build(data), Ok("77".to_string()));
}

#[test]
fn manifest_without_a_build_is_refused() {
    assert_eq!(read_build(br#"{"protected": true}"#), Err(ResolveError::Manifest));
    assert_eq!(read_build(b"{}"), Err(ResolveError::Manifest));
}

#[test]
fn manifest_with_a_mistyped_build_is_refused() {
    assert_eq!(read_build(br#"{"build": 123456}"#), Err(ResolveError::Manifest));
    assert_eq!(read_build(br#"{"build": null}"#), Err(ResolveError::Manifest));
    assert_eq!(read_build(br#"{"build": ["1"]}"#), Err(ResolveError::Manifest));
}

#[test]
fn manifest_that_is_no_object_is_refused() {
    assert_eq!(read_build(br#"["build", "1"]"#), Err(ResolveError::Manifest));
    assert_eq!(read_build(br#""build""#), Err(ResolveError::Manifest));
}

#[test]
fn manifest_that_is_no_json_is_refused() {
    assert_eq!(read_build(b""), Err(ResolveError::Manifest));
    assert_eq!(read_build(b"<html></html>"), Err(ResolveError::Manifest));
    assert_eq!(read_build(br#"{"build":"1"} trailing"#), Err(ResolveError::Manifest));
    assert_eq!(read_build(br#"{"build":"1""#), Err(ResolveError::Manifest));
}

#[test]
fn manifest_that_is_not_utf8_is_refused() {
    assert_eq!(read_build(b"{\"build\":\"\xff\xfe\"}"), Err(ResolveError::Manifest));
}

#[test]
fn build_from_takes_the_string_that_was_found() {
    assert_eq!(build_from::<()>(Ok(Some("42".to_string()))), Ok("42".to_string()));
    assert_eq!(build_from::<()>(Ok(Some(String::new()))), Ok(String::new()));
}

#[test]
fn build_from_fails_where_nothing_was_found() {
    assert_eq!(build_from::<()>(Ok(None)), Err(ResolveError::Manifest));
    assert_eq!(build_from(Err("no json")), Err(ResolveError::Manifest));
}
