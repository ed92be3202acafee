use mu_runtime::response::create;
use mu_runtime::response::create_for;
use mu_runtime::response::create_for_optional;
use mu_runtime::response::create_content_type_headers;
use mu_runtime::response::create_json;
use mu_runtime::response::create_plain_text;
use mu_runtime::response::create_with_content_type;
use mu_runtime::response::Body;
use mu_runtime::response::HeaderMode;
use mu_runtime::context::find_header;

#[test]
fn should_create_response_with_headers() {
    let headers = create_for("Content-Type", "text/plain");

    let alb_response = create(HeaderMode::Single, 200, Some("hello".to_string()), headers);

    let expected_headers = vec![("Content-Type".to_string(), "text/plain".to_string())];
    assert_eq!(expected_headers, alb_response.headers);
    assert!(alb_response.multi_value_headers.is_empty());
}

#[test]
fn should_create_response_with_multi_headers() {
    let headers = create_for("Content-Type", "text/plain");

    let alb_response = create(HeaderMode::Multi, 200, Some("hello".to_string()), headers);

    let expected_headers = vec![("Content-Type".to_string(), vec!["text/plain".to_string()])];
    assert_eq!(expected_headers, alb_response.multi_value_headers);
    assert!(alb_response.headers.is_empty());
}

#[test]
fn absent_body_becomes_explicit_empty_variant() {
    let response = create(HeaderMode::Multi, 204, None, Vec::new());
    assert_eq!(Some(Body::Empty), response.body);
}

#[test]
fn empty_string_body_is_kept() {
    let response = create(HeaderMode::Multi, 200, Some(String::new()), Vec::new());
    assert_eq!(Some(Body::Text(String::new())), response.body);
}

#[test]
fn status_description_restates_the_code() {
    let response = create(HeaderMode::Multi, 200, None, Vec::new());
    assert_eq!(Some("200 Response".to_string()), response.status_description);

    let response = create(HeaderMode::Single, 502, None, Vec::new());
    assert_eq!(Some("502 Response".to_string()), response.status_description);
}

#[test]
fn responses_are_never_base64_marked() {
    let response = create(HeaderMode::Multi, 200, Some("x".to_string()), Vec::new());
    assert!(!response.is_base64_encoded);
}

#[test]
fn create_json_sets_the_json_content_type() {
    let response = create_json(HeaderMode::Multi, 201, Some("{}".to_string()));
    assert_eq!(201, response.status_code);
    assert_eq!(Some(Body::Text("{}".to_string())), response.body);
    assert_eq!(
        vec![("Content-Type".to_string(), vec!["application/json".to_string()])],
        response.multi_value_headers
    );
}

#[test]
fn create_plain_text_sets_the_text_content_type() {
    let response = create_plain_text(HeaderMode::Single, 404, Some("missing".to_string()));
    assert_eq!(404, response.status_code);
    assert_eq!(Some(Body::Text("missing".to_string())), response.body);
    assert_eq!(
        Some("text/plain".to_string()),
        find_header(&response.headers, "Content-Type")
    );
}

#[test]
fn create_with_content_type_uses_the_given_type() {
    let response = create_with_content_type(
        HeaderMode::Multi,
        200,
        Some("<p>hi</p>".to_string()),
        "text/html".to_string(),
    );
    assert_eq!(
        vec![("Content-Type".to_string(), vec!["text/html".to_string()])],
        response.multi_value_headers
    );
}

#[test]
fn create_for_optional_builds_one_entry_or_none() {
    let some = create_for_optional("Location", &Some("/users/1".to_string()));
    assert_eq!(vec![("Location".to_string(), vec!["/users/1".to_string()])], some);

    let none = create_for_optional("Location", &None);
    assert!(none.is_empty());
}

#[test]
fn create_content_type_headers_builds_one_entry() {
    let headers = create_content_type_headers("application/json");
    assert_eq!(
        vec![("Content-Type".to_string(), vec!["application/json".to_string()])],
        headers
    );
}

#[test]
fn duplicate_copies_every_field() {
    let original = create_json(HeaderMode::Multi, 200, Some("{\"a\":1}".to_string()));
    let copy = original.duplicate();
    assert_eq!(original.status_code, copy.status_code);
    assert_eq!(original.body, copy.body);
    assert_eq!(original.headers, copy.headers);
    assert_eq!(original.multi_value_headers, copy.multi_value_headers);
    assert_eq!(original.is_base64_encoded, copy.is_base64_encoded);
    assert_eq!(original.status_description, copy.status_description);
}
