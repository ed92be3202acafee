use mu_runtime::deserializer::decode_rpc_request;
use mu_runtime::deserializer::AlbDeserialize;
use mu_runtime::request::Request;
use mu_runtime::context::Config;
use mu_runtime::context::Context;
use mu_runtime::context::create_execution_context_from;

fn test_context() -> Context {
    let config = Config::from_values(
        Some("localhost:9001".to_string()),
        Some("greeter".to_string()),
        Some("128".to_string()),
        Some("$LATEST".to_string()),
        Some("stream".to_string()),
        Some("group".to_string()),
    )
    .unwrap();
    let headers = vec![
        ("lambda-runtime-aws-request-id".to_string(), "0000-0001".to_string()),
        ("lambda-runtime-deadline-ms".to_string(), "1000".to_string()),
        ("lambda-runtime-invoked-function-arn".to_string(), "arn::something".to_string()),
        ("lambda-runtime-trace-id".to_string(), "0001-0001".to_string()),
    ];
    create_execution_context_from(&headers, &config).unwrap()
}

fn request_with_body(body: Option<String>) -> Request {
    Request {
        http_method: "POST".to_string(),
        path: Some("/users".to_string()),
        query_string_parameters: Vec::new(),
        multi_value_query_string_parameters: Vec::new(),
        headers: Vec::new(),
        multi_value_headers: Vec::new(),
        target_group_arn: None,
        is_base64_encoded: false,
        body,
    }
}

#[test]
fn passthrough_hands_the_event_over_unchanged() {
    let req = request_with_body(Some("{\"name\":\"John\"}".to_string()));
    let out = Request::from_alb_request(req, test_context()).unwrap();
    assert_eq!(Some("{\"name\":\"John\"}".to_string()), out.body);
    assert_eq!("POST", out.http_method);
    assert_eq!(Some("/users".to_string()), out.path);
}

#[test]
fn missing_body_is_rejected_with_the_fixed_message() {
    let req = request_with_body(None);
    let r: Result<serde_json::Value, _> = decode_rpc_request(&req);
    assert_eq!("No payload defined", r.unwrap_err().message());
}

#[test]
fn malformed_body_is_rejected_with_the_failed_prefix() {
    let req = request_with_body(Some("{not json".to_string()));
    let r: Result<serde_json::Value, _> = decode_rpc_request(&req);
    assert!(r.unwrap_err().message().starts_with("Failed"));
}

#[test]
fn well_formed_body_is_decoded() {
    let req = request_with_body(Some("{\"name\":\"John\"}".to_string()));
    let value: serde_json::Value = decode_rpc_request(&req).unwrap();
    assert_eq!("John", value["name"].as_str().unwrap());
}
