use mu_runtime::context::ContextError;
use mu_runtime::lambda_api::evaluate_fetch;
use mu_runtime::lambda_api::evaluate_publish;
use mu_runtime::lambda_api::invocation_next_url;
use mu_runtime::lambda_api::invocation_publish_url;
use mu_runtime::lambda_api::is_success_status;
use mu_runtime::lambda_api::FetchError;
use mu_runtime::lambda_api::PublishErrorRequest;
use mu_runtime::context::Config;

fn test_config() -> Config {
    Config::from_values(
        Some("localhost:9001".to_string()),
        Some("greeter".to_string()),
        Some("128".to_string()),
        Some("$LATEST".to_string()),
        Some("stream".to_string()),
        Some("group".to_string()),
    )
    .unwrap()
}

fn protocol_headers() -> Vec<(String, String)> {
    vec![
        ("lambda-runtime-aws-request-id".to_string(), "0000-0001".to_string()),
        ("lambda-runtime-deadline-ms".to_string(), "1000".to_string()),
        ("lambda-runtime-invoked-function-arn".to_string(), "arn::something".to_string()),
        ("lambda-runtime-trace-id".to_string(), "0001-0001".to_string()),
    ]
}

#[test]
fn next_url_names_the_poll_path() {
    assert_eq!(
        "http://localhost:9001/2018-06-01/runtime/invocation/next",
        invocation_next_url("localhost:9001")
    );
}

#[test]
fn publish_url_names_the_invocation_and_operation() {
    assert_eq!(
        "http://localhost:9001/2018-06-01/runtime/invocation/0000-0001/response",
        invocation_publish_url("localhost:9001", "0000-0001", "response")
    );
    assert_eq!(
        "http://localhost:9001/2018-06-01/runtime/invocation/0000-0001/error",
        invocation_publish_url("localhost:9001", "0000-0001", "error")
    );
}

#[test]
fn status_classification_follows_the_2xx_range() {
    assert!(is_success_status(200));
    assert!(is_success_status(299));
    assert!(!is_success_status(199));
    assert!(!is_success_status(300));
    assert!(!is_success_status(500));
}

#[test]
fn successful_fetch_yields_payload_and_context() {
    let config = test_config();
    let body = "{ \"body\": \"hello\" }".as_bytes().to_vec();
    let invocation = evaluate_fetch(200, &protocol_headers(), body, &config).unwrap();
    assert_eq!("{ \"body\": \"hello\" }".as_bytes(), invocation.payload.as_slice());
    assert_eq!("0000-0001", invocation.context.request_id);
    assert_eq!(1000, invocation.context.deadline);
    assert_eq!("arn::something", invocation.context.invoked_function_arn);
    assert_eq!("0001-0001", invocation.context.xray_trace_id);
}

#[test]
fn failed_fetch_surfaces_the_answer_body() {
    let config = test_config();
    let r = evaluate_fetch(500, &protocol_headers(), b"went wrong".to_vec(), &config);
    match r {
        Ok(_) => panic!("Should not succeed in case of failures"),
        Err(FetchError::ControlPlane(cause)) => assert_eq!("went wrong", cause.message()),
        Err(FetchError::Protocol(_)) => panic!("expected a control-plane error"),
    }
}

#[test]
fn successful_fetch_without_required_headers_is_a_protocol_error() {
    let config = test_config();
    let r = evaluate_fetch(200, &Vec::new(), b"{}".to_vec(), &config);
    match r {
        Err(FetchError::Protocol(e)) => assert_eq!(ContextError::MissingRequestId, e),
        _ => panic!("expected a protocol error"),
    }
}

#[test]
fn accepted_publish_is_ok() {
    assert!(evaluate_publish(200, Vec::new()).is_ok());
    assert!(evaluate_publish(202, Vec::new()).is_ok());
}

#[test]
fn rejected_publish_surfaces_the_answer_body() {
    let r = evaluate_publish(403, b"denied".to_vec());
    match r {
        Ok(_) => panic!("Should not succeed in case of failures"),
        Err(cause) => assert_eq!("denied", cause.message()),
    }
}

#[test]
fn undecodable_answer_body_still_yields_an_error() {
    let r = evaluate_publish(500, vec![0xC3, 0x28]);
    assert!(r.is_err());
}

#[test]
fn error_report_is_encoded_in_its_wire_shape() {
    let report = PublishErrorRequest {
        error_type: "CompileError".to_string(),
        error_message: "Not implemented".to_string(),
    };
    assert_eq!(
        "{\"errorType\":\"CompileError\",\"errorMessage\":\"Not implemented\"}",
        report.to_json()
    );
}

#[test]
fn error_report_escapes_json_specials() {
    let report = PublishErrorRequest {
        error_type: "Panic".to_string(),
        error_message: "said \"no\"\nthen \\ stopped\u{0001}".to_string(),
    };
    assert_eq!(
        "{\"errorType\":\"Panic\",\"errorMessage\":\"said \\\"no\\\"\\nthen \\\\ stopped\\u0001\"}",
        report.to_json()
    );
}
