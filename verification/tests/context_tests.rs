use mu_runtime::context::find_header;
use mu_runtime::context::Config;
use mu_runtime::context::ConfigError;
use mu_runtime::context::ContextError;
use mu_runtime::context::create_execution_context_from;

fn full_values() -> (
    Option<String>,
    Option<String>,
    Option<String>,
    Option<String>,
    Option<String>,
    Option<String>,
) {
    (
        Some("localhost:9001".to_string()),
        Some("greeter".to_string()),
        Some("128".to_string()),
        Some("$LATEST".to_string()),
        Some("2026/01/01/[$LATEST]abc".to_string()),
        Some("/aws/lambda/greeter".to_string()),
    )
}

fn test_config() -> Config {
    let (endpoint, name, memory, version, stream, group) = full_values();
    Config::from_values(endpoint, name, memory, version, stream, group).unwrap()
}

fn protocol_headers() -> Vec<(String, String)> {
    vec![
        ("lambda-runtime-aws-request-id".to_string(), "0000-0001".to_string()),
        ("lambda-runtime-deadline-ms".to_string(), "1000".to_string()),
        ("lambda-runtime-invoked-function-arn".to_string(), "arn::something".to_string()),
        ("lambda-runtime-trace-id".to_string(), "0001-0001".to_string()),
    ]
}

#[test]
fn config_is_built_from_complete_values() {
    let config = test_config();
    assert_eq!("localhost:9001", config.endpoint);
    assert_eq!("greeter", config.function_name);
    assert_eq!(128, config.memory);
    assert_eq!("$LATEST", config.version);
    assert_eq!("2026/01/01/[$LATEST]abc", config.log_stream);
    assert_eq!("/aws/lambda/greeter", config.log_group);
}

#[test]
fn each_missing_variable_is_reported() {
    let v = full_values;
    let (_, n, m, ver, s, g) = v();
    assert_eq!(Err(ConfigError::MissingEndpoint), Config::from_values(None, n, m, ver, s, g).map(|_| ()));
    let (e, _, m, ver, s, g) = v();
    assert_eq!(Err(ConfigError::MissingFunctionName), Config::from_values(e, None, m, ver, s, g).map(|_| ()));
    let (e, n, _, ver, s, g) = v();
    assert_eq!(Err(ConfigError::MissingMemory), Config::from_values(e, n, None, ver, s, g).map(|_| ()));
    let (e, n, m, _, s, g) = v();
    assert_eq!(Err(ConfigError::MissingVersion), Config::from_values(e, n, m, None, s, g).map(|_| ()));
    let (e, n, m, ver, _, g) = v();
    assert_eq!(Err(ConfigError::MissingLogStream), Config::from_values(e, n, m, ver, None, g).map(|_| ()));
    let (e, n, m, ver, s, _) = v();
    assert_eq!(Err(ConfigError::MissingLogGroup), Config::from_values(e, n, m, ver, s, None).map(|_| ()));
}

#[test]
fn unparsable_memory_is_reported() {
    let (e, n, _, ver, s, g) = full_values();
    let r = Config::from_values(e, n, Some("lots".to_string()), ver, s, g).map(|_| ());
    assert_eq!(Err(ConfigError::InvalidMemory), r);

    let (e, n, _, ver, s, g) = full_values();
    let r = Config::from_values(e, n, Some("99999999999".to_string()), ver, s, g).map(|_| ());
    assert_eq!(Err(ConfigError::InvalidMemory), r);
}

#[test]
fn context_is_extracted_from_protocol_headers() {
    let config = test_config();
    let ctx = create_execution_context_from(&protocol_headers(), &config).unwrap();
    assert_eq!("0000-0001", ctx.request_id);
    assert_eq!(1000, ctx.deadline);
    assert_eq!("arn::something", ctx.invoked_function_arn);
    assert_eq!("0001-0001", ctx.xray_trace_id);
    assert!(ctx.client_context.is_none());
    assert!(ctx.identity.is_none());
    assert_eq!("localhost:9001", ctx.env_config.endpoint);
}

#[test]
fn each_missing_required_header_is_reported() {
    let config = test_config();
    for (name, expected) in [
        ("lambda-runtime-aws-request-id", ContextError::MissingRequestId),
        ("lambda-runtime-deadline-ms", ContextError::MissingDeadline),
        ("lambda-runtime-invoked-function-arn", ContextError::MissingFunctionArn),
        ("lambda-runtime-trace-id", ContextError::MissingTraceId),
    ] {
        let headers: Vec<(String, String)> = protocol_headers()
            .into_iter()
            .filter(|entry| entry.0 != name)
            .collect();
        let r = create_execution_context_from(&headers, &config).map(|_| ());
        assert_eq!(Err(expected), r);
    }
}

#[test]
fn non_numeric_deadline_is_reported() {
    let config = test_config();
    let headers: Vec<(String, String)> = protocol_headers()
        .into_iter()
        .map(|entry| {
            if entry.0 == "lambda-runtime-deadline-ms" {
                (entry.0, "soon".to_string())
            } else {
                entry
            }
        })
        .collect();
    let r = create_execution_context_from(&headers, &config).map(|_| ());
    assert_eq!(Err(ContextError::InvalidDeadline), r);
}

#[test]
fn well_formed_client_context_is_parsed() {
    let config = test_config();
    let mut headers = protocol_headers();
    headers.push((
        "lambda-runtime-client-context".to_string(),
        "{\"client\":{\"installation_id\":\"InstallationId1\"}}".to_string(),
    ));
    let ctx = create_execution_context_from(&headers, &config).unwrap();
    assert!(ctx.client_context.is_some());
    assert!(ctx.identity.is_none());
}

#[test]
fn malformed_client_context_is_reported() {
    let config = test_config();
    let mut headers = protocol_headers();
    headers.push(("lambda-runtime-client-context".to_string(), "{not json".to_string()));
    let r = create_execution_context_from(&headers, &config).map(|_| ());
    assert_eq!(Err(ContextError::InvalidClientContext), r);
}

#[test]
fn well_formed_cognito_identity_is_parsed() {
    let config = test_config();
    let mut headers = protocol_headers();
    headers.push((
        "lambda-runtime-cognito-identity".to_string(),
        "{\"identity_id\":\"Id1\",\"identity_pool_id\":\"Pool1\"}".to_string(),
    ));
    let ctx = create_execution_context_from(&headers, &config).unwrap();
    assert!(ctx.identity.is_some());
}

#[test]
fn malformed_cognito_identity_is_reported() {
    let config = test_config();
    let mut headers = protocol_headers();
    headers.push(("lambda-runtime-cognito-identity".to_string(), "][".to_string()));
    let r = create_execution_context_from(&headers, &config).map(|_| ());
    assert_eq!(Err(ContextError::InvalidIdentity), r);
}

#[test]
fn find_header_returns_the_first_match() {
    let headers = vec![
        ("a".to_string(), "1".to_string()),
        ("b".to_string(), "2".to_string()),
        ("a".to_string(), "3".to_string()),
    ];
    assert_eq!(Some("1".to_string()), find_header(&headers, "a"));
    assert_eq!(Some("2".to_string()), find_header(&headers, "b"));
    assert_eq!(None, find_header(&headers, "c"));
}
