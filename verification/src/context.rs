//! Process configuration and the per-invocation execution context, extracted
//! from the control plane's response headers.

use vstd::prelude::*;

use crate::text::spec_parse_u64;
use crate::text::parse_u64;
use crate::text::str_eq;

verus! {

// ---------------------------------------------------------------------------
// Configuration
// ---------------------------------------------------------------------------
/// The process-lifetime configuration, built once at startup from the
/// environment and then only read.
pub struct Config {
    pub endpoint: String,
    pub function_name: String,
    pub memory: i32,
    pub version: String,
    pub log_stream: String,
    pub log_group: String,
}

/// The mathematical shape of a [`Config`].
#[verifier::ext_equal]
pub struct ConfigView {
    pub endpoint: Seq<char>,
    pub function_name: Seq<char>,
    pub memory: int,
    pub version: Seq<char>,
    pub log_stream: Seq<char>,
    pub log_group: Seq<char>,
}

impl View for Config {
    type V = ConfigView;

    open spec fn view(&self) -> ConfigView {
        ConfigView {
            endpoint: self.endpoint@,
            function_name: self.function_name@,
            memory: self.memory as int,
            version: self.version@,
            log_stream: self.log_stream@,
            log_group: self.log_group@,
        }
    }
}

/// Why building a [`Config`] failed: the missing variable, or an
/// unparsable memory size.
#[derive(Clone, Copy, PartialEq, Eq, Structural, Debug)]
pub enum ConfigError {
    MissingEndpoint,
    MissingFunctionName,
    MissingMemory,
    InvalidMemory,
    MissingVersion,
    MissingLogStream,
    MissingLogGroup,
}

/// What [`Config::from_values`] yields: the first missing value is reported,
/// and the memory size must be a decimal number that fits an `i32`.
pub open spec fn spec_build_config(
    endpoint: Option<Seq<char>>,
    function_name: Option<Seq<char>>,
    memory: Option<Seq<char>>,
    version: Option<Seq<char>>,
    log_stream: Option<Seq<char>>,
    log_group: Option<Seq<char>>,
) -> Result<ConfigView, ConfigError> {
    if endpoint is None {
        Err(ConfigError::MissingEndpoint)
    } else if function_name is None {
        Err(ConfigError::MissingFunctionName)
    } else if memory is None {
        Err(ConfigError::MissingMemory)
    } else if !(spec_parse_u64(memory.unwrap()) matches Some(m) && m <= i32::MAX) {
        Err(ConfigError::InvalidMemory)
    } else if version is None {
        Err(ConfigError::MissingVersion)
    } else if log_stream is None {
        Err(ConfigError::MissingLogStream)
    } else if log_group is None {
        Err(ConfigError::MissingLogGroup)
    } else {
        Ok(
            ConfigView {
                endpoint: endpoint.unwrap(),
                function_name: function_name.unwrap(),
                memory: spec_parse_u64(memory.unwrap()).unwrap() as int,
                version: version.unwrap(),
                log_stream: log_stream.unwrap(),
                log_group: log_group.unwrap(),
            },
        )
    }
}

impl Config {
    /// Builds the configuration from the raw values of the six environment
    /// variables, exactly as [`spec_build_config`] says.  The embedding
    /// application reads the environment and fails fatally on an error.
    pub fn from_values(
        endpoint: Option<String>,
        function_name: Option<String>,
        memory: Option<String>,
        version: Option<String>,
        log_stream: Option<String>,
        log_group: Option<String>,
    ) -> (r: Result<Config, ConfigError>)
        ensures
            r matches Ok(config) ==> spec_build_config(
                endpoint.deep_view(),
                function_name.deep_view(),
                memory.deep_view(),
                version.deep_view(),
                log_stream.deep_view(),
                log_group.deep_view(),
            ) == Ok::<ConfigView, ConfigError>(config@),
            r matches Err(e) ==> spec_build_config(
                endpoint.deep_view(),
                function_name.deep_view(),
                memory.deep_view(),
                version.deep_view(),
                log_stream.deep_view(),
                log_group.deep_view(),
            ) == Err::<ConfigView, ConfigError>(e),
    {
        let endpoint_value = match endpoint {
            None => {
                return Err(ConfigError::MissingEndpoint);
            },
            Some(value) => value,
        };
        let function_name_value = match function_name {
            None => {
                return Err(ConfigError::MissingFunctionName);
            },
            Some(value) => value,
        };
        let memory_text = match memory {
            None => {
                return Err(ConfigError::MissingMemory);
            },
            Some(value) => value,
        };
        let memory_value: i32 = match parse_u64(memory_text.as_str()) {
            None => {
                return Err(ConfigError::InvalidMemory);
            },
            Some(value) => {
                if value > i32::MAX as u64 {
                    return Err(ConfigError::InvalidMemory);
                }
                value as i32
            },
        };
        let version_value = match version {
            None => {
                return Err(ConfigError::MissingVersion);
            },
            Some(value) => value,
        };
        let log_stream_value = match log_stream {
            None => {
                return Err(ConfigError::MissingLogStream);
            },
            Some(value) => value,
        };
        let log_group_value = match log_group {
            None => {
                return Err(ConfigError::MissingLogGroup);
            },
            Some(value) => value,
        };
        let config = Config {
            endpoint: endpoint_value,
            function_name: function_name_value,
            memory: memory_value,
            version: version_value,
            log_stream: log_stream_value,
            log_group: log_group_value,
        };
        Ok(config)
    }

    /// Copies this configuration; the copy has the same mathematical shape.
    pub fn duplicate(&self) -> (c: Config)
        ensures
            c@ == self@,
    {
        let c = Config {
            endpoint: self.endpoint.clone(),
            function_name: self.function_name.clone(),
            memory: self.memory,
            version: self.version.clone(),
            log_stream: self.log_stream.clone(),
            log_group: self.log_group.clone(),
        };
        proof {
            assert(c@ =~= self@);
        }
        c
    }
}

// ---------------------------------------------------------------------------
// Header lookup
// ---------------------------------------------------------------------------
/// The first value under the given name in an ordered header list.
pub open spec fn spec_header_lookup(headers: Seq<(Seq<char>, Seq<char>)>, name: Seq<char>) -> Option<
    Seq<char>,
>
    decreases headers.len(),
{
    if headers.len() == 0 {
        None
    } else if headers[0].0 == name {
        Some(headers[0].1)
    } else {
        spec_header_lookup(headers.drop_first(), name)
    }
}

/// Finds the first header with the given name.
pub fn find_header(headers: &Vec<(String, String)>, name: &str) -> (r: Option<String>)
    ensures
        r matches Some(value) ==> spec_header_lookup(headers.deep_view(), name@) == Some(value@),
        r is None ==> spec_header_lookup(headers.deep_view(), name@) is None,
{
    let ghost hv = headers.deep_view();
    proof {
        assert(hv.skip(0) =~= hv);
    }
    let mut i: usize = 0;
    while i < headers.len()
        invariant
            0 <= i <= headers.len(),
            hv == headers.deep_view(),
            hv.len() == headers.len(),
            spec_header_lookup(hv, name@) == spec_header_lookup(hv.skip(i as int), name@),
        decreases headers.len() - i,
    {
        if str_eq(headers[i].0.as_str(), name) {
            proof {
                assert(hv.skip(i as int)[0] == hv[i as int]);
            }
            return Some(headers[i].1.clone());
        }
        proof {
            assert(hv.skip(i as int)[0] == hv[i as int]);
            assert(hv.skip(i as int).drop_first() =~= hv.skip(i as int + 1));
        }
        i = i + 1;
    }
    proof {
        assert(hv.skip(headers.len() as int) =~= Seq::<(Seq<char>, Seq<char>)>::empty());
    }
    None
}

// ---------------------------------------------------------------------------
// The execution context
// ---------------------------------------------------------------------------
#[verifier::external_type_specification]
#[verifier::external_body]
pub struct ExValue(serde_json::Value);

/// Whether a text parses as a JSON document.  The outcome is a function of
/// the text alone; what the parsed document holds is not modelled here.
pub uninterp spec fn json_text_is_value(text: Seq<char>) -> bool;

/// Relies on serde_json::from_str::<Value>: parses a JSON document.  It
/// succeeds exactly on the texts [`json_text_is_value`] names; the failure
/// message is the parse error's display text.
#[verifier::external_body]
fn parse_json_value(text: &str) -> (r: Result<serde_json::Value, String>)
    ensures
        r is Ok <==> json_text_is_value(text@),
{
    match serde_json::from_str(text) {
        Ok(value) => Ok(value),
        Err(cause) => Err(format!("{}", cause)),
    }
}

/// The per-invocation execution context, read from the headers of one fetch
/// response and discarded when the invocation completes.
pub struct Context {
    pub request_id: String,
    /// Epoch milliseconds after which the invocation is past due.  Purely
    /// informational for the handler; nothing here enforces it.
    pub deadline: u64,
    pub invoked_function_arn: String,
    pub xray_trace_id: String,
    pub client_context: Option<serde_json::Value>,
    pub identity: Option<serde_json::Value>,
    pub env_config: Config,
}

/// Why extracting a [`Context`] failed: a required header was absent or
/// unparsable, or an optional JSON header was malformed.  The control plane
/// promises these headers, so the embedding application treats any of these
/// as a protocol violation.
#[derive(Clone, Copy, PartialEq, Eq, Structural, Debug)]
pub enum ContextError {
    MissingRequestId,
    MissingDeadline,
    InvalidDeadline,
    MissingFunctionArn,
    MissingTraceId,
    InvalidClientContext,
    InvalidIdentity,
}

/// The four required fields, in the order they are checked: request id,
/// deadline (a base-10 millisecond count), function ARN and trace id.
pub open spec fn spec_required_fields(hv: Seq<(Seq<char>, Seq<char>)>) -> Result<
    (Seq<char>, int, Seq<char>, Seq<char>),
    ContextError,
> {
    match spec_header_lookup(hv, "lambda-runtime-aws-request-id"@) {
        None => Err(ContextError::MissingRequestId),
        Some(request_id) => match spec_header_lookup(hv, "lambda-runtime-deadline-ms"@) {
            None => Err(ContextError::MissingDeadline),
            Some(deadline_text) => match spec_parse_u64(deadline_text) {
                None => Err(ContextError::InvalidDeadline),
                Some(deadline) => match spec_header_lookup(
                    hv,
                    "lambda-runtime-invoked-function-arn"@,
                ) {
                    None => Err(ContextError::MissingFunctionArn),
                    Some(arn) => match spec_header_lookup(hv, "lambda-runtime-trace-id"@) {
                        None => Err(ContextError::MissingTraceId),
                        Some(trace) => Ok((request_id, deadline as int, arn, trace)),
                    },
                },
            },
        },
    }
}

/// Whether an optional JSON header is absent or parses.
pub open spec fn spec_optional_json_ok(hv: Seq<(Seq<char>, Seq<char>)>, name: Seq<char>) -> bool {
    match spec_header_lookup(hv, name) {
        None => true,
        Some(text) => json_text_is_value(text),
    }
}

/// Whether a context carries exactly what the headers name: the required
/// fields, an optional structured value wherever its header is present, and
/// the given configuration.
pub open spec fn spec_context_matches(
    ctx: Context,
    hv: Seq<(Seq<char>, Seq<char>)>,
    cfg: ConfigView,
) -> bool {
    match spec_required_fields(hv) {
        Err(_) => false,
        Ok(fields) => {
            &&& ctx.request_id@ == fields.0
            &&& ctx.deadline as int == fields.1
            &&& ctx.invoked_function_arn@ == fields.2
            &&& ctx.xray_trace_id@ == fields.3
            &&& (ctx.client_context is Some <==> spec_header_lookup(
                hv,
                "lambda-runtime-client-context"@,
            ) is Some)
            &&& (ctx.identity is Some <==> spec_header_lookup(
                hv,
                "lambda-runtime-cognito-identity"@,
            ) is Some)
            &&& ctx.env_config@ == cfg
        },
    }
}

/// Extracts the execution context from the headers of a fetch response.
///
/// A missing or unparsable required header and a malformed optional JSON
/// header are reported as the matching [`ContextError`], in the order the
/// fields are listed there; when everything the headers owe is present, the
/// context is returned.
pub fn create_execution_context_from(headers: &Vec<(String, String)>, config: &Config) -> (r:
    Result<Context, ContextError>)
    ensures
        spec_required_fields(headers.deep_view()) matches Err(e) ==> r == Err::<
            Context,
            ContextError,
        >(e),
        spec_required_fields(headers.deep_view()) is Ok && !spec_optional_json_ok(
            headers.deep_view(),
            "lambda-runtime-client-context"@,
        ) ==> r == Err::<Context, ContextError>(ContextError::InvalidClientContext),
        spec_required_fields(headers.deep_view()) is Ok && spec_optional_json_ok(
            headers.deep_view(),
            "lambda-runtime-client-context"@,
        ) && !spec_optional_json_ok(headers.deep_view(), "lambda-runtime-cognito-identity"@) ==> r
            == Err::<Context, ContextError>(ContextError::InvalidIdentity),
        spec_required_fields(headers.deep_view()) is Ok && spec_optional_json_ok(
            headers.deep_view(),
            "lambda-runtime-client-context"@,
        ) && spec_optional_json_ok(headers.deep_view(), "lambda-runtime-cognito-identity"@) ==> r
            is Ok,
        r matches Ok(ctx) ==> spec_context_matches(ctx, headers.deep_view(), config@),
{
    let request_id = match find_header(headers, "lambda-runtime-aws-request-id") {
        None => {
            return Err(ContextError::MissingRequestId);
        },
        Some(value) => value,
    };
    let deadline_text = match find_header(headers, "lambda-runtime-deadline-ms") {
        None => {
            return Err(ContextError::MissingDeadline);
        },
        Some(value) => value,
    };
    let deadline = match parse_u64(deadline_text.as_str()) {
        None => {
            return Err(ContextError::InvalidDeadline);
        },
        Some(value) => value,
    };
    let invoked_function_arn = match find_header(headers, "lambda-runtime-invoked-function-arn") {
        None => {
            return Err(ContextError::MissingFunctionArn);
        },
        Some(value) => value,
    };
    let xray_trace_id = match find_header(headers, "lambda-runtime-trace-id") {
        None => {
            return Err(ContextError::MissingTraceId);
        },
        Some(value) => value,
    };
    let client_context = match find_header(headers, "lambda-runtime-client-context") {
        None => None,
        Some(text) => match parse_json_value(text.as_str()) {
            Ok(value) => Some(value),
            Err(_) => {
                return Err(ContextError::InvalidClientContext);
            },
        },
    };
    let identity = match find_header(headers, "lambda-runtime-cognito-identity") {
        None => None,
        Some(text) => match parse_json_value(text.as_str()) {
            Ok(value) => Some(value),
            Err(_) => {
                return Err(ContextError::InvalidIdentity);
            },
        },
    };
    Ok(
        Context {
            request_id,
            deadline,
            invoked_function_arn,
            xray_trace_id,
            client_context,
            identity,
            env_config: config.duplicate(),
        },
    )
}

} // verus!
