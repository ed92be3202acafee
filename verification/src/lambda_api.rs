//! The decision core of the control-plane client.
//!
//! The client speaks three operations over HTTP: fetch the next event,
//! publish a success response, publish an error report.  The transport
//! itself is I/O and lives with the embedding application; everything that
//! can be decided from plain values is here: the request URLs, the status
//! classification, the wire shape of an error report, and what each
//! response from the control plane means.

use vstd::prelude::*;

use vstd::utf8::valid_utf8;
use vstd::utf8::decode_utf8;

use crate::context::Config;
use crate::context::Context;
use crate::context::ContextError;
use crate::context::create_execution_context_from;
use crate::context::spec_context_matches;
use crate::context::spec_optional_json_ok;
use crate::context::spec_required_fields;
use crate::error::Error;
use crate::text::spec_json_string;
use crate::text::append_json_string;

verus! {

// ---------------------------------------------------------------------------
// Request URLs
// ---------------------------------------------------------------------------
/// The URL polled for the next event.
pub open spec fn spec_invocation_next_url(endpoint: Seq<char>) -> Seq<char> {
    "http://"@ + endpoint + "/2018-06-01/runtime/invocation/next"@
}

/// Builds the URL polled for the next event.
pub fn invocation_next_url(endpoint: &str) -> (r: String)
    ensures
        r@ == spec_invocation_next_url(endpoint@),
{
    let mut url = "http://".to_owned();
    url.append(endpoint);
    url.append("/2018-06-01/runtime/invocation/next");
    url
}

/// The URL an invocation's outcome is posted to; `path` is `response` for a
/// success and `error` for a failure report.
pub open spec fn spec_invocation_publish_url(
    endpoint: Seq<char>,
    request_id: Seq<char>,
    path: Seq<char>,
) -> Seq<char> {
    "http://"@ + endpoint + "/2018-06-01/runtime/invocation/"@ + request_id + "/"@ + path
}

/// Builds the URL an invocation's outcome is posted to.
pub fn invocation_publish_url(endpoint: &str, request_id: &str, path: &str) -> (r: String)
    ensures
        r@ == spec_invocation_publish_url(endpoint@, request_id@, path@),
{
    let mut url = "http://".to_owned();
    url.append(endpoint);
    url.append("/2018-06-01/runtime/invocation/");
    url.append(request_id);
    url.append("/");
    url.append(path);
    url
}

// ---------------------------------------------------------------------------
// Status classification
// ---------------------------------------------------------------------------
/// Whether an HTTP status reports success.
pub open spec fn spec_is_success_status(status: int) -> bool {
    200 <= status < 300
}

/// Classifies an HTTP status.
pub fn is_success_status(status: u16) -> (r: bool)
    ensures
        r == spec_is_success_status(status as int),
{
    200 <= status && status < 300
}

// ---------------------------------------------------------------------------
// The error report
// ---------------------------------------------------------------------------
/// The report published when a handler fails: its error's type tag and
/// display message.
#[derive(Debug, Clone, PartialEq, Eq)]
pub struct PublishErrorRequest {
    pub error_type: String,
    pub error_message: String,
}

/// The wire shape of an error report: a JSON object with the `errorType`
/// and `errorMessage` members, in that order, and nothing else.
pub open spec fn spec_error_report_json(
    error_type: Seq<char>,
    error_message: Seq<char>,
) -> Seq<char> {
    "{\"errorType\":"@ + spec_json_string(error_type) + ",\"errorMessage\":"@ + spec_json_string(
        error_message,
    ) + "}"@
}

impl PublishErrorRequest {
    /// Encodes this report in its wire shape.
    pub fn to_json(&self) -> (r: String)
        ensures
            r@ == spec_error_report_json(self.error_type@, self.error_message@),
    {
        let mut out = "{\"errorType\":".to_owned();
        append_json_string(&mut out, self.error_type.as_str());
        out.append(",\"errorMessage\":");
        append_json_string(&mut out, self.error_message.as_str());
        out.append("}");
        proof {
            assert(out@ =~= spec_error_report_json(self.error_type@, self.error_message@));
        }
        out
    }
}

// ---------------------------------------------------------------------------
// Reading the control plane's answers
// ---------------------------------------------------------------------------
/// Relies on String::from_utf8: decodes bytes as UTF-8 text.  It succeeds
/// exactly on valid UTF-8, yielding its decoding; a failure is turned into
/// the error's display text.
#[verifier::external_body]
fn utf8_text(bytes: Vec<u8>) -> (r: Result<String, String>)
    ensures
        r is Ok <==> valid_utf8(bytes@),
        r matches Ok(text) ==> text@ == decode_utf8(bytes@),
{
    match String::from_utf8(bytes) {
        Ok(text) => Ok(text),
        Err(cause) => Err(format!("{}", cause)),
    }
}

/// One fetched event: the raw payload bytes and the per-invocation context.
pub struct RawInvocation {
    pub payload: Vec<u8>,
    pub context: Context,
}

/// Why a fetch yielded no invocation: the control plane answered with an
/// error, or its answer broke the header protocol.
#[derive(Debug)]
pub enum FetchError {
    /// A non-success answer; the error carries the answer's body as text.
    ControlPlane(Error),
    /// A success answer whose headers did not carry a well-formed context.
    Protocol(ContextError),
}

/// Reads the control plane's answer to a fetch.
///
/// A non-success status turns the answer's body into a control-plane error.
/// On success the context is extracted from the headers; a malformed header
/// set is a protocol error, otherwise the payload and context are handed
/// over as one invocation.
pub fn evaluate_fetch(
    status: u16,
    headers: &Vec<(String, String)>,
    body: Vec<u8>,
    config: &Config,
) -> (r: Result<RawInvocation, FetchError>)
    ensures
        !spec_is_success_status(status as int) ==> (r matches Err(FetchError::ControlPlane(e))
            && (valid_utf8(body@) ==> e@ == decode_utf8(body@))),
        spec_is_success_status(status as int) && (spec_required_fields(
            headers.deep_view(),
        ) matches Err(e)) ==> (r matches Err(FetchError::Protocol(pe)) && pe
            == spec_required_fields(headers.deep_view())->Err_0),
        spec_is_success_status(status as int) && spec_required_fields(headers.deep_view()) is Ok
            && !spec_optional_json_ok(headers.deep_view(), "lambda-runtime-client-context"@) ==> (
        r matches Err(FetchError::Protocol(pe)) && pe == ContextError::InvalidClientContext),
        spec_is_success_status(status as int) && spec_required_fields(headers.deep_view()) is Ok
            && spec_optional_json_ok(headers.deep_view(), "lambda-runtime-client-context"@)
            && !spec_optional_json_ok(headers.deep_view(), "lambda-runtime-cognito-identity"@)
            ==> (r matches Err(FetchError::Protocol(pe)) && pe == ContextError::InvalidIdentity),
        spec_is_success_status(status as int) && spec_required_fields(headers.deep_view()) is Ok
            && spec_optional_json_ok(headers.deep_view(), "lambda-runtime-client-context"@)
            && spec_optional_json_ok(headers.deep_view(), "lambda-runtime-cognito-identity"@)
            ==> r is Ok,
        r matches Ok(invocation) ==> spec_is_success_status(status as int) && invocation.payload@
            == body@ && spec_context_matches(invocation.context, headers.deep_view(), config@),
{
    if !is_success_status(status) {
        let message = match utf8_text(body) {
            Ok(text) => text,
            Err(decode_failure) => decode_failure,
        };
        return Err(FetchError::ControlPlane(Error::new(message.as_str())));
    }
    match create_execution_context_from(headers, config) {
        Err(cause) => Err(FetchError::Protocol(cause)),
        Ok(context) => Ok(RawInvocation { payload: body, context }),
    }
}

/// Reads the control plane's answer to a publish: accepted exactly when the
/// status reports success, and otherwise an error carrying the answer's
/// body as text.
pub fn evaluate_publish(status: u16, body: Vec<u8>) -> (r: Result<(), Error>)
    ensures
        r is Ok <==> spec_is_success_status(status as int),
        r matches Err(e) ==> (valid_utf8(body@) ==> e@ == decode_utf8(body@)),
{
    if is_success_status(status) {
        Ok(())
    } else {
        let message = match utf8_text(body) {
            Ok(text) => text,
            Err(decode_failure) => decode_failure,
        };
        Err(Error::new(message.as_str()))
    }
}

} // verus!
