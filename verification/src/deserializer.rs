//! Deserialization of inbound events into handler inputs.
//!
//! Two strategies exist: a handler may take the raw event unchanged, or mark
//! its input type as an RPC request, in which case the event's body is
//! parsed as JSON.  A missing body and a malformed body are reported as
//! handler-level errors with fixed messages; neither stops the runtime.

use vstd::prelude::*;

use crate::context::Context;
use crate::error::LambdaError;
use crate::request::Request;

verus! {

/// Relies on serde_json::from_str: parses JSON text into a deserializable
/// value.  Which value comes back is not stated; a failure is turned into
/// the parse error's debug text.
#[verifier::external_body]
fn decode_json<T: serde::de::DeserializeOwned>(text: &str) -> (r: Result<T, String>) {
    match serde_json::from_str(text) {
        Ok(value) => Ok(value),
        Err(cause) => Err(format!("{:?}", cause)),
    }
}

/// The error message for an event that carries no body.
pub open spec fn spec_no_payload_message() -> Seq<char> {
    "No payload defined"@
}

/// The error message for a body that failed to parse, carrying the parse
/// error's text after a fixed prefix.
pub open spec fn spec_failed_message(cause: Seq<char>) -> Seq<char> {
    "Failed: "@ + cause
}

/// Parses the body of an event into an RPC request value.
///
/// An event without a body is rejected with the fixed `No payload defined`
/// message; a body that does not parse is rejected with a message carrying
/// the `Failed: ` prefix.  Which parsed value a well-formed body yields
/// depends on the target type and is not stated here.
pub fn decode_rpc_request<T: serde::de::DeserializeOwned>(req: &Request) -> (r: Result<
    T,
    LambdaError,
>)
    ensures
        req.body is None ==> (r matches Err(e) && e@ == spec_no_payload_message()),
        req.body is Some && r is Err ==> (r matches Err(e) && exists|cause: Seq<char>|
            e@ == spec_failed_message(cause)),
{
    match &req.body {
        None => Err(LambdaError::new("No payload defined")),
        Some(body) => match decode_json(body.as_str()) {
            Ok(value) => Ok(value),
            Err(cause) => {
                let mut message = "Failed: ".to_owned();
                message.append(cause.as_str());
                let ghost cv = cause@;
                let e = LambdaError::new(message.as_str());
                proof {
                    assert(e@ == spec_failed_message(cv));
                }
                Err(e)
            },
        },
    }
}

/// Converts an inbound event into the handler's input type.  The impls
/// below cover the closed strategy set; a user type may provide its own.
pub trait AlbDeserialize<T> {
    fn from_alb_request(req: Request, ctx: Context) -> Result<T, LambdaError>;
}

impl AlbDeserialize<Request> for Request {
    /// The passthrough strategy: the handler receives the event unchanged,
    /// and this conversion never fails.
    fn from_alb_request(req: Request, _ctx: Context) -> (r: Result<Request, LambdaError>)
        ensures
            r matches Ok(v) && v == req,
    {
        Ok(req)
    }
}

/// A marker for input types whose values arrive as the JSON body of the
/// event.  A marked type's [`AlbDeserialize`] impl is one call to
/// [`decode_rpc_request`], which is the whole body-decoding strategy.
pub trait RpcRequest {}

} // verus!
