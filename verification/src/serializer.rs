//! Serialization of handler outcomes into normalized responses.
//!
//! The dispatch is a closed set of strategies: a ready response passes
//! through unchanged, a runtime error becomes a plain-text `500`, a result
//! becomes a JSON `200` or an `Internal Server Error` report, and any other
//! serializable value becomes a JSON `200`.  Turning an outcome into a
//! response always succeeds: serialization failures degrade into a `500`
//! response instead of raising.

use vstd::prelude::*;

use crate::error::Error;
use crate::error::LambdaError;
use crate::response::BodyView;
use crate::response::HeaderMode;
use crate::response::Response;
use crate::response::ResponseView;
use crate::response::create_json_from_obj;
use crate::response::create_plain_text;
use crate::response::from_serialized;
use crate::response::spec_create_plain_text;
use crate::response::spec_from_serialized;
use crate::response::spec_outcome_view;

verus! {

/// Relies on core::fmt's `Debug` formatting: renders a value as its debug
/// text.  Which text comes back is not stated; callers work with whatever
/// text arrives.
#[verifier::external_body]
pub(crate) fn debug_text_of<T: core::fmt::Debug>(value: &T) -> (text: String) {
    format!("{:?}", value)
}

/// The body reporting a handler failure: a fixed prefix, then the failure's
/// debug text.
pub open spec fn spec_internal_error_body(debug_text: Seq<char>) -> Seq<char> {
    "Internal Server Error: "@ + debug_text
}

/// Builds the plain-text `500` response reporting a handler failure.
pub fn internal_error_response(mode: HeaderMode, debug_text: &str) -> (r: Response)
    ensures
        r@ == spec_create_plain_text(mode, 500, Some(spec_internal_error_body(debug_text@))),
{
    let mut body = "Internal Server Error: ".to_owned();
    body.append(debug_text);
    create_plain_text(mode, 500, Some(body))
}

/// A handler outcome, normalized into the closed set of strategies the
/// serializer knows.  Values that need serde have already been run through
/// it; this type carries only the outcome.
pub enum HandlerOutput {
    /// The handler built a response itself; it passes through unchanged.
    Raw(Response),
    /// The handler surfaced a runtime error.
    Fault(Error),
    /// The handler returned a result: success carries the serialization
    /// outcome of its value, failure the debug text of its cause.
    Outcome(Result<Result<String, String>, String>),
    /// Any other serializable value, as its serialization outcome.
    Value(Result<String, String>),
}

/// What each strategy produces.
pub open spec fn spec_handler_response(mode: HeaderMode, out: HandlerOutput) -> ResponseView {
    match out {
        HandlerOutput::Raw(response) => response@,
        HandlerOutput::Fault(cause) => spec_create_plain_text(mode, 500, Some(cause@)),
        HandlerOutput::Outcome(result) => match result {
            Ok(outcome) => spec_from_serialized(mode, 200, spec_outcome_view(outcome)),
            Err(debug_text) => spec_create_plain_text(
                mode,
                500,
                Some(spec_internal_error_body(debug_text@)),
            ),
        },
        HandlerOutput::Value(outcome) => spec_from_serialized(mode, 200, spec_outcome_view(outcome)),
    }
}

/// Turns a normalized handler outcome into a response.  This function never
/// fails: every branch, the serialization-failure ones included, yields a
/// well-formed response.
pub fn to_response(mode: HeaderMode, out: &HandlerOutput) -> (r: Response)
    ensures
        r@ == spec_handler_response(mode, *out),
{
    match out {
        HandlerOutput::Raw(response) => response.duplicate(),
        HandlerOutput::Fault(cause) => create_plain_text(
            mode,
            500,
            Some(cause.message().to_owned()),
        ),
        HandlerOutput::Outcome(result) => match result {
            Ok(Ok(serialized)) => from_serialized(mode, 200, Ok(serialized.clone())),
            Ok(Err(message)) => from_serialized(mode, 200, Err(message.clone())),
            Err(debug_text) => internal_error_response(mode, debug_text.as_str()),
        },
        HandlerOutput::Value(Ok(serialized)) => from_serialized(mode, 200, Ok(serialized.clone())),
        HandlerOutput::Value(Err(message)) => from_serialized(mode, 200, Err(message.clone())),
    }
}

/// Law: a result whose value serialized to `serialized` yields status 200
/// and a body equal to exactly that serialized text, declared as JSON.
pub proof fn lemma_ok_result_round_trip(mode: HeaderMode, serialized: Seq<char>)
    ensures
        spec_from_serialized(mode, 200, Ok(serialized)).status_code == 200,
        spec_from_serialized(mode, 200, Ok(serialized)).body == Some(BodyView::Text(serialized)),
{
}

/// Law: a failed result yields status 500 and a plain-text body that carries
/// the failure's debug text after a fixed prefix.
pub proof fn lemma_err_result_reports_cause(mode: HeaderMode, debug_text: Seq<char>)
    ensures
        spec_create_plain_text(
            mode,
            500,
            Some(spec_internal_error_body(debug_text)),
        ).status_code == 500,
        spec_create_plain_text(mode, 500, Some(spec_internal_error_body(debug_text))).body == Some(
            BodyView::Text("Internal Server Error: "@ + debug_text),
        ),
{
}

/// Serialize ordinary structures and enums into a valid load-balancer
/// response.  The impls below cover the closed strategy set; a user type may
/// provide its own.
pub trait AlbSerialize {
    fn to_alb_response(&self) -> Response;
}

impl AlbSerialize for Response {
    /// The passthrough strategy: the response comes back unchanged.
    fn to_alb_response(&self) -> (r: Response)
        ensures
            r@ == self@,
    {
        self.duplicate()
    }
}

impl AlbSerialize for Error {
    /// The error-carrier strategy: a plain-text `500` with the message.
    fn to_alb_response(&self) -> (r: Response)
        ensures
            r@ == spec_create_plain_text(HeaderMode::Multi, 500, Some(self@)),
    {
        create_plain_text(HeaderMode::Multi, 500, Some(self.message().to_owned()))
    }
}

impl AlbSerialize for LambdaError {
    /// The error-carrier strategy: a plain-text `500` with the message.
    fn to_alb_response(&self) -> (r: Response)
        ensures
            r@ == spec_create_plain_text(HeaderMode::Multi, 500, Some(self@)),
    {
        create_plain_text(HeaderMode::Multi, 500, Some(self.message().to_owned()))
    }
}

/// Turns a handler result into a response: a success is serialized as a
/// JSON `200`, a failure reported as a plain-text `500` carrying its debug
/// text.  This covers what the blanket result strategy of the dispatch does.
pub fn result_to_alb_response<T: serde::Serialize, E: core::fmt::Debug>(
    result: &Result<T, E>,
    mode: HeaderMode,
) -> (r: Response)
    ensures
        result is Ok ==> exists|outcome: Result<Seq<char>, Seq<char>>|
            r@ == spec_from_serialized(mode, 200, outcome),
        result is Err ==> exists|debug_text: Seq<char>|
            r@ == spec_create_plain_text(mode, 500, Some(spec_internal_error_body(debug_text))),
{
    match result {
        Ok(value) => create_json_from_obj(mode, 200, value),
        Err(cause) => {
            let text = debug_text_of(cause);
            let r = internal_error_response(mode, text.as_str());
            proof {
                assert(r@ == spec_create_plain_text(
                    mode,
                    500,
                    Some(spec_internal_error_body(text@)),
                ));
            }
            r
        },
    }
}

impl AlbSerialize for Result<(), Error> {
    /// The result strategy: a serialized JSON `200` on success, a `500`
    /// report carrying the failure's debug text otherwise.
    fn to_alb_response(&self) -> (r: Response)
        ensures
            self is Ok ==> exists|outcome: Result<Seq<char>, Seq<char>>|
                r@ == spec_from_serialized(HeaderMode::Multi, 200, outcome),
            self is Err ==> exists|debug_text: Seq<char>|
                r@ == spec_create_plain_text(
                    HeaderMode::Multi,
                    500,
                    Some(spec_internal_error_body(debug_text)),
                ),
    {
        result_to_alb_response(self, HeaderMode::Multi)
    }
}

impl AlbSerialize for Result<(), LambdaError> {
    /// The result strategy: a serialized JSON `200` on success, a `500`
    /// report carrying the failure's debug text otherwise.
    fn to_alb_response(&self) -> (r: Response)
        ensures
            self is Ok ==> exists|outcome: Result<Seq<char>, Seq<char>>|
                r@ == spec_from_serialized(HeaderMode::Multi, 200, outcome),
            self is Err ==> exists|debug_text: Seq<char>|
                r@ == spec_create_plain_text(
                    HeaderMode::Multi,
                    500,
                    Some(spec_internal_error_body(debug_text)),
                ),
    {
        result_to_alb_response(self, HeaderMode::Multi)
    }
}

} // verus!
