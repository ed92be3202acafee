//! Error values surfaced while driving the invocation cycle.

use vstd::prelude::*;

verus! {

/// An error raised while talking to the control plane or while running a
/// handler.  It carries nothing but a message: the surrounding runtime only
/// ever reports errors, it never branches on their structure.
#[derive(Debug)]
pub struct Error(String);

impl View for Error {
    type V = Seq<char>;

    closed spec fn view(&self) -> Seq<char> {
        self.0@
    }
}

impl Error {
    /// Wraps a message into an error.
    pub fn new(msg: &str) -> (e: Error)
        ensures
            e@ == msg@,
    {
        Error(msg.to_owned())
    }

    /// The message this error carries.
    pub fn message(&self) -> (m: &str)
        ensures
            m@ == self@,
    {
        self.0.as_str()
    }
}

impl From<String> for Error {
    fn from(s: String) -> Error {
        Error(s)
    }
}

impl vstd::std_specs::convert::FromSpecImpl<String> for Error {
    closed spec fn obeys_from_spec() -> bool {
        true
    }

    closed spec fn from_spec(s: String) -> Error {
        Error(s)
    }
}

impl From<&str> for Error {
    fn from(s: &str) -> Error {
        Error(s.to_owned())
    }
}

impl vstd::std_specs::convert::FromSpecImpl<&str> for Error {
    closed spec fn obeys_from_spec() -> bool {
        // `from` allocates a fresh `String`; only its view is known, so no
        // exact result value can be promised here.  Verified code uses
        // `Error::new`, whose contract does pin the view.
        false
    }

    closed spec fn from_spec(s: &str) -> Error {
        arbitrary()
    }
}

/// The result of a handler that may fail with a [`LambdaError`].
pub type LambdaResult<T> = Result<T, LambdaError>;

/// An error raised by a handler behind the load-balancer adaptation layer.
/// Like [`Error`] it is a message carrier; the two types are kept apart so
/// that a control-plane failure can never be mistaken for a handler failure.
#[derive(Debug)]
pub struct LambdaError(String);

impl View for LambdaError {
    type V = Seq<char>;

    closed spec fn view(&self) -> Seq<char> {
        self.0@
    }
}

impl LambdaError {
    /// Wraps a message into a handler error.
    pub fn new(msg: &str) -> (e: LambdaError)
        ensures
            e@ == msg@,
    {
        LambdaError(msg.to_owned())
    }

    /// The message this error carries.
    pub fn message(&self) -> (m: &str)
        ensures
            m@ == self@,
    {
        self.0.as_str()
    }
}

impl From<String> for LambdaError {
    fn from(s: String) -> LambdaError {
        LambdaError(s)
    }
}

impl vstd::std_specs::convert::FromSpecImpl<String> for LambdaError {
    closed spec fn obeys_from_spec() -> bool {
        true
    }

    closed spec fn from_spec(s: String) -> LambdaError {
        LambdaError(s)
    }
}

impl From<&str> for LambdaError {
    fn from(s: &str) -> LambdaError {
        LambdaError(s.to_owned())
    }
}

impl vstd::std_specs::convert::FromSpecImpl<&str> for LambdaError {
    closed spec fn obeys_from_spec() -> bool {
        false
    }

    closed spec fn from_spec(s: &str) -> LambdaError {
        arbitrary()
    }
}

} // verus!
