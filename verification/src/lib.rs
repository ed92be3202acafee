//! A small, verified core for an AWS Lambda custom runtime.
//!
//! The crate models the invocation cycle of a single-invocation execution
//! environment: a control-plane client fetches the next event, an execution
//! context is extracted from the response headers, the event is handed to a
//! handler through a closed set of serialize/deserialize strategies, and the
//! outcome is published back to the control plane.  Everything that decides
//! or computes lives here with a contract; transport and other I/O stay with
//! the embedding application.

pub mod context;
pub mod deserializer;
pub mod error;
pub mod lambda_api;
pub mod request;
pub mod response;
pub mod runtime;
pub mod serializer;
pub mod text;

pub use context::Config;
pub use context::Context;
pub use deserializer::AlbDeserialize;
pub use deserializer::RpcRequest;
pub use error::Error;
pub use error::LambdaError;
pub use error::LambdaResult;
pub use lambda_api::PublishErrorRequest;
pub use request::Request;
pub use response::Response;
pub use runtime::RuntimeResult;
pub use serializer::AlbSerialize;
