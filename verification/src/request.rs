//! The inbound event envelope handed over by the load balancer: an optional
//! body, both header representations, and query parameters.

use vstd::prelude::*;

verus! {

/// One load-balancer event, as plain values.  The embedding application
/// converts the wire event into this shape before handing it to the
/// deserialization strategies.
pub struct Request {
    pub http_method: String,
    pub path: Option<String>,
    pub query_string_parameters: Vec<(String, String)>,
    pub multi_value_query_string_parameters: Vec<(String, Vec<String>)>,
    pub headers: Vec<(String, String)>,
    pub multi_value_headers: Vec<(String, Vec<String>)>,
    pub target_group_arn: Option<String>,
    pub is_base64_encoded: bool,
    pub body: Option<String>,
}

} // verus!
