//! What the request log records of each request and response.

use vstd::prelude::*;

verus! {

/// Wraps services in request logging.
#[derive(Clone, Copy)]
pub struct LogLayer;

impl LogLayer {
    pub fn new() -> (r: LogLayer) {
        LogLayer
    }
}

/// Opens the span of a request.
#[derive(Clone, Copy, Debug)]
pub struct SpanMaker;

impl SpanMaker {
    /// Whether the span of a `method` request records the body size: every
    /// method but `GET` and `OPTIONS`, which carry no body.
    pub fn records_body_size(&self, method: &str) -> (r: bool)
        ensures
            r == (method@ != "GET"@ && method@ != "OPTIONS"@),
    {
        let m = String::from_str(method);
        !(m == String::from_str("GET") || m == String::from_str("OPTIONS"))
    }
}

/// Logs each response.
#[derive(Clone, Copy, Debug)]
pub struct OnResp;

impl OnResp {
    /// Whether a response of status `status` is logged as an error: client
    /// and server errors, 400 to 599.
    pub fn logs_as_error(&self, status: u16) -> (r: bool)
        ensures
            r == (400 <= status < 600),
    {
        400 <= status && status < 600
    }
}

} // verus!
