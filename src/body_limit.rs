//! Rejection of requests whose declared body size exceeds a limit.

use vstd::prelude::*;

verus! {

/// An inner service guarded by a body size limit.
pub struct Middleware<S> {
    pub body_size_limit: u64,
    pub service: S,
}

impl<S> Middleware<S> {
    /// Whether a request whose body declares exactly `exact_size` bytes is
    /// refused (413) instead of reaching the inner service. A body of unknown
    /// size is let through.
    pub fn rejects(&self, exact_size: Option<u64>) -> (r: bool)
        ensures
            r == (exact_size matches Some(n) && n > self.body_size_limit),
    {
        match exact_size {
            Some(n) => n > self.body_size_limit,
            None => false,
        }
    }
}

/// Wraps services in a `Middleware` with a fixed limit.
pub struct BodyLimitLayer {
    pub body_size_limit: u64,
}

impl BodyLimitLayer {
    pub fn new(body_size_limit: u64) -> (r: BodyLimitLayer)
        ensures
            r.body_size_limit == body_size_limit,
    {
        BodyLimitLayer { body_size_limit }
    }

    /// Guards `service` by the layer's limit.
    pub fn layer<S>(&self, service: S) -> (r: Middleware<S>)
        ensures
            r.body_size_limit == self.body_size_limit,
            r.service == service,
    {
        Middleware { body_size_limit: self.body_size_limit, service }
    }
}

} // verus!
