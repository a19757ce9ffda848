//! The cross-origin policy that services answer preflight requests with.

use vstd::prelude::*;

verus! {

/// Methods a cross-origin request may use.
pub open spec fn cors_methods() -> Seq<Seq<char>> {
    seq!["GET"@, "PUT"@, "POST"@, "PATCH"@, "DELETE"@]
}

/// Request headers a cross-origin request may carry.
pub open spec fn cors_headers() -> Seq<Seq<char>> {
    seq![
        "authorization"@,
        "content-type"@,
        "ulms-app-audience"@,
        "ulms-scope"@,
        "ulms-app-version"@,
        "ulms-app-label"@,
        "x-agent-label"@,
    ]
}

/// Seconds for which a preflight answer may be cached.
pub const CORS_MAX_AGE_SECS: u64 = 3600;

/// The cross-origin policy: any origin, the methods and headers above.
#[derive(Clone, Copy)]
pub struct CorsLayer;

pub open spec fn str_views(v: Seq<&'static str>) -> Seq<Seq<char>> {
    v.map_values(|s: &'static str| s@)
}

impl CorsLayer {
    pub fn new() -> (r: CorsLayer) {
        CorsLayer
    }

    /// Methods a cross-origin request may use.
    pub fn allowed_methods(&self) -> (r: Vec<&'static str>)
        ensures
            str_views(r@) == cors_methods(),
    {
        let r = vec!["GET", "PUT", "POST", "PATCH", "DELETE"];
        assert(str_views(r@) =~= cors_methods());
        r
    }

    /// Request headers a cross-origin request may carry.
    pub fn allowed_headers(&self) -> (r: Vec<&'static str>)
        ensures
            str_views(r@) == cors_headers(),
    {
        let r = vec![
            "authorization",
            "content-type",
            "ulms-app-audience",
            "ulms-scope",
            "ulms-app-version",
            "ulms-app-label",
            "x-agent-label",
        ];
        assert(str_views(r@) =~= cors_headers());
        r
    }

    /// Seconds for which a preflight answer may be cached.
    pub fn max_age_secs(&self) -> (r: u64)
        ensures
            r == CORS_MAX_AGE_SECS,
    {
        CORS_MAX_AGE_SECS
    }
}

} // verus!
