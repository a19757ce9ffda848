use svc_utils::body_limit::BodyLimitLayer;
use svc_utils::cors::{CorsLayer, CORS_MAX_AGE_SECS};
use svc_utils::log::{LogLayer, OnResp, SpanMaker};

#[test]
fn body_limit_rejects_only_oversized_known_bodies() {
    let mw = BodyLimitLayer::new(100).layer(());
    assert_eq!(mw.body_size_limit, 100);
    assert!(!mw.rejects(None));
    assert!(!mw.rejects(Some(100)));
    assert!(mw.rejects(Some(101)));
}

#[test]
fn cors_policy() {
    let c = CorsLayer::new();
    assert_eq!(c.allowed_methods(), vec!["GET", "PUT", "POST", "PATCH", "DELETE"]);
    assert!(c.allowed_headers().contains(&"x-agent-label"));
    assert_eq!(c.allowed_headers().len(), 7);
    assert_eq!(c.max_age_secs(), CORS_MAX_AGE_SECS);
    assert_eq!(CORS_MAX_AGE_SECS, 3600);
}

#[test]
fn log_records_body_size_of_body_methods() {
    let _ = LogLayer::new();
    assert!(!SpanMaker.records_body_size("GET"));
    assert!(!SpanMaker.records_body_size("OPTIONS"));
    assert!(SpanMaker.records_body_size("POST"));
}

#[test]
fn log_marks_error_statuses() {
    assert!(!OnResp.logs_as_error(200));
    assert!(!OnResp.logs_as_error(399));
    assert!(OnResp.logs_as_error(400));
    assert!(OnResp.logs_as_error(599));
    assert!(!OnResp.logs_as_error(600));
}
