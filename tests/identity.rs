use std::collections::HashMap;

use svc_utils::credentials::Claims;
use svc_utils::identity::{
    account_from_verdict, bearer_token, find_form_value, select_token, AccountId,
    AccountIdExtractor, AgentId, AgentIdExtractor, AuthnError, TraceContext,
};

fn empty_config() -> HashMap<String, svc_authn::jose::Config> {
    HashMap::new()
}

fn claims(subject: &str, audience: &str) -> Claims {
    Claims { subject: subject.to_string(), audience: audience.to_string() }
}

#[test]
fn bearer_token_strips_scheme() {
    assert_eq!(bearer_token("Bearer abc.def"), Some("abc.def"));
    assert_eq!(bearer_token("Bearer "), Some(""));
    assert_eq!(bearer_token("Bearer"), None);
    assert_eq!(bearer_token(""), None);
    assert_eq!(bearer_token("Basic abcdefg"), None);
    assert_eq!(bearer_token("bearer abc"), None);
}

#[test]
fn non_bearer_header_falls_back_to_query() {
    let t = select_token(Some("Basic abcdefg"), "access_token=q");
    assert_eq!(t, Some("q".to_string()));
    assert_eq!(select_token(Some("Basic abcdefg"), ""), None);
}

#[test]
fn non_bearer_header_falls_back_to_seed() {
    let config = empty_config();
    let seed = AccountId::new("someone", "a2");
    let mut trace = TraceContext::new();
    let r = AccountIdExtractor::resolve(Some(&config), Some("Basic abcdefg"), "", Some(&seed), &mut trace);
    let AccountIdExtractor(a) = r.ok().unwrap();
    assert_eq!(a.subject(), "anonymous");
    assert_eq!(a.audience(), "a2");
}

#[test]
fn agent_from_resolved_account() {
    let mut trace = TraceContext::new();
    let account = Ok(AccountIdExtractor(AccountId::new("u1", "a1")));
    let AgentIdExtractor(g) = AgentIdExtractor::from_account("web", account, &mut trace).ok().unwrap();
    assert_eq!(g.label, "web");
    assert_eq!(g.account.subject, "u1");
    assert_eq!(g.account.audience, "a1");
    assert_eq!(trace.agent_id, Some("web.u1.a1".to_string()));
}

#[test]
fn agent_from_failed_account() {
    let mut trace = TraceContext::new();
    let account = Err(AuthnError::NoAuthnConfig);
    let r = AgentIdExtractor::from_account("web", account, &mut trace);
    assert_eq!(r.err().unwrap().code(), "no_authn_config");
    assert_eq!(trace.agent_id, None);
}

#[test]
fn header_token_takes_precedence_over_query() {
    let t = select_token(Some("Bearer from-header"), "access_token=from-query");
    assert_eq!(t, Some("from-header".to_string()));
}

#[test]
fn query_token_used_without_header() {
    let t = select_token(None, "a=1&access_token=from-query&access_token=second");
    assert_eq!(t, Some("from-query".to_string()));
}

#[test]
fn query_token_is_percent_decoded() {
    let t = select_token(None, "access_token=a%2Bb+c");
    assert_eq!(t, Some("a+b c".to_string()));
}

#[test]
fn short_header_falls_back_to_query() {
    let t = select_token(Some("Bear"), "access_token=q");
    assert_eq!(t, Some("q".to_string()));
}

#[test]
fn no_token_anywhere() {
    assert_eq!(select_token(None, ""), None);
    assert_eq!(select_token(None, "other=1"), None);
}

#[test]
fn find_form_value_takes_first_match() {
    let pairs = vec![
        ("a".to_string(), "1".to_string()),
        ("k".to_string(), "2".to_string()),
        ("k".to_string(), "3".to_string()),
    ];
    assert_eq!(find_form_value(&pairs, &"k".to_string()), Some("2".to_string()));
    assert_eq!(find_form_value(&pairs, &"z".to_string()), None);
}

#[test]
fn verified_claims_become_account_and_trace() {
    let mut trace = TraceContext::new();
    let a = account_from_verdict(Ok(claims("u1", "a1")), &mut trace).ok().unwrap();
    assert_eq!(a.subject(), "u1");
    assert_eq!(a.audience(), "a1");
    assert_eq!(trace.account_id, Some("u1.a1".to_string()));
    assert_eq!(trace.agent_id, None);
}

#[test]
fn same_claims_resolve_identically() {
    let mut t1 = TraceContext::new();
    let mut t2 = TraceContext::new();
    let a = account_from_verdict(Ok(claims("u1", "a1")), &mut t1).ok().unwrap();
    let b = account_from_verdict(Ok(claims("u1", "a1")), &mut t2).ok().unwrap();
    assert_eq!(a.subject, b.subject);
    assert_eq!(a.audience, b.audience);
    assert_eq!(t1.account_id, t2.account_id);
}

#[test]
fn failed_verification_is_invalid_authentication() {
    let mut trace = TraceContext::new();
    let r = account_from_verdict(Err(svc_authn::Error::new("token expired")), &mut trace);
    match r {
        Err(AuthnError::InvalidAuthentication { detail }) => assert_eq!(detail, "token expired"),
        _ => panic!("expected invalid authentication"),
    }
    assert_eq!(trace.account_id, None);
}

#[test]
fn missing_config_is_reported() {
    let mut trace = TraceContext::new();
    let r = AccountIdExtractor::resolve(None, Some("Bearer x"), "", None, &mut trace);
    let e = r.err().unwrap();
    assert_eq!(e.code(), "no_authn_config");
    assert_eq!(e.message(), "No authn config");
    assert_eq!(e.status(), 401);
}

#[test]
fn no_credential_no_seed_fails() {
    let config = empty_config();
    let mut trace = TraceContext::new();
    let r = AccountIdExtractor::resolve(Some(&config), None, "", None, &mut trace);
    let e = r.err().unwrap();
    assert_eq!(e.code(), "invalid_authentication");
    assert_eq!(e.message(), "Invalid authentication");
    assert_eq!(trace.account_id, None);
}

#[test]
fn seeded_identity_gives_anonymous_of_its_audience() {
    let config = empty_config();
    let seed = AccountId::new("someone", "a2");
    let mut trace = TraceContext::new();
    let r = AccountIdExtractor::resolve(Some(&config), None, "", Some(&seed), &mut trace);
    let AccountIdExtractor(a) = r.ok().unwrap();
    assert_eq!(a.subject(), "anonymous");
    assert_eq!(a.audience(), "a2");
}

#[test]
fn malformed_token_is_rejected() {
    let config = empty_config();
    let seed = AccountId::new("someone", "a2");
    let mut trace = TraceContext::new();
    let r = AccountIdExtractor::resolve(Some(&config), Some("Bearer not-a-jwt"), "", Some(&seed), &mut trace);
    assert_eq!(r.err().unwrap().code(), "invalid_authentication");
    assert_eq!(trace.account_id, None);
}

#[test]
fn agent_label_defaults_to_http() {
    let config = empty_config();
    let seed = AccountId::new("someone", "a2");
    let mut trace = TraceContext::new();
    let r = AgentIdExtractor::resolve(None, Some(&config), None, "", Some(&seed), &mut trace);
    let AgentIdExtractor(g) = r.ok().unwrap();
    assert_eq!(g.label, "http");
    assert_eq!(g.render(), "http.anonymous.a2");
    assert_eq!(trace.agent_id, Some("http.anonymous.a2".to_string()));
}

#[test]
fn agent_label_from_header() {
    let config = empty_config();
    let seed = AccountId::new("someone", "a2");
    let mut trace = TraceContext::new();
    let r = AgentIdExtractor::resolve(Some("web"), Some(&config), None, "", Some(&seed), &mut trace);
    let AgentIdExtractor(g) = r.ok().unwrap();
    assert_eq!(g.render(), "web.anonymous.a2");
}

#[test]
fn agent_resolution_fails_without_credential() {
    let config = empty_config();
    let mut trace = TraceContext::new();
    let r = AgentIdExtractor::resolve(Some("web"), Some(&config), None, "", None, &mut trace);
    assert_eq!(r.err().unwrap().code(), "invalid_authentication");
    assert_eq!(trace.agent_id, None);
}

#[test]
fn identities_render_with_dots() {
    let a = AccountId::new("u1", "a1");
    assert_eq!(a.render(), "u1.a1");
    let g = AgentId::new("web", a);
    assert_eq!(g.render(), "web.u1.a1");
}
