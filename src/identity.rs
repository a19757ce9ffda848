//! Caller identity: turns request credentials into a verified `AccountId`.

use std::collections::HashMap;
use vstd::prelude::*;
use vstd::string::*;
use crate::credentials::{decode_token, form_pairs, form_pairs_of, pairs_view, Claims};

verus! {

/// A credential holder, scoped to an audience (tenant).
pub struct AccountId {
    pub subject: String,
    pub audience: String,
}

impl View for AccountId {
    type V = (Seq<char>, Seq<char>);

    open spec fn view(&self) -> (Seq<char>, Seq<char>) {
        (self.subject@, self.audience@)
    }
}

/// `subject.audience`, the rendering written into trace fields.
pub open spec fn account_text(a: (Seq<char>, Seq<char>)) -> Seq<char> {
    a.0 + seq!['.'] + a.1
}

impl AccountId {
    pub fn new(subject: &str, audience: &str) -> (r: AccountId)
        ensures
            r@ == (subject@, audience@),
    {
        AccountId { subject: String::from_str(subject), audience: String::from_str(audience) }
    }

    pub fn subject(&self) -> (r: &str)
        ensures
            r@ == self.subject@,
    {
        self.subject.as_str()
    }

    pub fn audience(&self) -> (r: &str)
        ensures
            r@ == self.audience@,
    {
        self.audience.as_str()
    }

    /// Renders the identity as `subject.audience`.
    pub fn render(&self) -> (r: String)
        ensures
            r@ == account_text(self@),
    {
        proof {
            reveal_strlit(".");
        }
        let s = self.subject.clone().concat(".");
        s.concat(self.audience.as_str())
    }
}

/// One session of an account, told apart from the others by a label.
pub struct AgentId {
    pub label: String,
    pub account: AccountId,
}

impl View for AgentId {
    type V = (Seq<char>, (Seq<char>, Seq<char>));

    open spec fn view(&self) -> (Seq<char>, (Seq<char>, Seq<char>)) {
        (self.label@, self.account@)
    }
}

/// `label.subject.audience`, the rendering written into trace fields.
pub open spec fn agent_text(a: (Seq<char>, (Seq<char>, Seq<char>))) -> Seq<char> {
    a.0 + seq!['.'] + account_text(a.1)
}

impl AgentId {
    pub fn new(label: &str, account: AccountId) -> (r: AgentId)
        ensures
            r@ == (label@, account@),
    {
        AgentId { label: String::from_str(label), account }
    }

    /// Renders the identity as `label.subject.audience`.
    pub fn render(&self) -> (r: String)
        ensures
            r@ == agent_text(self@),
    {
        proof {
            reveal_strlit(".");
        }
        let s = self.label.clone().concat(".");
        let a = self.account.render();
        let r = s.concat(a.as_str());
        assert(r@ =~= agent_text(self@));
        r
    }
}

/// Number of characters in the `Bearer ` scheme prefix of an `Authorization` header.
pub const BEARER_PREFIX_LEN: usize = 7;

/// The scheme prefix of a bearer credential.
pub open spec fn bearer_prefix() -> Seq<char> {
    "Bearer "@
}

/// The token carried by an `Authorization` header value: everything after the
/// `Bearer ` prefix, or nothing when the value does not start with it.
pub open spec fn bearer_token_of(h: Seq<char>) -> Option<Seq<char>> {
    if h.len() >= BEARER_PREFIX_LEN && h.subrange(0, BEARER_PREFIX_LEN as int) == bearer_prefix() {
        Some(h.subrange(BEARER_PREFIX_LEN as int, h.len() as int))
    } else {
        None
    }
}

/// Extracts the token from an `Authorization: Bearer <token>` header value.
pub fn bearer_token(header: &str) -> (r: Option<&str>)
    ensures
        r matches Some(t) ==> bearer_token_of(header@) == Some(t@),
        r is None ==> bearer_token_of(header@) is None,
{
    proof {
        reveal_strlit("Bearer ");
    }
    let n = header.unicode_len();
    if n < BEARER_PREFIX_LEN {
        return None;
    }
    let scheme = String::from_str(header.substring_char(0, BEARER_PREFIX_LEN));
    if scheme == String::from_str("Bearer ") {
        Some(header.substring_char(BEARER_PREFIX_LEN, n))
    } else {
        None
    }
}


/// Subject given to callers admitted on a seeded identity alone.
pub open spec fn anonymous_subject() -> Seq<char> {
    "anonymous"@
}

/// Label of an agent whose request carries no `X-Agent-Label` header.
pub open spec fn default_label() -> Seq<char> {
    "http"@
}

/// Name of the query parameter that may carry a token.
pub open spec fn token_param() -> Seq<char> {
    "access_token"@
}

/// The value of the first pair at or after `i` whose name is `key`.
pub open spec fn first_value_from(pairs: Seq<(Seq<char>, Seq<char>)>, key: Seq<char>, i: int) -> Option<
    Seq<char>,
>
    decreases pairs.len() - i,
{
    if i < 0 || i >= pairs.len() {
        None
    } else if pairs[i].0 == key {
        Some(pairs[i].1)
    } else {
        first_value_from(pairs, key, i + 1)
    }
}

/// The token that a query string carries in its `access_token` parameter;
/// an empty query carries none.
pub open spec fn query_token_of(query: Seq<char>) -> Option<Seq<char>> {
    if query.len() == 0 {
        None
    } else {
        first_value_from(form_pairs_of(query), token_param(), 0)
    }
}

pub open spec fn opt_view(s: Option<&str>) -> Option<Seq<char>> {
    match s {
        Some(v) => Some(v@),
        None => None,
    }
}

/// The credential a request presents: the bearer token of its `Authorization`
/// header if there is one, else its `access_token` query parameter.
pub open spec fn presented_token(authorization: Option<Seq<char>>, query: Seq<char>) -> Option<Seq<char>> {
    match authorization {
        Some(h) => match bearer_token_of(h) {
            Some(t) => Some(t),
            None => query_token_of(query),
        },
        None => query_token_of(query),
    }
}

/// A bearer token in the `Authorization` header is the request's credential,
/// whatever the query holds.
pub proof fn lemma_header_token_wins(header: Seq<char>, query: Seq<char>)
    requires
        bearer_token_of(header) is Some,
    ensures
        presented_token(Some(header), query) == bearer_token_of(header),
{
}

/// Finds the value of the first pair named `key`.
pub fn find_form_value(pairs: &Vec<(String, String)>, key: &String) -> (r: Option<String>)
    ensures
        r matches Some(v) ==> first_value_from(pairs_view(pairs@), key@, 0) == Some(v@),
        r is None ==> first_value_from(pairs_view(pairs@), key@, 0) is None,
{
    let ghost pv = pairs_view(pairs@);
    let mut i: usize = 0;
    while i < pairs.len()
        invariant
            i <= pairs@.len(),
            pv == pairs_view(pairs@),
            pv.len() == pairs@.len(),
            first_value_from(pv, key@, 0) == first_value_from(pv, key@, i as int),
        decreases pairs.len() - i,
    {
        if pairs[i].0 == *key {
            return Some(pairs[i].1.clone());
        }
        i = i + 1;
    }
    None
}

/// The token a request presents, as `presented_token` describes.
pub fn select_token(authorization: Option<&str>, query: &str) -> (r: Option<String>)
    ensures
        r matches Some(t) ==> presented_token(opt_view(authorization), query@) == Some(t@),
        r is None ==> presented_token(opt_view(authorization), query@) is None,
{
    if let Some(h) = authorization {
        if let Some(t) = bearer_token(h) {
            return Some(String::from_str(t));
        }
    }
    let pairs = form_pairs(query);
    let key = String::from_str("access_token");
    find_form_value(&pairs, &key)
}

/// Why a request could not be given an identity. Both are answered with 401.
pub enum AuthnError {
    /// No verification configuration was reachable: a wiring defect.
    NoAuthnConfig,
    /// No usable credential. `detail` holds the verifier's diagnostics, for
    /// logs only; callers are shown the generic message.
    InvalidAuthentication { detail: String },
}

impl AuthnError {
    /// Machine-readable code of the failure.
    pub fn code(&self) -> (r: &'static str)
        ensures
            self is NoAuthnConfig ==> r@ == "no_authn_config"@,
            self is InvalidAuthentication ==> r@ == "invalid_authentication"@,
    {
        match self {
            AuthnError::NoAuthnConfig => "no_authn_config",
            AuthnError::InvalidAuthentication { .. } => "invalid_authentication",
        }
    }

    /// Human-readable message shown to the caller.
    pub fn message(&self) -> (r: &'static str)
        ensures
            self is NoAuthnConfig ==> r@ == "No authn config"@,
            self is InvalidAuthentication ==> r@ == "Invalid authentication"@,
    {
        match self {
            AuthnError::NoAuthnConfig => "No authn config",
            AuthnError::InvalidAuthentication { .. } => "Invalid authentication",
        }
    }

    /// HTTP status of the response that reports the failure.
    pub fn status(&self) -> (r: u16)
        ensures
            r == 401,
    {
        401
    }
}

/// Request-scoped trace fields that identity resolution fills in.
pub struct TraceContext {
    pub account_id: Option<String>,
    pub agent_id: Option<String>,
}

pub open spec fn opt_string_view(s: Option<String>) -> Option<Seq<char>> {
    match s {
        Some(v) => Some(v@),
        None => None,
    }
}

impl View for TraceContext {
    type V = (Option<Seq<char>>, Option<Seq<char>>);

    open spec fn view(&self) -> (Option<Seq<char>>, Option<Seq<char>>) {
        (opt_string_view(self.account_id), opt_string_view(self.agent_id))
    }
}

impl TraceContext {
    pub fn new() -> (r: TraceContext)
        ensures
            r@ == (None::<Seq<char>>, None::<Seq<char>>),
    {
        TraceContext { account_id: None, agent_id: None }
    }
}

/// Turns the verifier's verdict into an identity: the claims' subject and
/// audience, recorded in the trace; or a failure that keeps the verifier's
/// diagnostics for logging and leaves the trace alone.
pub fn account_from_verdict(verdict: Result<Claims, svc_authn::Error>, trace: &mut TraceContext) -> (r:
    Result<AccountId, AuthnError>)
    ensures
        verdict is Ok ==> (r matches Ok(a) && a@ == verdict->Ok_0@ && final(trace)@ == (
            Some(account_text(a@)),
            old(trace)@.1,
        )),
        verdict is Err ==> (r matches Err(e) && e is InvalidAuthentication && final(trace)@ == old(
            trace,
        )@),
{
    match verdict {
        Ok(c) => {
            let a = AccountId { subject: c.subject, audience: c.audience };
            trace.account_id = Some(a.render());
            Ok(a)
        },
        Err(e) => Err(AuthnError::InvalidAuthentication { detail: e.to_string() }),
    }
}

/// Resolves the caller of a request into an `AccountId`.
pub struct AccountIdExtractor(pub AccountId);

impl AccountIdExtractor {
    /// Checks for a configuration, then takes the first credential of: the
    /// bearer token of `authorization`, the `access_token` parameter of
    /// `query`, a `seeded` identity from a trusted upstream stage (which admits
    /// an anonymous caller of its audience). A token goes to the verifier; a
    /// verified one is recorded in `trace`.
    pub fn resolve(
        config: Option<&HashMap<String, svc_authn::jose::Config>>,
        authorization: Option<&str>,
        query: &str,
        seeded: Option<&AccountId>,
        trace: &mut TraceContext,
    ) -> (r: Result<AccountIdExtractor, AuthnError>)
        ensures
            config is None ==> (r matches Err(e) && e is NoAuthnConfig),
            config is Some && presented_token(opt_view(authorization), query@) is None && seeded is None
                ==> (r matches Err(e) && e is InvalidAuthentication),
            config is Some && presented_token(opt_view(authorization), query@) is None
                && seeded is Some ==> (r matches Ok(x) && x.0@ == (
                anonymous_subject(),
                seeded->Some_0.audience@,
            )),
            config is Some && presented_token(opt_view(authorization), query@) is Some ==> (r matches Ok(
                x,
            ) ==> final(trace)@ == (Some(account_text(x.0@)), old(trace)@.1)) && (r matches Err(e)
                ==> e is InvalidAuthentication),
            !(config is Some && presented_token(opt_view(authorization), query@) is Some && r is Ok)
                ==> final(trace)@ == old(trace)@,
    {
        let config = match config {
            Some(c) => c,
            None => return Err(AuthnError::NoAuthnConfig),
        };
        match select_token(authorization, query) {
            Some(token) => {
                let verdict = decode_token(token.as_str(), config);
                match account_from_verdict(verdict, trace) {
                    Ok(a) => Ok(AccountIdExtractor(a)),
                    Err(e) => Err(e),
                }
            },
            None => match seeded {
                Some(s) => Ok(AccountIdExtractor(AccountId::new("anonymous", s.audience()))),
                None => Err(AuthnError::InvalidAuthentication { detail: String::from_str("no credential") }),
            },
        }
    }
}

/// Resolves the caller of a request into an `AgentId`.
pub struct AgentIdExtractor(pub AgentId);

pub open spec fn label_of(header: Option<Seq<char>>) -> Seq<char> {
    match header {
        Some(l) => l,
        None => default_label(),
    }
}

impl AgentIdExtractor {
    /// Makes the agent of a resolved account: `label` with that account,
    /// recorded in `trace`. A failed resolution is handed on with the trace
    /// left alone.
    pub fn from_account(
        label: &str,
        account: Result<AccountIdExtractor, AuthnError>,
        trace: &mut TraceContext,
    ) -> (r: Result<AgentIdExtractor, AuthnError>)
        ensures
            account is Ok ==> (r matches Ok(x) && x.0@ == (label@, account->Ok_0.0@) && final(trace)@
                == (old(trace)@.0, Some(agent_text(x.0@)))),
            account is Err ==> (r is Err && r->Err_0 == account->Err_0 && final(trace)@ == old(
                trace,
            )@),
    {
        match account {
            Ok(AccountIdExtractor(a)) => {
                let agent = AgentId::new(label, a);
                trace.agent_id = Some(agent.render());
                Ok(AgentIdExtractor(agent))
            },
            Err(e) => Err(e),
        }
    }

    /// Takes the label from `label_header` (`http` when absent), resolves the
    /// account as `AccountIdExtractor::resolve` does, and hands both to
    /// `from_account`.
    pub fn resolve(
        label_header: Option<&str>,
        config: Option<&HashMap<String, svc_authn::jose::Config>>,
        authorization: Option<&str>,
        query: &str,
        seeded: Option<&AccountId>,
        trace: &mut TraceContext,
    ) -> (r: Result<AgentIdExtractor, AuthnError>)
        ensures
            config is None ==> (r matches Err(e) && e is NoAuthnConfig),
            config is Some && presented_token(opt_view(authorization), query@) is None && seeded is None
                ==> (r matches Err(e) && e is InvalidAuthentication),
            config is Some && presented_token(opt_view(authorization), query@) is None
                && seeded is Some ==> (r matches Ok(x) && x.0@ == (
                label_of(opt_view(label_header)),
                (anonymous_subject(), seeded->Some_0.audience@),
            ) && final(trace)@ == (old(trace)@.0, Some(agent_text(x.0@)))),
            config is Some && presented_token(opt_view(authorization), query@) is Some ==> (r matches Ok(
                x,
            ) ==> x.0@.0 == label_of(opt_view(label_header)) && final(trace)@ == (
                Some(account_text(x.0@.1)),
                Some(agent_text(x.0@)),
            )) && (r matches Err(e) ==> e is InvalidAuthentication),
            r is Err ==> final(trace)@ == old(trace)@,
    {
        let label = match label_header {
            Some(l) => l,
            None => "http",
        };
        let account = AccountIdExtractor::resolve(config, authorization, query, seeded, trace);
        AgentIdExtractor::from_account(label, account, trace)
    }
}

} // verus!
