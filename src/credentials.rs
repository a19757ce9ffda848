//! The outside pieces that identity resolution relies on: query-string
//! decoding and token verification.

use std::collections::HashMap;
use vstd::prelude::*;

verus! {

/// Verification settings of one token issuer (accepted audiences, algorithm, key).
#[verifier::external_type_specification]
#[verifier::external_body]
pub struct ExIssuerConfig(svc_authn::jose::Config);

/// Why a token did not verify.
#[verifier::external_type_specification]
#[verifier::external_body]
pub struct ExVerifyError(svc_authn::Error);

/// Decoded claims of a verified credential.
pub struct Claims {
    pub subject: String,
    pub audience: String,
}

impl View for Claims {
    type V = (Seq<char>, Seq<char>);

    open spec fn view(&self) -> (Seq<char>, Seq<char>) {
        (self.subject@, self.audience@)
    }
}

/// Name and value views of decoded query pairs.
pub open spec fn pairs_view(pairs: Seq<(String, String)>) -> Seq<(Seq<char>, Seq<char>)> {
    pairs.map_values(|p: (String, String)| (p.0@, p.1@))
}

/// The name/value pairs that `application/x-www-form-urlencoded` decoding finds in a query.
pub uninterp spec fn form_pairs_of(query: Seq<char>) -> Seq<(Seq<char>, Seq<char>)>;

/// Relies on `url::form_urlencoded::parse`: the decoded pairs of the query, in
/// order; an empty query holds none.
#[verifier::external_body]
pub(crate) fn form_pairs(query: &str) -> (r: Vec<(String, String)>)
    ensures
        pairs_view(r@) == form_pairs_of(query@),
        query@.len() == 0 ==> r@.len() == 0,
{
    url::form_urlencoded::parse(query.as_bytes()).map(|(k, v)| (k.into_owned(), v.into_owned())).collect()
}

/// Relies on `svc_authn`'s `decode_jws_compact_with_config`: checks a compact
/// JWS against the configuration of its issuer (audience, algorithm, key,
/// expiry) and hands back its subject and audience. The outcome depends on the
/// clock, so nothing is promised of it.
#[verifier::external_body]
pub(crate) fn decode_token(token: &str, config: &HashMap<String, svc_authn::jose::Config>) -> (r:
    Result<Claims, svc_authn::Error>) {
    svc_authn::token::jws_compact::extract::decode_jws_compact_with_config::<String>(token, config)
        .map(|data| Claims { subject: data.claims.subject().clone(), audience: data.claims.audience().to_owned() })
}

} // verus!
