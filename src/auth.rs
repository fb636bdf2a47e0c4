//! Credentials and how a call's constraint selects the material that
//! authenticates it.

use vstd::prelude::*;
use crate::error::ApiError;

verus! {

/// A credential whose short-lived token is minted on demand from a signed
/// assertion, for one installation.
#[derive(Clone, Debug, PartialEq, Eq)]
pub struct DelegatedToken {
    pub installation_id: u64,
    /// The signed assertion that authenticates calls to the token-issuing
    /// endpoint.
    pub assertion: String,
    /// The live token, once one has been issued.
    pub token: Option<String>,
}

/// The authentication material of a client.
#[derive(Clone, Debug, PartialEq, Eq)]
pub enum Credential {
    /// A client id and secret, sent as query parameters.
    BasicKeyPair { client_id: String, client_secret: String },
    /// A static token, sent as `Authorization: token <value>`.
    BearerToken(String),
    /// A signed assertion, sent as `Authorization: Bearer <value>`.
    SignedAssertion(String),
    /// A token minted on demand; sent as `Authorization: token <value>`.
    DelegatedAccessToken(DelegatedToken),
}

/// Which credentials a call accepts.
#[derive(Clone, Copy, PartialEq, Eq, Structural, Debug)]
pub enum AuthConstraint {
    /// Any credential, used as it is.
    Unconstrained,
    /// Only credentials that rest on a signed assertion: the assertion
    /// itself, or a delegated token minted from one. The assertion behind a
    /// delegated token only ever authenticates the call that issues the
    /// token; the call itself carries the token.
    AssertionOnly,
}

/// What resolution hands to the request.
#[derive(Clone, Debug, PartialEq, Eq)]
pub enum Resolved {
    /// No credential: the call goes out unauthenticated.
    Anonymous,
    /// The `client_id` and `client_secret` query parameters.
    Query { client_id: String, client_secret: String },
    /// The value of the `Authorization` header.
    Header(String),
    /// The delegated token must first be issued for this installation, with
    /// this assertion.
    Refresh { installation_id: u64, assertion: String },
}

/// The mathematical value of a resolution, failures included.
pub enum AuthPlan {
    Anonymous,
    Query(Seq<char>, Seq<char>),
    Header(Seq<char>),
    Refresh(u64, Seq<char>),
    Unavailable,
}

/// `token <t>`.
pub open spec fn token_header(t: Seq<char>) -> Seq<char> {
    "token "@ + t
}

/// `Bearer <t>`.
pub open spec fn bearer_header(t: Seq<char>) -> Seq<char> {
    "Bearer "@ + t
}

/// The material a call with constraint `c` uses, given the client's
/// credential.
pub open spec fn auth_plan(c: AuthConstraint, cred: Option<Credential>) -> AuthPlan {
    match cred {
        None => AuthPlan::Anonymous,
        Some(Credential::BasicKeyPair { client_id, client_secret }) => match c {
            AuthConstraint::Unconstrained => AuthPlan::Query(client_id@, client_secret@),
            AuthConstraint::AssertionOnly => AuthPlan::Unavailable,
        },
        Some(Credential::BearerToken(t)) => match c {
            AuthConstraint::Unconstrained => AuthPlan::Header(token_header(t@)),
            AuthConstraint::AssertionOnly => AuthPlan::Unavailable,
        },
        Some(Credential::SignedAssertion(a)) => AuthPlan::Header(bearer_header(a@)),
        Some(Credential::DelegatedAccessToken(d)) => match d.token {
            Some(t) => AuthPlan::Header(token_header(t@)),
            None => AuthPlan::Refresh(d.installation_id, d.assertion@),
        },
    }
}

/// The plan that a resolution result stands for.
pub open spec fn resolved_plan(r: Result<Resolved, ApiError>) -> AuthPlan {
    match r {
        Ok(Resolved::Anonymous) => AuthPlan::Anonymous,
        Ok(Resolved::Query { client_id, client_secret }) => AuthPlan::Query(client_id@, client_secret@),
        Ok(Resolved::Header(h)) => AuthPlan::Header(h@),
        Ok(Resolved::Refresh { installation_id, assertion }) => AuthPlan::Refresh(installation_id, assertion@),
        Err(_) => AuthPlan::Unavailable,
    }
}

/// `prefix` followed by `t`.
pub(crate) fn prefixed(prefix: &str, t: &String) -> (r: String)
    ensures
        r@ == prefix@ + t@,
{
    let mut r = String::from_str(prefix);
    r.append(t.as_str());
    r
}

/// Selects the material that authenticates a call with constraint `c`.
/// A delegated token authenticates the call with its live token, or asks
/// for one to be issued first. A call that accepts only an assertion fails
/// with `AuthUnavailable` when the credential is a key pair or a static
/// token; with no credential at all it goes out unauthenticated.
pub fn resolve_auth(c: AuthConstraint, cred: &Option<Credential>) -> (r: Result<Resolved, ApiError>)
    ensures
        resolved_plan(r) == auth_plan(c, *cred),
        r is Err ==> r == Err::<Resolved, ApiError>(ApiError::AuthUnavailable),
{
    match cred {
        None => Ok(Resolved::Anonymous),
        Some(Credential::BasicKeyPair { client_id, client_secret }) => match c {
            AuthConstraint::Unconstrained => Ok(
                Resolved::Query { client_id: client_id.clone(), client_secret: client_secret.clone() },
            ),
            AuthConstraint::AssertionOnly => Err(ApiError::AuthUnavailable),
        },
        Some(Credential::BearerToken(t)) => match c {
            AuthConstraint::Unconstrained => Ok(Resolved::Header(prefixed("token ", t))),
            AuthConstraint::AssertionOnly => Err(ApiError::AuthUnavailable),
        },
        Some(Credential::SignedAssertion(a)) => Ok(Resolved::Header(prefixed("Bearer ", a))),
        Some(Credential::DelegatedAccessToken(d)) => match &d.token {
            Some(t) => Ok(Resolved::Header(prefixed("token ", t))),
            None => Ok(
                Resolved::Refresh {
                    installation_id: d.installation_id,
                    assertion: d.assertion.clone(),
                },
            ),
        },
    }
}

impl Credential {
    /// Stores a newly issued token in a delegated credential's slot; any
    /// other credential is left as it is.
    pub fn publish_token(&mut self, token: String)
        ensures
            match *old(self) {
                Credential::DelegatedAccessToken(d) => *final(self) == Credential::DelegatedAccessToken(
                    DelegatedToken { token: Some(token), ..d },
                ),
                _ => *final(self) == *old(self),
            },
    {
        if let Credential::DelegatedAccessToken(d) = self {
            d.token = Some(token);
        }
    }
}

} // verus!
