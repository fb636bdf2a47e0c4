//! The request executor: builds the request for one call and interprets the
//! response, consulting and updating the response cache.

use vstd::prelude::*;
use vstd::string::StringSliceAdditionalSpecFns;
use crate::address::{normalize_url, parsed_url};
use crate::auth::{
    auth_plan, bearer_header, prefixed, resolve_auth, resolved_plan, AuthConstraint, AuthPlan,
    Credential, Resolved,
};
use crate::cache::{CacheEntry, EntryView, ResponseCache};
use crate::error::{ApiError, ErrorView};
use crate::link::{next_link, next_link_of};
use crate::payload::{
    cached_decoded, decode, decode_cached, decoded, json_accepts, payload_view, Payload,
};
use crate::rate::{classify_failure, failure_of, rate_of, read_rate_state};
use crate::text::{decimal, opt_view, push_decimal};

verus! {

/// The verb of a call.
#[derive(Clone, Copy, PartialEq, Eq, Structural, Debug)]
pub enum Method {
    Get,
    Post,
    Patch,
    Put,
    Delete,
}

/// The media type a call asks for.
#[derive(Clone, Debug, PartialEq, Eq)]
pub enum MediaType {
    /// `application/json`.
    Json,
    /// Any other media type, written out.
    Custom(String),
}

/// The `Accept` value of a media type.
pub open spec fn accept_of(m: MediaType) -> Seq<char> {
    match m {
        MediaType::Json => "application/json"@,
        MediaType::Custom(s) => s@,
    }
}

fn accept_value(m: &MediaType) -> (r: String)
    ensures
        r@ == accept_of(*m),
{
    match m {
        MediaType::Json => String::from_str("application/json"),
        MediaType::Custom(s) => s.clone(),
    }
}

/// Name and value pairs, as text.
pub open spec fn pair_views(v: Seq<(String, String)>) -> Seq<(Seq<char>, Seq<char>)> {
    v.map_values(|p: (String, String)| (p.0@, p.1@))
}

/// The body of a request, as bytes.
pub open spec fn body_view(b: Option<Vec<u8>>) -> Option<Seq<u8>> {
    match b {
        Some(v) => Some(v@),
        None => None,
    }
}

/// A request ready to be sent.
#[derive(Clone, Debug, PartialEq, Eq)]
pub struct Outgoing {
    pub method: Method,
    /// The absolute URL, as its parser serializes it.
    pub url: String,
    /// Query parameters to add to the URL.
    pub query: Vec<(String, String)>,
    /// Headers, in the order they are attached.
    pub headers: Vec<(String, String)>,
    pub body: Option<Vec<u8>>,
}

/// The mathematical value of an [`Outgoing`] request.
pub struct OutgoingView {
    pub method: Method,
    pub url: Seq<char>,
    pub query: Seq<(Seq<char>, Seq<char>)>,
    pub headers: Seq<(Seq<char>, Seq<char>)>,
    pub body: Option<Seq<u8>>,
}

impl View for Outgoing {
    type V = OutgoingView;

    open spec fn view(&self) -> OutgoingView {
        OutgoingView {
            method: self.method,
            url: self.url@,
            query: pair_views(self.query@),
            headers: pair_views(self.headers@),
            body: body_view(self.body),
        }
    }
}

/// What to send next for a call.
#[derive(Clone, Debug, PartialEq, Eq)]
pub enum Step {
    /// The call's own request.
    Send(Outgoing),
    /// A request to the token-issuing endpoint, whose answer goes to
    /// [`Client::complete_refresh`] before the call is prepared again.
    Refresh(Outgoing),
}

/// The mathematical value of a [`Step`].
pub enum StepView {
    Send(OutgoingView),
    Refresh(OutgoingView),
}

/// The mathematical value of a preparation result.
pub open spec fn step_result(r: Result<Step, ApiError>) -> Result<StepView, ErrorView> {
    match r {
        Ok(Step::Send(o)) => Ok(StepView::Send(o@)),
        Ok(Step::Refresh(o)) => Ok(StepView::Refresh(o@)),
        Err(e) => Err(e@),
    }
}

/// The headers of a request: the conditional-fetch precondition when there
/// is a validator, the agent, the accepted media type, and the
/// authorization when there is one.
pub open spec fn header_list(
    validator: Option<Seq<char>>,
    agent: Seq<char>,
    accept: Seq<char>,
    auth: Option<Seq<char>>,
) -> Seq<(Seq<char>, Seq<char>)> {
    let condition = match validator {
        Some(v) => seq![("If-None-Match"@, v)],
        None => Seq::empty(),
    };
    let authorization = match auth {
        Some(a) => seq![("Authorization"@, a)],
        None => Seq::empty(),
    };
    condition + seq![("User-Agent"@, agent), ("Accept"@, accept)] + authorization
}

/// The `Authorization` value that a plan gives.
pub open spec fn auth_header_of(p: AuthPlan) -> Option<Seq<char>> {
    match p {
        AuthPlan::Header(h) => Some(h),
        _ => None,
    }
}

/// The query parameters that a plan gives.
pub open spec fn auth_query_of(p: AuthPlan) -> Seq<(Seq<char>, Seq<char>)> {
    match p {
        AuthPlan::Query(id, secret) => seq![("client_id"@, id), ("client_secret"@, secret)],
        _ => Seq::empty(),
    }
}

/// The path of the token-issuing endpoint for an installation.
pub open spec fn token_path(installation_id: u64) -> Seq<char> {
    "/app/installations/"@ + decimal(installation_id as nat) + "/access_tokens"@
}

/// The body sent to the token-issuing endpoint: no narrowing of permissions
/// or repositories.
pub const TOKEN_SCOPE: &'static str = "{\"permissions\":{},\"repositories\":[],\"repository_ids\":[]}";

/// The validator that a GET sends for `uri`.
pub open spec fn validator_for(cache: ResponseCache, method: Method, uri: Seq<char>) -> Option<Seq<char>> {
    if method == Method::Get {
        match cache.entry(uri) {
            Some(e) => Some(e.validator),
            None => None,
        }
    } else {
        None
    }
}

/// A pipeline client: where calls go, who makes them, with which credential,
/// and the cache of GET responses.
#[derive(Clone, Debug, PartialEq, Eq)]
pub struct Client {
    pub host: String,
    pub agent: String,
    pub credential: Option<Credential>,
    pub cache: ResponseCache,
}

/// The request of a call of `method` on `uri`, whose address parsed to
/// `url` and whose authentication follows `plan`.
pub open spec fn request_view(
    c: Client,
    method: Method,
    uri: Seq<char>,
    url: Seq<char>,
    plan: AuthPlan,
    body: Option<Seq<u8>>,
    accept: Seq<char>,
) -> OutgoingView {
    OutgoingView {
        method,
        url,
        query: auth_query_of(plan),
        headers: header_list(validator_for(c.cache, method, uri), c.agent@, accept, auth_header_of(plan)),
        body,
    }
}

/// What preparing a call gives: the request to send, the token request to
/// send first, or the failure.
pub open spec fn planned(
    c: Client,
    method: Method,
    uri: Seq<char>,
    body: Option<Seq<u8>>,
    accept: Seq<char>,
    constraint: AuthConstraint,
) -> Result<StepView, ErrorView> {
    match auth_plan(constraint, c.credential) {
        AuthPlan::Unavailable => Err(ErrorView::AuthUnavailable),
        AuthPlan::Refresh(id, assertion) => match parsed_url(c.host@ + token_path(id)) {
            None => Err(ErrorView::InvalidUrl),
            Some(url) => Ok(
                StepView::Refresh(
                    OutgoingView {
                        method: Method::Post,
                        url,
                        query: Seq::empty(),
                        headers: header_list(
                            None,
                            c.agent@,
                            "application/json"@,
                            Some(bearer_header(assertion)),
                        ),
                        body: Some(TOKEN_SCOPE.spec_bytes()),
                    },
                ),
            ),
        },
        plan => match parsed_url(uri) {
            None => Err(ErrorView::InvalidUrl),
            Some(url) => Ok(StepView::Send(request_view(c, method, uri, url, plan, body, accept))),
        },
    }
}

fn pair(name: &str, value: String) -> (r: (String, String))
    ensures
        r.0@ == name@,
        r.1@ == value@,
{
    (String::from_str(name), value)
}

fn request_headers(validator: Option<String>, agent: &String, accept: String, auth: Option<String>) -> (r: Vec<(String, String)>)
    ensures
        pair_views(r@) == header_list(opt_view(validator), agent@, accept@, opt_view(auth)),
{
    let mut headers: Vec<(String, String)> = Vec::new();
    let ghost v = opt_view(validator);
    let ghost a = opt_view(auth);
    if let Some(v) = validator {
        headers.push(pair("If-None-Match", v));
    }
    headers.push(pair("User-Agent", agent.clone()));
    headers.push(pair("Accept", accept));
    if let Some(h) = auth {
        headers.push(pair("Authorization", h));
    }
    assert(pair_views(headers@) =~= header_list(v, agent@, accept@, a));
    headers
}

/// A response, as the transport received it.
#[derive(Clone, Debug, PartialEq, Eq)]
pub struct Incoming {
    pub status: u16,
    /// The `Link` header.
    pub link: Option<String>,
    /// The validator (`ETag`) header.
    pub validator: Option<String>,
    /// The header with the number of calls left.
    pub remaining: Option<String>,
    /// The header with the reset time, in seconds since the epoch.
    pub reset: Option<String>,
    pub body: Vec<u8>,
}

/// The mathematical value of an [`Incoming`] response.
pub struct IncomingView {
    pub status: u16,
    pub link: Option<Seq<char>>,
    pub validator: Option<Seq<char>>,
    pub remaining: Option<Seq<char>>,
    pub reset: Option<Seq<char>>,
    pub body: Seq<u8>,
}

impl View for Incoming {
    type V = IncomingView;

    open spec fn view(&self) -> IncomingView {
        IncomingView {
            status: self.status,
            link: opt_view(self.link),
            validator: opt_view(self.validator),
            remaining: opt_view(self.remaining),
            reset: opt_view(self.reset),
            body: self.body@,
        }
    }
}

/// What a successful call hands back: the continuation link, if any, and the
/// decoded body.
#[derive(Clone, Debug, PartialEq, Eq)]
pub struct Reply {
    pub continuation: Option<String>,
    pub payload: Payload,
}

/// The mathematical value of a [`Reply`].
pub struct ReplyView {
    pub continuation: Option<Seq<char>>,
    pub payload: Option<Seq<u8>>,
}

/// The mathematical value of a call's result.
pub open spec fn reply_result(r: Result<Reply, ApiError>) -> Result<ReplyView, ErrorView> {
    match r {
        Ok(reply) => Ok(ReplyView { continuation: opt_view(reply.continuation), payload: payload_view(reply.payload) }),
        Err(e) => Err(e@),
    }
}

/// The continuation that a `Link` header names.
pub open spec fn continuation_of(link: Option<Seq<char>>) -> Option<Seq<char>> {
    match link {
        Some(h) => next_link_of(h),
        None => None,
    }
}

/// A 2xx status.
pub open spec fn is_success(status: u16) -> bool {
    200 <= status < 300
}

/// The status of a conditional fetch whose precondition matched.
pub const NOT_MODIFIED: u16 = 304;

/// The result of a call to `uri` whose response is `resp`, received at
/// `now`, with `cache` as it was before the response.
pub open spec fn outcome(cache: ResponseCache, uri: Seq<char>, resp: IncomingView, now: u64) -> Result<ReplyView, ErrorView> {
    if is_success(resp.status) {
        match decoded(resp.status, resp.body, json_accepts(resp.body)) {
            Ok(p) => Ok(ReplyView { continuation: continuation_of(resp.link), payload: p }),
            Err(e) => Err(e),
        }
    } else if resp.status == NOT_MODIFIED {
        match cache.entry(uri) {
            None => Err(ErrorView::CacheUnreachable),
            Some(e) => match cached_decoded(e.body) {
                Ok(p) => Ok(
                    ReplyView {
                        continuation: if resp.link is Some {
                            continuation_of(resp.link)
                        } else {
                            e.continuation
                        },
                        payload: p,
                    },
                ),
                Err(x) => Err(x),
            },
        }
    } else {
        Err(failure_of(resp.status, rate_of(resp.remaining, resp.reset), resp.body, now))
    }
}

/// Whether the response to a call is remembered: a successful GET that
/// carries a validator.
pub open spec fn is_cached(method: Method, resp: IncomingView) -> bool {
    method == Method::Get && is_success(resp.status) && resp.validator is Some
}

/// The body remembered of a response: none for a "no content" answer.
pub open spec fn stored_body(resp: IncomingView) -> Seq<u8> {
    if resp.status == 204 {
        Seq::empty()
    } else {
        resp.body
    }
}

/// The entry remembered for a response to `uri`.
pub open spec fn entry_of(uri: Seq<char>, resp: IncomingView) -> EntryView {
    EntryView {
        uri,
        body: stored_body(resp),
        validator: resp.validator->0,
        continuation: continuation_of(resp.link),
    }
}

/// `after` is `before` once the response `resp` to a call of `method` on
/// `uri` has been taken: the response is remembered under `uri` when it is
/// cacheable and the cache is enabled; nothing else changes.
pub open spec fn remembers(
    before: ResponseCache,
    after: ResponseCache,
    method: Method,
    uri: Seq<char>,
    resp: IncomingView,
) -> bool {
    &&& after.is_enabled() == before.is_enabled()
    &&& forall|u: Seq<char>| #[trigger] after.entry(u) == if is_cached(method, resp) && u == uri && before.is_enabled() {
        Some(entry_of(uri, resp))
    } else {
        before.entry(u)
    }
}

impl Client {
    /// A client for `host`, identifying itself as `agent`.
    pub fn custom(host: String, agent: String, credential: Option<Credential>, cache: ResponseCache) -> (r: Client)
        ensures
            r.host == host,
            r.agent == agent,
            r.credential == credential,
            r.cache == cache,
    {
        Client { host, agent, credential, cache }
    }

    /// Replaces the credential; what is in flight keeps what it resolved.
    pub fn set_credentials(&mut self, credential: Option<Credential>)
        ensures
            *final(self) == (Client { credential, ..*old(self) }),
    {
        self.credential = credential;
    }

    /// The absolute address of `path` on this client's host.
    pub fn url_for(&self, path: &str) -> (r: String)
        ensures
            r@ == self.host@ + path@,
    {
        let mut r = self.host.clone();
        r.append(path);
        r
    }

    /// The request of a call of `method` on `uri`, once its address has
    /// been parsed to `url` and its authentication resolved to `auth`: the
    /// validator of a cached GET, the agent, the media type and the
    /// authorization as headers, a key pair as query parameters.
    pub fn request_to(
        &self,
        method: Method,
        uri: &str,
        url: String,
        auth: Resolved,
        body: Option<Vec<u8>>,
        media: &MediaType,
    ) -> (r: Outgoing)
        ensures
            r@ == request_view(*self, method, uri@, url@, resolved_plan(Ok(auth)), body_view(body), accept_of(*media)),
    {
        let validator = if method == Method::Get {
            self.cache.lookup_validator(uri)
        } else {
            None
        };
        let ghost plan = resolved_plan(Ok(auth));
        let mut query: Vec<(String, String)> = Vec::new();
        let mut authorization: Option<String> = None;
        match auth {
            Resolved::Query { client_id, client_secret } => {
                query.push(pair("client_id", client_id));
                query.push(pair("client_secret", client_secret));
            },
            Resolved::Header(h) => {
                authorization = Some(h);
            },
            _ => {},
        }
        let headers = request_headers(validator, &self.agent, accept_value(media), authorization);
        let out = Outgoing { method, url, query, headers, body };
        assert(out@.query =~= auth_query_of(plan));
        out
    }

    /// Prepares a call: resolves its authentication, and either hands back
    /// the request to send or, when a delegated token must be issued first,
    /// the request to the token-issuing endpoint.
    pub fn prepare(
        &self,
        method: Method,
        uri: &str,
        body: Option<Vec<u8>>,
        media: &MediaType,
        constraint: AuthConstraint,
    ) -> (r: Result<Step, ApiError>)
        ensures
            step_result(r) == planned(*self, method, uri@, body_view(body), accept_of(*media), constraint),
    {
        let resolved = resolve_auth(constraint, &self.credential);
        match resolved {
            Err(e) => Err(e),
            Ok(Resolved::Refresh { installation_id, assertion }) => {
                let mut path = self.host.clone();
                path.append("/app/installations/");
                push_decimal(&mut path, installation_id);
                path.append("/access_tokens");
                assert(path@ == self.host@ + token_path(installation_id));
                match normalize_url(path.as_str()) {
                    None => Err(ApiError::InvalidUrl),
                    Some(url) => {
                        let headers = request_headers(
                            None,
                            &self.agent,
                            String::from_str("application/json"),
                            Some(prefixed("Bearer ", &assertion)),
                        );
                        let out = Outgoing {
                            method: Method::Post,
                            url,
                            query: Vec::new(),
                            headers,
                            body: Some(TOKEN_SCOPE.as_bytes_vec()),
                        };
                        assert(pair_views(out.query@) =~= Seq::empty());
                        Ok(Step::Refresh(out))
                    },
                }
            },
            Ok(resolved) => {
                let url = match normalize_url(uri) {
                    None => {
                        return Err(ApiError::InvalidUrl);
                    },
                    Some(u) => u,
                };
                let out = self.request_to(method, uri, url, resolved, body, media);
                Ok(Step::Send(out))
            },
        }
    }

    /// Interprets the response to a call of `method` on `uri` received at
    /// `now` (seconds since the epoch), and remembers it in the cache when it
    /// is a successful GET that carries a validator.
    pub fn finish(&mut self, method: Method, uri: &str, resp: Incoming, now: u64) -> (r: Result<Reply, ApiError>)
        ensures
            reply_result(r) == outcome(old(self).cache, uri@, resp@, now),
            final(self).host == old(self).host,
            final(self).agent == old(self).agent,
            final(self).credential == old(self).credential,
            remembers(old(self).cache, final(self).cache, method, uri@, resp@),
    {
        let ghost rv = resp@;
        let continuation = match &resp.link {
            Some(h) => next_link(h.as_str()),
            None => None,
        };
        if 200 <= resp.status && resp.status < 300 {
            if method == Method::Get {
                if let Some(v) = &resp.validator {
                    let entry = CacheEntry {
                        uri: String::from_str(uri),
                        body: if resp.status == 204 {
                            Vec::new()
                        } else {
                            resp.body.clone()
                        },
                        validator: v.clone(),
                        continuation: match &continuation {
                            Some(c) => Some(c.clone()),
                            None => None,
                        },
                    };
                    assert(entry@ == entry_of(uri@, rv));
                    self.cache.store(entry);
                }
            }
            match decode(resp.status, resp.body) {
                Ok(payload) => Ok(Reply { continuation, payload }),
                Err(e) => Err(e),
            }
        } else if resp.status == NOT_MODIFIED {
            match self.cache.lookup_body(uri) {
                None => Err(ApiError::CacheUnreachable),
                Some(body) => {
                    let continuation = if resp.link.is_some() {
                        continuation
                    } else {
                        self.cache.lookup_continuation(uri)
                    };
                    match decode_cached(body) {
                        Ok(payload) => Ok(Reply { continuation, payload }),
                        Err(e) => Err(e),
                    }
                },
            }
        } else {
            let rate = read_rate_state(&resp.remaining, &resp.reset);
            Err(classify_failure(resp.status, rate, resp.body, now))
        }
    }

    /// Takes the answer of the token-issuing endpoint: its status and the
    /// token it carried, if one could be read. On success the token is
    /// published in the delegated credential, where every later call sees it.
    pub fn complete_refresh(&mut self, status: u16, token: Option<String>) -> (r: Result<(), ApiError>)
        ensures
            r is Ok <==> (is_success(status) && token is Some),
            r is Err ==> r == Err::<(), ApiError>(ApiError::TokenRefreshFailed) && *final(self) == *old(self),
            r is Ok ==> final(self).credential == match old(self).credential {
                Some(Credential::DelegatedAccessToken(d)) => Some(
                    Credential::DelegatedAccessToken(crate::auth::DelegatedToken { token, ..d }),
                ),
                other => other,
            },
            final(self).host == old(self).host,
            final(self).agent == old(self).agent,
            final(self).cache == old(self).cache,
    {
        if !(200 <= status && status < 300) {
            return Err(ApiError::TokenRefreshFailed);
        }
        match token {
            None => Err(ApiError::TokenRefreshFailed),
            Some(t) => {
                if let Some(c) = &mut self.credential {
                    c.publish_token(t);
                }
                Ok(())
            },
        }
    }
}

} // verus!
