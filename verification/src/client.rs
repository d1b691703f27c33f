//! The authenticating client: it attaches the current token to each call and
//! renews the token once when the server rejects it.
//!
//! A call is run as an exchange. Each step of an exchange names the request
//! to send next; the outcome of that request is handed back to the exchange,
//! which names the next step, until the call is done.

use vstd::prelude::*;
use vstd::string::StringExecFns;

use crate::auth::auth_request;
use crate::auth::bearer;
use crate::auth::cache_with;
use crate::auth::create_auth_headers;
use crate::auth::get_token;
use crate::auth::outcome_of;
use crate::auth::receive_token;
use crate::auth::token_of;
use crate::auth::token_result;
use crate::auth::token_step;
use crate::auth::Method;
use crate::auth::Reply;
use crate::auth::ReplyView;
use crate::auth::Request;
use crate::auth::RequestView;
use crate::auth::TokenCache;
use crate::auth::TokenStep;
use crate::error::SyncError;
use crate::error::SyncErrorView;
use crate::error::UNAUTHORIZED;
use crate::text::clone_text;
use crate::text::text_of;

verus! {

/// A client of one upstream server: its base URL and the credentials that
/// it presents there. It does not own the token.
#[derive(Debug, Clone, PartialEq, Eq)]
pub struct AuthClient {
    url: String,
    access: String,
    secret: String,
}

/// The mathematical value of an [`AuthClient`].
pub struct AuthClientView {
    pub url: Seq<char>,
    pub access: Seq<char>,
    pub secret: Seq<char>,
}

impl View for AuthClient {
    type V = AuthClientView;

    closed spec fn view(&self) -> AuthClientView {
        AuthClientView { url: self.url@, access: self.access@, secret: self.secret@ }
    }
}

/// One logical call: what to ask of the server, whatever token it takes.
#[derive(Debug, Clone, PartialEq, Eq)]
pub struct Call {
    pub method: Method,
    pub url: String,
    /// The JSON text of the body, for the calls that have one.
    pub body: Option<String>,
}

/// The mathematical value of a [`Call`].
pub struct CallView {
    pub method: Method,
    pub url: Seq<char>,
    pub body: Option<Seq<char>>,
}

impl View for Call {
    type V = CallView;

    open spec fn view(&self) -> CallView {
        CallView { method: self.method, url: self.url@, body: text_of(self.body) }
    }
}

/// How far an exchange has come, by what it waits for.
#[derive(Debug, Clone, Copy, PartialEq, Eq, Structural)]
pub enum Phase {
    /// For the token that the first attempt needs.
    FirstToken,
    /// For the reply to the first attempt.
    FirstAttempt,
    /// For the token that replaces the rejected one.
    FreshToken,
    /// For the reply to the second and last attempt.
    SecondAttempt,
}

/// A call under way.
#[derive(Debug, Clone, PartialEq, Eq)]
pub struct Exchange {
    client: AuthClient,
    call: Call,
    phase: Phase,
}

/// The mathematical value of an [`Exchange`].
pub struct ExchangeView {
    pub client: AuthClientView,
    pub call: CallView,
    pub phase: Phase,
}

impl View for Exchange {
    type V = ExchangeView;

    closed spec fn view(&self) -> ExchangeView {
        ExchangeView { client: self.client@, call: self.call@, phase: self.phase }
    }
}

/// What an exchange asks for next.
#[derive(Debug, PartialEq, Eq)]
pub enum Step {
    /// Send this request to the authentication endpoint and hand the outcome
    /// to the exchange.
    Authenticate(Exchange, Request),
    /// Send this request to the server and hand the outcome to the exchange.
    Send(Exchange, Request),
    /// The call is over, with the server's reply as it came or with the
    /// reason why there is none.
    Done(Result<Reply, SyncError>),
}

/// The mathematical value of a [`Step`].
pub enum StepView {
    Authenticate(ExchangeView, RequestView),
    Send(ExchangeView, RequestView),
    Done(Result<ReplyView, SyncErrorView>),
}

/// The view of a finished call.
pub open spec fn result_of(result: Result<Reply, SyncError>) -> Result<ReplyView, SyncErrorView> {
    match result {
        Ok(reply) => Ok(reply@),
        Err(error) => Err(error@),
    }
}

impl View for Step {
    type V = StepView;

    open spec fn view(&self) -> StepView {
        match *self {
            Step::Authenticate(exchange, request) => StepView::Authenticate(exchange@, request@),
            Step::Send(exchange, request) => StepView::Send(exchange@, request@),
            Step::Done(result) => StepView::Done(result_of(result)),
        }
    }
}

/// The request of one attempt of `call` with `token`: the call as it is,
/// with the token as a Bearer credential.
pub open spec fn attempt(call: CallView, token: Seq<char>) -> RequestView {
    RequestView {
        method: call.method,
        url: call.url,
        authorization: bearer(token),
        body: call.body,
    }
}

/// The request that fetches a token for `client`.
pub open spec fn token_request(client: AuthClientView) -> RequestView {
    auth_request(client.url, client.access, client.secret)
}

/// The first step of a call: an attempt with the cached token if there is
/// one, else the authentication exchange.
pub open spec fn first_step(
    client: AuthClientView,
    call: CallView,
    cache: Option<Seq<char>>,
) -> StepView {
    match cache {
        Some(token) => StepView::Send(
            ExchangeView { client, call, phase: Phase::FirstAttempt },
            attempt(call, token),
        ),
        None => StepView::Authenticate(
            ExchangeView { client, call, phase: Phase::FirstToken },
            token_request(client),
        ),
    }
}

/// The step that follows the end of an authentication exchange: the attempt
/// that was waiting for the token, or the end of the call where no token
/// came.
pub open spec fn step_with_token(
    exchange: ExchangeView,
    token: Result<Seq<char>, SyncErrorView>,
) -> StepView {
    match token {
        Ok(fresh) => StepView::Send(
            ExchangeView {
                client: exchange.client,
                call: exchange.call,
                phase: if exchange.phase == Phase::FirstToken {
                    Phase::FirstAttempt
                } else {
                    Phase::SecondAttempt
                },
            },
            attempt(exchange.call, fresh),
        ),
        Err(error) => StepView::Done(Err(error)),
    }
}

/// Whether an exchange in this phase waits for a token.
pub open spec fn awaits_token(phase: Phase) -> bool {
    phase == Phase::FirstToken || phase == Phase::FreshToken
}

/// Whether the outcome of an attempt is the server's rejection of the
/// token.
pub open spec fn is_unauthorized(outcome: Result<ReplyView, Seq<char>>) -> bool {
    outcome matches Ok(reply) && reply.status == 401
}

/// The end of a call with the outcome of its last attempt: the reply as it
/// came, whatever its status, or the transport's failure.
pub open spec fn finished(outcome: Result<ReplyView, Seq<char>>) -> StepView {
    match outcome {
        Ok(reply) => StepView::Done(Ok(reply)),
        Err(message) => StepView::Done(Err(SyncErrorView::TransportFailed(message))),
    }
}

/// The step that follows `outcome`.
///
/// An exchange that waits for a token goes on to the attempt if the token
/// came and ends with the failure if it did not. The first attempt, when
/// the server rejects its token, is followed by one authentication exchange
/// for a fresh token; any other outcome ends the call. The second attempt
/// ends the call whatever comes, a second rejection included.
pub open spec fn next_step(
    exchange: ExchangeView,
    outcome: Result<ReplyView, Seq<char>>,
) -> StepView {
    if awaits_token(exchange.phase) {
        step_with_token(exchange, token_of(outcome))
    } else if exchange.phase == Phase::FirstAttempt && is_unauthorized(outcome) {
        StepView::Authenticate(
            ExchangeView { client: exchange.client, call: exchange.call, phase: Phase::FreshToken },
            token_request(exchange.client),
        )
    } else {
        finished(outcome)
    }
}

/// The token cache after `outcome` was handed to the exchange: a token that
/// came in is cached, a rejection of the first attempt clears the cache, and
/// nothing else touches it.
pub open spec fn next_cache(
    exchange: ExchangeView,
    cache: Option<Seq<char>>,
    outcome: Result<ReplyView, Seq<char>>,
) -> Option<Seq<char>> {
    if awaits_token(exchange.phase) {
        cache_with(cache, token_of(outcome))
    } else if exchange.phase == Phase::FirstAttempt && is_unauthorized(outcome) {
        None
    } else {
        cache
    }
}

impl AuthClient {
    /// A client of the server at `url` with the given credentials.
    pub fn new(url: String, access: String, secret: String) -> (client: AuthClient)
        ensures
            client@ == (AuthClientView { url: url@, access: access@, secret: secret@ }),
    {
        AuthClient { url, access, secret }
    }

    /// A copy of this client.
    pub fn duplicate(&self) -> (copy: AuthClient)
        ensures
            copy@ == self@,
    {
        AuthClient {
            url: self.url.clone(),
            access: self.access.clone(),
            secret: self.secret.clone(),
        }
    }

    /// The way to a token. With `force_refresh` the cache is cleared first,
    /// so that a new token is fetched.
    pub fn get_or_refresh_token(&self, cache: &mut TokenCache, force_refresh: bool) -> (step:
        TokenStep)
        ensures
            final(cache)@ == (if force_refresh {
                None
            } else {
                old(cache)@
            }),
            step@ == token_step(final(cache)@, self@.url, self@.access, self@.secret),
    {
        if force_refresh {
            cache.invalidate();
        }
        get_token(cache, self.url.as_str(), self.access.as_str(), self.secret.as_str())
    }

    /// The call with `method` of `path` under the base URL.
    pub fn call(&self, method: Method, path: &str, body: Option<String>) -> (call: Call)
        ensures
            call@ == (CallView { method, url: self@.url + path@, body: text_of(body) }),
    {
        Call { method, url: self.url.clone().concat(path), body }
    }

    /// A `GET` of `path`.
    pub fn get(&self, path: &str) -> (call: Call)
        ensures
            call@ == (CallView { method: Method::Get, url: self@.url + path@, body: None }),
    {
        self.call(Method::Get, path, None)
    }

    /// A `GET` of `path` whose body carries the options of the read.
    pub fn get_with_json(&self, path: &str, body: String) -> (call: Call)
        ensures
            call@ == (CallView { method: Method::Get, url: self@.url + path@, body: Some(body@) }),
    {
        self.call(Method::Get, path, Some(body))
    }

    /// A `POST` of `body` to `path`.
    pub fn post(&self, path: &str, body: String) -> (call: Call)
        ensures
            call@ == (CallView { method: Method::Post, url: self@.url + path@, body: Some(body@) }),
    {
        self.call(Method::Post, path, Some(body))
    }

    /// A `PATCH` of `path` with `body`.
    pub fn patch(&self, path: &str, body: String) -> (call: Call)
        ensures
            call@ == (CallView {
                method: Method::Patch,
                url: self@.url + path@,
                body: Some(body@),
            }),
    {
        self.call(Method::Patch, path, Some(body))
    }

    /// A `DELETE` of `path`.
    pub fn delete(&self, path: &str) -> (call: Call)
        ensures
            call@ == (CallView { method: Method::Delete, url: self@.url + path@, body: None }),
    {
        self.call(Method::Delete, path, None)
    }

    /// Starts `call`: the first step of its exchange. The token is taken from
    /// the cache as it is, without a refresh.
    pub fn request_with_retry(&self, cache: &mut TokenCache, call: Call) -> (step: Step)
        ensures
            step@ == first_step(self@, call@, old(cache)@),
            final(cache)@ == old(cache)@,
    {
        match self.get_or_refresh_token(cache, false) {
            TokenStep::Cached(token) => {
                let request = call.with_token(token.as_str());
                Step::Send(
                    Exchange { client: self.duplicate(), call, phase: Phase::FirstAttempt },
                    request,
                )
            },
            TokenStep::Fetch(request) => Step::Authenticate(
                Exchange { client: self.duplicate(), call, phase: Phase::FirstToken },
                request,
            ),
        }
    }
}

impl Call {
    /// The request of one attempt of this call with `token`.
    pub fn with_token(&self, token: &str) -> (request: Request)
        ensures
            request@ == attempt(self@, token@),
    {
        Request {
            method: self.method,
            url: self.url.clone(),
            authorization: create_auth_headers(token).authorization,
            body: clone_text(&self.body),
        }
    }
}

impl Exchange {
    /// Goes on after the end of an authentication exchange, with the token
    /// it brought or the reason why it brought none.
    pub fn resume(self, token: Result<String, SyncError>) -> (step: Step)
        ensures
            step@ == step_with_token(self@, token_result(token)),
    {
        match token {
            Ok(fresh) => {
                let request = self.call.with_token(fresh.as_str());
                let phase = match self.phase {
                    Phase::FirstToken => Phase::FirstAttempt,
                    _ => Phase::SecondAttempt,
                };
                Step::Send(Exchange { client: self.client, call: self.call, phase }, request)
            },
            Err(error) => Step::Done(Err(error)),
        }
    }

    /// Takes the outcome of the request that the last step asked for, and
    /// names the next step.
    pub fn advance(self, cache: &mut TokenCache, outcome: Result<Reply, String>) -> (step: Step)
        ensures
            step@ == next_step(self@, outcome_of(outcome)),
            final(cache)@ == next_cache(self@, old(cache)@, outcome_of(outcome)),
    {
        match self.phase {
            Phase::FirstToken | Phase::FreshToken => {
                let token = receive_token(cache, outcome);
                self.resume(token)
            },
            Phase::FirstAttempt => match outcome {
                Ok(reply) => {
                    if reply.status == UNAUTHORIZED {
                        match self.client.get_or_refresh_token(cache, true) {
                            TokenStep::Fetch(request) => Step::Authenticate(
                                Exchange {
                                    client: self.client,
                                    call: self.call,
                                    phase: Phase::FreshToken,
                                },
                                request,
                            ),
                            TokenStep::Cached(_) => vstd::pervasive::unreached(),
                        }
                    } else {
                        Step::Done(Ok(reply))
                    }
                },
                Err(message) => Step::Done(Err(SyncError::TransportFailed(message))),
            },
            Phase::SecondAttempt => match outcome {
                Ok(reply) => Step::Done(Ok(reply)),
                Err(message) => Step::Done(Err(SyncError::TransportFailed(message))),
            },
        }
    }
}

} // verus!
