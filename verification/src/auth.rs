//! Token-based authentication: the shared token cache, the exchange that
//! obtains a token, and the requests that carry one.

use vstd::prelude::*;
use vstd::string::StringExecFns;

use crate::error::is_success;
use crate::error::status_is_success;
use crate::error::SyncError;
use crate::error::SyncErrorView;
use crate::text::text_of;

verus! {

/// The standard base64 text, with padding, that
/// `base64::prelude::BASE64_STANDARD.encode` writes for `bytes`.
pub uninterp spec fn base64_standard(bytes: Seq<u8>) -> Seq<char>;

/// The string that `serde_json::from_slice::<String>` decodes from `body`,
/// or `None` where it reports an error.
pub uninterp spec fn json_string(body: Seq<u8>) -> Option<Seq<char>>;

/// Calls `base64::Engine::encode` on the engine
/// `base64::prelude::BASE64_STANDARD`. The contract only gives the result its
/// name.
#[verifier::external_body]
fn base64_encode(bytes: &[u8]) -> (text: String)
    ensures
        text@ == base64_standard(bytes@),
{
    base64::Engine::encode(&base64::prelude::BASE64_STANDARD, bytes)
}

/// Calls `serde_json::from_slice::<String>`. The contract only gives the
/// result its name.
#[verifier::external_body]
fn decode_json_string(body: &[u8]) -> (text: Option<String>)
    ensures
        text_of(text) == json_string(body@),
{
    serde_json::from_slice::<String>(body).ok()
}

/// Calls `reqwest::header::HeaderValue::from_str` and tells whether it
/// accepted the text. It refuses a text exactly if one of its bytes is an
/// ASCII control character other than the tab: a byte below 32 that is not
/// 9, or the byte 127. The bytes of a character outside ASCII are all above
/// 127, so the same holds character by character.
#[verifier::external_body]
fn header_value_accepts(value: &str) -> (accepted: bool)
    ensures
        accepted == is_header_value(value@),
{
    reqwest::header::HeaderValue::from_str(value).is_ok()
}

/// Whether a header value may hold `c`: anything but an ASCII control
/// character, of which only the tab is allowed.
pub open spec fn is_header_char(c: char) -> bool {
    c == '\t' || (c as u32 >= 32 && c as u32 != 127)
}

/// Whether `text` can be sent as the value of a header.
pub open spec fn is_header_value(text: Seq<char>) -> bool {
    forall|i: int| 0 <= i < text.len() ==> is_header_char(#[trigger] text[i])
}

/// The HTTP methods that the upstream server is called with.
#[derive(Debug, Clone, Copy, PartialEq, Eq, Structural)]
pub enum Method {
    Get,
    Post,
    Patch,
    Delete,
}

/// A request as it goes to the transport.
#[derive(Debug, Clone, PartialEq, Eq)]
pub struct Request {
    pub method: Method,
    pub url: String,
    /// The value of the `Authorization` header; `None` sends none.
    pub authorization: Option<String>,
    /// The JSON text of the body; `None` sends none.
    pub body: Option<String>,
}

/// The mathematical value of a [`Request`].
pub struct RequestView {
    pub method: Method,
    pub url: Seq<char>,
    pub authorization: Option<Seq<char>>,
    pub body: Option<Seq<char>>,
}

impl View for Request {
    type V = RequestView;

    open spec fn view(&self) -> RequestView {
        RequestView {
            method: self.method,
            url: self.url@,
            authorization: text_of(self.authorization),
            body: text_of(self.body),
        }
    }
}

/// What the server answered: the status and the whole body.
#[derive(Debug, Clone, PartialEq, Eq)]
pub struct Reply {
    pub status: u16,
    pub body: Vec<u8>,
}

/// The mathematical value of a [`Reply`].
pub struct ReplyView {
    pub status: u16,
    pub body: Seq<u8>,
}

impl View for Reply {
    type V = ReplyView;

    open spec fn view(&self) -> ReplyView {
        ReplyView { status: self.status, body: self.body@ }
    }
}

/// How a request ended: with the server's reply, or with the transport's
/// account of why there is none.
pub open spec fn outcome_of(outcome: Result<Reply, String>) -> Result<ReplyView, Seq<char>> {
    match outcome {
        Ok(reply) => Ok(reply@),
        Err(message) => Err(message@),
    }
}

/// The headers that authorise a request: at most the one `Authorization`
/// header.
#[derive(Debug, Clone, PartialEq, Eq)]
pub struct AuthHeaders {
    pub authorization: Option<String>,
}

/// The `Authorization` value that presents `token`, or `None` where the
/// token cannot be sent in a header.
pub open spec fn bearer(token: Seq<char>) -> Option<Seq<char>> {
    if is_header_value("Bearer "@ + token) {
        Some("Bearer "@ + token)
    } else {
        None
    }
}

/// The `Authorization` value that presents a pair of credentials to the
/// authentication endpoint.
pub open spec fn basic(access: Seq<char>, secret: Seq<char>) -> Seq<char> {
    "Basic "@ + base64_standard(vstd::utf8::encode_utf8(access + ":"@ + secret))
}

/// The request of the authentication exchange: a `GET` of `/auth` under the
/// base URL, with the credentials as a Basic credential.
pub open spec fn auth_request(url: Seq<char>, access: Seq<char>, secret: Seq<char>) -> RequestView {
    RequestView {
        method: Method::Get,
        url: url + "/auth"@,
        authorization: Some(basic(access, secret)),
        body: None,
    }
}

/// Builds the headers that present `token`. A token that no header can
/// carry leaves the headers empty.
pub fn create_auth_headers(token: &str) -> (headers: AuthHeaders)
    ensures
        text_of(headers.authorization) == bearer(token@),
{
    let value = "Bearer ".to_owned().concat(token);
    if header_value_accepts(value.as_str()) {
        AuthHeaders { authorization: Some(value) }
    } else {
        AuthHeaders { authorization: None }
    }
}

/// The one bearer token that is current, if there is one. It is shared by
/// every client and every request; whoever holds it exclusively may change
/// it.
#[derive(Debug, Clone, PartialEq, Eq)]
pub struct TokenCache {
    token: Option<String>,
}

impl View for TokenCache {
    type V = Option<Seq<char>>;

    closed spec fn view(&self) -> Option<Seq<char>> {
        text_of(self.token)
    }
}

impl TokenCache {
    /// A cache without a token.
    pub fn new() -> (cache: TokenCache)
        ensures
            cache@ is None,
    {
        TokenCache { token: None }
    }

    /// A copy of the current token.
    pub fn token(&self) -> (token: Option<String>)
        ensures
            text_of(token) == self@,
    {
        match &self.token {
            Some(t) => Some(t.clone()),
            None => None,
        }
    }

    /// Makes `token` the current one.
    pub fn store(&mut self, token: String)
        ensures
            final(self)@ == Some(token@),
    {
        self.token = Some(token);
    }

    /// Forgets the current token, whether there is one or not.
    pub fn invalidate(&mut self)
        ensures
            final(self)@ is None,
    {
        self.token = None;
    }
}

/// Clears the token cache unconditionally.
pub fn clear_token_cache(cache: &mut TokenCache)
    ensures
        final(cache)@ is None,
{
    cache.invalidate();
}

/// Builds the request of the authentication exchange.
pub fn fetch_new_token(url: &str, access: &str, secret: &str) -> (request: Request)
    ensures
        request@ == auth_request(url@, access@, secret@),
{
    let credentials = access.to_owned().concat(":").concat(secret);
    let encoded = base64_encode(credentials.as_str().as_bytes());
    Request {
        method: Method::Get,
        url: url.to_owned().concat("/auth"),
        authorization: Some("Basic ".to_owned().concat(encoded.as_str())),
        body: None,
    }
}

/// How a token is come by: it is in the cache, or it has to be fetched with
/// this request.
#[derive(Debug, Clone, PartialEq, Eq)]
pub enum TokenStep {
    Cached(String),
    Fetch(Request),
}

/// The mathematical value of a [`TokenStep`].
pub enum TokenStepView {
    Cached(Seq<char>),
    Fetch(RequestView),
}

impl View for TokenStep {
    type V = TokenStepView;

    open spec fn view(&self) -> TokenStepView {
        match *self {
            TokenStep::Cached(token) => TokenStepView::Cached(token@),
            TokenStep::Fetch(request) => TokenStepView::Fetch(request@),
        }
    }
}

/// The way to a token: the cached one if there is one, else the
/// authentication exchange.
pub open spec fn token_step(
    cache: Option<Seq<char>>,
    url: Seq<char>,
    access: Seq<char>,
    secret: Seq<char>,
) -> TokenStepView {
    match cache {
        Some(token) => TokenStepView::Cached(token),
        None => TokenStepView::Fetch(auth_request(url, access, secret)),
    }
}

/// Returns the cached token if there is one, else the request that fetches
/// a new one.
pub fn get_token(cache: &TokenCache, url: &str, access: &str, secret: &str) -> (step: TokenStep)
    ensures
        step@ == token_step(cache@, url@, access@, secret@),
{
    match cache.token() {
        Some(token) => TokenStep::Cached(token),
        None => TokenStep::Fetch(fetch_new_token(url, access, secret)),
    }
}

/// What an answer of the authentication endpoint with `status` yields, given
/// what its body decodes to: the token on success, `MalformedResponse` for a
/// success without a decodable token, and `AuthenticationFailed` otherwise.
pub open spec fn token_from(status: u16, decoded: Option<Seq<char>>) -> Result<
    Seq<char>,
    SyncErrorView,
> {
    if is_success(status) {
        match decoded {
            Some(token) => Ok(token),
            None => Err(SyncErrorView::MalformedResponse),
        }
    } else {
        Err(SyncErrorView::AuthenticationFailed(status))
    }
}

/// What the authentication exchange yields: the token that a successful
/// reply holds as a JSON string, or the reason why there is none.
pub open spec fn token_of(outcome: Result<ReplyView, Seq<char>>) -> Result<
    Seq<char>,
    SyncErrorView,
> {
    match outcome {
        Ok(reply) => token_from(reply.status, json_string(reply.body)),
        Err(message) => Err(SyncErrorView::TransportFailed(message)),
    }
}

/// The cache after an authentication exchange: a token that came in takes
/// the place of whatever was there; a failure changes nothing.
pub open spec fn cache_with(
    cache: Option<Seq<char>>,
    token: Result<Seq<char>, SyncErrorView>,
) -> Option<Seq<char>> {
    match token {
        Ok(fresh) => Some(fresh),
        Err(_) => cache,
    }
}

/// The view of a token or of the reason why there is none.
pub open spec fn token_result(token: Result<String, SyncError>) -> Result<
    Seq<char>,
    SyncErrorView,
> {
    match token {
        Ok(text) => Ok(text@),
        Err(error) => Err(error@),
    }
}

/// Takes in the answer of the authentication endpoint, given its status and
/// what its body decoded to, and caches the token it brought.
pub fn accept_token(cache: &mut TokenCache, status: u16, decoded: Option<String>) -> (token: Result<
    String,
    SyncError,
>)
    ensures
        token_result(token) == token_from(status, text_of(decoded)),
        final(cache)@ == cache_with(old(cache)@, token_from(status, text_of(decoded))),
{
    if status_is_success(status) {
        match decoded {
            Some(token) => {
                cache.store(token.clone());
                Ok(token)
            },
            None => Err(SyncError::MalformedResponse),
        }
    } else {
        Err(SyncError::AuthenticationFailed(status))
    }
}

/// Ends the authentication exchange: decodes the token from a successful
/// reply and caches it. Nothing is retried here.
pub fn receive_token(cache: &mut TokenCache, outcome: Result<Reply, String>) -> (token: Result<
    String,
    SyncError,
>)
    ensures
        token_result(token) == token_of(outcome_of(outcome)),
        final(cache)@ == cache_with(old(cache)@, token_of(outcome_of(outcome))),
{
    match outcome {
        Ok(reply) => {
            let decoded = if status_is_success(reply.status) {
                decode_json_string(reply.body.as_slice())
            } else {
                None
            };
            accept_token(cache, reply.status, decoded)
        },
        Err(message) => Err(SyncError::TransportFailed(message)),
    }
}

} // verus!
