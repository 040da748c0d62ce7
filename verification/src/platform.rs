//! The one call to the platform: what is sent, and how the reply is read.
//!
//! Nothing here touches the network. [`token_request`] says what to send and
//! [`read_reply`] says what the answer means; sending is the caller's part.

use crate::config::{Config, ConfigView};
use crate::status::HandlerError;
use crate::token::{response_view, TokenResponse};
use crate::views::optional;
use vstd::prelude::*;
use vstd::string::StringExecFns;

verus! {

/// Seconds after which a request that has not been answered counts as
/// unanswered.
pub const REQUEST_TIMEOUT_SECS: u64 = 30;

/// The lowest HTTP status that counts as success.
pub const SUCCESS_MIN: u16 = 200;

/// The highest HTTP status that counts as success.
pub const SUCCESS_MAX: u16 = 299;

/// The request for a registration token, spelled out: method, address and
/// the three headers, each a finished string.
#[derive(PartialEq, Eq)]
pub struct TokenRequest {
    /// The HTTP method.
    pub method: String,
    /// Where the request goes.
    pub url: String,
    /// The value of the `Authorization` header.
    pub authorization: String,
    /// The value of the `Accept` header.
    pub accept: String,
    /// The value of the `User-Agent` header.
    pub user_agent: String,
    /// How long to wait for the response, in seconds.
    pub timeout_secs: u64,
}

/// A request as specifications see it.
pub ghost struct TokenRequestView {
    pub method: Seq<char>,
    pub url: Seq<char>,
    pub authorization: Seq<char>,
    pub accept: Seq<char>,
    pub user_agent: Seq<char>,
    pub timeout_secs: u64,
}

impl View for TokenRequest {
    type V = TokenRequestView;

    open spec fn view(&self) -> TokenRequestView {
        TokenRequestView {
            method: self.method@,
            url: self.url@,
            authorization: self.authorization@,
            accept: self.accept@,
            user_agent: self.user_agent@,
            timeout_secs: self.timeout_secs,
        }
    }
}

/// The HTTP method of the request.
pub open spec fn method() -> Seq<char> {
    "POST"@
}

/// The address of the registration-token endpoint of `owner`'s repository
/// `repo`. Both names go in as they are.
pub open spec fn endpoint(owner: Seq<char>, repo: Seq<char>) -> Seq<char> {
    "https://api.github.com/repos/"@ + owner + "/"@ + repo
        + "/actions/runners/registration-token"@
}

/// The bearer credential made of `pat`.
pub open spec fn bearer(pat: Seq<char>) -> Seq<char> {
    "Bearer "@ + pat
}

/// The media type asked of the platform.
pub open spec fn media_type() -> Seq<char> {
    "application/vnd.github.v3+json"@
}

/// The name under which this crate speaks to the platform.
pub open spec fn agent() -> Seq<char> {
    "runner_token"@
}

/// The request that a configuration calls for.
pub open spec fn request_for(config: ConfigView) -> TokenRequestView {
    TokenRequestView {
        method: method(),
        url: endpoint(config.owner, config.repo),
        authorization: bearer(config.pat),
        accept: media_type(),
        user_agent: agent(),
        timeout_secs: REQUEST_TIMEOUT_SECS,
    }
}

/// Spells out the request that asks the platform for a registration token
/// on behalf of `config`: a POST to the repository's registration-token
/// endpoint, authorised by the credential.
pub fn token_request(config: &Config) -> (request: TokenRequest)
    ensures
        request@ == request_for(config@),
{
    let mut url = String::from_str("https://api.github.com/repos/");
    url.append(config.owner.as_str());
    url.append("/");
    url.append(config.repo.as_str());
    url.append("/actions/runners/registration-token");
    let mut authorization = String::from_str("Bearer ");
    authorization.append(config.pat.as_str());
    TokenRequest {
        method: String::from_str("POST"),
        url,
        authorization,
        accept: String::from_str("application/vnd.github.v3+json"),
        user_agent: String::from_str("runner_token"),
        timeout_secs: REQUEST_TIMEOUT_SECS,
    }
}

/// What came back from the platform.
#[derive(PartialEq, Eq)]
pub enum FetchReply {
    /// Nothing: the platform was not reached, or did not answer in time.
    NoResponse,
    /// A response, reduced to what matters.
    Response {
        /// Its HTTP status.
        status: u16,
        /// The `token` field of its body, if the body was a JSON object with
        /// such a field holding a string.
        token: Option<String>,
    },
}

/// A reply as specifications see it.
pub ghost enum FetchReplyView {
    NoResponse,
    Response { status: u16, token: Option<Seq<char>> },
}

impl View for FetchReply {
    type V = FetchReplyView;

    open spec fn view(&self) -> FetchReplyView {
        match *self {
            FetchReply::NoResponse => FetchReplyView::NoResponse,
            FetchReply::Response { status, token } => FetchReplyView::Response {
                status,
                token: optional(token),
            },
        }
    }
}

/// The token that a reply issues: the one in its body, provided that a
/// response came, its status lies in 200 to 299, and the body held a token.
pub open spec fn issued_token(reply: FetchReplyView) -> Option<Seq<char>> {
    match reply {
        FetchReplyView::Response { status, token: Some(token) } => if SUCCESS_MIN <= status
            <= SUCCESS_MAX {
            Some(token)
        } else {
            None
        },
        _ => None,
    }
}

/// What a reply comes to: its token, or one undivided failure.
pub open spec fn reply_outcome(reply: FetchReplyView) -> Result<Seq<char>, HandlerError> {
    match issued_token(reply) {
        Some(token) => Ok(token),
        None => Err(HandlerError::FetchFailed),
    }
}

/// Reads the platform's reply. Every way of not getting a token is the same
/// failure; the token is passed on unchanged.
pub fn read_reply(reply: FetchReply) -> (outcome: Result<TokenResponse, HandlerError>)
    ensures
        response_view(outcome) == reply_outcome(reply@),
{
    match reply {
        FetchReply::NoResponse => Err(HandlerError::FetchFailed),
        FetchReply::Response { status, token } => {
            if SUCCESS_MIN <= status && status <= SUCCESS_MAX {
                match token {
                    Some(token) => Ok(TokenResponse::new(token)),
                    None => Err(HandlerError::FetchFailed),
                }
            } else {
                Err(HandlerError::FetchFailed)
            }
        },
    }
}

} // verus!
