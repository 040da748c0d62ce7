//! The value handed back to whoever asked for a token.

use crate::status::HandlerError;
use vstd::prelude::*;

verus! {

/// A registration token as the platform issued it. It lives for one request:
/// made from the platform's reply, given to the caller, kept nowhere.
#[derive(PartialEq, Eq)]
pub struct TokenResponse {
    token: String,
}

impl View for TokenResponse {
    type V = Seq<char>;

    /// The characters of the token.
    closed spec fn view(&self) -> Seq<char> {
        self.token@
    }
}

impl TokenResponse {
    /// Wraps a token, character for character.
    pub fn new(token: String) -> (response: TokenResponse)
        ensures
            response@ == token@,
    {
        TokenResponse { token }
    }

    /// The token, borrowed.
    pub fn token(&self) -> (token: &str)
        ensures
            token@ == self@,
    {
        self.token.as_str()
    }

    /// The token, owned.
    pub fn into_token(self) -> (token: String)
        ensures
            token@ == self@,
    {
        self.token
    }
}

/// How a request ends, as specifications see it: the token's characters, or
/// the reason there is none.
pub open spec fn response_view(response: Result<TokenResponse, HandlerError>) -> Result<
    Seq<char>,
    HandlerError,
> {
    match response {
        Ok(token) => Ok(token@),
        Err(error) => Err(error),
    }
}

} // verus!
