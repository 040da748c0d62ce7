//! The request that goes to the platform and the reading of its reply.

use runner_token::config::Config;
use runner_token::platform::{
    read_reply, token_request, FetchReply, REQUEST_TIMEOUT_SECS, SUCCESS_MAX, SUCCESS_MIN,
};
use runner_token::runners::TokenResponse;
use runner_token::status::HandlerError;

fn config(owner: &str, repo: &str, pat: &str) -> Config {
    Config { owner: owner.to_string(), repo: repo.to_string(), pat: pat.to_string() }
}

#[test]
fn request_spells_out_the_endpoint() {
    let request = token_request(&config("octo-org", "hello-world", "key-for-tests"));
    assert_eq!(
        request.url,
        "https://api.github.com/repos/octo-org/hello-world/actions/runners/registration-token"
    );
}

#[test]
fn request_carries_the_three_headers() {
    let request = token_request(&config("octo-org", "hello-world", "key-for-tests"));
    assert_eq!(request.authorization, "Bearer key-for-tests");
    assert_eq!(request.accept, "application/vnd.github.v3+json");
    assert_eq!(request.user_agent, "runner_token");
}

#[test]
fn request_is_a_post() {
    let request = token_request(&config("octo-org", "hello-world", "key-for-tests"));
    assert_eq!(request.method, "POST");
}

#[test]
fn request_has_a_bounded_timeout() {
    let request = token_request(&config("o", "r", "p"));
    assert_eq!(request.timeout_secs, 30);
    assert_eq!(REQUEST_TIMEOUT_SECS, 30);
}

#[test]
fn request_takes_names_as_they_are() {
    let request = token_request(&config("a/b", "c d?e=f", "p q\u{e9}"));
    assert_eq!(
        request.url,
        "https://api.github.com/repos/a/b/c d?e=f/actions/runners/registration-token"
    );
    assert_eq!(request.authorization, "Bearer p q\u{e9}");
}

#[test]
fn request_with_empty_values() {
    let request = token_request(&config("", "", ""));
    assert_eq!(request.url, "https://api.github.com/repos///actions/runners/registration-token");
    assert_eq!(request.authorization, "Bearer ");
}

#[test]
fn request_depends_on_the_configuration() {
    let one = token_request(&config("acme", "widgets", "k1"));
    let other = token_request(&config("widgets", "acme", "k2"));
    assert!(one != other);
    assert_ne!(one.url, other.url);
    assert_ne!(one.authorization, other.authorization);
    assert_eq!(one.accept, other.accept);
    assert_eq!(one.user_agent, other.user_agent);
}

fn response(status: u16, token: Option<&str>) -> FetchReply {
    FetchReply::Response { status, token: token.map(|t| t.to_string()) }
}

/// Reads a reply and gives the outcome with the token as text.
fn read(reply: FetchReply) -> Result<String, HandlerError> {
    read_reply(reply).map(|token: TokenResponse| token.into_token())
}

#[test]
fn reply_200_with_token_issues_it() {
    assert_eq!(read(response(200, Some("abc123"))), Ok("abc123".to_string()));
    let issued = read_reply(response(200, Some("abc123")));
    assert!(issued == Ok(TokenResponse::new("abc123".to_string())));
}

#[test]
fn reply_201_with_token_issues_it() {
    let outcome = read_reply(response(201, Some("token-from-the-platform")));
    assert_eq!(outcome.ok().unwrap().token(), "token-from-the-platform");
}

#[test]
fn reply_passes_the_token_on_unchanged() {
    for token in ["", " ", "abc123", " padded ", "caf\u{e9}\n", "\"quoted\""] {
        assert_eq!(read(response(200, Some(token))), Ok(token.to_string()));
    }
}

#[test]
fn reply_success_range_is_200_to_299() {
    assert_eq!(SUCCESS_MIN, 200);
    assert_eq!(SUCCESS_MAX, 299);
    for status in 0..=1000u16 {
        let outcome = read(response(status, Some("abc123")));
        if (200..=299).contains(&status) {
            assert_eq!(outcome, Ok("abc123".to_string()), "{}", status);
        } else {
            assert_eq!(outcome, Err(HandlerError::FetchFailed), "{}", status);
        }
    }
    assert_eq!(read(response(u16::MAX, Some("abc123"))), Err(HandlerError::FetchFailed));
}

#[test]
fn reply_at_the_edges_of_the_success_range() {
    assert!(read_reply(response(199, Some("t"))).is_err());
    assert!(read_reply(response(200, Some("t"))).is_ok());
    assert!(read_reply(response(299, Some("t"))).is_ok());
    assert!(read_reply(response(300, Some("t"))).is_err());
}

#[test]
fn reply_401_fails() {
    assert_eq!(read(response(401, None)), Err(HandlerError::FetchFailed));
    assert_eq!(read(response(401, Some("abc123"))), Err(HandlerError::FetchFailed));
}

#[test]
fn reply_without_a_token_fails_whatever_the_status() {
    for status in [0u16, 100, 199, 200, 201, 204, 299, 300, 404, 500, 65535] {
        assert_eq!(read(response(status, None)), Err(HandlerError::FetchFailed));
    }
}

#[test]
fn no_response_fails() {
    assert_eq!(read(FetchReply::NoResponse), Err(HandlerError::FetchFailed));
}
