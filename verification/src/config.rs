//! The three values without which no request is handled.

use crate::status::HandlerError;
use crate::views::optional;
use vstd::prelude::*;

verus! {

/// Owner, repository and credential, all present.
#[derive(PartialEq, Eq)]
pub struct Config {
    /// The organisation or account that owns the repository.
    pub owner: String,
    /// The repository that runners register with.
    pub repo: String,
    /// The personal access token that authorises the request.
    pub pat: String,
}

/// A configuration as specifications see it.
pub ghost struct ConfigView {
    pub owner: Seq<char>,
    pub repo: Seq<char>,
    pub pat: Seq<char>,
}

impl View for Config {
    type V = ConfigView;

    open spec fn view(&self) -> ConfigView {
        ConfigView { owner: self.owner@, repo: self.repo@, pat: self.pat@ }
    }
}

/// The configuration that three looked-up values amount to: all of them, or
/// nothing if any is absent. An empty value is present.
pub open spec fn configured(
    owner: Option<Seq<char>>,
    repo: Option<Seq<char>>,
    pat: Option<Seq<char>>,
) -> Option<ConfigView> {
    match (owner, repo, pat) {
        (Some(owner), Some(repo), Some(pat)) => Some(ConfigView { owner, repo, pat }),
        _ => None,
    }
}

impl Config {
    /// Builds the configuration from the three values as they were looked up,
    /// each `None` where the environment did not hold it. With any of them
    /// absent there is no configuration, and the error says so.
    pub fn from_values(owner: Option<String>, repo: Option<String>, pat: Option<String>) -> (config:
        Result<Config, HandlerError>)
        ensures
            match configured(optional(owner), optional(repo), optional(pat)) {
                Some(whole) => config matches Ok(built) && built@ == whole,
                None => config matches Err(error) && error == HandlerError::MissingConfiguration,
            },
    {
        match owner {
            Some(owner) => match repo {
                Some(repo) => match pat {
                    Some(pat) => Ok(Config { owner, repo, pat }),
                    None => Err(HandlerError::MissingConfiguration),
                },
                None => Err(HandlerError::MissingConfiguration),
            },
            None => Err(HandlerError::MissingConfiguration),
        }
    }
}

} // verus!
