//! The handler of one token request, as a machine.
//!
//! The machine asks for one thing at a time (an [`Action`]) and is told what
//! came of it (an [`Event`]). It reads the configuration first, then asks the
//! store about the runner, then has the platform called, then has the outcome
//! written to the store, then answers. Any step may end the request early, and
//! with the answer the handler is gone: a request that has ended cannot ask
//! for anything more.

use crate::config::{configured, Config, ConfigView};
use crate::platform::{
    read_reply,
    reply_outcome,
    request_for,
    token_request,
    FetchReply,
    FetchReplyView,
    TokenRequest,
    TokenRequestView,
};
use crate::status::{HandlerError, RunnerStatus};
use crate::token::response_view;
pub use crate::token::TokenResponse;
use crate::views::optional;
use vstd::prelude::*;
use vstd::string::StringExecFns;

verus! {

/// What the handler wants done next.
#[derive(PartialEq, Eq)]
pub enum Action {
    /// Look up owner, repository and credential.
    ReadConfig,
    /// Ask the store whether it knows the runner called `name`.
    QueryRunner { name: String },
    /// Send `request` to the platform, once.
    FetchToken { request: TokenRequest },
    /// Have the store set the status of the runner called `name`.
    WriteStatus { name: String, status: RunnerStatus },
}

/// An action as specifications see it.
pub ghost enum ActionView {
    ReadConfig,
    QueryRunner { name: Seq<char> },
    FetchToken { request: TokenRequestView },
    WriteStatus { name: Seq<char>, status: RunnerStatus },
}

impl View for Action {
    type V = ActionView;

    open spec fn view(&self) -> ActionView {
        match *self {
            Action::ReadConfig => ActionView::ReadConfig,
            Action::QueryRunner { name } => ActionView::QueryRunner { name: name@ },
            Action::FetchToken { request } => ActionView::FetchToken { request: request@ },
            Action::WriteStatus { name, status } => ActionView::WriteStatus { name: name@, status },
        }
    }
}

/// What came of the action asked for last.
#[derive(PartialEq, Eq)]
pub enum Event {
    /// The three values looked up, each `None` where it was not found.
    Config { owner: Option<String>, repo: Option<String>, pat: Option<String> },
    /// The store's word on whether it knows the runner.
    Existence { exists: bool },
    /// What the platform sent back.
    Reply { reply: FetchReply },
    /// The store was told the new status. Whether it took it is not asked.
    Written,
}

/// An event as specifications see it.
pub ghost enum EventView {
    Config { owner: Option<Seq<char>>, repo: Option<Seq<char>>, pat: Option<Seq<char>> },
    Existence { exists: bool },
    Reply { reply: FetchReplyView },
    Written,
}

impl View for Event {
    type V = EventView;

    open spec fn view(&self) -> EventView {
        match *self {
            Event::Config { owner, repo, pat } => EventView::Config {
                owner: optional(owner),
                repo: optional(repo),
                pat: optional(pat),
            },
            Event::Existence { exists } => EventView::Existence { exists },
            Event::Reply { reply } => EventView::Reply { reply: reply@ },
            Event::Written => EventView::Written,
        }
    }
}

/// Where an unanswered request stands, as specifications see it. Each state
/// is named after the answer it waits for.
pub ghost enum State {
    /// Waiting for the configuration.
    AwaitingConfig { runner: Seq<char> },
    /// Waiting for the store's word on the runner.
    AwaitingExistence { runner: Seq<char>, config: ConfigView },
    /// Waiting for the platform's reply.
    AwaitingReply { runner: Seq<char> },
    /// Waiting for the store to be told the outcome.
    AwaitingWrite { response: Result<Seq<char>, HandlerError> },
}

impl State {
    /// The number of further questions that a request in this state can
    /// still ask.
    pub open spec fn remaining(self) -> nat {
        match self {
            State::AwaitingConfig { .. } => 3,
            State::AwaitingExistence { .. } => 2,
            State::AwaitingReply { .. } => 1,
            State::AwaitingWrite { .. } => 0,
        }
    }
}

/// What a step comes to, as specifications see it.
pub ghost enum StepView {
    /// The request goes on in `state` and wants `action` done.
    Ask { state: State, action: ActionView },
    /// The request is over and `response` is its answer.
    Answer { response: Result<Seq<char>, HandlerError> },
}

/// The state in which a request for `runner` begins.
pub open spec fn initial(runner: Seq<char>) -> State {
    State::AwaitingConfig { runner }
}

/// The status that records how the platform call went: idle if it gave a
/// token, error if it did not.
pub open spec fn status_for(response: Result<Seq<char>, HandlerError>) -> RunnerStatus {
    match response {
        Ok(_) => RunnerStatus::Idle,
        Err(_) => RunnerStatus::Error,
    }
}

/// The transition: what follows when a request in `state` is told `event`.
///
/// An event that the state does not wait for ends the request with
/// [`HandlerError::OutOfTurn`], whatever the state.
pub open spec fn next(state: State, event: EventView) -> StepView {
    match (state, event) {
        (State::AwaitingConfig { runner }, EventView::Config { owner, repo, pat }) => {
            match configured(owner, repo, pat) {
                Some(config) => StepView::Ask {
                    state: State::AwaitingExistence { runner, config },
                    action: ActionView::QueryRunner { name: runner },
                },
                None => StepView::Answer { response: Err(HandlerError::MissingConfiguration) },
            }
        },
        (State::AwaitingExistence { runner, config }, EventView::Existence { exists }) => {
            if exists {
                StepView::Ask {
                    state: State::AwaitingReply { runner },
                    action: ActionView::FetchToken { request: request_for(config) },
                }
            } else {
                StepView::Answer { response: Err(HandlerError::UnknownRunner) }
            }
        },
        (State::AwaitingReply { runner }, EventView::Reply { reply }) => {
            let response = reply_outcome(reply);
            StepView::Ask {
                state: State::AwaitingWrite { response },
                action: ActionView::WriteStatus { name: runner, status: status_for(response) },
            }
        },
        (State::AwaitingWrite { response }, EventView::Written) => StepView::Answer { response },
        _ => StepView::Answer { response: Err(HandlerError::OutOfTurn) },
    }
}

enum Phase {
    AwaitingConfig { runner: String },
    AwaitingExistence { runner: String, config: Config },
    AwaitingReply { runner: String },
    AwaitingWrite { response: Result<TokenResponse, HandlerError> },
}

/// One request in progress. It is made by [`runner_return_github_token`] and
/// moved on by [`Handler::step`]; there is no other way to make or change one.
pub struct Handler {
    phase: Phase,
}

impl View for Handler {
    type V = State;

    closed spec fn view(&self) -> State {
        match self.phase {
            Phase::AwaitingConfig { runner } => State::AwaitingConfig { runner: runner@ },
            Phase::AwaitingExistence { runner, config } => State::AwaitingExistence {
                runner: runner@,
                config: config@,
            },
            Phase::AwaitingReply { runner } => State::AwaitingReply { runner: runner@ },
            Phase::AwaitingWrite { response } => State::AwaitingWrite {
                response: response_view(response),
            },
        }
    }
}

/// What a step comes to: one more thing to do, or the answer.
pub enum Step {
    /// The request goes on: do `action` and tell `handler` what came of it.
    Ask { handler: Handler, action: Action },
    /// The request is over: `response` goes to the caller.
    Answer { response: Result<TokenResponse, HandlerError> },
}

impl View for Step {
    type V = StepView;

    open spec fn view(&self) -> StepView {
        match *self {
            Step::Ask { handler, action } => StepView::Ask { state: handler@, action: action@ },
            Step::Answer { response } => StepView::Answer { response: response_view(response) },
        }
    }
}

/// Opens a request for a registration token for `runner`. The name is kept
/// exactly as given. The first thing asked for is always the configuration.
pub fn runner_return_github_token(runner: &str) -> (opened: (Handler, Action))
    ensures
        opened.0@ == initial(runner@),
        opened.1@ == ActionView::ReadConfig,
{
    let handler = Handler { phase: Phase::AwaitingConfig { runner: String::from_str(runner) } };
    (handler, Action::ReadConfig)
}

impl Handler {
    /// Takes the outcome of the action asked for last and says what follows.
    /// The handler moves exactly as [`next`] says.
    pub fn step(self, event: Event) -> (step: Step)
        ensures
            step@ == next(self@, event@),
    {
        match self.phase {
            Phase::AwaitingConfig { runner } => match event {
                Event::Config { owner, repo, pat } => match Config::from_values(owner, repo, pat) {
                    Ok(config) => {
                        let name = runner.clone();
                        Step::Ask {
                            handler: Handler { phase: Phase::AwaitingExistence { runner, config } },
                            action: Action::QueryRunner { name },
                        }
                    },
                    Err(error) => Step::Answer { response: Err(error) },
                },
                _ => Step::Answer { response: Err(HandlerError::OutOfTurn) },
            },
            Phase::AwaitingExistence { runner, config } => match event {
                Event::Existence { exists } => {
                    if exists {
                        let request = token_request(&config);
                        Step::Ask {
                            handler: Handler { phase: Phase::AwaitingReply { runner } },
                            action: Action::FetchToken { request },
                        }
                    } else {
                        Step::Answer { response: Err(HandlerError::UnknownRunner) }
                    }
                },
                _ => Step::Answer { response: Err(HandlerError::OutOfTurn) },
            },
            Phase::AwaitingReply { runner } => match event {
                Event::Reply { reply } => {
                    let response = read_reply(reply);
                    let status = match &response {
                        Ok(_) => RunnerStatus::Idle,
                        Err(_) => RunnerStatus::Error,
                    };
                    Step::Ask {
                        handler: Handler { phase: Phase::AwaitingWrite { response } },
                        action: Action::WriteStatus { name: runner, status },
                    }
                },
                _ => Step::Answer { response: Err(HandlerError::OutOfTurn) },
            },
            Phase::AwaitingWrite { response } => match event {
                Event::Written => Step::Answer { response },
                _ => Step::Answer { response: Err(HandlerError::OutOfTurn) },
            },
        }
    }
}

} // verus!
