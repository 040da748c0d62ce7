//! The collaborators of the handler, described mathematically, and what it
//! means to carry a request through against them.
//!
//! Nothing in this module runs. It says what the environment, the store and
//! the platform are taken to be, so that [`crate::laws`] can speak of every
//! request against every such world.

use crate::config::configured;
use crate::platform::{reply_outcome, request_for, FetchReplyView, TokenRequestView};
use crate::runners::{initial, next, status_for, ActionView, EventView, State, StepView};
use crate::status::{HandlerError, RunnerStatus};
use vstd::prelude::*;

verus! {

/// Everything outside the handler that a request can read or change.
pub ghost struct World {
    /// The owner as the environment holds it, if it does.
    pub owner: Option<Seq<char>>,
    /// The repository as the environment holds it, if it does.
    pub repo: Option<Seq<char>>,
    /// The credential as the environment holds it, if it does.
    pub pat: Option<Seq<char>>,
    /// The store: the runners it knows, each with the status that the
    /// handler wrote last, or `None` for a status that came from elsewhere.
    pub store: Map<Seq<char>, Option<RunnerStatus>>,
    /// The platform: what it sends back for each request.
    pub platform: spec_fn(TokenRequestView) -> FetchReplyView,
}

impl World {
    /// Whether the store knows a runner of this name.
    pub open spec fn knows(self, runner: Seq<char>) -> bool {
        self.store.dom().contains(runner)
    }

    /// This world after the store has been told `status` for `name`.
    pub open spec fn written(self, name: Seq<char>, status: RunnerStatus) -> World {
        World { store: self.store.insert(name, Some(status)), ..self }
    }

    /// This world with another platform in place of its own.
    pub open spec fn facing(self, platform: spec_fn(TokenRequestView) -> FetchReplyView) -> World {
        World { platform, ..self }
    }

    /// What the world does when `action` is carried out: how it is afterwards,
    /// and what the handler is told.
    pub open spec fn answer(self, action: ActionView) -> (World, EventView) {
        match action {
            ActionView::ReadConfig => (
                self,
                EventView::Config { owner: self.owner, repo: self.repo, pat: self.pat },
            ),
            ActionView::QueryRunner { name } => (
                self,
                EventView::Existence { exists: self.knows(name) },
            ),
            ActionView::FetchToken { request } => (
                self,
                EventView::Reply { reply: (self.platform)(request) },
            ),
            ActionView::WriteStatus { name, status } => (
                self.written(name, status),
                EventView::Written,
            ),
        }
    }
}

/// A request carried through: its answer, the world it leaves behind, and
/// everything that was done on the way, in order.
pub ghost struct Run {
    pub response: Result<Seq<char>, HandlerError>,
    pub world: World,
    pub trace: Seq<ActionView>,
}

impl Run {
    /// How often the store was asked or told something.
    pub open spec fn store_calls(self) -> nat {
        count(self.trace, |action: ActionView| touches_store(action))
    }

    /// How often the store was told a status.
    pub open spec fn store_writes(self) -> nat {
        count(self.trace, |action: ActionView| writes_store(action))
    }

    /// How often the platform was called.
    pub open spec fn platform_calls(self) -> nat {
        count(self.trace, |action: ActionView| calls_platform(action))
    }
}

/// Carries a request on from `state`, where it has just asked for `action`,
/// until it is answered: the action is carried out, the handler is told what
/// came of it, and so on with whatever it asks next.
pub open spec fn drive(state: State, action: ActionView, world: World) -> Run
    decreases state.remaining(),
{
    let (after, event) = world.answer(action);
    match next(state, event) {
        StepView::Answer { response } => Run { response, world: after, trace: seq![action] },
        StepView::Ask { state: then, action: asked } => {
            let rest = drive(then, asked, after);
            Run { response: rest.response, world: rest.world, trace: seq![action] + rest.trace }
        },
    }
}

/// Handles one request for `runner` against `world`, from the first question
/// to the answer.
pub open spec fn run(runner: Seq<char>, world: World) -> Run {
    drive(initial(runner), ActionView::ReadConfig, world)
}

/// The same request, said outright instead of step by step: what is
/// answered, what becomes of the world and what is done, by the three
/// questions that decide it. Is the configuration whole? Does the store know
/// the runner? Did the platform issue a token?
pub open spec fn outcome(runner: Seq<char>, world: World) -> Run {
    match configured(world.owner, world.repo, world.pat) {
        None => Run {
            response: Err(HandlerError::MissingConfiguration),
            world,
            trace: seq![ActionView::ReadConfig],
        },
        Some(config) => {
            if !world.knows(runner) {
                Run {
                    response: Err(HandlerError::UnknownRunner),
                    world,
                    trace: seq![ActionView::ReadConfig, ActionView::QueryRunner { name: runner }],
                }
            } else {
                let request = request_for(config);
                let response = reply_outcome((world.platform)(request));
                let status = status_for(response);
                Run {
                    response,
                    world: world.written(runner, status),
                    trace: seq![
                        ActionView::ReadConfig,
                        ActionView::QueryRunner { name: runner },
                        ActionView::FetchToken { request },
                        ActionView::WriteStatus { name: runner, status },
                    ],
                }
            }
        },
    }
}

/// Whether `action` goes to the store.
pub open spec fn touches_store(action: ActionView) -> bool {
    action is QueryRunner || action is WriteStatus
}

/// Whether `action` goes to the platform.
pub open spec fn calls_platform(action: ActionView) -> bool {
    action is FetchToken
}

/// Whether `action` writes to the store.
pub open spec fn writes_store(action: ActionView) -> bool {
    action is WriteStatus
}

/// How many actions of the given kind a trace holds.
pub open spec fn count(trace: Seq<ActionView>, kind: spec_fn(ActionView) -> bool) -> nat
    decreases trace.len(),
{
    if trace.len() == 0 {
        0
    } else if kind(trace.last()) {
        count(trace.drop_last(), kind) + 1
    } else {
        count(trace.drop_last(), kind)
    }
}

} // verus!
