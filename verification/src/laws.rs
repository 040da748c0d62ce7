//! What holds of every request, proved.
//!
//! Each law speaks of [`run`]: a request carried through, step by step, against
//! an arbitrary [`World`]. The first law reduces that to [`outcome`]; the others
//! rest on it.

use crate::config::configured;
use crate::platform::{issued_token, request_for, FetchReplyView, TokenRequestView};
use crate::runners::{next, status_for, ActionView, EventView, State, StepView};
use crate::status::{HandlerError, RunnerStatus};
use crate::world::{
    calls_platform,
    count,
    drive,
    outcome,
    run,
    touches_store,
    writes_store,
    World,
};
use vstd::prelude::*;

verus! {

/// The questions come in one order and each at most once, whatever the
/// handler is told. A step that asks something moves the request one state
/// on; the store is asked only after the configuration, the platform is
/// called only after the store has said that it knows the runner, and the
/// store is written to only after the platform call, with the status that
/// records how that call went. The configuration is never asked for twice.
pub proof fn law_questions_in_order(state: State, event: EventView)
    ensures
        next(state, event) matches StepView::Ask { state: then, action } ==> {
            &&& then.remaining() + 1 == state.remaining()
            &&& !(action is ReadConfig)
            &&& action is QueryRunner <==> state is AwaitingConfig
            &&& action is FetchToken <==> state is AwaitingExistence
            &&& action is WriteStatus <==> state is AwaitingReply
            &&& action is FetchToken ==> event == (EventView::Existence { exists: true })
            &&& action is WriteStatus ==> event is Reply && then is AwaitingWrite
                && action->status == status_for(then->response)
        },
{
}

/// Carrying a request through step by step comes to exactly what
/// [`outcome`] says outright, for every runner and every world.
pub proof fn law_run_is_outcome(runner: Seq<char>, world: World)
    ensures
        run(runner, world) == outcome(runner, world),
{
    reveal_with_fuel(drive, 4);
    let stepped = run(runner, world);
    let said = outcome(runner, world);
    assert(stepped.trace =~= said.trace);
}

/// Counting in a trace of at most four actions comes to adding up, action by
/// action.
proof fn lemma_count_short(trace: Seq<ActionView>, kind: spec_fn(ActionView) -> bool)
    requires
        trace.len() <= 4,
    ensures
        count(trace, kind) == (if 0 < trace.len() && kind(trace[0]) {
            1nat
        } else {
            0nat
        }) + (if 1 < trace.len() && kind(trace[1]) {
            1nat
        } else {
            0nat
        }) + (if 2 < trace.len() && kind(trace[2]) {
            1nat
        } else {
            0nat
        }) + (if 3 < trace.len() && kind(trace[3]) {
            1nat
        } else {
            0nat
        }),
    decreases trace.len(),
{
    if trace.len() > 0 {
        lemma_count_short(trace.drop_last(), kind);
    }
}

/// The calls that a request makes, counted: none at all without the
/// configuration, one question to the store for an unknown runner, and for a
/// known runner one question, one call to the platform and one write.
proof fn lemma_calls(runner: Seq<char>, world: World)
    ensures
        run(runner, world).store_calls() == (if configured(world.owner, world.repo, world.pat)
            is None {
            0nat
        } else if world.knows(runner) {
            2nat
        } else {
            1nat
        }),
        run(runner, world).store_writes() == run(runner, world).platform_calls(),
        run(runner, world).platform_calls() == (if configured(world.owner, world.repo, world.pat)
            is Some && world.knows(runner) {
            1nat
        } else {
            0nat
        }),
{
    law_run_is_outcome(runner, world);
    let trace = run(runner, world).trace;
    lemma_count_short(trace, |action: ActionView| touches_store(action));
    lemma_count_short(trace, |action: ActionView| writes_store(action));
    lemma_count_short(trace, |action: ActionView| calls_platform(action));
}

/// A request made while owner, repository or credential is absent is answered
/// with [`HandlerError::MissingConfiguration`], which leaves the server as
/// status 500. Nothing but the configuration was looked at: the store was not
/// asked, the platform was not called, and the world is as it was.
pub proof fn law_missing_configuration(runner: Seq<char>, world: World)
    requires
        world.owner is None || world.repo is None || world.pat is None,
    ensures
        run(runner, world).response == Err::<Seq<char>, _>(HandlerError::MissingConfiguration),
        HandlerError::MissingConfiguration.http_status() == 500,
        run(runner, world).trace == seq![ActionView::ReadConfig],
        run(runner, world).store_calls() == 0,
        run(runner, world).platform_calls() == 0,
        run(runner, world).world == world,
{
    law_run_is_outcome(runner, world);
    lemma_calls(runner, world);
}

/// A request for a runner that the store does not know, made with the
/// configuration whole, is answered with [`HandlerError::UnknownRunner`],
/// which leaves the server as status 400. The store was asked once, under the
/// name exactly as given; the platform was not called and nothing was written.
pub proof fn law_unknown_runner(runner: Seq<char>, world: World)
    requires
        configured(world.owner, world.repo, world.pat) is Some,
        !world.knows(runner),
    ensures
        run(runner, world).response == Err::<Seq<char>, _>(HandlerError::UnknownRunner),
        HandlerError::UnknownRunner.http_status() == 400,
        run(runner, world).trace == seq![
            ActionView::ReadConfig,
            ActionView::QueryRunner { name: runner },
        ],
        run(runner, world).store_calls() == 1,
        run(runner, world).store_writes() == 0,
        run(runner, world).platform_calls() == 0,
        run(runner, world).world == world,
{
    law_run_is_outcome(runner, world);
    lemma_calls(runner, world);
}

/// A request for a known runner to which the platform issues a token is
/// answered with that token, unchanged, and leaves the runner idle in the
/// store. The platform was sent the one request that the configuration calls
/// for, once, and the store was asked once and written to once.
pub proof fn law_token_issued(runner: Seq<char>, world: World, token: Seq<char>)
    requires
        configured(world.owner, world.repo, world.pat) is Some,
        world.knows(runner),
        issued_token(
            (world.platform)(request_for(configured(world.owner, world.repo, world.pat)->0)),
        ) == Some(token),
    ensures
        run(runner, world).response == Ok::<_, HandlerError>(token),
        run(runner, world).trace == seq![
            ActionView::ReadConfig,
            ActionView::QueryRunner { name: runner },
            ActionView::FetchToken {
                request: request_for(configured(world.owner, world.repo, world.pat)->0),
            },
            ActionView::WriteStatus { name: runner, status: RunnerStatus::Idle },
        ],
        run(runner, world).store_calls() == 2,
        run(runner, world).store_writes() == 1,
        run(runner, world).platform_calls() == 1,
        run(runner, world).world == world.written(runner, RunnerStatus::Idle),
        run(runner, world).world.store[runner] == Some(RunnerStatus::Idle),
{
    law_run_is_outcome(runner, world);
    lemma_calls(runner, world);
}

/// A request for a known runner to which the platform issues no token (it
/// does not answer, answers outside 200 to 299, or answers without a token
/// in the body) is answered with [`HandlerError::FetchFailed`], which leaves
/// the server as status 500, and leaves the runner in error in the store. The
/// platform was called once and not again.
pub proof fn law_fetch_failed(runner: Seq<char>, world: World)
    requires
        configured(world.owner, world.repo, world.pat) is Some,
        world.knows(runner),
        issued_token(
            (world.platform)(request_for(configured(world.owner, world.repo, world.pat)->0)),
        ) is None,
    ensures
        run(runner, world).response == Err::<Seq<char>, _>(HandlerError::FetchFailed),
        HandlerError::FetchFailed.http_status() == 500,
        run(runner, world).trace == seq![
            ActionView::ReadConfig,
            ActionView::QueryRunner { name: runner },
            ActionView::FetchToken {
                request: request_for(configured(world.owner, world.repo, world.pat)->0),
            },
            ActionView::WriteStatus { name: runner, status: RunnerStatus::Error },
        ],
        run(runner, world).store_calls() == 2,
        run(runner, world).store_writes() == 1,
        run(runner, world).platform_calls() == 1,
        run(runner, world).world == world.written(runner, RunnerStatus::Error),
        run(runner, world).world.store[runner] == Some(RunnerStatus::Error),
{
    law_run_is_outcome(runner, world);
    lemma_calls(runner, world);
}

/// The status in the store follows the last attempt. Whenever a request got
/// as far as the platform, the runner's status afterwards says how that call
/// went: idle exactly if the request was answered with a token, error
/// otherwise. Whenever it did not get that far, the store is as it was.
pub proof fn law_status_follows_attempt(runner: Seq<char>, world: World)
    ensures
        run(runner, world).platform_calls() > 0 ==> run(runner, world).world.store[runner]
            == Some(status_for(run(runner, world).response)),
        run(runner, world).platform_calls() == 0 ==> run(runner, world).world.store
            == world.store,
        run(runner, world).response is Ok ==> run(runner, world).platform_calls() > 0,
{
    law_run_is_outcome(runner, world);
    lemma_calls(runner, world);
}

/// Handling a request a second time changes nothing that the first time did
/// not: against the world that one request left behind, the same request is
/// answered the same, does the same, and leaves that world as it is.
pub proof fn law_repeat_changes_nothing(runner: Seq<char>, world: World)
    ensures
        run(runner, run(runner, world).world).world == run(runner, world).world,
        run(runner, run(runner, world).world).response == run(runner, world).response,
        run(runner, run(runner, world).world).trace == run(runner, world).trace,
{
    let first = run(runner, world);
    law_run_is_outcome(runner, world);
    law_run_is_outcome(runner, first.world);
    if configured(world.owner, world.repo, world.pat) is Some && world.knows(runner) {
        assert(first.world.knows(runner));
        assert(run(runner, first.world).world.store =~= first.world.store);
    }
}

/// Two successes in a row. A request for a known runner gets a token, and then
/// the same request is made again and gets a token again, the same one or
/// another (`again` is the platform as it answers the second time). Each of the
/// two leaves the runner idle, each calls the platform once and writes to the
/// store once, and the second leaves the store exactly as the first did:
/// beyond the two writes, nothing has happened.
pub proof fn law_success_twice(
    runner: Seq<char>,
    world: World,
    again: spec_fn(TokenRequestView) -> FetchReplyView,
)
    requires
        configured(world.owner, world.repo, world.pat) is Some,
        world.knows(runner),
        issued_token(
            (world.platform)(request_for(configured(world.owner, world.repo, world.pat)->0)),
        ) is Some,
        issued_token(again(request_for(configured(world.owner, world.repo, world.pat)->0)))
            is Some,
    ensures
        run(runner, world).response is Ok,
        run(runner, world).world.store[runner] == Some(RunnerStatus::Idle),
        run(runner, world).platform_calls() == 1,
        run(runner, world).store_writes() == 1,
        run(runner, run(runner, world).world.facing(again)).response is Ok,
        run(runner, run(runner, world).world.facing(again)).world.store[runner]
            == Some(RunnerStatus::Idle),
        run(runner, run(runner, world).world.facing(again)).platform_calls() == 1,
        run(runner, run(runner, world).world.facing(again)).store_writes() == 1,
        run(runner, run(runner, world).world.facing(again)).world == run(
            runner,
            world,
        ).world.facing(again),
        run(runner, run(runner, world).world.facing(again)).world.store == run(
            runner,
            world,
        ).world.store,
{
    let first = run(runner, world);
    let between = first.world.facing(again);
    law_run_is_outcome(runner, world);
    law_run_is_outcome(runner, between);
    lemma_calls(runner, world);
    lemma_calls(runner, between);
    assert(between.knows(runner));
    assert(run(runner, between).world.store =~= between.store);
}

/// The store never sees the token. All that a request sends to the store is
/// the runner's name, exactly as given, and one of two statuses.
pub proof fn law_store_sees_name_and_status(runner: Seq<char>, world: World, i: int)
    requires
        0 <= i < run(runner, world).trace.len(),
    ensures
        run(runner, world).trace[i] matches ActionView::QueryRunner { name } ==> name == runner,
        run(runner, world).trace[i] matches ActionView::WriteStatus { name, status } ==> name
            == runner && status == status_for(run(runner, world).response),
{
    law_run_is_outcome(runner, world);
}

/// The store never learns the token. Take two worlds that differ in nothing but
/// what their platforms send back, and let the platforms agree on whether a
/// token is issued. Then a request does the same to both stores and sends
/// both the same, whatever the two tokens are.
pub proof fn law_store_is_blind_to_token(runner: Seq<char>, one: World, other: World)
    requires
        one.owner == other.owner,
        one.repo == other.repo,
        one.pat == other.pat,
        one.store == other.store,
        forall|request: TokenRequestView|
            issued_token(#[trigger] (one.platform)(request)) is Some <==> issued_token(
                (other.platform)(request),
            ) is Some,
    ensures
        run(runner, one).world.store == run(runner, other).world.store,
        run(runner, one).trace == run(runner, other).trace,
{
    law_run_is_outcome(runner, one);
    law_run_is_outcome(runner, other);
    if configured(one.owner, one.repo, one.pat) is Some {
        let request = request_for(configured(one.owner, one.repo, one.pat)->0);
        assert(issued_token((one.platform)(request)) is Some <==> issued_token(
            (other.platform)(request),
        ) is Some);
    }
}

/// The handler neither adds runners to the store nor removes any, and it
/// leaves every runner but the one asked about as it found it.
pub proof fn law_store_keeps_its_runners(runner: Seq<char>, world: World)
    ensures
        run(runner, world).world.store.dom() == world.store.dom(),
        forall|other: Seq<char>|
            other != runner ==> #[trigger] run(runner, world).world.store[other]
                == world.store[other],
        run(runner, world).world.owner == world.owner,
        run(runner, world).world.repo == world.repo,
        run(runner, world).world.pat == world.pat,
        run(runner, world).world.platform == world.platform,
{
    law_run_is_outcome(runner, world);
    assert(run(runner, world).world.store.dom() =~= world.store.dom());
}

/// One attempt and no more: whatever the world, the configuration is read
/// first and every time, the platform is called at most once, and the store
/// is written to exactly as often as the platform is called.
pub proof fn law_single_attempt(runner: Seq<char>, world: World)
    ensures
        1 <= run(runner, world).trace.len() <= 4,
        run(runner, world).trace[0] == ActionView::ReadConfig,
        run(runner, world).platform_calls() <= 1,
        run(runner, world).store_writes() == run(runner, world).platform_calls(),
{
    law_run_is_outcome(runner, world);
    lemma_calls(runner, world);
}

} // verus!
