//! What holds in every state of a run.
//!
//! The sequencer keeps a process's pid from the moment its launch is
//! reported until the process has exited under a reap. From that one
//! invariant follow the guarantees a run gives: a finished run holds no
//! process, requests reach only a live target, and in a proxy run the
//! origin is not stopped while the proxy is still there.

use vstd::prelude::*;
use crate::batch::{Batch, BatchState, Stage};
use crate::failure::Failure;
use crate::plan::{phase_at, plan, Phase, Step};
use crate::run::{Role, RunSpec};
use crate::sequencer::{issued, next, recorded, ActionView, Event, State, Status};
use crate::server::Kind;

verus! {

/// Whether the process that plays `process` is held once the first `done`
/// steps of `steps` have completed: it was launched and not reaped since.
pub open spec fn held(steps: Seq<Step>, done: nat, process: Role) -> bool
    decreases done,
{
    if done == 0 || done > steps.len() {
        false
    } else {
        match steps[done - 1] {
            Step::Launch(r) if r == process => true,
            Step::Reap(r) if r == process => false,
            _ => held(steps, (done - 1) as nat, process),
        }
    }
}

/// Whether the run was aborted by a reap of `process` of which only the
/// write failed: the process is gone, though its reap did not complete.
pub open spec fn lost_output(run: RunSpec, state: State, process: Role) -> bool {
    &&& state.status == Status::Aborted(Failure::Collect)
    &&& state.done < plan(run.role()).len()
    &&& plan(run.role())[state.done as int] == Step::Reap(process)
}

/// The invariant of a run: a pid is kept exactly of the processes that
/// were launched and have not exited under a reap.
pub open spec fn inv(run: RunSpec, state: State) -> bool {
    let steps = plan(run.role());
    &&& state.done <= steps.len()
    &&& state.status == Status::Finished <==> state.done == steps.len()
    &&& forall|process: Role| #[trigger]
        state.pid(process) is Some ==> held(steps, state.done, process)
    &&& forall|process: Role|
        held(steps, state.done, process) && #[trigger] state.pid(process) is None ==> lost_output(
            run,
            state,
            process,
        )
}

/// The invariant holds when a run begins.
pub proof fn lemma_inv_begins(run: RunSpec, cwd: Seq<char>)
    ensures
        inv(run, issued(run, cwd, State::initial()).0),
        issued(run, cwd, State::initial()).1 == (ActionView::Wait { seconds: 10 }),
{
    let steps = plan(run.role());
    assert(steps[0] == Step::Settle);
}

/// Every transition keeps the invariant.
pub proof fn lemma_inv_kept(run: RunSpec, cwd: Seq<char>, state: State, event: Event)
    requires
        inv(run, state),
    ensures
        inv(run, next(run, cwd, state, event).0),
{
    let steps = plan(run.role());
    let after = recorded(run, state, event);
    assert(inv(run, after)) by {
        match state.awaited(run) {
            None => {},
            Some(step) => {
                assert(step == steps[state.done as int]);
                assert forall|process: Role| #[trigger]
                    after.pid(process) is Some implies held(steps, after.done, process) by {
                    assert(state.pid(process) is Some ==> held(steps, state.done, process));
                }
                assert forall|process: Role|
                    held(steps, after.done, process) && #[trigger] after.pid(process)
                        is None implies lost_output(run, after, process) by {
                    assert(state.pid(process) is Some || !held(steps, state.done, process));
                }
            },
        }
    }
    let last = next(run, cwd, state, event).0;
    assert(last.done == after.done && last.origin_pid == after.origin_pid && last.proxy_pid
        == after.proxy_pid);
    assert(last.status != after.status ==> after.status == Status::Running);
    assert forall|process: Role| #[trigger]
        last.pid(process) is Some implies held(steps, last.done, process) by {
        assert(after.pid(process) is Some ==> held(steps, after.done, process));
    }
    assert forall|process: Role|
        held(steps, last.done, process) && #[trigger] last.pid(process) is None implies lost_output(
        run,
        last,
        process,
    ) by {
        assert(held(steps, after.done, process) && after.pid(process) is None ==> lost_output(
            run,
            after,
            process,
        ));
    }
}

/// Once a run has finished or was aborted, nothing is attempted any more:
/// every event is answered with a halt and leaves the state as it is.
pub proof fn lemma_halted_stays(run: RunSpec, cwd: Seq<char>, state: State, event: Event)
    requires
        state.status != Status::Running,
    ensures
        next(run, cwd, state, event) == (state, ActionView::Halt),
{
}

/// A reap fails in two ways. Where the wait itself fails, the process is
/// still held when the run ends. Where the process exited and only its
/// output could not be written, the run ends as well, but holds the
/// process no longer. Either way nothing further is attempted.
pub proof fn lemma_failed_reap(
    run: RunSpec,
    cwd: Seq<char>,
    state: State,
    event: Event,
    process: Role,
)
    requires
        state.awaited(run) == Some(Step::Reap(process)),
        event is Failed || event is Reaped,
    ensures
        next(run, cwd, state, event).1 == ActionView::Halt,
        next(run, cwd, state, event).0.status == Status::Aborted(Failure::Collect),
        next(run, cwd, state, event).0.done == state.done,
        event is Reaped ==> next(run, cwd, state, event).0 == (State {
            status: Status::Aborted(Failure::Collect),
            ..state
        }).with_pid(process, None),
        event is Failed ==> next(run, cwd, state, event).0 == (State {
            status: Status::Aborted(Failure::Collect),
            ..state
        }),
{
}

/// A finished run holds no process: each was reaped. Its phase is
/// `Collected`, and no other state has that phase.
pub proof fn lemma_finished_is_collected(run: RunSpec, state: State)
    requires
        inv(run, state),
    ensures
        state.status == Status::Finished ==> state.origin_pid is None && state.proxy_pid is None,
        state.status == Status::Finished <==> state.phase(run) == Phase::Collected,
{
    let role = run.role();
    let steps = plan(role);
    reveal_with_fuel(held, 16);
    reveal_with_fuel(phase_at, 16);
    assert(state.pid(Role::Origin) is Some ==> held(steps, state.done, Role::Origin));
    assert(state.pid(Role::Proxy) is Some ==> held(steps, state.done, Role::Proxy));
    lemma_phase_table(role, state.done);
}

/// A request is sent only to a live target that has warmed up.
pub proof fn lemma_requests_reach_live_target(
    run: RunSpec,
    cwd: Seq<char>,
    state: State,
    event: Event,
)
    requires
        inv(run, state),
        next(run, cwd, state, event).1 is Capture,
    ensures
        next(run, cwd, state, event).0.pid(run.role()) is Some,
        next(run, cwd, state, event).0.phase(run) == Phase::WarmingUp || next(
            run,
            cwd,
            state,
            event,
        ).0.phase(run) == Phase::Probed || next(run, cwd, state, event).0.phase(run)
            == Phase::LoadTesting1,
{
    lemma_inv_kept(run, cwd, state, event);
    let after = next(run, cwd, state, event).0;
    let role = run.role();
    let steps = plan(role);
    reveal_with_fuel(held, 16);
    assert(after.pid(role) is None ==> !held(steps, after.done, role) || lost_output(
        run,
        after,
        role,
    ));
    lemma_phase_table(role, after.done);
}

/// In a proxy run the origin is stopped only after the proxy has been
/// stopped and reaped: when the action that stops the origin is handed out,
/// the proxy is no longer held.
pub proof fn lemma_proxy_gone_before_origin_stops(
    run: RunSpec,
    cwd: Seq<char>,
    state: State,
    event: Event,
)
    requires
        inv(run, state),
        run.role() == Role::Proxy,
        next(run, cwd, state, event).1 matches ActionView::Stop { role: Role::Origin, .. },
    ensures
        next(run, cwd, state, event).0.proxy_pid is None,
        next(run, cwd, state, event).0.origin_pid is Some,
        next(run, cwd, state, event).0.phase(run) == Phase::Terminated,
{
    lemma_inv_kept(run, cwd, state, event);
    let after = next(run, cwd, state, event).0;
    let steps = plan(Role::Proxy);
    reveal_with_fuel(held, 16);
    assert(after.pid(Role::Proxy) is Some ==> held(steps, after.done, Role::Proxy));
    assert(after.pid(Role::Origin) is None ==> !held(steps, after.done, Role::Origin)
        || lost_output(run, after, Role::Origin));
    lemma_phase_table(Role::Proxy, after.done);
}

/// A fleet is stopped by matching process names, never by a signal to one
/// pid or by killing one handle.
pub proof fn lemma_fleet_stopped_by_pattern(
    run: RunSpec,
    cwd: Seq<char>,
    state: State,
    event: Event,
)
    requires
        next(run, cwd, state, event).1 matches ActionView::Stop { role, .. } && run.server(
            role,
        ).spec_kind() == Kind::MultiProcessFleet,
    ensures
        next(run, cwd, state, event).1 matches ActionView::Stop { how, .. }
            && how is PatternKill,
{
}

/// The phase after each number of completed steps.
proof fn lemma_phase_table(role: Role, done: nat)
    requires
        done <= plan(role).len(),
    ensures
        phase_at(role, done) == match role {
            Role::Origin => if done < 2 {
                Phase::Idle
            } else if done < 4 {
                Phase::Spawned
            } else if done < 5 {
                Phase::WarmingUp
            } else if done < 7 {
                Phase::Probed
            } else if done < 9 {
                Phase::LoadTesting1
            } else if done < 10 {
                Phase::LoadTesting2
            } else if done < 11 {
                Phase::Terminated
            } else {
                Phase::Collected
            },
            Role::Proxy => if done < 2 {
                Phase::Idle
            } else if done < 3 {
                Phase::Spawned
            } else if done < 4 {
                Phase::WarmingUp
            } else if done < 6 {
                Phase::Spawned
            } else if done < 7 {
                Phase::WarmingUp
            } else if done < 9 {
                Phase::Probed
            } else if done < 11 {
                Phase::LoadTesting1
            } else if done < 12 {
                Phase::LoadTesting2
            } else if done < 15 {
                Phase::Terminated
            } else {
                Phase::Collected
            },
        },
{
    reveal_with_fuel(phase_at, 16);
}

/// The invariant of a batch.
pub open spec fn batch_inv(batch: Batch, state: BatchState) -> bool {
    match state.stage {
        Stage::Prelude => state.index == 0 && state.inner is None,
        Stage::Running => {
            &&& state.index < batch.runs().len()
            &&& state.inner matches Some(inner)
            &&& inner.status == Status::Running
            &&& inv(batch.runs()[state.index as int], inner)
        },
        Stage::Postlude | Stage::Finished => {
            &&& state.index == batch.runs().len()
            &&& state.inner is None
        },
        Stage::Aborted(failure) => {
            &&& state.index <= batch.runs().len()
            &&& state.inner matches Some(inner) ==> {
                &&& state.index < batch.runs().len()
                &&& inner.status == Status::Aborted(failure)
                &&& inv(batch.runs()[state.index as int], inner)
            }
        },
    }
}

/// The invariant holds when a batch begins.
pub proof fn lemma_batch_inv_begins(batch: Batch)
    ensures
        batch_inv(batch, Batch::begun().0),
{
}

/// Every transition of a batch keeps the invariant.
pub proof fn lemma_batch_inv_kept(batch: Batch, cwd: Seq<char>, state: BatchState, event: Event)
    requires
        batch_inv(batch, state),
    ensures
        batch_inv(batch, batch.next(cwd, state, event).0),
{
    match state.stage {
        Stage::Prelude => {
            lemma_entered_keeps_inv(batch, cwd, 0);
        },
        Stage::Running => {
            let run = batch.runs()[state.index as int];
            lemma_inv_kept(run, cwd, state.inner->0, event);
            lemma_entered_keeps_inv(batch, cwd, state.index + 1);
        },
        _ => {},
    }
}

/// Once a batch has finished or was aborted, nothing is attempted any more.
pub proof fn lemma_batch_halted_stays(
    batch: Batch,
    cwd: Seq<char>,
    state: BatchState,
    event: Event,
)
    requires
        state.stage is Finished || state.stage is Aborted,
    ensures
        batch.next(cwd, state, event) == (state, ActionView::Halt),
{
}

/// The first failure that a run does not absorb ends the batch: the batch
/// is aborted with that failure, no action is handed out, and the count of
/// completed runs stays where it was, so that no later run is ever begun.
pub proof fn lemma_batch_aborts_on_first_failure(
    batch: Batch,
    cwd: Seq<char>,
    state: BatchState,
    event: Event,
    failure: Failure,
)
    requires
        batch_inv(batch, state),
        state.stage == Stage::Running,
        next(batch.runs()[state.index as int], cwd, state.inner->0, event).0.status
            == Status::Aborted(failure),
    ensures
        batch.next(cwd, state, event).0.stage == Stage::Aborted(failure),
        batch.next(cwd, state, event).0.index == state.index,
        batch.next(cwd, state, event).1 == ActionView::Halt,
        forall|later: Event|
            batch.next(cwd, batch.next(cwd, state, event).0, later) == (
                batch.next(cwd, state, event).0,
                ActionView::Halt,
            ),
{
}

/// Runs never overlap: a batch moves on to its next run only when the run
/// under way has finished, and a finished run holds no process.
pub proof fn lemma_runs_never_overlap(
    batch: Batch,
    cwd: Seq<char>,
    state: BatchState,
    event: Event,
)
    requires
        batch_inv(batch, state),
        state.stage == Stage::Running,
        batch.next(cwd, state, event).0.index != state.index,
    ensures
        batch.next(cwd, state, event).0.index == state.index + 1,
        ({
            let ended = next(batch.runs()[state.index as int], cwd, state.inner->0, event).0;
            &&& ended.status == Status::Finished
            &&& ended.origin_pid is None
            &&& ended.proxy_pid is None
        }),
{
    let run = batch.runs()[state.index as int];
    lemma_inv_kept(run, cwd, state.inner->0, event);
    lemma_finished_is_collected(run, next(run, cwd, state.inner->0, event).0);
}

/// Entering a run, or leaving the last one, establishes the invariant.
proof fn lemma_entered_keeps_inv(batch: Batch, cwd: Seq<char>, index: nat)
    requires
        index <= batch.runs().len(),
    ensures
        batch_inv(batch, batch.entered(cwd, index).0),
{
    if index < batch.runs().len() {
        lemma_inv_begins(batch.runs()[index as int], cwd);
    }
}

} // verus!
