//! The ordered steps of a run.
//!
//! A run is a fixed sequence of steps. An origin run starts one process; a
//! proxy run starts the origin, lets it warm up, and only then starts the
//! proxy in front of it. Teardown mirrors the start: the proxy is stopped and
//! reaped before the origin is touched.

use vstd::prelude::*;
use crate::artifact::Artifact;
use crate::run::Role;

verus! {

/// One step of a run.
#[derive(Clone, Copy, Debug, PartialEq, Eq, Structural)]
pub enum Step {
    /// Wait for the ports of the previous run to be released.
    Settle,
    /// Start the process that plays the given role.
    Launch(Role),
    /// Wait for the process started last to accept connections.
    WarmUp,
    /// Create the run's directory.
    PrepareOutput,
    /// Issue the single probe request.
    Probe,
    /// Wait between two tool invocations.
    Pause,
    /// Run one load-test phase.
    Load { keepalive: bool },
    /// Stop the process that plays the given role.
    Stop(Role),
    /// Wait for the stopped process to exit and keep what it wrote.
    Reap(Role),
}

/// Where a run stands.
#[derive(Clone, Copy, Debug, PartialEq, Eq, Structural)]
pub enum Phase {
    Idle,
    Spawned,
    WarmingUp,
    Probed,
    LoadTesting1,
    LoadTesting2,
    Terminated,
    Collected,
}

/// The steps of a run of the given role, in order.
pub open spec fn plan(role: Role) -> Seq<Step> {
    match role {
        Role::Origin => seq![
            Step::Settle,
            Step::Launch(Role::Origin),
            Step::PrepareOutput,
            Step::WarmUp,
            Step::Probe,
            Step::Pause,
            Step::Load { keepalive: false },
            Step::Pause,
            Step::Load { keepalive: true },
            Step::Stop(Role::Origin),
            Step::Reap(Role::Origin),
        ],
        Role::Proxy => seq![
            Step::Settle,
            Step::Launch(Role::Origin),
            Step::WarmUp,
            Step::Launch(Role::Proxy),
            Step::PrepareOutput,
            Step::WarmUp,
            Step::Probe,
            Step::Pause,
            Step::Load { keepalive: false },
            Step::Pause,
            Step::Load { keepalive: true },
            Step::Stop(Role::Proxy),
            Step::Reap(Role::Proxy),
            Step::Stop(Role::Origin),
            Step::Reap(Role::Origin),
        ],
    }
}

impl Step {
    /// How long a waiting step waits, in seconds; zero for the others.
    pub open spec fn spec_seconds(self) -> u64 {
        match self {
            Step::Settle => 10,
            Step::WarmUp => 2,
            Step::Pause => 1,
            _ => 0,
        }
    }

    /// The artifact the step writes, if it writes one.
    pub open spec fn spec_artifact(self) -> Option<Artifact> {
        match self {
            Step::Probe => Some(Artifact::Probe),
            Step::Load { keepalive: false } => Some(Artifact::LoadNoKeepAlive),
            Step::Load { keepalive: true } => Some(Artifact::LoadKeepAlive),
            Step::Reap(Role::Origin) => Some(Artifact::OriginOutput),
            Step::Reap(Role::Proxy) => Some(Artifact::ProxyOutput),
            _ => None,
        }
    }

    /// Whether the step sends a request to the target.
    pub open spec fn is_request(self) -> bool {
        self is Probe || self is Load
    }

    /// Returns how long a waiting step waits, in seconds.
    pub fn seconds(self) -> (seconds: u64)
        ensures
            seconds == self.spec_seconds(),
    {
        match self {
            Step::Settle => 10,
            Step::WarmUp => 2,
            Step::Pause => 1,
            _ => 0,
        }
    }

    /// Returns the artifact the step writes, if it writes one.
    pub fn artifact(self) -> (artifact: Option<Artifact>)
        ensures
            artifact == self.spec_artifact(),
    {
        match self {
            Step::Probe => Some(Artifact::Probe),
            Step::Load { keepalive } => if keepalive {
                Some(Artifact::LoadKeepAlive)
            } else {
                Some(Artifact::LoadNoKeepAlive)
            },
            Step::Reap(Role::Origin) => Some(Artifact::OriginOutput),
            Step::Reap(Role::Proxy) => Some(Artifact::ProxyOutput),
            _ => None,
        }
    }
}

/// The phase a run is in once `step` has completed in phase `before`, where
/// `last` says whether it was the run's last step.
pub open spec fn phase_after(before: Phase, step: Step, last: bool) -> Phase {
    match step {
        Step::Launch(_) => Phase::Spawned,
        Step::WarmUp => Phase::WarmingUp,
        Step::Probe => Phase::Probed,
        Step::Load { keepalive: false } => Phase::LoadTesting1,
        Step::Load { keepalive: true } => Phase::LoadTesting2,
        Step::Stop(_) => Phase::Terminated,
        Step::Reap(_) => if last {
            Phase::Collected
        } else {
            Phase::Terminated
        },
        _ => before,
    }
}

/// The phase of a run of the given role of which the first `done` steps have
/// completed.
pub open spec fn phase_at(role: Role, done: nat) -> Phase
    decreases done,
{
    if done == 0 || done > plan(role).len() {
        Phase::Idle
    } else {
        phase_after(
            phase_at(role, (done - 1) as nat),
            plan(role)[done - 1],
            done == plan(role).len(),
        )
    }
}

/// Returns the number of steps of a run of the given role.
pub fn plan_len(role: Role) -> (len: usize)
    ensures
        len == plan(role).len(),
{
    match role {
        Role::Origin => 11,
        Role::Proxy => 15,
    }
}

/// Returns the step at `index` of a run of the given role, if there is one.
pub fn step_at(role: Role, index: usize) -> (step: Option<Step>)
    ensures
        step == if index < plan(role).len() {
            Some(plan(role)[index as int])
        } else {
            None
        },
{
    match role {
        Role::Origin => match index {
            0 => Some(Step::Settle),
            1 => Some(Step::Launch(Role::Origin)),
            2 => Some(Step::PrepareOutput),
            3 => Some(Step::WarmUp),
            4 => Some(Step::Probe),
            5 => Some(Step::Pause),
            6 => Some(Step::Load { keepalive: false }),
            7 => Some(Step::Pause),
            8 => Some(Step::Load { keepalive: true }),
            9 => Some(Step::Stop(Role::Origin)),
            10 => Some(Step::Reap(Role::Origin)),
            _ => None,
        },
        Role::Proxy => match index {
            0 => Some(Step::Settle),
            1 => Some(Step::Launch(Role::Origin)),
            2 => Some(Step::WarmUp),
            3 => Some(Step::Launch(Role::Proxy)),
            4 => Some(Step::PrepareOutput),
            5 => Some(Step::WarmUp),
            6 => Some(Step::Probe),
            7 => Some(Step::Pause),
            8 => Some(Step::Load { keepalive: false }),
            9 => Some(Step::Pause),
            10 => Some(Step::Load { keepalive: true }),
            11 => Some(Step::Stop(Role::Proxy)),
            12 => Some(Step::Reap(Role::Proxy)),
            13 => Some(Step::Stop(Role::Origin)),
            14 => Some(Step::Reap(Role::Origin)),
            _ => None,
        },
    }
}

/// Whether every occurrence of `later` in `steps` comes after an occurrence
/// of `earlier`.
pub open spec fn precedes(steps: Seq<Step>, earlier: Step, later: Step) -> bool {
    forall|i: int|
        0 <= i < steps.len() && steps[i] == later ==> exists|j: int|
            0 <= j < i && #[trigger] steps[j] == earlier
}

/// Whether `step` occurs exactly once in `steps`.
pub open spec fn once(steps: Seq<Step>, step: Step) -> bool {
    exists|i: int|
        0 <= i < steps.len() && #[trigger] steps[i] == step && forall|j: int|
            0 <= j < steps.len() && #[trigger] steps[j] == step ==> j == i
}

/// No request is sent before the variant under test has been started and
/// the warm-up that follows its start has passed.
pub proof fn lemma_requests_follow_warm_up(role: Role, i: int)
    requires
        0 <= i < plan(role).len(),
        plan(role)[i].is_request(),
    ensures
        exists|k: int, j: int|
            0 <= k < j < i && #[trigger] plan(role)[k] == Step::Launch(role)
                && #[trigger] plan(role)[j] == Step::WarmUp,
{
    match role {
        Role::Origin => {
            assert(plan(role)[1] == Step::Launch(role) && plan(role)[3] == Step::WarmUp);
        },
        Role::Proxy => {
            assert(plan(role)[3] == Step::Launch(role) && plan(role)[5] == Step::WarmUp);
        },
    }
}

/// The probe completes before load-testing begins, and the phase without
/// keep-alive before the phase with it; each of the three happens once.
pub proof fn lemma_probe_then_two_phases(role: Role)
    ensures
        precedes(plan(role), Step::Probe, Step::Load { keepalive: false }),
        precedes(plan(role), Step::Load { keepalive: false }, Step::Load { keepalive: true }),
        once(plan(role), Step::Probe),
        once(plan(role), Step::Load { keepalive: false }),
        once(plan(role), Step::Load { keepalive: true }),
{
    let steps = plan(role);
    match role {
        Role::Origin => {
            assert(steps[4] == Step::Probe);
            assert(steps[6] == Step::Load { keepalive: false });
            assert(steps[8] == Step::Load { keepalive: true });
        },
        Role::Proxy => {
            assert(steps[6] == Step::Probe);
            assert(steps[8] == Step::Load { keepalive: false });
            assert(steps[10] == Step::Load { keepalive: true });
        },
    }
}

/// Every process is stopped before it is reaped, nothing is stopped before
/// both load-test phases are over, and the run ends by reaping the origin.
pub proof fn lemma_teardown_follows_load(role: Role, process: Role)
    ensures
        precedes(plan(role), Step::Load { keepalive: true }, Step::Stop(process)),
        precedes(plan(role), Step::Stop(process), Step::Reap(process)),
        plan(role).last() == Step::Reap(Role::Origin),
{
    let steps = plan(role);
    match role {
        Role::Origin => {
            assert(steps[8] == Step::Load { keepalive: true });
            assert(steps[9] == Step::Stop(Role::Origin));
        },
        Role::Proxy => {
            assert(steps[10] == Step::Load { keepalive: true });
            assert(steps[11] == Step::Stop(Role::Proxy));
            assert(steps[13] == Step::Stop(Role::Origin));
        },
    }
}

/// In a proxy run the origin is started and warmed up before the proxy is
/// started, and the proxy is stopped and reaped before the origin is
/// stopped.
pub proof fn lemma_proxy_nested_in_origin()
    ensures
        exists|k: int, j: int, i: int|
            0 <= k < j < i < plan(Role::Proxy).len() && #[trigger] plan(Role::Proxy)[k]
                == Step::Launch(Role::Origin) && #[trigger] plan(Role::Proxy)[j] == Step::WarmUp
                && #[trigger] plan(Role::Proxy)[i] == Step::Launch(Role::Proxy),
        precedes(plan(Role::Proxy), Step::Launch(Role::Origin), Step::Launch(Role::Proxy)),
        precedes(plan(Role::Proxy), Step::Reap(Role::Proxy), Step::Stop(Role::Origin)),
        precedes(plan(Role::Proxy), Step::Stop(Role::Proxy), Step::Reap(Role::Proxy)),
{
    let steps = plan(Role::Proxy);
    assert(steps[1] == Step::Launch(Role::Origin) && steps[2] == Step::WarmUp && steps[3]
        == Step::Launch(Role::Proxy));
    assert(steps[11] == Step::Stop(Role::Proxy));
    assert(steps[12] == Step::Reap(Role::Proxy));
}

} // verus!
