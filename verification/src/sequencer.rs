//! The lifecycle sequencer: one run, step by step.
//!
//! The sequencer performs nothing itself. It hands out one [`Action`] at a
//! time; the caller performs it and reports what happened as an [`Event`],
//! which yields the next action. The rules of a run are all decided here:
//! the order of the steps, what each step starts or writes, which failure
//! ends the run and which is only noted.

use vstd::prelude::*;
use vstd::string::*;
use crate::artifact::Artifact;
use crate::command::{
    load_test_command, load_test_line, probe_command, probe_line, CommandLine, CommandLineView,
};
use crate::failure::Failure;
use crate::plan::{phase_at, plan, plan_len, step_at, Phase, Step};
use crate::run::{BenchmarkRun, Role, RunSpec};
use crate::server::{Kind, Termination, TerminationView};

verus! {

/// Whether a run is under way, and how it ended if it is not.
#[derive(Clone, Copy, Debug, PartialEq, Eq, Structural)]
pub enum Status {
    /// Steps remain.
    Running,
    /// Every step completed.
    Finished,
    /// A step failed; nothing further is attempted.
    Aborted(Failure),
}

/// What happened to the action handed out last.
#[derive(Clone, Copy, Debug, PartialEq, Eq, Structural)]
pub enum Event {
    /// The action was performed.
    Done,
    /// The process was started and has this pid.
    Spawned { pid: u32 },
    /// The process exited and its handle is released, but what it wrote
    /// could not be kept.
    Reaped,
    /// The action could not be performed. Of a wait: a process that the
    /// run holds has exited. Of a reap: the wait for the process failed, so
    /// that its handle is still held.
    Failed,
}

/// What the caller is asked to do next.
#[derive(Debug, PartialEq, Eq)]
pub enum Action {
    /// Sleep, then look at the processes held: answer [`Event::Failed`]
    /// where one of them has exited meanwhile.
    Wait { seconds: u64 },
    /// Start `command` with its standard output captured and keep its
    /// handle under `role`; answer with [`Event::Spawned`].
    Launch { role: Role, command: CommandLine },
    /// Create the directory and its parents; an existing one is kept.
    CreateDir { path: String },
    /// Run `command` to completion and write its standard output to
    /// `artifact`, replacing what the file held.
    Capture { command: CommandLine, artifact: String },
    /// Stop the process kept under `role`.
    Stop { role: Role, how: Termination },
    /// Wait for the process kept under `role` to exit and release its
    /// handle, then write the standard output captured from it to
    /// `artifact`, replacing what the file held. Answer [`Event::Failed`]
    /// where the wait fails and [`Event::Reaped`] where only the write does.
    Reap { role: Role, artifact: String },
    /// Run `command` to completion; what it writes is not kept.
    Run { command: CommandLine },
    /// Nothing: the work has finished or was aborted.
    Halt,
}

/// What an [`Action`] stands for.
pub enum ActionView {
    Wait { seconds: u64 },
    Launch { role: Role, command: CommandLineView },
    CreateDir { path: Seq<char> },
    Capture { command: CommandLineView, artifact: Seq<char> },
    Stop { role: Role, how: TerminationView },
    Reap { role: Role, artifact: Seq<char> },
    Run { command: CommandLineView },
    Halt,
}

impl View for Action {
    type V = ActionView;

    open spec fn view(&self) -> ActionView {
        match self {
            Action::Wait { seconds } => ActionView::Wait { seconds: *seconds },
            Action::Launch { role, command } => ActionView::Launch {
                role: *role,
                command: command@,
            },
            Action::CreateDir { path } => ActionView::CreateDir { path: path@ },
            Action::Capture { command, artifact } => ActionView::Capture {
                command: command@,
                artifact: artifact@,
            },
            Action::Stop { role, how } => ActionView::Stop { role: *role, how: how@ },
            Action::Reap { role, artifact } => ActionView::Reap {
                role: *role,
                artifact: artifact@,
            },
            Action::Run { command } => ActionView::Run { command: command@ },
            Action::Halt => ActionView::Halt,
        }
    }
}

/// The state of a run.
pub struct State {
    /// How many steps have completed.
    pub done: nat,
    /// The pid of the origin, from its launch until it is reaped.
    pub origin_pid: Option<u32>,
    /// The pid of the proxy, from its launch until it is reaped.
    pub proxy_pid: Option<u32>,
    /// Whether the run is under way.
    pub status: Status,
    /// The roles whose termination failed without ending the run, in order.
    pub warnings: Seq<Role>,
}

impl State {
    /// The state of a run of which nothing has happened yet.
    pub open spec fn initial() -> State {
        State {
            done: 0,
            origin_pid: None,
            proxy_pid: None,
            status: Status::Running,
            warnings: Seq::empty(),
        }
    }

    /// The pid of the process that plays `role`, while it is alive.
    pub open spec fn pid(self, role: Role) -> Option<u32> {
        match role {
            Role::Origin => self.origin_pid,
            Role::Proxy => self.proxy_pid,
        }
    }

    /// The state with the pid of `role` replaced.
    pub open spec fn with_pid(self, role: Role, pid: Option<u32>) -> State {
        match role {
            Role::Origin => State { origin_pid: pid, ..self },
            Role::Proxy => State { proxy_pid: pid, ..self },
        }
    }

    /// The step whose outcome is awaited, if the run is under way.
    pub open spec fn awaited(self, run: RunSpec) -> Option<Step> {
        if self.status == Status::Running && self.done < plan(run.role()).len() {
            Some(plan(run.role())[self.done as int])
        } else {
            None
        }
    }

    /// The phase of the run.
    pub open spec fn phase(self, run: RunSpec) -> Phase {
        phase_at(run.role(), self.done)
    }
}

/// The failure that ends the run when `step` fails.
pub open spec fn failure_of(step: Step) -> Failure {
    match step {
        Step::Launch(_) => Failure::Spawn,
        // A wait fails where a process of the run has exited during it: it
        // did not come up, as when its port is taken, or did not stay up.
        Step::Settle | Step::WarmUp | Step::Pause => Failure::Spawn,
        Step::Stop(_) => Failure::Termination,
        Step::Probe => Failure::Tool,
        Step::Load { .. } => Failure::Tool,
        Step::PrepareOutput => Failure::Collect,
        Step::Reap(_) => Failure::Collect,
    }
}

/// Whether `event` reports that `step` succeeded. A launch succeeds with a
/// pid, every other step without one.
pub open spec fn succeeded(step: Step, event: Event) -> bool {
    match step {
        Step::Launch(_) => event is Spawned,
        _ => event is Done,
    }
}

/// Whether the failure of `step` is noted and the run goes on. This holds of
/// one case: stopping a fleet, whose processes may all be gone already.
pub open spec fn tolerated(run: RunSpec, step: Step, event: Event) -> bool {
    &&& event is Failed
    &&& step matches Step::Stop(role)
    &&& run.has(role)
    &&& run.server(role).spec_kind() == Kind::MultiProcessFleet
}

/// The state once `step` has completed with `event`.
pub open spec fn completed(run: RunSpec, state: State, step: Step, event: Event) -> State {
    let done = state.done + 1;
    let advanced = State {
        done: done as nat,
        status: if done == plan(run.role()).len() {
            Status::Finished
        } else {
            Status::Running
        },
        ..state
    };
    match (step, event) {
        (Step::Launch(role), Event::Spawned { pid }) => advanced.with_pid(role, Some(pid)),
        (Step::Reap(role), _) => advanced.with_pid(role, None),
        (Step::Stop(role), Event::Failed) => State {
            warnings: state.warnings.push(role),
            ..advanced
        },
        _ => advanced,
    }
}

/// The state once `step` has failed with `event`. The handles stay as they
/// are, with one exception: a reap of which only the write failed has
/// released the process all the same.
pub open spec fn aborted(state: State, step: Step, event: Event) -> State {
    let failed = State { status: Status::Aborted(failure_of(step)), ..state };
    match (step, event) {
        (Step::Reap(role), Event::Reaped) => failed.with_pid(role, None),
        _ => failed,
    }
}

/// The state once `event` has been reported.
pub open spec fn recorded(run: RunSpec, state: State, event: Event) -> State {
    match state.awaited(run) {
        None => state,
        Some(step) => if succeeded(step, event) || tolerated(run, step, event) {
            completed(run, state, step, event)
        } else {
            aborted(state, step, event)
        },
    }
}

/// The action that performs `step`, or the failure that keeps it from
/// being attempted.
pub open spec fn action_for(run: RunSpec, cwd: Seq<char>, state: State, step: Step) -> Result<
    ActionView,
    Failure,
> {
    match step {
        Step::Settle | Step::WarmUp | Step::Pause => Ok(
            ActionView::Wait { seconds: step.spec_seconds() },
        ),
        Step::Launch(role) => if run.has(role) {
            Ok(ActionView::Launch { role, command: run.server(role).spec_launch(cwd) })
        } else {
            Err(Failure::Spawn)
        },
        Step::PrepareOutput => Ok(ActionView::CreateDir { path: run.output_dir() }),
        Step::Probe => Ok(
            ActionView::Capture {
                command: probe_line(run.target_url()),
                artifact: Artifact::Probe.spec_path_in(run.output_dir()),
            },
        ),
        Step::Load { keepalive } => Ok(
            ActionView::Capture {
                command: load_test_line(run.target_url(), keepalive),
                artifact: step.spec_artifact().unwrap().spec_path_in(run.output_dir()),
            },
        ),
        Step::Stop(role) => match state.pid(role) {
            Some(pid) if run.has(role) => match run.server(role).spec_termination(pid as int) {
                Ok(how) => Ok(ActionView::Stop { role, how }),
                Err(failure) => Err(failure),
            },
            _ => Err(Failure::Termination),
        },
        Step::Reap(role) => Ok(
            ActionView::Reap {
                role,
                artifact: step.spec_artifact().unwrap().spec_path_in(run.output_dir()),
            },
        ),
    }
}

/// What a built action stands for.
pub open spec fn built(action: Result<Action, Failure>) -> Result<ActionView, Failure> {
    match action {
        Ok(action) => Ok(action@),
        Err(failure) => Err(failure),
    }
}

/// The action to hand out in `state`, and the state it is handed out in:
/// the run is aborted where the awaited step cannot be attempted.
pub open spec fn issued(run: RunSpec, cwd: Seq<char>, state: State) -> (State, ActionView) {
    match state.awaited(run) {
        None => (state, ActionView::Halt),
        Some(step) => match action_for(run, cwd, state, step) {
            Ok(action) => (state, action),
            Err(failure) => (State { status: Status::Aborted(failure), ..state }, ActionView::Halt),
        },
    }
}

/// The transition: from a state and the event that answers its action to the
/// next state and its action.
pub open spec fn next(run: RunSpec, cwd: Seq<char>, state: State, event: Event) -> (
    State,
    ActionView,
) {
    issued(run, cwd, recorded(run, state, event))
}

/// Returns the failure that ends the run when `step` fails.
pub fn failure(step: Step) -> (failure: Failure)
    ensures
        failure == failure_of(step),
{
    match step {
        Step::Launch(_) | Step::Settle | Step::WarmUp | Step::Pause => Failure::Spawn,
        Step::Stop(_) => Failure::Termination,
        Step::PrepareOutput | Step::Reap(_) => Failure::Collect,
        Step::Probe | Step::Load { .. } => Failure::Tool,
    }
}

/// A run in progress.
pub struct Sequencer {
    run: BenchmarkRun,
    cwd: String,
    done: usize,
    origin_pid: Option<u32>,
    proxy_pid: Option<u32>,
    status: Status,
    warnings: Vec<Role>,
}

impl View for Sequencer {
    type V = State;

    closed spec fn view(&self) -> State {
        State {
            done: self.done as nat,
            origin_pid: self.origin_pid,
            proxy_pid: self.proxy_pid,
            status: self.status,
            warnings: self.warnings@,
        }
    }
}

impl Sequencer {
    /// The run that is sequenced.
    pub closed spec fn spec_run(&self) -> RunSpec {
        self.run@
    }

    /// The working directory the run's commands are built for.
    pub closed spec fn spec_cwd(&self) -> Seq<char> {
        self.cwd@
    }

    /// Begins `run` and hands out its first action.
    pub fn start(run: BenchmarkRun, cwd: &str) -> (started: (Sequencer, Action))
        ensures
            started.0.spec_run() == run@,
            started.0.spec_cwd() == cwd@,
            (started.0@, started.1@) == issued(run@, cwd@, State::initial()),
    {
        let mut sequencer = Sequencer {
            run,
            cwd: String::from_str(cwd),
            done: 0,
            origin_pid: None,
            proxy_pid: None,
            status: Status::Running,
            warnings: Vec::new(),
        };
        assert(sequencer@ =~= State::initial());
        let action = sequencer.issue();
        (sequencer, action)
    }

    /// Takes the outcome of the action handed out last and returns the run
    /// in its next state with the next action. Once the run has finished or
    /// was aborted, every event is answered with [`Action::Halt`] and
    /// changes nothing.
    pub fn step(self, event: Event) -> (stepped: (Sequencer, Action))
        ensures
            stepped.0.spec_run() == self.spec_run(),
            stepped.0.spec_cwd() == self.spec_cwd(),
            (stepped.0@, stepped.1@) == next(self.spec_run(), self.spec_cwd(), self@, event),
    {
        let mut sequencer = self;
        sequencer.record(event);
        let action = sequencer.issue();
        (sequencer, action)
    }

    /// The run that is sequenced.
    pub fn run(&self) -> (run: &BenchmarkRun)
        ensures
            run@ == self.spec_run(),
    {
        &self.run
    }

    /// Whether the run is under way, and how it ended if it is not.
    pub fn status(&self) -> (status: Status)
        ensures
            status == self@.status,
    {
        self.status
    }

    /// How many steps have completed.
    pub fn steps_done(&self) -> (done: usize)
        ensures
            done == self@.done,
    {
        self.done
    }

    /// The pid of the process that plays `role`, while the run holds its
    /// handle. After an aborted run this names the processes that were
    /// started and not reaped.
    pub fn live(&self, role: Role) -> (pid: Option<u32>)
        ensures
            pid == self@.pid(role),
    {
        match role {
            Role::Origin => self.origin_pid,
            Role::Proxy => self.proxy_pid,
        }
    }

    /// The roles whose termination failed without ending the run.
    pub fn warnings(&self) -> (warnings: &Vec<Role>)
        ensures
            warnings@ == self@.warnings,
    {
        &self.warnings
    }

    /// The phase of the run.
    pub fn phase(&self) -> (phase: Phase)
        ensures
            phase == self@.phase(self.spec_run()),
    {
        let role = self.run.role();
        if self.done > plan_len(role) {
            return Phase::Idle;
        }
        let mut phase = Phase::Idle;
        let mut i: usize = 0;
        while i < self.done
            invariant
                i <= self.done <= plan(role).len(),
                phase == phase_at(role, i as nat),
            decreases self.done - i,
        {
            let step = step_at(role, i).unwrap();
            let last = i + 1 == plan_len(role);
            phase = match step {
                Step::Launch(_) => Phase::Spawned,
                Step::WarmUp => Phase::WarmingUp,
                Step::Probe => Phase::Probed,
                Step::Load { keepalive } => if keepalive {
                    Phase::LoadTesting2
                } else {
                    Phase::LoadTesting1
                },
                Step::Stop(_) => Phase::Terminated,
                Step::Reap(_) => if last {
                    Phase::Collected
                } else {
                    Phase::Terminated
                },
                _ => phase,
            };
            i = i + 1;
        }
        phase
    }

    /// Whether the failure of `step` is noted and the run goes on.
    fn tolerates(&self, step: Step, event: Event) -> (tolerated_here: bool)
        ensures
            tolerated_here == tolerated(self.spec_run(), step, event),
    {
        match (step, event) {
            (Step::Stop(role), Event::Failed) => match self.run.server(role) {
                Some(server) => server.kind() == Kind::MultiProcessFleet,
                None => false,
            },
            _ => false,
        }
    }

    /// Applies `event` to the awaited step.
    fn record(&mut self, event: Event)
        ensures
            final(self).spec_run() == old(self).spec_run(),
            final(self).spec_cwd() == old(self).spec_cwd(),
            final(self)@ == recorded(old(self).spec_run(), old(self)@, event),
    {
        match self.status {
            Status::Running => {},
            _ => {
                return ;
            },
        }
        let role = self.run.role();
        let step = match step_at(role, self.done) {
            Some(step) => step,
            None => {
                return ;
            },
        };
        let success = match (step, event) {
            (Step::Launch(_), Event::Spawned { .. }) => true,
            (Step::Launch(_), _) => false,
            (_, Event::Done) => true,
            _ => false,
        };
        if !success && !self.tolerates(step, event) {
            self.status = Status::Aborted(failure(step));
            match (step, event) {
                (Step::Reap(Role::Origin), Event::Reaped) => {
                    self.origin_pid = None;
                },
                (Step::Reap(Role::Proxy), Event::Reaped) => {
                    self.proxy_pid = None;
                },
                _ => {},
            }
            return ;
        }
        self.done = self.done + 1;
        if self.done == plan_len(role) {
            self.status = Status::Finished;
        }
        match (step, event) {
            (Step::Launch(Role::Origin), Event::Spawned { pid }) => {
                self.origin_pid = Some(pid);
            },
            (Step::Launch(Role::Proxy), Event::Spawned { pid }) => {
                self.proxy_pid = Some(pid);
            },
            (Step::Reap(Role::Origin), _) => {
                self.origin_pid = None;
            },
            (Step::Reap(Role::Proxy), _) => {
                self.proxy_pid = None;
            },
            (Step::Stop(role), Event::Failed) => {
                self.warnings.push(role);
            },
            _ => {},
        }
    }

    /// Builds the action that performs `step`.
    fn action(&self, step: Step) -> (action: Result<Action, Failure>)
        ensures
            built(action) == action_for(self.spec_run(), self.spec_cwd(), self@, step),
    {
        match step {
            Step::Settle | Step::WarmUp | Step::Pause => Ok(
                Action::Wait { seconds: step.seconds() },
            ),
            Step::Launch(role) => match self.run.server(role) {
                Some(server) => Ok(
                    Action::Launch { role, command: server.launch(self.cwd.as_str()) },
                ),
                None => Err(Failure::Spawn),
            },
            Step::PrepareOutput => Ok(
                Action::CreateDir { path: String::from_str(self.run.output_dir()) },
            ),
            Step::Probe => Ok(
                Action::Capture {
                    command: probe_command(self.run.target_url()),
                    artifact: Artifact::Probe.path_in(self.run.output_dir()),
                },
            ),
            Step::Load { keepalive } => {
                let artifact = if keepalive {
                    Artifact::LoadKeepAlive
                } else {
                    Artifact::LoadNoKeepAlive
                };
                Ok(
                    Action::Capture {
                        command: load_test_command(self.run.target_url(), keepalive),
                        artifact: artifact.path_in(self.run.output_dir()),
                    },
                )
            },
            Step::Stop(role) => match (self.live(role), self.run.server(role)) {
                (Some(pid), Some(server)) => match server.termination(pid) {
                    Ok(how) => Ok(Action::Stop { role, how }),
                    Err(failure) => Err(failure),
                },
                _ => Err(Failure::Termination),
            },
            Step::Reap(role) => {
                let artifact = match role {
                    Role::Origin => Artifact::OriginOutput,
                    Role::Proxy => Artifact::ProxyOutput,
                };
                Ok(Action::Reap { role, artifact: artifact.path_in(self.run.output_dir()) })
            },
        }
    }

    /// Hands out the action of the awaited step, or aborts the run where
    /// that step cannot be attempted.
    fn issue(&mut self) -> (action: Action)
        ensures
            final(self).spec_run() == old(self).spec_run(),
            final(self).spec_cwd() == old(self).spec_cwd(),
            (final(self)@, action@) == issued(old(self).spec_run(), old(self).spec_cwd(), old(self)@),
    {
        match self.status {
            Status::Running => {},
            _ => {
                return Action::Halt;
            },
        }
        let step = match step_at(self.run.role(), self.done) {
            Some(step) => step,
            None => {
                return Action::Halt;
            },
        };
        match self.action(step) {
            Ok(action) => action,
            Err(failure) => {
                self.status = Status::Aborted(failure);
                Action::Halt
            },
        }
    }
}

} // verus!
