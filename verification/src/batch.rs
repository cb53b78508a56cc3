//! The batch: every scheduled run, one after the other.
//!
//! Runs never overlap, since every variant binds the same ports. The first
//! failure that a run does not absorb ends the batch: no later run is begun.
//! Around the runs the CPU frequency governor is switched to `performance`
//! and, if all went well, back to `powersave`.

use vstd::prelude::*;
use vstd::string::*;
use crate::command::{cpu_power, cpu_power_script, shell_line};
use crate::failure::Failure;
use crate::run::{BenchmarkRun, RunSpec};
use crate::sequencer::{issued, next, Action, ActionView, Event, Sequencer, State, Status};
use crate::server::Server;

verus! {

/// The variants to benchmark: the origins in order, then the proxies in
/// order, each in front of the same designated origin.
pub struct Batch {
    pub origins: Vec<Server>,
    pub proxies: Vec<Server>,
    pub proxy_origin: Server,
}

/// Where a batch stands.
#[derive(Clone, Copy, Debug, PartialEq, Eq, Structural)]
pub enum Stage {
    /// The governor is being switched to `performance`.
    Prelude,
    /// A run is under way.
    Running,
    /// The governor is being switched back to `powersave`.
    Postlude,
    /// Every run completed.
    Finished,
    /// A run failed; nothing further is attempted.
    Aborted(Failure),
}

/// The state of a batch.
pub struct BatchState {
    /// Where the batch stands.
    pub stage: Stage,
    /// How many runs have completed.
    pub index: nat,
    /// The state of the run under way, or of the run that ended the batch;
    /// `None` between runs.
    pub inner: Option<State>,
}

impl Batch {
    /// The runs of the batch, in the order they are executed.
    pub open spec fn runs(&self) -> Seq<RunSpec> {
        Seq::new(
            self.origins@.len() + self.proxies@.len(),
            |i: int|
                if i < self.origins@.len() {
                    RunSpec { variant: self.origins@[i], dependent_origin: None }
                } else {
                    RunSpec {
                        variant: self.proxies@[i - self.origins@.len()],
                        dependent_origin: Some(self.proxy_origin),
                    }
                },
        )
    }

    /// Whether the runs can be counted in a `usize`.
    pub open spec fn countable(&self) -> bool {
        self.origins@.len() + self.proxies@.len() <= usize::MAX
    }

    /// Whether this is the batch that is run by default: the origin
    /// `origin-ntex`, then the proxy `proxy-actix` in front of the daemon
    /// `origin-nginx`.
    pub open spec fn is_standard(&self) -> bool {
        &&& self.origins@.len() == 1
        &&& self.origins@[0] matches Server::Rust(name) && name@ == "origin-ntex"@
        &&& self.proxies@.len() == 1
        &&& self.proxies@[0] matches Server::Rust(name) && name@ == "proxy-actix"@
        &&& self.proxy_origin matches Server::Nginx(name) && name@ == "origin-nginx"@
    }

    /// The batch that is run by default.
    pub fn standard() -> (batch: Batch)
        ensures
            batch.is_standard(),
            batch.countable(),
    {
        let mut origins: Vec<Server> = Vec::new();
        origins.push(Server::Rust(String::from_str("origin-ntex")));
        let mut proxies: Vec<Server> = Vec::new();
        proxies.push(Server::Rust(String::from_str("proxy-actix")));
        Batch { origins, proxies, proxy_origin: Server::Nginx(String::from_str("origin-nginx")) }
    }

    /// Schedules the run at `index`, if the batch has that many.
    pub fn run_at(&self, index: usize) -> (run: Option<BenchmarkRun>)
        ensures
            run is Some == (index < self.runs().len()),
            run matches Some(r) ==> r@ == self.runs()[index as int],
    {
        if index < self.origins.len() {
            Some(BenchmarkRun::origin(self.origins[index].duplicate()))
        } else if index - self.origins.len() < self.proxies.len() {
            Some(
                BenchmarkRun::proxy(
                    self.proxies[index - self.origins.len()].duplicate(),
                    self.proxy_origin.duplicate(),
                ),
            )
        } else {
            None
        }
    }

    /// The state a batch begins in, and its first action.
    pub open spec fn begun() -> (BatchState, ActionView) {
        (
            BatchState { stage: Stage::Prelude, index: 0, inner: None },
            ActionView::Run { command: shell_line(cpu_power_script("performance"@)) },
        )
    }

    /// The state and action on entering the run at `index`, or on leaving
    /// the last one.
    pub open spec fn entered(&self, cwd: Seq<char>, index: nat) -> (BatchState, ActionView) {
        if index < self.runs().len() {
            let (inner, action) = issued(self.runs()[index as int], cwd, State::initial());
            match inner.status {
                Status::Aborted(failure) => (
                    BatchState { stage: Stage::Aborted(failure), index, inner: Some(inner) },
                    ActionView::Halt,
                ),
                _ => (BatchState { stage: Stage::Running, index, inner: Some(inner) }, action),
            }
        } else {
            (
                BatchState { stage: Stage::Postlude, index, inner: None },
                ActionView::Run { command: shell_line(cpu_power_script("powersave"@)) },
            )
        }
    }

    /// The transition of a batch: from a state and the event that answers
    /// its action to the next state and its action.
    pub open spec fn next(&self, cwd: Seq<char>, state: BatchState, event: Event) -> (
        BatchState,
        ActionView,
    ) {
        match state.stage {
            Stage::Prelude => if event is Done {
                self.entered(cwd, 0)
            } else {
                (BatchState { stage: Stage::Aborted(Failure::Tool), ..state }, ActionView::Halt)
            },
            Stage::Running => match state.inner {
                Some(before) if state.index < self.runs().len() => {
                    let (inner, action) = next(self.runs()[state.index as int], cwd, before, event);
                    match inner.status {
                        Status::Running => (BatchState { inner: Some(inner), ..state }, action),
                        Status::Finished => self.entered(cwd, state.index + 1),
                        Status::Aborted(failure) => (
                            BatchState {
                                stage: Stage::Aborted(failure),
                                inner: Some(inner),
                                ..state
                            },
                            ActionView::Halt,
                        ),
                    }
                },
                _ => (state, ActionView::Halt),
            },
            Stage::Postlude => if event is Done {
                (BatchState { stage: Stage::Finished, ..state }, ActionView::Halt)
            } else {
                (BatchState { stage: Stage::Aborted(Failure::Tool), ..state }, ActionView::Halt)
            },
            Stage::Finished | Stage::Aborted(_) => (state, ActionView::Halt),
        }
    }
}

/// A batch in progress.
pub struct BatchRunner {
    batch: Batch,
    cwd: String,
    stage: Stage,
    index: usize,
    current: Option<Sequencer>,
}

impl View for BatchRunner {
    type V = BatchState;

    closed spec fn view(&self) -> BatchState {
        BatchState {
            stage: self.stage,
            index: self.index as nat,
            inner: match self.current {
                Some(sequencer) => Some(sequencer@),
                None => None,
            },
        }
    }
}

impl BatchRunner {
    #[verifier::type_invariant]
    spec fn consistent(&self) -> bool {
        &&& self.batch.countable()
        &&& self.stage == Stage::Running ==> self.current is Some
        &&& self.current matches Some(sequencer) ==> {
            &&& self.index < self.batch.runs().len()
            &&& sequencer.spec_run() == self.batch.runs()[self.index as int]
            &&& sequencer.spec_cwd() == self.cwd@
        }
    }

    /// The batch that is run.
    pub closed spec fn spec_batch(&self) -> Batch {
        self.batch
    }

    /// The working directory the batch's commands are built for.
    pub closed spec fn spec_cwd(&self) -> Seq<char> {
        self.cwd@
    }

    /// Begins `batch` and hands out its first action.
    pub fn start(batch: Batch, cwd: &str) -> (started: (BatchRunner, Action))
        requires
            batch.countable(),
        ensures
            started.0.spec_batch() == batch,
            started.0.spec_cwd() == cwd@,
            (started.0@, started.1@) == Batch::begun(),
    {
        let runner = BatchRunner {
            batch,
            cwd: String::from_str(cwd),
            stage: Stage::Prelude,
            index: 0,
            current: None,
        };
        (runner, Action::Run { command: cpu_power("performance") })
    }

    /// Takes the outcome of the action handed out last and returns the
    /// batch in its next state with the next action. Once the batch has
    /// finished or was aborted, every event is answered with
    /// [`Action::Halt`] and changes nothing.
    pub fn step(self, event: Event) -> (stepped: (BatchRunner, Action))
        ensures
            stepped.0.spec_batch() == self.spec_batch(),
            stepped.0.spec_cwd() == self.spec_cwd(),
            (stepped.0@, stepped.1@) == self.spec_batch().next(self.spec_cwd(), self@, event),
    {
        proof {
            use_type_invariant(&self);
        }
        let BatchRunner { batch, cwd, stage, index, current } = self;
        match stage {
            Stage::Prelude => match event {
                Event::Done => Self::enter(batch, cwd, 0),
                _ => (
                    BatchRunner { batch, cwd, stage: Stage::Aborted(Failure::Tool), index, current },
                    Action::Halt,
                ),
            },
            Stage::Running => {
                let (sequencer, action) = current.unwrap().step(event);
                match sequencer.status() {
                    Status::Running => (
                        BatchRunner { batch, cwd, stage, index, current: Some(sequencer) },
                        action,
                    ),
                    Status::Finished => Self::enter(batch, cwd, index + 1),
                    Status::Aborted(failure) => (
                        BatchRunner {
                            batch,
                            cwd,
                            stage: Stage::Aborted(failure),
                            index,
                            current: Some(sequencer),
                        },
                        Action::Halt,
                    ),
                }
            },
            Stage::Postlude => match event {
                Event::Done => (
                    BatchRunner { batch, cwd, stage: Stage::Finished, index, current },
                    Action::Halt,
                ),
                _ => (
                    BatchRunner { batch, cwd, stage: Stage::Aborted(Failure::Tool), index, current },
                    Action::Halt,
                ),
            },
            Stage::Finished | Stage::Aborted(_) => (
                BatchRunner { batch, cwd, stage, index, current },
                Action::Halt,
            ),
        }
    }

    /// Where the batch stands.
    pub fn stage(&self) -> (stage: Stage)
        ensures
            stage == self@.stage,
    {
        self.stage
    }

    /// How many runs have completed.
    pub fn runs_done(&self) -> (done: usize)
        ensures
            done == self@.index,
    {
        self.index
    }

    /// The run under way, or the run that ended the batch; `None` between
    /// runs.
    pub fn current(&self) -> (sequencer: Option<&Sequencer>)
        ensures
            match sequencer {
                Some(s) => {
                    &&& self@.inner == Some(s@)
                    &&& self@.index < self.spec_batch().runs().len()
                    &&& s.spec_run() == self.spec_batch().runs()[self@.index as int]
                    &&& s.spec_cwd() == self.spec_cwd()
                },
                None => self@.inner is None,
            },
    {
        proof {
            use_type_invariant(self);
        }
        self.current.as_ref()
    }

    /// Enters the run at `index`, or leaves the last one.
    fn enter(batch: Batch, cwd: String, index: usize) -> (entered: (BatchRunner, Action))
        requires
            batch.countable(),
        ensures
            entered.0.spec_batch() == batch,
            entered.0.spec_cwd() == cwd@,
            (entered.0@, entered.1@) == batch.entered(cwd@, index as nat),
    {
        match batch.run_at(index) {
            Some(run) => {
                let (sequencer, action) = Sequencer::start(run, cwd.as_str());
                match sequencer.status() {
                    Status::Aborted(failure) => (
                        BatchRunner {
                            batch,
                            cwd,
                            stage: Stage::Aborted(failure),
                            index,
                            current: Some(sequencer),
                        },
                        Action::Halt,
                    ),
                    _ => (
                        BatchRunner {
                            batch,
                            cwd,
                            stage: Stage::Running,
                            index,
                            current: Some(sequencer),
                        },
                        action,
                    ),
                }
            },
            None => (
                BatchRunner { batch, cwd, stage: Stage::Postlude, index, current: None },
                Action::Run { command: cpu_power("powersave") },
            ),
        }
    }
}

} // verus!
