//! The ways a benchmark run fails.

use vstd::prelude::*;

verus! {

/// Why a run was aborted.
#[derive(Clone, Copy, Debug, PartialEq, Eq, Structural)]
pub enum Failure {
    /// A server or proxy could not be started: its executable is missing, its
    /// port is taken, or the shell that wraps it did not start.
    Spawn,
    /// A server or proxy could not be stopped: the signal was not delivered.
    Termination,
    /// The probe or the load generator could not be run.
    Tool,
    /// The output directory or one of the artifacts could not be written.
    Collect,
}

} // verus!
