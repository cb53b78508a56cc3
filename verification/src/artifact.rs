//! The files a benchmark run leaves behind.
//!
//! Every run owns one directory, named after the variant under test. Each
//! artifact is one file in it that holds, byte for byte, what one tool or one
//! terminated process wrote to its standard output.

use vstd::prelude::*;
use vstd::string::*;
use crate::path::{push, pushed};

verus! {

/// One result file of a run.
#[derive(Clone, Copy, Debug, PartialEq, Eq, Structural)]
pub enum Artifact {
    /// The probe's dump of response headers and body.
    Probe,
    /// The load generator's report of the phase without keep-alive.
    LoadNoKeepAlive,
    /// The load generator's report of the phase with keep-alive.
    LoadKeepAlive,
    /// What the origin wrote to its standard output.
    OriginOutput,
    /// What the proxy wrote to its standard output.
    ProxyOutput,
}

/// The directory below which every run's directory lies.
pub open spec fn results_root() -> Seq<char> {
    "results"@
}

/// The directory of the run that benchmarks the variant `name`.
pub open spec fn output_dir_of(name: Seq<char>) -> Seq<char> {
    pushed(results_root(), name)
}

impl Artifact {
    /// The artifact's file name.
    pub open spec fn spec_file_name(self) -> Seq<char> {
        match self {
            Artifact::Probe => "curl.txt"@,
            Artifact::LoadNoKeepAlive => "oha-no-keepalive.json"@,
            Artifact::LoadKeepAlive => "oha-keepalive.json"@,
            Artifact::OriginOutput => "origin.txt"@,
            Artifact::ProxyOutput => "proxy.txt"@,
        }
    }

    /// The artifact's path in the directory `dir`.
    pub open spec fn spec_path_in(self, dir: Seq<char>) -> Seq<char> {
        pushed(dir, self.spec_file_name())
    }

    /// Returns the artifact's file name.
    pub fn file_name(self) -> (name: &'static str)
        ensures
            name@ == self.spec_file_name(),
    {
        match self {
            Artifact::Probe => "curl.txt",
            Artifact::LoadNoKeepAlive => "oha-no-keepalive.json",
            Artifact::LoadKeepAlive => "oha-keepalive.json",
            Artifact::OriginOutput => "origin.txt",
            Artifact::ProxyOutput => "proxy.txt",
        }
    }

    /// Builds the artifact's path in the directory `dir`.
    pub fn path_in(self, dir: &str) -> (path: String)
        ensures
            path@ == self.spec_path_in(dir@),
    {
        push(String::from_str(dir), self.file_name())
    }
}

/// Builds the directory of the run that benchmarks the variant `name`.
pub fn output_dir(name: &str) -> (dir: String)
    ensures
        dir@ == output_dir_of(name@),
{
    push(String::from_str("results"), name)
}

} // verus!
