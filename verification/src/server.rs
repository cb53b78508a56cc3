//! The servers and proxies under test.
//!
//! A variant is a name and a kind. The kind decides how the variant is
//! started and, above all, how it is stopped: a fleet of worker processes has
//! no single handle or pid that stands for it, and a daemon must be
//! signalled by pid rather than through its handle.

use vstd::prelude::*;
use vstd::string::*;
use crate::command::{shell, shell_line, CommandLine, CommandLineView};
use crate::failure::Failure;
use crate::path::{push, pushed};

verus! {

/// How a variant is launched and terminated.
#[derive(Clone, Copy, Debug, PartialEq, Eq, Structural)]
pub enum Kind {
    /// A compiled binary, killed through its handle.
    DirectProcess,
    /// An external server started with a configuration file, terminated by a
    /// signal to its pid.
    ExternalDaemon,
    /// A binary that forks into workers, terminated by process name.
    MultiProcessFleet,
    /// A binary started through a shell, killed through the shell's handle.
    ShellWrapped,
}

/// A target under test. The string is the variant's name; for `Nginx` the
/// name is also the directory that holds its configuration.
#[derive(Debug, PartialEq, Eq)]
pub enum Server {
    Rust(String),
    Nginx(String),
    MultiProcess(String),
    Zig(String),
}

/// How a running variant is stopped.
#[derive(Debug, PartialEq, Eq)]
pub enum Termination {
    /// Kill the process through the handle it was started with.
    KillHandle,
    /// Send the graceful-termination signal to this pid.
    SignalTerm { pid: i32 },
    /// Run this command, which kills every process whose command line
    /// matches the variant's name.
    PatternKill { command: CommandLine },
}

/// What a [`Termination`] stands for.
pub enum TerminationView {
    KillHandle,
    SignalTerm { pid: int },
    PatternKill { command: CommandLineView },
}

impl View for Termination {
    type V = TerminationView;

    open spec fn view(&self) -> TerminationView {
        match self {
            Termination::KillHandle => TerminationView::KillHandle,
            Termination::SignalTerm { pid } => TerminationView::SignalTerm { pid: *pid as int },
            Termination::PatternKill { command } => TerminationView::PatternKill {
                command: command@,
            },
        }
    }
}

/// What a planned termination stands for.
pub open spec fn planned(how: Result<Termination, Failure>) -> Result<TerminationView, Failure> {
    match how {
        Ok(termination) => Ok(termination@),
        Err(failure) => Err(failure),
    }
}

/// The path of the binary `name` that was built into `name/<dir>/`.
pub open spec fn built_binary(name: Seq<char>, dir: Seq<char>) -> Seq<char> {
    pushed(pushed(name, dir), name)
}

/// The configuration file of the daemon `config_dir` below `cwd`.
pub open spec fn daemon_config(cwd: Seq<char>, config_dir: Seq<char>) -> Seq<char> {
    pushed(pushed(cwd, config_dir), "nginx.conf"@)
}

/// The script that kills every process matching `name`. An empty match is
/// no error: `xargs -r` then runs nothing.
pub open spec fn pattern_kill_script(name: Seq<char>) -> Seq<char> {
    "pgrep -f "@ + name + " | xargs -r kill"@
}

/// Whether a signal can be addressed to `pid` alone: zero and negative
/// numbers address process groups.
pub open spec fn signalable(pid: int) -> bool {
    0 < pid <= i32::MAX
}

impl Server {
    /// The variant's name.
    pub open spec fn spec_name(&self) -> Seq<char> {
        match self {
            Server::Rust(name) => name@,
            Server::Nginx(config_dir) => config_dir@,
            Server::MultiProcess(name) => name@,
            Server::Zig(name) => name@,
        }
    }

    /// The variant's kind.
    pub open spec fn spec_kind(&self) -> Kind {
        match self {
            Server::Rust(_) => Kind::DirectProcess,
            Server::Nginx(_) => Kind::ExternalDaemon,
            Server::MultiProcess(_) => Kind::MultiProcessFleet,
            Server::Zig(_) => Kind::ShellWrapped,
        }
    }

    /// The command line that starts the variant when the working directory
    /// is `cwd`.
    pub open spec fn spec_launch(&self, cwd: Seq<char>) -> CommandLineView {
        match self {
            Server::Rust(name) => CommandLineView {
                program: built_binary(name@, "target/release"@),
                args: Seq::empty(),
            },
            Server::Nginx(config_dir) => CommandLineView {
                program: "/usr/sbin/nginx"@,
                args: seq!["-c"@, daemon_config(cwd, config_dir@), "-g"@, "daemon off;"@],
            },
            Server::MultiProcess(name) => CommandLineView {
                program: built_binary(name@, "target/release"@),
                args: Seq::empty(),
            },
            Server::Zig(name) => shell_line(
                built_binary(name@, "zig-out/bin"@) + " >/dev/null 2>&1"@,
            ),
        }
    }

    /// How the variant is stopped when it runs as process `pid`; an error
    /// where it cannot be.
    pub open spec fn spec_termination(&self, pid: int) -> Result<TerminationView, Failure> {
        match self {
            Server::Rust(_) => Ok(TerminationView::KillHandle),
            Server::Nginx(_) => if signalable(pid) {
                Ok(TerminationView::SignalTerm { pid })
            } else {
                Err(Failure::Termination)
            },
            Server::MultiProcess(name) => Ok(
                TerminationView::PatternKill { command: shell_line(pattern_kill_script(name@)) },
            ),
            Server::Zig(_) => Ok(TerminationView::KillHandle),
        }
    }

    /// Returns the variant's name.
    pub fn name(&self) -> (name: String)
        ensures
            name@ == self.spec_name(),
    {
        match self {
            Server::Rust(name) => name.clone(),
            Server::Nginx(config_dir) => config_dir.clone(),
            Server::MultiProcess(name) => name.clone(),
            Server::Zig(name) => name.clone(),
        }
    }

    /// Returns the variant's kind.
    pub fn kind(&self) -> (kind: Kind)
        ensures
            kind == self.spec_kind(),
    {
        match self {
            Server::Rust(_) => Kind::DirectProcess,
            Server::Nginx(_) => Kind::ExternalDaemon,
            Server::MultiProcess(_) => Kind::MultiProcessFleet,
            Server::Zig(_) => Kind::ShellWrapped,
        }
    }

    /// A copy of the variant.
    pub fn duplicate(&self) -> (copy: Server)
        ensures
            copy == *self,
    {
        match self {
            Server::Rust(name) => Server::Rust(name.clone()),
            Server::Nginx(config_dir) => Server::Nginx(config_dir.clone()),
            Server::MultiProcess(name) => Server::MultiProcess(name.clone()),
            Server::Zig(name) => Server::Zig(name.clone()),
        }
    }

    /// Builds the command line that starts the variant. `cwd` is the
    /// working directory, below which a daemon's configuration lies.
    pub fn launch(&self, cwd: &str) -> (line: CommandLine)
        ensures
            line@ == self.spec_launch(cwd@),
    {
        match self {
            Server::Rust(name) => {
                let program = binary_path(name.as_str(), "target/release");
                let line = CommandLine { program, args: Vec::new() };
                assert(line@.args =~= Seq::empty());
                line
            },
            Server::Nginx(config_dir) => {
                let config = push(
                    push(String::from_str(cwd), config_dir.as_str()),
                    "nginx.conf",
                );
                let mut args: Vec<String> = Vec::new();
                args.push(String::from_str("-c"));
                args.push(config);
                args.push(String::from_str("-g"));
                args.push(String::from_str("daemon off;"));
                let line = CommandLine { program: String::from_str("/usr/sbin/nginx"), args };
                assert(line@.args =~= self.spec_launch(cwd@).args);
                line
            },
            Server::MultiProcess(name) => {
                let program = binary_path(name.as_str(), "target/release");
                let line = CommandLine { program, args: Vec::new() };
                assert(line@.args =~= Seq::empty());
                line
            },
            Server::Zig(name) => {
                let mut script = binary_path(name.as_str(), "zig-out/bin");
                script.append(" >/dev/null 2>&1");
                shell(script)
            },
        }
    }

    /// Decides how the variant, running as process `pid`, is stopped.
    ///
    /// A fleet is always stopped by name, whatever `pid` is. A daemon is
    /// signalled by pid, which fails where `pid` does not address one
    /// process.
    pub fn termination(&self, pid: u32) -> (how: Result<Termination, Failure>)
        ensures
            planned(how) == self.spec_termination(pid as int),
            self.spec_kind() == Kind::MultiProcessFleet ==> how matches Ok(
                Termination::PatternKill { .. },
            ),
    {
        match self {
            Server::Rust(_) => Ok(Termination::KillHandle),
            Server::Nginx(_) => {
                if 0 < pid && pid <= 0x7fff_ffff {
                    Ok(Termination::SignalTerm { pid: pid as i32 })
                } else {
                    Err(Failure::Termination)
                }
            },
            Server::MultiProcess(name) => {
                let mut script = String::from_str("pgrep -f ");
                script.append(name.as_str());
                script.append(" | xargs -r kill");
                Ok(Termination::PatternKill { command: shell(script) })
            },
            Server::Zig(_) => Ok(Termination::KillHandle),
        }
    }
}

/// Builds the path of the binary `name` that was built into `name/<dir>/`.
fn binary_path(name: &str, dir: &str) -> (path: String)
    ensures
        path@ == built_binary(name@, dir@),
{
    push(push(String::from_str(name), dir), name)
}

} // verus!
