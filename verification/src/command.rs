//! Command lines of the external programs a benchmark run starts.
//!
//! A command line is plain data: the program and its arguments. The probe and
//! the load generator are consumed through their command-line interface only.

use vstd::prelude::*;
use vstd::string::*;

verus! {

/// The text of each string of `strings`, in order.
pub open spec fn texts(strings: Seq<String>) -> Seq<Seq<char>> {
    Seq::new(strings.len(), |i: int| strings[i]@)
}

/// A program and the arguments it is started with.
#[derive(Debug, PartialEq, Eq)]
pub struct CommandLine {
    pub program: String,
    pub args: Vec<String>,
}

/// What a [`CommandLine`] stands for.
pub struct CommandLineView {
    pub program: Seq<char>,
    pub args: Seq<Seq<char>>,
}

impl View for CommandLine {
    type V = CommandLineView;

    open spec fn view(&self) -> CommandLineView {
        CommandLineView { program: self.program@, args: texts(self.args@) }
    }
}

/// The command line that runs `script` in a shell.
pub open spec fn shell_line(script: Seq<char>) -> CommandLineView {
    CommandLineView { program: "sh"@, args: seq!["-c"@, script] }
}

/// Builds the command line that runs `script` in a shell.
pub fn shell(script: String) -> (line: CommandLine)
    ensures
        line@ == shell_line(script@),
{
    let mut args: Vec<String> = Vec::new();
    args.push(String::from_str("-c"));
    args.push(script);
    let line = CommandLine { program: String::from_str("sh"), args };
    assert(line@.args =~= shell_line(script@).args);
    line
}

/// The probe: one request whose response headers and body are dumped to
/// standard output.
pub open spec fn probe_line(url: Seq<char>) -> CommandLineView {
    CommandLineView { program: "curl"@, args: seq!["-sSD"@, "-"@, url] }
}

/// Builds the probe's command line for `url`.
pub fn probe_command(url: &str) -> (line: CommandLine)
    ensures
        line@ == probe_line(url@),
{
    let mut args: Vec<String> = Vec::new();
    args.push(String::from_str("-sSD"));
    args.push(String::from_str("-"));
    args.push(String::from_str(url));
    let line = CommandLine { program: String::from_str("curl"), args };
    assert(line@.args =~= probe_line(url@).args);
    line
}

/// The arguments every load-test phase shares: no terminal interface, a JSON
/// report, 100 connections, 15 seconds, latency correction.
pub open spec fn load_test_base() -> Seq<Seq<char>> {
    seq!["--no-tui"@, "--json"@, "-c"@, "100"@, "-z"@, "15s"@, "--latency-correction"@]
}

/// One load-test phase against `url`. The two phases differ in one argument:
/// without keep-alive, `--disable-keepalive` precedes the URL.
pub open spec fn load_test_line(url: Seq<char>, keepalive: bool) -> CommandLineView {
    CommandLineView {
        program: "oha"@,
        args: if keepalive {
            load_test_base().push(url)
        } else {
            load_test_base().push("--disable-keepalive"@).push(url)
        },
    }
}

/// Builds the load generator's command line for one phase.
pub fn load_test_command(url: &str, keepalive: bool) -> (line: CommandLine)
    ensures
        line@ == load_test_line(url@, keepalive),
{
    let mut args: Vec<String> = Vec::new();
    args.push(String::from_str("--no-tui"));
    args.push(String::from_str("--json"));
    args.push(String::from_str("-c"));
    args.push(String::from_str("100"));
    args.push(String::from_str("-z"));
    args.push(String::from_str("15s"));
    args.push(String::from_str("--latency-correction"));
    if !keepalive {
        args.push(String::from_str("--disable-keepalive"));
    }
    args.push(String::from_str(url));
    let line = CommandLine { program: String::from_str("oha"), args };
    assert(line@.args =~= load_test_line(url@, keepalive).args);
    line
}

/// The script that switches the CPU frequency governor to `mode`.
pub open spec fn cpu_power_script(mode: Seq<char>) -> Seq<char> {
    "./cpu_power.sh "@ + mode
}

/// Builds the command line that switches the CPU frequency governor.
pub fn cpu_power(mode: &str) -> (line: CommandLine)
    ensures
        line@ == shell_line(cpu_power_script(mode@)),
{
    let mut script = String::from_str("./cpu_power.sh ");
    script.append(mode);
    shell(script)
}

} // verus!
