use bench_driver::command::{cpu_power, load_test_command, probe_command, shell, CommandLine};
use bench_driver::failure::Failure;
use bench_driver::server::{Kind, Server, Termination};

fn line(program: &str, args: &[&str]) -> CommandLine {
    CommandLine {
        program: String::from(program),
        args: args.iter().map(|a| String::from(*a)).collect(),
    }
}

#[test]
fn probe_dumps_headers_of_the_target() {
    assert_eq!(
        probe_command("http://localhost:3000"),
        line("curl", &["-sSD", "-", "http://localhost:3000"])
    );
}

#[test]
fn load_test_without_keepalive_disables_it() {
    assert_eq!(
        load_test_command("http://localhost:3000", false),
        line(
            "oha",
            &[
                "--no-tui",
                "--json",
                "-c",
                "100",
                "-z",
                "15s",
                "--latency-correction",
                "--disable-keepalive",
                "http://localhost:3000",
            ]
        )
    );
}

#[test]
fn load_test_with_keepalive_differs_in_one_argument() {
    let with = load_test_command("http://localhost:3001", true);
    assert_eq!(
        with,
        line(
            "oha",
            &[
                "--no-tui",
                "--json",
                "-c",
                "100",
                "-z",
                "15s",
                "--latency-correction",
                "http://localhost:3001",
            ]
        )
    );
    let without = load_test_command("http://localhost:3001", false);
    let kept: Vec<&String> =
        without.args.iter().filter(|a| a.as_str() != "--disable-keepalive").collect();
    let all: Vec<&String> = with.args.iter().collect();
    assert_eq!(kept, all);
    assert_eq!(without.args.len(), with.args.len() + 1);
}

#[test]
fn shell_runs_a_script() {
    assert_eq!(shell(String::from("echo hi")), line("sh", &["-c", "echo hi"]));
}

#[test]
fn cpu_power_switches_the_governor() {
    assert_eq!(cpu_power("performance"), line("sh", &["-c", "./cpu_power.sh performance"]));
    assert_eq!(cpu_power("powersave"), line("sh", &["-c", "./cpu_power.sh powersave"]));
}

#[test]
fn names_and_kinds() {
    let rust = Server::Rust(String::from("origin-hyper"));
    let nginx = Server::Nginx(String::from("origin-nginx"));
    let fleet = Server::MultiProcess(String::from("origin-c-epoll-mp"));
    let zig = Server::Zig(String::from("origin-zap"));
    assert_eq!(rust.name(), "origin-hyper");
    assert_eq!(nginx.name(), "origin-nginx");
    assert_eq!(fleet.name(), "origin-c-epoll-mp");
    assert_eq!(zig.name(), "origin-zap");
    assert_eq!(rust.kind(), Kind::DirectProcess);
    assert_eq!(nginx.kind(), Kind::ExternalDaemon);
    assert_eq!(fleet.kind(), Kind::MultiProcessFleet);
    assert_eq!(zig.kind(), Kind::ShellWrapped);
    assert_eq!(rust.duplicate(), rust);
    assert_eq!(nginx.duplicate(), nginx);
}

#[test]
fn direct_process_launches_its_release_binary() {
    let server = Server::Rust(String::from("origin-hyper"));
    assert_eq!(server.launch("/work"), line("origin-hyper/target/release/origin-hyper", &[]));
}

#[test]
fn fleet_launches_its_release_binary() {
    let server = Server::MultiProcess(String::from("origin-c-epoll-mp"));
    assert_eq!(
        server.launch("/work"),
        line("origin-c-epoll-mp/target/release/origin-c-epoll-mp", &[])
    );
}

#[test]
fn daemon_launches_with_its_configuration_file() {
    let server = Server::Nginx(String::from("origin-nginx"));
    assert_eq!(
        server.launch("/home/bench"),
        line(
            "/usr/sbin/nginx",
            &["-c", "/home/bench/origin-nginx/nginx.conf", "-g", "daemon off;"]
        )
    );
}

#[test]
fn shell_wrapped_launches_through_a_shell_and_drops_output() {
    let server = Server::Zig(String::from("origin-zap"));
    assert_eq!(
        server.launch("/work"),
        line("sh", &["-c", "origin-zap/zig-out/bin/origin-zap >/dev/null 2>&1"])
    );
}

#[test]
fn handles_are_killed_directly() {
    assert_eq!(Server::Rust(String::from("a")).termination(4711), Ok(Termination::KillHandle));
    assert_eq!(Server::Zig(String::from("a")).termination(4711), Ok(Termination::KillHandle));
    assert_eq!(Server::Rust(String::from("a")).termination(0), Ok(Termination::KillHandle));
}

#[test]
fn daemon_is_signalled_by_pid() {
    let server = Server::Nginx(String::from("origin-nginx"));
    assert_eq!(server.termination(4711), Ok(Termination::SignalTerm { pid: 4711 }));
    assert_eq!(server.termination(1), Ok(Termination::SignalTerm { pid: 1 }));
    assert_eq!(
        server.termination(i32::MAX as u32),
        Ok(Termination::SignalTerm { pid: i32::MAX })
    );
}

#[test]
fn daemon_with_a_pid_that_names_no_single_process_fails() {
    let server = Server::Nginx(String::from("origin-nginx"));
    assert_eq!(server.termination(0), Err(Failure::Termination));
    assert_eq!(server.termination(i32::MAX as u32 + 1), Err(Failure::Termination));
    assert_eq!(server.termination(u32::MAX), Err(Failure::Termination));
}

#[test]
fn fleet_is_killed_by_name_whatever_the_pid() {
    let server = Server::MultiProcess(String::from("origin-c-epoll-mp"));
    let expected = Termination::PatternKill {
        command: line("sh", &["-c", "pgrep -f origin-c-epoll-mp | xargs -r kill"]),
    };
    for pid in [0, 1, 4711, i32::MAX as u32, u32::MAX] {
        assert_eq!(server.termination(pid), Ok(Termination::PatternKill {
            command: line("sh", &["-c", "pgrep -f origin-c-epoll-mp | xargs -r kill"]),
        }));
    }
    assert!(matches!(expected, Termination::PatternKill { .. }));
}
