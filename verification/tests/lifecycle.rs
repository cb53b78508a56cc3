use bench_driver::command::CommandLine;
use bench_driver::failure::Failure;
use bench_driver::plan::{plan_len, step_at, Phase, Step};
use bench_driver::run::{BenchmarkRun, Role};
use bench_driver::sequencer::{failure, Action, Event, Sequencer, Status};
use bench_driver::server::{Server, Termination};

fn line(program: &str, args: &[&str]) -> CommandLine {
    CommandLine {
        program: String::from(program),
        args: args.iter().map(|a| String::from(*a)).collect(),
    }
}

fn answer(action: &Action, pid: u32) -> Event {
    match action {
        Action::Launch { .. } => Event::Spawned { pid },
        _ => Event::Done,
    }
}

fn drive(run: BenchmarkRun) -> (Sequencer, Vec<Action>) {
    let (mut sequencer, mut action) = Sequencer::start(run, "/work");
    let mut actions = Vec::new();
    let mut pid = 100;
    while action != Action::Halt {
        let event = answer(&action, pid);
        pid += 1;
        actions.push(action);
        let stepped = sequencer.step(event);
        sequencer = stepped.0;
        action = stepped.1;
        assert!(actions.len() <= 20);
    }
    (sequencer, actions)
}

#[test]
fn origin_run_issues_its_steps_in_order() {
    let run = BenchmarkRun::origin(Server::Rust(String::from("origin-ntex")));
    let (sequencer, actions) = drive(run);
    let oha = ["--no-tui", "--json", "-c", "100", "-z", "15s", "--latency-correction"];
    let mut without: Vec<&str> = oha.to_vec();
    without.push("--disable-keepalive");
    without.push("http://localhost:3000");
    let mut with: Vec<&str> = oha.to_vec();
    with.push("http://localhost:3000");
    let expected = vec![
        Action::Wait { seconds: 10 },
        Action::Launch {
            role: Role::Origin,
            command: line("origin-ntex/target/release/origin-ntex", &[]),
        },
        Action::CreateDir { path: String::from("results/origin-ntex") },
        Action::Wait { seconds: 2 },
        Action::Capture {
            command: line("curl", &["-sSD", "-", "http://localhost:3000"]),
            artifact: String::from("results/origin-ntex/curl.txt"),
        },
        Action::Wait { seconds: 1 },
        Action::Capture {
            command: line("oha", &without),
            artifact: String::from("results/origin-ntex/oha-no-keepalive.json"),
        },
        Action::Wait { seconds: 1 },
        Action::Capture {
            command: line("oha", &with),
            artifact: String::from("results/origin-ntex/oha-keepalive.json"),
        },
        Action::Stop { role: Role::Origin, how: Termination::KillHandle },
        Action::Reap {
            role: Role::Origin,
            artifact: String::from("results/origin-ntex/origin.txt"),
        },
    ];
    assert_eq!(actions, expected);
    assert_eq!(sequencer.status(), Status::Finished);
    assert_eq!(sequencer.phase(), Phase::Collected);
    assert_eq!(sequencer.steps_done(), 11);
    assert_eq!(sequencer.live(Role::Origin), None);
    assert_eq!(sequencer.live(Role::Proxy), None);
    assert!(sequencer.warnings().is_empty());
}

#[test]
fn proxy_run_nests_the_proxy_inside_the_origin() {
    let run = BenchmarkRun::proxy(
        Server::Rust(String::from("proxy-actix")),
        Server::Nginx(String::from("origin-nginx")),
    );
    let (sequencer, actions) = drive(run);
    assert_eq!(actions.len(), 15);
    assert_eq!(actions[0], Action::Wait { seconds: 10 });
    assert_eq!(
        actions[1],
        Action::Launch {
            role: Role::Origin,
            command: line(
                "/usr/sbin/nginx",
                &["-c", "/work/origin-nginx/nginx.conf", "-g", "daemon off;"]
            ),
        }
    );
    assert_eq!(actions[2], Action::Wait { seconds: 2 });
    assert_eq!(
        actions[3],
        Action::Launch {
            role: Role::Proxy,
            command: line("proxy-actix/target/release/proxy-actix", &[]),
        }
    );
    assert_eq!(actions[4], Action::CreateDir { path: String::from("results/proxy-actix") });
    assert_eq!(actions[5], Action::Wait { seconds: 2 });
    assert_eq!(
        actions[6],
        Action::Capture {
            command: line("curl", &["-sSD", "-", "http://localhost:3001"]),
            artifact: String::from("results/proxy-actix/curl.txt"),
        }
    );
    assert!(matches!(&actions[8], Action::Capture { artifact, .. }
        if artifact == "results/proxy-actix/oha-no-keepalive.json"));
    assert!(matches!(&actions[10], Action::Capture { artifact, .. }
        if artifact == "results/proxy-actix/oha-keepalive.json"));
    assert_eq!(actions[11], Action::Stop { role: Role::Proxy, how: Termination::KillHandle });
    assert_eq!(
        actions[12],
        Action::Reap { role: Role::Proxy, artifact: String::from("results/proxy-actix/proxy.txt") }
    );
    // The origin was the first process started, so it holds the first pid.
    assert_eq!(
        actions[13],
        Action::Stop { role: Role::Origin, how: Termination::SignalTerm { pid: 101 } }
    );
    assert_eq!(
        actions[14],
        Action::Reap {
            role: Role::Origin,
            artifact: String::from("results/proxy-actix/origin.txt"),
        }
    );
    assert_eq!(sequencer.status(), Status::Finished);
    assert_eq!(sequencer.phase(), Phase::Collected);
}

#[test]
fn phases_follow_the_steps_of_an_origin_run() {
    let run = BenchmarkRun::origin(Server::Zig(String::from("origin-zap")));
    let (mut sequencer, mut action) = Sequencer::start(run, "/work");
    let mut phases = vec![sequencer.phase()];
    while action != Action::Halt {
        let stepped = sequencer.step(answer(&action, 7));
        sequencer = stepped.0;
        action = stepped.1;
        phases.push(sequencer.phase());
    }
    assert_eq!(
        phases,
        vec![
            Phase::Idle,
            Phase::Idle,
            Phase::Spawned,
            Phase::Spawned,
            Phase::WarmingUp,
            Phase::Probed,
            Phase::Probed,
            Phase::LoadTesting1,
            Phase::LoadTesting1,
            Phase::LoadTesting2,
            Phase::Terminated,
            Phase::Collected,
        ]
    );
}

#[test]
fn handles_are_held_from_launch_to_reap() {
    let run = BenchmarkRun::proxy(
        Server::Rust(String::from("proxy-hyper")),
        Server::Rust(String::from("origin-hyper")),
    );
    let (mut sequencer, mut action) = Sequencer::start(run, "/work");
    let mut stopped_origin_while_proxy_lived = false;
    let mut requests_without_target = 0;
    while action != Action::Halt {
        match &action {
            Action::Stop { role: Role::Origin, .. } => {
                stopped_origin_while_proxy_lived = sequencer.live(Role::Proxy).is_some();
                assert_eq!(sequencer.live(Role::Origin), Some(1));
            }
            Action::Stop { role: Role::Proxy, .. } => {
                assert_eq!(sequencer.live(Role::Proxy), Some(2));
                assert_eq!(sequencer.live(Role::Origin), Some(1));
            }
            Action::Capture { .. } => {
                if sequencer.live(Role::Proxy).is_none() || sequencer.live(Role::Origin).is_none()
                {
                    requests_without_target += 1;
                }
            }
            _ => {}
        }
        let event = match &action {
            Action::Launch { role: Role::Origin, .. } => Event::Spawned { pid: 1 },
            Action::Launch { role: Role::Proxy, .. } => Event::Spawned { pid: 2 },
            _ => Event::Done,
        };
        let stepped = sequencer.step(event);
        sequencer = stepped.0;
        action = stepped.1;
    }
    assert!(!stopped_origin_while_proxy_lived);
    assert_eq!(requests_without_target, 0);
    assert_eq!(sequencer.live(Role::Origin), None);
    assert_eq!(sequencer.live(Role::Proxy), None);
}

fn fail_at(run: BenchmarkRun, failing: usize, event: Event) -> (Sequencer, Vec<Action>) {
    let (mut sequencer, mut action) = Sequencer::start(run, "/work");
    let mut actions = Vec::new();
    while action != Action::Halt {
        let reported = if actions.len() == failing { event } else { answer(&action, 55) };
        actions.push(action);
        let stepped = sequencer.step(reported);
        sequencer = stepped.0;
        action = stepped.1;
    }
    (sequencer, actions)
}

#[test]
fn each_failing_step_aborts_with_its_failure() {
    let expected = [
        (0, Failure::Spawn),
        (1, Failure::Spawn),
        (2, Failure::Collect),
        (3, Failure::Spawn),
        (4, Failure::Tool),
        (5, Failure::Spawn),
        (6, Failure::Tool),
        (7, Failure::Spawn),
        (8, Failure::Tool),
        (9, Failure::Termination),
        (10, Failure::Collect),
    ];
    for (index, failure) in expected {
        let run = BenchmarkRun::origin(Server::Rust(String::from("origin-hyper")));
        let (sequencer, actions) = fail_at(run, index, Event::Failed);
        assert_eq!(sequencer.status(), Status::Aborted(failure), "step {}", index);
        assert_eq!(actions.len(), index + 1);
        assert_eq!(sequencer.steps_done(), index);
    }
}

#[test]
fn failure_of_each_step() {
    assert_eq!(failure(Step::Launch(Role::Proxy)), Failure::Spawn);
    assert_eq!(failure(Step::Stop(Role::Origin)), Failure::Termination);
    assert_eq!(failure(Step::Probe), Failure::Tool);
    assert_eq!(failure(Step::Load { keepalive: true }), Failure::Tool);
    assert_eq!(failure(Step::PrepareOutput), Failure::Collect);
    assert_eq!(failure(Step::Reap(Role::Origin)), Failure::Collect);
    assert_eq!(failure(Step::Settle), Failure::Spawn);
    assert_eq!(failure(Step::WarmUp), Failure::Spawn);
    assert_eq!(failure(Step::Pause), Failure::Spawn);
}

#[test]
fn process_that_does_not_survive_its_warm_up_is_a_spawn_failure() {
    let run = BenchmarkRun::origin(Server::Rust(String::from("origin-hyper")));
    let (sequencer, actions) = fail_at(run, 3, Event::Failed);
    assert_eq!(actions[3], Action::Wait { seconds: 2 });
    assert_eq!(sequencer.status(), Status::Aborted(Failure::Spawn));
    assert_eq!(sequencer.phase(), Phase::Spawned);
    assert_eq!(sequencer.live(Role::Origin), Some(55));
}

#[test]
fn reap_whose_wait_failed_keeps_the_handle() {
    let run = BenchmarkRun::origin(Server::Rust(String::from("origin-ntex")));
    let (sequencer, actions) = fail_at(run, 10, Event::Failed);
    assert!(matches!(actions[10], Action::Reap { role: Role::Origin, .. }));
    assert_eq!(sequencer.status(), Status::Aborted(Failure::Collect));
    assert_eq!(sequencer.steps_done(), 10);
    assert_eq!(sequencer.live(Role::Origin), Some(55));
}

#[test]
fn reap_whose_write_failed_has_released_the_process() {
    let run = BenchmarkRun::origin(Server::Rust(String::from("origin-ntex")));
    let (sequencer, actions) = fail_at(run, 10, Event::Reaped);
    assert!(matches!(actions[10], Action::Reap { role: Role::Origin, .. }));
    assert_eq!(sequencer.status(), Status::Aborted(Failure::Collect));
    assert_eq!(sequencer.steps_done(), 10);
    assert_eq!(sequencer.phase(), Phase::Terminated);
    assert_eq!(sequencer.live(Role::Origin), None);
    assert_eq!(sequencer.live(Role::Proxy), None);
    let (sequencer, action) = sequencer.step(Event::Done);
    assert_eq!(action, Action::Halt);
    assert_eq!(sequencer.live(Role::Origin), None);
}

#[test]
fn proxy_reap_whose_write_failed_releases_the_proxy_and_keeps_the_origin() {
    let run = BenchmarkRun::proxy(
        Server::Rust(String::from("proxy-actix")),
        Server::Nginx(String::from("origin-nginx")),
    );
    let (mut sequencer, mut action) = Sequencer::start(run, "/work");
    while action != Action::Halt {
        let event = match &action {
            Action::Launch { role: Role::Origin, .. } => Event::Spawned { pid: 1 },
            Action::Launch { role: Role::Proxy, .. } => Event::Spawned { pid: 2 },
            Action::Reap { role: Role::Proxy, .. } => Event::Reaped,
            _ => Event::Done,
        };
        let stepped = sequencer.step(event);
        sequencer = stepped.0;
        action = stepped.1;
    }
    assert_eq!(sequencer.status(), Status::Aborted(Failure::Collect));
    assert_eq!(sequencer.steps_done(), 12);
    assert_eq!(sequencer.live(Role::Proxy), None);
    assert_eq!(sequencer.live(Role::Origin), Some(1));
}

#[test]
fn reaped_answers_no_step_but_a_reap() {
    for index in 0..10 {
        let run = BenchmarkRun::origin(Server::Rust(String::from("origin-ntex")));
        let (sequencer, actions) = fail_at(run, index, Event::Reaped);
        assert_eq!(actions.len(), index + 1);
        assert_eq!(sequencer.steps_done(), index);
        assert!(matches!(sequencer.status(), Status::Aborted(_)));
        let expected = if index >= 2 { Some(55) } else { None };
        assert_eq!(sequencer.live(Role::Origin), expected);
    }
}

#[test]
fn aborted_run_attempts_nothing_more_and_keeps_its_handles() {
    let run = BenchmarkRun::origin(Server::Rust(String::from("origin-hyper")));
    let (sequencer, _) = fail_at(run, 4, Event::Failed);
    assert_eq!(sequencer.status(), Status::Aborted(Failure::Tool));
    assert_eq!(sequencer.live(Role::Origin), Some(55));
    let (sequencer, action) = sequencer.step(Event::Done);
    assert_eq!(action, Action::Halt);
    let (sequencer, action) = sequencer.step(Event::Spawned { pid: 9 });
    assert_eq!(action, Action::Halt);
    assert_eq!(sequencer.status(), Status::Aborted(Failure::Tool));
    assert_eq!(sequencer.steps_done(), 4);
    assert_eq!(sequencer.live(Role::Origin), Some(55));
    assert_eq!(sequencer.phase(), Phase::WarmingUp);
}

#[test]
fn launch_without_a_pid_is_a_spawn_failure() {
    let run = BenchmarkRun::origin(Server::Rust(String::from("origin-hyper")));
    let (sequencer, _) = fail_at(run, 1, Event::Done);
    assert_eq!(sequencer.status(), Status::Aborted(Failure::Spawn));
    assert_eq!(sequencer.live(Role::Origin), None);
}

#[test]
fn fleet_termination_failure_is_noted_and_the_run_goes_on() {
    let run = BenchmarkRun::origin(Server::MultiProcess(String::from("origin-c-epoll-mp")));
    let (sequencer, actions) = fail_at(run, 9, Event::Failed);
    assert_eq!(sequencer.status(), Status::Finished);
    assert_eq!(actions.len(), 11);
    assert_eq!(sequencer.warnings(), &vec![Role::Origin]);
    assert_eq!(
        actions[9],
        Action::Stop {
            role: Role::Origin,
            how: Termination::PatternKill {
                command: line("sh", &["-c", "pgrep -f origin-c-epoll-mp | xargs -r kill"]),
            },
        }
    );
    assert_eq!(
        actions[10],
        Action::Reap {
            role: Role::Origin,
            artifact: String::from("results/origin-c-epoll-mp/origin.txt"),
        }
    );
}

#[test]
fn fleet_is_never_signalled_by_pid() {
    for pid in [0, 1, 77, u32::MAX] {
        let run = BenchmarkRun::origin(Server::MultiProcess(String::from("fleet")));
        let (mut sequencer, mut action) = Sequencer::start(run, "/work");
        let mut stops = 0;
        while action != Action::Halt {
            if let Action::Stop { how, .. } = &action {
                stops += 1;
                assert!(matches!(how, Termination::PatternKill { .. }));
            }
            let stepped = sequencer.step(answer(&action, pid));
            sequencer = stepped.0;
            action = stepped.1;
        }
        assert_eq!(stops, 1);
        assert_eq!(sequencer.status(), Status::Finished);
    }
}

#[test]
fn daemon_that_cannot_be_signalled_aborts_before_the_stop() {
    let run = BenchmarkRun::origin(Server::Nginx(String::from("origin-nginx")));
    let (mut sequencer, mut action) = Sequencer::start(run, "/work");
    let mut actions = Vec::new();
    while action != Action::Halt {
        let event = answer(&action, u32::MAX);
        actions.push(action);
        let stepped = sequencer.step(event);
        sequencer = stepped.0;
        action = stepped.1;
    }
    assert_eq!(actions.len(), 9);
    assert!(actions.iter().all(|a| !matches!(a, Action::Stop { .. })));
    assert_eq!(sequencer.status(), Status::Aborted(Failure::Termination));
    assert_eq!(sequencer.live(Role::Origin), Some(u32::MAX));
}

#[test]
fn run_accessors() {
    let origin = BenchmarkRun::origin(Server::Rust(String::from("origin-hyper")));
    assert_eq!(origin.role(), Role::Origin);
    assert_eq!(origin.target_url(), "http://localhost:3000");
    assert_eq!(origin.output_dir(), "results/origin-hyper");
    assert_eq!(origin.variant(), &Server::Rust(String::from("origin-hyper")));
    assert_eq!(origin.dependent_origin(), None);
    assert_eq!(origin.server(Role::Origin), Some(&Server::Rust(String::from("origin-hyper"))));
    assert_eq!(origin.server(Role::Proxy), None);
    let proxy = BenchmarkRun::proxy(
        Server::Rust(String::from("proxy-hyper")),
        Server::Nginx(String::from("origin-nginx")),
    );
    assert_eq!(proxy.role(), Role::Proxy);
    assert_eq!(proxy.target_url(), "http://localhost:3001");
    assert_eq!(proxy.output_dir(), "results/proxy-hyper");
    assert_eq!(proxy.dependent_origin(), Some(&Server::Nginx(String::from("origin-nginx"))));
    assert_eq!(proxy.server(Role::Origin), Some(&Server::Nginx(String::from("origin-nginx"))));
    assert_eq!(proxy.server(Role::Proxy), Some(&Server::Rust(String::from("proxy-hyper"))));
    let (sequencer, _) = Sequencer::start(proxy, "/work");
    assert_eq!(sequencer.run().role(), Role::Proxy);
}

#[test]
fn plan_tables() {
    assert_eq!(plan_len(Role::Origin), 11);
    assert_eq!(plan_len(Role::Proxy), 15);
    assert_eq!(step_at(Role::Origin, 0), Some(Step::Settle));
    assert_eq!(step_at(Role::Origin, 10), Some(Step::Reap(Role::Origin)));
    assert_eq!(step_at(Role::Origin, 11), None);
    assert_eq!(step_at(Role::Proxy, 12), Some(Step::Reap(Role::Proxy)));
    assert_eq!(step_at(Role::Proxy, 13), Some(Step::Stop(Role::Origin)));
    assert_eq!(step_at(Role::Proxy, 15), None);
    assert_eq!(Step::Settle.seconds(), 10);
    assert_eq!(Step::WarmUp.seconds(), 2);
    assert_eq!(Step::Pause.seconds(), 1);
    assert_eq!(Step::Probe.seconds(), 0);
    assert_eq!(Step::Probe.artifact(), Some(bench_driver::artifact::Artifact::Probe));
    assert_eq!(Step::Settle.artifact(), None);
}
