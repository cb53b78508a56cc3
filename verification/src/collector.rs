//! What a run leaves in the results tree.
//!
//! Persisting an artifact replaces the file at its path: the last write
//! wins, nothing is appended. The results tree is modelled as a map from
//! paths to contents, and a completed run as the writes of its steps in
//! order. Contents are opaque: no byte of them is read here.

use vstd::prelude::*;
use crate::artifact::{output_dir_of, Artifact};
use crate::hello::{lemma_response_ends, lemma_wire_keeps_ends, response_text, wire};
use crate::path::is_absolute;
use crate::plan::{plan, Step};
use crate::run::{Role, RunSpec};
use crate::sequencer::{action_for, ActionView, State};

verus! {

/// The results tree: what each file holds.
pub type Store = Map<Seq<char>, Seq<u8>>;

/// What each tool and each terminated process wrote to its standard output.
pub type Outputs = Map<Artifact, Seq<u8>>;

/// The tree once `bytes` were persisted at `path`.
pub open spec fn persisted(store: Store, path: Seq<char>, bytes: Seq<u8>) -> Store {
    store.insert(path, bytes)
}

/// The tree once the first `done` steps of `steps` have written into `dir`.
pub open spec fn collected(
    store: Store,
    dir: Seq<char>,
    steps: Seq<Step>,
    done: nat,
    outputs: Outputs,
) -> Store
    decreases done,
{
    if done == 0 || done > steps.len() {
        store
    } else {
        let before = collected(store, dir, steps, (done - 1) as nat, outputs);
        match steps[done - 1].spec_artifact() {
            Some(artifact) => persisted(before, artifact.spec_path_in(dir), outputs[artifact]),
            None => before,
        }
    }
}

/// The tree once `run` has completed.
pub open spec fn after_run(store: Store, run: RunSpec, outputs: Outputs) -> Store {
    collected(store, run.output_dir(), plan(run.role()), plan(run.role()).len(), outputs)
}

/// The artifacts a run of the given role is to leave behind.
pub open spec fn prescribed(role: Role) -> Set<Artifact> {
    match role {
        Role::Origin => set![
            Artifact::Probe,
            Artifact::LoadNoKeepAlive,
            Artifact::LoadKeepAlive,
            Artifact::OriginOutput,
        ],
        Role::Proxy => set![
            Artifact::Probe,
            Artifact::LoadNoKeepAlive,
            Artifact::LoadKeepAlive,
            Artifact::OriginOutput,
            Artifact::ProxyOutput,
        ],
    }
}

/// The paths of the artifacts that a run of the given role leaves in `dir`.
pub open spec fn prescribed_paths(role: Role, dir: Seq<char>) -> Set<Seq<char>> {
    Set::new(
        |path: Seq<char>|
            exists|artifact: Artifact|
                prescribed(role).contains(artifact) && path == #[trigger] artifact.spec_path_in(
                    dir,
                ),
    )
}

/// The steps of a run write the artifacts prescribed for its role, and no
/// others.
pub proof fn lemma_steps_write_prescribed(role: Role, artifact: Artifact)
    ensures
        prescribed(role).contains(artifact) <==> exists|i: int|
            0 <= i < plan(role).len() && #[trigger] plan(role)[i].spec_artifact() == Some(
                artifact,
            ),
{
    let steps = plan(role);
    match role {
        Role::Origin => {
            assert(steps[4].spec_artifact() == Some(Artifact::Probe));
            assert(steps[6].spec_artifact() == Some(Artifact::LoadNoKeepAlive));
            assert(steps[8].spec_artifact() == Some(Artifact::LoadKeepAlive));
            assert(steps[10].spec_artifact() == Some(Artifact::OriginOutput));
        },
        Role::Proxy => {
            assert(steps[6].spec_artifact() == Some(Artifact::Probe));
            assert(steps[8].spec_artifact() == Some(Artifact::LoadNoKeepAlive));
            assert(steps[10].spec_artifact() == Some(Artifact::LoadKeepAlive));
            assert(steps[12].spec_artifact() == Some(Artifact::ProxyOutput));
            assert(steps[14].spec_artifact() == Some(Artifact::OriginOutput));
        },
    }
}

/// The file an action writes, if it writes one.
pub open spec fn written_path(action: ActionView) -> Option<Seq<char>> {
    match action {
        ActionView::Capture { artifact, .. } => Some(artifact),
        ActionView::Reap { artifact, .. } => Some(artifact),
        _ => None,
    }
}

/// The action of a step writes the step's artifact into the run's
/// directory, and the action of a step without artifact writes nothing.
pub proof fn lemma_action_writes_step_artifact(
    run: RunSpec,
    cwd: Seq<char>,
    state: State,
    step: Step,
)
    requires
        action_for(run, cwd, state, step) is Ok,
    ensures
        written_path(action_for(run, cwd, state, step)->Ok_0) == match step.spec_artifact() {
            Some(artifact) => Some(artifact.spec_path_in(run.output_dir())),
            None => None,
        },
{
}

/// Two artifacts of one run never share a file.
pub proof fn lemma_paths_distinct(dir: Seq<char>, a: Artifact, b: Artifact)
    requires
        a != b,
    ensures
        a.spec_path_in(dir) != b.spec_path_in(dir),
{
    reveal_strlit("curl.txt");
    reveal_strlit("oha-no-keepalive.json");
    reveal_strlit("oha-keepalive.json");
    reveal_strlit("origin.txt");
    reveal_strlit("proxy.txt");
    assert(a.spec_file_name().len() != b.spec_file_name().len());
    assert(a.spec_path_in(dir).len() != b.spec_path_in(dir).len());
}

/// Runs of variants with different names are given different paths. (Two
/// paths may still lead to one directory, as those of `a` and `a/` do.)
pub proof fn lemma_output_dir_unique(first: Seq<char>, second: Seq<char>)
    requires
        first != second,
    ensures
        output_dir_of(first) != output_dir_of(second),
{
    reveal_strlit("results");
    let root = "results"@;
    if output_dir_of(first) == output_dir_of(second) {
        let a = output_dir_of(first);
        let b = output_dir_of(second);
        if is_absolute(first) && is_absolute(second) {
        } else if is_absolute(first) {
            assert(b[0] == 'r');
            assert(a[0] == '/');
        } else if is_absolute(second) {
            assert(a[0] == 'r');
            assert(b[0] == '/');
        } else {
            assert(a.len() == 8 + first.len());
            assert(b.len() == 8 + second.len());
            assert forall|i: int| 0 <= i < first.len() implies first[i] == second[i] by {
                assert(a[8 + i] == first[i]);
                assert(b[8 + i] == second[i]);
            }
            assert(first =~= second);
        }
    }
}

/// A completed run leaves in its directory exactly the artifacts prescribed
/// for its role, each holding verbatim what its producer wrote, and leaves
/// every other file as it was.
pub proof fn lemma_run_leaves_prescribed(store: Store, run: RunSpec, outputs: Outputs)
    ensures
        after_run(store, run, outputs).dom() == store.dom().union(
            prescribed_paths(run.role(), run.output_dir()),
        ),
        forall|artifact: Artifact|
            prescribed(run.role()).contains(artifact) ==> after_run(store, run, outputs)[
                #[trigger] artifact.spec_path_in(run.output_dir())
            ] == outputs[artifact],
        forall|path: Seq<char>|
            !prescribed_paths(run.role(), run.output_dir()).contains(path) ==> after_run(
                store,
                run,
                outputs,
            )[path] == store[path],
{
    let dir = run.output_dir();
    let role = run.role();
    let after = after_run(store, run, outputs);
    lemma_after_run_unfolded(store, run, outputs);
    lemma_all_paths_distinct(dir);
    assert(prescribed_paths(role, dir).contains(Artifact::Probe.spec_path_in(dir)));
    assert(prescribed_paths(role, dir).contains(Artifact::LoadNoKeepAlive.spec_path_in(dir)));
    assert(prescribed_paths(role, dir).contains(Artifact::LoadKeepAlive.spec_path_in(dir)));
    assert(prescribed_paths(role, dir).contains(Artifact::OriginOutput.spec_path_in(dir)));
    if role == Role::Proxy {
        assert(prescribed_paths(role, dir).contains(Artifact::ProxyOutput.spec_path_in(dir)));
    }
    assert(after.dom() =~= store.dom().union(prescribed_paths(role, dir)));
}

/// Where the target answers the probe as a conforming origin does, and the
/// probe dumps that answer as it came, the probe's artifact of the completed
/// run opens with the status of a success and holds the greeting behind
/// the empty line that ends the headers.
pub proof fn lemma_probe_shows_conforming_answer(
    store: Store,
    run: RunSpec,
    outputs: Outputs,
    date: Seq<char>,
)
    requires
        outputs[Artifact::Probe] == wire(response_text(date)),
    ensures
        wire("HTTP/1.1 200"@).is_prefix_of(
            after_run(store, run, outputs)[Artifact::Probe.spec_path_in(run.output_dir())],
        ),
        wire("\r\n\r\nHello, world!\n"@).is_suffix_of(
            after_run(store, run, outputs)[Artifact::Probe.spec_path_in(run.output_dir())],
        ),
{
    lemma_run_leaves_prescribed(store, run, outputs);
    assert(prescribed(run.role()).contains(Artifact::Probe));
    lemma_response_ends(date);
    lemma_wire_keeps_ends("HTTP/1.1 200"@, response_text(date));
    lemma_wire_keeps_ends("\r\n\r\nHello, world!\n"@, response_text(date));
}

/// Running the same variant again overwrites what the earlier run left:
/// the tree is the one the later run alone would have produced. Nothing of
/// the earlier outputs remains, and nothing is appended.
pub proof fn lemma_rerun_overwrites(
    store: Store,
    run: RunSpec,
    earlier: Outputs,
    later: Outputs,
)
    ensures
        after_run(after_run(store, run, earlier), run, later) == after_run(store, run, later),
{
    let between = after_run(store, run, earlier);
    let twice = after_run(between, run, later);
    let once = after_run(store, run, later);
    let paths = prescribed_paths(run.role(), run.output_dir());
    lemma_run_leaves_prescribed(store, run, earlier);
    lemma_run_leaves_prescribed(between, run, later);
    lemma_run_leaves_prescribed(store, run, later);
    assert(twice.dom() =~= once.dom());
    assert forall|path: Seq<char>| twice.dom().contains(path) implies twice[path] == once[path] by {
        if paths.contains(path) {
            let artifact = choose|artifact: Artifact|
                prescribed(run.role()).contains(artifact) && path == #[trigger] artifact.spec_path_in(
                    run.output_dir(),
                );
            assert(twice[artifact.spec_path_in(run.output_dir())] == later[artifact]);
            assert(once[artifact.spec_path_in(run.output_dir())] == later[artifact]);
        } else {
            assert(twice[path] == between[path]);
            assert(between[path] == store[path]);
        }
    }
    assert(twice =~= once);
}

/// Running the same variant again with the same outputs changes nothing.
pub proof fn lemma_rerun_idempotent(store: Store, run: RunSpec, outputs: Outputs)
    ensures
        after_run(after_run(store, run, outputs), run, outputs) == after_run(store, run, outputs),
{
    lemma_rerun_overwrites(store, run, outputs, outputs);
}

/// The writes of a completed run, one by one.
proof fn lemma_after_run_unfolded(store: Store, run: RunSpec, outputs: Outputs)
    ensures
        after_run(store, run, outputs) == {
            let dir = run.output_dir();
            let shared = store.insert(
                Artifact::Probe.spec_path_in(dir),
                outputs[Artifact::Probe],
            ).insert(
                Artifact::LoadNoKeepAlive.spec_path_in(dir),
                outputs[Artifact::LoadNoKeepAlive],
            ).insert(Artifact::LoadKeepAlive.spec_path_in(dir), outputs[Artifact::LoadKeepAlive]);
            match run.role() {
                Role::Origin => shared.insert(
                    Artifact::OriginOutput.spec_path_in(dir),
                    outputs[Artifact::OriginOutput],
                ),
                Role::Proxy => shared.insert(
                    Artifact::ProxyOutput.spec_path_in(dir),
                    outputs[Artifact::ProxyOutput],
                ).insert(Artifact::OriginOutput.spec_path_in(dir), outputs[Artifact::OriginOutput]),
            }
        },
{
    reveal_with_fuel(collected, 16);
}

/// The five artifact paths of a directory differ pairwise.
proof fn lemma_all_paths_distinct(dir: Seq<char>)
    ensures
        forall|a: Artifact, b: Artifact|
            a != b ==> #[trigger] a.spec_path_in(dir) != #[trigger] b.spec_path_in(dir),
{
    assert forall|a: Artifact, b: Artifact| a != b implies #[trigger] a.spec_path_in(dir)
        != #[trigger] b.spec_path_in(dir) by {
        lemma_paths_distinct(dir, a, b);
    }
}

} // verus!
