//! Running a command in a new container, as a step machine: make sure the
//! image is present, prepare the bundle, set up networking (falling back to
//! the host network), generate the runtime spec, run the container, clean
//! up. Each step takes the outcome of the previous operation and returns the
//! next one; the caller performs them.

use vstd::prelude::*;
use vstd::string::*;
use crate::paths::{
    bundle_dir, bundle_dir_path, image_dir, image_dir_path, netns_name, netns_name_of, netns_path,
    netns_path_of,
};
use crate::text::string_views;

verus! {

/// Where a run stands: which outcome it waits for.
#[derive(Clone, Copy, PartialEq, Eq, Structural, Debug)]
pub enum RunPhase {
    AwaitImageCheck,
    AwaitPull,
    AwaitBundle,
    AwaitNetnsAdd,
    AwaitNetwork,
    AwaitNetnsRemoval,
    AwaitSpec,
    AwaitExit,
    AwaitCleanup,
    Finished,
}

/// The state of a run.
#[derive(Debug, PartialEq)]
pub struct RunState {
    pub id: String,
    pub image: String,
    /// The image's root filesystem (tag `latest`).
    pub rootfs: String,
    /// The OCI bundle directory.
    pub bundle: String,
    /// The network namespace created for the container.
    pub netns_name: String,
    pub netns_path: String,
    /// Whether the container joins that namespace (network setup succeeded).
    pub netns_active: bool,
    /// How the container exited, once it has.
    pub exit: Result<(), String>,
    pub phase: RunPhase,
}

/// The outcome of the previous operation.
#[derive(Debug, PartialEq)]
pub enum RunEvent {
    /// Whether the image's root filesystem exists.
    ImageChecked(bool),
    /// The pull of the image ended, with the pull's error if it failed.
    Pulled(Result<(), String>),
    /// The bundle directory was created, or not (with the error's
    /// description).
    BundleCreated(Result<(), String>),
    /// The namespace creation ran (its outcome does not matter).
    NetnsAdded,
    /// Network setup answered with its report, or failed.
    NetworkSetUp(Result<String, String>),
    /// The unused namespace deletion ran (its outcome does not matter).
    NetnsRemoved,
    /// The runtime spec was generated, or not.
    SpecGenerated(Result<(), String>),
    /// The container exited, successfully or not.
    Exited(Result<(), String>),
    /// Cleanup ran (its outcome does not matter).
    CleanedUp,
}

/// The next operation. Each prints its `notices` first, one per line.
#[derive(Debug, PartialEq)]
pub enum RunAction {
    /// Whether `rootfs` exists.
    CheckImage { rootfs: String },
    /// Pull `image` at `tag`.
    PullImage { image: String, tag: String, notices: Vec<String> },
    /// Create `dir` and its parents.
    CreateBundle { dir: String },
    /// `ip netns add <name>`.
    AddNetns { name: String },
    /// Network setup through netavark for container `id` in the namespace at
    /// `netns_path`.
    SetupNetwork { id: String, netns_path: String, notices: Vec<String> },
    /// `ip netns delete <name>`.
    DeleteNetns { name: String, notices: Vec<String> },
    /// Generate the runtime spec in `bundle` for `rootfs`, joining `netns`
    /// when given.
    GenerateSpec { bundle: String, rootfs: String, netns: Option<String>, notices: Vec<String> },
    /// `crun run <id>` in `bundle`, waiting for the container to exit.
    RunRuntime { bundle: String, id: String, notices: Vec<String> },
    /// Delete the namespace `netns` when given, then remove `bundle`.
    Cleanup { netns: Option<String>, bundle: String, notices: Vec<String> },
    /// The run is over.
    Finish { result: Result<(), String> },
}

/// The view of an operation: its strings as character sequences.
pub enum RunActionView {
    CheckImage { rootfs: Seq<char> },
    PullImage { image: Seq<char>, tag: Seq<char>, notices: Seq<Seq<char>> },
    CreateBundle { dir: Seq<char> },
    AddNetns { name: Seq<char> },
    SetupNetwork { id: Seq<char>, netns_path: Seq<char>, notices: Seq<Seq<char>> },
    DeleteNetns { name: Seq<char>, notices: Seq<Seq<char>> },
    GenerateSpec { bundle: Seq<char>, rootfs: Seq<char>, netns: Option<Seq<char>>, notices: Seq<Seq<char>> },
    RunRuntime { bundle: Seq<char>, id: Seq<char>, notices: Seq<Seq<char>> },
    Cleanup { netns: Option<Seq<char>>, bundle: Seq<char>, notices: Seq<Seq<char>> },
    Finish { result: Result<(), Seq<char>> },
}

/// The view of an optional string.
pub open spec fn opt_string_view(o: Option<String>) -> Option<Seq<char>> {
    match o {
        Some(s) => Some(s@),
        None => None,
    }
}

/// The view of a result with a string error.
pub open spec fn result_view(r: Result<(), String>) -> Result<(), Seq<char>> {
    match r {
        Ok(()) => Ok(()),
        Err(e) => Err(e@),
    }
}

impl View for RunAction {
    type V = RunActionView;

    open spec fn view(&self) -> RunActionView {
        match self {
            RunAction::CheckImage { rootfs } => RunActionView::CheckImage { rootfs: rootfs@ },
            RunAction::PullImage { image, tag, notices } => RunActionView::PullImage {
                image: image@,
                tag: tag@,
                notices: string_views(notices@),
            },
            RunAction::CreateBundle { dir } => RunActionView::CreateBundle { dir: dir@ },
            RunAction::AddNetns { name } => RunActionView::AddNetns { name: name@ },
            RunAction::SetupNetwork { id, netns_path, notices } => RunActionView::SetupNetwork {
                id: id@,
                netns_path: netns_path@,
                notices: string_views(notices@),
            },
            RunAction::DeleteNetns { name, notices } => RunActionView::DeleteNetns {
                name: name@,
                notices: string_views(notices@),
            },
            RunAction::GenerateSpec { bundle, rootfs, netns, notices } => RunActionView::GenerateSpec {
                bundle: bundle@,
                rootfs: rootfs@,
                netns: opt_string_view(*netns),
                notices: string_views(notices@),
            },
            RunAction::RunRuntime { bundle, id, notices } => RunActionView::RunRuntime {
                bundle: bundle@,
                id: id@,
                notices: string_views(notices@),
            },
            RunAction::Cleanup { netns, bundle, notices } => RunActionView::Cleanup {
                netns: opt_string_view(*netns),
                bundle: bundle@,
                notices: string_views(notices@),
            },
            RunAction::Finish { result } => RunActionView::Finish { result: result_view(*result) },
        }
    }
}

/// Which outcome each phase waits for.
pub open spec fn run_expects(phase: RunPhase, e: RunEvent) -> bool {
    match phase {
        RunPhase::AwaitImageCheck => e is ImageChecked,
        RunPhase::AwaitPull => e is Pulled,
        RunPhase::AwaitBundle => e is BundleCreated,
        RunPhase::AwaitNetnsAdd => e is NetnsAdded,
        RunPhase::AwaitNetwork => e is NetworkSetUp,
        RunPhase::AwaitNetnsRemoval => e is NetnsRemoved,
        RunPhase::AwaitSpec => e is SpecGenerated,
        RunPhase::AwaitExit => e is Exited,
        RunPhase::AwaitCleanup => e is CleanedUp,
        RunPhase::Finished => false,
    }
}

/// The tag a run uses.
pub open spec fn run_tag() -> Seq<char> {
    "latest"@
}

/// Generating the spec, after the given notices.
pub open spec fn generate_spec_of(s: RunState, netns: Option<Seq<char>>, notices: Seq<Seq<char>>) -> RunActionView {
    RunActionView::GenerateSpec { bundle: s.bundle@, rootfs: s.rootfs@, netns, notices: notices.push("Generating OCI spec..."@) }
}

/// Cleaning up after the container: delete the namespace it joined, if
/// any, and remove the bundle.
pub open spec fn cleanup_of(s: RunState) -> RunActionView {
    RunActionView::Cleanup {
        netns: if s.netns_active { Some(s.netns_name@) } else { None },
        bundle: s.bundle@,
        notices: seq!["Cleaning up..."@],
    }
}

/// The state after one step.
pub open spec fn run_next_state(s: RunState, e: RunEvent) -> RunState {
    let next = match (s.phase, e) {
        (RunPhase::AwaitImageCheck, RunEvent::ImageChecked(true)) => RunPhase::AwaitBundle,
        (RunPhase::AwaitImageCheck, RunEvent::ImageChecked(false)) => RunPhase::AwaitPull,
        (RunPhase::AwaitPull, RunEvent::Pulled(Ok(()))) => RunPhase::AwaitBundle,
        (RunPhase::AwaitBundle, RunEvent::BundleCreated(Ok(()))) => RunPhase::AwaitNetnsAdd,
        (RunPhase::AwaitNetnsAdd, _) => RunPhase::AwaitNetwork,
        (RunPhase::AwaitNetwork, RunEvent::NetworkSetUp(Ok(_))) => RunPhase::AwaitSpec,
        (RunPhase::AwaitNetwork, RunEvent::NetworkSetUp(Err(_))) => RunPhase::AwaitNetnsRemoval,
        (RunPhase::AwaitNetnsRemoval, _) => RunPhase::AwaitSpec,
        (RunPhase::AwaitSpec, RunEvent::SpecGenerated(Ok(()))) => RunPhase::AwaitExit,
        (RunPhase::AwaitSpec, RunEvent::SpecGenerated(Err(_))) => RunPhase::AwaitCleanup,
        (RunPhase::AwaitExit, _) => RunPhase::AwaitCleanup,
        _ => RunPhase::Finished,
    };
    match (s.phase, e) {
        (RunPhase::AwaitNetwork, RunEvent::NetworkSetUp(Ok(_))) => RunState { netns_active: true, phase: next, ..s },
        (RunPhase::AwaitSpec, RunEvent::SpecGenerated(Err(d))) => RunState { exit: Err(d), phase: next, ..s },
        (RunPhase::AwaitExit, RunEvent::Exited(r)) => RunState { exit: r, phase: next, ..s },
        _ => RunState { phase: next, ..s },
    }
}

/// The operation after one step.
pub open spec fn run_action_of(s: RunState, e: RunEvent) -> RunActionView {
    match (s.phase, e) {
        (_, RunEvent::ImageChecked(true)) => RunActionView::CreateBundle { dir: s.bundle@ },
        (_, RunEvent::ImageChecked(false)) => RunActionView::PullImage {
            image: s.image@,
            tag: run_tag(),
            notices: seq!["Image not found locally, pulling..."@],
        },
        (_, RunEvent::Pulled(Ok(()))) => RunActionView::CreateBundle { dir: s.bundle@ },
        (_, RunEvent::Pulled(Err(d))) => RunActionView::Finish { result: Err(d@) },
        (_, RunEvent::BundleCreated(Ok(()))) => RunActionView::AddNetns { name: s.netns_name@ },
        (_, RunEvent::BundleCreated(Err(d))) => RunActionView::Finish {
            result: Err("Failed to create bundle dir: "@ + d@),
        },
        (_, RunEvent::NetnsAdded) => RunActionView::SetupNetwork {
            id: s.id@,
            netns_path: s.netns_path@,
            notices: seq!["Setting up network..."@],
        },
        (_, RunEvent::NetworkSetUp(Ok(report))) => generate_spec_of(
            s,
            Some(s.netns_path@),
            seq!["Network configured: "@ + report@],
        ),
        (_, RunEvent::NetworkSetUp(Err(reason))) => RunActionView::DeleteNetns {
            name: s.netns_name@,
            notices: seq!["Warning: Skipping custom networking (using host). Reason: "@ + reason@],
        },
        (_, RunEvent::NetnsRemoved) => generate_spec_of(s, None, Seq::empty()),
        (_, RunEvent::SpecGenerated(Ok(()))) => RunActionView::RunRuntime {
            bundle: s.bundle@,
            id: s.id@,
            notices: seq!["Running container: "@ + s.id@],
        },
        (_, RunEvent::SpecGenerated(Err(_))) => cleanup_of(s),
        (_, RunEvent::Exited(_)) => cleanup_of(s),
        (_, RunEvent::CleanedUp) => RunActionView::Finish { result: result_view(s.exit) },
    }
}

/// The state and first operation of running a container `id` from `image`
/// with the image store of `home`.
pub fn run_start(id: &str, image: &str, home: &str) -> (r: (RunState, RunAction))
    ensures
        r.0.id@ == id@,
        r.0.image@ == image@,
        r.0.rootfs@ == image_dir_path(home@, image@, run_tag()),
        r.0.bundle@ == bundle_dir_path(id@),
        r.0.netns_name@ == netns_name_of(id@),
        r.0.netns_path@ == netns_path_of(id@),
        !r.0.netns_active,
        r.0.exit is Ok,
        r.0.phase == RunPhase::AwaitImageCheck,
        r.1@ == (RunActionView::CheckImage { rootfs: image_dir_path(home@, image@, run_tag()) }),
{
    let rootfs = image_dir(home, image, "latest");
    let action = RunAction::CheckImage { rootfs: rootfs.clone() };
    let state = RunState {
        id: String::from_str(id),
        image: String::from_str(image),
        rootfs,
        bundle: bundle_dir(id),
        netns_name: netns_name(id),
        netns_path: netns_path(id),
        netns_active: false,
        exit: Ok(()),
        phase: RunPhase::AwaitImageCheck,
    };
    (state, action)
}

/// Whether the run waits for this kind of outcome.
pub fn run_accepts(state: &RunState, event: &RunEvent) -> (b: bool)
    ensures
        b == run_expects(state.phase, *event),
{
    match (state.phase, event) {
        (RunPhase::AwaitImageCheck, RunEvent::ImageChecked(_)) => true,
        (RunPhase::AwaitPull, RunEvent::Pulled(_)) => true,
        (RunPhase::AwaitBundle, RunEvent::BundleCreated(_)) => true,
        (RunPhase::AwaitNetnsAdd, RunEvent::NetnsAdded) => true,
        (RunPhase::AwaitNetwork, RunEvent::NetworkSetUp(_)) => true,
        (RunPhase::AwaitNetnsRemoval, RunEvent::NetnsRemoved) => true,
        (RunPhase::AwaitSpec, RunEvent::SpecGenerated(_)) => true,
        (RunPhase::AwaitExit, RunEvent::Exited(_)) => true,
        (RunPhase::AwaitCleanup, RunEvent::CleanedUp) => true,
        _ => false,
    }
}

/// A list of one notice.
fn notice(line: String) -> (r: Vec<String>)
    ensures
        string_views(r@) == seq![line@],
{
    let mut v: Vec<String> = Vec::new();
    v.push(line);
    assert(string_views(v@) =~= seq![line@]);
    v
}

/// `prefix` followed by `detail`.
fn message(prefix: &str, detail: &str) -> (r: String)
    ensures
        r@ == prefix@ + detail@,
{
    let mut r = String::from_str(prefix);
    r.append(detail);
    r
}

/// The cleanup operation of a run.
fn cleanup(s: &RunState) -> (r: RunAction)
    ensures
        r@ == cleanup_of(*s),
{
    RunAction::Cleanup {
        netns: if s.netns_active { Some(s.netns_name.clone()) } else { None },
        bundle: s.bundle.clone(),
        notices: notice(String::from_str("Cleaning up...")),
    }
}

/// One step of a run: from the outcome of the previous operation, the next
/// state and operation.
pub fn run_step(state: RunState, event: RunEvent) -> (r: (RunState, RunAction))
    requires
        run_expects(state.phase, event),
    ensures
        r.0 == run_next_state(state, event),
        r.1@ == run_action_of(state, event),
{
    let s = state;
    match event {
        RunEvent::ImageChecked(true) | RunEvent::Pulled(Ok(())) => {
            let dir = s.bundle.clone();
            (RunState { phase: RunPhase::AwaitBundle, ..s }, RunAction::CreateBundle { dir })
        },
        RunEvent::ImageChecked(false) => {
            let action = RunAction::PullImage {
                image: s.image.clone(),
                tag: String::from_str("latest"),
                notices: notice(String::from_str("Image not found locally, pulling...")),
            };
            (RunState { phase: RunPhase::AwaitPull, ..s }, action)
        },
        RunEvent::Pulled(Err(d)) => {
            (RunState { phase: RunPhase::Finished, ..s }, RunAction::Finish { result: Err(d) })
        },
        RunEvent::BundleCreated(Ok(())) => {
            let name = s.netns_name.clone();
            (RunState { phase: RunPhase::AwaitNetnsAdd, ..s }, RunAction::AddNetns { name })
        },
        RunEvent::BundleCreated(Err(d)) => {
            let m = message("Failed to create bundle dir: ", d.as_str());
            (RunState { phase: RunPhase::Finished, ..s }, RunAction::Finish { result: Err(m) })
        },
        RunEvent::NetnsAdded => {
            let action = RunAction::SetupNetwork {
                id: s.id.clone(),
                netns_path: s.netns_path.clone(),
                notices: notice(String::from_str("Setting up network...")),
            };
            (RunState { phase: RunPhase::AwaitNetwork, ..s }, action)
        },
        RunEvent::NetworkSetUp(Ok(report)) => {
            let mut notices = notice(message("Network configured: ", report.as_str()));
            let ghost before = notices@;
            notices.push(String::from_str("Generating OCI spec..."));
            assert(string_views(notices@) =~= string_views(before).push("Generating OCI spec..."@));
            let action = RunAction::GenerateSpec {
                bundle: s.bundle.clone(),
                rootfs: s.rootfs.clone(),
                netns: Some(s.netns_path.clone()),
                notices,
            };
            (RunState { netns_active: true, phase: RunPhase::AwaitSpec, ..s }, action)
        },
        RunEvent::NetworkSetUp(Err(reason)) => {
            let action = RunAction::DeleteNetns {
                name: s.netns_name.clone(),
                notices: notice(
                    message("Warning: Skipping custom networking (using host). Reason: ", reason.as_str()),
                ),
            };
            (RunState { phase: RunPhase::AwaitNetnsRemoval, ..s }, action)
        },
        RunEvent::NetnsRemoved => {
            let action = RunAction::GenerateSpec {
                bundle: s.bundle.clone(),
                rootfs: s.rootfs.clone(),
                netns: None,
                notices: notice(String::from_str("Generating OCI spec...")),
            };
            assert(seq!["Generating OCI spec..."@] =~= Seq::<Seq<char>>::empty().push("Generating OCI spec..."@));
            (RunState { phase: RunPhase::AwaitSpec, ..s }, action)
        },
        RunEvent::SpecGenerated(Ok(())) => {
            let action = RunAction::RunRuntime {
                bundle: s.bundle.clone(),
                id: s.id.clone(),
                notices: notice(message("Running container: ", s.id.as_str())),
            };
            (RunState { phase: RunPhase::AwaitExit, ..s }, action)
        },
        RunEvent::SpecGenerated(Err(d)) => {
            let action = cleanup(&s);
            (RunState { exit: Err(d), phase: RunPhase::AwaitCleanup, ..s }, action)
        },
        RunEvent::Exited(r) => {
            let action = cleanup(&s);
            (RunState { exit: r, phase: RunPhase::AwaitCleanup, ..s }, action)
        },
        RunEvent::CleanedUp => {
            let result = match &s.exit {
                Ok(()) => Ok(()),
                Err(e) => Err(e.clone()),
            };
            (RunState { phase: RunPhase::Finished, ..s }, RunAction::Finish { result })
        },
    }
}

} // verus!

verus! {

/// The order of the phases: every step moves to a later one.
pub open spec fn run_phase_order(p: RunPhase) -> nat {
    match p {
        RunPhase::AwaitImageCheck => 9,
        RunPhase::AwaitPull => 8,
        RunPhase::AwaitBundle => 7,
        RunPhase::AwaitNetnsAdd => 6,
        RunPhase::AwaitNetwork => 5,
        RunPhase::AwaitNetnsRemoval => 4,
        RunPhase::AwaitSpec => 3,
        RunPhase::AwaitExit => 2,
        RunPhase::AwaitCleanup => 1,
        RunPhase::Finished => 0,
    }
}

/// Every step moves the run to a later phase, so a run takes at most nine
/// steps; it ends exactly when it answers `Finish`, and then accepts
/// nothing more.
pub proof fn law_run_progress(s: RunState, e: RunEvent, later: RunEvent)
    requires
        run_expects(s.phase, e),
    ensures
        run_phase_order(run_next_state(s, e).phase) < run_phase_order(s.phase),
        (run_next_state(s, e).phase == RunPhase::Finished) == (run_action_of(s, e) is Finish),
        run_next_state(s, e).phase == RunPhase::Finished ==> !run_expects(
            run_next_state(s, e).phase,
            later,
        ),
{
}

/// The container runs only after its spec was generated, and whatever its
/// exit, cleanup follows and the run's result is the container's.
pub proof fn law_run_result_is_exit(s: RunState, e: RunEvent, exit: Result<(), String>)
    requires
        run_expects(s.phase, e),
    ensures
        run_action_of(s, e) is RunRuntime ==> s.phase == RunPhase::AwaitSpec && (e matches RunEvent::SpecGenerated(Ok(_))),
        s.phase == RunPhase::AwaitExit ==> ({
            let s1 = run_next_state(s, RunEvent::Exited(exit));
            &&& run_action_of(s, RunEvent::Exited(exit)) is Cleanup
            &&& run_action_of(s1, RunEvent::CleanedUp) == (RunActionView::Finish {
                result: result_view(exit),
            })
        }),
{
}

/// Whether the bundle directory exists in this phase: it was created and
/// cleanup has not run yet.
pub open spec fn run_holds_bundle(p: RunPhase) -> bool {
    match p {
        RunPhase::AwaitNetnsAdd | RunPhase::AwaitNetwork | RunPhase::AwaitNetnsRemoval
        | RunPhase::AwaitSpec | RunPhase::AwaitExit | RunPhase::AwaitCleanup => true,
        _ => false,
    }
}

/// Every run that got past creating its bundle ends through cleanup: no
/// step before cleanup finishes it, every step into cleanup answers
/// `Cleanup` with the run's bundle and, when the container was to join the
/// run's namespace, that namespace, and cleanup is followed by `Finish`
/// with the run's result.
pub proof fn law_run_cleans_up_after_bundle(s: RunState, e: RunEvent)
    requires
        run_expects(s.phase, e),
    ensures
        s.phase == RunPhase::AwaitBundle && e == RunEvent::BundleCreated(Ok(())) ==> run_holds_bundle(
            run_next_state(s, e).phase,
        ),
        run_holds_bundle(s.phase) && s.phase != RunPhase::AwaitCleanup ==> {
            &&& run_holds_bundle(run_next_state(s, e).phase)
            &&& !(run_action_of(s, e) is Finish)
        },
        run_next_state(s, e).phase == RunPhase::AwaitCleanup ==> run_action_of(s, e) == cleanup_of(
            run_next_state(s, e),
        ),
        s.phase == RunPhase::AwaitCleanup ==> run_action_of(s, e) == (RunActionView::Finish {
            result: result_view(s.exit),
        }),
        run_next_state(s, e).netns_active == (s.netns_active || (s.phase == RunPhase::AwaitNetwork
            && e is NetworkSetUp && e->NetworkSetUp_0 is Ok)),
{
}

/// The network namespace does not outlive the run: when network setup
/// fails it is deleted at once and the container uses the host network;
/// when it succeeds the container joins it and cleanup deletes it, whether
/// the container ran or its spec could not be generated.
pub proof fn law_run_netns_hygiene(
    s: RunState,
    report: String,
    reason: String,
    exit: Result<(), String>,
    spec_error: String,
)
    requires
        s.phase == RunPhase::AwaitNetwork,
        !s.netns_active,
    ensures
        ({
            let failed = run_next_state(s, RunEvent::NetworkSetUp(Err(reason)));
            let spec_failed = run_next_state(failed, RunEvent::NetnsRemoved);
            let ran_failed = run_next_state(spec_failed, RunEvent::SpecGenerated(Ok(())));
            &&& run_action_of(s, RunEvent::NetworkSetUp(Err(reason))) matches RunActionView::DeleteNetns { name, .. }
                && name == s.netns_name@
            &&& run_action_of(failed, RunEvent::NetnsRemoved) matches RunActionView::GenerateSpec { netns, .. }
                && netns is None
            &&& run_action_of(ran_failed, RunEvent::Exited(exit)) matches RunActionView::Cleanup { netns, bundle, .. }
                && netns is None && bundle == s.bundle@
            &&& run_action_of(spec_failed, RunEvent::SpecGenerated(Err(spec_error))) matches RunActionView::Cleanup { netns, bundle, .. }
                && netns is None && bundle == s.bundle@
        }),
        ({
            let ok = run_next_state(s, RunEvent::NetworkSetUp(Ok(report)));
            let ran_ok = run_next_state(ok, RunEvent::SpecGenerated(Ok(())));
            &&& run_action_of(s, RunEvent::NetworkSetUp(Ok(report))) matches RunActionView::GenerateSpec { netns, .. }
                && netns == Some(s.netns_path@)
            &&& run_action_of(ran_ok, RunEvent::Exited(exit)) matches RunActionView::Cleanup { netns, bundle, .. }
                && netns == Some(s.netns_name@) && bundle == s.bundle@
            &&& run_action_of(ok, RunEvent::SpecGenerated(Err(spec_error))) matches RunActionView::Cleanup { netns, bundle, .. }
                && netns == Some(s.netns_name@) && bundle == s.bundle@
        }),
{
}

/// A run that finds its image missing pulls it, with the tag it uses; a
/// failing pull or bundle creation ends the run with that error before
/// anything was set up, and a failing spec generation cleans up, then ends
/// the run with that error, before the container starts.
pub proof fn law_run_failures_end_early(s: RunState, e: RunEvent)
    requires
        run_expects(s.phase, e),
    ensures
        e == RunEvent::ImageChecked(false) ==> (run_action_of(s, e) matches RunActionView::PullImage {
            image,
            tag,
            ..
        } && image == s.image@ && tag == run_tag()),
        e matches RunEvent::Pulled(Err(d)) ==> run_action_of(s, e) == (RunActionView::Finish {
            result: Err(d@),
        }),
        e matches RunEvent::BundleCreated(Err(d)) ==> run_action_of(s, e) == (RunActionView::Finish {
            result: Err("Failed to create bundle dir: "@ + d@),
        }),
        e matches RunEvent::SpecGenerated(Err(d)) ==> {
            let s1 = run_next_state(s, e);
            &&& run_action_of(s, e) is Cleanup
            &&& run_action_of(s1, RunEvent::CleanedUp) == (RunActionView::Finish { result: Err(d@) })
        },
{
}

} // verus!

verus! {

/// `ip netns add <name>` (when `add`) or `ip netns delete <name>`: the
/// arguments of `ip`.
pub fn ip_netns_args(add: bool, name: &str) -> (r: Vec<String>)
    ensures
        string_views(r@) == seq!["netns"@, if add { "add"@ } else { "delete"@ }, name@],
{
    let mut v: Vec<String> = Vec::new();
    v.push(String::from_str("netns"));
    if add {
        v.push(String::from_str("add"));
    } else {
        v.push(String::from_str("delete"));
    }
    v.push(String::from_str(name));
    assert(string_views(v@) =~= seq!["netns"@, if add { "add"@ } else { "delete"@ }, name@]);
    v
}

/// Every operation of a run acts on the run's own things: the bundle,
/// namespace, image and container id in its state (the image at tag
/// `latest`), and the container joins the run's namespace exactly when
/// network setup succeeded.
pub proof fn law_run_operations_name_the_run(s: RunState, e: RunEvent)
    requires
        run_expects(s.phase, e),
    ensures
        run_action_of(s, e) matches RunActionView::PullImage { image, tag, .. } ==> image == s.image@
            && tag == "latest"@,
        run_action_of(s, e) matches RunActionView::CreateBundle { dir } ==> dir == s.bundle@,
        run_action_of(s, e) matches RunActionView::AddNetns { name } ==> name == s.netns_name@,
        run_action_of(s, e) matches RunActionView::SetupNetwork { id, netns_path, .. } ==> id == s.id@
            && netns_path == s.netns_path@,
        run_action_of(s, e) matches RunActionView::DeleteNetns { name, .. } ==> name == s.netns_name@,
        run_action_of(s, e) matches RunActionView::GenerateSpec { bundle, rootfs, netns, .. } ==> bundle
            == s.bundle@ && rootfs == s.rootfs@ && netns == (if e is NetworkSetUp {
            Some(s.netns_path@)
        } else {
            None
        }),
        run_action_of(s, e) matches RunActionView::RunRuntime { bundle, id, .. } ==> bundle == s.bundle@
            && id == s.id@,
        run_action_of(s, e) matches RunActionView::Cleanup { netns, bundle, .. } ==> bundle == s.bundle@
            && netns == (if run_next_state(s, e).netns_active {
            Some(s.netns_name@)
        } else {
            None
        }),
{
}

/// Where a run puts things: the bundle of container `id` is
/// `/run/rustpod/bundles/<id>` and its namespace `rustpod-<id>`, mounted at
/// `/var/run/netns/rustpod-<id>`; the image is looked for at tag `latest`.
pub proof fn law_run_places(id: Seq<char>)
    requires
        id.len() > 0,
        id[0] != '/',
    ensures
        bundle_dir_path(id) == "/run/rustpod/bundles/"@ + id,
        netns_name_of(id) == "rustpod-"@ + id,
        netns_path_of(id) == "/var/run/netns/rustpod-"@ + id,
        run_tag() == "latest"@,
{
    reveal_strlit("/run/rustpod/bundles");
    reveal_strlit("/run/rustpod/bundles/");
    reveal_strlit("rustpod-");
    reveal_strlit("/var/run/netns/");
    reveal_strlit("/var/run/netns/rustpod-");
    assert("/run/rustpod/bundles"@ + seq!['/'] + id =~= "/run/rustpod/bundles/"@ + id);
    assert("/var/run/netns/"@ + ("rustpod-"@ + id) =~= "/var/run/netns/rustpod-"@ + id);
}

} // verus!
