//! Invocations of the `crun` OCI runtime and what the engine reports about
//! them.

use vstd::prelude::*;
use vstd::string::*;
use crate::text::string_views;
use crate::paths::{bundle_dir, bundle_dir_path};

verus! {

/// An operation applied to each of a list of containers.
#[derive(Clone, Copy, PartialEq, Eq, Structural, Debug)]
pub enum ContainerOp {
    Start,
    Stop,
    Remove,
}

/// A list holding the single word `a`.
fn words(a: &str) -> (r: Vec<String>)
    ensures
        string_views(r@) == seq![a@],
{
    let mut v: Vec<String> = Vec::new();
    v.push(String::from_str(a));
    assert(string_views(v@) =~= seq![a@]);
    v
}

/// Appends a word to a list.
fn push_word(v: &mut Vec<String>, w: &str)
    ensures
        string_views(final(v)@) == string_views(old(v)@).push(w@),
{
    v.push(String::from_str(w));
    assert(string_views(v@) =~= string_views(old(v)@).push(w@));
}

/// The `crun` arguments of an operation on one container.
pub open spec fn op_args_of(op: ContainerOp, container: Seq<char>) -> Seq<Seq<char>> {
    match op {
        ContainerOp::Start => seq!["start"@, container],
        ContainerOp::Stop => seq!["kill"@, container, "SIGTERM"@],
        ContainerOp::Remove => seq!["delete"@, "-f"@, container],
    }
}

/// The `crun` arguments that start, stop (with SIGTERM) or force-delete a
/// container.
pub fn op_args(op: ContainerOp, container: &str) -> (r: Vec<String>)
    ensures
        string_views(r@) == op_args_of(op, container@),
{
    match op {
        ContainerOp::Start => {
            let mut v = words("start");
            push_word(&mut v, container);
            v
        },
        ContainerOp::Stop => {
            let mut v = words("kill");
            push_word(&mut v, container);
            push_word(&mut v, "SIGTERM");
            v
        },
        ContainerOp::Remove => {
            let mut v = words("delete");
            push_word(&mut v, "-f");
            push_word(&mut v, container);
            v
        },
    }
}

/// What follows an operation on a container: a line to print, on standard
/// output or standard error, and a bundle directory to remove.
#[derive(Debug, PartialEq)]
pub struct Report {
    pub to_stderr: bool,
    pub line: String,
    pub remove_dir: Option<String>,
}

/// What is reported after an operation on a container: success on standard
/// output, failure on standard error.
pub open spec fn op_report_of(op: ContainerOp, container: Seq<char>, succeeded: bool) -> (bool, Seq<char>) {
    if succeeded {
        (false, match op {
            ContainerOp::Start => "Started "@,
            ContainerOp::Stop => "Stopped "@,
            ContainerOp::Remove => "Removed "@,
        } + container)
    } else {
        (true, match op {
            ContainerOp::Start => "Failed to start container "@,
            ContainerOp::Stop => "Failed to stop container "@,
            ContainerOp::Remove => "Failed to remove container "@,
        } + container)
    }
}

/// Whether `r` is the report after running `op` on `container`: its line,
/// and the bundle directory to remove exactly when a container was
/// removed.
pub open spec fn report_is(r: Report, op: ContainerOp, container: Seq<char>, succeeded: bool) -> bool {
    &&& (r.to_stderr, r.line@) == op_report_of(op, container, succeeded)
    &&& match r.remove_dir {
        Some(d) => succeeded && op == ContainerOp::Remove && d@ == bundle_dir_path(container),
        None => !(succeeded && op == ContainerOp::Remove),
    }
}

/// The report after running `op` on `container`; a container that was
/// removed also loses its bundle directory.
pub fn op_report(op: ContainerOp, container: &str, succeeded: bool) -> (r: Report)
    ensures
        report_is(r, op, container@, succeeded),
{
    let mut line = if succeeded {
        match op {
            ContainerOp::Start => String::from_str("Started "),
            ContainerOp::Stop => String::from_str("Stopped "),
            ContainerOp::Remove => String::from_str("Removed "),
        }
    } else {
        match op {
            ContainerOp::Start => String::from_str("Failed to start container "),
            ContainerOp::Stop => String::from_str("Failed to stop container "),
            ContainerOp::Remove => String::from_str("Failed to remove container "),
        }
    };
    line.append(container);
    let remove_dir = match op {
        ContainerOp::Remove => if succeeded {
            Some(bundle_dir(container))
        } else {
            None
        },
        _ => None,
    };
    Report { to_stderr: !succeeded, line, remove_dir }
}

/// What running `crun` on one container of a batch came to: it ran, and
/// succeeded or not, or it could not be started (with the error's
/// description).
#[derive(Debug, PartialEq)]
pub enum ItemOutcome {
    Ran(bool),
    SpawnFailed(String),
}

/// What a batch does next.
#[derive(Debug, PartialEq)]
pub enum BatchNext {
    /// Run `crun` with `args` on the container at `index`.
    Run { index: usize, args: Vec<String> },
    /// The batch is over.
    Done { result: Result<(), String> },
}

/// The view of what a batch does next.
pub enum BatchNextView {
    Run { index: int, args: Seq<Seq<char>> },
    Done { result: Result<(), Seq<char>> },
}

impl View for BatchNext {
    type V = BatchNextView;

    open spec fn view(&self) -> BatchNextView {
        match self {
            BatchNext::Run { index, args } => BatchNextView::Run { index: *index as int, args: string_views(args@) },
            BatchNext::Done { result } => BatchNextView::Done {
                result: match result {
                    Ok(()) => Ok(()),
                    Err(e) => Err(e@),
                },
            },
        }
    }
}

/// Turning to the container at `index`: run `crun` on it, or finish
/// successfully when the list is done.
pub open spec fn batch_turn_to(op: ContainerOp, containers: Seq<Seq<char>>, index: int) -> BatchNextView {
    if index < containers.len() {
        BatchNextView::Run { index, args: op_args_of(op, containers[index]) }
    } else {
        BatchNextView::Done { result: Ok(()) }
    }
}

/// What running `op` on `containers` (the `crun` invocations of the
/// batch) starts with.
pub fn batch_start(op: ContainerOp, containers: &Vec<String>) -> (r: BatchNext)
    ensures
        r@ == batch_turn_to(op, string_views(containers@), 0),
{
    batch_turn_to_exec(op, containers, 0)
}

/// The exec form of `batch_turn_to`.
fn batch_turn_to_exec(op: ContainerOp, containers: &Vec<String>, index: usize) -> (r: BatchNext)
    ensures
        r@ == batch_turn_to(op, string_views(containers@), index as int),
{
    if index < containers.len() {
        BatchNext::Run { index, args: op_args(op, containers[index].as_str()) }
    } else {
        BatchNext::Done { result: Ok(()) }
    }
}

/// One step of a batch: after `crun` on the container at `index`, its
/// report (none when `crun` could not be started) and what follows. Every
/// container is reported in turn, failures included; a `crun` that cannot
/// be started ends the batch with that error.
pub fn batch_step(op: ContainerOp, containers: &Vec<String>, index: usize, outcome: ItemOutcome) -> (r: (
    Option<Report>,
    BatchNext,
))
    requires
        index < containers@.len(),
    ensures
        match outcome {
            ItemOutcome::Ran(ok) => {
                &&& r.0 matches Some(report) && report_is(report, op, containers@[index as int]@, ok)
                &&& r.1@ == batch_turn_to(op, string_views(containers@), index + 1)
            },
            ItemOutcome::SpawnFailed(d) => {
                &&& r.0 is None
                &&& r.1@ == (BatchNextView::Done { result: Err(d@) })
            },
        },
{
    match outcome {
        ItemOutcome::Ran(ok) => {
            let n = containers.len();
            assert(index + 1 <= n);
            let report = op_report(op, containers[index].as_str(), ok);
            (Some(report), batch_turn_to_exec(op, containers, index + 1))
        },
        ItemOutcome::SpawnFailed(d) => (None, BatchNext::Done { result: Err(d) }),
    }
}

/// `crun run <id>`.
pub fn run_args(id: &str) -> (r: Vec<String>)
    ensures
        string_views(r@) == seq!["run"@, id@],
{
    let mut v = words("run");
    push_word(&mut v, id);
    v
}

/// `crun exec -t <container> <cmd...>`.
pub fn exec_args(container: &str, cmd: &Vec<String>) -> (r: Vec<String>)
    ensures
        string_views(r@) == seq!["exec"@, "-t"@, container@] + string_views(cmd@),
{
    let mut v = words("exec");
    push_word(&mut v, "-t");
    push_word(&mut v, container);
    let ghost start = string_views(v@);
    let n = cmd.len();
    let mut i: usize = 0;
    while i < n
        invariant
            n == cmd@.len(),
            i <= n,
            start == seq!["exec"@, "-t"@, container@],
            string_views(v@) =~= start + string_views(cmd@).take(i as int),
        decreases n - i,
    {
        let ghost before = v@;
        v.push(cmd[i].clone());
        proof {
            assert(string_views(v@) =~= string_views(before).push(cmd@[i as int]@));
            assert(string_views(cmd@).take(i + 1) =~= string_views(cmd@).take(i as int).push(
                cmd@[i as int]@,
            ));
        }
        i = i + 1;
    }
    assert(string_views(cmd@).take(n as int) =~= string_views(cmd@));
    v
}

/// `crun list`.
pub fn list_args() -> (r: Vec<String>)
    ensures
        string_views(r@) == seq!["list"@],
{
    words("list")
}

/// `crun spec`, which writes a default `config.json` into the bundle.
pub fn spec_args() -> (r: Vec<String>)
    ensures
        string_views(r@) == seq!["spec"@],
{
    words("spec")
}

/// The error when `crun list` fails, with its standard error.
pub fn list_failure(stderr: &str) -> (r: String)
    ensures
        r@ == "crun list error: "@ + stderr@,
{
    let mut r = String::from_str("crun list error: ");
    r.append(stderr);
    r
}

/// The error when `crun spec` fails, with its standard error.
pub fn spec_failure(stderr: &str) -> (r: String)
    ensures
        r@ == "crun spec error: "@ + stderr@,
{
    let mut r = String::from_str("crun spec error: ");
    r.append(stderr);
    r
}

/// What `logs` reports: log collection needs a container monitor, which the
/// engine does not run.
pub fn logs_message(container: &str) -> (r: String)
    ensures
        r@ == "Logs for container "@ + container@ + ": (Not implemented natively, requires conmon)"@,
{
    let mut r = String::from_str("Logs for container ");
    r.append(container);
    r.append(": (Not implemented natively, requires conmon)");
    r
}

} // verus!

verus! {

/// A failing step around the runtime, whose error carries a description of
/// the underlying error.
#[derive(Clone, Copy, PartialEq, Eq, Structural, Debug)]
pub enum RuntimeFailure {
    /// `crun spec` could not be started.
    RunSpec,
    /// The generated `config.json` could not be read.
    ReadConfig,
    /// The generated `config.json` is not JSON.
    ParseConfig,
    /// The modified spec could not be serialized.
    SerializeConfig,
    /// The modified spec could not be written back.
    WriteConfig,
    /// `crun run` could not be started.
    StartRun,
    /// Waiting for `crun run` failed.
    WaitRun,
    /// `crun run` exited unsuccessfully (the detail is its exit status).
    RunStatus,
    /// `crun list` could not be started.
    RunList,
    /// `crun exec` could not be started.
    StartExec,
    /// Waiting for `crun exec` failed.
    WaitExec,
    /// `crun exec` exited unsuccessfully (the detail is its exit status).
    ExecStatus,
}

/// The text that precedes the detail of each failure.
pub open spec fn runtime_failure_prefix(f: RuntimeFailure) -> Seq<char> {
    match f {
        RuntimeFailure::RunSpec => "Failed to run crun spec: "@,
        RuntimeFailure::ReadConfig => "Failed to read config.json: "@,
        RuntimeFailure::ParseConfig => "Failed to parse config.json: "@,
        RuntimeFailure::SerializeConfig => "Failed to serialize modified config: "@,
        RuntimeFailure::WriteConfig => "Failed to write modified config.json: "@,
        RuntimeFailure::StartRun => "Failed to start crun: "@,
        RuntimeFailure::WaitRun => "Failed to wait for crun: "@,
        RuntimeFailure::RunStatus => "crun exited with status: "@,
        RuntimeFailure::RunList => "Failed to run crun list: "@,
        RuntimeFailure::StartExec => "Failed to start crun exec: "@,
        RuntimeFailure::WaitExec => "Failed to wait for crun: "@,
        RuntimeFailure::ExecStatus => "crun exec exited with status: "@,
    }
}

/// The error of a failing step with the description `detail`.
pub fn runtime_failure(f: RuntimeFailure, detail: &str) -> (r: String)
    ensures
        r@ == runtime_failure_prefix(f) + detail@,
{
    let mut r = match f {
        RuntimeFailure::RunSpec => String::from_str("Failed to run crun spec: "),
        RuntimeFailure::ReadConfig => String::from_str("Failed to read config.json: "),
        RuntimeFailure::ParseConfig => String::from_str("Failed to parse config.json: "),
        RuntimeFailure::SerializeConfig => String::from_str("Failed to serialize modified config: "),
        RuntimeFailure::WriteConfig => String::from_str("Failed to write modified config.json: "),
        RuntimeFailure::StartRun => String::from_str("Failed to start crun: "),
        RuntimeFailure::WaitRun => String::from_str("Failed to wait for crun: "),
        RuntimeFailure::RunStatus => String::from_str("crun exited with status: "),
        RuntimeFailure::RunList => String::from_str("Failed to run crun list: "),
        RuntimeFailure::StartExec => String::from_str("Failed to start crun exec: "),
        RuntimeFailure::WaitExec => String::from_str("Failed to wait for crun: "),
        RuntimeFailure::ExecStatus => String::from_str("crun exec exited with status: "),
    };
    r.append(detail);
    r
}

} // verus!

verus! {

/// A batch runs `crun` on each container of the list in turn, from the
/// first to the last, with the command of its operation (`start <c>`,
/// `kill <c> SIGTERM`, `delete -f <c>`), and succeeds once past the last;
/// after each container it reports it by name, on standard output when
/// `crun` succeeded and on standard error otherwise, and a removed
/// container's bundle `/run/rustpod/bundles/<c>` is deleted.
pub proof fn law_batch_runs_each_container(
    op: ContainerOp,
    containers: Seq<Seq<char>>,
    i: int,
    r: Report,
    succeeded: bool,
)
    requires
        0 <= i,
    ensures
        i < containers.len() ==> batch_turn_to(op, containers, i) == (BatchNextView::Run {
            index: i,
            args: match op {
                ContainerOp::Start => seq!["start"@, containers[i]],
                ContainerOp::Stop => seq!["kill"@, containers[i], "SIGTERM"@],
                ContainerOp::Remove => seq!["delete"@, "-f"@, containers[i]],
            },
        }),
        i >= containers.len() ==> batch_turn_to(op, containers, i) == (BatchNextView::Done {
            result: Ok(()),
        }),
        i < containers.len() && report_is(r, op, containers[i], succeeded) ==> {
            &&& r.to_stderr == !succeeded
            &&& r.line@ == (if succeeded {
                match op {
                    ContainerOp::Start => "Started "@,
                    ContainerOp::Stop => "Stopped "@,
                    ContainerOp::Remove => "Removed "@,
                }
            } else {
                match op {
                    ContainerOp::Start => "Failed to start container "@,
                    ContainerOp::Stop => "Failed to stop container "@,
                    ContainerOp::Remove => "Failed to remove container "@,
                }
            }) + containers[i]
            &&& (r.remove_dir is Some) == (succeeded && op == ContainerOp::Remove)
            &&& r.remove_dir matches Some(d) ==> d@ == bundle_dir_path(containers[i])
        },
{
}

} // verus!
