//! The local image store: listing and removing pulled images.

use vstd::prelude::*;
use vstd::string::*;
use crate::paths::{join_path, path_join};
use crate::registry::{parse_image_ref, ref_repo, ref_tag};
use crate::text::string_views;

verus! {

/// The header line of the image listing.
pub open spec fn listing_header() -> Seq<char> {
    "REPOSITORY\tTAG"@
}

/// One listing line: repository and tag separated by a tab.
pub open spec fn listing_row(repo: Seq<char>, tag: Seq<char>) -> Seq<char> {
    repo + "\t"@ + tag
}

/// The lines of one repository, one per tag, in order.
pub open spec fn repo_rows(repo: Seq<char>, tags: Seq<Seq<char>>) -> Seq<Seq<char>> {
    tags.map_values(|t: Seq<char>| listing_row(repo, t))
}

/// The lines of all repositories, in order.
pub open spec fn listing_rows(repos: Seq<(Seq<char>, Seq<Seq<char>>)>) -> Seq<Seq<char>>
    decreases repos.len(),
{
    if repos.len() == 0 {
        Seq::empty()
    } else {
        listing_rows(repos.drop_last()) + repo_rows(repos.last().0, repos.last().1)
    }
}

/// Character views of repositories with their tags.
pub open spec fn repo_views(repos: Seq<(String, Vec<String>)>) -> Seq<(Seq<char>, Seq<Seq<char>>)> {
    repos.map_values(|e: (String, Vec<String>)| (e.0@, string_views(e.1@)))
}

/// The full listing: the header, then a line per repository and tag.
pub open spec fn image_listing_of(repos: Seq<(Seq<char>, Seq<Seq<char>>)>) -> Seq<Seq<char>> {
    seq![listing_header()] + listing_rows(repos)
}

/// The lines that list the local images, given each repository directory
/// with its tag directories.
pub fn image_listing(repos: &Vec<(String, Vec<String>)>) -> (r: Vec<String>)
    ensures
        string_views(r@) == image_listing_of(repo_views(repos@)),
{
    let ghost rv = repo_views(repos@);
    let mut out: Vec<String> = Vec::new();
    out.push(String::from_str("REPOSITORY\tTAG"));
    assert(string_views(out@) =~= seq![listing_header()] + listing_rows(rv.take(0)));
    let n = repos.len();
    let mut i: usize = 0;
    while i < n
        invariant
            n == repos@.len(),
            rv == repo_views(repos@),
            i <= n,
            string_views(out@) =~= seq![listing_header()] + listing_rows(rv.take(i as int)),
        decreases n - i,
    {
        let repo = &repos[i].0;
        let tags = &repos[i].1;
        let m = tags.len();
        let mut j: usize = 0;
        while j < m
            invariant
                n == repos@.len(),
                rv == repo_views(repos@),
                i < n,
                repo == repos@[i as int].0,
                tags == repos@[i as int].1,
                m == tags@.len(),
                j <= m,
                string_views(out@) =~= seq![listing_header()] + listing_rows(rv.take(i as int))
                    + repo_rows(repo@, string_views(tags@).take(j as int)),
            decreases m - j,
        {
            let mut line = repo.clone();
            line.append("\t");
            line.append(tags[j].as_str());
            let ghost before = out@;
            out.push(line);
            proof {
                assert(string_views(tags@).take(j + 1) =~= string_views(tags@).take(j as int).push(
                    tags@[j as int]@,
                ));
                assert(string_views(out@) =~= string_views(before).push(line@));
            }
            j = j + 1;
        }
        proof {
            assert(string_views(tags@).take(m as int) =~= string_views(tags@));
            assert(rv.take(i + 1).drop_last() =~= rv.take(i as int));
            assert(rv[i as int] == (repo@, string_views(tags@)));
        }
        i = i + 1;
    }
    assert(rv.take(n as int) =~= rv);
    out
}

/// Where a local image reference lives and what its removal reports.
#[derive(Debug, PartialEq)]
pub struct ImageRemoval {
    /// `<images>/<repo>/<tag>`, removed when it exists.
    pub target_dir: String,
    /// `<images>/<repo>`, removed afterwards when it is left empty.
    pub repo_dir: String,
    /// Printed after a removal.
    pub removed_message: String,
    /// Printed to standard error when the image is not present.
    pub missing_message: String,
}

/// `<images>/<repo>`, the repository directory of `image` (`repo[:tag]`).
pub open spec fn repo_dir_of(images_root: Seq<char>, image: Seq<char>) -> Seq<char> {
    path_join(images_root, ref_repo(image))
}

/// `<images>/<repo>/<tag>`, the directory of `image` (`repo[:tag]`).
pub open spec fn target_dir_of(images_root: Seq<char>, image: Seq<char>) -> Seq<char> {
    path_join(repo_dir_of(images_root, image), ref_tag(image))
}

/// What is printed after removing `image`.
pub open spec fn removed_message_of(image: Seq<char>) -> Seq<char> {
    "Untagged and removed: "@ + ref_repo(image) + ":"@ + ref_tag(image)
}

/// What is printed when `image` is not present.
pub open spec fn missing_message_of(image: Seq<char>) -> Seq<char> {
    "Error: No such image: "@ + image
}

/// Plans the removal of the local image `image` (`repo[:tag]`) under the
/// image directory `images_root`.
pub fn plan_image_removal(images_root: &str, image: &str) -> (r: ImageRemoval)
    ensures
        r.repo_dir@ == repo_dir_of(images_root@, image@),
        r.target_dir@ == target_dir_of(images_root@, image@),
        r.removed_message@ == removed_message_of(image@),
        r.missing_message@ == missing_message_of(image@),
{
    let (repo, tag) = parse_image_ref(image);
    let repo_dir = join_path(images_root, repo.as_str());
    let target_dir = join_path(repo_dir.as_str(), tag.as_str());
    let mut removed_message = String::from_str("Untagged and removed: ");
    removed_message.append(repo.as_str());
    removed_message.append(":");
    removed_message.append(tag.as_str());
    let mut missing_message = String::from_str("Error: No such image: ");
    missing_message.append(image);
    ImageRemoval { target_dir, repo_dir, removed_message, missing_message }
}

/// The error when removing the directory of `image` fails with `detail`.
pub open spec fn removal_failure_of(image: Seq<char>, detail: Seq<char>) -> Seq<char> {
    "Failed to remove "@ + image + ": "@ + detail
}

/// The error when removing an image directory fails with `detail`.
pub fn removal_failure(image: &str, detail: &str) -> (r: String)
    ensures
        r@ == removal_failure_of(image@, detail@),
{
    let mut r = String::from_str("Failed to remove ");
    r.append(image);
    r.append(": ");
    r.append(detail);
    r
}

} // verus!

verus! {

/// The error when the image directory cannot be listed.
pub fn listing_failure(detail: &str) -> (r: String)
    ensures
        r@ == "Failed to read images root: "@ + detail@,
{
    let mut r = String::from_str("Failed to read images root: ");
    r.append(detail);
    r
}

} // verus!

verus! {

/// Where the removal of a list of images stands: which outcome it waits
/// for about the current image.
#[derive(Clone, Copy, PartialEq, Eq, Structural, Debug)]
pub enum RemovalPhase {
    AwaitTargetCheck,
    AwaitTargetRemoval,
    AwaitMissingReport,
    AwaitRepoCheck,
    AwaitRepoRemoval,
    Finished,
}

/// The state of removing `images` (each `repo[:tag]`) from the image
/// directory `images_root`; `index` is the image at hand.
#[derive(Debug, PartialEq)]
pub struct RemovalState {
    pub images_root: String,
    pub images: Vec<String>,
    pub index: usize,
    pub phase: RemovalPhase,
}

/// The outcome of the previous operation.
#[derive(Debug, PartialEq)]
pub enum RemovalEvent {
    /// Whether the image's directory exists.
    TargetChecked(bool),
    /// The directory was removed, or not (with the error's description).
    TargetRemoved(Result<(), String>),
    /// The missing image was reported.
    MissingReported,
    /// Whether the repository directory could be read and is empty.
    RepoChecked(bool),
    /// The removal of the empty repository directory ran (its outcome does
    /// not matter).
    RepoRemoved,
}

/// The next operation.
#[derive(Debug, PartialEq)]
pub enum RemovalAction {
    /// Whether `dir` exists.
    CheckTarget { dir: String },
    /// Remove `dir` with all its contents.
    RemoveTarget { dir: String },
    /// Print `line` on standard error.
    ReportMissing { line: String },
    /// Print `removed` on standard output, then tell whether `dir` can be
    /// read and is empty.
    CheckRepo { removed: String, dir: String },
    /// Remove the empty directory `dir`.
    RemoveRepo { dir: String },
    /// The removal is over.
    Finish { result: Result<(), String> },
}

/// The view of an operation.
pub enum RemovalActionView {
    CheckTarget { dir: Seq<char> },
    RemoveTarget { dir: Seq<char> },
    ReportMissing { line: Seq<char> },
    CheckRepo { removed: Seq<char>, dir: Seq<char> },
    RemoveRepo { dir: Seq<char> },
    Finish { result: Result<(), Seq<char>> },
}

impl View for RemovalAction {
    type V = RemovalActionView;

    open spec fn view(&self) -> RemovalActionView {
        match self {
            RemovalAction::CheckTarget { dir } => RemovalActionView::CheckTarget { dir: dir@ },
            RemovalAction::RemoveTarget { dir } => RemovalActionView::RemoveTarget { dir: dir@ },
            RemovalAction::ReportMissing { line } => RemovalActionView::ReportMissing { line: line@ },
            RemovalAction::CheckRepo { removed, dir } => RemovalActionView::CheckRepo {
                removed: removed@,
                dir: dir@,
            },
            RemovalAction::RemoveRepo { dir } => RemovalActionView::RemoveRepo { dir: dir@ },
            RemovalAction::Finish { result } => RemovalActionView::Finish {
                result: match result {
                    Ok(()) => Ok(()),
                    Err(e) => Err(e@),
                },
            },
        }
    }
}

/// Which outcome each phase waits for.
pub open spec fn removal_expects(phase: RemovalPhase, e: RemovalEvent) -> bool {
    match phase {
        RemovalPhase::AwaitTargetCheck => e is TargetChecked,
        RemovalPhase::AwaitTargetRemoval => e is TargetRemoved,
        RemovalPhase::AwaitMissingReport => e is MissingReported,
        RemovalPhase::AwaitRepoCheck => e is RepoChecked,
        RemovalPhase::AwaitRepoRemoval => e is RepoRemoved,
        RemovalPhase::Finished => false,
    }
}

/// The image at `index` of the list.
pub open spec fn image_at(s: RemovalState, index: int) -> Seq<char> {
    s.images@[index]@
}

/// Turning to the image at `index`: check its directory, or finish
/// successfully when the list is done.
pub open spec fn removal_turn_to(s: RemovalState, index: int) -> (RemovalPhase, RemovalActionView) {
    if index < s.images@.len() {
        (
            RemovalPhase::AwaitTargetCheck,
            RemovalActionView::CheckTarget { dir: target_dir_of(s.images_root@, image_at(s, index)) },
        )
    } else {
        (RemovalPhase::Finished, RemovalActionView::Finish { result: Ok(()) })
    }
}

/// The phase and operation after one step; the index moves to the next
/// image exactly when the phase returns to `AwaitTargetCheck` or the list
/// is done.
pub open spec fn removal_next(s: RemovalState, e: RemovalEvent) -> (RemovalPhase, RemovalActionView) {
    let image = image_at(s, s.index as int);
    if s.index >= s.images@.len() {
        (RemovalPhase::Finished, RemovalActionView::Finish { result: Ok(()) })
    } else {
        match e {
            RemovalEvent::TargetChecked(true) => (
                RemovalPhase::AwaitTargetRemoval,
                RemovalActionView::RemoveTarget { dir: target_dir_of(s.images_root@, image) },
            ),
            RemovalEvent::TargetChecked(false) => (
                RemovalPhase::AwaitMissingReport,
                RemovalActionView::ReportMissing { line: missing_message_of(image) },
            ),
            RemovalEvent::TargetRemoved(Ok(())) => (
                RemovalPhase::AwaitRepoCheck,
                RemovalActionView::CheckRepo {
                    removed: removed_message_of(image),
                    dir: repo_dir_of(s.images_root@, image),
                },
            ),
            RemovalEvent::TargetRemoved(Err(d)) => (
                RemovalPhase::Finished,
                RemovalActionView::Finish { result: Err(removal_failure_of(image, d@)) },
            ),
            RemovalEvent::RepoChecked(true) => (
                RemovalPhase::AwaitRepoRemoval,
                RemovalActionView::RemoveRepo { dir: repo_dir_of(s.images_root@, image) },
            ),
            RemovalEvent::RepoChecked(false) | RemovalEvent::RepoRemoved
            | RemovalEvent::MissingReported => removal_turn_to(s, s.index + 1),
        }
    }
}

/// Whether a step moves on to the next image.
pub open spec fn removal_advances(s: RemovalState, e: RemovalEvent) -> bool {
    s.index < s.images@.len() && (e == RemovalEvent::RepoChecked(false) || e is RepoRemoved
        || e is MissingReported)
}

/// The state and first operation of removing `images` from `images_root`.
pub fn removal_start(images_root: &str, images: Vec<String>) -> (r: (RemovalState, RemovalAction))
    ensures
        r.0.images_root@ == images_root@,
        r.0.images@ == images@,
        r.0.index == 0,
        (r.0.phase, r.1@) == removal_turn_to(r.0, 0),
{
    let s = RemovalState {
        images_root: String::from_str(images_root),
        images,
        index: 0,
        phase: RemovalPhase::Finished,
    };
    let (phase, action) = turn_to(&s, 0);
    (RemovalState { phase, ..s }, action)
}

/// The phase and operation of turning to the image at `index`.
fn turn_to(s: &RemovalState, index: usize) -> (r: (RemovalPhase, RemovalAction))
    ensures
        (r.0, r.1@) == removal_turn_to(*s, index as int),
{
    if index < s.images.len() {
        let plan = plan_image_removal(s.images_root.as_str(), s.images[index].as_str());
        (RemovalPhase::AwaitTargetCheck, RemovalAction::CheckTarget { dir: plan.target_dir })
    } else {
        (RemovalPhase::Finished, RemovalAction::Finish { result: Ok(()) })
    }
}

/// Whether the removal waits for this kind of outcome.
pub fn removal_accepts(state: &RemovalState, event: &RemovalEvent) -> (b: bool)
    ensures
        b == removal_expects(state.phase, *event),
{
    match (state.phase, event) {
        (RemovalPhase::AwaitTargetCheck, RemovalEvent::TargetChecked(_)) => true,
        (RemovalPhase::AwaitTargetRemoval, RemovalEvent::TargetRemoved(_)) => true,
        (RemovalPhase::AwaitMissingReport, RemovalEvent::MissingReported) => true,
        (RemovalPhase::AwaitRepoCheck, RemovalEvent::RepoChecked(_)) => true,
        (RemovalPhase::AwaitRepoRemoval, RemovalEvent::RepoRemoved) => true,
        _ => false,
    }
}

/// One step of removing images: from the outcome of the previous operation,
/// the next state and operation. An image whose directory is missing is
/// reported and skipped; a directory that cannot be removed ends the whole
/// removal with that error.
pub fn removal_step(state: RemovalState, event: RemovalEvent) -> (r: (RemovalState, RemovalAction))
    requires
        removal_expects(state.phase, event),
    ensures
        r.0.images_root == state.images_root,
        r.0.images == state.images,
        r.0.index == if removal_advances(state, event) { state.index + 1 } else { state.index as int },
        (r.0.phase, r.1@) == removal_next(state, event),
{
    let s = state;
    if s.index >= s.images.len() {
        return (RemovalState { phase: RemovalPhase::Finished, ..s }, RemovalAction::Finish { result: Ok(()) });
    }
    let plan = plan_image_removal(s.images_root.as_str(), s.images[s.index].as_str());
    match event {
        RemovalEvent::TargetChecked(true) => {
            (RemovalState { phase: RemovalPhase::AwaitTargetRemoval, ..s }, RemovalAction::RemoveTarget {
                dir: plan.target_dir,
            })
        },
        RemovalEvent::TargetChecked(false) => {
            (RemovalState { phase: RemovalPhase::AwaitMissingReport, ..s }, RemovalAction::ReportMissing {
                line: plan.missing_message,
            })
        },
        RemovalEvent::TargetRemoved(Ok(())) => {
            (RemovalState { phase: RemovalPhase::AwaitRepoCheck, ..s }, RemovalAction::CheckRepo {
                removed: plan.removed_message,
                dir: plan.repo_dir,
            })
        },
        RemovalEvent::TargetRemoved(Err(d)) => {
            let m = removal_failure(s.images[s.index].as_str(), d.as_str());
            (RemovalState { phase: RemovalPhase::Finished, ..s }, RemovalAction::Finish { result: Err(m) })
        },
        RemovalEvent::RepoChecked(true) => {
            (RemovalState { phase: RemovalPhase::AwaitRepoRemoval, ..s }, RemovalAction::RemoveRepo {
                dir: plan.repo_dir,
            })
        },
        RemovalEvent::RepoChecked(false) | RemovalEvent::RepoRemoved | RemovalEvent::MissingReported => {
            let next = s.index + 1;
            let (phase, action) = turn_to(&s, next);
            (RemovalState { index: next, phase, ..s }, action)
        },
    }
}

/// How far the current image is from done: fewer steps remain in later
/// phases.
pub open spec fn removal_phase_order(p: RemovalPhase) -> int {
    match p {
        RemovalPhase::AwaitTargetCheck => 4,
        RemovalPhase::AwaitTargetRemoval => 3,
        RemovalPhase::AwaitRepoCheck => 2,
        RemovalPhase::AwaitRepoRemoval => 1,
        RemovalPhase::AwaitMissingReport => 1,
        RemovalPhase::Finished => 0,
    }
}

/// What remains of a removal: five for each image still to come, and the
/// phase of the current one.
pub open spec fn removal_measure(images: int, index: int, p: RemovalPhase) -> int {
    (images - index) * 5 + removal_phase_order(p)
}

/// A removal ends: every step leaves less to do, the images are taken in
/// order, one at a time, and it ends exactly when it answers `Finish`.
pub proof fn law_removal_progress(s: RemovalState, e: RemovalEvent)
    requires
        removal_expects(s.phase, e),
        s.index <= s.images@.len(),
    ensures
        ({
            let (phase, action) = removal_next(s, e);
            let index = if removal_advances(s, e) { s.index + 1 } else { s.index as int };
            &&& index <= s.images@.len()
            &&& 0 <= removal_measure(s.images@.len() as int, index, phase)
            &&& removal_measure(s.images@.len() as int, index, phase) < removal_measure(
                s.images@.len() as int,
                s.index as int,
                s.phase,
            )
            &&& (phase == RemovalPhase::Finished) == (action is Finish)
        }),
{
}

/// Every image of the list is handled, in order: a step moves on from the
/// current image exactly when it is done with it (reported missing, or
/// removed and its repository directory seen to or made empty), and then
/// checks the directory `<images>/<repo>/<tag>` of the next image; a
/// present image is removed from that directory; the removal succeeds only
/// once the last image is done, and fails only when a directory could not
/// be removed, with that image and error.
pub proof fn law_removal_handles_every_image(s: RemovalState, e: RemovalEvent)
    requires
        removal_expects(s.phase, e),
        s.index < s.images@.len(),
    ensures
        ({
            let (phase, action) = removal_next(s, e);
            let image = s.images@[s.index as int]@;
            let index = if removal_advances(s, e) { s.index + 1 } else { s.index as int };
            &&& removal_advances(s, e) == (e is MissingReported || e is RepoRemoved || e
                == RemovalEvent::RepoChecked(false))
            &&& (removal_advances(s, e) && index < s.images@.len()) ==> action
                == (RemovalActionView::CheckTarget {
                dir: path_join(
                    path_join(s.images_root@, ref_repo(s.images@[index]@)),
                    ref_tag(s.images@[index]@),
                ),
            })
            &&& e == RemovalEvent::TargetChecked(true) ==> action == (RemovalActionView::RemoveTarget {
                dir: path_join(path_join(s.images_root@, ref_repo(image)), ref_tag(image)),
            })
            &&& action == (RemovalActionView::Finish { result: Ok(()) }) ==> index == s.images@.len()
            &&& action matches RemovalActionView::Finish { result: Err(m) } ==> (e matches RemovalEvent::TargetRemoved(
                Err(d),
            ) && m == "Failed to remove "@ + image + ": "@ + d@)
        }),
{
}

} // verus!
