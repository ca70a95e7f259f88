//! Pulling an image from Docker Hub, as a step machine: each step takes the
//! outcome of the previous request (a token, a manifest, a directory
//! operation, a layer) and returns the next request, until the pull
//! finishes with success or an error. The caller performs the requests.

use vstd::prelude::*;
use vstd::string::*;
use crate::paths::{image_dir, image_dir_path};
use crate::registry::{
    Layer, ManifestReference, RegistryResponse, auth_url, auth_url_of, bearer, bearer_of, blob_url, blob_url_of,
    chosen_digest, empty_list_message, full_image_name, full_name_of, manifest_accept,
    manifest_accept_of, manifest_url, manifest_url_of, select_platform_digest, is_target_platform,
};
use crate::search::{lemma_first_match, lemma_first_match_unique};
use crate::text::{append_decimal, decimal};

verus! {

/// Where a pull stands: which answer it waits for.
#[derive(Clone, Copy, PartialEq, Eq, Structural, Debug)]
pub enum PullPhase {
    AwaitToken,
    AwaitManifest,
    AwaitPlatformManifest,
    AwaitTargetCheck,
    AwaitTargetRemoval,
    AwaitTargetCreation,
    AwaitLayer,
    Finished,
}

/// The state of a pull.
#[derive(Debug, PartialEq)]
pub struct PullState {
    /// The repository path on the registry (`library/<image>` for official
    /// images).
    pub full_image: String,
    /// The tag or digest first requested.
    pub tag: String,
    /// Where the layers are unpacked.
    pub target_dir: String,
    /// The pull token, once received.
    pub token: String,
    /// The layers of the resolved manifest, once received.
    pub layers: Vec<Layer>,
    /// How many layers have been extracted.
    pub extracted: usize,
    pub phase: PullPhase,
}

/// The answer to the previous request. The `String` of a failure is the
/// description of the underlying error.
#[derive(Debug, PartialEq)]
pub enum PullEvent {
    Token(String),
    TokenRequestFailed(String),
    TokenParseFailed(String),
    Manifest(RegistryResponse),
    ManifestRequestFailed(String),
    ManifestParseFailed(String),
    /// Whether the target directory exists.
    TargetChecked(bool),
    TargetRemoved(Result<(), String>),
    TargetCreated(Result<(), String>),
    LayerExtracted,
    LayerRequestFailed(String),
    LayerExtractFailed(String),
}

/// The next request.
#[derive(Debug, PartialEq)]
pub enum PullAction {
    /// GET the token at `url`, reading JSON `{"token": ...}`.
    FetchToken { url: String },
    /// GET the manifest at `url` with these `Authorization` and `Accept`
    /// headers.
    FetchManifest { url: String, authorization: String, accept: String },
    /// Whether the directory `dir` exists.
    CheckTarget { dir: String },
    /// Report that the image exists locally at `dir`, then remove `dir`
    /// with all its contents.
    RemoveTarget { dir: String },
    /// Create `dir` and its parents.
    CreateTarget { dir: String },
    /// Print `progress`, GET the gzip-compressed tar layer at `url` with the
    /// `Authorization` header, and unpack it into `dir`.
    FetchLayer { progress: String, url: String, authorization: String, dir: String },
    /// The pull is over.
    Finish { result: Result<(), String> },
}

/// The view of a request: its strings as character sequences.
pub enum PullActionView {
    FetchToken { url: Seq<char> },
    FetchManifest { url: Seq<char>, authorization: Seq<char>, accept: Seq<char> },
    CheckTarget { dir: Seq<char> },
    RemoveTarget { dir: Seq<char> },
    CreateTarget { dir: Seq<char> },
    FetchLayer { progress: Seq<char>, url: Seq<char>, authorization: Seq<char>, dir: Seq<char> },
    Finish { result: Result<(), Seq<char>> },
}

impl View for PullAction {
    type V = PullActionView;

    open spec fn view(&self) -> PullActionView {
        match self {
            PullAction::FetchToken { url } => PullActionView::FetchToken { url: url@ },
            PullAction::FetchManifest { url, authorization, accept } => PullActionView::FetchManifest {
                url: url@,
                authorization: authorization@,
                accept: accept@,
            },
            PullAction::CheckTarget { dir } => PullActionView::CheckTarget { dir: dir@ },
            PullAction::RemoveTarget { dir } => PullActionView::RemoveTarget { dir: dir@ },
            PullAction::CreateTarget { dir } => PullActionView::CreateTarget { dir: dir@ },
            PullAction::FetchLayer { progress, url, authorization, dir } => PullActionView::FetchLayer {
                progress: progress@,
                url: url@,
                authorization: authorization@,
                dir: dir@,
            },
            PullAction::Finish { result } => PullActionView::Finish {
                result: match result {
                    Ok(()) => Ok(()),
                    Err(e) => Err(e@),
                },
            },
        }
    }
}

/// The pull's own invariant: no layer is extracted before the layers are
/// being fetched, and while they are, some layer is still to come.
pub open spec fn pull_wf(s: PullState) -> bool {
    &&& s.layers@.len() <= usize::MAX
    &&& s.extracted <= s.layers@.len()
    &&& s.phase == PullPhase::AwaitLayer ==> s.extracted < s.layers@.len()
    &&& (s.phase != PullPhase::AwaitLayer && s.phase != PullPhase::Finished) ==> s.extracted == 0
}

/// Which answer each phase waits for.
pub open spec fn pull_expects(phase: PullPhase, e: PullEvent) -> bool {
    match phase {
        PullPhase::AwaitToken => e is Token || e is TokenRequestFailed || e is TokenParseFailed,
        PullPhase::AwaitManifest | PullPhase::AwaitPlatformManifest => e is Manifest
            || e is ManifestRequestFailed || e is ManifestParseFailed,
        PullPhase::AwaitTargetCheck => e is TargetChecked,
        PullPhase::AwaitTargetRemoval => e is TargetRemoved,
        PullPhase::AwaitTargetCreation => e is TargetCreated,
        PullPhase::AwaitLayer => e is LayerExtracted || e is LayerRequestFailed
            || e is LayerExtractFailed,
        PullPhase::Finished => false,
    }
}

/// `Downloading layer <i+1>/<n> (<digest>)`.
pub open spec fn layer_progress_of(i: nat, n: nat, digest: Seq<char>) -> Seq<char> {
    "Downloading layer "@ + decimal(i + 1) + "/"@ + decimal(n) + " ("@ + digest + ")"@
}

/// The request for layer `i` of the pull.
pub open spec fn fetch_layer_of(s: PullState, i: int) -> PullActionView {
    PullActionView::FetchLayer {
        progress: layer_progress_of(i as nat, s.layers@.len(), s.layers@[i].digest@),
        url: blob_url_of(s.full_image@, s.layers@[i].digest@),
        authorization: bearer_of(s.token@),
        dir: s.target_dir@,
    }
}

/// The request for the manifest at `reference`.
pub open spec fn fetch_manifest_of(s: PullState, reference: Seq<char>) -> PullActionView {
    PullActionView::FetchManifest {
        url: manifest_url_of(s.full_image@, reference),
        authorization: bearer_of(s.token@),
        accept: manifest_accept_of(),
    }
}

/// Ending the pull with an error.
pub open spec fn fail_with(message: Seq<char>) -> PullActionView {
    PullActionView::Finish { result: Err(message) }
}

/// The state after one step.
pub open spec fn pull_next_state(s: PullState, e: PullEvent) -> PullState {
    match (s.phase, e) {
        (PullPhase::AwaitToken, PullEvent::Token(t)) => PullState {
            token: t,
            phase: PullPhase::AwaitManifest,
            ..s
        },
        (PullPhase::AwaitManifest, PullEvent::Manifest(RegistryResponse::ManifestList { manifests })) =>
            if manifests@.len() > 0 {
                PullState { phase: PullPhase::AwaitPlatformManifest, ..s }
            } else {
                PullState { phase: PullPhase::Finished, ..s }
            },
        (PullPhase::AwaitManifest, PullEvent::Manifest(RegistryResponse::Manifest { layers }))
        | (PullPhase::AwaitPlatformManifest, PullEvent::Manifest(RegistryResponse::Manifest { layers })) =>
            PullState { layers, phase: PullPhase::AwaitTargetCheck, ..s },
        (PullPhase::AwaitTargetCheck, PullEvent::TargetChecked(exists)) => PullState {
            phase: if exists { PullPhase::AwaitTargetRemoval } else { PullPhase::AwaitTargetCreation },
            ..s
        },
        (PullPhase::AwaitTargetRemoval, PullEvent::TargetRemoved(Ok(()))) => PullState {
            phase: PullPhase::AwaitTargetCreation,
            ..s
        },
        (PullPhase::AwaitTargetCreation, PullEvent::TargetCreated(Ok(()))) => PullState {
            phase: if s.layers@.len() > 0 { PullPhase::AwaitLayer } else { PullPhase::Finished },
            ..s
        },
        (PullPhase::AwaitLayer, PullEvent::LayerExtracted) => PullState {
            extracted: (s.extracted + 1) as usize,
            phase: if s.extracted + 1 < s.layers@.len() { PullPhase::AwaitLayer } else { PullPhase::Finished },
            ..s
        },
        _ => PullState { phase: PullPhase::Finished, ..s },
    }
}

/// The request after one step.
pub open spec fn pull_action_of(s: PullState, e: PullEvent) -> PullActionView {
    match (s.phase, e) {
        (PullPhase::AwaitToken, PullEvent::Token(t)) => PullActionView::FetchManifest {
            url: manifest_url_of(s.full_image@, s.tag@),
            authorization: bearer_of(t@),
            accept: manifest_accept_of(),
        },
        (PullPhase::AwaitToken, PullEvent::TokenRequestFailed(d)) => fail_with("Auth request failed: "@ + d@),
        (PullPhase::AwaitToken, PullEvent::TokenParseFailed(d)) => fail_with("Failed to parse auth token: "@ + d@),
        (PullPhase::AwaitManifest, PullEvent::Manifest(RegistryResponse::ManifestList { manifests })) =>
            if manifests@.len() > 0 {
                fetch_manifest_of(s, chosen_digest(manifests@))
            } else {
                fail_with(empty_list_message())
            },
        (PullPhase::AwaitPlatformManifest, PullEvent::Manifest(RegistryResponse::ManifestList { .. })) =>
            fail_with("Expected manifest but got manifest list"@),
        (_, PullEvent::Manifest(RegistryResponse::Manifest { .. })) => PullActionView::CheckTarget {
            dir: s.target_dir@,
        },
        (_, PullEvent::ManifestRequestFailed(d)) => fail_with("Manifest request failed: "@ + d@),
        (_, PullEvent::ManifestParseFailed(d)) => fail_with("Failed to parse manifest: "@ + d@),
        (_, PullEvent::TargetChecked(exists)) => if exists {
            PullActionView::RemoveTarget { dir: s.target_dir@ }
        } else {
            PullActionView::CreateTarget { dir: s.target_dir@ }
        },
        (_, PullEvent::TargetRemoved(Ok(()))) => PullActionView::CreateTarget { dir: s.target_dir@ },
        (_, PullEvent::TargetRemoved(Err(d))) => fail_with(d@),
        (_, PullEvent::TargetCreated(Ok(()))) => if s.layers@.len() > 0 {
            fetch_layer_of(s, 0)
        } else {
            PullActionView::Finish { result: Ok(()) }
        },
        (_, PullEvent::TargetCreated(Err(d))) => fail_with(d@),
        (_, PullEvent::LayerExtracted) => if s.extracted + 1 < s.layers@.len() {
            fetch_layer_of(s, s.extracted + 1)
        } else {
            PullActionView::Finish { result: Ok(()) }
        },
        (_, PullEvent::LayerRequestFailed(d)) => fail_with("Layer request failed: "@ + d@),
        (_, PullEvent::LayerExtractFailed(d)) => fail_with("Extract failed: "@ + d@),
        _ => fail_with(Seq::empty()),
    }
}

/// The state in which pulling `image` at `tag` into the image store of
/// `home` starts.
pub open spec fn pull_initial(s: PullState, image: Seq<char>, tag: Seq<char>, home: Seq<char>) -> bool {
    &&& s.full_image@ == full_name_of(image)
    &&& s.tag@ == tag
    &&& s.target_dir@ == image_dir_path(home, image, tag)
    &&& s.token@ == Seq::<char>::empty()
    &&& s.layers@.len() == 0
    &&& s.extracted == 0
    &&& s.phase == PullPhase::AwaitToken
}

/// The state and first request of pulling `image` at `tag` into the image
/// store of `home`.
pub fn pull_start(image: &str, tag: &str, home: &str) -> (r: (PullState, PullAction))
    ensures
        pull_initial(r.0, image@, tag@, home@),
        pull_wf(r.0),
        r.1@ == (PullActionView::FetchToken { url: auth_url_of(full_name_of(image@)) }),
{
    let full_image = full_image_name(image);
    let url = auth_url(full_image.as_str());
    let state = PullState {
        full_image,
        tag: String::from_str(tag),
        target_dir: image_dir(home, image, tag),
        token: String::new(),
        layers: Vec::new(),
        extracted: 0,
        phase: PullPhase::AwaitToken,
    };
    (state, PullAction::FetchToken { url })
}

/// Whether the pull waits for this kind of answer.
pub fn pull_accepts(state: &PullState, event: &PullEvent) -> (b: bool)
    ensures
        b == pull_expects(state.phase, *event),
{
    match state.phase {
        PullPhase::AwaitToken => match event {
            PullEvent::Token(_) | PullEvent::TokenRequestFailed(_) | PullEvent::TokenParseFailed(_) => true,
            _ => false,
        },
        PullPhase::AwaitManifest | PullPhase::AwaitPlatformManifest => match event {
            PullEvent::Manifest(_) | PullEvent::ManifestRequestFailed(_) | PullEvent::ManifestParseFailed(_) => true,
            _ => false,
        },
        PullPhase::AwaitTargetCheck => match event {
            PullEvent::TargetChecked(_) => true,
            _ => false,
        },
        PullPhase::AwaitTargetRemoval => match event {
            PullEvent::TargetRemoved(_) => true,
            _ => false,
        },
        PullPhase::AwaitTargetCreation => match event {
            PullEvent::TargetCreated(_) => true,
            _ => false,
        },
        PullPhase::AwaitLayer => match event {
            PullEvent::LayerExtracted | PullEvent::LayerRequestFailed(_) | PullEvent::LayerExtractFailed(_) => true,
            _ => false,
        },
        PullPhase::Finished => false,
    }
}

/// `prefix` followed by `detail`.
fn message(prefix: &str, detail: &str) -> (r: String)
    ensures
        r@ == prefix@ + detail@,
{
    let mut r = String::from_str(prefix);
    r.append(detail);
    r
}

/// The request for layer `i`.
fn fetch_layer(s: &PullState, i: usize) -> (a: PullAction)
    requires
        i < s.layers@.len(),
    ensures
        a@ == fetch_layer_of(*s, i as int),
{
    let n = s.layers.len();
    let digest = s.layers[i].digest.as_str();
    let mut progress = String::from_str("Downloading layer ");
    append_decimal(&mut progress, (i + 1) as u64);
    progress.append("/");
    append_decimal(&mut progress, n as u64);
    progress.append(" (");
    progress.append(digest);
    progress.append(")");
    PullAction::FetchLayer {
        progress,
        url: blob_url(s.full_image.as_str(), digest),
        authorization: bearer(s.token.as_str()),
        dir: s.target_dir.clone(),
    }
}

/// Ends the pull with an error.
fn finish_err(s: PullState, message: String) -> (r: (PullState, PullAction))
    ensures
        r.0 == (PullState { phase: PullPhase::Finished, ..s }),
        r.1@ == fail_with(message@),
{
    (PullState { phase: PullPhase::Finished, ..s }, PullAction::Finish { result: Err(message) })
}

/// One step of a pull: from the answer to the previous request, the next
/// state and request.
pub fn pull_step(state: PullState, event: PullEvent) -> (r: (PullState, PullAction))
    requires
        pull_wf(state),
        pull_expects(state.phase, event),
    ensures
        r.0 == pull_next_state(state, event),
        r.1@ == pull_action_of(state, event),
        pull_wf(r.0),
{
    let s = state;
    match event {
        PullEvent::Token(t) => {
            let url = manifest_url(s.full_image.as_str(), s.tag.as_str());
            let authorization = bearer(t.as_str());
            let action = PullAction::FetchManifest { url, authorization, accept: manifest_accept() };
            (PullState { token: t, phase: PullPhase::AwaitManifest, ..s }, action)
        },
        PullEvent::TokenRequestFailed(d) => {
            let m = message("Auth request failed: ", d.as_str());
            finish_err(s, m)
        },
        PullEvent::TokenParseFailed(d) => {
            let m = message("Failed to parse auth token: ", d.as_str());
            finish_err(s, m)
        },
        PullEvent::Manifest(RegistryResponse::ManifestList { manifests }) => {
            if s.phase == PullPhase::AwaitManifest {
                match select_platform_digest(&manifests) {
                    Ok(digest) => {
                        let url = manifest_url(s.full_image.as_str(), digest.as_str());
                        let authorization = bearer(s.token.as_str());
                        let action = PullAction::FetchManifest { url, authorization, accept: manifest_accept() };
                        (PullState { phase: PullPhase::AwaitPlatformManifest, ..s }, action)
                    },
                    Err(e) => finish_err(s, e),
                }
            } else {
                finish_err(s, String::from_str("Expected manifest but got manifest list"))
            }
        },
        PullEvent::Manifest(RegistryResponse::Manifest { layers }) => {
            let _ = layers.len();
            let dir = s.target_dir.clone();
            (PullState { layers, phase: PullPhase::AwaitTargetCheck, ..s }, PullAction::CheckTarget { dir })
        },
        PullEvent::ManifestRequestFailed(d) => {
            let m = message("Manifest request failed: ", d.as_str());
            finish_err(s, m)
        },
        PullEvent::ManifestParseFailed(d) => {
            let m = message("Failed to parse manifest: ", d.as_str());
            finish_err(s, m)
        },
        PullEvent::TargetChecked(exists) => {
            let dir = s.target_dir.clone();
            if exists {
                (PullState { phase: PullPhase::AwaitTargetRemoval, ..s }, PullAction::RemoveTarget { dir })
            } else {
                (PullState { phase: PullPhase::AwaitTargetCreation, ..s }, PullAction::CreateTarget { dir })
            }
        },
        PullEvent::TargetRemoved(Ok(())) => {
            let dir = s.target_dir.clone();
            (PullState { phase: PullPhase::AwaitTargetCreation, ..s }, PullAction::CreateTarget { dir })
        },
        PullEvent::TargetRemoved(Err(d)) => finish_err(s, d),
        PullEvent::TargetCreated(Ok(())) => {
            if s.layers.len() > 0 {
                let action = fetch_layer(&s, 0);
                (PullState { phase: PullPhase::AwaitLayer, ..s }, action)
            } else {
                (PullState { phase: PullPhase::Finished, ..s }, PullAction::Finish { result: Ok(()) })
            }
        },
        PullEvent::TargetCreated(Err(d)) => finish_err(s, d),
        PullEvent::LayerExtracted => {
            let n = s.layers.len();
            let done = s.extracted + 1;
            if done < n {
                let action = fetch_layer(&s, done);
                (PullState { extracted: done, phase: PullPhase::AwaitLayer, ..s }, action)
            } else {
                (PullState { extracted: done, phase: PullPhase::Finished, ..s }, PullAction::Finish { result: Ok(()) })
            }
        },
        PullEvent::LayerRequestFailed(d) => {
            let m = message("Layer request failed: ", d.as_str());
            finish_err(s, m)
        },
        PullEvent::LayerExtractFailed(d) => {
            let m = message("Extract failed: ", d.as_str());
            finish_err(s, m)
        },
    }
}

} // verus!

verus! {

/// The order of the phases: every step moves to a later one, except while
/// layers are fetched.
pub open spec fn pull_phase_order(p: PullPhase) -> nat {
    match p {
        PullPhase::AwaitToken => 7,
        PullPhase::AwaitManifest => 6,
        PullPhase::AwaitPlatformManifest => 5,
        PullPhase::AwaitTargetCheck => 4,
        PullPhase::AwaitTargetRemoval => 3,
        PullPhase::AwaitTargetCreation => 2,
        PullPhase::AwaitLayer => 1,
        PullPhase::Finished => 0,
    }
}

/// An answer as a vector can hold it: a manifest's layers number at most
/// `usize::MAX`.
pub open spec fn pull_event_valid(e: PullEvent) -> bool {
    e matches PullEvent::Manifest(RegistryResponse::Manifest { layers }) ==> layers@.len() <= usize::MAX
}

/// Each step moves the pull to a later phase, or, while layers are
/// fetched, extracts one more layer; so a pull ends after finitely many
/// steps. The pull's invariant is kept.
pub proof fn law_pull_progress(s: PullState, e: PullEvent)
    requires
        pull_wf(s),
        pull_expects(s.phase, e),
        pull_event_valid(e),
    ensures
        pull_wf(pull_next_state(s, e)),
        pull_phase_order(pull_next_state(s, e).phase) < pull_phase_order(s.phase) || (
        pull_next_state(s, e).phase == s.phase && s.phase == PullPhase::AwaitLayer
            && pull_next_state(s, e).layers == s.layers
            && pull_next_state(s, e).extracted == s.extracted + 1),
{
}

/// A pull ends exactly when it answers `Finish`, and a finished pull
/// accepts nothing more.
pub proof fn law_pull_finish_is_final(s: PullState, e: PullEvent, later: PullEvent)
    requires
        pull_wf(s),
        pull_expects(s.phase, e),
    ensures
        (pull_next_state(s, e).phase == PullPhase::Finished) == (pull_action_of(s, e) is Finish),
        pull_next_state(s, e).phase == PullPhase::Finished ==> !pull_expects(
            pull_next_state(s, e).phase,
            later,
        ),
{
}

/// A pull reports success only once every layer of the manifest has been
/// extracted.
pub proof fn law_pull_success_after_all_layers(s: PullState, e: PullEvent)
    requires
        pull_wf(s),
        pull_expects(s.phase, e),
        pull_action_of(s, e) == (PullActionView::Finish { result: Ok(()) }),
    ensures
        pull_next_state(s, e).extracted == pull_next_state(s, e).layers@.len(),
{
}

/// Layers are fetched in order, each once: creating the target asks for
/// the first layer, and each extracted layer is followed by the request for
/// the next one, with the pull's token, into the target directory.
pub proof fn law_pull_layers_in_order(s: PullState, e: PullEvent)
    requires
        pull_wf(s),
        pull_expects(s.phase, e),
    ensures
        (s.phase == PullPhase::AwaitTargetCreation && e == PullEvent::TargetCreated(Ok(()))
            && s.layers@.len() > 0) ==> pull_action_of(s, e) == fetch_layer_of(s, 0),
        (s.phase == PullPhase::AwaitLayer && e == PullEvent::LayerExtracted
            && s.extracted + 1 < s.layers@.len()) ==> pull_action_of(s, e) == fetch_layer_of(
            s,
            s.extracted + 1,
        ) && pull_next_state(s, e).extracted == s.extracted + 1,
{
}

/// Every registry request after the token carries it, and a manifest list
/// is resolved at most once: a second list answer ends the pull.
pub proof fn law_pull_uses_token(s: PullState, e: PullEvent)
    requires
        pull_wf(s),
        pull_expects(s.phase, e),
    ensures
        pull_action_of(s, e) matches PullActionView::FetchManifest { authorization, .. }
            ==> authorization == bearer_of(pull_next_state(s, e).token@),
        pull_action_of(s, e) matches PullActionView::FetchLayer { authorization, .. }
            ==> authorization == bearer_of(pull_next_state(s, e).token@),
        (s.phase == PullPhase::AwaitPlatformManifest && e matches PullEvent::Manifest(
            RegistryResponse::ManifestList { .. },
        )) ==> pull_action_of(s, e) == fail_with("Expected manifest but got manifest list"@),
{
}

/// Two pull states that agree in everything but the target directory.
pub open spec fn pull_alike(a: PullState, b: PullState) -> bool {
    &&& a.full_image@ == b.full_image@
    &&& a.tag@ == b.tag@
    &&& a.token@ == b.token@
    &&& a.layers@ == b.layers@
    &&& a.extracted == b.extracted
    &&& a.phase == b.phase
}

/// A request with its target directory replaced by `dir` (requests that
/// name no directory stay as they are).
pub open spec fn with_target_dir(a: PullActionView, dir: Seq<char>) -> PullActionView {
    match a {
        PullActionView::CheckTarget { .. } => PullActionView::CheckTarget { dir },
        PullActionView::RemoveTarget { .. } => PullActionView::RemoveTarget { dir },
        PullActionView::CreateTarget { .. } => PullActionView::CreateTarget { dir },
        PullActionView::FetchLayer { progress, url, authorization, .. } => PullActionView::FetchLayer {
            progress,
            url,
            authorization,
            dir,
        },
        _ => a,
    }
}

/// Pulling an official image by its short name `image` or by
/// `library/<image>` is the same pull: both start in states that differ
/// only in the target directory (`<images>/<image>/<tag>` for the one,
/// `<images>/library/<image>/<tag>` for the other) and ask for the same
/// token; from states that differ only there, the same answer leads to
/// states that still differ only there, and to the same request but for
/// the directory it names.
pub proof fn law_pull_official_name(
    image: Seq<char>,
    tag: Seq<char>,
    home: Seq<char>,
    short: PullState,
    long: PullState,
)
    requires
        !image.contains('/'),
        pull_initial(short, image, tag, home),
        pull_initial(long, "library/"@ + image, tag, home),
    ensures
        full_name_of("library/"@ + image) == full_name_of(image),
        pull_alike(short, long),
        short.target_dir@ == image_dir_path(home, image, tag),
        long.target_dir@ == image_dir_path(home, "library/"@ + image, tag),
{
    reveal_strlit("library/");
    let q = "library/"@ + image;
    assert(q[7] == '/');
    assert(short.layers@ =~= long.layers@);
}

/// The step half of `law_pull_official_name`: answers act on two states
/// that differ only in the target directory alike.
pub proof fn law_pull_alike_steps(a: PullState, b: PullState, e: PullEvent)
    requires
        pull_alike(a, b),
    ensures
        pull_alike(pull_next_state(a, e), pull_next_state(b, e)),
        pull_next_state(a, e).target_dir == a.target_dir,
        pull_action_of(a, e) == with_target_dir(pull_action_of(b, e), a.target_dir@),
{
}

/// A second pull of an image that is already present replaces its
/// directory rather than merging into it: the directory is removed, and
/// once it is, the pull goes on exactly as a pull that found no directory.
pub proof fn law_pull_replaces_target(s: PullState)
    requires
        s.phase == PullPhase::AwaitTargetCheck,
    ensures
        pull_action_of(s, PullEvent::TargetChecked(true)) == (PullActionView::RemoveTarget {
            dir: s.target_dir@,
        }),
        ({
            let removed = pull_next_state(s, PullEvent::TargetChecked(true));
            &&& pull_next_state(removed, PullEvent::TargetRemoved(Ok(()))) == pull_next_state(
                s,
                PullEvent::TargetChecked(false),
            )
            &&& pull_action_of(removed, PullEvent::TargetRemoved(Ok(()))) == pull_action_of(
                s,
                PullEvent::TargetChecked(false),
            )
        }),
{
}

} // verus!

verus! {

/// Whether a state satisfies the pull's invariant (states made by
/// `pull_start` and `pull_step` always do).
pub fn pull_state_valid(state: &PullState) -> (b: bool)
    ensures
        b == pull_wf(*state),
{
    let n = state.layers.len();
    state.extracted <= n && (state.phase != PullPhase::AwaitLayer || state.extracted < n) && (
    state.phase == PullPhase::AwaitLayer || state.phase == PullPhase::Finished || state.extracted
        == 0)
}

} // verus!

verus! {

/// A manifest list entry built for linux on amd64.
pub open spec fn built_for_linux_amd64(m: ManifestReference) -> bool {
    &&& m.platform matches Some(p)
    &&& p.architecture matches Some(a) && a@ == "amd64"@
    &&& p.os matches Some(o) && o@ == "linux"@
}

/// Once the token arrives, the pull asks the registry for the manifest of
/// the image's repository at the pull's own tag, with that token.
pub proof fn law_pull_fetches_its_tag(
    s: PullState,
    image: Seq<char>,
    tag: Seq<char>,
    home: Seq<char>,
    t: String,
)
    requires
        pull_initial(s, image, tag, home),
    ensures
        pull_action_of(s, PullEvent::Token(t)) == (PullActionView::FetchManifest {
            url: "https://registry-1.docker.io/v2/"@ + full_name_of(image) + "/manifests/"@ + tag,
            authorization: "Bearer "@ + t@,
            accept: manifest_accept_of(),
        }),
        pull_next_state(s, PullEvent::Token(t)).token == t,
        pull_next_state(s, PullEvent::Token(t)).phase == PullPhase::AwaitManifest,
{
}

/// A non-empty manifest list answering the first manifest request is
/// resolved to one manifest, fetched next by digest: the first linux/amd64
/// entry's, or the first entry's when none is for linux/amd64.
pub proof fn law_pull_resolves_manifest_list(s: PullState, ms: Vec<ManifestReference>, i: int)
    requires
        s.phase == PullPhase::AwaitManifest,
        ms@.len() > 0,
    ensures
        ({
            let e = PullEvent::Manifest(RegistryResponse::ManifestList { manifests: ms });
            &&& pull_next_state(s, e).phase == PullPhase::AwaitPlatformManifest
            &&& pull_action_of(s, e) matches PullActionView::FetchManifest { url, authorization, accept }
                && authorization == "Bearer "@ + s.token@ && accept == manifest_accept_of()
                && ((0 <= i < ms@.len() && built_for_linux_amd64(ms@[i]) && (forall|j: int|
                0 <= j < i ==> !built_for_linux_amd64(#[trigger] ms@[j]))) ==> url
                == "https://registry-1.docker.io/v2/"@ + s.full_image@ + "/manifests/"@ + ms@[i].digest@)
                && ((forall|j: int| 0 <= j < ms@.len() ==> !built_for_linux_amd64(#[trigger] ms@[j]))
                ==> url == "https://registry-1.docker.io/v2/"@ + s.full_image@ + "/manifests/"@
                + ms@[0].digest@)
        }),
{
    let p = |m: ManifestReference| is_target_platform(m);
    lemma_first_match(ms@, p);
    assert forall|j: int| 0 <= j < ms@.len() implies #[trigger] is_target_platform(ms@[j])
        == built_for_linux_amd64(ms@[j]) by {}
    if 0 <= i < ms@.len() && built_for_linux_amd64(ms@[i]) && (forall|j: int|
        0 <= j < i ==> !built_for_linux_amd64(#[trigger] ms@[j])) {
        assert forall|k: int| 0 <= k < i implies !p(#[trigger] ms@[k]) by {
            assert(!built_for_linux_amd64(ms@[k]));
        }
        assert(p(ms@[i]));
        lemma_first_match_unique(ms@, p, i);
    }
    if forall|j: int| 0 <= j < ms@.len() ==> !built_for_linux_amd64(#[trigger] ms@[j]) {
        assert forall|k: int| 0 <= k < ms@.len() implies !p(#[trigger] ms@[k]) by {
            assert(!built_for_linux_amd64(ms@[k]));
        }
        lemma_first_match_unique(ms@, p, ms@.len() as int);
    }
}

/// The manifest's layers are what the pull fetches: a manifest answer
/// leads to the check of the target directory and is kept; once the target
/// exists the first layer's blob is fetched, and after each extracted
/// layer the next one's, each with the pull's token into the target
/// directory, until the last one ends the pull successfully.
pub proof fn law_pull_fetches_manifest_layers(s: PullState, e: PullEvent, layers: Vec<Layer>)
    requires
        pull_wf(s),
        pull_expects(s.phase, e),
    ensures
        ((s.phase == PullPhase::AwaitManifest || s.phase == PullPhase::AwaitPlatformManifest) && e
            == PullEvent::Manifest(RegistryResponse::Manifest { layers })) ==> {
            &&& pull_action_of(s, e) == (PullActionView::CheckTarget { dir: s.target_dir@ })
            &&& pull_next_state(s, e).layers == layers
        },
        (s.phase == PullPhase::AwaitTargetCreation && e == PullEvent::TargetCreated(Ok(()))
            && s.layers@.len() > 0) ==> (pull_action_of(s, e) matches PullActionView::FetchLayer {
            url,
            authorization,
            dir,
            ..
        } && url == "https://registry-1.docker.io/v2/"@ + s.full_image@ + "/blobs/"@
            + s.layers@[0].digest@ && authorization == "Bearer "@ + s.token@ && dir == s.target_dir@),
        (s.phase == PullPhase::AwaitLayer && e == PullEvent::LayerExtracted && s.extracted + 1
            < s.layers@.len()) ==> (pull_action_of(s, e) matches PullActionView::FetchLayer {
            url,
            authorization,
            dir,
            ..
        } && url == "https://registry-1.docker.io/v2/"@ + s.full_image@ + "/blobs/"@
            + s.layers@[s.extracted + 1].digest@ && authorization == "Bearer "@ + s.token@ && dir
            == s.target_dir@),
        (s.phase == PullPhase::AwaitLayer && e == PullEvent::LayerExtracted && s.extracted + 1
            == s.layers@.len()) ==> pull_action_of(s, e) == (PullActionView::Finish { result: Ok(()) }),
{
}

/// A failing request ends the pull with an error saying which step failed,
/// followed by the underlying error: the token request or its answer, the
/// manifest request or its answer, an empty manifest list, a second list
/// where a manifest was expected, the target directory, a layer request or
/// its unpacking.
pub proof fn law_pull_failures_report(s: PullState, e: PullEvent, d: String)
    requires
        pull_wf(s),
        pull_expects(s.phase, e),
    ensures
        e == PullEvent::TokenRequestFailed(d) ==> pull_action_of(s, e) == fail_with(
            "Auth request failed: "@ + d@,
        ),
        e == PullEvent::TokenParseFailed(d) ==> pull_action_of(s, e) == fail_with(
            "Failed to parse auth token: "@ + d@,
        ),
        e == PullEvent::ManifestRequestFailed(d) ==> pull_action_of(s, e) == fail_with(
            "Manifest request failed: "@ + d@,
        ),
        e == PullEvent::ManifestParseFailed(d) ==> pull_action_of(s, e) == fail_with(
            "Failed to parse manifest: "@ + d@,
        ),
        s.phase == PullPhase::AwaitManifest ==> (e matches PullEvent::Manifest(
            RegistryResponse::ManifestList { manifests },
        ) ==> (manifests@.len() == 0 ==> pull_action_of(s, e) == fail_with("Empty manifest list"@))),
        (s.phase == PullPhase::AwaitPlatformManifest && e is Manifest && e->Manifest_0 is ManifestList)
            ==> pull_action_of(s, e) == fail_with("Expected manifest but got manifest list"@),
        e == PullEvent::TargetRemoved(Err(d)) ==> pull_action_of(s, e) == fail_with(d@),
        e == PullEvent::TargetCreated(Err(d)) ==> pull_action_of(s, e) == fail_with(d@),
        e == PullEvent::LayerRequestFailed(d) ==> pull_action_of(s, e) == fail_with(
            "Layer request failed: "@ + d@,
        ),
        e == PullEvent::LayerExtractFailed(d) ==> pull_action_of(s, e) == fail_with("Extract failed: "@ + d@),
        pull_action_of(s, e) is Finish ==> pull_next_state(s, e).phase == PullPhase::Finished,
        fail_with(d@) == (PullActionView::Finish { result: Err(d@) }),
{
}

} // verus!
