use rustpod::pull::{pull_accepts, pull_start, pull_step, PullAction, PullEvent, PullPhase, PullState};
use rustpod::registry::{Layer, ManifestReference, Platform, RegistryResponse};

const ACCEPT: &str = "application/vnd.docker.distribution.manifest.v2+json, application/vnd.docker.distribution.manifest.list.v2+json, application/vnd.oci.image.manifest.v1+json, application/vnd.oci.image.index.v1+json";

fn step(state: PullState, event: PullEvent) -> (PullState, PullAction) {
    assert!(pull_accepts(&state, &event));
    pull_step(state, event)
}

fn layers(digests: &[&str]) -> RegistryResponse {
    RegistryResponse::Manifest {
        layers: digests.iter().map(|d| Layer { digest: d.to_string() }).collect(),
    }
}

#[test]
fn pull_of_a_manifest_list_fetches_linux_amd64_then_each_layer() {
    let (state, action) = pull_start("hello-world", "latest", "/home/u");
    assert_eq!(
        action,
        PullAction::FetchToken {
            url: "https://auth.docker.io/token?service=registry.docker.io&scope=repository:library/hello-world:pull"
                .to_string()
        }
    );
    let (state, action) = step(state, PullEvent::Token("T".to_string()));
    assert_eq!(
        action,
        PullAction::FetchManifest {
            url: "https://registry-1.docker.io/v2/library/hello-world/manifests/latest".to_string(),
            authorization: "Bearer T".to_string(),
            accept: ACCEPT.to_string(),
        }
    );
    let list = RegistryResponse::ManifestList {
        manifests: vec![
            ManifestReference {
                digest: "sha256:arm".to_string(),
                platform: Some(Platform { architecture: Some("arm64".to_string()), os: Some("linux".to_string()) }),
            },
            ManifestReference {
                digest: "sha256:amd".to_string(),
                platform: Some(Platform { architecture: Some("amd64".to_string()), os: Some("linux".to_string()) }),
            },
        ],
    };
    let (state, action) = step(state, PullEvent::Manifest(list));
    assert_eq!(
        action,
        PullAction::FetchManifest {
            url: "https://registry-1.docker.io/v2/library/hello-world/manifests/sha256:amd".to_string(),
            authorization: "Bearer T".to_string(),
            accept: ACCEPT.to_string(),
        }
    );
    let (state, action) = step(state, PullEvent::Manifest(layers(&["sha256:l1", "sha256:l2"])));
    let dir = "/home/u/.rustpod/images/hello-world/latest".to_string();
    assert_eq!(action, PullAction::CheckTarget { dir: dir.clone() });
    let (state, action) = step(state, PullEvent::TargetChecked(true));
    assert_eq!(action, PullAction::RemoveTarget { dir: dir.clone() });
    let (state, action) = step(state, PullEvent::TargetRemoved(Ok(())));
    assert_eq!(action, PullAction::CreateTarget { dir: dir.clone() });
    let (state, action) = step(state, PullEvent::TargetCreated(Ok(())));
    assert_eq!(
        action,
        PullAction::FetchLayer {
            progress: "Downloading layer 1/2 (sha256:l1)".to_string(),
            url: "https://registry-1.docker.io/v2/library/hello-world/blobs/sha256:l1".to_string(),
            authorization: "Bearer T".to_string(),
            dir: dir.clone(),
        }
    );
    let (state, action) = step(state, PullEvent::LayerExtracted);
    assert_eq!(
        action,
        PullAction::FetchLayer {
            progress: "Downloading layer 2/2 (sha256:l2)".to_string(),
            url: "https://registry-1.docker.io/v2/library/hello-world/blobs/sha256:l2".to_string(),
            authorization: "Bearer T".to_string(),
            dir: dir.clone(),
        }
    );
    let (state, action) = step(state, PullEvent::LayerExtracted);
    assert_eq!(action, PullAction::Finish { result: Ok(()) });
    assert_eq!(state.phase, PullPhase::Finished);
    assert_eq!(state.extracted, 2);
    assert!(!pull_accepts(&state, &PullEvent::LayerExtracted));
}

#[test]
fn pull_of_a_plain_manifest_into_a_fresh_directory() {
    let (state, _) = pull_start("bitnami/redis", "7", "/h");
    assert_eq!(state.full_image, "bitnami/redis");
    let (state, _) = step(state, PullEvent::Token("X".to_string()));
    let (state, action) = step(state, PullEvent::Manifest(layers(&["d"])));
    assert_eq!(action, PullAction::CheckTarget { dir: "/h/.rustpod/images/bitnami/redis/7".to_string() });
    let (state, action) = step(state, PullEvent::TargetChecked(false));
    assert_eq!(action, PullAction::CreateTarget { dir: "/h/.rustpod/images/bitnami/redis/7".to_string() });
    let (state, action) = step(state, PullEvent::TargetCreated(Ok(())));
    assert!(matches!(action, PullAction::FetchLayer { .. }));
    let (_, action) = step(state, PullEvent::LayerExtracted);
    assert_eq!(action, PullAction::Finish { result: Ok(()) });
}

#[test]
fn manifest_without_layers_finishes_after_creating_the_directory() {
    let (state, _) = pull_start("a", "b", "/h");
    let (state, _) = step(state, PullEvent::Token("t".to_string()));
    let (state, _) = step(state, PullEvent::Manifest(layers(&[])));
    let (state, _) = step(state, PullEvent::TargetChecked(false));
    let (_, action) = step(state, PullEvent::TargetCreated(Ok(())));
    assert_eq!(action, PullAction::Finish { result: Ok(()) });
}

#[test]
fn pull_errors_end_the_pull() {
    let (state, _) = pull_start("a", "b", "/h");
    let (state, action) = step(state, PullEvent::TokenRequestFailed("boom".to_string()));
    assert_eq!(action, PullAction::Finish { result: Err("Auth request failed: boom".to_string()) });
    assert_eq!(state.phase, PullPhase::Finished);

    let (state, _) = pull_start("a", "b", "/h");
    let (_, action) = step(state, PullEvent::TokenParseFailed("bad".to_string()));
    assert_eq!(action, PullAction::Finish { result: Err("Failed to parse auth token: bad".to_string()) });

    let (state, _) = pull_start("a", "b", "/h");
    let (state, _) = step(state, PullEvent::Token("t".to_string()));
    let (_, action) = step(state, PullEvent::ManifestRequestFailed("404".to_string()));
    assert_eq!(action, PullAction::Finish { result: Err("Manifest request failed: 404".to_string()) });

    let (state, _) = pull_start("a", "b", "/h");
    let (state, _) = step(state, PullEvent::Token("t".to_string()));
    let (_, action) = step(state, PullEvent::ManifestParseFailed("eof".to_string()));
    assert_eq!(action, PullAction::Finish { result: Err("Failed to parse manifest: eof".to_string()) });

    let (state, _) = pull_start("a", "b", "/h");
    let (state, _) = step(state, PullEvent::Token("t".to_string()));
    let (_, action) = step(state, PullEvent::Manifest(RegistryResponse::ManifestList { manifests: vec![] }));
    assert_eq!(action, PullAction::Finish { result: Err("Empty manifest list".to_string()) });
}

#[test]
fn second_manifest_list_is_refused() {
    let (state, _) = pull_start("a", "b", "/h");
    let (state, _) = step(state, PullEvent::Token("t".to_string()));
    let list = || RegistryResponse::ManifestList {
        manifests: vec![ManifestReference { digest: "d".to_string(), platform: None }],
    };
    let (state, _) = step(state, PullEvent::Manifest(list()));
    assert_eq!(state.phase, PullPhase::AwaitPlatformManifest);
    let (_, action) = step(state, PullEvent::Manifest(list()));
    assert_eq!(
        action,
        PullAction::Finish { result: Err("Expected manifest but got manifest list".to_string()) }
    );
}

#[test]
fn directory_and_layer_failures_end_the_pull() {
    let start = || {
        let (state, _) = pull_start("a", "b", "/h");
        let (state, _) = step(state, PullEvent::Token("t".to_string()));
        let (state, _) = step(state, PullEvent::Manifest(layers(&["x", "y"])));
        state
    };
    let (state, _) = step(start(), PullEvent::TargetChecked(true));
    let (_, action) = step(state, PullEvent::TargetRemoved(Err("busy".to_string())));
    assert_eq!(action, PullAction::Finish { result: Err("busy".to_string()) });

    let (state, _) = step(start(), PullEvent::TargetChecked(false));
    let (_, action) = step(state, PullEvent::TargetCreated(Err("denied".to_string())));
    assert_eq!(action, PullAction::Finish { result: Err("denied".to_string()) });

    let (state, _) = step(start(), PullEvent::TargetChecked(false));
    let (state, _) = step(state, PullEvent::TargetCreated(Ok(())));
    let (_, action) = step(state, PullEvent::LayerRequestFailed("timeout".to_string()));
    assert_eq!(action, PullAction::Finish { result: Err("Layer request failed: timeout".to_string()) });

    let (state, _) = step(start(), PullEvent::TargetChecked(false));
    let (state, _) = step(state, PullEvent::TargetCreated(Ok(())));
    let (state, _) = step(state, PullEvent::LayerExtracted);
    assert_eq!(state.extracted, 1);
    let (_, action) = step(state, PullEvent::LayerExtractFailed("corrupt".to_string()));
    assert_eq!(action, PullAction::Finish { result: Err("Extract failed: corrupt".to_string()) });
}

#[test]
fn pull_refuses_answers_out_of_turn() {
    let (state, _) = pull_start("a", "b", "/h");
    assert!(!pull_accepts(&state, &PullEvent::LayerExtracted));
    assert!(!pull_accepts(&state, &PullEvent::TargetChecked(true)));
    assert!(pull_accepts(&state, &PullEvent::Token("t".to_string())));
}

#[test]
fn pull_states_keep_the_invariant() {
    let (state, _) = pull_start("a", "b", "/h");
    assert!(rustpod::pull::pull_state_valid(&state));
    let (state, _) = step(state, PullEvent::Token("t".to_string()));
    let (state, _) = step(state, PullEvent::Manifest(layers(&["x"])));
    assert!(rustpod::pull::pull_state_valid(&state));
    let broken = PullState { extracted: 3, ..state };
    assert!(!rustpod::pull::pull_state_valid(&broken));
}

fn without_dir(action: PullAction) -> PullAction {
    match action {
        PullAction::CheckTarget { .. } => PullAction::CheckTarget { dir: String::new() },
        PullAction::RemoveTarget { .. } => PullAction::RemoveTarget { dir: String::new() },
        PullAction::CreateTarget { .. } => PullAction::CreateTarget { dir: String::new() },
        PullAction::FetchLayer { progress, url, authorization, .. } => {
            PullAction::FetchLayer { progress, url, authorization, dir: String::new() }
        }
        other => other,
    }
}

fn answers() -> Vec<PullEvent> {
    vec![
        PullEvent::Token("T".to_string()),
        PullEvent::Manifest(layers(&["sha256:l1"])),
        PullEvent::TargetChecked(false),
        PullEvent::TargetCreated(Ok(())),
        PullEvent::LayerExtracted,
    ]
}

#[test]
fn pulling_the_short_and_the_library_name_makes_the_same_requests() {
    let (mut short, first_short) = pull_start("alpine", "3", "/h");
    let (mut long, first_long) = pull_start("library/alpine", "3", "/h");
    assert_eq!(first_short, first_long);
    assert_eq!(short.target_dir, "/h/.rustpod/images/alpine/3");
    assert_eq!(long.target_dir, "/h/.rustpod/images/library/alpine/3");
    for (e1, e2) in answers().into_iter().zip(answers()) {
        let (s1, a1) = step(short, e1);
        let (s2, a2) = step(long, e2);
        assert_eq!(without_dir(a1), without_dir(a2));
        short = s1;
        long = s2;
    }
    assert_eq!(short.phase, PullPhase::Finished);
}

#[test]
fn a_second_pull_removes_the_directory_then_goes_on_as_a_fresh_pull() {
    let start = || {
        let (s, _) = pull_start("a", "b", "/h");
        let (s, _) = step(s, PullEvent::Token("T".to_string()));
        let (s, _) = step(s, PullEvent::Manifest(layers(&["sha256:x"])));
        s
    };
    let (present, action) = step(start(), PullEvent::TargetChecked(true));
    assert_eq!(action, PullAction::RemoveTarget { dir: "/h/.rustpod/images/a/b".to_string() });
    let (after_removal, a1) = step(present, PullEvent::TargetRemoved(Ok(())));
    let (fresh, a2) = step(start(), PullEvent::TargetChecked(false));
    assert_eq!(a1, a2);
    assert_eq!(after_removal, fresh);
}
