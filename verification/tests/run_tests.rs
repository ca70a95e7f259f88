use rustpod::run::{run_accepts, run_start, run_step, RunAction, RunEvent, RunPhase, RunState};

fn step(state: RunState, event: RunEvent) -> (RunState, RunAction) {
    assert!(run_accepts(&state, &event));
    run_step(state, event)
}

fn strings(v: &[&str]) -> Vec<String> {
    v.iter().map(|s| s.to_string()).collect()
}

#[test]
fn run_with_network_and_pull() {
    let (state, action) = run_start("rustpod-42", "hello-world", "/root");
    assert_eq!(action, RunAction::CheckImage { rootfs: "/root/.rustpod/images/hello-world/latest".to_string() });
    let (state, action) = step(state, RunEvent::ImageChecked(false));
    assert_eq!(
        action,
        RunAction::PullImage {
            image: "hello-world".to_string(),
            tag: "latest".to_string(),
            notices: strings(&["Image not found locally, pulling..."]),
        }
    );
    let (state, action) = step(state, RunEvent::Pulled(Ok(())));
    assert_eq!(action, RunAction::CreateBundle { dir: "/run/rustpod/bundles/rustpod-42".to_string() });
    let (state, action) = step(state, RunEvent::BundleCreated(Ok(())));
    assert_eq!(action, RunAction::AddNetns { name: "rustpod-rustpod-42".to_string() });
    let (state, action) = step(state, RunEvent::NetnsAdded);
    assert_eq!(
        action,
        RunAction::SetupNetwork {
            id: "rustpod-42".to_string(),
            netns_path: "/var/run/netns/rustpod-rustpod-42".to_string(),
            notices: strings(&["Setting up network..."]),
        }
    );
    let (state, action) = step(state, RunEvent::NetworkSetUp(Ok("{}".to_string())));
    assert_eq!(
        action,
        RunAction::GenerateSpec {
            bundle: "/run/rustpod/bundles/rustpod-42".to_string(),
            rootfs: "/root/.rustpod/images/hello-world/latest".to_string(),
            netns: Some("/var/run/netns/rustpod-rustpod-42".to_string()),
            notices: strings(&["Network configured: {}", "Generating OCI spec..."]),
        }
    );
    let (state, action) = step(state, RunEvent::SpecGenerated(Ok(())));
    assert_eq!(
        action,
        RunAction::RunRuntime {
            bundle: "/run/rustpod/bundles/rustpod-42".to_string(),
            id: "rustpod-42".to_string(),
            notices: strings(&["Running container: rustpod-42"]),
        }
    );
    let (state, action) = step(state, RunEvent::Exited(Err("crun exited with status: 1".to_string())));
    assert_eq!(
        action,
        RunAction::Cleanup {
            netns: Some("rustpod-rustpod-42".to_string()),
            bundle: "/run/rustpod/bundles/rustpod-42".to_string(),
            notices: strings(&["Cleaning up..."]),
        }
    );
    let (state, action) = step(state, RunEvent::CleanedUp);
    assert_eq!(action, RunAction::Finish { result: Err("crun exited with status: 1".to_string()) });
    assert_eq!(state.phase, RunPhase::Finished);
    assert!(!run_accepts(&state, &RunEvent::CleanedUp));
}

#[test]
fn run_falls_back_to_host_network() {
    let (state, _) = run_start("c1", "alpine", "/home/x");
    let (state, action) = step(state, RunEvent::ImageChecked(true));
    assert_eq!(action, RunAction::CreateBundle { dir: "/run/rustpod/bundles/c1".to_string() });
    let (state, _) = step(state, RunEvent::BundleCreated(Ok(())));
    let (state, _) = step(state, RunEvent::NetnsAdded);
    let (state, action) = step(state, RunEvent::NetworkSetUp(Err("Netavark error: nope".to_string())));
    assert_eq!(
        action,
        RunAction::DeleteNetns {
            name: "rustpod-c1".to_string(),
            notices: strings(&["Warning: Skipping custom networking (using host). Reason: Netavark error: nope"]),
        }
    );
    let (state, action) = step(state, RunEvent::NetnsRemoved);
    assert_eq!(
        action,
        RunAction::GenerateSpec {
            bundle: "/run/rustpod/bundles/c1".to_string(),
            rootfs: "/home/x/.rustpod/images/alpine/latest".to_string(),
            netns: None,
            notices: strings(&["Generating OCI spec..."]),
        }
    );
    let (state, _) = step(state, RunEvent::SpecGenerated(Ok(())));
    let (state, action) = step(state, RunEvent::Exited(Ok(())));
    assert_eq!(
        action,
        RunAction::Cleanup {
            netns: None,
            bundle: "/run/rustpod/bundles/c1".to_string(),
            notices: strings(&["Cleaning up..."]),
        }
    );
    let (_, action) = step(state, RunEvent::CleanedUp);
    assert_eq!(action, RunAction::Finish { result: Ok(()) });
}

#[test]
fn run_failures_end_the_run_before_the_container_starts() {
    let (state, _) = run_start("c", "i", "/h");
    let (state, _) = step(state, RunEvent::ImageChecked(false));
    let (_, action) = step(state, RunEvent::Pulled(Err("Empty manifest list".to_string())));
    assert_eq!(action, RunAction::Finish { result: Err("Empty manifest list".to_string()) });

    let (state, _) = run_start("c", "i", "/h");
    let (state, _) = step(state, RunEvent::ImageChecked(true));
    let (_, action) = step(state, RunEvent::BundleCreated(Err("Permission denied".to_string())));
    assert_eq!(action, RunAction::Finish { result: Err("Failed to create bundle dir: Permission denied".to_string()) });

    let (state, _) = run_start("c", "i", "/h");
    let (state, _) = step(state, RunEvent::ImageChecked(true));
    let (state, _) = step(state, RunEvent::BundleCreated(Ok(())));
    let (state, _) = step(state, RunEvent::NetnsAdded);
    let (state, _) = step(state, RunEvent::NetworkSetUp(Ok(String::new())));
    let (state, action) = step(state, RunEvent::SpecGenerated(Err("crun spec error: x".to_string())));
    assert_eq!(
        action,
        RunAction::Cleanup {
            netns: Some("rustpod-c".to_string()),
            bundle: "/run/rustpod/bundles/c".to_string(),
            notices: strings(&["Cleaning up..."]),
        }
    );
    assert_eq!(state.phase, RunPhase::AwaitCleanup);
    let (state, action) = step(state, RunEvent::CleanedUp);
    assert_eq!(action, RunAction::Finish { result: Err("crun spec error: x".to_string()) });
    assert_eq!(state.phase, RunPhase::Finished);
}

#[test]
fn run_cleans_up_after_spec_failure_on_host_network() {
    let (state, _) = run_start("c", "i", "/h");
    let (state, _) = step(state, RunEvent::ImageChecked(true));
    let (state, _) = step(state, RunEvent::BundleCreated(Ok(())));
    let (state, _) = step(state, RunEvent::NetnsAdded);
    let (state, _) = step(state, RunEvent::NetworkSetUp(Err("no netavark".to_string())));
    let (state, _) = step(state, RunEvent::NetnsRemoved);
    let (state, action) = step(state, RunEvent::SpecGenerated(Err("bad config".to_string())));
    assert_eq!(
        action,
        RunAction::Cleanup {
            netns: None,
            bundle: "/run/rustpod/bundles/c".to_string(),
            notices: strings(&["Cleaning up..."]),
        }
    );
    let (_, action) = step(state, RunEvent::CleanedUp);
    assert_eq!(action, RunAction::Finish { result: Err("bad config".to_string()) });
}

#[test]
fn run_refuses_outcomes_out_of_turn() {
    let (state, _) = run_start("c", "i", "/h");
    assert!(!run_accepts(&state, &RunEvent::CleanedUp));
    assert!(run_accepts(&state, &RunEvent::ImageChecked(true)));
}

#[test]
fn namespace_commands() {
    assert_eq!(rustpod::run::ip_netns_args(true, "rustpod-c"), strings(&["netns", "add", "rustpod-c"]));
    assert_eq!(rustpod::run::ip_netns_args(false, "rustpod-c"), strings(&["netns", "delete", "rustpod-c"]));
}
