use rustpod::crun::{batch_start, batch_step, BatchNext, ContainerOp, ItemOutcome, Report};
use rustpod::images::{
    removal_accepts, removal_start, removal_step, RemovalAction, RemovalEvent, RemovalPhase, RemovalState,
};

fn strings(v: &[&str]) -> Vec<String> {
    v.iter().map(|s| s.to_string()).collect()
}

#[test]
fn batch_reports_every_container_in_turn() {
    let cs = strings(&["a", "b"]);
    let next = batch_start(ContainerOp::Remove, &cs);
    assert_eq!(next, BatchNext::Run { index: 0, args: strings(&["delete", "-f", "a"]) });
    let (report, next) = batch_step(ContainerOp::Remove, &cs, 0, ItemOutcome::Ran(true));
    assert_eq!(
        report,
        Some(Report {
            to_stderr: false,
            line: "Removed a".to_string(),
            remove_dir: Some("/run/rustpod/bundles/a".to_string()),
        })
    );
    assert_eq!(next, BatchNext::Run { index: 1, args: strings(&["delete", "-f", "b"]) });
    let (report, next) = batch_step(ContainerOp::Remove, &cs, 1, ItemOutcome::Ran(false));
    assert_eq!(
        report,
        Some(Report { to_stderr: true, line: "Failed to remove container b".to_string(), remove_dir: None })
    );
    assert_eq!(next, BatchNext::Done { result: Ok(()) });
}

#[test]
fn batch_stops_when_crun_cannot_start() {
    let cs = strings(&["a", "b"]);
    let (report, next) = batch_step(ContainerOp::Stop, &cs, 0, ItemOutcome::SpawnFailed("No such file".to_string()));
    assert_eq!(report, None);
    assert_eq!(next, BatchNext::Done { result: Err("No such file".to_string()) });
    assert_eq!(batch_start(ContainerOp::Start, &Vec::new()), BatchNext::Done { result: Ok(()) });
    assert_eq!(batch_start(ContainerOp::Stop, &cs), BatchNext::Run { index: 0, args: strings(&["kill", "a", "SIGTERM"]) });
}

fn rstep(state: RemovalState, event: RemovalEvent) -> (RemovalState, RemovalAction) {
    assert!(removal_accepts(&state, &event));
    removal_step(state, event)
}

#[test]
fn removal_removes_present_images_and_reports_missing_ones() {
    let (state, action) = removal_start("/h/.rustpod/images", strings(&["alpine", "redis:7"]));
    assert_eq!(action, RemovalAction::CheckTarget { dir: "/h/.rustpod/images/alpine/latest".to_string() });
    let (state, action) = rstep(state, RemovalEvent::TargetChecked(false));
    assert_eq!(action, RemovalAction::ReportMissing { line: "Error: No such image: alpine".to_string() });
    let (state, action) = rstep(state, RemovalEvent::MissingReported);
    assert_eq!(action, RemovalAction::CheckTarget { dir: "/h/.rustpod/images/redis/7".to_string() });
    assert_eq!(state.index, 1);
    let (state, action) = rstep(state, RemovalEvent::TargetChecked(true));
    assert_eq!(action, RemovalAction::RemoveTarget { dir: "/h/.rustpod/images/redis/7".to_string() });
    let (state, action) = rstep(state, RemovalEvent::TargetRemoved(Ok(())));
    assert_eq!(
        action,
        RemovalAction::CheckRepo {
            removed: "Untagged and removed: redis:7".to_string(),
            dir: "/h/.rustpod/images/redis".to_string(),
        }
    );
    let (state, action) = rstep(state, RemovalEvent::RepoChecked(true));
    assert_eq!(action, RemovalAction::RemoveRepo { dir: "/h/.rustpod/images/redis".to_string() });
    let (state, action) = rstep(state, RemovalEvent::RepoRemoved);
    assert_eq!(action, RemovalAction::Finish { result: Ok(()) });
    assert_eq!(state.phase, RemovalPhase::Finished);
    assert!(!removal_accepts(&state, &RemovalEvent::RepoRemoved));
}

#[test]
fn removal_stops_at_a_directory_that_cannot_be_removed() {
    let (state, _) = removal_start("/i", strings(&["a", "b"]));
    let (state, _) = rstep(state, RemovalEvent::TargetChecked(true));
    let (state, action) = rstep(state, RemovalEvent::TargetRemoved(Err("busy".to_string())));
    assert_eq!(action, RemovalAction::Finish { result: Err("Failed to remove a: busy".to_string()) });
    assert_eq!(state.phase, RemovalPhase::Finished);
    let (_, action) = removal_start("/i", Vec::new());
    assert_eq!(action, RemovalAction::Finish { result: Ok(()) });
}

#[test]
fn removal_keeps_a_repository_that_still_has_tags() {
    let (state, _) = removal_start("/i", strings(&["a:1"]));
    let (state, _) = rstep(state, RemovalEvent::TargetChecked(true));
    let (state, _) = rstep(state, RemovalEvent::TargetRemoved(Ok(())));
    let (_, action) = rstep(state, RemovalEvent::RepoChecked(false));
    assert_eq!(action, RemovalAction::Finish { result: Ok(()) });
}
