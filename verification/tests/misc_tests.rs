use rustpod::crun::{
    exec_args, list_args, list_failure, logs_message, op_args, op_report, run_args, runtime_failure,
    spec_args, spec_failure, ContainerOp, RuntimeFailure,
};
use rustpod::images::{image_listing, listing_failure, plan_image_removal, removal_failure};
use rustpod::netavark::{
    netavark_config, netavark_failure, setup_args, setup_outcome, NetavarkFailure,
};

fn strings(v: &[&str]) -> Vec<String> {
    v.iter().map(|s| s.to_string()).collect()
}

#[test]
fn crun_arguments() {
    assert_eq!(op_args(ContainerOp::Start, "c1"), strings(&["start", "c1"]));
    assert_eq!(op_args(ContainerOp::Stop, "c1"), strings(&["kill", "c1", "SIGTERM"]));
    assert_eq!(op_args(ContainerOp::Remove, "c1"), strings(&["delete", "-f", "c1"]));
    assert_eq!(run_args("id"), strings(&["run", "id"]));
    assert_eq!(exec_args("c", &strings(&["ls", "-l"])), strings(&["exec", "-t", "c", "ls", "-l"]));
    assert_eq!(exec_args("c", &vec![]), strings(&["exec", "-t", "c"]));
    assert_eq!(list_args(), strings(&["list"]));
    assert_eq!(spec_args(), strings(&["spec"]));
}

#[test]
fn crun_reports() {
    let r = op_report(ContainerOp::Start, "c", true);
    assert!(!r.to_stderr);
    assert_eq!(r.line, "Started c");
    assert_eq!(r.remove_dir, None);
    let r = op_report(ContainerOp::Stop, "c", true);
    assert_eq!(r.line, "Stopped c");
    assert_eq!(r.remove_dir, None);
    let r = op_report(ContainerOp::Remove, "c", true);
    assert_eq!(r.line, "Removed c");
    assert_eq!(r.remove_dir, Some("/run/rustpod/bundles/c".to_string()));
    assert_eq!(op_report(ContainerOp::Remove, "c", false).remove_dir, None);
    let r = op_report(ContainerOp::Start, "c", false);
    assert!(r.to_stderr);
    assert_eq!(r.line, "Failed to start container c");
    assert_eq!(op_report(ContainerOp::Stop, "c", false).line, "Failed to stop container c");
    assert_eq!(op_report(ContainerOp::Remove, "c", false).line, "Failed to remove container c");
}

#[test]
fn crun_messages() {
    assert_eq!(list_failure("oops"), "crun list error: oops");
    assert_eq!(spec_failure("oops"), "crun spec error: oops");
    assert_eq!(logs_message("c"), "Logs for container c: (Not implemented natively, requires conmon)");
    assert_eq!(runtime_failure(RuntimeFailure::RunSpec, "e"), "Failed to run crun spec: e");
    assert_eq!(runtime_failure(RuntimeFailure::ReadConfig, "e"), "Failed to read config.json: e");
    assert_eq!(runtime_failure(RuntimeFailure::ParseConfig, "e"), "Failed to parse config.json: e");
    assert_eq!(runtime_failure(RuntimeFailure::SerializeConfig, "e"), "Failed to serialize modified config: e");
    assert_eq!(runtime_failure(RuntimeFailure::WriteConfig, "e"), "Failed to write modified config.json: e");
    assert_eq!(runtime_failure(RuntimeFailure::StartRun, "e"), "Failed to start crun: e");
    assert_eq!(runtime_failure(RuntimeFailure::WaitRun, "e"), "Failed to wait for crun: e");
    assert_eq!(runtime_failure(RuntimeFailure::RunStatus, "exit status: 1"), "crun exited with status: exit status: 1");
    assert_eq!(runtime_failure(RuntimeFailure::RunList, "e"), "Failed to run crun list: e");
    assert_eq!(runtime_failure(RuntimeFailure::StartExec, "e"), "Failed to start crun exec: e");
    assert_eq!(runtime_failure(RuntimeFailure::WaitExec, "e"), "Failed to wait for crun: e");
    assert_eq!(runtime_failure(RuntimeFailure::ExecStatus, "x"), "crun exec exited with status: x");
}

#[test]
fn image_listing_lines() {
    let repos = vec![
        ("alpine".to_string(), strings(&["3.19", "latest"])),
        ("empty".to_string(), vec![]),
        ("hello-world".to_string(), strings(&["latest"])),
    ];
    assert_eq!(
        image_listing(&repos),
        strings(&["REPOSITORY\tTAG", "alpine\t3.19", "alpine\tlatest", "hello-world\tlatest"])
    );
    assert_eq!(image_listing(&vec![]), strings(&["REPOSITORY\tTAG"]));
    assert_eq!(listing_failure("gone"), "Failed to read images root: gone");
}

#[test]
fn image_removal_plans() {
    let p = plan_image_removal("/root/.rustpod/images", "alpine");
    assert_eq!(p.target_dir, "/root/.rustpod/images/alpine/latest");
    assert_eq!(p.repo_dir, "/root/.rustpod/images/alpine");
    assert_eq!(p.removed_message, "Untagged and removed: alpine:latest");
    assert_eq!(p.missing_message, "Error: No such image: alpine");
    let p = plan_image_removal("/i", "redis:7:extra");
    assert_eq!(p.target_dir, "/i/redis/7");
    assert_eq!(p.removed_message, "Untagged and removed: redis:7");
    assert_eq!(p.missing_message, "Error: No such image: redis:7:extra");
    assert_eq!(removal_failure("a", "busy"), "Failed to remove a: busy");
}

#[test]
fn removal_undoes_pull() {
    let pulled = rustpod::paths::image_dir("/home/u", "redis", "7");
    let root = rustpod::paths::images_root("/home/u");
    assert_eq!(plan_image_removal(&root, "redis:7").target_dir, pulled);
    let pulled_latest = rustpod::paths::image_dir("/home/u", "redis", "latest");
    assert_eq!(plan_image_removal(&root, "redis").target_dir, pulled_latest);
}

#[test]
fn netavark_request() {
    let c = netavark_config("test-id");
    assert_eq!(c.container_id, "test-id");
    assert_eq!(c.container_name, "test-id");
    assert!(c.port_mappings.is_empty());
    assert_eq!(c.networks.len(), 1);
    assert_eq!(c.networks[0].0, "rustpod-net");
    assert_eq!(c.networks[0].1.interface_name, "eth0");
    assert_eq!(c.network_info.len(), 1);
    let info = &c.network_info[0].1;
    assert_eq!(c.network_info[0].0, "rustpod-net");
    assert_eq!(info.name, "rustpod-net");
    assert_eq!(info.driver, "bridge");
    assert_eq!(info.network_interface, "rustpod0");
    assert_eq!(info.subnets.len(), 1);
    assert_eq!(info.subnets[0].subnet, "10.88.0.0/16");
    assert_eq!(info.subnets[0].gateway, "10.88.0.1");
    assert_eq!(setup_args("/var/run/netns/x"), strings(&["setup", "/var/lib/rustpod/netavark", "/var/run/netns/x"]));
}

#[test]
fn netavark_outcomes() {
    assert_eq!(setup_outcome(true, "{\"podman\":{}}".to_string(), "ignored"), Ok("{\"podman\":{}}".to_string()));
    assert_eq!(setup_outcome(false, "out".to_string(), "bad"), Err("Netavark error: bad".to_string()));
    assert_eq!(netavark_failure(NetavarkFailure::Serialize, "e"), "e");
    assert_eq!(netavark_failure(NetavarkFailure::Spawn, "e"), "Failed to spawn netavark: e");
    assert_eq!(netavark_failure(NetavarkFailure::WriteRequest, "e"), "Failed to write to netavark stdin: e");
    assert_eq!(netavark_failure(NetavarkFailure::Wait, "e"), "Failed to wait for netavark: e");
}

#[test]
fn listing_after_pull_shows_the_pulled_image() {
    let (state, _) = rustpod::pull::pull_start("busybox", "1.36", "/home/u");
    let root = rustpod::paths::images_root("/home/u");
    assert_eq!(state.target_dir, format!("{}/busybox/1.36", root));
    let repos = vec![("busybox".to_string(), strings(&["1.36"])), ("alpine".to_string(), strings(&["3"]))];
    assert!(image_listing(&repos).contains(&"busybox\t1.36".to_string()));
}
