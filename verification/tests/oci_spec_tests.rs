use rustpod::json::JsonValue;
use rustpod::oci_spec::{apply_spec_overrides, is_overridable};

fn s(x: &str) -> JsonValue {
    JsonValue::Str(x.to_string())
}

fn obj(members: Vec<(&str, JsonValue)>) -> JsonValue {
    JsonValue::Object(members.into_iter().map(|(k, v)| (k.to_string(), v)).collect())
}

fn default_spec() -> JsonValue {
    obj(vec![
        ("ociVersion", s("1.0.0")),
        (
            "process",
            obj(vec![
                ("terminal", JsonValue::Bool(false)),
                ("args", JsonValue::Array(vec![s("sh")])),
                ("cwd", s("/")),
            ]),
        ),
        ("root", obj(vec![("path", s("rootfs")), ("readonly", JsonValue::Bool(true))])),
        (
            "linux",
            obj(vec![(
                "namespaces",
                JsonValue::Array(vec![
                    obj(vec![("type", s("pid"))]),
                    obj(vec![("type", s("network"))]),
                    obj(vec![("type", s("mount"))]),
                ]),
            )]),
        ),
    ])
}

fn expected_full() -> JsonValue {
    obj(vec![
        ("ociVersion", s("1.0.0")),
        (
            "process",
            obj(vec![
                ("terminal", JsonValue::Bool(true)),
                ("args", JsonValue::Array(vec![s("echo"), s("hi")])),
                ("cwd", s("/")),
            ]),
        ),
        ("root", obj(vec![("path", s("/img/rootfs")), ("readonly", JsonValue::Bool(false))])),
        (
            "linux",
            obj(vec![(
                "namespaces",
                JsonValue::Array(vec![
                    obj(vec![("type", s("pid"))]),
                    obj(vec![("type", s("network")), ("path", s("/var/run/netns/rustpod-x"))]),
                    obj(vec![("type", s("mount"))]),
                ]),
            )]),
        ),
    ])
}

#[test]
fn test_mock_spec_modification() {
    let cmd = vec!["echo".to_string(), "hi".to_string()];
    let out = apply_spec_overrides(default_spec(), "/img/rootfs", &cmd, Some("/var/run/netns/rustpod-x"));
    assert_eq!(out, expected_full());
}

#[test]
fn overrides_are_idempotent() {
    let cmd = vec!["echo".to_string(), "hi".to_string()];
    let once = apply_spec_overrides(default_spec(), "/img/rootfs", &cmd, Some("/var/run/netns/rustpod-x"));
    let twice = apply_spec_overrides(once, "/img/rootfs", &cmd, Some("/var/run/netns/rustpod-x"));
    assert_eq!(twice, expected_full());
}

#[test]
fn empty_command_keeps_default_args() {
    let out = apply_spec_overrides(default_spec(), "/r", &vec![], None);
    let expected = obj(vec![
        ("ociVersion", s("1.0.0")),
        (
            "process",
            obj(vec![
                ("terminal", JsonValue::Bool(true)),
                ("args", JsonValue::Array(vec![s("sh")])),
                ("cwd", s("/")),
            ]),
        ),
        ("root", obj(vec![("path", s("/r")), ("readonly", JsonValue::Bool(false))])),
        (
            "linux",
            obj(vec![(
                "namespaces",
                JsonValue::Array(vec![
                    obj(vec![("type", s("pid"))]),
                    obj(vec![("type", s("network"))]),
                    obj(vec![("type", s("mount"))]),
                ]),
            )]),
        ),
    ]);
    assert_eq!(out, expected);
}

#[test]
fn missing_network_namespace_is_appended() {
    let spec = obj(vec![(
        "linux",
        obj(vec![("namespaces", JsonValue::Array(vec![obj(vec![("type", s("pid"))])]))]),
    )]);
    let out = apply_spec_overrides(spec, "/r", &vec![], Some("/ns"));
    let expected = obj(vec![(
        "linux",
        obj(vec![(
            "namespaces",
            JsonValue::Array(vec![
                obj(vec![("type", s("pid"))]),
                obj(vec![("type", s("network")), ("path", s("/ns"))]),
            ]),
        )]),
    )]);
    assert_eq!(out, expected);
}

#[test]
fn null_root_becomes_an_object_and_absent_members_stay_absent() {
    let spec = obj(vec![("root", JsonValue::Null), ("linux", obj(vec![("namespaces", s("x"))]))]);
    assert!(is_overridable(&spec));
    let out = apply_spec_overrides(spec, "/r", &vec!["a".to_string()], Some("/ns"));
    let expected = obj(vec![
        ("root", obj(vec![("path", s("/r")), ("readonly", JsonValue::Bool(false))])),
        ("linux", obj(vec![("namespaces", s("x"))])),
    ]);
    assert_eq!(out, expected);
}

#[test]
fn non_object_spec_is_left_alone() {
    let out = apply_spec_overrides(JsonValue::Array(vec![]), "/r", &vec![], Some("/ns"));
    assert_eq!(out, JsonValue::Array(vec![]));
}

#[test]
fn scalar_root_or_process_is_refused() {
    assert!(!is_overridable(&obj(vec![("root", s("x"))])));
    assert!(!is_overridable(&obj(vec![("process", JsonValue::Bool(true))])));
    assert!(is_overridable(&obj(vec![("linux", s("x"))])));
    assert!(is_overridable(&JsonValue::Number("3".to_string())));
}
