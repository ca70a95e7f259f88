use rustpod::json::JsonValue;
use rustpod::json_text::{json_pretty, parse_json};
use rustpod::spec_file::{edit_config_text, override_parsed_spec, printed_config, SpecEditError};

const CONFIG: &str = r#"{
  "ociVersion": "1.0.0",
  "process": {"terminal": false, "args": ["sh"], "cwd": "/", "user": {"uid": 0, "gid": 0}},
  "root": {"path": "rootfs", "readonly": true},
  "linux": {"namespaces": [{"type": "pid"}, {"type": "network"}, {"type": "mount"}]}
}"#;

const EXPECTED: &str = r#"{
  "ociVersion": "1.0.0",
  "process": {"terminal": true, "args": ["echo", "hi"], "cwd": "/", "user": {"uid": 0, "gid": 0}},
  "root": {"path": "/img/rootfs", "readonly": false},
  "linux": {"namespaces": [{"type": "pid"}, {"type": "network", "path": "/var/run/netns/rustpod-x"}, {"type": "mount"}]}
}"#;

fn cmd(v: &[&str]) -> Vec<String> {
    v.iter().map(|s| s.to_string()).collect()
}

#[test]
fn config_text_is_rewritten_with_the_overrides() {
    let out = edit_config_text(CONFIG, "/img/rootfs", &cmd(&["echo", "hi"]), Some("/var/run/netns/rustpod-x"))
        .expect("the config is rewritten");
    let got: serde_json::Value = serde_json::from_str(&out).unwrap();
    let want: serde_json::Value = serde_json::from_str(EXPECTED).unwrap();
    assert_eq!(got, want);
    assert_eq!(out, serde_json::to_string_pretty(&want).unwrap());
    assert!(out.contains("\n  \"linux\": {"));
}

#[test]
fn config_text_that_is_not_json_is_refused() {
    let r = edit_config_text("{ not json", "/r", &cmd(&[]), None);
    match r {
        Err(SpecEditError::Unparsable(m)) => {
            assert!(m.starts_with("Failed to parse config.json: "));
            assert!(m.contains("line 1"));
        }
        other => panic!("unexpected {:?}", other),
    }
}

#[test]
fn config_with_a_scalar_root_is_not_overridable() {
    let r = edit_config_text(r#"{"root": 3, "process": {}}"#, "/r", &cmd(&["sh"]), None);
    assert_eq!(r, Err(SpecEditError::NotOverridable));
}

#[test]
fn parse_json_reads_numbers_by_their_text() {
    let v = parse_json(r#"{"a": [1, -2, 2.5, null, true, "x"]}"#).unwrap();
    assert_eq!(
        v,
        JsonValue::Object(vec![(
            "a".to_string(),
            JsonValue::Array(vec![
                JsonValue::Number("1".to_string()),
                JsonValue::Number("-2".to_string()),
                JsonValue::Number("2.5".to_string()),
                JsonValue::Null,
                JsonValue::Bool(true),
                JsonValue::Str("x".to_string()),
            ]),
        )])
    );
    assert!(parse_json("[1,").is_err());
}

#[test]
fn json_pretty_prints_indented_text_and_refuses_bad_numbers() {
    let v = JsonValue::Object(vec![("k".to_string(), JsonValue::Array(vec![JsonValue::Number("7".to_string())]))]);
    assert_eq!(json_pretty(v).unwrap(), "{\n  \"k\": [\n    7\n  ]\n}");
    assert!(json_pretty(JsonValue::Number("seven".to_string())).is_err());
}

#[test]
fn parse_outcomes_are_mapped_to_refusals() {
    let r = override_parsed_spec(Err("EOF while parsing".to_string()), "/r", &cmd(&[]), None);
    assert_eq!(r, Err(SpecEditError::Unparsable("Failed to parse config.json: EOF while parsing".to_string())));
    let r = override_parsed_spec(Ok(JsonValue::Object(vec![])), "/r", &cmd(&[]), None);
    assert_eq!(r, Ok(JsonValue::Object(vec![])));
    assert_eq!(
        printed_config(Err("bad number".to_string())),
        Err(SpecEditError::Unprintable("Failed to serialize modified config: bad number".to_string()))
    );
    assert_eq!(printed_config(Ok("{}".to_string())), Ok("{}".to_string()));
}
