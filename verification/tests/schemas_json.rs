use sala_devtools::schemas::{
    DcBuildJson, DcConnectJson, DcDoctorCheckJson, DcDoctorJson, DcSmokeJson, DcSmokeStepJson,
    DcStatusJson,
};

fn reason(text: &str) -> serde_json::Value {
    let mut map = serde_json::Map::new();
    map.insert("reason".to_string(), serde_json::Value::from(text));
    serde_json::Value::Object(map)
}

#[test]
fn dc_status_json_round_trip() {
    let status = DcStatusJson {
        workspace: "/workspace/test".to_string(),
        phase: "Running".to_string(),
        container_id: Some("abc123".to_string()),
        terminal_ok: true,
        lsp_rust_ok: true,
        lsp_python_ok: false,
    };
    let json = serde_json::to_string_pretty(&status.to_json()).expect("serialize");
    let parsed: serde_json::Value = serde_json::from_str(&json).expect("parse");
    assert_eq!(parsed["workspace"], "/workspace/test");
    assert_eq!(parsed["phase"], "Running");
    assert_eq!(parsed["terminal_ok"], true);
    assert_eq!(parsed["lsp_python_ok"], false);
}

#[test]
fn dc_build_json_skips_none_fields() {
    let build = DcBuildJson {
        workspace: "/workspace/test".to_string(),
        action: "build".to_string(),
        status: "success".to_string(),
        duration_ms: 12345,
        container_id: Some("abc".to_string()),
        error_message: None,
    };
    let json = serde_json::to_string(&build.to_json()).expect("serialize");
    assert!(!json.contains("error_message"));
    assert!(json.contains("container_id"));
}

#[test]
fn dc_build_json_includes_error() {
    let build = DcBuildJson {
        workspace: "/workspace/test".to_string(),
        action: "rebuild".to_string(),
        status: "failed".to_string(),
        duration_ms: 500,
        container_id: None,
        error_message: Some("Docker not running".to_string()),
    };
    let json = serde_json::to_string_pretty(&build.to_json()).expect("serialize");
    let parsed: serde_json::Value = serde_json::from_str(&json).expect("parse");
    assert_eq!(parsed["status"], "failed");
    assert_eq!(parsed["error_message"], "Docker not running");
    assert!(parsed.get("container_id").is_none());
}

#[test]
fn dc_doctor_json_round_trip() {
    let doctor = DcDoctorJson {
        workspace: "/workspace/test".to_string(),
        overall_status: "HEALTHY".to_string(),
        checks: vec![
            DcDoctorCheckJson {
                name: "Tala daemon".to_string(),
                status: "OK".to_string(),
                message: "reachable".to_string(),
                suggestion: None,
                details: None,
            },
            DcDoctorCheckJson {
                name: "Docker".to_string(),
                status: "ERROR".to_string(),
                message: "not running".to_string(),
                suggestion: Some("start docker".to_string()),
                details: Some(reason("socket missing")),
            },
        ],
    };
    let json = serde_json::to_string_pretty(&doctor.to_json()).expect("serialize");
    let parsed: serde_json::Value = serde_json::from_str(&json).expect("parse");
    assert_eq!(parsed["overall_status"], "HEALTHY");
    let checks = parsed["checks"].as_array().expect("array");
    assert_eq!(checks.len(), 2);
    assert_eq!(checks[0]["status"], "OK");
    assert!(checks[0].get("suggestion").is_none());
    assert_eq!(checks[1]["suggestion"], "start docker");
}

#[test]
fn dc_connect_json_round_trip() {
    let connect = DcConnectJson {
        workspace: "/workspace/test".to_string(),
        container_id: "abc123def456".to_string(),
        workspace_folder: "/workspace".to_string(),
        config_changed: true,
    };
    let json = serde_json::to_string_pretty(&connect.to_json()).expect("serialize");
    let parsed: serde_json::Value = serde_json::from_str(&json).expect("parse");
    assert_eq!(parsed["container_id"], "abc123def456");
    assert_eq!(parsed["config_changed"], true);
}

#[test]
fn dc_smoke_json_round_trip() {
    let smoke = DcSmokeJson {
        workspace: "/workspace/test".to_string(),
        overall: "pass".to_string(),
        steps: vec![
            DcSmokeStepJson {
                name: "devcontainer".to_string(),
                status: "ok".to_string(),
                message: "container abc123".to_string(),
            },
            DcSmokeStepJson {
                name: "terminal".to_string(),
                status: "ok".to_string(),
                message: "SMOKE_OK received".to_string(),
            },
            DcSmokeStepJson {
                name: "lsp".to_string(),
                status: "skip".to_string(),
                message: "rust-analyzer not found".to_string(),
            },
        ],
    };
    let json = serde_json::to_string_pretty(&smoke.to_json()).expect("serialize");
    let parsed: serde_json::Value = serde_json::from_str(&json).expect("parse");
    assert_eq!(parsed["overall"], "pass");
    let steps = parsed["steps"].as_array().expect("array");
    assert_eq!(steps.len(), 3);
    assert_eq!(steps[2]["status"], "skip");
}
