use sala_devtools::devcontainer_doctor::{
    compute_verdict, format_json_report, format_text_report, interpret_capabilities,
    interpret_devcontainer_config, interpret_docker_preflight, interpret_tala_health,
    interpret_workspace_status, CheckResult, CheckStatus, PrefightData, StatusData, Verdict,
};
use sala_devtools::platform::Platform;

#[test]
fn test_tala_healthy() {
    let result = interpret_tala_health(Ok(("0.1.0".to_string(), true)), "/tmp/tala.sock");
    assert_eq!(result.status, CheckStatus::Okay);
    assert!(result.message.contains("0.1.0"));
    assert!(result.suggestion.is_none());
}

#[test]
fn test_tala_unhealthy() {
    let result = interpret_tala_health(Ok(("0.1.0".to_string(), false)), "/tmp/tala.sock");
    assert_eq!(result.status, CheckStatus::Error);
    assert!(result.suggestion.is_some());
}

#[test]
fn test_tala_unreachable() {
    let result = interpret_tala_health(
        Err("connection refused".to_string()),
        "/tmp/tala.sock",
    );
    assert_eq!(result.status, CheckStatus::Error);
    assert!(result.message.contains("not reachable"));
    let suggestion = result.suggestion.as_ref().expect("should have suggestion");
    assert!(suggestion.contains("cargo run"));
}

#[test]
fn test_config_found() {
    let ws = String::from("/workspace/project");
    let config = Some(String::from(
        "/workspace/project/.devcontainer/devcontainer.json",
    ));
    let result = interpret_devcontainer_config(Platform::Unix, &ws, config);
    assert_eq!(result.status, CheckStatus::Okay);
    assert!(result.message.contains("devcontainer.json"));
}

#[test]
fn test_config_not_found() {
    let ws = String::from("/workspace/project");
    let result = interpret_devcontainer_config(Platform::Unix, &ws, None);
    assert_eq!(result.status, CheckStatus::Warn);
    assert!(result.suggestion.is_some());
}

#[test]
fn test_docker_ok_via_tala() {
    let data = PrefightData {
        docker_available: true,
        docker_permissions_ok: true,
        error_message: String::new(),
    };
    let result = interpret_docker_preflight(Some(Ok(data)), None);
    assert_eq!(result.status, CheckStatus::Okay);
}

#[test]
fn test_docker_no_permissions() {
    let data = PrefightData {
        docker_available: true,
        docker_permissions_ok: false,
        error_message: "permission denied".to_string(),
    };
    let result = interpret_docker_preflight(Some(Ok(data)), None);
    assert_eq!(result.status, CheckStatus::Error);
    assert!(result.suggestion.as_ref().expect("should have suggestion").contains("docker group"));
}

#[test]
fn test_docker_unavailable() {
    let data = PrefightData {
        docker_available: false,
        docker_permissions_ok: false,
        error_message: "Cannot connect to Docker daemon".to_string(),
    };
    let result = interpret_docker_preflight(Some(Ok(data)), None);
    assert_eq!(result.status, CheckStatus::Error);
}

#[test]
fn test_docker_direct_fallback_ok() {
    let result = interpret_docker_preflight(None, Some(true));
    assert_eq!(result.status, CheckStatus::Okay);
    assert!(result.message.contains("direct check"));
}

#[test]
fn test_docker_direct_fallback_fail() {
    let result = interpret_docker_preflight(None, Some(false));
    assert_eq!(result.status, CheckStatus::Error);
}

#[test]
fn test_container_running() {
    let data = StatusData {
        container_id: "abc123def456789".to_string(),
        status: "running".to_string(),
        running: true,
    };
    let (result, cid) = interpret_workspace_status(Some(Ok(data)));
    assert_eq!(result.status, CheckStatus::Okay);
    assert!(result.message.contains("abc123def456"));
    assert_eq!(cid.as_deref(), Some("abc123def456789"));
}

#[test]
fn test_container_stopped() {
    let data = StatusData {
        container_id: "abc123".to_string(),
        status: "exited".to_string(),
        running: false,
    };
    let (result, cid) = interpret_workspace_status(Some(Ok(data)));
    assert_eq!(result.status, CheckStatus::Warn);
    assert!(result.message.contains("not running"));
    assert!(cid.is_none());
}

#[test]
fn test_no_container() {
    let data = StatusData {
        container_id: String::new(),
        status: String::new(),
        running: false,
    };
    let (result, cid) = interpret_workspace_status(Some(Ok(data)));
    assert_eq!(result.status, CheckStatus::Warn);
    assert!(result.message.contains("No DevContainer"));
    assert!(cid.is_none());
}

#[test]
fn test_status_skipped() {
    let (result, cid) = interpret_workspace_status(None);
    assert_eq!(result.status, CheckStatus::Skip);
    assert!(cid.is_none());
}

#[test]
fn test_all_capabilities_ok() {
    let result = interpret_capabilities(Some("abc123"), Some((true, true, true)));
    assert_eq!(result.status, CheckStatus::Okay);
    assert!(result.message.contains("terminal=OK"));
}

#[test]
fn test_some_capabilities_fail() {
    let result = interpret_capabilities(Some("abc123"), Some((true, false, false)));
    assert_eq!(result.status, CheckStatus::Warn);
    assert!(result.message.contains("rust_lsp=FAIL"));
    assert!(result.message.contains("py_lsp=FAIL"));
    let suggestion = result.suggestion.as_ref().expect("should have suggestion");
    assert!(suggestion.contains("rust-analyzer"));
    assert!(suggestion.contains("pyright"));
}

#[test]
fn test_capabilities_skipped_no_container() {
    let result = interpret_capabilities(None, None);
    assert_eq!(result.status, CheckStatus::Skip);
}

#[test]
fn test_verdict_healthy() {
    let checks = vec![
        CheckResult {
            name: "A".to_string(),
            status: CheckStatus::Okay,
            message: String::new(),
            suggestion: None,
            details: None,
        },
        CheckResult {
            name: "B".to_string(),
            status: CheckStatus::Skip,
            message: String::new(),
            suggestion: None,
            details: None,
        },
    ];
    assert_eq!(compute_verdict(&checks), Verdict::Healthy);
}

#[test]
fn test_verdict_degraded() {
    let checks = vec![
        CheckResult {
            name: "A".to_string(),
            status: CheckStatus::Okay,
            message: String::new(),
            suggestion: None,
            details: None,
        },
        CheckResult {
            name: "B".to_string(),
            status: CheckStatus::Warn,
            message: String::new(),
            suggestion: None,
            details: None,
        },
    ];
    assert_eq!(compute_verdict(&checks), Verdict::Degraded);
}

#[test]
fn test_verdict_broken() {
    let checks = vec![
        CheckResult {
            name: "A".to_string(),
            status: CheckStatus::Error,
            message: String::new(),
            suggestion: None,
            details: None,
        },
        CheckResult {
            name: "B".to_string(),
            status: CheckStatus::Warn,
            message: String::new(),
            suggestion: None,
            details: None,
        },
    ];
    assert_eq!(compute_verdict(&checks), Verdict::Broken);
}

#[test]
fn test_text_report_format() {
    let checks = vec![
        CheckResult {
            name: "Tala daemon".to_string(),
            status: CheckStatus::Okay,
            message: "Tala daemon reachable at /tmp/tala.sock (version 0.1.0)".to_string(),
            suggestion: None,
            details: None,
        },
        CheckResult {
            name: "Docker".to_string(),
            status: CheckStatus::Warn,
            message: "Docker running but no container".to_string(),
            suggestion: Some("Run Flow 1 build.".to_string()),
            details: None,
        },
    ];
    let report = format_text_report(
        "/workspace/test",
        &checks,
        Verdict::Degraded,
        false,
        false,
    );
    assert!(report.contains("[OK]"));
    assert!(report.contains("[WARN]"));
    assert!(report.contains("Run Flow 1 build."));
    assert!(report.contains("DEGRADED"));
}

#[test]
fn test_json_report_format() {
    let checks = vec![
        CheckResult {
            name: "Tala daemon".to_string(),
            status: CheckStatus::Okay,
            message: "ok".to_string(),
            suggestion: None,
            details: None,
        },
        CheckResult {
            name: "Docker".to_string(),
            status: CheckStatus::Error,
            message: "down".to_string(),
            suggestion: Some("start docker".to_string()),
            details: None,
        },
    ];
    let json_str = format_json_report(
        "/workspace/test",
        &checks,
        Verdict::Broken,
    );
    let parsed: serde_json::Value = serde_json::from_str(&json_str).expect("valid JSON");
    assert_eq!(parsed["overall_status"], "BROKEN");
    assert_eq!(parsed["workspace"], "/workspace/test");
    let arr = parsed["checks"].as_array().expect("checks array");
    assert_eq!(arr.len(), 2);
    assert_eq!(arr[0]["status"], "OK");
    assert_eq!(arr[1]["status"], "ERROR");
    assert_eq!(arr[1]["suggestion"], "start docker");
}
