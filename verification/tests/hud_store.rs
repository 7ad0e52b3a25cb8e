use sala_devtools::devcontainer_hud::{
    DevContainerCapabilities, DevContainerHud, DevContainerHudEvent, DevContainerPhase,
};

fn test_workspace() -> String {
    String::from("/workspace/test-project")
}

#[test]
fn test_happy_path_full_lifecycle() {
    let mut hud = DevContainerHud::new();
    let ws = test_workspace();

    // Initially no entry
    assert!(hud.status(&ws).is_none());

    // Preflight
    hud.on_preflight_started(ws.clone(), "test-project".to_string());
    let status = hud.status(&ws).expect("workspace should be tracked");
    assert!(status.phase.is_preflight());
    assert_eq!(status.project_name, "test-project");

    // Build progress
    hud.on_build_progress(&ws, 20, "Pulling image".to_string());
    let status = hud.status(&ws).expect("workspace should be tracked");
    assert!(status.phase.is_building());
    if let DevContainerPhase::Building {
        progress, message, ..
    } = &status.phase
    {
        assert_eq!(*progress, 20);
        assert_eq!(message, "Pulling image");
    }

    hud.on_build_progress(&ws, 80, "Starting container".to_string());
    if let DevContainerPhase::Building { progress, .. } =
        &hud.status(&ws).expect("workspace should be tracked").phase
    {
        assert_eq!(*progress, 80);
    }

    // Container started
    hud.on_container_started(&ws, "abc123def456".to_string());
    let status = hud.status(&ws).expect("workspace should be tracked");
    assert!(status.phase.is_running());
    assert_eq!(status.container_id.as_deref(), Some("abc123def456"));
    assert_eq!(status.capabilities, DevContainerCapabilities::default());

    // Terminal OK
    hud.on_terminal_smoke_result(&ws, true);
    assert!(
        hud.status(&ws)
            .expect("workspace should be tracked")
            .capabilities
            .terminal_ok
    );

    // LSP Rust OK
    hud.on_lsp_rust_result(&ws, true);
    assert!(
        hud.status(&ws)
            .expect("workspace should be tracked")
            .capabilities
            .lsp_rust_ok
    );

    // LSP Python OK
    hud.on_lsp_python_result(&ws, true);
    let status = hud.status(&ws).expect("workspace should be tracked");
    assert!(status.capabilities.lsp_python_ok);
    assert!(status.phase.is_running());
}

#[test]
fn test_error_during_build() {
    let mut hud = DevContainerHud::new();
    let ws = test_workspace();

    hud.on_preflight_started(ws.clone(), "test-project".to_string());
    hud.on_build_progress(&ws, 10, "Parsing config".to_string());

    hud.on_error(&ws, "Docker build failed: OOM".to_string());

    let status = hud.status(&ws).expect("workspace should be tracked");
    assert!(status.phase.is_error());
    if let DevContainerPhase::Error { message, .. } = &status.phase {
        assert_eq!(message, "Docker build failed: OOM");
    } else {
        panic!("expected Error phase");
    }
}

#[test]
fn test_capability_failures_while_running() {
    let mut hud = DevContainerHud::new();
    let ws = test_workspace();

    hud.on_preflight_started(ws.clone(), "test-project".to_string());
    hud.on_build_progress(&ws, 100, "Done".to_string());
    hud.on_container_started(&ws, "abc123".to_string());

    // Terminal fails
    hud.on_terminal_smoke_result(&ws, false);
    let status = hud.status(&ws).expect("workspace should be tracked");
    assert!(status.phase.is_running(), "phase stays Running");
    assert!(!status.capabilities.terminal_ok);

    // LSP Rust fails
    hud.on_lsp_rust_result(&ws, false);
    let status = hud.status(&ws).expect("workspace should be tracked");
    assert!(status.phase.is_running());
    assert!(!status.capabilities.lsp_rust_ok);

    // LSP Python OK
    hud.on_lsp_python_result(&ws, true);
    let status = hud.status(&ws).expect("workspace should be tracked");
    assert!(status.phase.is_running());
    assert!(status.capabilities.lsp_python_ok);
}

#[test]
fn test_events_are_emitted_and_drained() {
    let mut hud = DevContainerHud::new();
    let ws = test_workspace();

    hud.on_preflight_started(ws.clone(), "test-project".to_string());
    hud.on_build_progress(&ws, 50, "building".to_string());
    hud.on_container_started(&ws, "abc".to_string());
    hud.on_terminal_smoke_result(&ws, true);

    let events = hud.drain_events();
    assert_eq!(events.len(), 4);

    // Verify event types
    assert!(matches!(
        &events[0],
        DevContainerHudEvent::PhaseChanged { phase_label, .. } if phase_label == "Preflight"
    ));
    assert!(matches!(
        &events[1],
        DevContainerHudEvent::PhaseChanged { phase_label, .. } if phase_label == "Building"
    ));
    assert!(matches!(
        &events[2],
        DevContainerHudEvent::PhaseChanged { phase_label, .. } if phase_label == "Running"
    ));
    assert!(matches!(
        &events[3],
        DevContainerHudEvent::CapabilityUpdated { capability, value, .. }
            if capability == "terminal" && *value
    ));

    // Drain again should be empty
    assert!(hud.drain_events().is_empty());
}

#[test]
fn test_multiple_workspaces() {
    let mut hud = DevContainerHud::new();
    let ws1 = String::from("/workspace/project-a");
    let ws2 = String::from("/workspace/project-b");

    hud.on_preflight_started(ws1.clone(), "project-a".to_string());
    hud.on_preflight_started(ws2.clone(), "project-b".to_string());

    hud.on_build_progress(&ws1, 50, "building A".to_string());
    hud.on_container_started(&ws1, "aaa".to_string());

    // ws1 is Running, ws2 still in Preflight
    assert!(
        hud.status(&ws1)
            .expect("ws1 should be tracked")
            .phase
            .is_running()
    );
    assert!(
        hud.status(&ws2)
            .expect("ws2 should be tracked")
            .phase
            .is_preflight()
    );
    assert_eq!(hud.all_statuses().len(), 2);
}

#[test]
fn test_build_preserves_started_at() {
    let mut hud = DevContainerHud::new();
    let ws = test_workspace();

    hud.on_preflight_started(ws.clone(), "test-project".to_string());
    hud.on_build_progress(&ws, 10, "step 1".to_string());

    let started_at_1 = match &hud
        .status(&ws)
        .expect("workspace should be tracked")
        .phase
    {
        DevContainerPhase::Building { started_at, .. } => *started_at,
        other => panic!("expected Building, got {:?}", other.label()),
    };

    // Second progress update should preserve started_at
    hud.on_build_progress(&ws, 50, "step 2".to_string());
    let started_at_2 = match &hud
        .status(&ws)
        .expect("workspace should be tracked")
        .phase
    {
        DevContainerPhase::Building { started_at, .. } => *started_at,
        other => panic!("expected Building, got {:?}", other.label()),
    };

    assert_eq!(started_at_1, started_at_2);
}

#[test]
fn test_remove_workspace() {
    let mut hud = DevContainerHud::new();
    let ws = test_workspace();

    hud.on_preflight_started(ws.clone(), "test-project".to_string());
    assert!(hud.status(&ws).is_some());

    hud.remove_workspace(&ws);
    assert!(hud.status(&ws).is_none());
}

#[test]
fn test_format_status_table_empty() {
    let hud = DevContainerHud::new();
    assert_eq!(hud.format_status_table(), "No tracked workspaces.");
}

#[test]
fn test_format_status_table_with_entries() {
    let mut hud = DevContainerHud::new();
    let ws = test_workspace();

    hud.on_preflight_started(ws.clone(), "test-project".to_string());
    hud.on_container_started(&ws, "abc123def456789".to_string());
    hud.on_terminal_smoke_result(&ws, true);
    hud.on_lsp_rust_result(&ws, true);

    let table = hud.format_status_table();
    assert!(table.contains("Running"));
    assert!(table.contains("abc123def456")); // truncated to 12
    assert!(table.contains("OK"));
}

#[test]
fn test_error_without_prior_preflight() {
    let mut hud = DevContainerHud::new();
    let ws = test_workspace();

    // on_error auto-creates the workspace entry
    hud.on_error(&ws, "Connection failed".to_string());

    let status = hud.status(&ws).expect("workspace should be auto-created");
    assert!(status.phase.is_error());
    if let DevContainerPhase::Error { message, .. } = &status.phase {
        assert_eq!(message, "Connection failed");
    } else {
        panic!("expected Error phase");
    }
}

#[test]
fn test_container_started_resets_capabilities() {
    let mut hud = DevContainerHud::new();
    let ws = test_workspace();

    hud.on_preflight_started(ws.clone(), "test-project".to_string());
    hud.on_container_started(&ws, "first-container".to_string());
    hud.on_terminal_smoke_result(&ws, true);
    hud.on_lsp_rust_result(&ws, true);

    // Verify capabilities are set
    let status = hud.status(&ws).expect("workspace should be tracked");
    assert!(status.capabilities.terminal_ok);
    assert!(status.capabilities.lsp_rust_ok);

    // New container replaces the old one and resets capabilities
    hud.on_container_started(&ws, "second-container".to_string());
    let status = hud.status(&ws).expect("workspace should be tracked");
    assert_eq!(status.container_id.as_deref(), Some("second-container"));
    assert_eq!(status.capabilities, DevContainerCapabilities::default());
}

#[test]
fn test_format_status_json() {
    let mut hud = DevContainerHud::new();
    let ws = test_workspace();

    hud.on_preflight_started(ws.clone(), "test-project".to_string());
    hud.on_container_started(&ws, "abc123def456".to_string());
    hud.on_terminal_smoke_result(&ws, true);
    hud.on_lsp_rust_result(&ws, true);
    hud.on_lsp_python_result(&ws, false);

    let json_str = hud.format_status_json().expect("json serialization should succeed");
    let parsed: serde_json::Value =
        serde_json::from_str(&json_str).expect("should be valid JSON");

    let arr = parsed.as_array().expect("root should be an array");
    assert_eq!(arr.len(), 1);

    let entry = &arr[0];
    assert_eq!(entry["project_name"], "test-project");
    assert_eq!(entry["container_id"], "abc123def456");
    assert_eq!(entry["phase"]["phase"], "Running");
    assert_eq!(entry["capabilities"]["terminal_ok"], true);
    assert_eq!(entry["capabilities"]["lsp_rust_ok"], true);
    assert_eq!(entry["capabilities"]["lsp_python_ok"], false);
}

#[test]
fn test_format_status_json_empty() {
    let hud = DevContainerHud::new();
    let json_str = hud.format_status_json().expect("json serialization should succeed");
    assert_eq!(json_str, "[]");
}
