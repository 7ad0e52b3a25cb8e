use sala_devtools::devcontainer_hud::{DevContainerHud, DevContainerPhase};
use sala_devtools::devcontainer_status::{
    capability_colored, format_colored_table, phase_colored, RED,
};

#[test]
fn test_format_colored_table_empty() {
    let hud = DevContainerHud::new();
    let output = format_colored_table(&hud, false);
    assert_eq!(output, "No running DevContainers found.");
}

#[test]
fn test_format_colored_table_with_entries() {
    let mut hud = DevContainerHud::new();
    let ws = String::from("/workspace/my-project");

    hud.on_preflight_started(ws.clone(), "my-project".to_string());
    hud.on_container_started(&ws, "abc123def456789".to_string());
    hud.on_terminal_smoke_result(&ws, true);
    hud.on_lsp_rust_result(&ws, true);
    hud.on_lsp_python_result(&ws, false);

    let output = format_colored_table(&hud, false);
    assert!(output.contains("Workspace"));
    assert!(output.contains("Phase"));
    assert!(output.contains("Running"));
    assert!(output.contains("abc123def456"));
    assert!(output.contains("OK"));
}

#[test]
fn test_format_colored_table_with_color() {
    let mut hud = DevContainerHud::new();
    let ws = String::from("/workspace/colored-test");

    hud.on_preflight_started(ws.clone(), "colored-test".to_string());
    hud.on_container_started(&ws, "abc123".to_string());
    hud.on_terminal_smoke_result(&ws, true);

    let output = format_colored_table(&hud, true);
    // Should contain ANSI escape codes
    assert!(output.contains("\x1b["));
    assert!(output.contains("Running"));
}

#[test]
fn test_phase_colored_no_color() {
    let phase = DevContainerPhase::Running {
        started_at: std::time::Instant::now(),
    };
    assert_eq!(phase_colored(&phase, false), "Running");
}

#[test]
fn test_phase_colored_with_color() {
    let phase = DevContainerPhase::Error {
        at: std::time::Instant::now(),
        message: "fail".to_string(),
    };
    let colored = phase_colored(&phase, true);
    assert!(colored.contains(RED));
    assert!(colored.contains("Error"));
}

#[test]
fn test_capability_colored() {
    assert_eq!(capability_colored(true, false), "OK");
    assert_eq!(capability_colored(false, false), "\u{2014}");
    assert!(capability_colored(true, true).contains("\x1b[32m"));
    assert!(capability_colored(false, true).contains("\x1b[31m"));
}
