use sala_devtools::devcontainer_hud::{
    DevContainerCapabilities, DevContainerHud, DevContainerHudEvent, DevContainerPhase, LogLine,
};
use sala_devtools::devcontainer_status::{
    begin, format_colored_table, is_shown, phase_colored, record_container, DiscoveredContainer,
    StatusEvent, StatusRun, StatusStage,
};
use sala_devtools::platform::Platform;
use std::time::Instant;

#[test]
fn spellings_of_one_workspace_share_a_state() {
    let mut hud = DevContainerHud::new();
    hud.on_container_started("/workspace//a/", "c1".to_string());
    hud.on_terminal_smoke_result("/workspace/a", true);
    assert_eq!(hud.all_statuses().len(), 1);
    let status = hud.status("/workspace/./a").expect("tracked");
    assert_eq!(status.workspace_root, "/workspace//a/");
    assert_eq!(status.project_name, "a");
    assert!(status.capabilities.terminal_ok);
    hud.remove_workspace("/workspace/a/.");
    assert!(hud.all_statuses().is_empty());
    hud.remove_workspace("/workspace/a");
}

#[test]
fn a_store_reads_paths_as_its_platform_does() {
    assert_eq!(DevContainerHud::new().platform(), Platform::Unix);
    let mut hud = DevContainerHud::with_platform(Platform::Windows);
    assert_eq!(hud.platform(), Platform::Windows);
    hud.on_container_started(r"C:\ws\proj", "c1".to_string());
    hud.on_lsp_rust_result("c:/ws/proj/", true);
    assert_eq!(hud.all_statuses().len(), 1);
    let status = hud.status(r"C:\ws\\proj").expect("tracked");
    assert_eq!(status.project_name, "proj");
    assert!(status.capabilities.lsp_rust_ok);
    assert!(hud.status(r"C:\WS\proj").is_none());
}

fn logged(hud: &mut DevContainerHud) -> Vec<String> {
    hud.drain_logs()
        .into_iter()
        .map(|line| match line {
            LogLine::Info(s) => format!("info {s}"),
            LogLine::Error(s) => format!("error {s}"),
        })
        .collect()
}

#[test]
fn transitions_are_logged() {
    let mut hud = DevContainerHud::new();
    hud.on_preflight_started("/w".to_string(), "p".to_string());
    hud.on_build_progress("/w", 20, "Pulling".to_string());
    hud.on_container_started("/w", "c1".to_string());
    hud.on_terminal_smoke_result("/w", true);
    hud.on_lsp_rust_result("/w", false);
    hud.on_lsp_python_result("/w", true);
    hud.on_error("/w", "gone".to_string());
    hud.remove_workspace("/w/");
    hud.remove_workspace("/w");
    assert_eq!(
        logged(&mut hud),
        vec![
            "info [HUD] workspace=/w phase=Preflight project=p",
            "info [HUD] workspace=/w phase=Building progress=20 message=\"Pulling\"",
            "info [HUD] workspace=/w phase=Running container_id=c1",
            "info [HUD] workspace=/w capability=terminal ok=true",
            "info [HUD] workspace=/w capability=lsp_rust ok=false",
            "info [HUD] workspace=/w capability=lsp_python ok=true",
            "error [HUD] workspace=/w phase=Error message=\"gone\"",
            "info [HUD] workspace=/w/ removed from tracking",
        ]
    );
    assert!(logged(&mut hud).is_empty());
    assert_eq!(hud.drain_events().len(), 7);
}

#[test]
fn other_workspaces_are_left_alone() {
    let mut hud = DevContainerHud::new();
    hud.on_container_started("/a", "one".to_string());
    hud.on_container_started("/b", "two".to_string());
    hud.on_error("/a", "lost".to_string());
    hud.remove_workspace("/a");
    let b = hud.status("/b").expect("tracked");
    assert_eq!(b.container_id.as_deref(), Some("two"));
    assert!(b.phase.is_running());
    assert!(hud.status("/a").is_none());
}

#[test]
fn events_tell_each_transition_once() {
    let mut hud = DevContainerHud::new();
    hud.on_lsp_rust_result("/a", false);
    hud.on_lsp_python_result("/a", true);
    hud.on_error("/a", "lost".to_string());
    hud.remove_workspace("/a");
    let events = hud.drain_events();
    assert_eq!(events.len(), 3);
    assert!(matches!(&events[0], DevContainerHudEvent::CapabilityUpdated { workspace, capability, value }
        if workspace == "/a" && capability == "lsp_rust" && !*value));
    assert!(matches!(&events[1], DevContainerHudEvent::CapabilityUpdated { capability, value, .. }
        if capability == "lsp_python" && *value));
    assert!(matches!(&events[2], DevContainerHudEvent::PhaseChanged { phase_label, .. }
        if phase_label == "Error"));
    assert!(hud.drain_events().is_empty());
}

#[test]
fn times_are_kept() {
    let mut hud = DevContainerHud::new();
    let first = Instant::now();
    let second = Instant::now();
    hud.build_progress_at("/a", 1, "x".to_string(), first);
    hud.build_progress_at("/a", 2, "y".to_string(), second);
    match &hud.status("/a").expect("tracked").phase {
        DevContainerPhase::Building { started_at, progress, .. } => {
            assert_eq!(*started_at, first);
            assert_eq!(*progress, 2);
        }
        other => panic!("{}", other.label()),
    }
    hud.container_started_at("/a", "c".to_string(), second);
    hud.error_at("/a", "e".to_string(), second);
    hud.preflight_started_at("/a".to_string(), "p".to_string(), second);
    assert_eq!(hud.status("/a").expect("tracked").project_name, "p");
    assert_eq!(hud.drain_events().len(), 5);
}

#[test]
fn the_clock_is_read() {
    let before = Instant::now();
    let mut hud = DevContainerHud::new();
    hud.on_container_started("/a", "c".to_string());
    match &hud.status("/a").expect("tracked").phase {
        DevContainerPhase::Running { started_at } => assert!(*started_at >= before),
        other => panic!("{}", other.label()),
    }
}

#[test]
fn copies_are_the_same() {
    let mut hud = DevContainerHud::new();
    hud.on_build_progress("/a", 3, "m".to_string());
    let copy = hud.status("/a").expect("tracked").clone();
    assert_eq!(copy.workspace_root, "/a");
    assert!(matches!(copy.phase.clone(), DevContainerPhase::Building { progress: 3, .. }));
    assert_eq!(copy.capabilities.clone(), DevContainerCapabilities::default());
    let event = hud.drain_events()[0].clone();
    assert!(matches!(event, DevContainerHudEvent::PhaseChanged { .. }));
}

#[test]
fn rows_are_padded() {
    let mut hud = DevContainerHud::new();
    hud.on_container_started("/w", "abc123def456789".to_string());
    hud.on_lsp_rust_result("/w", true);
    let table = hud.format_status_table();
    let rows: Vec<&str> = table.split('\n').collect();
    assert_eq!(rows.len(), 3);
    assert_eq!(
        rows[0],
        format!("{:<40} {:<12} {:<14} {:<5} {:<5} {:<5}", "Workspace", "Phase", "Container", "Term", "Rust", "Py")
    );
    assert_eq!(rows[1], "-".repeat(85));
    assert_eq!(
        rows[2],
        format!("{:<40} {:<12} {:<14} {:<5} {:<5} {:<5}", "/w", "Running", "abc123def456", "\u{2014}", "OK", "\u{2014}")
    );
}

#[test]
fn coloured_rows_are_padded_without_their_colours() {
    let mut hud = DevContainerHud::new();
    hud.on_error("/w", "e".to_string());
    let table = format_colored_table(&hud, true);
    let rows: Vec<&str> = table.split('\n').collect();
    assert!(rows[0].starts_with("\u{1b}[1mWorkspace"));
    assert_eq!(rows[1], format!("\u{1b}[36m{}\u{1b}[0m", "\u{2500}".repeat(85)));
    assert_eq!(
        rows[2],
        format!(
            "{:<40} \u{1b}[31mError\u{1b}[0m{:>7} {:<14} {} {} {}",
            "/w",
            "",
            "\u{2014}",
            "\u{1b}[31m\u{2014}\u{1b}[0m",
            "\u{1b}[31m\u{2014}\u{1b}[0m",
            "\u{1b}[31m\u{2014}\u{1b}[0m"
        )
    );
    let plain = format_colored_table(&hud, false);
    assert_eq!(
        plain.split('\n').nth(2).expect("row"),
        format!("{:<40} {:<12} {:<14} {:<5} {:<5} {:<5}", "/w", "Error", "\u{2014}", "\u{2014}", "\u{2014}", "\u{2014}")
    );
}

#[test]
fn phases_have_colours() {
    assert_eq!(phase_colored(&DevContainerPhase::Idle, true), "Idle");
    let preflight = DevContainerPhase::Preflight { started_at: Instant::now() };
    assert_eq!(phase_colored(&preflight, true), "\u{1b}[33mPreflight\u{1b}[0m");
    let building = DevContainerPhase::Building {
        started_at: Instant::now(),
        progress: 0,
        message: String::new(),
    };
    assert_eq!(phase_colored(&building, true), "\u{1b}[33mBuilding\u{1b}[0m");
    let running = DevContainerPhase::Running { started_at: Instant::now() };
    assert_eq!(phase_colored(&running, true), "\u{1b}[32mRunning\u{1b}[0m");
    assert!(DevContainerPhase::Idle.is_idle());
}

#[test]
fn states_as_json() {
    let mut hud = DevContainerHud::new();
    hud.on_build_progress("/a", 7, "layers".to_string());
    hud.on_error("/b", "lost".to_string());
    let shown = hud.format_status_json().expect("JSON");
    let parsed: serde_json::Value = serde_json::from_str(&shown).expect("JSON");
    assert_eq!(parsed[0]["workspace_root"], "/a");
    assert_eq!(parsed[0]["container_id"], serde_json::Value::Null);
    assert_eq!(parsed[0]["phase"]["phase"], "Building");
    assert_eq!(parsed[0]["phase"]["progress"], 7);
    assert_eq!(parsed[0]["phase"]["message"], "layers");
    assert!(parsed[0]["phase"].get("started_at").is_none());
    assert_eq!(parsed[1]["phase"]["phase"], "Error");
    assert_eq!(parsed[1]["phase"]["message"], "lost");
    let keys: Vec<&String> = parsed[0].as_object().expect("object").keys().collect();
    assert_eq!(keys, vec!["workspace_root", "project_name", "container_id", "phase", "capabilities"]);
}

#[test]
fn found_containers_are_recorded() {
    let mut hud = DevContainerHud::new();
    let container = DiscoveredContainer {
        id: "c1".to_string(),
        workspace_folder: "/workspace/a".to_string(),
    };
    record_container(&mut hud, &container, (true, false, true), Instant::now());
    let status = hud.status("/workspace/a").expect("tracked");
    assert_eq!(status.project_name, "a");
    assert_eq!(status.container_id.as_deref(), Some("c1"));
    assert!(status.phase.is_running());
    assert!(status.capabilities.terminal_ok);
    assert!(!status.capabilities.lsp_rust_ok);
    assert!(status.capabilities.lsp_python_ok);
    assert!(is_shown(Platform::Unix, &container, &None));
    assert!(is_shown(Platform::Unix, &container, &Some("/workspace/a/".to_string())));
    assert!(!is_shown(Platform::Unix, &container, &Some("/workspace/b".to_string())));
}

fn listed(stdout: &str) -> StatusEvent {
    StatusEvent::Listed { success: true, stdout: stdout.as_bytes().to_vec(), stderr: Vec::new() }
}

fn inspected(success: bool, stdout: &str) -> StatusEvent {
    StatusEvent::Inspected { success, stdout: stdout.as_bytes().to_vec() }
}

fn drive(filter: Option<&str>, events: Vec<StatusEvent>) -> StatusRun {
    let mut run = begin(Platform::Unix, filter.map(|s| s.to_string()));
    for event in events {
        run = run.step(event, Instant::now());
    }
    run
}

#[test]
fn listed_containers_are_asked_and_looked_at() {
    let run = drive(None, vec![listed("c1\nc2\nc3\n")]);
    assert!(matches!(run.stage(), StatusStage::Inspect { id } if id == "c1"));
    let run = run.step(inspected(true, "/workspace/a\n"), Instant::now());
    let run = run.step(inspected(false, "/workspace/x\n"), Instant::now());
    let run = run.step(inspected(true, "\n"), Instant::now());
    assert!(matches!(run.stage(), StatusStage::Probe { id } if id == "c1"));
    let run = run.step(StatusEvent::Probed(true, false, true), Instant::now());
    assert!(matches!(run.stage(), StatusStage::Show));
    assert_eq!(run.hud().all_statuses().len(), 1);
    assert_eq!(run.hud().all_statuses()[0].project_name, "a");
    let mut run = run;
    assert_eq!(run.drain_logs().len(), 5);
    assert!(run.drain_logs().is_empty());
}

#[test]
fn only_the_named_workspace_is_shown() {
    let run = drive(
        Some("/workspace/b/"),
        vec![
            listed("c1\nc2\n"),
            inspected(true, "/workspace/a"),
            inspected(true, "/workspace/b"),
            StatusEvent::Probed(true, true, true),
        ],
    );
    assert!(matches!(run.stage(), StatusStage::Show));
    assert_eq!(run.hud().all_statuses().len(), 1);
    assert_eq!(run.hud().all_statuses()[0].container_id.as_deref(), Some("c2"));
}

#[test]
fn the_last_container_of_a_workspace_counts() {
    let run = drive(
        None,
        vec![
            listed("c1\nc2"),
            inspected(true, "/w"),
            inspected(true, "/w"),
            StatusEvent::Probed(true, true, true),
            StatusEvent::Probed(false, false, false),
        ],
    );
    assert_eq!(run.hud().all_statuses().len(), 1);
    let status = run.hud().status("/w").expect("tracked");
    assert_eq!(status.container_id.as_deref(), Some("c2"));
    assert_eq!(status.capabilities, DevContainerCapabilities::default());
}

#[test]
fn docker_that_does_not_list_is_an_error() {
    let failed = StatusEvent::Listed {
        success: false,
        stdout: Vec::new(),
        stderr: b"no daemon".to_vec(),
    };
    let run = drive(None, vec![failed]);
    assert!(matches!(run.stage(), StatusStage::Fail(m) if m == "docker ps failed: no daemon"));
    let run = drive(None, vec![listed("")]);
    assert!(matches!(run.stage(), StatusStage::Show));
    let run = drive(None, vec![StatusEvent::Probed(true, true, true)]);
    assert!(matches!(run.stage(), StatusStage::List));
}
