use sala_devtools::build_progress::{BuildProgress, BuildStep, Stage};
use sala_devtools::container_lsp::{buffers_of, container_servers};
use sala_devtools::devcontainer_doctor::PrefightData;
use sala_devtools::devcontainer_hud::DevContainerPhase;
use sala_devtools::platform::Platform;
use sala_devtools::panel_course::{
    follow_step, opening_step, FollowEvent, FollowStage, OpeningEvent, OpeningStage, ServerChange,
};
use sala_devtools::panel::{
    panel_address, ConnectionStatus, DaemonAnswer, DevContainerState, SalaHud, Section, Tone,
};
use std::time::Instant;

const WS: &str = "/workspace/proj";

fn panel() -> SalaHud {
    SalaHud::new(Platform::Unix, Some(WS.to_string()))
}

fn config() -> Option<String> {
    Some("/workspace/proj/.devcontainer/devcontainer.json".to_string())
}

fn docker(available: bool, permissions: bool) -> Option<PrefightData> {
    Some(PrefightData {
        docker_available: available,
        docker_permissions_ok: permissions,
        error_message: String::new(),
    })
}

fn healthy() -> DaemonAnswer {
    DaemonAnswer::Health { version: "0.1.0".to_string(), healthy: true }
}

fn connected() -> SalaHud {
    let mut panel = panel();
    panel.on_daemon_reached(Instant::now());
    panel.on_daemon_answer(healthy(), config(), docker(true, true), Instant::now());
    panel
}

fn report(stage: Stage, percent: i32, message: &str, error: &str) -> BuildProgress {
    BuildProgress { stage, percent, message: message.to_string(), error: error.to_string() }
}

#[test]
fn test_sala_hud_attempts_tala_connection() {
    let mut panel = panel();
    assert!(
        matches!(panel.connection_status, ConnectionStatus::Connecting),
        "panel should start in Connecting state"
    );
    panel.on_daemon_answer(
        DaemonAnswer::Unreachable("no socket".to_string()),
        None,
        None,
        Instant::now(),
    );
    assert!(panel.connection_status.is_disconnected());
    let message = panel
        .connection_status
        .disconnected_message()
        .expect("should have a disconnect message");
    assert!(
        message.contains("Connection failed"),
        "expected 'Connection failed' in message, got: {message}"
    );
}

#[test]
fn test_sala_hud_detects_devcontainer_not_present() {
    let mut panel = SalaHud::new(Platform::Unix, None);
    panel.on_daemon_answer(
        DaemonAnswer::Unreachable("no socket".to_string()),
        None,
        None,
        Instant::now(),
    );
    assert!(
        matches!(panel.devcontainer_state, DevContainerState::NotDetected),
        "should not detect devcontainer when none exists"
    );
    assert!(!panel.preflight_passed, "preflight should not pass without daemon");
}

#[test]
fn connections_are_worded() {
    let mut panel = panel();
    assert_eq!(
        panel.connection_status.line(),
        ("Connecting to tais-devcontainerd daemon...".to_string(), Tone::Muted)
    );
    panel.on_daemon_answer(healthy(), None, None, Instant::now());
    assert_eq!(
        panel.connection_status.line(),
        ("Connected to tais-devcontainerd daemon v0.1.0".to_string(), Tone::Success)
    );
    assert!(panel.connection_status.disconnected_message().is_none());
    panel.on_daemon_answer(DaemonAnswer::Silent("x".to_string()), None, None, Instant::now());
    assert_eq!(
        panel.connection_status.line(),
        ("Not connected to tais-devcontainerd daemon: Health check failed: x".to_string(), Tone::Warning)
    );
}

#[test]
fn an_unhealthy_daemon_is_an_error_of_the_workspace() {
    let mut panel = panel();
    panel.on_daemon_reached(Instant::now());
    assert!(panel.hud.status(WS).expect("tracked").phase.is_preflight());
    let ill = DaemonAnswer::Health { version: "0.1.0".to_string(), healthy: false };
    panel.on_daemon_answer(ill, config(), docker(true, true), Instant::now());
    assert_eq!(panel.connection_status.disconnected_message(), Some("Daemon unhealthy"));
    assert!(!panel.preflight_passed);
    assert!(panel.hud.status(WS).expect("tracked").phase.is_error());
    assert!(matches!(panel.devcontainer_state, DevContainerState::Detected { .. }));
    assert!(panel.start_build(Instant::now()).is_none());
}

#[test]
fn preflight_is_asked_for_with_a_configuration() {
    assert!(panel().wants_preflight(&config()));
    assert!(!panel().wants_preflight(&None));
    assert!(!SalaHud::new(Platform::Unix, None).wants_preflight(&config()));
}

#[test]
fn the_offer_depends_on_docker() {
    let mut panel = panel();
    panel.on_daemon_answer(healthy(), config(), docker(true, false), Instant::now());
    match panel.section() {
        Section::Offer { label, docker_unavailable, tooltip } => {
            assert_eq!(label, "DevContainer detected: devcontainer.json");
            assert!(docker_unavailable);
            assert_eq!(tooltip, "Docker is not available or lacks permissions");
        }
        other => panic!("{other:?}"),
    }
    assert!(panel.start_build(Instant::now()).is_none());
    match connected().section() {
        Section::Offer { docker_unavailable, tooltip, .. } => {
            assert!(!docker_unavailable);
            assert_eq!(tooltip, "Build and open workspace in DevContainer");
        }
        other => panic!("{other:?}"),
    }
}

#[test]
fn a_build_is_asked_for_once() {
    let mut panel = connected();
    let request = panel.start_build(Instant::now()).expect("request");
    assert_eq!(request.workspace, WS);
    assert_eq!(Some(request.config_path), config());
    assert_eq!(request.project_name, "proj");
    match panel.section() {
        Section::Progress { label, percent, message } => {
            assert_eq!(label, "Building... 0%");
            assert_eq!(percent, 0);
            assert_eq!(message, "Starting build...");
        }
        other => panic!("{other:?}"),
    }
    assert!(panel.start_build(Instant::now()).is_none());
    assert!(!panel.auto_reopen);
}

#[test]
fn the_offer_can_be_taken_for_good() {
    let mut panel = connected();
    assert!(panel.always_reopen(Instant::now()).is_some());
    assert!(panel.auto_reopen);
}

#[test]
fn reports_are_followed() {
    let mut panel = connected();
    panel.start_build(Instant::now());
    let step = panel.on_build_report(
        WS,
        &report(Stage::Other("Pulling".to_string()), 45, "layers", ""),
        Instant::now(),
    );
    assert!(matches!(step, BuildStep::Wait));
    match &panel.hud.status(WS).expect("tracked").phase {
        DevContainerPhase::Building { progress, message, .. } => {
            assert_eq!(*progress, 45);
            assert_eq!(message, "layers");
        }
        other => panic!("{other:?}"),
    }
    let step = panel.on_build_report(
        WS,
        &report(Stage::Complete, 100, "Container ready: abc123def456789", ""),
        Instant::now(),
    );
    assert!(matches!(step, BuildStep::Ready(id) if id == "abc123def456789"));
    assert_eq!(panel.connected_container_id().as_deref(), Some("abc123def456789"));
    assert!(panel.hud.status(WS).expect("tracked").phase.is_running());
    match panel.section() {
        Section::Running { label, server_missing } => {
            assert_eq!(label, "Container started: abc123def456");
            assert!(!server_missing);
        }
        other => panic!("{other:?}"),
    }
}

#[test]
fn percentages_keep_eight_bits() {
    let mut panel = connected();
    for (percent, kept) in [(100, 100u8), (256, 0), (300, 44), (-1, 255)] {
        panel.on_build_report(
            WS,
            &report(Stage::Other("x".to_string()), percent, "m", ""),
            Instant::now(),
        );
        match &panel.hud.status(WS).expect("tracked").phase {
            DevContainerPhase::Building { progress, .. } => assert_eq!(*progress, kept),
            other => panic!("{other:?}"),
        }
    }
}

#[test]
fn failures_are_shown_and_recorded() {
    let mut panel = connected();
    let step = panel.on_build_report(WS, &report(Stage::Failed, 0, "m", "e"), Instant::now());
    assert!(matches!(step, BuildStep::Fail(m) if m == "e"));
    match panel.section() {
        Section::Failure { label, error } => {
            assert_eq!(label, "Container build failed");
            assert_eq!(error, "e");
        }
        other => panic!("{other:?}"),
    }
    assert!(panel.hud.status(WS).expect("tracked").phase.is_error());
    assert!(panel.connected_container_id().is_none());
}

#[test]
fn language_servers_are_registered_once() {
    let mut panel = connected();
    assert!(panel.register_container_lsp("c1", "proj", false).is_none());
    let (rust, python) = panel.register_container_lsp("c1", "proj", true).expect("adapters");
    assert_eq!(rust.server_name, "rust-analyzer");
    assert_eq!(python.server_name, "pyright");
    assert!(panel.register_container_lsp("c1", "proj", true).is_none());
    panel.on_rust_checked(WS, true);
    assert_eq!(panel.container_lsp_available, Some(true));
    assert!(panel.remove_container_lsp(false).is_none());
    let (first, second) = panel.remove_container_lsp(true).expect("servers");
    assert_eq!((first.language_name.as_str(), first.server_name.as_str()), ("Rust", "rust-analyzer"));
    assert_eq!((second.language_name.as_str(), second.server_name.as_str()), ("Python", "pyright"));
    assert_eq!(first.language_name, rust.language_name);
    assert_eq!(second.server_name, python.server().server_name);
    assert_eq!(panel.container_lsp_available, None);
    assert!(panel.remove_container_lsp(true).is_none());
    assert!(panel.register_container_lsp("c2", "proj", true).is_some());
}

#[test]
fn a_missing_server_is_warned_of() {
    let mut panel = connected();
    panel.on_build_report(WS, &report(Stage::Complete, 100, "abc", ""), Instant::now());
    panel.on_rust_checked(WS, false);
    panel.on_python_checked(WS, true);
    panel.on_terminal_checked(WS, true);
    assert!(matches!(panel.section(), Section::Running { server_missing: true, .. }));
    let caps = &panel.hud.status(WS).expect("tracked").capabilities;
    assert!(!caps.lsp_rust_ok && caps.lsp_python_ok && caps.terminal_ok);
}

#[test]
fn a_broken_stream_takes_the_servers_back() {
    let mut panel = connected();
    panel.register_container_lsp("c1", "proj", true);
    assert!(panel.on_build_broken(WS, "reset".to_string(), true, Instant::now()).is_some());
    assert!(!panel.container_lsp_registered);
    assert!(matches!(&panel.devcontainer_state, DevContainerState::Failed { error } if error == "reset"));
    assert!(panel.hud.status(WS).expect("tracked").phase.is_error());
}

#[test]
fn an_offer_can_be_dismissed() {
    let mut panel = connected();
    panel.register_container_lsp("c1", "proj", true);
    assert!(panel.dismiss_devcontainer(true).is_some());
    assert!(panel.dismiss_devcontainer(true).is_none());
    assert!(matches!(panel.section(), Section::Hidden));
    assert!(panel.hud.status(WS).is_none());
    assert!(panel.start_build(Instant::now()).is_none());
}

#[test]
fn a_build_can_be_tried_again() {
    let mut panel = connected();
    panel.on_build_report(WS, &report(Stage::Failed, 0, "m", ""), Instant::now());
    let (removed, request) = panel.retry_build(true, None, Instant::now());
    assert!(removed.is_none());
    assert!(request.is_none());
    assert!(panel.hud.status(WS).is_none());
    assert!(matches!(panel.devcontainer_state, DevContainerState::Failed { .. }));
    let (_, request) = panel.retry_build(true, config(), Instant::now());
    assert_eq!(request.expect("request").workspace, WS);
    assert!(matches!(panel.devcontainer_state, DevContainerState::Building { .. }));
    let (_, request) = SalaHud::new(Platform::Unix, None).retry_build(true, config(), Instant::now());
    assert!(request.is_none());
}

#[test]
fn a_build_of_the_panel_is_never_forced() {
    let call = connected().start_build(Instant::now()).expect("request").build_call();
    assert_eq!(call.workspace_path, WS);
    assert_eq!(call.config_path, "/workspace/proj/.devcontainer/devcontainer.json");
    assert!(!call.force_rebuild);
}

#[test]
fn servers_are_restarted_for_open_buffers() {
    let languages: Vec<Option<String>> =
        vec![Some("Rust".to_string()), None, Some("C".to_string()), Some("Rust".to_string())];
    assert_eq!(buffers_of(&languages, "Rust"), vec![0, 3]);
    assert_eq!(buffers_of(&languages, "rust"), Vec::<usize>::new());
    assert_eq!(buffers_of(&Vec::new(), "Rust"), Vec::<usize>::new());
    let (rust, python) = container_servers();
    let restart = rust.restart(&languages).expect("restart");
    assert_eq!(restart.server_name, "rust-analyzer");
    assert_eq!(restart.buffers, vec![0, 3]);
    assert!(python.restart(&languages).is_none());
}

#[test]
fn the_panel_knows_where_its_daemon_listens() {
    assert_eq!(panel_address(Platform::Unix), "/tmp/tais-devcontainerd.sock");
    assert_eq!(panel_address(Platform::Windows), "\\\\.\\pipe\\tais-devcontainerd");
}

fn open_with(events: Vec<OpeningEvent>) -> (SalaHud, OpeningStage) {
    let mut panel = panel();
    let mut stage = OpeningStage::FindConfig;
    for event in events {
        stage = opening_step(&mut panel, stage, event, Instant::now());
    }
    (panel, stage)
}

#[test]
fn an_opening_asks_for_docker_with_a_configuration() {
    let (panel, stage) = open_with(vec![
        OpeningEvent::Config(config()),
        OpeningEvent::Connected(Ok(())),
        OpeningEvent::Health(Ok(("0.1.0".to_string(), true))),
    ]);
    assert!(matches!(stage, OpeningStage::Preflight { .. }));
    assert!(!panel.has_client);
    let (panel, stage) = open_with(vec![
        OpeningEvent::Config(config()),
        OpeningEvent::Connected(Ok(())),
        OpeningEvent::Health(Ok(("0.1.0".to_string(), true))),
        OpeningEvent::Preflight(docker(true, true)),
    ]);
    assert!(matches!(stage, OpeningStage::Done));
    assert!(panel.has_client && panel.preflight_passed);
    assert!(matches!(panel.devcontainer_state, DevContainerState::Detected { .. }));
    let (panel, stage) = open_with(vec![
        OpeningEvent::Config(None),
        OpeningEvent::Connected(Ok(())),
        OpeningEvent::Health(Ok(("0.1.0".to_string(), true))),
    ]);
    assert!(matches!(stage, OpeningStage::Done));
    assert!(panel.has_client && !panel.preflight_passed);
}

#[test]
fn openings_that_fail() {
    let (panel, stage) = open_with(vec![
        OpeningEvent::Config(config()),
        OpeningEvent::Connected(Err("refused".to_string())),
    ]);
    assert!(matches!(stage, OpeningStage::Done));
    assert_eq!(panel.connection_status.disconnected_message(), Some("Connection failed: refused"));
    let (panel, _) = open_with(vec![
        OpeningEvent::Config(None),
        OpeningEvent::Connected(Ok(())),
        OpeningEvent::Health(Err("late".to_string())),
    ]);
    assert_eq!(panel.connection_status.disconnected_message(), Some("Health check failed: late"));
    let (panel, stage) = open_with(vec![OpeningEvent::Preflight(docker(true, true))]);
    assert!(matches!(stage, OpeningStage::FindConfig));
    assert!(!panel.preflight_passed);
}

#[test]
fn a_build_is_followed_to_its_end() {
    let mut panel = connected();
    let request = panel.start_build(Instant::now()).expect("request");
    let ready = report(Stage::Complete, 100, "Container ready: abc", "");
    let mut stage = FollowStage::Open;
    let mut changes = Vec::new();
    for event in vec![
        FollowEvent::Opened,
        FollowEvent::Report(report(Stage::Other("x".to_string()), 5, "m", "")),
        FollowEvent::Report(ready),
        FollowEvent::TerminalTried,
        FollowEvent::EditorAsked,
        FollowEvent::Found(true),
        FollowEvent::Found(false),
        FollowEvent::Found(true),
    ] {
        let (next, change) = follow_step(&mut panel, &request, stage, event, true, Instant::now());
        changes.push(change);
        stage = next;
    }
    assert!(matches!(stage, FollowStage::Done));
    assert!(matches!(&changes[4], ServerChange::Register(rust, python)
        if rust.container_id == "abc" && python.project_name == "proj"));
    assert!(matches!(&changes[2], ServerChange::Keep));
    let status = panel.hud.status(WS).expect("tracked");
    assert!(status.capabilities.lsp_rust_ok);
    assert!(!status.capabilities.lsp_python_ok);
    assert!(status.capabilities.terminal_ok);
    assert!(panel.container_lsp_registered);
}

#[test]
fn a_build_that_breaks_is_followed() {
    let mut panel = connected();
    let request = panel.start_build(Instant::now()).expect("request");
    panel.register_container_lsp("old", "proj", true);
    let (stage, change) = follow_step(
        &mut panel,
        &request,
        FollowStage::Report,
        FollowEvent::Broken("reset".to_string()),
        true,
        Instant::now(),
    );
    assert!(matches!(stage, FollowStage::Done));
    assert!(matches!(change, ServerChange::TakeBack(rust, python)
        if rust.language_name == "Rust" && python.server_name == "pyright"));
    let (stage, change) = follow_step(
        &mut panel,
        &request,
        FollowStage::Report,
        FollowEvent::Ended,
        true,
        Instant::now(),
    );
    assert!(matches!(stage, FollowStage::Done));
    assert!(matches!(change, ServerChange::Keep));
    let (stage, _) = follow_step(
        &mut panel,
        &request,
        FollowStage::Open,
        FollowEvent::Found(true),
        true,
        Instant::now(),
    );
    assert!(matches!(stage, FollowStage::Open));
}
