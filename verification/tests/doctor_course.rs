use sala_devtools::cli::CommonArgs;
use sala_devtools::devcontainer_doctor::{
    exit_code, format_text_report, interpret_capabilities, interpret_devcontainer_config,
    interpret_docker_preflight, interpret_tala_health, interpret_workspace_status, status_badge,
    verdict_line, CheckResult, CheckStatus, PrefightData, StatusData, Verdict,
};
use sala_devtools::doctor_run::{begin, DoctorEvent, DoctorRun, DoctorStage};
use sala_devtools::platform::Platform;

fn start(json: bool, verbose: bool) -> DoctorRun {
    let args = CommonArgs { workspace: "/w".to_string(), json, verbose };
    begin(Platform::Unix, "/w".to_string(), &args, false)
}

fn drive(run: DoctorRun, events: Vec<DoctorEvent>) -> DoctorRun {
    let mut run = run;
    for event in events {
        run = run.step(event);
    }
    run
}

fn healthy() -> DoctorEvent {
    DoctorEvent::Health(Ok(("0.1.0".to_string(), true)))
}

fn config() -> DoctorEvent {
    DoctorEvent::Config { primary_exists: true, fallback_exists: true }
}

fn docker_ok() -> DoctorEvent {
    DoctorEvent::Preflight(Ok(PrefightData {
        docker_available: true,
        docker_permissions_ok: true,
        error_message: String::new(),
    }))
}

fn running(id: &str) -> DoctorEvent {
    DoctorEvent::Status(Ok(StatusData {
        container_id: id.to_string(),
        status: "running".to_string(),
        running: true,
    }))
}

fn statuses(run: &DoctorRun) -> Vec<CheckStatus> {
    run.checks.iter().map(|c| c.status).collect()
}

fn names(run: &DoctorRun) -> Vec<String> {
    run.checks.iter().map(|c| c.name.clone()).collect()
}

#[test]
fn a_diagnosis_on_windows_names_the_pipe() {
    let args = CommonArgs { workspace: "/w".to_string(), json: false, verbose: false };
    let run = begin(Platform::Windows, "/w".to_string(), &args, false).step(healthy());
    assert_eq!(
        run.checks[0].message,
        "Tala daemon reachable at \\\\.\\pipe\\tala (version 0.1.0)"
    );
}

/// A text without what stands from each escape character to the next `m`.
fn unstyled(s: &str) -> String {
    let mut r = String::new();
    let mut inside = false;
    for c in s.chars() {
        if c == '\x1b' {
            inside = true;
        } else if inside {
            inside = c != 'm';
        } else {
            r.push(c);
        }
    }
    r
}

#[test]
fn colour_changes_no_text() {
    let check = |status: CheckStatus| CheckResult {
        name: "n".to_string(),
        status,
        message: "message".to_string(),
        suggestion: Some("first\nsecond".to_string()),
        details: Some(serde_json::Value::String("\x1b[1mbold\x1b[0m".to_string())),
    };
    let checks = vec![
        check(CheckStatus::Okay),
        check(CheckStatus::Warn),
        check(CheckStatus::Error),
        check(CheckStatus::Skip),
    ];
    for verdict in [Verdict::Healthy, Verdict::Degraded, Verdict::Broken] {
        let colored = format_text_report("/w", &checks, verdict, true, true);
        let plain = format_text_report("/w", &checks, verdict, true, false);
        assert!(colored.contains('\x1b'));
        assert!(!plain.contains('\x1b'));
        assert_eq!(unstyled(&colored), plain);
        assert!(plain.contains("details: \"\\u001b[1mbold\\u001b[0m\""));
    }
}

#[test]
fn an_answer_that_was_not_asked_for_is_ignored() {
    let run = start(false, false).step(running("aaaaaaaaaaa\u{e9}"));
    assert!(matches!(run.stage, DoctorStage::Health));
    assert!(run.checks.is_empty());
}

#[test]
fn a_healthy_diagnosis() {
    let run = drive(
        start(false, false),
        vec![
            healthy(),
            DoctorEvent::Reconnected(true),
            config(),
            docker_ok(),
            running("abc123def456789"),
            DoctorEvent::Capabilities(true, true, true),
        ],
    );
    assert!(matches!(run.stage, DoctorStage::Done));
    assert_eq!(statuses(&run), vec![CheckStatus::Okay; 5]);
    assert_eq!(
        names(&run),
        vec!["Tala daemon", "DevContainer config", "Docker daemon", "Container status", "Capabilities"]
    );
    assert_eq!(run.verdict(), Verdict::Healthy);
    assert_eq!(run.exit_code(), 0);
    let report = run.report();
    assert!(report.starts_with("\ndc-doctor \u{2014} /w\n\n"));
    assert!(report.contains("DevContainer config detected (.devcontainer/devcontainer.json)"));
    assert!(report.ends_with("\n"));
}

#[test]
fn a_diagnosis_without_the_daemon() {
    let run = drive(
        start(true, false),
        vec![
            DoctorEvent::Health(Err("connection refused".to_string())),
            DoctorEvent::Reconnected(false),
            DoctorEvent::Config { primary_exists: false, fallback_exists: false },
            DoctorEvent::DirectDocker(true),
        ],
    );
    assert!(matches!(run.stage, DoctorStage::Done));
    assert_eq!(
        statuses(&run),
        vec![
            CheckStatus::Error,
            CheckStatus::Warn,
            CheckStatus::Okay,
            CheckStatus::Skip,
            CheckStatus::Skip
        ]
    );
    assert_eq!(run.exit_code(), 1);
    let report = run.report();
    assert!(report.ends_with("}\n"));
    let parsed: serde_json::Value = serde_json::from_str(&report).expect("JSON");
    assert_eq!(parsed["overall_status"], "BROKEN");
    assert_eq!(parsed["checks"][2]["details"]["source"], "direct");
    assert_eq!(parsed["checks"][3]["status"], "SKIP");
}

#[test]
fn a_diagnosis_without_a_container() {
    let run = drive(
        start(false, false),
        vec![
            healthy(),
            DoctorEvent::Reconnected(true),
            config(),
            docker_ok(),
            DoctorEvent::Status(Err("get_status timed out".to_string())),
        ],
    );
    assert!(matches!(run.stage, DoctorStage::Done));
    assert_eq!(run.verdict(), Verdict::Degraded);
    assert_eq!(run.exit_code(), 0);
    assert_eq!(run.checks[3].suggestion.as_deref(), Some("Error: get_status timed out"));
    assert_eq!(run.checks[4].status, CheckStatus::Skip);
}

#[test]
fn what_was_not_asked_is_not_heard() {
    let run = drive(start(false, false), vec![docker_ok(), config(), DoctorEvent::DirectDocker(true)]);
    assert!(matches!(run.stage, DoctorStage::Health));
    assert!(run.checks.is_empty());
}

#[test]
fn answers_of_the_daemon_are_worded() {
    let check = interpret_tala_health(Ok(("2".to_string(), true)), "/s");
    assert_eq!(check.message, "Tala daemon reachable at /s (version 2)");
    let check = interpret_tala_health(Ok(("2".to_string(), false)), "/s");
    assert_eq!(check.message, "Tala daemon at /s reports unhealthy (version 2)");
    assert_eq!(check.details.expect("details")["healthy"], false);
    let check = interpret_tala_health(Err("gone".to_string()), "/s");
    assert_eq!(
        check.suggestion.as_deref(),
        Some("Start tala in a separate terminal:\n  cd /workspace/_JAGORA/tala && cargo run -p tala-server --bin tala\n\nError: gone")
    );
}

#[test]
fn a_configuration_elsewhere_is_shown_whole() {
    let check = interpret_devcontainer_config(
        Platform::Unix,
        "/w",
        Some("/other/devcontainer.json".to_string()),
    );
    assert_eq!(check.message, "DevContainer config detected (/other/devcontainer.json)");
    assert_eq!(check.details.expect("details")["config_path"], "/other/devcontainer.json");
}

#[test]
fn docker_that_is_down_is_explained() {
    let data = |error: &str| PrefightData {
        docker_available: false,
        docker_permissions_ok: true,
        error_message: error.to_string(),
    };
    let check = interpret_docker_preflight(Some(Ok(data("socket"))), None);
    assert_eq!(
        check.suggestion.as_deref(),
        Some("Start Docker Desktop or the Docker service.\nDetail: socket")
    );
    let check = interpret_docker_preflight(Some(Ok(data(""))), None);
    assert_eq!(check.suggestion.as_deref(), Some("Start Docker Desktop or the Docker service.\n"));
    let check = interpret_docker_preflight(Some(Err("timeout".to_string())), Some(true));
    assert_eq!(check.status, CheckStatus::Error);
    assert_eq!(check.suggestion.as_deref(), Some("Error: timeout"));
    assert_eq!(interpret_docker_preflight(None, None).status, CheckStatus::Skip);
}

#[test]
fn containers_are_worded() {
    let (check, _) = interpret_workspace_status(Some(Ok(StatusData {
        container_id: "abc123def456789".to_string(),
        status: "up".to_string(),
        running: true,
    })));
    assert_eq!(check.message, "Container running (abc123def456, status: up)");
    let (check, id) = interpret_workspace_status(Some(Err("x".to_string())));
    assert_eq!(check.status, CheckStatus::Warn);
    assert!(id.is_none());
}

#[test]
fn missing_capabilities_are_named() {
    let check = interpret_capabilities(Some("abc"), Some((false, true, false)));
    assert_eq!(
        check.message,
        "Container abc \u{2014} terminal=FAIL, rust_lsp=OK, py_lsp=FAIL. Missing: terminal, pyright"
    );
    assert_eq!(
        check.suggestion.as_deref(),
        Some("Check that the container allows docker exec.\nInstall pyright in the container (npm install -g pyright).")
    );
    assert_eq!(interpret_capabilities(Some("abc"), None).status, CheckStatus::Skip);
}

#[test]
fn exit_codes_of_verdicts() {
    assert_eq!(exit_code(Verdict::Healthy), 0);
    assert_eq!(exit_code(Verdict::Degraded), 0);
    assert_eq!(exit_code(Verdict::Broken), 1);
}

fn details() -> serde_json::Value {
    let mut map = serde_json::Map::new();
    map.insert("running".to_string(), serde_json::Value::from(true));
    serde_json::Value::Object(map)
}

#[test]
fn reports_in_full() {
    let checks = vec![CheckResult {
        name: "A".to_string(),
        status: CheckStatus::Warn,
        message: "m".to_string(),
        suggestion: Some("one\ntwo".to_string()),
        details: Some(details()),
    }];
    let brief = format_text_report("/w", &checks, Verdict::Degraded, false, false);
    assert!(brief.contains("m\n"));
    assert!(brief.contains("one\n"));
    assert!(brief.contains("two\n"));
    assert!(!brief.contains("running"));
    let verbose = format_text_report("/w", &checks, Verdict::Degraded, true, false);
    assert!(verbose.contains("running"));
    let colored = format_text_report("/w", &checks, Verdict::Degraded, false, true);
    assert!(colored.contains("\u{1b}[33m"));
    assert!(colored.contains("\u{1b}[0m"));
}

#[test]
fn badges_and_verdicts() {
    assert!(status_badge(CheckStatus::Okay, false).contains("[OK]"));
    assert!(status_badge(CheckStatus::Error, true).contains("\u{1b}[31m"));
    assert!(verdict_line(Verdict::Healthy, false).contains("HEALTHY"));
    assert!(verdict_line(Verdict::Broken, true).contains("\u{1b}[31mBROKEN"));
}
