use sala_devtools::build_progress::{BuildProgress, Stage, StreamEvent};
use sala_devtools::console::Output;
use sala_devtools::ipc::{tala_address, TALA_PIPE};
use sala_devtools::lsp_frame::frame;
use sala_devtools::lsp_session::LspConfig;
use sala_devtools::platform::Platform;
use sala_devtools::smoke::{begin, SmokeAction, SmokeEvent, SmokeRun};
use sala_devtools::smoke_results::{SmokeResults, StepResult};

fn lines(output: &[Output]) -> Vec<String> {
    output
        .iter()
        .map(|line| match line {
            Output::Stdout(s) => format!("out {s}"),
            Output::Stderr(s) => format!("err {s}"),
        })
        .collect()
}

fn start(json: bool) -> SmokeRun {
    begin(Platform::Unix, "/workspace/proj".to_string(), 600, json, LspConfig::rust()).0
}

fn drive(run: SmokeRun, events: Vec<SmokeEvent>) -> (SmokeRun, Vec<String>) {
    let mut run = run;
    let mut all = Vec::new();
    for event in events {
        let (next, output) = run.step(event);
        all.extend(lines(&output));
        run = next;
    }
    (run, all)
}

fn code(run: &SmokeRun) -> i32 {
    match run.action() {
        SmokeAction::Finish(code) => code,
        other => panic!("not done: {other:?}"),
    }
}

fn healthy() -> SmokeEvent {
    SmokeEvent::Health { version: "0.1.0".to_string(), healthy: true }
}

fn docker_ok() -> SmokeEvent {
    SmokeEvent::Docker { available: true, permissions_ok: true, error_message: String::new() }
}

fn config() -> SmokeEvent {
    SmokeEvent::Config { primary_exists: true, fallback_exists: false }
}

fn report(stage: Stage, message: &str, error: &str) -> SmokeEvent {
    SmokeEvent::Build(StreamEvent::Report(BuildProgress {
        stage,
        percent: 20,
        message: message.to_string(),
        error: error.to_string(),
    }))
}

fn ready() -> SmokeEvent {
    report(Stage::Complete, "Container ready: abc123def456789", "")
}

fn command(success: bool, stdout: &str, stderr: &str) -> SmokeEvent {
    SmokeEvent::Command {
        success,
        status: "exit status: 1".to_string(),
        stdout: stdout.as_bytes().to_vec(),
        stderr: stderr.as_bytes().to_vec(),
    }
}

fn to_terminal() -> Vec<SmokeEvent> {
    vec![SmokeEvent::Connected, healthy(), docker_ok(), config(), ready()]
}

fn to_answer() -> Vec<SmokeEvent> {
    let mut events = to_terminal();
    events.push(command(true, "SMOKE_OK\n", ""));
    events.push(command(true, "/usr/bin/rust-analyzer\n", ""));
    events.push(SmokeEvent::Started);
    events.push(SmokeEvent::Sent);
    events
}

#[test]
fn a_run_on_windows_names_the_pipe() {
    let workspace = r"C:\ws\proj".to_string();
    let (run, output) = begin(Platform::Windows, workspace, 600, false, LspConfig::rust());
    assert_eq!(run.project_name, "proj");
    assert_eq!(lines(&output)[2], "out project:    proj");
    assert_eq!(
        lines(&output)[6],
        "out [DAEMON]    Connecting to tala daemon at \\\\.\\pipe\\tala ..."
    );
    assert_eq!(tala_address(Platform::Windows), TALA_PIPE);
    assert_eq!(tala_address(Platform::Unix), "/tmp/tala.sock");
}

#[test]
fn a_build_of_the_smoke_test_is_never_forced() {
    let (run, _) = drive(start(false), vec![SmokeEvent::Connected, healthy(), docker_ok()]);
    assert!(run.build_call().is_none());
    let (run, _) = drive(run, vec![config()]);
    let call = run.build_call().expect("call");
    assert_eq!(call.workspace_path, "/workspace/proj");
    assert_eq!(call.config_path, "/workspace/proj/.devcontainer/devcontainer.json");
    assert!(!call.force_rebuild);
    let (run, _) = drive(run, vec![ready()]);
    assert!(run.build_call().is_none());
}

#[test]
fn a_run_that_passes() {
    let (run, output) = begin(Platform::Unix, "/workspace/proj".to_string(), 600, false, LspConfig::rust());
    assert_eq!(
        lines(&output),
        vec![
            "out === dc-smoke \u{2014} DevContainer Smoke Test ===",
            "out workspace:  /workspace/proj",
            "out project:    proj",
            "out language:   rust-analyzer",
            "out timeout:    600s",
            "out ",
            "out [DAEMON]    Connecting to tala daemon at /tmp/tala.sock ...",
        ]
    );
    assert!(matches!(run.action(), SmokeAction::Connect));
    let (run, all) = drive(run, vec![SmokeEvent::Connected]);
    assert_eq!(all, vec!["out [DAEMON]    Connected", "out [DAEMON]    Health check ..."]);
    assert!(matches!(run.action(), SmokeAction::CheckHealth));
    let (run, all) = drive(run, vec![healthy()]);
    assert_eq!(
        all,
        vec![
            "out [DAEMON]    Healthy (version=0.1.0)",
            "out [PREFLIGHT] Checking Docker availability ..."
        ]
    );
    assert!(matches!(run.action(), SmokeAction::CheckDocker));
    let (run, all) = drive(run, vec![docker_ok()]);
    assert_eq!(all, vec!["out [PREFLIGHT] Passed (docker available, permissions ok)"]);
    assert!(matches!(run.action(), SmokeAction::LookForConfig));
    let (run, all) = drive(run, vec![config()]);
    assert_eq!(
        all,
        vec![
            "out [DEVCONTAINER] Config: /workspace/proj/.devcontainer/devcontainer.json",
            "out [DEVCONTAINER] Building (timeout=600s) ...",
            "out [DEVCONTAINER] workspace: /workspace/proj",
            "out [DEVCONTAINER] config:    /workspace/proj/.devcontainer/devcontainer.json",
        ]
    );
    assert!(matches!(
        run.action(),
        SmokeAction::Build { config_path } if config_path == "/workspace/proj/.devcontainer/devcontainer.json"
    ));
    let (run, all) = drive(
        run,
        vec![report(Stage::Other("Pulling".to_string()), "Pulling image", ""), ready()],
    );
    assert_eq!(
        all,
        vec![
            "out [DEVCONTAINER] [Pulling] 20% -- Pulling image",
            "out [DEVCONTAINER] Build complete -- container abc123def456789",
            "out [TERMINAL]  Running: docker exec abc123def456789 echo SMOKE_OK",
        ]
    );
    assert!(matches!(
        run.action(),
        SmokeAction::Run(args) if args == vec!["exec", "abc123def456789", "echo", "SMOKE_OK"]
    ));
    let (run, all) = drive(run, vec![command(true, "SMOKE_OK\n", "")]);
    assert_eq!(
        all,
        vec![
            "out [TERMINAL]  Received SMOKE_OK",
            "out [LSP-RUST]   Checking rust-analyzer availability ..."
        ]
    );
    let (run, all) = drive(run, vec![command(true, " /usr/bin/rust-analyzer\n", "")]);
    assert_eq!(
        all,
        vec![
            "out [LSP-RUST]   Found: /usr/bin/rust-analyzer",
            "out [LSP-RUST]   Running initialize/shutdown cycle ..."
        ]
    );
    assert!(matches!(
        run.action(),
        SmokeAction::Start(args)
            if args == vec!["exec", "-i", "-w", "/workspaces/proj", "abc123def456789", "rust-analyzer"]
    ));
    let (run, all) = drive(run, vec![SmokeEvent::Started]);
    assert!(all.is_empty());
    match run.action() {
        SmokeAction::Send(data) => {
            let sent = String::from_utf8(data).expect("text");
            assert!(sent.starts_with("Content-Length: "));
            assert!(sent.contains("\"rootUri\":\"file:///workspaces/proj\""));
        }
        other => panic!("{other:?}"),
    }
    let (run, _) = drive(run, vec![SmokeEvent::Sent]);
    assert!(matches!(run.action(), SmokeAction::Receive));
    let (run, all) = drive(
        run,
        vec![
            SmokeEvent::Message("{\"method\":\"$/progress\"}".to_string()),
            SmokeEvent::Message("{\"id\":7}".to_string()),
            SmokeEvent::Message(
                "{\"id\":1,\"result\":{\"serverInfo\":{\"name\":\"ra\",\"version\":\"1\"}}}".to_string(),
            ),
        ],
    );
    assert_eq!(
        all,
        vec![
            "out [LSP-RUST]   (skipping notification: $/progress)",
            "out [LSP-RUST]   (skipping message with id=Some(Number(7)))",
            "out [LSP-RUST]   Server: ra v1",
        ]
    );
    match run.action() {
        SmokeAction::Send(data) => {
            let mut expected = frame("{\"jsonrpc\":\"2.0\",\"method\":\"initialized\",\"params\":{}}");
            expected.extend(frame("{\"jsonrpc\":\"2.0\",\"id\":2,\"method\":\"shutdown\",\"params\":null}"));
            expected.extend(frame("{\"jsonrpc\":\"2.0\",\"method\":\"exit\",\"params\":null}"));
            assert_eq!(data, expected);
        }
        other => panic!("{other:?}"),
    }
    let (run, _) = drive(run, vec![SmokeEvent::Sent]);
    assert!(matches!(run.action(), SmokeAction::AwaitExit));
    let (run, all) = drive(run, vec![SmokeEvent::Exited]);
    assert_eq!(
        all,
        vec![
            "out [LSP-RUST]   Initialize/shutdown cycle completed",
            "out ",
            "out ========================================",
            "out   DevContainer Smoke Test  --  Summary  ",
            "out ========================================",
            "out   DevContainer  OK    container abc123def456",
            "out   Terminal      OK    echo SMOKE_OK received",
            "out   LSP (rust-analyzer)  OK    initialize/shutdown ok",
            "out ========================================",
            "out ",
        ]
    );
    assert_eq!(code(&run), 0);
}

#[test]
fn the_daemon_is_not_there() {
    let (run, all) = drive(start(false), vec![SmokeEvent::ConnectFailed]);
    assert_eq!(code(&run), 1);
    assert_eq!(all[0], "err [DAEMON]    FAIL: failed to connect to tala daemon -- is it running?");
    assert!(all.contains(
        &"out   DevContainer  FAIL  connect: failed to connect to tala daemon -- is it running?".to_string()
    ));
    assert!(all.contains(&"out   Terminal      SKIP  no daemon".to_string()));
}

#[test]
fn the_daemon_is_not_well() {
    let ill = SmokeEvent::Health { version: "0.1.0".to_string(), healthy: false };
    let (run, all) = drive(start(false), vec![SmokeEvent::Connected, ill]);
    assert_eq!(code(&run), 1);
    assert_eq!(all[2], "err [PREFLIGHT] FAIL: daemon reported unhealthy (version=0.1.0)");
    let (run, all) = drive(start(false), vec![SmokeEvent::Connected, SmokeEvent::CallFailed]);
    assert_eq!(code(&run), 1);
    assert_eq!(all[2], "err [PREFLIGHT] FAIL: health check RPC failed");
    assert!(all.contains(&"out   LSP (rust-analyzer)  SKIP  preflight failed".to_string()));
}

#[test]
fn docker_cannot_be_used() {
    let cases = [
        (
            SmokeEvent::Docker { available: false, permissions_ok: false, error_message: "down".to_string() },
            "docker not available: down",
        ),
        (
            SmokeEvent::Docker { available: true, permissions_ok: false, error_message: "no".to_string() },
            "docker permissions issue: no",
        ),
        (SmokeEvent::CallFailed, "preflight RPC failed"),
    ];
    for (event, message) in cases {
        let (run, all) = drive(start(false), vec![SmokeEvent::Connected, healthy(), event]);
        assert_eq!(code(&run), 2);
        assert_eq!(all[4], format!("err [PREFLIGHT] FAIL: {message}"));
    }
}

#[test]
fn there_is_no_configuration() {
    let none = SmokeEvent::Config { primary_exists: false, fallback_exists: false };
    let (run, all) = drive(start(false), vec![SmokeEvent::Connected, healthy(), docker_ok(), none]);
    assert_eq!(code(&run), 3);
    assert!(all.contains(&"err [DEVCONTAINER] FAIL: no .devcontainer/devcontainer.json found".to_string()));
    assert!(all.contains(&"out   Terminal      SKIP  no config".to_string()));
}

#[test]
fn the_build_fails() {
    let cases = [
        (report(Stage::Failed, "Build failed", "out of memory"), "build failed: out of memory"),
        (report(Stage::Failed, "no space left", ""), "build failed: no space left"),
        (SmokeEvent::Build(StreamEvent::Refused), "BuildContainer RPC failed"),
        (SmokeEvent::Build(StreamEvent::Fault), "stream error during build"),
        (SmokeEvent::Build(StreamEvent::End), "build stream ended without a container ID"),
        (
            SmokeEvent::TimedOut,
            "DevContainer build timed out after 600s (use --max-wait-seconds to increase)",
        ),
    ];
    for (event, message) in cases {
        let events = vec![SmokeEvent::Connected, healthy(), docker_ok(), config(), event];
        let (run, all) = drive(start(false), events);
        assert_eq!(code(&run), 4);
        assert!(all.contains(&format!("err [DEVCONTAINER] FAIL: {message}")));
        assert!(all.contains(&format!("out   DevContainer  FAIL  {message}")));
        assert!(all.contains(&"out   Terminal      SKIP  no container".to_string()));
    }
}

#[test]
fn the_terminal_fails_and_the_server_is_still_tested() {
    let cases = [
        (command(false, "", " denied \n"), "docker exec exited with exit status: 1: denied"),
        (command(true, " nothing \n", ""), "expected SMOKE_OK in stdout, got: nothing"),
        (SmokeEvent::CommandFailed, "failed to run docker exec"),
    ];
    for (event, message) in cases {
        let mut events = to_terminal();
        events.push(event);
        events.push(command(false, "", ""));
        let (run, all) = drive(start(false), events);
        assert_eq!(code(&run), 5);
        assert!(all.contains(&format!("err [TERMINAL]  FAIL: {message}")));
        assert!(all.contains(
            &"out [LSP-RUST]   SKIP: rust-analyzer not found in container (install it for LSP tests)".to_string()
        ));
    }
}

#[test]
fn a_server_that_is_missing_is_skipped() {
    let mut events = to_terminal();
    events.push(command(true, "SMOKE_OK", ""));
    events.push(command(false, "", ""));
    let (run, _) = drive(start(false), events);
    assert_eq!(code(&run), 0);
    assert!(matches!(&run.results.lsp, Some(StepResult::Skip(m))
        if m == "rust-analyzer not found in container (install it for LSP tests)"));
}

#[test]
fn the_server_fails() {
    let mut found = to_terminal();
    found.push(command(true, "SMOKE_OK", ""));
    found.push(SmokeEvent::CommandFailed);
    let (run, all) = drive(start(false), found);
    assert_eq!(code(&run), 6);
    assert!(all.contains(&"err [LSP-RUST]   FAIL: failed to check rust-analyzer availability".to_string()));

    let mut started = to_terminal();
    started.push(command(true, "SMOKE_OK", ""));
    started.push(command(true, "x", ""));
    started.push(SmokeEvent::StartFailed);
    let (run, all) = drive(start(false), started);
    assert_eq!(code(&run), 6);
    assert!(all.contains(&"err [LSP-RUST]   FAIL: failed to spawn rust-analyzer via docker exec".to_string()));

    let cases = [
        (SmokeEvent::ReadFailed, "failed to read LSP message"),
        (SmokeEvent::Message("{".to_string()), "invalid JSON in LSP message"),
        (SmokeEvent::TimedOut, "timeout (60s) waiting for rust-analyzer initialize response"),
        (
            SmokeEvent::Message("{\"id\":1,\"error\":\"no\"}".to_string()),
            "rust-analyzer initialize returned error: \"no\"",
        ),
    ];
    for (event, message) in cases {
        let mut events = to_answer();
        events.push(event);
        let (run, all) = drive(start(false), events);
        assert_eq!(code(&run), 6);
        assert!(all.contains(&format!("err [LSP-RUST]   FAIL: {message}")));
    }

    let mut sending = to_answer();
    sending.push(SmokeEvent::Message("{\"id\":1}".to_string()));
    sending.push(SmokeEvent::SendFailed("broken pipe".to_string()));
    let (run, _) = drive(start(false), sending);
    assert_eq!(code(&run), 6);
    assert!(matches!(&run.results.lsp, Some(StepResult::Fail(m)) if m == "broken pipe"));
}

#[test]
fn a_server_that_does_not_end_is_warned_of() {
    let cases = [
        (SmokeEvent::TimedOut, "err [LSP-RUST]   warning: child did not exit within 5s"),
        (
            SmokeEvent::ExitFailed("gone".to_string()),
            "err [LSP-RUST]   warning: child wait error: gone",
        ),
    ];
    for (event, line) in cases {
        let mut events = to_answer();
        events.push(SmokeEvent::Message("{\"id\":1}".to_string()));
        events.push(SmokeEvent::Sent);
        events.push(event);
        let (run, all) = drive(start(true), events);
        assert_eq!(code(&run), 0);
        assert_eq!(all.len(), 2);
        assert_eq!(all[0], line);
    }
}

#[test]
fn json_mode_prints_the_document_alone() {
    let (run, output) = begin(Platform::Unix, "/workspace/proj".to_string(), 600, true, LspConfig::python());
    assert!(output.is_empty());
    let mut events = to_terminal();
    events.push(command(true, "SMOKE_OK", ""));
    events.push(command(false, "", ""));
    let (run, all) = drive(run, events);
    assert_eq!(code(&run), 0);
    assert_eq!(all.len(), 1);
    let parsed: serde_json::Value = serde_json::from_str(&all[0]["out ".len()..]).expect("JSON");
    assert_eq!(parsed["workspace"], "/workspace/proj");
    assert_eq!(parsed["overall"], "pass");
    assert_eq!(parsed["steps"][0]["message"], "container abc123def456");
    assert_eq!(parsed["steps"][1]["status"], "ok");
    assert_eq!(parsed["steps"][2]["name"], "lsp");
    assert_eq!(parsed["steps"][2]["status"], "skip");
}

#[test]
fn what_was_not_asked_changes_nothing() {
    let (run, all) = drive(start(false), vec![SmokeEvent::Sent, healthy(), SmokeEvent::TimedOut]);
    assert!(all.is_empty());
    assert!(matches!(run.action(), SmokeAction::Connect));
    let (run, all) = drive(start(true), vec![SmokeEvent::ConnectFailed, SmokeEvent::Connected]);
    assert_eq!(all.len(), 1);
    assert_eq!(code(&run), 1);
}

#[test]
fn exit_codes_of_results() {
    let mut results = SmokeResults::new("pyright");
    assert_eq!(results.lsp_label, "LSP (pyright)");
    assert_eq!(results.exit_code(), 0);
    assert_eq!(results.summary_lines()[4], "  DevContainer  ---   (not run)");
    assert_eq!(results.summary_lines()[6], "  LSP (pyright)  ---   (not run)");
    results.lsp = Some(StepResult::Fail("c".to_string()));
    assert_eq!(results.exit_code(), 6);
    assert!(results.has_any_fail());
    results.terminal = Some(StepResult::Fail("b".to_string()));
    assert_eq!(results.exit_code(), 5);
    results.devcontainer = Some(StepResult::Fail("a".to_string()));
    assert_eq!(results.exit_code(), 4);
    let document = results.to_json("/w");
    assert_eq!(document.overall, "fail");
    assert_eq!(document.steps.len(), 3);
    assert_eq!(document.steps[1].message, "b");
}
