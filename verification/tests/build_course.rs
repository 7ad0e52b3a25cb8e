use sala_devtools::build_progress::{
    container_of, interpret_event, BuildProgress, BuildStep, Stage, StreamEvent,
};
use sala_devtools::cli::{CommonArgs, Parsed};
use sala_devtools::console::Output;
use sala_devtools::dc_build::{self, BuildArgs, BuildEvent, BuildRun, BuildStage};
use sala_devtools::dc_connect::{self, ConnectEvent, ConnectRun, ConnectStage};
use sala_devtools::platform::Platform;

fn lines(output: &[Output]) -> Vec<String> {
    output
        .iter()
        .map(|line| match line {
            Output::Stdout(s) => format!("out {s}"),
            Output::Stderr(s) => format!("err {s}"),
        })
        .collect()
}

fn build(items: &[&str], is_terminal: bool) -> BuildRun {
    let args = items.iter().map(|s| s.to_string()).collect();
    let args: BuildArgs = match dc_build::parse_args(args, None) {
        Parsed::Run(a) => a,
        _ => panic!("not accepted"),
    };
    dc_build::begin(Platform::Unix, "/w".to_string(), &args, is_terminal)
}

fn drive(run: BuildRun, events: Vec<BuildEvent>) -> (BuildRun, Vec<String>) {
    let mut run = run;
    let mut all = Vec::new();
    for event in events {
        let (next, output) = run.step(event);
        all.extend(lines(&output));
        run = next;
    }
    (run, all)
}

fn config() -> BuildEvent {
    BuildEvent::Config { primary_exists: false, fallback_exists: true }
}

fn report(stage: Stage, message: &str, error: &str, elapsed_ms: u64) -> BuildEvent {
    BuildEvent::Build {
        event: StreamEvent::Report(BuildProgress {
            stage,
            percent: 40,
            message: message.to_string(),
            error: error.to_string(),
        }),
        elapsed_ms,
    }
}

#[test]
fn a_build_is_forced_where_the_command_line_says_so() {
    for (items, forced) in [(vec![], false), (vec!["--force"], true)] {
        let run = build(&items, false);
        assert!(run.build_call().is_none());
        let (run, _) = drive(run, vec![config(), BuildEvent::Connected]);
        let call = run.build_call().expect("call");
        assert_eq!(call.workspace_path, "/w");
        assert_eq!(call.config_path, "/w/.devcontainer.json");
        assert_eq!(call.force_rebuild, forced);
    }
}

#[test]
fn a_ready_container_is_named() {
    assert_eq!(container_of("Container ready: abc"), "abc");
    assert_eq!(container_of("abc"), "abc");
    assert_eq!(container_of("Container ready: "), "");
}

#[test]
fn stream_events_decide_a_build() {
    assert!(matches!(interpret_event(&StreamEvent::End, ""), BuildStep::Fail(m)
        if m == "build stream ended without a container ID"));
    let waiting = StreamEvent::Report(BuildProgress {
        stage: Stage::Other("Pulling".to_string()),
        percent: 1,
        message: String::new(),
        error: "ignored".to_string(),
    });
    assert!(matches!(interpret_event(&waiting, "x"), BuildStep::Wait));
}

#[test]
fn a_build_that_succeeds() {
    let (run, all) = drive(
        build(&[], false),
        vec![
            config(),
            BuildEvent::Connected,
            report(Stage::Other("Pulling".to_string()), "layers", "", 10),
            report(Stage::Complete, "Container ready: abc123", "", 12345),
        ],
    );
    assert!(matches!(run.stage, BuildStage::Done(0)));
    assert_eq!(
        all,
        vec![
            "out dc-build \u{2014} connecting to tais-devcontainerd daemon ...",
            "out dc-build \u{2014} build for /w",
            "out   config:  /w/.devcontainer.json",
            "out   timeout: 600s",
            "out ",
            "out [Pulling] 40% \u{2014} layers",
            "out [COMPLETE] container abc123",
            "out ",
            "out Build succeeded in 12345ms.",
        ]
    );
}

#[test]
fn a_build_in_colour() {
    let (_, all) = drive(
        build(&["--force"], true),
        vec![config(), BuildEvent::Connected, report(Stage::Complete, "abc", "", 1)],
    );
    assert_eq!(all[1], "out \u{1b}[1mdc-build\u{1b}[0m \u{2014} rebuild for /w");
    assert_eq!(all[5], "out \u{1b}[32m[COMPLETE]\u{1b}[0m container abc");
    assert_eq!(all[7], "out \u{1b}[1;32mBuild succeeded\u{1b}[0m in 1ms.");
}

#[test]
fn a_build_that_fails() {
    let (run, all) = drive(
        build(&[], false),
        vec![config(), BuildEvent::Connected, report(Stage::Failed, "m", "Docker not running", 500)],
    );
    assert!(matches!(run.stage, BuildStage::Done(1)));
    assert_eq!(all[5..], ["err ", "err Build failed after 500ms: Docker not running"]);
    let refused = BuildEvent::Build { event: StreamEvent::Refused, elapsed_ms: 3 };
    let (_, all) = drive(build(&[], true), vec![config(), BuildEvent::Connected, refused]);
    assert_eq!(
        all[6],
        "err \u{1b}[1;31mBuild failed\u{1b}[0m after 3ms: BuildContainer RPC failed"
    );
}

#[test]
fn a_build_that_takes_too_long() {
    let late = BuildEvent::TimedOut { elapsed_ms: 5001 };
    let (run, all) =
        drive(build(&["--max-wait-seconds", "5"], false), vec![config(), BuildEvent::Connected, late]);
    assert!(matches!(run.stage, BuildStage::Done(1)));
    assert_eq!(all[6], "err Build timed out after 5s.");
}

#[test]
fn a_build_without_configuration_or_daemon() {
    let none = BuildEvent::Config { primary_exists: false, fallback_exists: false };
    let (run, all) = drive(build(&[], false), vec![none]);
    assert!(matches!(run.stage, BuildStage::Done(1)));
    assert_eq!(all, vec!["err error: No .devcontainer/devcontainer.json found in /w"]);
    let (run, all) = drive(build(&[], false), vec![config(), BuildEvent::ConnectFailed]);
    assert!(matches!(run.stage, BuildStage::Done(1)));
    assert_eq!(
        all[1],
        "err error: Failed to connect to TAIS DevContainer daemon: failed to connect to tala daemon -- is it running?"
    );
}

fn document(all: &[String]) -> serde_json::Value {
    assert_eq!(all.len(), 1);
    serde_json::from_str(&all[0]["out ".len()..]).expect("JSON")
}

#[test]
fn builds_as_json() {
    let (_, all) = drive(
        build(&["-j", "-f"], true),
        vec![
            config(),
            BuildEvent::Connected,
            report(Stage::Other("x".to_string()), "y", "", 1),
            report(Stage::Complete, "Container ready: abc", "", 77),
        ],
    );
    let parsed = document(&all);
    assert_eq!(parsed["workspace"], "/w");
    assert_eq!(parsed["action"], "rebuild");
    assert_eq!(parsed["status"], "success");
    assert_eq!(parsed["duration_ms"], 77);
    assert_eq!(parsed["container_id"], "abc");
    assert!(parsed.get("error_message").is_none());

    let late = BuildEvent::TimedOut { elapsed_ms: 600001 };
    let (_, all) = drive(build(&["-j"], true), vec![config(), BuildEvent::Connected, late]);
    let parsed = document(&all);
    assert_eq!(parsed["action"], "build");
    assert_eq!(parsed["status"], "failed");
    assert_eq!(
        parsed["error_message"],
        "Build timed out after 600s (use --max-wait-seconds to increase)"
    );

    let none = BuildEvent::Config { primary_exists: false, fallback_exists: false };
    let (_, all) = drive(build(&["-j"], true), vec![none]);
    assert_eq!(document(&all)["duration_ms"], 0);
}

#[test]
fn a_build_waits_for_what_it_asked() {
    let (run, all) = drive(build(&[], false), vec![BuildEvent::Connected, report(Stage::Complete, "x", "", 1)]);
    assert!(matches!(run.stage, BuildStage::Config));
    assert!(all.is_empty());
}

fn connect(json: bool, is_terminal: bool, events: Vec<ConnectEvent>) -> (ConnectRun, Vec<String>) {
    let (mut run, output) = dc_connect::begin("/w".to_string(), json, is_terminal);
    let mut all = lines(&output);
    for event in events {
        let (next, output) = run.step(event);
        all.extend(lines(&output));
        run = next;
    }
    (run, all)
}

fn answer(config_changed: bool) -> ConnectEvent {
    ConnectEvent::Answer {
        container_id: "abc123def456789".to_string(),
        workspace_folder: "/workspace".to_string(),
        config_changed,
    }
}

#[test]
fn a_connection_that_succeeds() {
    let (run, all) = connect(false, false, vec![ConnectEvent::Connected, answer(false)]);
    assert_eq!(run.stage, ConnectStage::Done(0));
    assert_eq!(
        all,
        vec![
            "out dc-connect \u{2014} /w",
            "out   Connecting ...",
            "out   Connected to container abc123def456",
            "out   workspace_folder: /workspace",
        ]
    );
}

#[test]
fn a_changed_configuration_is_told_of() {
    let (_, all) = connect(false, true, vec![ConnectEvent::Connected, answer(true)]);
    assert_eq!(all[0], "out \u{1b}[1mdc-connect\u{1b}[0m \u{2014} /w");
    assert_eq!(all[2], "out   \u{1b}[32mConnected\u{1b}[0m to container abc123def456");
    assert_eq!(
        all[4..],
        [
            "out ",
            "out   \u{1b}[33mNote:\u{1b}[0m devcontainer config has changed since last build.",
            "out   Consider running: dc-build --force --workspace /w",
        ]
    );
}

#[test]
fn connections_that_fail() {
    let (run, all) = connect(false, false, vec![ConnectEvent::ConnectFailed]);
    assert_eq!(run.stage, ConnectStage::Done(1));
    assert_eq!(
        all[1],
        "err error: failed to connect to tala daemon: failed to connect to tala daemon -- is it running?"
    );
    let (run, all) = connect(false, false, vec![ConnectEvent::Connected, ConnectEvent::CallFailed]);
    assert_eq!(run.stage, ConnectStage::Done(1));
    assert_eq!(all[2], "err error: ConnectContainer RPC failed");
    let (run, all) = connect(false, false, vec![ConnectEvent::Connected, ConnectEvent::TimedOut]);
    assert_eq!(run.stage, ConnectStage::Done(1));
    assert_eq!(all[2], "err error: Connection timed out after 30s");
}

#[test]
fn connections_as_json() {
    let (_, all) = connect(true, true, vec![ConnectEvent::Connected, answer(true)]);
    let parsed = document(&all);
    assert_eq!(parsed["container_id"], "abc123def456789");
    assert_eq!(parsed["workspace_folder"], "/workspace");
    assert_eq!(parsed["config_changed"], true);
    let (_, all) = connect(true, true, vec![ConnectEvent::ConnectFailed]);
    let parsed = document(&all);
    assert_eq!(parsed["workspace"], "/w");
    assert_eq!(
        parsed["error"],
        "Failed to connect to tala: failed to connect to tala daemon -- is it running?"
    );
}

#[test]
fn json_keeps_colours_out() {
    let args = BuildArgs {
        common: CommonArgs { workspace: "/w".to_string(), json: true, verbose: false },
        force_rebuild: false,
        max_wait_seconds: 1,
    };
    assert!(!dc_build::begin(Platform::Unix, "/w".to_string(), &args, true).use_color);
}
