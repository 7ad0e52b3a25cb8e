//! The smoke test: the daemon is asked for a container, and the container is tested.
//!
//! A run is a machine. It says what to do next, is told what came of it, and says what to print.

use crate::build_progress;
use crate::build_progress::{
    BuildCall, BuildProgress, BuildStep, BuildStepModel, CallModel, StreamEvent,
};
use crate::bytes;
use crate::cli;
use crate::cli::{Parsed, ParsedModel};
use crate::console;
use crate::console::{Output, OutputModel};
use crate::docker;
use crate::ipc;
use crate::json;
use crate::lsp_session;
use crate::lsp_session::{Answer, AnswerModel, LspConfig, LspConfigModel};
use crate::path;
use crate::platform::Platform;
use crate::smoke_results;
use crate::smoke_results::{ResultsModel, SmokeResults, StepModel, StepResult};
use crate::text;
use vstd::prelude::*;
use vstd::string::StringExecFns;

verus! {

/// What the help flag prints.
pub const SMOKE_HELP: &'static str = "Usage: dc-smoke [OPTIONS] [WORKSPACE_PATH]\n\nEnd-to-end smoke test for a DevContainer workspace.\n\nOptions:\n  -w, --workspace <PATH>     Workspace to test (default: cwd)\n  -j, --json                 Machine-readable JSON output\n  --max-wait-seconds <N>     Build timeout in seconds (default: 600)\n  --language <rust|python>   Language LSP to test (default: rust)\n  -h, --help                 Show this help\n";

/// How long the answer of a language server is waited for, in seconds.
pub const LSP_TIMEOUT_SECONDS: u64 = 60;

/// How long the end of a language server is waited for, in seconds.
pub const EXIT_TIMEOUT_SECONDS: u64 = 5;

/// The arguments of the smoke test.
#[derive(Debug)]
pub struct SmokeArgs {
    pub workspace_path: String,
    pub max_wait_seconds: u64,
    pub json: bool,
    pub lsp_config: LspConfig,
}

/// The model of the arguments of the smoke test.
pub struct SmokeArgsModel {
    pub workspace_path: Seq<char>,
    pub max_wait_seconds: nat,
    pub json: bool,
    pub lsp_config: LspConfigModel,
}

impl View for SmokeArgs {
    type V = SmokeArgsModel;

    open spec fn view(&self) -> SmokeArgsModel {
        SmokeArgsModel {
            workspace_path: self.workspace_path@,
            max_wait_seconds: self.max_wait_seconds as nat,
            json: self.json,
            lsp_config: self.lsp_config@,
        }
    }
}

/// The language that a command line names.
pub open spec fn language(args: Seq<Seq<char>>) -> Seq<char> {
    match cli::flag_value(args, "--language"@) {
        Some(name) => name,
        None => "rust"@,
    }
}

/// The language server of a language.
pub open spec fn language_server(name: Seq<char>) -> Option<LspConfigModel> {
    if name == "rust"@ {
        Some(lsp_session::rust_config())
    } else if name == "python"@ {
        Some(lsp_session::python_config())
    } else {
        None
    }
}

/// What a command line says that was given in `current_dir`.
pub open spec fn smoke_args(
    args: Seq<Seq<char>>,
    current_dir: Option<Seq<char>>,
) -> ParsedModel<SmokeArgsModel> {
    let common = cli::common_args(args, current_dir);
    let own = cli::without_common(args);
    let rest = cli::without_flag(own, "--max-wait-seconds"@);
    if cli::asks_help(args) {
        ParsedModel::Help
    } else {
        match (cli::max_wait(own), language_server(language(rest))) {
            (None, _) => ParsedModel::Reject(cli::usage_error(cli::MAX_WAIT_MESSAGE@)),
            (Some(_), None) => ParsedModel::Reject(
                cli::usage_error(
                    "unsupported --language value: "@ + language(rest)
                        + " (expected: rust, python)"@,
                ),
            ),
            (Some(max_wait_seconds), Some(lsp_config)) => ParsedModel::Run(
                SmokeArgsModel {
                    workspace_path: match cli::positional(
                        cli::without_flag(rest, "--language"@),
                    ) {
                        Some(workspace) => workspace,
                        None => common.workspace,
                    },
                    max_wait_seconds,
                    json: common.json,
                    lsp_config,
                },
            ),
        }
    }
}

/// Takes a command line apart that was given in `current_dir`. A workspace may also be named
/// without a flag.
pub fn parse_args(args: Vec<String>, current_dir: Option<String>) -> (r: Parsed<SmokeArgs>)
    ensures
        r@ == smoke_args(text::texts(args@), text::text_option(current_dir)),
{
    let mut args = args;
    if cli::wants_help(&args) {
        return Parsed::Help;
    }
    let common = cli::parse_common_args(&mut args, current_dir);
    let max_wait_seconds = match cli::extract_max_wait(&mut args) {
        Some(seconds) => seconds,
        None => {
            return Parsed::Reject(cli::usage_message(cli::MAX_WAIT_MESSAGE));
        },
    };
    let name = match cli::extract_flag(&mut args, "--language") {
        Some(name) => name,
        None => "rust".to_owned(),
    };
    let lsp_config = if text::same(name.as_str(), "rust") {
        LspConfig::rust()
    } else if text::same(name.as_str(), "python") {
        LspConfig::python()
    } else {
        return Parsed::Reject(
            cli::usage_message(
                "unsupported --language value: ".to_owned().concat(name.as_str()).concat(
                    " (expected: rust, python)",
                ).as_str(),
            ),
        );
    };
    let workspace_path = match cli::find_positional(&args) {
        Some(workspace) => workspace,
        None => common.workspace,
    };
    Parsed::Run(SmokeArgs { workspace_path, max_wait_seconds, json: common.json, lsp_config })
}

/// Where a run is: what it waits for, or its exit code.
#[derive(Debug)]
pub enum SmokeStage {
    Connect,
    Health,
    Docker,
    Config,
    Build { config_path: String },
    Terminal { container_id: String },
    FindServer { container_id: String },
    StartServer { container_id: String },
    Initialize,
    Answer,
    Close,
    Exit,
    Done(i32),
}

/// The model of where a run is.
pub enum StageModel {
    Connect,
    Health,
    Docker,
    Config,
    Build { config_path: Seq<char> },
    Terminal { container_id: Seq<char> },
    FindServer { container_id: Seq<char> },
    StartServer { container_id: Seq<char> },
    Initialize,
    Answer,
    Close,
    Exit,
    Done(i32),
}

impl View for SmokeStage {
    type V = StageModel;

    open spec fn view(&self) -> StageModel {
        match *self {
            SmokeStage::Connect => StageModel::Connect,
            SmokeStage::Health => StageModel::Health,
            SmokeStage::Docker => StageModel::Docker,
            SmokeStage::Config => StageModel::Config,
            SmokeStage::Build { config_path } => StageModel::Build { config_path: config_path@ },
            SmokeStage::Terminal { container_id } => StageModel::Terminal {
                container_id: container_id@,
            },
            SmokeStage::FindServer { container_id } => StageModel::FindServer {
                container_id: container_id@,
            },
            SmokeStage::StartServer { container_id } => StageModel::StartServer {
                container_id: container_id@,
            },
            SmokeStage::Initialize => StageModel::Initialize,
            SmokeStage::Answer => StageModel::Answer,
            SmokeStage::Close => StageModel::Close,
            SmokeStage::Exit => StageModel::Exit,
            SmokeStage::Done(code) => StageModel::Done(code),
        }
    }
}

/// What came of what a run asked for.
#[derive(Debug)]
pub enum SmokeEvent {
    /// The daemon accepted the connection.
    Connected,
    /// The daemon did not accept the connection.
    ConnectFailed,
    /// The daemon says how it is.
    Health { version: String, healthy: bool },
    /// The daemon says how Docker is.
    Docker { available: bool, permissions_ok: bool, error_message: String },
    /// The daemon did not answer.
    CallFailed,
    /// Which of the two places holds a configuration.
    Config { primary_exists: bool, fallback_exists: bool },
    /// The daemon reports of the build.
    Build(StreamEvent),
    /// A command ran to its end.
    Command { success: bool, status: String, stdout: Vec<u8>, stderr: Vec<u8> },
    /// A command could not be run.
    CommandFailed,
    /// The language server was started.
    Started,
    /// The language server could not be started.
    StartFailed,
    /// All bytes were sent to the language server.
    Sent,
    /// The bytes could not be sent.
    SendFailed(String),
    /// The language server sent a message.
    Message(String),
    /// No message could be read.
    ReadFailed,
    /// The language server has ended.
    Exited,
    /// The end of the language server could not be waited for.
    ExitFailed(String),
    /// What was asked for did not come in time.
    TimedOut,
}

/// What a run asks for.
#[derive(Debug)]
pub enum SmokeAction {
    Connect,
    CheckHealth,
    CheckDocker,
    LookForConfig,
    /// The next report of the build, which is begun where it was not.
    Build { config_path: String },
    /// Run `docker` with these arguments.
    Run(Vec<String>),
    /// Start `docker` with these arguments, and talk to it.
    Start(Vec<String>),
    Send(Vec<u8>),
    Receive,
    AwaitExit,
    Finish(i32),
}

/// The model of what a run asks for.
pub enum ActionModel {
    Connect,
    CheckHealth,
    CheckDocker,
    LookForConfig,
    Build { config_path: Seq<char> },
    Run(Seq<Seq<char>>),
    Start(Seq<Seq<char>>),
    Send(Seq<u8>),
    Receive,
    AwaitExit,
    Finish(i32),
}

impl View for SmokeAction {
    type V = ActionModel;

    open spec fn view(&self) -> ActionModel {
        match *self {
            SmokeAction::Connect => ActionModel::Connect,
            SmokeAction::CheckHealth => ActionModel::CheckHealth,
            SmokeAction::CheckDocker => ActionModel::CheckDocker,
            SmokeAction::LookForConfig => ActionModel::LookForConfig,
            SmokeAction::Build { config_path } => ActionModel::Build { config_path: config_path@ },
            SmokeAction::Run(args) => ActionModel::Run(text::texts(args@)),
            SmokeAction::Start(args) => ActionModel::Start(text::texts(args@)),
            SmokeAction::Send(data) => ActionModel::Send(data@),
            SmokeAction::Receive => ActionModel::Receive,
            SmokeAction::AwaitExit => ActionModel::AwaitExit,
            SmokeAction::Finish(code) => ActionModel::Finish(code),
        }
    }
}

/// A run of the smoke test.
#[derive(Debug)]
pub struct SmokeRun {
    pub platform: Platform,
    pub json: bool,
    pub workspace: String,
    pub project_name: String,
    pub max_wait_seconds: u64,
    pub lsp: LspConfig,
    pub stage: SmokeStage,
    pub results: SmokeResults,
}

/// The model of a run of the smoke test.
pub struct RunModel {
    pub platform: Platform,
    pub json: bool,
    pub workspace: Seq<char>,
    pub project_name: Seq<char>,
    pub max_wait_seconds: u64,
    pub lsp: LspConfigModel,
    pub stage: StageModel,
    pub results: ResultsModel,
}

impl View for SmokeRun {
    type V = RunModel;

    open spec fn view(&self) -> RunModel {
        RunModel {
            platform: self.platform,
            json: self.json,
            workspace: self.workspace@,
            project_name: self.project_name@,
            max_wait_seconds: self.max_wait_seconds,
            lsp: self.lsp@,
            stage: self.stage@,
            results: self.results@,
        }
    }
}

/// A run after something came, and what is printed then.
pub struct Turn {
    pub run: RunModel,
    pub output: Seq<OutputModel>,
}

/// The run of a command line on a workspace, and what is printed at its start.
pub open spec fn first_turn(
    platform: Platform,
    workspace: Seq<char>,
    max_wait_seconds: u64,
    json: bool,
    lsp: LspConfigModel,
) -> Turn {
    let project_name = path::project_name_text(platform, workspace);
    Turn {
        run: RunModel {
            platform,
            json,
            workspace,
            project_name,
            max_wait_seconds,
            lsp,
            stage: StageModel::Connect,
            results: smoke_results::no_results(lsp.display_name),
        },
        output: console::unless_json(
            json,
            seq![
                console::out("=== dc-smoke \u{2014} DevContainer Smoke Test ==="@),
                console::out("workspace:  "@ + workspace),
                console::out("project:    "@ + project_name),
                console::out("language:   "@ + lsp.display_name),
                console::out("timeout:    "@ + text::decimal_text(max_wait_seconds as nat) + "s"@),
                console::out(""@),
                console::out(
                    "[DAEMON]    Connecting to tala daemon at "@ + ipc::tala_address_text(platform)
                        + " ..."@,
                ),
            ],
        ),
    }
}

/// What a run asks for.
pub open spec fn action_of(run: RunModel) -> ActionModel {
    match run.stage {
        StageModel::Connect => ActionModel::Connect,
        StageModel::Health => ActionModel::CheckHealth,
        StageModel::Docker => ActionModel::CheckDocker,
        StageModel::Config => ActionModel::LookForConfig,
        StageModel::Build { config_path } => ActionModel::Build { config_path },
        StageModel::Terminal { container_id } => ActionModel::Run(
            docker::terminal_command(container_id),
        ),
        StageModel::FindServer { container_id } => ActionModel::Run(
            docker::binary_command(container_id, run.lsp.check_binary),
        ),
        StageModel::StartServer { container_id } => ActionModel::Start(
            docker::server_command(
                container_id,
                run.project_name,
                run.lsp.server_binary,
                run.lsp.server_args,
            ),
        ),
        StageModel::Initialize => ActionModel::Send(
            lsp_session::message_bytes(
                lsp_session::initialize_json(
                    docker::container_dir(run.project_name),
                    run.project_name,
                ),
            ),
        ),
        StageModel::Answer => ActionModel::Receive,
        StageModel::Close => ActionModel::Send(
            lsp_session::message_bytes(lsp_session::initialized_json())
                + lsp_session::message_bytes(lsp_session::shutdown_json())
                + lsp_session::message_bytes(lsp_session::exit_json()),
        ),
        StageModel::Exit => ActionModel::AwaitExit,
        StageModel::Done(code) => ActionModel::Finish(code),
    }
}

/// The call that asks the daemon for the build, where the run waits for one.
pub open spec fn build_call_of(run: RunModel) -> Option<CallModel> {
    match run.stage {
        StageModel::Build { config_path } => Some(
            CallModel { workspace_path: run.workspace, config_path, force_rebuild: false },
        ),
        _ => None,
    }
}

/// What is printed at the end: the document, or the summary.
pub open spec fn closing(
    json: bool,
    workspace: Seq<char>,
    results: ResultsModel,
) -> Seq<OutputModel> {
    if json {
        seq![
            console::out(json::pretty_text(smoke_results::results_json(results, workspace))),
        ]
    } else {
        console::outs(smoke_results::summary_texts(results))
    }
}

/// The run ends with these results and this exit code.
pub open spec fn finished(
    run: RunModel,
    results: ResultsModel,
    code: i32,
    remarks: Seq<OutputModel>,
) -> Turn {
    Turn {
        run: RunModel { stage: StageModel::Done(code), results, ..run },
        output: remarks + closing(run.json, run.workspace, results),
    }
}

/// The run goes on to another stage.
pub open spec fn goes_on(
    run: RunModel,
    stage: StageModel,
    remarks: Seq<OutputModel>,
) -> Turn {
    Turn { run: RunModel { stage, ..run }, output: console::unless_json(run.json, remarks) }
}

/// The run waits on.
pub open spec fn stays(run: RunModel) -> Turn {
    Turn { run, output: seq![] }
}

/// The run ends before there is a container: the first step failed, and the others are skipped.
pub open spec fn no_container(
    run: RunModel,
    label: Seq<char>,
    shown: Seq<char>,
    message: Seq<char>,
    skipped: Seq<char>,
    code: i32,
) -> Turn {
    finished(
        run,
        ResultsModel {
            devcontainer: Some(StepModel::Fail(message)),
            terminal: Some(StepModel::Skip(skipped)),
            lsp: Some(StepModel::Skip(skipped)),
            ..run.results
        },
        code,
        console::unless_json(run.json, seq![console::err(label + " FAIL: "@ + shown)]),
    )
}

/// The daemon is not well.
pub open spec fn unhealthy(run: RunModel, message: Seq<char>) -> Turn {
    no_container(run, "[PREFLIGHT]"@, message, message, "preflight failed"@, 1)
}

/// Docker cannot be used.
pub open spec fn no_docker(run: RunModel, message: Seq<char>) -> Turn {
    no_container(run, "[PREFLIGHT]"@, message, message, "preflight failed"@, 2)
}

/// There is no container to test.
pub open spec fn not_built(run: RunModel, message: Seq<char>) -> Turn {
    no_container(run, "[DEVCONTAINER]"@, message, message, "no container"@, 4)
}

/// The turn of a run that waits for a connection.
pub open spec fn connect_turn(run: RunModel, event: SmokeEvent) -> Turn {
    match event {
        SmokeEvent::Connected => goes_on(
            run,
            StageModel::Health,
            seq![
                console::out("[DAEMON]    Connected"@),
                console::out("[DAEMON]    Health check ..."@),
            ],
        ),
        SmokeEvent::ConnectFailed => no_container(
            run,
            "[DAEMON]   "@,
            ipc::CONNECT_MESSAGE@,
            "connect: "@ + ipc::CONNECT_MESSAGE@,
            "no daemon"@,
            1,
        ),
        _ => stays(run),
    }
}

/// The turn of a run that waits to hear how the daemon is.
pub open spec fn health_turn(run: RunModel, event: SmokeEvent) -> Turn {
    match event {
        SmokeEvent::Health { version, healthy } => if healthy {
            goes_on(
                run,
                StageModel::Docker,
                seq![
                    console::out("[DAEMON]    Healthy (version="@ + version@ + ")"@),
                    console::out("[PREFLIGHT] Checking Docker availability ..."@),
                ],
            )
        } else {
            unhealthy(run, "daemon reported unhealthy (version="@ + version@ + ")"@)
        },
        SmokeEvent::CallFailed => unhealthy(run, "health check RPC failed"@),
        _ => stays(run),
    }
}

/// The turn of a run that waits to hear how Docker is.
pub open spec fn docker_turn(run: RunModel, event: SmokeEvent) -> Turn {
    match event {
        SmokeEvent::Docker { available, permissions_ok, error_message } => if !available {
            no_docker(run, "docker not available: "@ + error_message@)
        } else if !permissions_ok {
            no_docker(run, "docker permissions issue: "@ + error_message@)
        } else {
            goes_on(
                run,
                StageModel::Config,
                seq![console::out("[PREFLIGHT] Passed (docker available, permissions ok)"@)],
            )
        },
        SmokeEvent::CallFailed => no_docker(run, "preflight RPC failed"@),
        _ => stays(run),
    }
}

/// The turn of a run that looks for a configuration.
pub open spec fn config_turn(run: RunModel, event: SmokeEvent) -> Turn {
    match event {
        SmokeEvent::Config { primary_exists, fallback_exists } => match ipc::detected_config(
            run.platform,
            run.workspace,
            primary_exists,
            fallback_exists,
        ) {
            Some(config_path) => goes_on(
                run,
                StageModel::Build { config_path },
                seq![
                    console::out("[DEVCONTAINER] Config: "@ + config_path),
                    console::out(
                        "[DEVCONTAINER] Building (timeout="@ + text::decimal_text(
                            run.max_wait_seconds as nat,
                        ) + "s) ..."@,
                    ),
                    console::out("[DEVCONTAINER] workspace: "@ + run.workspace),
                    console::out("[DEVCONTAINER] config:    "@ + config_path),
                ],
            ),
            None => no_container(
                run,
                "[DEVCONTAINER]"@,
                "no .devcontainer/devcontainer.json found"@,
                "no .devcontainer/devcontainer.json found"@,
                "no config"@,
                3,
            ),
        },
        _ => stays(run),
    }
}

/// What is said before the error that a build reports.
pub const BUILD_FAILED: &'static str = "build failed: ";

/// The turn of a run that waits for its container.
pub open spec fn build_turn(run: RunModel, event: SmokeEvent) -> Turn {
    match event {
        SmokeEvent::Build(report) => match build_progress::stream_step(report, BUILD_FAILED@) {
            BuildStepModel::Wait => goes_on(
                run,
                run.stage,
                seq![
                    console::out(
                        "[DEVCONTAINER] "@ + build_progress::report_text(report->Report_0, "--"@),
                    ),
                ],
            ),
            BuildStepModel::Ready(container_id) => goes_on(
                RunModel {
                    results: ResultsModel {
                        devcontainer: Some(
                            StepModel::Okay("container "@ + text::short_id_text(container_id)),
                        ),
                        ..run.results
                    },
                    ..run
                },
                StageModel::Terminal { container_id },
                seq![
                    console::out("[DEVCONTAINER] Build complete -- container "@ + container_id),
                    console::out(
                        "[TERMINAL]  Running: docker exec "@ + container_id + " echo SMOKE_OK"@,
                    ),
                ],
            ),
            BuildStepModel::Fail(message) => not_built(run, message),
        },
        SmokeEvent::TimedOut => not_built(
            run,
            "DevContainer build timed out after "@ + text::decimal_text(
                run.max_wait_seconds as nat,
            ) + "s (use --max-wait-seconds to increase)"@,
        ),
        _ => stays(run),
    }
}

/// Why the test of a terminal failed, where it did.
pub open spec fn terminal_error(event: SmokeEvent) -> Option<Seq<char>> {
    match event {
        SmokeEvent::Command { success, status, stdout, stderr } => if !success {
            Some(
                "docker exec exited with "@ + status@ + ": "@ + text::trimmed(
                    bytes::shown_text(stderr@),
                ),
            )
        } else if !text::contains_text(bytes::shown_text(stdout@), docker::SMOKE_MARK@) {
            Some(
                "expected SMOKE_OK in stdout, got: "@ + text::trimmed(bytes::shown_text(stdout@)),
            )
        } else {
            None
        },
        _ => Some("failed to run docker exec"@),
    }
}

/// The turn of a run that tests the terminal. The test of the language server comes next, however
/// this one ended.
pub open spec fn terminal_turn(run: RunModel, container_id: Seq<char>, event: SmokeEvent) -> Turn {
    let server = console::out(
        run.lsp.log_tag + " Checking "@ + run.lsp.display_name + " availability ..."@,
    );
    if event is Command || event is CommandFailed {
        match terminal_error(event) {
            None => goes_on(
                RunModel {
                    results: ResultsModel {
                        terminal: Some(StepModel::Okay("echo SMOKE_OK received"@)),
                        ..run.results
                    },
                    ..run
                },
                StageModel::FindServer { container_id },
                seq![console::out("[TERMINAL]  Received SMOKE_OK"@), server],
            ),
            Some(message) => goes_on(
                RunModel {
                    results: ResultsModel {
                        terminal: Some(StepModel::Fail(message)),
                        ..run.results
                    },
                    ..run
                },
                StageModel::FindServer { container_id },
                seq![console::err("[TERMINAL]  FAIL: "@ + message), server],
            ),
        }
    } else {
        stays(run)
    }
}

/// The test of the language server ends with an error. One that says that the server is not in
/// the container skips the test.
pub open spec fn server_failed(run: RunModel, message: Seq<char>) -> Turn {
    let skipped = text::contains_text(message, "not found in container"@);
    let results = ResultsModel {
        lsp: Some(
            if skipped {
                StepModel::Skip(message)
            } else {
                StepModel::Fail(message)
            },
        ),
        ..run.results
    };
    finished(
        run,
        results,
        smoke_results::exit_code_of(results),
        console::unless_json(
            run.json,
            seq![
                if skipped {
                    console::out(run.lsp.log_tag + " SKIP: "@ + message)
                } else {
                    console::err(run.lsp.log_tag + " FAIL: "@ + message)
                },
            ],
        ),
    )
}

/// The turn of a run that looks for the language server in the container.
pub open spec fn find_turn(run: RunModel, container_id: Seq<char>, event: SmokeEvent) -> Turn {
    match event {
        SmokeEvent::Command { success, stdout, .. } => if success {
            goes_on(
                run,
                StageModel::StartServer { container_id },
                seq![
                    console::out(
                        run.lsp.log_tag + " Found: "@ + text::trimmed(
                            bytes::shown_text(stdout@),
                        ),
                    ),
                    console::out(run.lsp.log_tag + " Running initialize/shutdown cycle ..."@),
                ],
            )
        } else {
            server_failed(
                run,
                run.lsp.display_name + " not found in container (install it for LSP tests)"@,
            )
        },
        SmokeEvent::CommandFailed => server_failed(
            run,
            "failed to check "@ + run.lsp.display_name + " availability"@,
        ),
        _ => stays(run),
    }
}

/// The turn of a run that starts the language server.
pub open spec fn start_turn(run: RunModel, event: SmokeEvent) -> Turn {
    match event {
        SmokeEvent::Started => goes_on(run, StageModel::Initialize, seq![]),
        SmokeEvent::StartFailed => server_failed(
            run,
            "failed to spawn "@ + run.lsp.server_binary + " via docker exec"@,
        ),
        _ => stays(run),
    }
}

/// The turn of a run that sends to the language server.
pub open spec fn send_turn(run: RunModel, next: StageModel, event: SmokeEvent) -> Turn {
    match event {
        SmokeEvent::Sent => goes_on(run, next, seq![]),
        SmokeEvent::SendFailed(message) => server_failed(run, message@),
        _ => stays(run),
    }
}

/// The turn of a run to which the language server says this.
pub open spec fn heard_turn(run: RunModel, heard: AnswerModel) -> Turn {
    match heard {
        AnswerModel::Notification(method) => goes_on(
            run,
            StageModel::Answer,
            seq![
                console::out(
                    run.lsp.log_tag + " (skipping notification: "@ + method + ")"@,
                ),
            ],
        ),
        AnswerModel::Other(id) => goes_on(
            run,
            StageModel::Answer,
            seq![
                console::out(
                    run.lsp.log_tag + " (skipping message with id=Some("@ + id + "))"@,
                ),
            ],
        ),
        AnswerModel::Refused(error) => server_failed(
            run,
            run.lsp.display_name + " initialize returned error: "@ + error,
        ),
        AnswerModel::Ready { name, version } => goes_on(
            run,
            StageModel::Close,
            seq![console::out(run.lsp.log_tag + " Server: "@ + name + " v"@ + version)],
        ),
    }
}

/// The turn of a run that waits for the answer of the language server.
pub open spec fn answer_turn(run: RunModel, event: SmokeEvent) -> Turn {
    match event {
        SmokeEvent::Message(raw) => match json::parsed_json(raw@) {
            Some(message) => heard_turn(run, lsp_session::answer(message)),
            None => server_failed(run, "invalid JSON in LSP message"@),
        },
        SmokeEvent::ReadFailed => server_failed(run, "failed to read LSP message"@),
        SmokeEvent::TimedOut => server_failed(
            run,
            "timeout (60s) waiting for "@ + run.lsp.display_name + " initialize response"@,
        ),
        _ => stays(run),
    }
}

/// The end of a run whose language server was talked to.
pub open spec fn server_done(run: RunModel, warning: Seq<OutputModel>) -> Turn {
    let results = ResultsModel {
        lsp: Some(StepModel::Okay("initialize/shutdown ok"@)),
        ..run.results
    };
    finished(
        run,
        results,
        smoke_results::exit_code_of(results),
        warning + console::unless_json(
            run.json,
            seq![console::out(run.lsp.log_tag + " Initialize/shutdown cycle completed"@)],
        ),
    )
}

/// The turn of a run that waits for the language server to end. One that does not is warned of,
/// and no more.
pub open spec fn exit_turn(run: RunModel, event: SmokeEvent) -> Turn {
    match event {
        SmokeEvent::Exited => server_done(run, seq![]),
        SmokeEvent::ExitFailed(error) => server_done(
            run,
            seq![console::err(run.lsp.log_tag + " warning: child wait error: "@ + error@)],
        ),
        SmokeEvent::TimedOut => server_done(
            run,
            seq![console::err(run.lsp.log_tag + " warning: child did not exit within 5s"@)],
        ),
        _ => stays(run),
    }
}

/// The turn of a run. What a run did not ask for leaves it as it was.
pub open spec fn turn(run: RunModel, event: SmokeEvent) -> Turn {
    match run.stage {
        StageModel::Connect => connect_turn(run, event),
        StageModel::Health => health_turn(run, event),
        StageModel::Docker => docker_turn(run, event),
        StageModel::Config => config_turn(run, event),
        StageModel::Build { .. } => build_turn(run, event),
        StageModel::Terminal { container_id } => terminal_turn(run, container_id, event),
        StageModel::FindServer { container_id } => find_turn(run, container_id, event),
        StageModel::StartServer { .. } => start_turn(run, event),
        StageModel::Initialize => send_turn(run, StageModel::Answer, event),
        StageModel::Answer => answer_turn(run, event),
        StageModel::Close => send_turn(run, StageModel::Exit, event),
        StageModel::Exit => exit_turn(run, event),
        StageModel::Done(_) => stays(run),
    }
}

/// Whether the container that an event names, if it names one, can be shown by the start of its
/// id.
pub open spec fn nameable(event: SmokeEvent) -> bool {
    event matches SmokeEvent::Build(report) ==> (build_progress::stream_step(
        report,
        BUILD_FAILED@,
    ) matches BuildStepModel::Ready(id) ==> text::has_short_id(id))
}

/// The run of a command line on a workspace, and what is printed at its start.
pub fn begin(
    platform: Platform,
    workspace: String,
    max_wait_seconds: u64,
    json: bool,
    lsp: LspConfig,
) -> (r: (SmokeRun, Vec<Output>))
    ensures
        r.0@ == first_turn(platform, workspace@, max_wait_seconds, json, lsp@).run,
        console::outputs(r.1@) == first_turn(
            platform,
            workspace@,
            max_wait_seconds,
            json,
            lsp@,
        ).output,
{
    let project_name = path::project_name(platform, workspace.as_str());
    let lines = vec![
        Output::Stdout("=== dc-smoke \u{2014} DevContainer Smoke Test ===".to_owned()),
        Output::Stdout("workspace:  ".to_owned().concat(workspace.as_str())),
        Output::Stdout("project:    ".to_owned().concat(project_name.as_str())),
        Output::Stdout("language:   ".to_owned().concat(lsp.display_name.as_str())),
        Output::Stdout(
            "timeout:    ".to_owned().concat(text::decimal(max_wait_seconds).as_str()).concat("s"),
        ),
        Output::Stdout("".to_owned()),
        Output::Stdout(
            "[DAEMON]    Connecting to tala daemon at ".to_owned().concat(
                ipc::tala_address(platform),
            ).concat(" ..."),
        ),
    ];
    let output = console::remarks(json, lines);
    let results = SmokeResults::new(lsp.display_name.as_str());
    let run = SmokeRun {
        platform,
        json,
        workspace,
        project_name,
        max_wait_seconds,
        lsp,
        stage: SmokeStage::Connect,
        results,
    };
    assert(console::outputs(output@) =~= first_turn(
        platform,
        workspace@,
        max_wait_seconds,
        json,
        lsp@,
    ).output);
    (run, output)
}

impl SmokeRun {
    /// What the run asks for.
    pub fn action(&self) -> (r: SmokeAction)
        ensures
            r@ == action_of(self@),
    {
        match &self.stage {
            SmokeStage::Connect => SmokeAction::Connect,
            SmokeStage::Health => SmokeAction::CheckHealth,
            SmokeStage::Docker => SmokeAction::CheckDocker,
            SmokeStage::Config => SmokeAction::LookForConfig,
            SmokeStage::Build { config_path } => SmokeAction::Build {
                config_path: config_path.clone(),
            },
            SmokeStage::Terminal { container_id } => SmokeAction::Run(
                docker::terminal_args(container_id.as_str()),
            ),
            SmokeStage::FindServer { container_id } => SmokeAction::Run(
                docker::binary_args(container_id.as_str(), self.lsp.check_binary.as_str()),
            ),
            SmokeStage::StartServer { container_id } => SmokeAction::Start(
                docker::server_args(
                    container_id.as_str(),
                    self.project_name.as_str(),
                    self.lsp.server_binary.as_str(),
                    &self.lsp.server_args,
                ),
            ),
            SmokeStage::Initialize => {
                let workdir = docker::container_path(self.project_name.as_str());
                let message = lsp_session::initialize_message(
                    workdir.as_str(),
                    self.project_name.as_str(),
                );
                SmokeAction::Send(lsp_session::frame_message(&message))
            },
            SmokeStage::Answer => SmokeAction::Receive,
            SmokeStage::Close => {
                let mut data = lsp_session::frame_message(&lsp_session::initialized_message());
                let mut shutdown = lsp_session::frame_message(&lsp_session::shutdown_message());
                let mut exit = lsp_session::frame_message(&lsp_session::exit_message());
                data.append(&mut shutdown);
                data.append(&mut exit);
                SmokeAction::Send(data)
            },
            SmokeStage::Exit => SmokeAction::AwaitExit,
            SmokeStage::Done(code) => SmokeAction::Finish(*code),
        }
    }

    /// The call that asks the daemon for the build, where the run waits for one. The container
    /// that is there is kept: nothing is rebuilt by force.
    pub fn build_call(&self) -> (r: Option<BuildCall>)
        ensures
            build_progress::call_option(r) == build_call_of(self@),
    {
        match &self.stage {
            SmokeStage::Build { config_path } => Some(
                BuildCall {
                    workspace_path: self.workspace.clone(),
                    config_path: config_path.clone(),
                    force_rebuild: false,
                },
            ),
            _ => None,
        }
    }

    /// The run ends with these results and this exit code.
    fn finish(self, results: SmokeResults, code: i32, remarks: Vec<Output>) -> (r: (
        SmokeRun,
        Vec<Output>,
    ))
        ensures
            r.0@ == finished(self@, results@, code, console::outputs(remarks@)).run,
            console::outputs(r.1@) == finished(
                self@,
                results@,
                code,
                console::outputs(remarks@),
            ).output,
    {
        let last = if self.json {
            match json::to_pretty(&results.to_json(self.workspace.as_str()).to_json()) {
                Ok(document) => vec![Output::Stdout(document)],
                Err(_) => Vec::new(),
            }
        } else {
            console::stdout_lines(results.summary_lines())
        };
        assert(console::outputs(last@) =~= closing(self@.json, self@.workspace, results@));
        let output = console::both(remarks, last);
        let run = SmokeRun { stage: SmokeStage::Done(code), results, ..self };
        (run, output)
    }

    /// The run goes on to another stage.
    fn go_on(self, stage: SmokeStage, remarks: Vec<Output>) -> (r: (SmokeRun, Vec<Output>))
        ensures
            r.0@ == goes_on(self@, stage@, console::outputs(remarks@)).run,
            console::outputs(r.1@) == goes_on(
                self@,
                stage@,
                console::outputs(remarks@),
            ).output,
    {
        let output = console::remarks(self.json, remarks);
        (SmokeRun { stage, ..self }, output)
    }

    /// The run waits on.
    fn stay(self) -> (r: (SmokeRun, Vec<Output>))
        ensures
            r.0@ == stays(self@).run,
            console::outputs(r.1@) == stays(self@).output,
    {
        let output: Vec<Output> = Vec::new();
        assert(console::outputs(output@) =~= seq![]);
        (self, output)
    }

    /// The run ends before there is a container.
    fn fail_early(
        self,
        label: &str,
        shown: &str,
        message: &str,
        skipped: &str,
        code: i32,
    ) -> (r: (SmokeRun, Vec<Output>))
        ensures
            r.0@ == no_container(self@, label@, shown@, message@, skipped@, code).run,
            console::outputs(r.1@) == no_container(
                self@,
                label@,
                shown@,
                message@,
                skipped@,
                code,
            ).output,
    {
        let lines = vec![
            Output::Stderr(label.to_owned().concat(" FAIL: ").concat(shown)),
        ];
        assert(console::outputs(lines@) =~= seq![console::err(label@ + " FAIL: "@ + shown@)]);
        let remarks = console::remarks(self.json, lines);
        let results = SmokeResults {
            devcontainer: Some(StepResult::Fail(message.to_owned())),
            terminal: Some(StepResult::Skip(skipped.to_owned())),
            lsp: Some(StepResult::Skip(skipped.to_owned())),
            lsp_label: self.results.lsp_label.clone(),
        };
        self.finish(results, code, remarks)
    }

    /// The test of the language server ends with an error.
    fn fail_server(self, message: String) -> (r: (SmokeRun, Vec<Output>))
        ensures
            r.0@ == server_failed(self@, message@).run,
            console::outputs(r.1@) == server_failed(self@, message@).output,
    {
        let tag = self.lsp.log_tag.as_str();
        let skipped = text::contains(message.as_str(), "not found in container");
        let lines = if skipped {
            vec![Output::Stdout(tag.to_owned().concat(" SKIP: ").concat(message.as_str()))]
        } else {
            vec![Output::Stderr(tag.to_owned().concat(" FAIL: ").concat(message.as_str()))]
        };
        assert(console::outputs(lines@) =~= seq![
            if skipped {
                console::out(tag@ + " SKIP: "@ + message@)
            } else {
                console::err(tag@ + " FAIL: "@ + message@)
            },
        ]);
        let remarks = console::remarks(self.json, lines);
        let mut run = self;
        let mut results = SmokeResults::new("");
        std::mem::swap(&mut results, &mut run.results);
        results.lsp = Some(
            if skipped {
                StepResult::Skip(message)
            } else {
                StepResult::Fail(message)
            },
        );
        let code = results.exit_code();
        run.finish(results, code, remarks)
    }

    /// The end of a run whose language server was talked to.
    fn end_server(self, warning: Vec<Output>) -> (r: (SmokeRun, Vec<Output>))
        ensures
            r.0@ == server_done(self@, console::outputs(warning@)).run,
            console::outputs(r.1@) == server_done(self@, console::outputs(warning@)).output,
    {
        let lines = vec![
            Output::Stdout(
                self.lsp.log_tag.clone().concat(" Initialize/shutdown cycle completed"),
            ),
        ];
        assert(console::outputs(lines@) =~= seq![
            console::out(self@.lsp.log_tag + " Initialize/shutdown cycle completed"@),
        ]);
        let remarks = console::both(warning, console::remarks(self.json, lines));
        let mut run = self;
        let mut results = SmokeResults::new("");
        std::mem::swap(&mut results, &mut run.results);
        results.lsp = Some(StepResult::Okay("initialize/shutdown ok".to_owned()));
        let code = results.exit_code();
        run.finish(results, code, remarks)
    }

    /// The turn of a run that waits for a connection.
    fn after_connect(self, event: SmokeEvent) -> (r: (SmokeRun, Vec<Output>))
        ensures
            r.0@ == connect_turn(self@, event).run,
            console::outputs(r.1@) == connect_turn(self@, event).output,
    {
        match event {
            SmokeEvent::Connected => {
                let lines = vec![
                    Output::Stdout("[DAEMON]    Connected".to_owned()),
                    Output::Stdout("[DAEMON]    Health check ...".to_owned()),
                ];
                assert(console::outputs(lines@) =~= seq![
                    console::out("[DAEMON]    Connected"@),
                    console::out("[DAEMON]    Health check ..."@),
                ]);
                self.go_on(SmokeStage::Health, lines)
            },
            SmokeEvent::ConnectFailed => {
                let message = "connect: ".to_owned().concat(ipc::CONNECT_MESSAGE);
                self.fail_early(
                    "[DAEMON]   ",
                    ipc::CONNECT_MESSAGE,
                    message.as_str(),
                    "no daemon",
                    1,
                )
            },
            _ => self.stay(),
        }
    }

    /// The turn of a run that waits to hear how the daemon is.
    fn after_health(self, event: SmokeEvent) -> (r: (SmokeRun, Vec<Output>))
        ensures
            r.0@ == health_turn(self@, event).run,
            console::outputs(r.1@) == health_turn(self@, event).output,
    {
        match event {
            SmokeEvent::Health { version, healthy } => {
                if healthy {
                    let lines = vec![
                        Output::Stdout(
                            "[DAEMON]    Healthy (version=".to_owned().concat(
                                version.as_str(),
                            ).concat(")"),
                        ),
                        Output::Stdout("[PREFLIGHT] Checking Docker availability ...".to_owned()),
                    ];
                    assert(console::outputs(lines@) =~= seq![
                        console::out("[DAEMON]    Healthy (version="@ + version@ + ")"@),
                        console::out("[PREFLIGHT] Checking Docker availability ..."@),
                    ]);
                    self.go_on(SmokeStage::Docker, lines)
                } else {
                    let message = "daemon reported unhealthy (version=".to_owned().concat(
                        version.as_str(),
                    ).concat(")");
                    self.fail_early(
                        "[PREFLIGHT]",
                        message.as_str(),
                        message.as_str(),
                        "preflight failed",
                        1,
                    )
                }
            },
            SmokeEvent::CallFailed => self.fail_early(
                "[PREFLIGHT]",
                "health check RPC failed",
                "health check RPC failed",
                "preflight failed",
                1,
            ),
            _ => self.stay(),
        }
    }

    /// The turn of a run that waits to hear how Docker is.
    fn after_docker(self, event: SmokeEvent) -> (r: (SmokeRun, Vec<Output>))
        ensures
            r.0@ == docker_turn(self@, event).run,
            console::outputs(r.1@) == docker_turn(self@, event).output,
    {
        match event {
            SmokeEvent::Docker { available, permissions_ok, error_message } => {
                if available && permissions_ok {
                    let lines = vec![
                        Output::Stdout(
                            "[PREFLIGHT] Passed (docker available, permissions ok)".to_owned(),
                        ),
                    ];
                    assert(console::outputs(lines@) =~= seq![
                        console::out("[PREFLIGHT] Passed (docker available, permissions ok)"@),
                    ]);
                    return self.go_on(SmokeStage::Config, lines);
                }
                let message = if !available {
                    "docker not available: ".to_owned().concat(error_message.as_str())
                } else {
                    "docker permissions issue: ".to_owned().concat(error_message.as_str())
                };
                self.fail_early(
                    "[PREFLIGHT]",
                    message.as_str(),
                    message.as_str(),
                    "preflight failed",
                    2,
                )
            },
            SmokeEvent::CallFailed => self.fail_early(
                "[PREFLIGHT]",
                "preflight RPC failed",
                "preflight RPC failed",
                "preflight failed",
                2,
            ),
            _ => self.stay(),
        }
    }

    /// The turn of a run that looks for a configuration.
    fn after_config(self, event: SmokeEvent) -> (r: (SmokeRun, Vec<Output>))
        ensures
            r.0@ == config_turn(self@, event).run,
            console::outputs(r.1@) == config_turn(self@, event).output,
    {
        match event {
            SmokeEvent::Config { primary_exists, fallback_exists } => {
                match ipc::detect_devcontainer_config(
                    self.platform,
                    self.workspace.as_str(),
                    primary_exists,
                    fallback_exists,
                ) {
                    Some(config_path) => {
                        let lines = vec![
                            Output::Stdout(
                                "[DEVCONTAINER] Config: ".to_owned().concat(config_path.as_str()),
                            ),
                            Output::Stdout(
                                "[DEVCONTAINER] Building (timeout=".to_owned().concat(
                                    text::decimal(self.max_wait_seconds).as_str(),
                                ).concat("s) ..."),
                            ),
                            Output::Stdout(
                                "[DEVCONTAINER] workspace: ".to_owned().concat(
                                    self.workspace.as_str(),
                                ),
                            ),
                            Output::Stdout(
                                "[DEVCONTAINER] config:    ".to_owned().concat(
                                    config_path.as_str(),
                                ),
                            ),
                        ];
                        assert(console::outputs(lines@) =~= seq![
                            console::out("[DEVCONTAINER] Config: "@ + config_path@),
                            console::out(
                                "[DEVCONTAINER] Building (timeout="@ + text::decimal_text(
                                    self@.max_wait_seconds as nat,
                                ) + "s) ..."@,
                            ),
                            console::out("[DEVCONTAINER] workspace: "@ + self@.workspace),
                            console::out("[DEVCONTAINER] config:    "@ + config_path@),
                        ]);
                        self.go_on(SmokeStage::Build { config_path }, lines)
                    },
                    None => self.fail_early(
                        "[DEVCONTAINER]",
                        "no .devcontainer/devcontainer.json found",
                        "no .devcontainer/devcontainer.json found",
                        "no config",
                        3,
                    ),
                }
            },
            _ => self.stay(),
        }
    }

    /// The turn of a run that waits for its container.
    fn after_build(self, event: SmokeEvent) -> (r: (SmokeRun, Vec<Output>))
        requires
            nameable(event),
        ensures
            r.0@ == build_turn(self@, event).run,
            console::outputs(r.1@) == build_turn(self@, event).output,
    {
        match event {
            SmokeEvent::Build(report) => match build_progress::interpret_event(
                &report,
                BUILD_FAILED,
            ) {
                BuildStep::Wait => {
                    let mut lines: Vec<Output> = Vec::new();
                    if let StreamEvent::Report(progress) = &report {
                        lines.push(
                            Output::Stdout(
                                "[DEVCONTAINER] ".to_owned().concat(
                                    build_progress::report_line(progress, "--").as_str(),
                                ),
                            ),
                        );
                    }
                    assert(console::outputs(lines@) =~= seq![
                        console::out(
                            "[DEVCONTAINER] "@ + build_progress::report_text(
                                report->Report_0,
                                "--"@,
                            ),
                        ),
                    ]);
                    let output = console::remarks(self.json, lines);
                    (self, output)
                },
                BuildStep::Ready(container_id) => {
                    let lines = vec![
                        Output::Stdout(
                            "[DEVCONTAINER] Build complete -- container ".to_owned().concat(
                                container_id.as_str(),
                            ),
                        ),
                        Output::Stdout(
                            "[TERMINAL]  Running: docker exec ".to_owned().concat(
                                container_id.as_str(),
                            ).concat(" echo SMOKE_OK"),
                        ),
                    ];
                    assert(console::outputs(lines@) =~= seq![
                        console::out(
                            "[DEVCONTAINER] Build complete -- container "@ + container_id@,
                        ),
                        console::out(
                            "[TERMINAL]  Running: docker exec "@ + container_id@
                                + " echo SMOKE_OK"@,
                        ),
                    ]);
                    let mut run = self;
                    run.results.devcontainer = Some(
                        StepResult::Okay(
                            "container ".to_owned().concat(
                                text::short_id(container_id.as_str()),
                            ),
                        ),
                    );
                    run.go_on(SmokeStage::Terminal { container_id }, lines)
                },
                BuildStep::Fail(message) => self.fail_early(
                    "[DEVCONTAINER]",
                    message.as_str(),
                    message.as_str(),
                    "no container",
                    4,
                ),
            },
            SmokeEvent::TimedOut => {
                let message = "DevContainer build timed out after ".to_owned().concat(
                    text::decimal(self.max_wait_seconds).as_str(),
                ).concat("s (use --max-wait-seconds to increase)");
                self.fail_early(
                    "[DEVCONTAINER]",
                    message.as_str(),
                    message.as_str(),
                    "no container",
                    4,
                )
            },
            _ => self.stay(),
        }
    }

    /// The turn of a run that tests the terminal.
    fn after_terminal(self, container_id: String, event: SmokeEvent) -> (r: (
        SmokeRun,
        Vec<Output>,
    ))
        ensures
            r.0@ == terminal_turn(self@, container_id@, event).run,
            console::outputs(r.1@) == terminal_turn(self@, container_id@, event).output,
    {
        let error = match &event {
            SmokeEvent::Command { success, status, stdout, stderr } => {
                let shown = bytes::show(stdout);
                if !*success {
                    Some(
                        "docker exec exited with ".to_owned().concat(status.as_str()).concat(
                            ": ",
                        ).concat(text::trim(bytes::show(stderr).as_str()).as_str()),
                    )
                } else if !text::contains(shown.as_str(), docker::SMOKE_MARK) {
                    Some(
                        "expected SMOKE_OK in stdout, got: ".to_owned().concat(
                            text::trim(shown.as_str()).as_str(),
                        ),
                    )
                } else {
                    None
                }
            },
            SmokeEvent::CommandFailed => Some("failed to run docker exec".to_owned()),
            _ => {
                return self.stay();
            },
        };
        let server = self.lsp.log_tag.clone().concat(" Checking ").concat(
            self.lsp.display_name.as_str(),
        ).concat(" availability ...");
        let mut run = self;
        let ghost before = run@;
        let lines = match error {
            None => {
                run.results.terminal = Some(
                    StepResult::Okay("echo SMOKE_OK received".to_owned()),
                );
                vec![
                    Output::Stdout("[TERMINAL]  Received SMOKE_OK".to_owned()),
                    Output::Stdout(server),
                ]
            },
            Some(message) => {
                let line = "[TERMINAL]  FAIL: ".to_owned().concat(message.as_str());
                run.results.terminal = Some(StepResult::Fail(message));
                vec![Output::Stderr(line), Output::Stdout(server)]
            },
        };
        assert(console::outputs(lines@) =~= match terminal_error(event) {
            None => seq![
                console::out("[TERMINAL]  Received SMOKE_OK"@),
                console::out(
                    before.lsp.log_tag + " Checking "@ + before.lsp.display_name
                        + " availability ..."@,
                ),
            ],
            Some(message) => seq![
                console::err("[TERMINAL]  FAIL: "@ + message),
                console::out(
                    before.lsp.log_tag + " Checking "@ + before.lsp.display_name
                        + " availability ..."@,
                ),
            ],
        });
        run.go_on(SmokeStage::FindServer { container_id }, lines)
    }

    /// The turn of a run that looks for the language server in the container.
    fn after_find(self, container_id: String, event: SmokeEvent) -> (r: (SmokeRun, Vec<Output>))
        ensures
            r.0@ == find_turn(self@, container_id@, event).run,
            console::outputs(r.1@) == find_turn(self@, container_id@, event).output,
    {
        match event {
            SmokeEvent::Command { success, stdout, .. } => {
                if success {
                    let lines = vec![
                        Output::Stdout(
                            self.lsp.log_tag.clone().concat(" Found: ").concat(
                                text::trim(bytes::show(&stdout).as_str()).as_str(),
                            ),
                        ),
                        Output::Stdout(
                            self.lsp.log_tag.clone().concat(
                                " Running initialize/shutdown cycle ...",
                            ),
                        ),
                    ];
                    assert(console::outputs(lines@) =~= seq![
                        console::out(
                            self@.lsp.log_tag + " Found: "@ + text::trimmed(
                                bytes::shown_text(stdout@),
                            ),
                        ),
                        console::out(
                            self@.lsp.log_tag + " Running initialize/shutdown cycle ..."@,
                        ),
                    ]);
                    self.go_on(SmokeStage::StartServer { container_id }, lines)
                } else {
                    let message = self.lsp.display_name.clone().concat(
                        " not found in container (install it for LSP tests)",
                    );
                    self.fail_server(message)
                }
            },
            SmokeEvent::CommandFailed => {
                let message = "failed to check ".to_owned().concat(
                    self.lsp.display_name.as_str(),
                ).concat(" availability");
                self.fail_server(message)
            },
            _ => self.stay(),
        }
    }

    /// The turn of a run that starts the language server.
    fn after_start(self, event: SmokeEvent) -> (r: (SmokeRun, Vec<Output>))
        ensures
            r.0@ == start_turn(self@, event).run,
            console::outputs(r.1@) == start_turn(self@, event).output,
    {
        match event {
            SmokeEvent::Started => self.move_to(SmokeStage::Initialize),
            SmokeEvent::StartFailed => {
                let message = "failed to spawn ".to_owned().concat(
                    self.lsp.server_binary.as_str(),
                ).concat(" via docker exec");
                self.fail_server(message)
            },
            _ => self.stay(),
        }
    }

    /// The run goes on to another stage without a remark.
    fn move_to(self, stage: SmokeStage) -> (r: (SmokeRun, Vec<Output>))
        ensures
            r.0@ == goes_on(self@, stage@, seq![]).run,
            console::outputs(r.1@) == goes_on(self@, stage@, seq![]).output,
    {
        let lines: Vec<Output> = Vec::new();
        assert(console::outputs(lines@) =~= seq![]);
        self.go_on(stage, lines)
    }

    /// The turn of a run that sends to the language server.
    fn after_send(self, next: SmokeStage, event: SmokeEvent) -> (r: (SmokeRun, Vec<Output>))
        ensures
            r.0@ == send_turn(self@, next@, event).run,
            console::outputs(r.1@) == send_turn(self@, next@, event).output,
    {
        match event {
            SmokeEvent::Sent => self.move_to(next),
            SmokeEvent::SendFailed(message) => self.fail_server(message),
            _ => self.stay(),
        }
    }

    /// The turn of a run to which the language server says this.
    fn hear(self, heard: Answer) -> (r: (SmokeRun, Vec<Output>))
        ensures
            r.0@ == heard_turn(self@, heard@).run,
            console::outputs(r.1@) == heard_turn(self@, heard@).output,
    {
        let tag = self.lsp.log_tag.clone();
        match heard {
            Answer::Notification(method) => {
                let lines = vec![
                    Output::Stdout(
                        tag.concat(" (skipping notification: ").concat(method.as_str()).concat(")"),
                    ),
                ];
                assert(console::outputs(lines@) =~= seq![
                    console::out(
                        self@.lsp.log_tag + " (skipping notification: "@ + method@ + ")"@,
                    ),
                ]);
                self.go_on(SmokeStage::Answer, lines)
            },
            Answer::Other(id) => {
                let lines = vec![
                    Output::Stdout(
                        tag.concat(" (skipping message with id=Some(").concat(id.as_str()).concat(
                            "))",
                        ),
                    ),
                ];
                assert(console::outputs(lines@) =~= seq![
                    console::out(
                        self@.lsp.log_tag + " (skipping message with id=Some("@ + id@ + "))"@,
                    ),
                ]);
                self.go_on(SmokeStage::Answer, lines)
            },
            Answer::Refused(error) => {
                let message = self.lsp.display_name.clone().concat(
                    " initialize returned error: ",
                ).concat(error.as_str());
                self.fail_server(message)
            },
            Answer::Ready { name, version } => {
                let lines = vec![
                    Output::Stdout(
                        tag.concat(" Server: ").concat(name.as_str()).concat(" v").concat(
                            version.as_str(),
                        ),
                    ),
                ];
                assert(console::outputs(lines@) =~= seq![
                    console::out(self@.lsp.log_tag + " Server: "@ + name@ + " v"@ + version@),
                ]);
                self.go_on(SmokeStage::Close, lines)
            },
        }
    }

    /// The turn of a run that waits for the answer of the language server.
    fn after_answer(self, event: SmokeEvent) -> (r: (SmokeRun, Vec<Output>))
        ensures
            r.0@ == answer_turn(self@, event).run,
            console::outputs(r.1@) == answer_turn(self@, event).output,
    {
        match event {
            SmokeEvent::Message(raw) => match lsp_session::interpret_text(raw.as_str()) {
                Some(heard) => self.hear(heard),
                None => self.fail_server("invalid JSON in LSP message".to_owned()),
            },
            SmokeEvent::ReadFailed => self.fail_server("failed to read LSP message".to_owned()),
            SmokeEvent::TimedOut => {
                let message = "timeout (60s) waiting for ".to_owned().concat(
                    self.lsp.display_name.as_str(),
                ).concat(" initialize response");
                self.fail_server(message)
            },
            _ => self.stay(),
        }
    }

    /// The turn of a run that waits for the language server to end.
    fn after_exit(self, event: SmokeEvent) -> (r: (SmokeRun, Vec<Output>))
        ensures
            r.0@ == exit_turn(self@, event).run,
            console::outputs(r.1@) == exit_turn(self@, event).output,
    {
        let warning = match event {
            SmokeEvent::Exited => Vec::new(),
            SmokeEvent::ExitFailed(error) => vec![
                Output::Stderr(
                    self.lsp.log_tag.clone().concat(" warning: child wait error: ").concat(
                        error.as_str(),
                    ),
                ),
            ],
            SmokeEvent::TimedOut => vec![
                Output::Stderr(
                    self.lsp.log_tag.clone().concat(" warning: child did not exit within 5s"),
                ),
            ],
            _ => {
                return self.stay();
            },
        };
        assert(console::outputs(warning@) =~= match event {
            SmokeEvent::ExitFailed(error) => seq![
                console::err(self@.lsp.log_tag + " warning: child wait error: "@ + error@),
            ],
            SmokeEvent::TimedOut => seq![
                console::err(self@.lsp.log_tag + " warning: child did not exit within 5s"@),
            ],
            _ => seq![],
        });
        self.end_server(warning)
    }

    /// Takes what came of what the run asked for; gives the run as it is then, and what is
    /// printed.
    pub fn step(self, event: SmokeEvent) -> (r: (SmokeRun, Vec<Output>))
        requires
            self@.stage is Build ==> nameable(event),
        ensures
            r.0@ == turn(self@, event).run,
            console::outputs(r.1@) == turn(self@, event).output,
    {
        match &self.stage {
            SmokeStage::Connect => self.after_connect(event),
            SmokeStage::Health => self.after_health(event),
            SmokeStage::Docker => self.after_docker(event),
            SmokeStage::Config => self.after_config(event),
            SmokeStage::Build { .. } => self.after_build(event),
            SmokeStage::Terminal { container_id } => {
                let id = container_id.clone();
                self.after_terminal(id, event)
            },
            SmokeStage::FindServer { container_id } => {
                let id = container_id.clone();
                self.after_find(id, event)
            },
            SmokeStage::StartServer { .. } => self.after_start(event),
            SmokeStage::Initialize => self.after_send(SmokeStage::Answer, event),
            SmokeStage::Answer => self.after_answer(event),
            SmokeStage::Close => self.after_send(SmokeStage::Exit, event),
            SmokeStage::Exit => self.after_exit(event),
            SmokeStage::Done(_) => self.stay(),
        }
    }
}

/// What holds of every run: a step has a result where the run is past it and only there, and the
/// exit code of a run that is done is zero where no step failed and only there.
pub open spec fn consistent(run: RunModel) -> bool {
    let results = run.results;
    match run.stage {
        StageModel::Connect
        | StageModel::Health
        | StageModel::Docker
        | StageModel::Config
        | StageModel::Build { .. } => {
            results.devcontainer is None && results.terminal is None && results.lsp is None
        },
        StageModel::Terminal { .. } => {
            results.devcontainer is Some && results.devcontainer->Some_0 is Okay
                && results.terminal is None && results.lsp is None
        },
        StageModel::Done(code) => {
            &&& results.devcontainer is Some
            &&& results.terminal is Some
            &&& results.lsp is Some
            &&& 0 <= code <= 6
            &&& code == 0 <==> !smoke_results::any_failed(results)
            &&& code > 3 ==> code == smoke_results::exit_code_of(results)
            &&& 0 < code <= 4 <==> smoke_results::failed(results.devcontainer)
        },
        _ => {
            results.devcontainer is Some && results.devcontainer->Some_0 is Okay
                && results.terminal is Some && results.lsp is None
        },
    }
}

/// Every run begins consistent, and stays so whatever comes.
#[verifier::rlimit(50)]
pub proof fn law_runs_are_consistent(
    platform: Platform,
    workspace: Seq<char>,
    max_wait_seconds: u64,
    json: bool,
    lsp: LspConfigModel,
    run: RunModel,
    event: SmokeEvent,
)
    ensures
        consistent(first_turn(platform, workspace, max_wait_seconds, json, lsp).run),
        consistent(run) ==> consistent(turn(run, event).run),
{
}

/// A configuration that was found is built for the workspace of the run, and never by force; where
/// a run waits for no build, none is asked for.
pub proof fn law_found_configuration_is_built(
    run: RunModel,
    primary_exists: bool,
    fallback_exists: bool,
)
    requires
        run.stage is Config,
    ensures
        ({
            let event = SmokeEvent::Config { primary_exists, fallback_exists };
            build_call_of(turn(run, event).run) == match ipc::detected_config(
                run.platform,
                run.workspace,
                primary_exists,
                fallback_exists,
            ) {
                Some(config_path) => Some(
                    CallModel { workspace_path: run.workspace, config_path, force_rebuild: false },
                ),
                None => None,
            }
        }),
        build_call_of(run) is None,
{
}

/// A run that is done stays done, asks for nothing but its end, and prints nothing more.
pub proof fn law_done_is_done(run: RunModel, event: SmokeEvent)
    requires
        run.stage is Done,
    ensures
        turn(run, event).run == run,
        turn(run, event).output.len() == 0,
        action_of(run) == ActionModel::Finish(run.stage->Done_0),
{
}

/// In JSON mode the standard output carries the document and nothing else: it is printed last, in
/// the turn that ends the run, and no other turn prints to the standard output.
#[verifier::rlimit(50)]
pub proof fn law_json_mode_prints_one_document(
    platform: Platform,
    run: RunModel,
    event: SmokeEvent,
)
    requires
        run.json,
    ensures
        ({
            let after = turn(run, event);
            let document = console::out(
                json::pretty_text(
                    smoke_results::results_json(after.run.results, after.run.workspace),
                ),
            );
            if after.run.stage is Done && !(run.stage is Done) {
                after.output.len() > 0 && after.output.last() == document && console::no_stdout(
                    after.output.drop_last(),
                )
            } else {
                console::no_stdout(after.output)
            }
        }),
        console::no_stdout(
            first_turn(platform, run.workspace, run.max_wait_seconds, run.json, run.lsp).output,
        ),
{
    let after = turn(run, event);
    if after.run.stage is Done && !(run.stage is Done) {
        let end = closing(true, run.workspace, after.run.results);
        assert(end.len() == 1);
        if run.stage is Exit {
            let warning = match event {
                SmokeEvent::ExitFailed(error) => seq![
                    console::err(run.lsp.log_tag + " warning: child wait error: "@ + error@),
                ],
                SmokeEvent::TimedOut => seq![
                    console::err(run.lsp.log_tag + " warning: child did not exit within 5s"@),
                ],
                _ => seq![],
            };
            assert(after.output.drop_last() =~= warning);
        } else {
            assert(after.output.drop_last() =~= seq![]);
        }
        assert(after.output.last() == end[0]);
    }
}

/// A run that ends before there is a container says which of its stages failed: the connection or
/// the health of the daemon, Docker, the configuration, or the build.
pub proof fn law_early_exit_codes(run: RunModel, event: SmokeEvent)
    requires
        turn(run, event).run.stage is Done,
        !(run.stage is Done),
    ensures
        run.stage is Connect || run.stage is Health ==> turn(run, event).run.stage
            == StageModel::Done(1),
        run.stage is Docker ==> turn(run, event).run.stage == StageModel::Done(2),
        run.stage is Config ==> turn(run, event).run.stage == StageModel::Done(3),
        run.stage is Build ==> turn(run, event).run.stage == StageModel::Done(4),
{
}

/// How far a run is.
pub open spec fn rank(stage: StageModel) -> int {
    match stage {
        StageModel::Connect => 0,
        StageModel::Health => 1,
        StageModel::Docker => 2,
        StageModel::Config => 3,
        StageModel::Build { .. } => 4,
        StageModel::Terminal { .. } => 5,
        StageModel::FindServer { .. } => 6,
        StageModel::StartServer { .. } => 7,
        StageModel::Initialize => 8,
        StageModel::Answer => 9,
        StageModel::Close => 10,
        StageModel::Exit => 11,
        StageModel::Done(_) => 12,
    }
}

/// A run never goes back. It stays where it is only where it heard what it did not ask for, or
/// waits for the end of the build or for the answer of the language server.
#[verifier::rlimit(50)]
pub proof fn law_runs_go_forward(run: RunModel, event: SmokeEvent)
    ensures
        rank(turn(run, event).run.stage) >= rank(run.stage),
        rank(turn(run, event).run.stage) == rank(run.stage) ==> turn(run, event).run == run,
        rank(turn(run, event).run.stage) == rank(run.stage) && !(run.stage is Build)
            && !(run.stage is Answer) ==> turn(run, event).output.len() == 0,
{
}

/// The result of a step is never changed once it is known.
#[verifier::rlimit(50)]
pub proof fn law_results_are_final(run: RunModel, event: SmokeEvent)
    requires
        consistent(run),
    ensures
        run.results.devcontainer is Some ==> turn(run, event).run.results.devcontainer
            == run.results.devcontainer,
        run.results.terminal is Some ==> turn(run, event).run.results.terminal
            == run.results.terminal,
        run.results.lsp is Some ==> turn(run, event).run.results.lsp == run.results.lsp,
        turn(run, event).run.results.lsp_label == run.results.lsp_label,
{
}

/// What a run asks for of its container, with the words of the commands written out: an echo in its
/// terminal, a search for the language server, and the server itself, run in the folder of the
/// project with all of its arguments and no others.
pub proof fn law_commands_of_a_run(run: RunModel, container_id: Seq<char>)
    ensures
        run.stage == (StageModel::Terminal { container_id }) ==> action_of(run)
            == ActionModel::Run(seq!["exec"@, container_id, "echo"@, "SMOKE_OK"@]),
        run.stage == (StageModel::FindServer { container_id }) ==> action_of(run)
            == ActionModel::Run(
            seq!["exec"@, container_id, "sh"@, "-c"@, "command -v "@ + run.lsp.check_binary],
        ),
        run.stage == (StageModel::StartServer { container_id }) ==> action_of(run)
            == ActionModel::Start(
            seq![
                "exec"@,
                "-i"@,
                "-w"@,
                "/workspaces/"@ + run.project_name,
                container_id,
                run.lsp.server_binary,
            ] + run.lsp.server_args,
        ),
        run.stage == (StageModel::StartServer { container_id }) && run.lsp
            == lsp_session::python_config() ==> action_of(run) == ActionModel::Start(
            seq![
                "exec"@,
                "-i"@,
                "-w"@,
                "/workspaces/"@ + run.project_name,
                container_id,
                "pyright-langserver"@,
                "--stdio"@,
            ],
        ),
        run.stage == (StageModel::StartServer { container_id }) && run.lsp
            == lsp_session::rust_config() ==> action_of(run) == ActionModel::Start(
            seq![
                "exec"@,
                "-i"@,
                "-w"@,
                "/workspaces/"@ + run.project_name,
                container_id,
                "rust-analyzer"@,
            ],
        ),
{
    let head = seq![
        "exec"@,
        "-i"@,
        "-w"@,
        "/workspaces/"@ + run.project_name,
        container_id,
        run.lsp.server_binary,
    ];
    assert(head + seq!["--stdio"@] =~= head.push("--stdio"@));
    assert(head.push("--stdio"@) =~= seq![
        "exec"@,
        "-i"@,
        "-w"@,
        "/workspaces/"@ + run.project_name,
        container_id,
        run.lsp.server_binary,
        "--stdio"@,
    ]);
    assert(head + Seq::<Seq<char>>::empty() =~= head);
}

/// What the arguments of the language server are is what the command line that starts it ends with.
pub proof fn law_started_command_ends_with_the_arguments(run: RunModel)
    requires
        run.stage is StartServer,
    ensures
        action_of(run) is Start,
        ({
            let command = action_of(run)->Start_0;
            &&& command.len() == 6 + run.lsp.server_args.len()
            &&& command.skip(command.len() - run.lsp.server_args.len()) == run.lsp.server_args
            &&& command[5] == run.lsp.server_binary
            &&& command[4] == run.stage->StartServer_container_id
        }),
{
    let command = action_of(run)->Start_0;
    docker::law_server_runs_in_the_container(
        run.stage->StartServer_container_id,
        run.project_name,
        run.lsp.server_binary,
        run.lsp.server_args,
    );
    assert(command.skip(6) == run.lsp.server_args);
}

/// What a run says to the language server: first the request to initialize the folder of its
/// project, and when that was answered word that it is ready, the request to shut down, and word
/// that the server may end, in this order.
pub proof fn law_messages_of_a_run(run: RunModel)
    ensures
        run.stage is Initialize ==> action_of(run) == ActionModel::Send(
            lsp_session::message_bytes(
                lsp_session::initialize_json("/workspaces/"@ + run.project_name, run.project_name),
            ),
        ),
        run.stage is Close ==> {
            let first = lsp_session::message_bytes(lsp_session::initialized_json());
            let second = lsp_session::message_bytes(lsp_session::shutdown_json());
            let third = lsp_session::message_bytes(lsp_session::exit_json());
            &&& action_of(run) is Send
            &&& action_of(run)->Send_0.len() == first.len() + second.len() + third.len()
            &&& action_of(run)->Send_0.take(first.len() as int) == first
            &&& action_of(run)->Send_0.subrange(
                first.len() as int,
                (first.len() + second.len()) as int,
            ) == second
            &&& action_of(run)->Send_0.skip((first.len() + second.len()) as int) == third
        },
        run.stage is Answer ==> action_of(run) == ActionModel::Receive,
        run.stage is Connect ==> action_of(run) == ActionModel::Connect,
        run.stage is Health ==> action_of(run) == ActionModel::CheckHealth,
        run.stage is Docker ==> action_of(run) == ActionModel::CheckDocker,
        run.stage is Config ==> action_of(run) == ActionModel::LookForConfig,
        run.stage is Exit ==> action_of(run) == ActionModel::AwaitExit,
        run.stage matches StageModel::Build { config_path } ==> action_of(run)
            == (ActionModel::Build { config_path }),
{
    if run.stage is Close {
        let first = lsp_session::message_bytes(lsp_session::initialized_json());
        let second = lsp_session::message_bytes(lsp_session::shutdown_json());
        let third = lsp_session::message_bytes(lsp_session::exit_json());
        let data = action_of(run)->Send_0;
        assert(data.take(first.len() as int) =~= first);
        assert(data.subrange(first.len() as int, (first.len() + second.len()) as int) =~= second);
        assert(data.skip((first.len() + second.len()) as int) =~= third);
    }
}

/// A run that fails before there is a container: the step of the container failed for this reason,
/// the others were skipped, and the exit code says where it failed.
pub open spec fn ends_early(before: RunModel, after: RunModel, reason: Seq<char>, code: i32) -> bool {
    &&& after.stage == StageModel::Done(code)
    &&& after.results.devcontainer == Some(StepModel::Fail(reason))
    &&& after.results.terminal is Some && after.results.terminal->Some_0 is Skip
    &&& after.results.lsp is Some && after.results.lsp->Some_0 is Skip
    &&& after.workspace == before.workspace && after.json == before.json && after.lsp == before.lsp
}

/// A run goes on only with a daemon that it reached and that is well, and with a Docker that is there
/// and may be used. Else it ends, with the reason, and with the exit code of the stage.
#[verifier::rlimit(50)]
pub proof fn law_daemon_and_docker_must_be_well(
    run: RunModel,
    version: String,
    healthy: bool,
    available: bool,
    permissions_ok: bool,
    error_message: String,
)
    ensures
        run.stage is Connect ==> {
            &&& turn(run, SmokeEvent::Connected).run == (RunModel { stage: StageModel::Health, ..run })
            &&& ends_early(
                run,
                turn(run, SmokeEvent::ConnectFailed).run,
                "connect: "@ + "failed to connect to tala daemon -- is it running?"@,
                1,
            )
        },
        run.stage is Health ==> {
            let after = turn(run, SmokeEvent::Health { version, healthy }).run;
            &&& healthy ==> after == (RunModel { stage: StageModel::Docker, ..run })
            &&& !healthy ==> ends_early(
                run,
                after,
                "daemon reported unhealthy (version="@ + version@ + ")"@,
                1,
            )
            &&& ends_early(
                run,
                turn(run, SmokeEvent::CallFailed).run,
                "health check RPC failed"@,
                1,
            )
        },
        run.stage is Docker ==> {
            let event = SmokeEvent::Docker { available, permissions_ok, error_message };
            let after = turn(run, event).run;
            &&& available && permissions_ok ==> after == (RunModel {
                stage: StageModel::Config,
                ..run
            })
            &&& !available ==> ends_early(
                run,
                after,
                "docker not available: "@ + error_message@,
                2,
            )
            &&& available && !permissions_ok ==> ends_early(
                run,
                after,
                "docker permissions issue: "@ + error_message@,
                2,
            )
            &&& ends_early(run, turn(run, SmokeEvent::CallFailed).run, "preflight RPC failed"@, 2)
        },
{
}

/// The file that exists is built from: `.devcontainer/devcontainer.json` below the workspace wherever
/// that is there, `.devcontainer.json` only where it is not, never by force. Where neither is there
/// the run ends with three.
pub proof fn law_existing_configuration_is_built(
    run: RunModel,
    primary_exists: bool,
    fallback_exists: bool,
)
    requires
        run.stage is Config,
    ensures
        ({
            let after = turn(run, SmokeEvent::Config { primary_exists, fallback_exists }).run;
            let place = if primary_exists {
                ".devcontainer/devcontainer.json"@
            } else {
                ".devcontainer.json"@
            };
            let config_path = path::joined(run.platform, run.workspace, place);
            &&& primary_exists || fallback_exists ==> {
                &&& after == (RunModel { stage: StageModel::Build { config_path }, ..run })
                &&& build_call_of(after) == Some(
                    CallModel { workspace_path: run.workspace, config_path, force_rebuild: false },
                )
            }
            &&& !primary_exists && !fallback_exists ==> ends_early(
                run,
                after,
                "no .devcontainer/devcontainer.json found"@,
                3,
            ) && build_call_of(after) is None
        }),
{
}

/// A container that is reported ready is the one whose terminal is tested; its step passed. A build
/// that fails, or takes longer than was allowed, ends the run with four and the reason.
pub proof fn law_built_container_is_tested(run: RunModel, event: StreamEvent)
    requires
        run.stage is Build,
    ensures
        ({
            let after = turn(run, SmokeEvent::Build(event)).run;
            &&& build_progress::stream_step(event, "build failed: "@) matches BuildStepModel::Ready(
                id,
            ) ==> {
                &&& after.stage == (StageModel::Terminal { container_id: id })
                &&& after.results.devcontainer == Some(
                    StepModel::Okay("container "@ + text::short_id_text(id)),
                )
                &&& after.results.terminal == run.results.terminal && after.results.lsp
                    == run.results.lsp
                &&& after.lsp == run.lsp && after.project_name == run.project_name
            }
            &&& build_progress::stream_step(event, "build failed: "@) matches BuildStepModel::Fail(
                reason,
            ) ==> ends_early(run, after, reason, 4)
            &&& build_progress::stream_step(event, "build failed: "@) is Wait ==> after == run
        }),
        ends_early(
            run,
            turn(run, SmokeEvent::TimedOut).run,
            "DevContainer build timed out after "@ + text::decimal_text(
                run.max_wait_seconds as nat,
            ) + "s (use --max-wait-seconds to increase)"@,
            4,
        ),
{
}

/// The terminal passes where its command succeeded and what it printed holds the mark, and only
/// there; however it ended, the language server of the same container is looked for next.
pub proof fn law_terminal_is_tested(
    run: RunModel,
    container_id: Seq<char>,
    success: bool,
    status: String,
    stdout: Vec<u8>,
    stderr: Vec<u8>,
)
    requires
        run.stage == (StageModel::Terminal { container_id }),
    ensures
        ({
            let after = turn(run, SmokeEvent::Command { success, status, stdout, stderr }).run;
            let broken = turn(run, SmokeEvent::CommandFailed).run;
            let echoed = text::contains_text(bytes::shown_text(stdout@), "SMOKE_OK"@);
            &&& after.stage == (StageModel::FindServer { container_id })
            &&& broken.stage == (StageModel::FindServer { container_id })
            &&& after.results.devcontainer == run.results.devcontainer
            &&& after.results.lsp == run.results.lsp
            &&& success && echoed ==> after.results.terminal == Some(
                StepModel::Okay("echo SMOKE_OK received"@),
            )
            &&& !success ==> after.results.terminal == Some(
                StepModel::Fail(
                    "docker exec exited with "@ + status@ + ": "@ + text::trimmed(
                        bytes::shown_text(stderr@),
                    ),
                ),
            )
            &&& success && !echoed ==> after.results.terminal == Some(
                StepModel::Fail(
                    "expected SMOKE_OK in stdout, got: "@ + text::trimmed(
                        bytes::shown_text(stdout@),
                    ),
                ),
            )
            &&& broken.results.terminal == Some(StepModel::Fail("failed to run docker exec"@))
        }),
{
}

/// How the test of the language server ended: with this result, and with the exit code of the first
/// step that failed. The other steps are as they were.
pub open spec fn ends_with(before: RunModel, after: RunModel, result: StepModel) -> bool {
    &&& after.results.lsp == Some(result)
    &&& after.results.devcontainer == before.results.devcontainer
    &&& after.results.terminal == before.results.terminal
    &&& after.stage == StageModel::Done(smoke_results::exit_code_of(after.results))
    &&& after.workspace == before.workspace && after.json == before.json
}

/// A language server that is found is started in the same container. One that is not in the
/// container is no failure: its test is skipped, and says so.
pub proof fn law_missing_server_is_skipped(
    run: RunModel,
    container_id: Seq<char>,
    success: bool,
    status: String,
    stdout: Vec<u8>,
    stderr: Vec<u8>,
)
    requires
        run.stage == (StageModel::FindServer { container_id }),
    ensures
        ({
            let after = turn(run, SmokeEvent::Command { success, status, stdout, stderr }).run;
            &&& success ==> after == (RunModel {
                stage: StageModel::StartServer { container_id },
                ..run
            })
            &&& !success ==> ends_with(
                run,
                after,
                StepModel::Skip(
                    run.lsp.display_name
                        + " not found in container (install it for LSP tests)"@,
                ),
            )
        }),
{
    reveal_strlit(" not found in container (install it for LSP tests)");
    reveal_strlit("not found in container");
    let pattern = "not found in container"@;
    let message = run.lsp.display_name + " not found in container (install it for LSP tests)"@;
    let at = run.lsp.display_name.len() + 1;
    assert(message.subrange(at as int, (at + pattern.len()) as int) =~= pattern);
}

/// Whatever ends the test of the language server before it has answered well is a failure, with the
/// reason, unless the reason says that the server is not in the container.
#[verifier::rlimit(50)]
pub proof fn law_server_errors_end_the_run(run: RunModel, event: SmokeEvent)
    requires
        turn(run, event).run.stage is Done,
        run.stage is FindServer || run.stage is StartServer || run.stage is Initialize
            || run.stage is Answer || run.stage is Close,
    ensures
        ({
            let after = turn(run, event).run;
            let result = after.results.lsp->Some_0;
            &&& after.results.lsp is Some
            &&& ends_with(run, after, result)
            &&& result is Fail || result is Skip
            &&& result matches StepModel::Skip(reason) ==> text::contains_text(
                reason,
                "not found in container"@,
            )
            &&& result matches StepModel::Fail(reason) ==> !text::contains_text(
                reason,
                "not found in container"@,
            )
        }),
        ({
            let result = turn(run, event).run.results.lsp->Some_0;
            let reason = smoke_results::step_message(result);
            &&& event matches SmokeEvent::SendFailed(message) ==> reason == message@
            &&& event is StartFailed ==> reason == "failed to spawn "@ + run.lsp.server_binary
                + " via docker exec"@
            &&& event is CommandFailed ==> reason == "failed to check "@ + run.lsp.display_name
                + " availability"@
            &&& event is ReadFailed ==> reason == "failed to read LSP message"@
            &&& event is TimedOut ==> reason == "timeout (60s) waiting for "@ + run.lsp.display_name
                + " initialize response"@
            &&& event matches SmokeEvent::Message(raw) ==> match json::parsed_json(raw@) {
                None => reason == "invalid JSON in LSP message"@,
                Some(message) => lsp_session::answer(message) is Refused && reason
                    == run.lsp.display_name + " initialize returned error: "@ + lsp_session::answer(
                    message,
                )->Refused_0,
            }
        }),
{
}

/// The conversation goes on as it should: a server that was started is initialized, its answer is
/// waited for, and only when it is ready it is told to end. Whatever else it says is passed over.
/// However it then ends, its test passed.
#[verifier::rlimit(50)]
pub proof fn law_conversation_goes_on(run: RunModel, raw: String, event: SmokeEvent)
    ensures
        run.stage is StartServer ==> turn(run, SmokeEvent::Started).run == (RunModel {
            stage: StageModel::Initialize,
            ..run
        }),
        run.stage is Initialize ==> turn(run, SmokeEvent::Sent).run == (RunModel {
            stage: StageModel::Answer,
            ..run
        }),
        run.stage is Answer && json::parsed_json(raw@) is Some ==> {
            let after = turn(run, SmokeEvent::Message(raw)).run;
            match lsp_session::answer(json::parsed_json(raw@)->Some_0) {
                AnswerModel::Ready { .. } => after == (RunModel { stage: StageModel::Close, ..run }),
                AnswerModel::Notification(_) => after == run,
                AnswerModel::Other(_) => after == run,
                AnswerModel::Refused(_) => after.stage is Done,
            }
        },
        run.stage is Close ==> turn(run, SmokeEvent::Sent).run == (RunModel {
            stage: StageModel::Exit,
            ..run
        }),
        run.stage is Exit && (event is Exited || event is ExitFailed || event is TimedOut)
            ==> ends_with(run, turn(run, event).run, StepModel::Okay("initialize/shutdown ok"@)),
{
}

/// The tests of one container are about that container, from the build to the language server.
#[verifier::rlimit(50)]
pub proof fn law_container_is_kept(run: RunModel, event: SmokeEvent)
    ensures
        run.stage matches StageModel::Terminal { container_id } ==> match turn(run, event).run.stage {
            StageModel::Terminal { container_id: kept } => kept == container_id,
            StageModel::FindServer { container_id: kept } => kept == container_id,
            _ => false,
        },
        run.stage matches StageModel::FindServer { container_id } ==> match turn(
            run,
            event,
        ).run.stage {
            StageModel::FindServer { container_id: kept } => kept == container_id,
            StageModel::StartServer { container_id: kept } => kept == container_id,
            StageModel::Done(_) => true,
            _ => false,
        },
        turn(run, event).run.lsp == run.lsp,
        turn(run, event).run.workspace == run.workspace,
        turn(run, event).run.project_name == run.project_name,
        turn(run, event).run.max_wait_seconds == run.max_wait_seconds,
        turn(run, event).run.json == run.json,
        turn(run, event).run.platform == run.platform,
{
}

/// A run begins with the connection, on the workspace and with the language server that it was given,
/// and its project is the last name of the workspace. People are told so, and where the daemon is.
pub proof fn law_runs_begin(
    platform: Platform,
    workspace: Seq<char>,
    max_wait_seconds: u64,
    json: bool,
    lsp: LspConfigModel,
)
    ensures
        ({
            let first = first_turn(platform, workspace, max_wait_seconds, json, lsp);
            let address = if platform == Platform::Unix {
                "/tmp/tala.sock"@
            } else {
                "\\\\.\\pipe\\tala"@
            };
            &&& first.run.stage is Connect
            &&& first.run.workspace == workspace && first.run.json == json && first.run.lsp == lsp
            &&& first.run.max_wait_seconds == max_wait_seconds && first.run.platform == platform
            &&& first.run.project_name == path::project_name_text(platform, workspace)
            &&& first.run.results.lsp_label == "LSP ("@ + lsp.display_name + ")"@
            &&& json ==> first.output.len() == 0
            &&& !json ==> {
                &&& first.output[1] == console::out("workspace:  "@ + workspace)
                &&& first.output[2] == console::out("project:    "@ + first.run.project_name)
                &&& first.output[3] == console::out("language:   "@ + lsp.display_name)
                &&& first.output[4] == console::out(
                    "timeout:    "@ + text::decimal_text(max_wait_seconds as nat) + "s"@,
                )
                &&& first.output[6] == console::out(
                    "[DAEMON]    Connecting to tala daemon at "@ + address + " ..."@,
                )
            }
        }),
{
}

/// A run that ends prints its results: the document of its workspace in JSON mode, else the summary,
/// at the end of what it prints.
#[verifier::rlimit(50)]
pub proof fn law_results_are_printed(run: RunModel, event: SmokeEvent)
    requires
        !(run.stage is Done),
        turn(run, event).run.stage is Done,
    ensures
        ({
            let after = turn(run, event);
            let end = if run.json {
                seq![
                    console::out(
                        json::pretty_text(
                            smoke_results::results_json(after.run.results, run.workspace),
                        ),
                    ),
                ]
            } else {
                console::outs(smoke_results::summary_texts(after.run.results))
            };
            &&& after.output.len() >= end.len()
            &&& after.output.skip(after.output.len() - end.len()) == end
        }),
{
    let after = turn(run, event);
    let end = closing(run.json, run.workspace, after.run.results);
    let remarks = after.output.take(after.output.len() - end.len());
    assert(after.output =~= remarks + end);
    assert(after.output.skip(after.output.len() - end.len()) =~= end);
}

/// What a command line says of the language: what follows `--language`, and Rust where nothing does.
/// There are two languages, each with its own server.
pub proof fn law_language_is_named(before: Seq<Seq<char>>, after: Seq<Seq<char>>, name: Seq<char>)
    requires
        forall|i: int|
            0 <= i < before.len() ==> #[trigger] before[i] != "--language"@ && !("--language"@
                + "="@).is_prefix_of(before[i]),
        forall|i: int|
            0 <= i < after.len() ==> #[trigger] after[i] != "--language"@ && !("--language"@
                + "="@).is_prefix_of(after[i]),
    ensures
        language(before + seq!["--language"@, name] + after) == name,
        language(before + seq!["--language"@ + "="@ + name] + after) == name,
        language(before) == "rust"@,
        language_server("rust"@) == Some(lsp_session::rust_config()),
        language_server("python"@) == Some(lsp_session::python_config()),
        name != "rust"@ && name != "python"@ ==> language_server(name) is None,
{
    reveal_strlit("rust");
    reveal_strlit("python");
    assert("rust"@.len() == 4 && "python"@.len() == 6);
    cli::law_both_spellings_of_a_flag_agree(before, after, "--language"@, name);
    cli::law_unspelled_flag_has_no_value(before, "--language"@);
}

/// A command line asks for help wherever it says so. Else it is run where its time and its language
/// can be understood, and refused where not; it is run on the first argument that is no flag, or on
/// the workspace that is named, or else in the current directory.
pub proof fn law_command_line_is_run(args: Seq<Seq<char>>, current_dir: Option<Seq<char>>)
    ensures
        smoke_args(args, current_dir) is Help <==> args.contains("--help"@) || args.contains("-h"@),
        ({
            let own = cli::without_common(args);
            let rest = cli::without_flag(own, "--max-wait-seconds"@);
            let operands = cli::without_flag(rest, "--language"@);
            let known = language(rest) == "rust"@ || language(rest) == "python"@;
            &&& smoke_args(args, current_dir) is Run <==> !(smoke_args(args, current_dir) is Help)
                && cli::max_wait(own) is Some && known
            &&& smoke_args(args, current_dir) matches ParsedModel::Run(run) ==> {
                &&& run.json <==> args.contains("--json"@) || args.contains("-j"@)
                &&& Some(run.max_wait_seconds) == cli::max_wait(own)
                &&& language(rest) == "python"@ ==> run.lsp_config == lsp_session::python_config()
                &&& language(rest) == "rust"@ ==> run.lsp_config == lsp_session::rust_config()
                &&& run.workspace_path == match cli::positional(operands) {
                    Some(operand) => operand,
                    None => cli::common_args(args, current_dir).workspace,
                }
            }
        }),
{
    reveal_strlit("rust");
    reveal_strlit("python");
    assert("rust"@.len() == 4 && "python"@.len() == 6);
    cli::law_switches_count_anywhere(args, current_dir);
}

/// A failure before there is a container is told on the standard error, with its reason, before the
/// summary; in JSON mode it stands in the document only.
#[verifier::rlimit(50)]
pub proof fn law_early_failure_is_told(run: RunModel, event: SmokeEvent)
    requires
        turn(run, event).run.stage is Done,
        run.stage is Connect || run.stage is Health || run.stage is Docker || run.stage is Config
            || run.stage is Build,
    ensures
        ({
            let after = turn(run, event);
            let reason = if run.stage is Connect {
                "failed to connect to tala daemon -- is it running?"@
            } else {
                smoke_results::step_message(after.run.results.devcontainer->Some_0)
            };
            let label = if run.stage is Connect {
                "[DAEMON]   "@
            } else if run.stage is Health || run.stage is Docker {
                "[PREFLIGHT]"@
            } else {
                "[DEVCONTAINER]"@
            };
            &&& run.json ==> after.output.len() == 1
            &&& !run.json ==> after.output.len() == 10 && after.output[0] == console::err(
                label + " FAIL: "@ + reason,
            )
        }),
{
}

/// The end of the test of the language server is told under its tag: a skip on the standard output, a
/// failure on the standard error, each with its reason.
#[verifier::rlimit(50)]
pub proof fn law_end_of_the_server_is_told(run: RunModel, event: SmokeEvent)
    requires
        !run.json,
        turn(run, event).run.stage is Done,
        run.stage is FindServer || run.stage is StartServer || run.stage is Initialize
            || run.stage is Answer || run.stage is Close,
    ensures
        turn(run, event).output[0] == match turn(run, event).run.results.lsp->Some_0 {
            StepModel::Skip(reason) => console::out(run.lsp.log_tag + " SKIP: "@ + reason),
            StepModel::Fail(reason) => console::err(run.lsp.log_tag + " FAIL: "@ + reason),
            StepModel::Okay(_) => console::out(seq![]),
        },
        !(turn(run, event).run.results.lsp->Some_0 is Okay),
{
}

/// What people are told of the course of a run: each stage that passed and each that begins, with
/// what was found there.
#[verifier::rlimit(50)]
pub proof fn law_course_of_a_run_is_told(
    run: RunModel,
    version: String,
    report: BuildProgress,
    stdout: Vec<u8>,
    stderr: Vec<u8>,
    status: String,
    raw: String,
)
    requires
        !run.json,
    ensures
        run.stage is Connect ==> turn(run, SmokeEvent::Connected).output == seq![
            console::out("[DAEMON]    Connected"@),
            console::out("[DAEMON]    Health check ..."@),
        ],
        run.stage is Health ==> turn(run, SmokeEvent::Health { version, healthy: true }).output
            == seq![
            console::out("[DAEMON]    Healthy (version="@ + version@ + ")"@),
            console::out("[PREFLIGHT] Checking Docker availability ..."@),
        ],
        run.stage is Config ==> {
            let told = turn(
                run,
                SmokeEvent::Config { primary_exists: true, fallback_exists: false },
            ).output;
            let config = path::joined(
                run.platform,
                run.workspace,
                ".devcontainer/devcontainer.json"@,
            );
            &&& told[0] == console::out("[DEVCONTAINER] Config: "@ + config)
            &&& told[1] == console::out(
                "[DEVCONTAINER] Building (timeout="@ + text::decimal_text(
                    run.max_wait_seconds as nat,
                ) + "s) ..."@,
            )
            &&& told[2] == console::out("[DEVCONTAINER] workspace: "@ + run.workspace)
            &&& told[3] == console::out("[DEVCONTAINER] config:    "@ + config)
        },
        run.stage is Build ==> {
            let told = turn(run, SmokeEvent::Build(StreamEvent::Report(report))).output;
            let id = build_progress::ready_id(report.message@);
            &&& report.stage is Other ==> told == seq![
                console::out("[DEVCONTAINER] "@ + build_progress::report_text(report, "--"@)),
            ]
            &&& report.stage is Complete ==> told == seq![
                console::out("[DEVCONTAINER] Build complete -- container "@ + id),
                console::out("[TERMINAL]  Running: docker exec "@ + id + " echo SMOKE_OK"@),
            ]
        },
        run.stage is FindServer ==> turn(
            run,
            SmokeEvent::Command { success: true, status, stdout, stderr },
        ).output == seq![
            console::out(
                run.lsp.log_tag + " Found: "@ + text::trimmed(bytes::shown_text(stdout@)),
            ),
            console::out(run.lsp.log_tag + " Running initialize/shutdown cycle ..."@),
        ],
        run.stage is Answer && json::parsed_json(raw@) is Some ==> match lsp_session::answer(
            json::parsed_json(raw@)->Some_0,
        ) {
            AnswerModel::Ready { name, version } => turn(run, SmokeEvent::Message(raw)).output
                == seq![console::out(run.lsp.log_tag + " Server: "@ + name + " v"@ + version)],
            AnswerModel::Notification(method) => turn(run, SmokeEvent::Message(raw)).output == seq![
                console::out(run.lsp.log_tag + " (skipping notification: "@ + method + ")"@),
            ],
            AnswerModel::Other(id) => turn(run, SmokeEvent::Message(raw)).output == seq![
                console::out(run.lsp.log_tag + " (skipping message with id=Some("@ + id + "))"@),
            ],
            AnswerModel::Refused(_) => true,
        },
{
}

/// What a run did not ask for changes nothing and prints nothing.
#[verifier::rlimit(50)]
pub proof fn law_unasked_events_change_nothing(run: RunModel, event: SmokeEvent)
    requires
        match run.stage {
            StageModel::Connect => !(event is Connected) && !(event is ConnectFailed),
            StageModel::Health => !(event is Health) && !(event is CallFailed),
            StageModel::Docker => !(event is Docker) && !(event is CallFailed),
            StageModel::Config => !(event is Config),
            StageModel::Build { .. } => !(event is Build) && !(event is TimedOut),
            StageModel::Terminal { .. } => !(event is Command) && !(event is CommandFailed),
            StageModel::FindServer { .. } => !(event is Command) && !(event is CommandFailed),
            StageModel::StartServer { .. } => !(event is Started) && !(event is StartFailed),
            StageModel::Initialize => !(event is Sent) && !(event is SendFailed),
            StageModel::Answer => !(event is Message) && !(event is ReadFailed)
                && !(event is TimedOut),
            StageModel::Close => !(event is Sent) && !(event is SendFailed),
            StageModel::Exit => !(event is Exited) && !(event is ExitFailed)
                && !(event is TimedOut),
            StageModel::Done(_) => true,
        },
    ensures
        turn(run, event).run == run,
        turn(run, event).output.len() == 0,
{
}

/// What comes instead of what a run asked for ends it or takes it on, and never leaves it waiting: but
/// for reports of a build that goes on and for messages that are passed over.
#[verifier::rlimit(50)]
pub proof fn law_answers_move_a_run(run: RunModel, event: SmokeEvent)
    requires
        match run.stage {
            StageModel::Connect => event is Connected || event is ConnectFailed,
            StageModel::Health => event is Health || event is CallFailed,
            StageModel::Docker => event is Docker || event is CallFailed,
            StageModel::Config => event is Config,
            StageModel::Build { .. } => event is TimedOut,
            StageModel::Terminal { .. } => event is Command || event is CommandFailed,
            StageModel::FindServer { .. } => event is Command || event is CommandFailed,
            StageModel::StartServer { .. } => event is Started || event is StartFailed,
            StageModel::Initialize => event is Sent || event is SendFailed,
            StageModel::Answer => event is ReadFailed || event is TimedOut,
            StageModel::Close => event is Sent || event is SendFailed,
            StageModel::Exit => event is Exited || event is ExitFailed || event is TimedOut,
            StageModel::Done(_) => false,
        },
    ensures
        turn(run, event).run.stage != run.stage,
{
}

/// What people are told of the terminal and of the end of the language server. A server that does not
/// end is warned of on the standard error, in JSON mode too.
#[verifier::rlimit(50)]
pub proof fn law_tests_are_told(
    run: RunModel,
    event: SmokeEvent,
    available: bool,
    error_message: String,
)
    ensures
        run.stage is Terminal && !run.json && (event is Command || event is CommandFailed) ==> {
            let after = turn(run, event);
            let search = console::out(
                run.lsp.log_tag + " Checking "@ + run.lsp.display_name + " availability ..."@,
            );
            match after.run.results.terminal->Some_0 {
                StepModel::Okay(_) => after.output == seq![
                    console::out("[TERMINAL]  Received SMOKE_OK"@),
                    search,
                ],
                StepModel::Fail(reason) => after.output == seq![
                    console::err("[TERMINAL]  FAIL: "@ + reason),
                    search,
                ],
                StepModel::Skip(_) => false,
            }
        },
        run.stage is Docker && !run.json ==> turn(
            run,
            SmokeEvent::Docker { available: true, permissions_ok: true, error_message },
        ).output == seq![console::out("[PREFLIGHT] Passed (docker available, permissions ok)"@)],
        run.stage is Exit ==> {
            let quiet = turn(run, SmokeEvent::Exited).output;
            let late = turn(run, SmokeEvent::TimedOut).output;
            &&& late.len() == quiet.len() + 1
            &&& late.skip(1) == quiet
            &&& late[0] == console::err(
                run.lsp.log_tag + " warning: child did not exit within 5s"@,
            )
            &&& !run.json ==> quiet[0] == console::out(
                run.lsp.log_tag + " Initialize/shutdown cycle completed"@,
            )
        },
        run.stage is Exit ==> (event matches SmokeEvent::ExitFailed(error) ==> turn(
            run,
            event,
        ).output[0] == console::err(
            run.lsp.log_tag + " warning: child wait error: "@ + error@,
        )),
{
    if run.stage is Exit {
        let quiet = turn(run, SmokeEvent::Exited).output;
        let late = turn(run, SmokeEvent::TimedOut).output;
        assert(late.skip(1) =~= quiet);
        let none: Seq<OutputModel> = seq![];
        assert(none + console::unless_json(
            run.json,
            seq![console::out(run.lsp.log_tag + " Initialize/shutdown cycle completed"@)],
        ) =~= console::unless_json(
            run.json,
            seq![console::out(run.lsp.log_tag + " Initialize/shutdown cycle completed"@)],
        ));
    }
}

} // verus!
