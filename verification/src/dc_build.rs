//! The build of a container on request: its arguments, its course, and what it prints.
//!
//! A run is a machine. It says what to do next, is told what came of it, and says what to print.

use crate::build_progress;
use crate::build_progress::{
    BuildCall, BuildProgress, BuildStep, BuildStepModel, CallModel, StreamEvent,
};
use crate::cli;
use crate::cli::{CommonArgs, CommonModel, Parsed, ParsedModel};
use crate::console;
use crate::console::{Output, OutputModel};
use crate::ipc;
use crate::json;
use crate::json::Json;
use crate::path;
use crate::platform::Platform;
use crate::schemas;
use crate::schemas::DcBuildJson;
use crate::text;
use vstd::prelude::*;
use vstd::string::StringExecFns;

verus! {

/// What the help flag prints.
pub const BUILD_HELP: &'static str = "Usage: dc-build [OPTIONS]\n\nBuild or rebuild a DevContainer for the given workspace via the TAIS DevContainer daemon.\n\nOptions:\n  -w, --workspace <PATH>     Workspace to build (default: cwd)\n  -j, --json                 Machine-readable JSON output\n  -f, --force                Force rebuild (remove existing container first)\n  --max-wait-seconds <N>     Build timeout in seconds (default: 600)\n  -h, --help                 Show this help\n";

/// The arguments of a build.
pub struct BuildArgs {
    pub common: CommonArgs,
    pub force_rebuild: bool,
    pub max_wait_seconds: u64,
}

/// The model of the arguments of a build.
pub struct BuildArgsModel {
    pub common: CommonModel,
    pub force_rebuild: bool,
    pub max_wait_seconds: nat,
}

impl View for BuildArgs {
    type V = BuildArgsModel;

    open spec fn view(&self) -> BuildArgsModel {
        BuildArgsModel {
            common: self.common@,
            force_rebuild: self.force_rebuild,
            max_wait_seconds: self.max_wait_seconds as nat,
        }
    }
}

/// What a command line says that was given in `current_dir`.
pub open spec fn build_args(
    args: Seq<Seq<char>>,
    current_dir: Option<Seq<char>>,
) -> ParsedModel<BuildArgsModel> {
    let own = cli::without_common(args);
    if cli::asks_help(args) {
        ParsedModel::Help
    } else {
        match cli::max_wait(cli::without_bool_flag(own, "--force"@, "-f"@)) {
            Some(max_wait_seconds) => ParsedModel::Run(
                BuildArgsModel {
                    common: cli::common_args(args, current_dir),
                    force_rebuild: cli::has_bool_flag(own, "--force"@, "-f"@),
                    max_wait_seconds,
                },
            ),
            None => ParsedModel::Reject(cli::usage_error(cli::MAX_WAIT_MESSAGE@)),
        }
    }
}

/// Takes a command line apart that was given in `current_dir`.
pub fn parse_args(args: Vec<String>, current_dir: Option<String>) -> (r: Parsed<BuildArgs>)
    ensures
        r@ == build_args(text::texts(args@), text::text_option(current_dir)),
{
    let mut args = args;
    if cli::wants_help(&args) {
        return Parsed::Help;
    }
    let common = cli::parse_common_args(&mut args, current_dir);
    let force_rebuild = cli::extract_bool_flag(&mut args, "--force", "-f");
    match cli::extract_max_wait(&mut args) {
        Some(max_wait_seconds) => Parsed::Run(
            BuildArgs { common, force_rebuild, max_wait_seconds },
        ),
        None => Parsed::Reject(cli::usage_message(cli::MAX_WAIT_MESSAGE)),
    }
}

/// Where a run is: what it waits for, or its exit code.
#[derive(Debug)]
pub enum BuildStage {
    Config,
    Connect { config_path: String },
    Build { config_path: String },
    Done(i32),
}

/// The model of where a run is.
pub enum StageModel {
    Config,
    Connect { config_path: Seq<char> },
    Build { config_path: Seq<char> },
    Done(i32),
}

impl View for BuildStage {
    type V = StageModel;

    open spec fn view(&self) -> StageModel {
        match *self {
            BuildStage::Config => StageModel::Config,
            BuildStage::Connect { config_path } => StageModel::Connect {
                config_path: config_path@,
            },
            BuildStage::Build { config_path } => StageModel::Build { config_path: config_path@ },
            BuildStage::Done(code) => StageModel::Done(code),
        }
    }
}

/// What came of what a run waits for.
#[derive(Debug)]
pub enum BuildEvent {
    /// Which of the two places holds a configuration.
    Config { primary_exists: bool, fallback_exists: bool },
    /// The daemon accepted the connection.
    Connected,
    /// The daemon did not accept the connection.
    ConnectFailed,
    /// The daemon reports of the build, so long after its start.
    Build { event: StreamEvent, elapsed_ms: u64 },
    /// The build did not end in time, so long after its start.
    TimedOut { elapsed_ms: u64 },
}

/// A run of a build.
#[derive(Debug)]
pub struct BuildRun {
    pub platform: Platform,
    pub workspace: String,
    pub json: bool,
    pub use_color: bool,
    pub force_rebuild: bool,
    pub max_wait_seconds: u64,
    pub stage: BuildStage,
}

/// The model of a run of a build.
pub struct RunModel {
    pub platform: Platform,
    pub workspace: Seq<char>,
    pub json: bool,
    pub use_color: bool,
    pub force_rebuild: bool,
    pub max_wait_seconds: u64,
    pub stage: StageModel,
}

impl View for BuildRun {
    type V = RunModel;

    open spec fn view(&self) -> RunModel {
        RunModel {
            platform: self.platform,
            workspace: self.workspace@,
            json: self.json,
            use_color: self.use_color,
            force_rebuild: self.force_rebuild,
            max_wait_seconds: self.max_wait_seconds,
            stage: self.stage@,
        }
    }
}

/// A run after something came, and what is printed then.
pub struct Turn {
    pub run: RunModel,
    pub output: Seq<OutputModel>,
}

/// What a run does: a build, or a build from scratch.
pub open spec fn action_text(force_rebuild: bool) -> Seq<char> {
    if force_rebuild {
        "rebuild"@
    } else {
        "build"@
    }
}

/// What a run does.
pub fn action(force_rebuild: bool) -> (r: &'static str)
    ensures
        r@ == action_text(force_rebuild),
{
    if force_rebuild {
        "rebuild"
    } else {
        "build"
    }
}

/// The call that asks the daemon for the build, where the run waits for one: it removes a container
/// that is there where the command line says so.
pub open spec fn build_call_of(run: RunModel) -> Option<CallModel> {
    match run.stage {
        StageModel::Build { config_path } => Some(
            CallModel {
                workspace_path: run.workspace,
                config_path,
                force_rebuild: run.force_rebuild,
            },
        ),
        _ => None,
    }
}

/// How a build ended: with a container, or with an error.
pub struct Ending {
    pub container_id: Option<Seq<char>>,
    pub error_message: Option<Seq<char>>,
}

/// The document of a build that ended.
pub open spec fn build_json(run: RunModel, ending: Ending, elapsed_ms: nat) -> Json {
    Json::Object(
        seq![
            ("workspace"@, Json::Text(run.workspace)),
            ("action"@, Json::Text(action_text(run.force_rebuild))),
            (
                "status"@,
                Json::Text(
                    if ending.error_message is None {
                        "success"@
                    } else {
                        "failed"@
                    },
                ),
            ),
            ("duration_ms"@, Json::Unsigned(elapsed_ms)),
        ] + schemas::optional_text("container_id"@, ending.container_id) + schemas::optional_text(
            "error_message"@,
            ending.error_message,
        ),
    )
}

/// The run ends: the document is printed in JSON mode, else these lines.
pub open spec fn finished(
    run: RunModel,
    ending: Ending,
    elapsed_ms: nat,
    lines: Seq<OutputModel>,
) -> Turn {
    Turn {
        run: RunModel {
            stage: StageModel::Done(
                if ending.error_message is None {
                    0
                } else {
                    1
                },
            ),
            ..run
        },
        output: if run.json {
            seq![console::out(json::pretty_text(build_json(run, ending, elapsed_ms)))]
        } else {
            lines
        },
    }
}

/// The run ends with an error.
pub open spec fn failed(
    run: RunModel,
    message: Seq<char>,
    elapsed_ms: nat,
    lines: Seq<OutputModel>,
) -> Turn {
    finished(
        run,
        Ending { container_id: None, error_message: Some(message) },
        elapsed_ms,
        lines,
    )
}

/// The run ends before the build begins.
pub open spec fn refused(run: RunModel, message: Seq<char>) -> Turn {
    failed(run, message, 0, seq![console::err("error: "@ + message)])
}

/// The run goes on to another stage.
pub open spec fn goes_on(run: RunModel, stage: StageModel, remarks: Seq<OutputModel>) -> Turn {
    Turn { run: RunModel { stage, ..run }, output: console::unless_json(run.json, remarks) }
}

/// The run waits on.
pub open spec fn stays(run: RunModel) -> Turn {
    Turn { run, output: seq![] }
}

/// The turn of a run that looks for a configuration.
pub open spec fn config_turn(run: RunModel, event: BuildEvent) -> Turn {
    match event {
        BuildEvent::Config { primary_exists, fallback_exists } => match ipc::detected_config(
            run.platform,
            run.workspace,
            primary_exists,
            fallback_exists,
        ) {
            Some(config_path) => goes_on(
                run,
                StageModel::Connect { config_path },
                seq![
                    console::out(
                        "dc-build \u{2014} connecting to tais-devcontainerd daemon ..."@,
                    ),
                ],
            ),
            None => refused(
                run,
                "No .devcontainer/devcontainer.json found in "@ + run.workspace,
            ),
        },
        _ => stays(run),
    }
}

/// The turn of a run that waits for a connection.
pub open spec fn connect_turn(run: RunModel, config_path: Seq<char>, event: BuildEvent) -> Turn {
    match event {
        BuildEvent::Connected => goes_on(
            run,
            StageModel::Build { config_path },
            seq![
                console::out(
                    console::painted(run.use_color, "\x1b[1m"@, "dc-build"@) + " \u{2014} "@
                        + action_text(run.force_rebuild) + " for "@ + run.workspace,
                ),
                console::out("  config:  "@ + config_path),
                console::out(
                    "  timeout: "@ + text::decimal_text(run.max_wait_seconds as nat) + "s"@,
                ),
                console::out(""@),
            ],
        ),
        BuildEvent::ConnectFailed => refused(
            run,
            "Failed to connect to TAIS DevContainer daemon: "@ + ipc::CONNECT_MESSAGE@,
        ),
        _ => stays(run),
    }
}

/// The build is done.
pub open spec fn built(run: RunModel, container_id: Seq<char>, elapsed_ms: nat) -> Turn {
    finished(
        run,
        Ending { container_id: Some(container_id), error_message: None },
        elapsed_ms,
        seq![
            console::out(
                console::painted(run.use_color, "\x1b[32m"@, "[COMPLETE]"@) + " container "@
                    + container_id,
            ),
            console::out(""@),
            console::out(
                console::painted(run.use_color, "\x1b[1;32m"@, "Build succeeded"@) + " in "@
                    + text::decimal_text(elapsed_ms) + "ms."@,
            ),
        ],
    )
}

/// The build failed.
pub open spec fn not_built(run: RunModel, message: Seq<char>, elapsed_ms: nat) -> Turn {
    failed(
        run,
        message,
        elapsed_ms,
        seq![
            console::err(""@),
            console::err(
                console::painted(run.use_color, "\x1b[1;31m"@, "Build failed"@) + " after "@
                    + text::decimal_text(elapsed_ms) + "ms: "@ + message,
            ),
        ],
    )
}

/// The build took too long.
pub open spec fn too_slow(run: RunModel, elapsed_ms: nat) -> Turn {
    let limit = text::decimal_text(run.max_wait_seconds as nat);
    failed(
        run,
        "Build timed out after "@ + limit + "s (use --max-wait-seconds to increase)"@,
        elapsed_ms,
        seq![
            console::err(""@),
            console::err(
                console::painted(run.use_color, "\x1b[1;31m"@, "Build timed out"@) + " after "@
                    + limit + "s."@,
            ),
        ],
    )
}

/// The turn of a run that waits for its container.
pub open spec fn build_turn(run: RunModel, event: BuildEvent) -> Turn {
    match event {
        BuildEvent::Build { event: report, elapsed_ms } => match build_progress::stream_step(
            report,
            ""@,
        ) {
            BuildStepModel::Wait => goes_on(
                run,
                run.stage,
                seq![console::out(build_progress::report_text(report->Report_0, "\u{2014}"@))],
            ),
            BuildStepModel::Ready(container_id) => built(run, container_id, elapsed_ms as nat),
            BuildStepModel::Fail(message) => not_built(run, message, elapsed_ms as nat),
        },
        BuildEvent::TimedOut { elapsed_ms } => too_slow(run, elapsed_ms as nat),
        _ => stays(run),
    }
}

/// The turn of a run. What a run does not wait for leaves it as it was.
pub open spec fn turn(run: RunModel, event: BuildEvent) -> Turn {
    match run.stage {
        StageModel::Config => config_turn(run, event),
        StageModel::Connect { config_path } => connect_turn(run, config_path, event),
        StageModel::Build { .. } => build_turn(run, event),
        StageModel::Done(_) => stays(run),
    }
}

/// The run of a command line on a workspace.
pub open spec fn first_run(
    platform: Platform,
    workspace: Seq<char>,
    args: BuildArgsModel,
    is_terminal: bool,
) -> RunModel {
    RunModel {
        platform,
        workspace,
        json: args.common.json,
        use_color: !args.common.json && is_terminal,
        force_rebuild: args.force_rebuild,
        max_wait_seconds: args.max_wait_seconds as u64,
        stage: StageModel::Config,
    }
}

/// The run of a command line on a workspace.
pub fn begin(
    platform: Platform,
    workspace: String,
    args: &BuildArgs,
    is_terminal: bool,
) -> (r: BuildRun)
    ensures
        r@ == (RunModel {
            platform,
            workspace: workspace@,
            json: args.common.json,
            use_color: !args.common.json && is_terminal,
            force_rebuild: args.force_rebuild,
            max_wait_seconds: args.max_wait_seconds,
            stage: StageModel::Config,
        }),
        r@ == first_run(platform, workspace@, args@, is_terminal),
{
    BuildRun {
        platform,
        workspace,
        json: args.common.json,
        use_color: !args.common.json && is_terminal,
        force_rebuild: args.force_rebuild,
        max_wait_seconds: args.max_wait_seconds,
        stage: BuildStage::Config,
    }
}

impl BuildRun {
    /// The call that asks the daemon for the build, where the run waits for one.
    pub fn build_call(&self) -> (r: Option<BuildCall>)
        ensures
            build_progress::call_option(r) == build_call_of(self@),
    {
        match &self.stage {
            BuildStage::Build { config_path } => Some(
                BuildCall {
                    workspace_path: self.workspace.clone(),
                    config_path: config_path.clone(),
                    force_rebuild: self.force_rebuild,
                },
            ),
            _ => None,
        }
    }

    /// The run ends.
    fn finish(
        self,
        container_id: Option<String>,
        error_message: Option<String>,
        elapsed_ms: u64,
        lines: Vec<Output>,
    ) -> (r: (BuildRun, Vec<Output>))
        ensures
            r.0@ == finished(
                self@,
                Ending {
                    container_id: text::text_option(container_id),
                    error_message: text::text_option(error_message),
                },
                elapsed_ms as nat,
                console::outputs(lines@),
            ).run,
            console::outputs(r.1@) == finished(
                self@,
                Ending {
                    container_id: text::text_option(container_id),
                    error_message: text::text_option(error_message),
                },
                elapsed_ms as nat,
                console::outputs(lines@),
            ).output,
    {
        let ghost ending = Ending {
            container_id: text::text_option(container_id),
            error_message: text::text_option(error_message),
        };
        let succeeded = error_message.is_none();
        let code: i32 = if succeeded {
            0
        } else {
            1
        };
        let status = if succeeded {
            "success"
        } else {
            "failed"
        };
        let output = if self.json {
            let document = DcBuildJson {
                workspace: self.workspace.clone(),
                action: action(self.force_rebuild).to_owned(),
                status: status.to_owned(),
                duration_ms: elapsed_ms,
                container_id,
                error_message,
            };
            proof {
                assert(document.json()->Object_0 =~= build_json(
                    self@,
                    ending,
                    elapsed_ms as nat,
                )->Object_0);
            }
            match json::to_pretty(&document.to_json()) {
                Ok(shown) => vec![Output::Stdout(shown)],
                Err(_) => Vec::new(),
            }
        } else {
            lines
        };
        assert(console::outputs(output@) =~= finished(
            self@,
            ending,
            elapsed_ms as nat,
            console::outputs(lines@),
        ).output);
        (BuildRun { stage: BuildStage::Done(code), ..self }, output)
    }

    /// The run ends before the build begins.
    fn refuse(self, message: String) -> (r: (BuildRun, Vec<Output>))
        ensures
            r.0@ == refused(self@, message@).run,
            console::outputs(r.1@) == refused(self@, message@).output,
    {
        let lines = vec![Output::Stderr("error: ".to_owned().concat(message.as_str()))];
        assert(console::outputs(lines@) =~= seq![console::err("error: "@ + message@)]);
        self.finish(None, Some(message), 0, lines)
    }

    /// The run goes on to another stage.
    fn go_on(self, stage: BuildStage, remarks: Vec<Output>) -> (r: (BuildRun, Vec<Output>))
        ensures
            r.0@ == goes_on(self@, stage@, console::outputs(remarks@)).run,
            console::outputs(r.1@) == goes_on(self@, stage@, console::outputs(remarks@)).output,
    {
        let output = console::remarks(self.json, remarks);
        (BuildRun { stage, ..self }, output)
    }

    /// The run waits on.
    fn stay(self) -> (r: (BuildRun, Vec<Output>))
        ensures
            r.0@ == stays(self@).run,
            console::outputs(r.1@) == stays(self@).output,
    {
        let output: Vec<Output> = Vec::new();
        assert(console::outputs(output@) =~= seq![]);
        (self, output)
    }

    /// The turn of a run that looks for a configuration.
    fn after_config(self, event: BuildEvent) -> (r: (BuildRun, Vec<Output>))
        ensures
            r.0@ == config_turn(self@, event).run,
            console::outputs(r.1@) == config_turn(self@, event).output,
    {
        match event {
            BuildEvent::Config { primary_exists, fallback_exists } => {
                match ipc::detect_devcontainer_config(
                    self.platform,
                    self.workspace.as_str(),
                    primary_exists,
                    fallback_exists,
                ) {
                    Some(config_path) => {
                        let lines = vec![
                            Output::Stdout(
                                "dc-build \u{2014} connecting to tais-devcontainerd daemon ...".to_owned(),
                            ),
                        ];
                        assert(console::outputs(lines@) =~= seq![
                            console::out(
                                "dc-build \u{2014} connecting to tais-devcontainerd daemon ..."@,
                            ),
                        ]);
                        self.go_on(BuildStage::Connect { config_path }, lines)
                    },
                    None => {
                        let message = "No .devcontainer/devcontainer.json found in ".to_owned().concat(
                            self.workspace.as_str(),
                        );
                        self.refuse(message)
                    },
                }
            },
            _ => self.stay(),
        }
    }

    /// The turn of a run that waits for a connection.
    fn after_connect(self, config_path: String, event: BuildEvent) -> (r: (
        BuildRun,
        Vec<Output>,
    ))
        ensures
            r.0@ == connect_turn(self@, config_path@, event).run,
            console::outputs(r.1@) == connect_turn(self@, config_path@, event).output,
    {
        match event {
            BuildEvent::Connected => {
                let lines = vec![
                    Output::Stdout(
                        console::paint(self.use_color, "\x1b[1m", "dc-build").concat(
                            " \u{2014} ",
                        ).concat(action(self.force_rebuild)).concat(" for ").concat(
                            self.workspace.as_str(),
                        ),
                    ),
                    Output::Stdout("  config:  ".to_owned().concat(config_path.as_str())),
                    Output::Stdout(
                        "  timeout: ".to_owned().concat(
                            text::decimal(self.max_wait_seconds).as_str(),
                        ).concat("s"),
                    ),
                    Output::Stdout("".to_owned()),
                ];
                assert(console::outputs(lines@) =~= seq![
                    console::out(
                        console::painted(self@.use_color, "\x1b[1m"@, "dc-build"@)
                            + " \u{2014} "@ + action_text(self@.force_rebuild) + " for "@
                            + self@.workspace,
                    ),
                    console::out("  config:  "@ + config_path@),
                    console::out(
                        "  timeout: "@ + text::decimal_text(self@.max_wait_seconds as nat) + "s"@,
                    ),
                    console::out(""@),
                ]);
                self.go_on(BuildStage::Build { config_path }, lines)
            },
            BuildEvent::ConnectFailed => {
                let message = "Failed to connect to TAIS DevContainer daemon: ".to_owned().concat(
                    ipc::CONNECT_MESSAGE,
                );
                self.refuse(message)
            },
            _ => self.stay(),
        }
    }

    /// The build is done.
    fn succeed(self, container_id: String, elapsed_ms: u64) -> (r: (BuildRun, Vec<Output>))
        ensures
            r.0@ == built(self@, container_id@, elapsed_ms as nat).run,
            console::outputs(r.1@) == built(self@, container_id@, elapsed_ms as nat).output,
    {
        let lines = vec![
            Output::Stdout(
                console::paint(self.use_color, "\x1b[32m", "[COMPLETE]").concat(
                    " container ",
                ).concat(container_id.as_str()),
            ),
            Output::Stdout("".to_owned()),
            Output::Stdout(
                console::paint(self.use_color, "\x1b[1;32m", "Build succeeded").concat(
                    " in ",
                ).concat(text::decimal(elapsed_ms).as_str()).concat("ms."),
            ),
        ];
        assert(console::outputs(lines@) =~= seq![
            console::out(
                console::painted(self@.use_color, "\x1b[32m"@, "[COMPLETE]"@) + " container "@
                    + container_id@,
            ),
            console::out(""@),
            console::out(
                console::painted(self@.use_color, "\x1b[1;32m"@, "Build succeeded"@) + " in "@
                    + text::decimal_text(elapsed_ms as nat) + "ms."@,
            ),
        ]);
        self.finish(Some(container_id), None, elapsed_ms, lines)
    }

    /// The build failed.
    fn fail(self, message: String, elapsed_ms: u64) -> (r: (BuildRun, Vec<Output>))
        ensures
            r.0@ == not_built(self@, message@, elapsed_ms as nat).run,
            console::outputs(r.1@) == not_built(self@, message@, elapsed_ms as nat).output,
    {
        let lines = vec![
            Output::Stderr("".to_owned()),
            Output::Stderr(
                console::paint(self.use_color, "\x1b[1;31m", "Build failed").concat(
                    " after ",
                ).concat(text::decimal(elapsed_ms).as_str()).concat("ms: ").concat(
                    message.as_str(),
                ),
            ),
        ];
        assert(console::outputs(lines@) =~= seq![
            console::err(""@),
            console::err(
                console::painted(self@.use_color, "\x1b[1;31m"@, "Build failed"@) + " after "@
                    + text::decimal_text(elapsed_ms as nat) + "ms: "@ + message@,
            ),
        ]);
        self.finish(None, Some(message), elapsed_ms, lines)
    }

    /// The build took too long.
    fn give_up(self, elapsed_ms: u64) -> (r: (BuildRun, Vec<Output>))
        ensures
            r.0@ == too_slow(self@, elapsed_ms as nat).run,
            console::outputs(r.1@) == too_slow(self@, elapsed_ms as nat).output,
    {
        let limit = text::decimal(self.max_wait_seconds);
        let message = "Build timed out after ".to_owned().concat(limit.as_str()).concat(
            "s (use --max-wait-seconds to increase)",
        );
        let lines = vec![
            Output::Stderr("".to_owned()),
            Output::Stderr(
                console::paint(self.use_color, "\x1b[1;31m", "Build timed out").concat(
                    " after ",
                ).concat(limit.as_str()).concat("s."),
            ),
        ];
        assert(console::outputs(lines@) =~= seq![
            console::err(""@),
            console::err(
                console::painted(self@.use_color, "\x1b[1;31m"@, "Build timed out"@) + " after "@
                    + limit@ + "s."@,
            ),
        ]);
        self.finish(None, Some(message), elapsed_ms, lines)
    }

    /// The turn of a run that waits for its container.
    fn after_build(self, event: BuildEvent) -> (r: (BuildRun, Vec<Output>))
        ensures
            r.0@ == build_turn(self@, event).run,
            console::outputs(r.1@) == build_turn(self@, event).output,
    {
        match event {
            BuildEvent::Build { event: report, elapsed_ms } => match build_progress::interpret_event(
                &report,
                "",
            ) {
                BuildStep::Wait => {
                    let mut lines: Vec<Output> = Vec::new();
                    if let StreamEvent::Report(progress) = &report {
                        lines.push(
                            Output::Stdout(build_progress::report_line(progress, "\u{2014}")),
                        );
                    }
                    assert(console::outputs(lines@) =~= seq![
                        console::out(build_progress::report_text(report->Report_0, "\u{2014}"@)),
                    ]);
                    let output = console::remarks(self.json, lines);
                    (self, output)
                },
                BuildStep::Ready(container_id) => self.succeed(container_id, elapsed_ms),
                BuildStep::Fail(message) => self.fail(message, elapsed_ms),
            },
            BuildEvent::TimedOut { elapsed_ms } => self.give_up(elapsed_ms),
            _ => self.stay(),
        }
    }

    /// Takes what came of what the run waits for; gives the run as it is then, and what is
    /// printed.
    pub fn step(self, event: BuildEvent) -> (r: (BuildRun, Vec<Output>))
        ensures
            r.0@ == turn(self@, event).run,
            console::outputs(r.1@) == turn(self@, event).output,
    {
        match &self.stage {
            BuildStage::Config => self.after_config(event),
            BuildStage::Connect { config_path } => {
                let config_path = config_path.clone();
                self.after_connect(config_path, event)
            },
            BuildStage::Build { .. } => self.after_build(event),
            BuildStage::Done(_) => self.stay(),
        }
    }
}

/// In JSON mode the standard output carries the document and nothing else, and nothing goes to
/// the standard error: the document is printed in the turn that ends the run.
pub proof fn law_json_mode_prints_one_document(run: RunModel, event: BuildEvent)
    requires
        run.json,
    ensures
        turn(run, event).run.stage is Done && !(run.stage is Done) ==> turn(
            run,
            event,
        ).output.len() == 1 && turn(run, event).output[0] is Stdout,
        !(turn(run, event).run.stage is Done) || run.stage is Done ==> turn(
            run,
            event,
        ).output.len() == 0,
{
}

/// A run ends with zero where the daemon reports a container and only there; every other end is
/// one.
pub proof fn law_exit_code_is_zero_iff_built(run: RunModel, event: BuildEvent)
    requires
        !(run.stage is Done),
        turn(run, event).run.stage is Done,
    ensures
        turn(run, event).run.stage->Done_0 == 0 || turn(run, event).run.stage->Done_0 == 1,
        turn(run, event).run.stage->Done_0 == 0 <==> (run.stage is Build && event is Build
            && build_progress::stream_step(event->Build_event, ""@) is Ready),
{
}

/// The file that exists is built from. A run that looks for a configuration and is then connected
/// calls for a build of its workspace from `.devcontainer/devcontainer.json` wherever that is there,
/// from `.devcontainer.json` only where it is not, and by force exactly where the command line says
/// so; the file is told of, and before the connection nothing is called. Where neither file exists
/// the run ends with one and no build is called for.
pub proof fn law_found_configuration_is_built(
    run: RunModel,
    primary_exists: bool,
    fallback_exists: bool,
)
    requires
        run.stage is Config,
    ensures
        ({
            let found = turn(run, BuildEvent::Config { primary_exists, fallback_exists });
            let connected = turn(found.run, BuildEvent::Connected);
            let place = if primary_exists {
                ".devcontainer/devcontainer.json"@
            } else {
                ".devcontainer.json"@
            };
            let config_path = path::joined(run.platform, run.workspace, place);
            &&& build_call_of(run) is None
            &&& build_call_of(found.run) is None
            &&& primary_exists || fallback_exists ==> {
                &&& found.run == (RunModel { stage: StageModel::Connect { config_path }, ..run })
                &&& build_call_of(connected.run) == Some(
                    CallModel {
                        workspace_path: run.workspace,
                        config_path,
                        force_rebuild: run.force_rebuild,
                    },
                )
                &&& !run.json ==> connected.output[1] == console::out("  config:  "@ + config_path)
            }
            &&& !primary_exists && !fallback_exists ==> {
                &&& found.run == (RunModel { stage: StageModel::Done(1), ..run })
                &&& build_call_of(connected.run) is None
            }
        }),
{
    ipc::law_existing_configuration_is_taken(
        run.platform,
        run.workspace,
        primary_exists,
        fallback_exists,
    );
}

/// A document of a build tells the workspace, what was asked for and how long it took. It is a
/// success with the container and no error, or a failure with the error and no container.
#[verifier::rlimit(50)]
pub proof fn law_document_tells_the_build(run: RunModel, ending: Ending, elapsed_ms: nat)
    requires
        ending.container_id is Some <==> ending.error_message is None,
    ensures
        ({
            let document = build_json(run, ending, elapsed_ms);
            &&& document.member("workspace"@) == Some(Json::Text(run.workspace))
            &&& document.member("action"@) == Some(
                Json::Text(
                    if run.force_rebuild {
                        "rebuild"@
                    } else {
                        "build"@
                    },
                ),
            )
            &&& document.member("duration_ms"@) == Some(Json::Unsigned(elapsed_ms))
            &&& ending.container_id matches Some(id) ==> {
                &&& document.member("status"@) == Some(Json::Text("success"@))
                &&& document.member("container_id"@) == Some(Json::Text(id))
                &&& document.member("error_message"@) is None
            }
            &&& ending.error_message matches Some(error) ==> {
                &&& document.member("status"@) == Some(Json::Text("failed"@))
                &&& document.member("error_message"@) == Some(Json::Text(error))
                &&& document.member("container_id"@) is None
            }
        }),
{
    let document = build_json(run, ending, elapsed_ms);
    let members = document->Object_0;
    json::lemma_keys();
    assert(members.len() == 5);
    assert(json::distinct_keys(members));
    json::law_members_are_found(members);
    assert(document.member(members[0].0) == Some(members[0].1));
    assert(document.member(members[1].0) == Some(members[1].1));
    assert(document.member(members[2].0) == Some(members[2].1));
    assert(document.member(members[3].0) == Some(members[3].1));
    assert(document.member(members[4].0) == Some(members[4].1));
    if ending.container_id is Some {
        assert(forall|i: int| 0 <= i < members.len() ==> members[i].0 != "error_message"@);
    } else {
        assert(forall|i: int| 0 <= i < members.len() ==> members[i].0 != "container_id"@);
    }
}

/// How a build ends. A container that the daemon reports ready ends it with zero and is told whole;
/// a failure ends it with one and is told with its reason, as is a build that takes longer than was
/// allowed. In JSON mode the document says the same, with the time that was taken.
#[verifier::rlimit(50)]
pub proof fn law_end_of_a_build_is_told(run: RunModel, event: StreamEvent, elapsed_ms: u64)
    requires
        run.stage is Build,
    ensures
        ({
            let after = turn(run, BuildEvent::Build { event, elapsed_ms });
            let late = turn(run, BuildEvent::TimedOut { elapsed_ms });
            let seconds = text::decimal_text(run.max_wait_seconds as nat);
            let too_late = "Build timed out after "@ + seconds
                + "s (use --max-wait-seconds to increase)"@;
            &&& build_progress::stream_step(event, ""@) matches BuildStepModel::Ready(id) ==> {
                let ending = Ending { container_id: Some(id), error_message: None };
                &&& after.run == (RunModel { stage: StageModel::Done(0), ..run })
                &&& run.json ==> after.output == seq![
                    console::out(json::pretty_text(build_json(run, ending, elapsed_ms as nat))),
                ]
                &&& !run.json && !run.use_color ==> after.output == seq![
                    console::out("[COMPLETE] container "@ + id),
                    console::out(""@),
                    console::out(
                        "Build succeeded in "@ + text::decimal_text(elapsed_ms as nat) + "ms."@,
                    ),
                ]
            }
            &&& build_progress::stream_step(event, ""@) matches BuildStepModel::Fail(reason) ==> {
                let ending = Ending { container_id: None, error_message: Some(reason) };
                &&& after.run == (RunModel { stage: StageModel::Done(1), ..run })
                &&& run.json ==> after.output == seq![
                    console::out(json::pretty_text(build_json(run, ending, elapsed_ms as nat))),
                ]
                &&& !run.json && !run.use_color ==> after.output == seq![
                    console::err(""@),
                    console::err(
                        "Build failed after "@ + text::decimal_text(elapsed_ms as nat) + "ms: "@
                            + reason,
                    ),
                ]
            }
            &&& build_progress::stream_step(event, ""@) is Wait ==> after.run == run
            &&& late.run == (RunModel { stage: StageModel::Done(1), ..run })
            &&& run.json ==> late.output == seq![
                console::out(
                    json::pretty_text(
                        build_json(
                            run,
                            Ending { container_id: None, error_message: Some(too_late) },
                            elapsed_ms as nat,
                        ),
                    ),
                ),
            ]
            &&& !run.json && !run.use_color ==> late.output == seq![
                console::err(""@),
                console::err("Build timed out after "@ + seconds + "s."@),
            ]
        }),
{
    reveal_strlit("[COMPLETE]");
    reveal_strlit(" container ");
    reveal_strlit("[COMPLETE] container ");
    reveal_strlit("Build succeeded");
    reveal_strlit(" in ");
    reveal_strlit("Build succeeded in ");
    reveal_strlit("Build failed");
    reveal_strlit(" after ");
    reveal_strlit("Build failed after ");
    reveal_strlit("Build timed out");
    reveal_strlit("Build timed out after ");
    assert("[COMPLETE]"@ + " container "@ =~= "[COMPLETE] container "@);
    assert("Build succeeded"@ + " in "@ =~= "Build succeeded in "@);
    assert("Build failed"@ + " after "@ =~= "Build failed after "@);
    assert("Build timed out"@ + " after "@ =~= "Build timed out after "@);
}

/// A daemon that cannot be connected ends the run with one, and is told of with the reason. What a
/// run does not wait for changes nothing and prints nothing.
pub proof fn law_unreachable_daemon_is_told(run: RunModel, event: BuildEvent)
    requires
        run.stage is Connect,
    ensures
        ({
            let after = turn(run, BuildEvent::ConnectFailed);
            let reason = "Failed to connect to TAIS DevContainer daemon: failed to connect to tala daemon -- is it running?"@;
            let ending = Ending { container_id: None, error_message: Some(reason) };
            &&& after.run == (RunModel { stage: StageModel::Done(1), ..run })
            &&& run.json ==> after.output == seq![
                console::out(json::pretty_text(build_json(run, ending, 0))),
            ]
            &&& !run.json ==> after.output == seq![console::err("error: "@ + reason)]
        }),
        !(event is Connected) && !(event is ConnectFailed) ==> turn(run, event).run == run && turn(
            run,
            event,
        ).output.len() == 0,
{
    reveal_strlit("Failed to connect to TAIS DevContainer daemon: ");
    reveal_strlit("failed to connect to tala daemon -- is it running?");
    reveal_strlit(
        "Failed to connect to TAIS DevContainer daemon: failed to connect to tala daemon -- is it running?",
    );
    assert("Failed to connect to TAIS DevContainer daemon: "@
        + "failed to connect to tala daemon -- is it running?"@
        =~= "Failed to connect to TAIS DevContainer daemon: failed to connect to tala daemon -- is it running?"@);
}

/// A command line asks for help wherever it says so. Else it is run where its time can be understood;
/// the build is forced exactly where `--force` or `-f` is left when the shared arguments are taken
/// out.
pub proof fn law_command_line_is_run(args: Seq<Seq<char>>, current_dir: Option<Seq<char>>)
    ensures
        build_args(args, current_dir) is Help <==> args.contains("--help"@) || args.contains("-h"@),
        ({
            let own = cli::without_common(args);
            &&& build_args(args, current_dir) is Run <==> !(build_args(args, current_dir) is Help)
                && cli::max_wait(cli::without_bool_flag(own, "--force"@, "-f"@)) is Some
            &&& build_args(args, current_dir) matches ParsedModel::Run(run) ==> {
                &&& run.force_rebuild <==> own.contains("--force"@) || own.contains("-f"@)
                &&& run.common == cli::common_args(args, current_dir)
                &&& Some(run.max_wait_seconds) == cli::max_wait(
                    cli::without_bool_flag(own, "--force"@, "-f"@),
                )
                &&& run.common.json <==> args.contains("--json"@) || args.contains("-j"@)
            }
        }),
{
    cli::law_switches_count_anywhere(args, current_dir);
}

/// A run of a build begins with the configuration, on the workspace and with what the command line
/// says; colours are for terminals, and never in JSON mode.
pub proof fn law_runs_begin(
    platform: Platform,
    workspace: Seq<char>,
    args: BuildArgsModel,
    is_terminal: bool,
)
    requires
        args.max_wait_seconds <= u64::MAX,
    ensures
        ({
            let run = first_run(platform, workspace, args, is_terminal);
            &&& run.stage is Config
            &&& run.workspace == workspace && run.platform == platform
            &&& run.json == args.common.json
            &&& run.use_color <==> is_terminal && !args.common.json
            &&& run.force_rebuild == args.force_rebuild
            &&& run.max_wait_seconds == args.max_wait_seconds
        }),
{
}

/// What people are told of the course of a build, without colour: that the daemon is connected, what
/// is done for which workspace from which configuration and within which time, and each report.
pub proof fn law_course_of_a_build_is_told(run: RunModel, report: BuildProgress)
    requires
        !run.json,
    ensures
        run.stage matches StageModel::Connect { config_path } ==> (!run.use_color ==> turn(
            run,
            BuildEvent::Connected,
        ).output == seq![
            console::out(
                "dc-build \u{2014} "@ + if run.force_rebuild {
                    "rebuild"@
                } else {
                    "build"@
                } + " for "@ + run.workspace,
            ),
            console::out("  config:  "@ + config_path),
            console::out("  timeout: "@ + text::decimal_text(run.max_wait_seconds as nat) + "s"@),
            console::out(""@),
        ]),
        run.stage is Build && report.stage is Other ==> turn(
            run,
            BuildEvent::Build { event: StreamEvent::Report(report), elapsed_ms: 0 },
        ).output == seq![console::out(build_progress::report_text(report, "\u{2014}"@))],
        run.stage is Config ==> turn(
            run,
            BuildEvent::Config { primary_exists: false, fallback_exists: false },
        ).output == seq![
            console::err("error: "@ + ("No .devcontainer/devcontainer.json found in "@ + run.workspace)),
        ],
{
    reveal_strlit("dc-build");
    reveal_strlit(" \u{2014} ");
    reveal_strlit("dc-build \u{2014} ");
    assert("dc-build"@ + " \u{2014} "@ =~= "dc-build \u{2014} "@);
}

/// What a run of a build does not wait for changes nothing and prints nothing.
pub proof fn law_unasked_events_change_nothing(run: RunModel, event: BuildEvent)
    requires
        match run.stage {
            StageModel::Config => !(event is Config),
            StageModel::Connect { .. } => !(event is Connected) && !(event is ConnectFailed),
            StageModel::Build { .. } => !(event is Build) && !(event is TimedOut),
            StageModel::Done(_) => true,
        },
    ensures
        turn(run, event).run == run,
        turn(run, event).output.len() == 0,
{
}

/// What a run of a build is about stays: its workspace, its time, and whether it is forced.
pub proof fn law_runs_keep_their_orders(run: RunModel, event: BuildEvent)
    ensures
        turn(run, event).run.workspace == run.workspace,
        turn(run, event).run.platform == run.platform,
        turn(run, event).run.json == run.json,
        turn(run, event).run.use_color == run.use_color,
        turn(run, event).run.force_rebuild == run.force_rebuild,
        turn(run, event).run.max_wait_seconds == run.max_wait_seconds,
        run.stage matches StageModel::Connect { config_path } ==> match turn(run, event).run.stage {
            StageModel::Connect { config_path: kept } => kept == config_path,
            StageModel::Build { config_path: kept } => kept == config_path,
            StageModel::Done(_) => true,
            StageModel::Config => false,
        },
        run.stage matches StageModel::Build { config_path } ==> match turn(run, event).run.stage {
            StageModel::Build { config_path: kept } => kept == config_path,
            StageModel::Done(_) => true,
            _ => false,
        },
{
}

/// Colour is put on the first words of a line, and on nothing else: bold on the name of the command,
/// green on a success, red on a failure.
pub proof fn law_colours_of_a_build(run: RunModel, id: Seq<char>, reason: Seq<char>, elapsed_ms: nat)
    requires
        !run.json,
        run.use_color,
    ensures
        built(run, id, elapsed_ms).output == seq![
            console::out("\x1b[32m"@ + "[COMPLETE]"@ + "\x1b[0m"@ + " container "@ + id),
            console::out(""@),
            console::out(
                "\x1b[1;32m"@ + "Build succeeded"@ + "\x1b[0m"@ + " in "@ + text::decimal_text(
                    elapsed_ms,
                ) + "ms."@,
            ),
        ],
        not_built(run, reason, elapsed_ms).output == seq![
            console::err(""@),
            console::err(
                "\x1b[1;31m"@ + "Build failed"@ + "\x1b[0m"@ + " after "@ + text::decimal_text(
                    elapsed_ms,
                ) + "ms: "@ + reason,
            ),
        ],
        too_slow(run, elapsed_ms).output == seq![
            console::err(""@),
            console::err(
                "\x1b[1;31m"@ + "Build timed out"@ + "\x1b[0m"@ + " after "@ + text::decimal_text(
                    run.max_wait_seconds as nat,
                ) + "s."@,
            ),
        ],
        run.stage is Connect ==> turn(run, BuildEvent::Connected).output[0] == console::out(
            "\x1b[1m"@ + "dc-build"@ + "\x1b[0m"@ + " \u{2014} "@ + if run.force_rebuild {
                "rebuild"@
            } else {
                "build"@
            } + " for "@ + run.workspace,
        ),
{
}

} // verus!
