//! The course of a diagnosis: what is asked, in which order, and what is printed at the end.
//!
//! A run is a machine. It says what to ask next and is told the answer.

use crate::cli;
use crate::cli::{CommonArgs, CommonModel, Parsed, ParsedModel};
use crate::devcontainer_doctor;
use crate::devcontainer_doctor::{
    CheckModel, CheckResult, CheckStatus, PrefightData, StatusData, Verdict,
};
use crate::ipc;
use crate::json;
use crate::path;
use crate::platform::Platform;
use crate::text;
use vstd::prelude::*;
use vstd::string::StringExecFns;

verus! {

/// What the help flag prints.
pub const DOCTOR_HELP: &'static str = "Usage: dc-doctor [OPTIONS]\n\nDiagnoses DevContainer issues for a workspace and suggests fixes.\n\nOptions:\n  -w, --workspace <PATH>  Workspace to diagnose (default: cwd)\n  -j, --json              Machine-readable JSON output\n  -v, --verbose           Show detailed internal check info\n  -h, --help              Show this help\n";

/// How long the daemon may take to answer, in seconds.
pub const GRPC_TIMEOUT: u64 = 5;

/// How long Docker may take to say its version, in seconds.
pub const DOCKER_TIMEOUT: u64 = 5;

/// How long a test inside a container may take, in seconds.
pub const PROBE_TIMEOUT: u64 = 10;

/// What is said where the daemon does not say in time how it is.
pub const HEALTH_TIMEOUT_MESSAGE: &'static str = "health check timed out";

/// What is said where the daemon does not say in time how Docker is.
pub const PREFLIGHT_TIMEOUT_MESSAGE: &'static str = "preflight check timed out";

/// What is said where the daemon does not say in time how the container is.
pub const STATUS_TIMEOUT_MESSAGE: &'static str = "get_status timed out";

/// What a command line says that was given in `current_dir`.
pub open spec fn doctor_args(
    args: Seq<Seq<char>>,
    current_dir: Option<Seq<char>>,
) -> ParsedModel<CommonModel> {
    let rest = cli::without_common(args);
    if cli::asks_help(rest) {
        ParsedModel::Help
    } else {
        match cli::first_flag(rest) {
            Some(flag) => ParsedModel::Reject("error: unexpected argument: "@ + flag),
            None => ParsedModel::Run(cli::common_args(args, current_dir)),
        }
    }
}

/// Takes a command line apart that was given in `current_dir`.
pub fn parse_args(args: Vec<String>, current_dir: Option<String>) -> (r: Parsed<CommonArgs>)
    ensures
        r@ == doctor_args(text::texts(args@), text::text_option(current_dir)),
{
    let mut args = args;
    let common = cli::parse_common_args(&mut args, current_dir);
    if cli::wants_help(&args) {
        return Parsed::Help;
    }
    match cli::find_flag(&args) {
        Some(flag) => Parsed::Reject(
            "error: unexpected argument: ".to_owned().concat(flag.as_str()),
        ),
        None => Parsed::Run(common),
    }
}

/// What a run asks, or that it is done.
#[derive(Debug)]
pub enum DoctorStage {
    /// How is the daemon?
    Health,
    /// Can the daemon be reached for what follows?
    Reconnect,
    /// Where is the configuration?
    Config { connected: bool },
    /// What does the daemon say of Docker?
    Preflight,
    /// Does Docker itself answer?
    DirectDocker,
    /// What does the daemon say of the container?
    Status,
    /// What works in the container?
    Capabilities { container_id: String },
    Done,
}

/// The model of what a run asks.
pub enum StageModel {
    Health,
    Reconnect,
    Config { connected: bool },
    Preflight,
    DirectDocker,
    Status,
    Capabilities { container_id: Seq<char> },
    Done,
}

impl View for DoctorStage {
    type V = StageModel;

    open spec fn view(&self) -> StageModel {
        match *self {
            DoctorStage::Health => StageModel::Health,
            DoctorStage::Reconnect => StageModel::Reconnect,
            DoctorStage::Config { connected } => StageModel::Config { connected },
            DoctorStage::Preflight => StageModel::Preflight,
            DoctorStage::DirectDocker => StageModel::DirectDocker,
            DoctorStage::Status => StageModel::Status,
            DoctorStage::Capabilities { container_id } => StageModel::Capabilities {
                container_id: container_id@,
            },
            DoctorStage::Done => StageModel::Done,
        }
    }
}

/// What was answered.
pub enum DoctorEvent {
    /// The version of the daemon and whether it is well, or why it could not be asked.
    Health(Result<(String, bool), String>),
    /// Whether the daemon was reached again.
    Reconnected(bool),
    /// Which of the two places holds a configuration.
    Config { primary_exists: bool, fallback_exists: bool },
    /// What the daemon says of Docker, or why it could not be asked.
    Preflight(Result<PrefightData, String>),
    /// Whether Docker itself answered.
    DirectDocker(bool),
    /// What the daemon says of the container, or why it could not be asked.
    Status(Result<StatusData, String>),
    /// Whether the terminal, `rust-analyzer` and `pyright` work.
    Capabilities(bool, bool, bool),
}

/// A run of a diagnosis.
#[derive(Debug)]
pub struct DoctorRun {
    pub platform: Platform,
    pub workspace: String,
    pub json: bool,
    pub verbose: bool,
    pub use_color: bool,
    pub checks: Vec<CheckResult>,
    pub stage: DoctorStage,
}

/// The model of a run of a diagnosis.
pub struct RunModel {
    pub platform: Platform,
    pub workspace: Seq<char>,
    pub json: bool,
    pub verbose: bool,
    pub use_color: bool,
    pub checks: Seq<CheckModel>,
    pub stage: StageModel,
}

/// The models of a list of checks.
pub open spec fn check_models(checks: Seq<CheckResult>) -> Seq<CheckModel> {
    checks.map_values(|c: CheckResult| c@)
}

impl View for DoctorRun {
    type V = RunModel;

    open spec fn view(&self) -> RunModel {
        RunModel {
            platform: self.platform,
            workspace: self.workspace@,
            json: self.json,
            verbose: self.verbose,
            use_color: self.use_color,
            checks: check_models(self.checks@),
            stage: self.stage@,
        }
    }
}

/// The run with more checks, at another stage.
pub open spec fn checked(run: RunModel, checks: Seq<CheckModel>, stage: StageModel) -> RunModel {
    RunModel { checks: run.checks + checks, stage, ..run }
}

/// The run after the daemon was asked how the container is: where one runs, its capabilities are
/// tested next.
pub open spec fn after_status_model(
    run: RunModel,
    result: Result<StatusData, String>,
) -> RunModel {
    let status = devcontainer_doctor::status_check(Some(result));
    match devcontainer_doctor::running_container(Some(result)) {
        Some(container_id) => checked(run, seq![status], StageModel::Capabilities { container_id }),
        None => checked(
            run,
            seq![status, devcontainer_doctor::capabilities_check(None, None)],
            StageModel::Done,
        ),
    }
}

/// The run after an answer. Docker is asked itself where the daemon was not reached again, and
/// what only the daemon or a running container can tell is then skipped. What was not asked leaves
/// the run as it was.
pub open spec fn next(run: RunModel, event: DoctorEvent) -> RunModel {
    match (run.stage, event) {
        (StageModel::Health, DoctorEvent::Health(result)) => checked(
            run,
            seq![
                devcontainer_doctor::tala_check(result, ipc::tala_address_text(run.platform)),
            ],
            StageModel::Reconnect,
        ),
        (StageModel::Reconnect, DoctorEvent::Reconnected(connected)) => checked(
            run,
            seq![],
            StageModel::Config { connected },
        ),
        (
            StageModel::Config { connected },
            DoctorEvent::Config { primary_exists, fallback_exists },
        ) => checked(
            run,
            seq![
                devcontainer_doctor::config_check(
                    run.platform,
                    run.workspace,
                    ipc::detected_config(
                        run.platform,
                        run.workspace,
                        primary_exists,
                        fallback_exists,
                    ),
                ),
            ],
            if connected {
                StageModel::Preflight
            } else {
                StageModel::DirectDocker
            },
        ),
        (StageModel::Preflight, DoctorEvent::Preflight(result)) => checked(
            run,
            seq![devcontainer_doctor::docker_check(Some(result), None)],
            StageModel::Status,
        ),
        (StageModel::DirectDocker, DoctorEvent::DirectDocker(ok)) => checked(
            run,
            seq![
                devcontainer_doctor::docker_check(None, Some(ok)),
                devcontainer_doctor::status_check(None),
                devcontainer_doctor::capabilities_check(None, None),
            ],
            StageModel::Done,
        ),
        (StageModel::Status, DoctorEvent::Status(result)) => after_status_model(run, result),
        (
            StageModel::Capabilities { container_id },
            DoctorEvent::Capabilities(terminal_ok, rust_ok, python_ok),
        ) => checked(
            run,
            seq![
                devcontainer_doctor::capabilities_check(
                    Some(container_id),
                    Some((terminal_ok, rust_ok, python_ok)),
                ),
            ],
            StageModel::Done,
        ),
        _ => run,
    }
}

/// Whether the container that an answer names, if it names one, can be shown by the start of its
/// id.
pub open spec fn nameable(event: DoctorEvent) -> bool {
    event matches DoctorEvent::Status(result) ==> (devcontainer_doctor::running_container(
        Some(result),
    ) matches Some(id) ==> text::has_short_id(id))
}

/// The name of each check of a diagnosis.
pub open spec fn check_name(i: int) -> Seq<char> {
    if i == 0 {
        "Tala daemon"@
    } else if i == 1 {
        "DevContainer config"@
    } else if i == 2 {
        "Docker daemon"@
    } else if i == 3 {
        "Container status"@
    } else {
        "Capabilities"@
    }
}

/// How many checks were made when a run asks this.
pub open spec fn checks_before(stage: StageModel) -> nat {
    match stage {
        StageModel::Health => 0,
        StageModel::Reconnect => 1,
        StageModel::Config { .. } => 1,
        StageModel::Preflight => 2,
        StageModel::DirectDocker => 2,
        StageModel::Status => 3,
        StageModel::Capabilities { .. } => 4,
        StageModel::Done => 5,
    }
}

/// What holds of every run: it has the checks of the questions that were answered, each under its
/// name, and a container whose capabilities are asked for can be shown by the start of its id.
pub open spec fn consistent(run: RunModel) -> bool {
    &&& run.checks.len() == checks_before(run.stage)
    &&& forall|i: int| 0 <= i < run.checks.len() ==> (#[trigger] run.checks[i]).name == check_name(i)
    &&& run.stage matches StageModel::Capabilities { container_id } ==> text::has_short_id(
        container_id,
    )
}

/// What a finished run prints.
pub open spec fn report_text(
    workspace: Seq<char>,
    checks: Seq<CheckResult>,
    json: bool,
    verbose: bool,
    use_color: bool,
) -> Seq<char> {
    let verdict = devcontainer_doctor::verdict_of(checks);
    if json {
        json::pretty_text(devcontainer_doctor::report_json(workspace, checks, verdict)) + "\n"@
    } else {
        devcontainer_doctor::report_text(workspace, checks, verdict, verbose, use_color)
    }
}

/// The diagnosis of a command line on a workspace.
pub open spec fn first_run(
    platform: Platform,
    workspace: Seq<char>,
    args: CommonModel,
    is_terminal: bool,
) -> RunModel {
    RunModel {
        platform,
        workspace,
        json: args.json,
        verbose: args.verbose,
        use_color: !args.json && is_terminal,
        checks: seq![],
        stage: StageModel::Health,
    }
}

/// The exit code of a diagnosis with these checks.
pub open spec fn exit_code_of(checks: Seq<CheckResult>) -> i32 {
    devcontainer_doctor::doctor_exit_code(devcontainer_doctor::verdict_of(checks))
}

/// The diagnosis of a command line on a workspace.
pub fn begin(
    platform: Platform,
    workspace: String,
    args: &CommonArgs,
    is_terminal: bool,
) -> (r: DoctorRun)
    ensures
        r@ == (RunModel {
            platform,
            workspace: workspace@,
            json: args.json,
            verbose: args.verbose,
            use_color: !args.json && is_terminal,
            checks: seq![],
            stage: StageModel::Health,
        }),
        r@ == first_run(platform, workspace@, args@, is_terminal),
        consistent(r@),
{
    let r = DoctorRun {
        platform,
        workspace,
        json: args.json,
        verbose: args.verbose,
        use_color: !args.json && is_terminal,
        checks: Vec::new(),
        stage: DoctorStage::Health,
    };
    assert(r@.checks =~= seq![]);
    r
}

impl DoctorRun {
    /// Adds a check.
    fn with_check(self, check: CheckResult, stage: DoctorStage) -> (r: Self)
        ensures
            r@ == checked(self@, seq![check@], stage@),
    {
        let mut checks = self.checks;
        let ghost before = check_models(checks@);
        checks.push(check);
        assert(check_models(checks@) =~= before + seq![check@]);
        DoctorRun { checks, stage, ..self }
    }

    /// Adds the check of the capabilities where no container runs, and ends.
    fn without_container(self) -> (r: Self)
        ensures
            r@ == checked(
                self@,
                seq![devcontainer_doctor::capabilities_check(None, None)],
                StageModel::Done,
            ),
    {
        self.with_check(
            devcontainer_doctor::interpret_capabilities(None, None),
            DoctorStage::Done,
        )
    }

    /// The run after the daemon was asked how it is.
    fn after_health(self, result: Result<(String, bool), String>) -> (r: Self)
        ensures
            r@ == checked(
                self@,
                seq![
                    devcontainer_doctor::tala_check(
                        result,
                        ipc::tala_address_text(self@.platform),
                    ),
                ],
                StageModel::Reconnect,
            ),
    {
        let check = devcontainer_doctor::interpret_tala_health(
            result,
            ipc::tala_address(self.platform),
        );
        self.with_check(check, DoctorStage::Reconnect)
    }

    /// The run after the daemon was reached again, or not.
    fn after_reconnect(self, connected: bool) -> (r: Self)
        ensures
            r@ == checked(self@, seq![], StageModel::Config { connected }),
    {
        assert(self@.checks =~= self@.checks + seq![]);
        DoctorRun { stage: DoctorStage::Config { connected }, ..self }
    }

    /// The run after the configuration was looked for.
    fn after_config(self, connected: bool, primary_exists: bool, fallback_exists: bool) -> (r: Self)
        ensures
            r@ == checked(
                self@,
                seq![
                    devcontainer_doctor::config_check(
                        self@.platform,
                        self@.workspace,
                        ipc::detected_config(
                            self@.platform,
                            self@.workspace,
                            primary_exists,
                            fallback_exists,
                        ),
                    ),
                ],
                if connected {
                    StageModel::Preflight
                } else {
                    StageModel::DirectDocker
                },
            ),
    {
        let config = ipc::detect_devcontainer_config(
            self.platform,
            self.workspace.as_str(),
            primary_exists,
            fallback_exists,
        );
        let check = devcontainer_doctor::interpret_devcontainer_config(
            self.platform,
            self.workspace.as_str(),
            config,
        );
        let stage = if connected {
            DoctorStage::Preflight
        } else {
            DoctorStage::DirectDocker
        };
        self.with_check(check, stage)
    }

    /// The run after the daemon was asked how Docker is.
    fn after_preflight(self, result: Result<PrefightData, String>) -> (r: Self)
        ensures
            r@ == checked(
                self@,
                seq![devcontainer_doctor::docker_check(Some(result), None)],
                StageModel::Status,
            ),
    {
        let check = devcontainer_doctor::interpret_docker_preflight(Some(result), None);
        self.with_check(check, DoctorStage::Status)
    }

    /// The run after Docker itself was asked.
    fn after_direct_docker(self, ok: bool) -> (r: Self)
        ensures
            r@ == checked(
                self@,
                seq![
                    devcontainer_doctor::docker_check(None, Some(ok)),
                    devcontainer_doctor::status_check(None),
                    devcontainer_doctor::capabilities_check(None, None),
                ],
                StageModel::Done,
            ),
    {
        let docker = devcontainer_doctor::interpret_docker_preflight(None, Some(ok));
        let (status, _) = devcontainer_doctor::interpret_workspace_status(None);
        let ghost before = self@.checks;
        let r = self.with_check(docker, DoctorStage::Status).with_check(
            status,
            DoctorStage::Status,
        ).without_container();
        assert(r@.checks =~= before + seq![
            docker@,
            status@,
            devcontainer_doctor::capabilities_check(None, None),
        ]);
        r
    }

    /// The run after the daemon was asked how the container is.
    fn after_status(self, result: Result<StatusData, String>) -> (r: Self)
        requires
            devcontainer_doctor::running_container(Some(result)) matches Some(id)
                ==> text::has_short_id(id),
        ensures
            r@ == after_status_model(self@, result),
    {
        let ghost before = self@.checks;
        let (check, container) = devcontainer_doctor::interpret_workspace_status(Some(result));
        match container {
            Some(container_id) => self.with_check(
                check,
                DoctorStage::Capabilities { container_id },
            ),
            None => {
                let r = self.with_check(check, DoctorStage::Status).without_container();
                assert(r@.checks =~= before + seq![
                    check@,
                    devcontainer_doctor::capabilities_check(None, None),
                ]);
                r
            },
        }
    }

    /// The run after the capabilities of the container were tested.
    fn after_capabilities(
        self,
        container_id: &str,
        capabilities: (bool, bool, bool),
    ) -> (r: Self)
        requires
            text::has_short_id(container_id@),
        ensures
            r@ == checked(
                self@,
                seq![
                    devcontainer_doctor::capabilities_check(
                        Some(container_id@),
                        Some(capabilities),
                    ),
                ],
                StageModel::Done,
            ),
    {
        let check = devcontainer_doctor::interpret_capabilities(
            Some(container_id),
            Some(capabilities),
        );
        self.with_check(check, DoctorStage::Done)
    }

    /// Takes the answer to what the run asked.
    pub fn step(self, event: DoctorEvent) -> (r: Self)
        requires
            consistent(self@),
            self@.stage is Status ==> nameable(event),
        ensures
            r@ == next(self@, event),
            consistent(r@),
    {
        proof {
            law_runs_are_consistent(self@, event);
        }
        let container = match &self.stage {
            DoctorStage::Capabilities { container_id } => container_id.clone(),
            _ => String::new(),
        };
        match (&self.stage, event) {
            (DoctorStage::Health, DoctorEvent::Health(result)) => self.after_health(result),
            (DoctorStage::Reconnect, DoctorEvent::Reconnected(connected)) => self.after_reconnect(
                connected,
            ),
            (
                DoctorStage::Config { connected },
                DoctorEvent::Config { primary_exists, fallback_exists },
            ) => {
                let connected = *connected;
                self.after_config(connected, primary_exists, fallback_exists)
            },
            (DoctorStage::Preflight, DoctorEvent::Preflight(result)) => self.after_preflight(
                result,
            ),
            (DoctorStage::DirectDocker, DoctorEvent::DirectDocker(ok)) => self.after_direct_docker(
                ok,
            ),
            (DoctorStage::Status, DoctorEvent::Status(result)) => self.after_status(result),
            (
                DoctorStage::Capabilities { .. },
                DoctorEvent::Capabilities(terminal_ok, rust_ok, python_ok),
            ) => self.after_capabilities(container.as_str(), (terminal_ok, rust_ok, python_ok)),
            _ => self,
        }
    }

    /// The overall state that the checks give.
    pub fn verdict(&self) -> (r: Verdict)
        ensures
            r == devcontainer_doctor::verdict_of(self.checks@),
    {
        devcontainer_doctor::compute_verdict(self.checks.as_slice())
    }

    /// The exit code of the run.
    pub fn exit_code(&self) -> (r: i32)
        ensures
            r == devcontainer_doctor::doctor_exit_code(
                devcontainer_doctor::verdict_of(self.checks@),
            ),
            r == exit_code_of(self.checks@),
    {
        devcontainer_doctor::exit_code(self.verdict())
    }

    /// What the run prints, line ends included.
    pub fn report(&self) -> (r: String)
        ensures
            r@ == report_text(
                self.workspace@,
                self.checks@,
                self.json,
                self.verbose,
                self.use_color,
            ),
    {
        let checks = self.checks.as_slice();
        let verdict = self.verdict();
        if self.json {
            devcontainer_doctor::format_json_report(
                self.workspace.as_str(),
                checks,
                verdict,
            ).concat("\n")
        } else {
            devcontainer_doctor::format_text_report(
                self.workspace.as_str(),
                checks,
                verdict,
                self.verbose,
                self.use_color,
            )
        }
    }
}

/// An answer adds checks behind those that were made, and never takes one back.
pub proof fn law_checks_are_never_taken_back(run: RunModel, event: DoctorEvent)
    ensures
        run.checks.is_prefix_of(next(run, event).checks),
{
    let after = next(run, event).checks;
    assert(after.take(run.checks.len() as int) =~= run.checks);
}

/// Every run stays consistent, whatever is answered. So every diagnosis that ends has the same five
/// checks: of the daemon, the configuration, Docker, the container and its capabilities, in this
/// order.
#[verifier::rlimit(50)]
pub proof fn law_runs_are_consistent(run: RunModel, event: DoctorEvent)
    requires
        consistent(run),
        run.stage is Status ==> nameable(event),
    ensures
        consistent(next(run, event)),
{
    let after = next(run, event).checks;
    assert forall|i: int| 0 <= i < after.len() implies (#[trigger] after[i]).name
        == check_name(i) by {
        if i < run.checks.len() {
            assert(after[i] == run.checks[i]);
        }
    }
}

/// Each answer that a run waits for adds what it says to the checks, and decides what is asked next:
/// after the health of the daemon whether it is reached again, then the configuration, then Docker,
/// through the daemon where it was reached and directly where not, then the container, and then,
/// where one runs, its capabilities.
#[verifier::rlimit(50)]
pub proof fn law_answers_are_checked_in_turn(
    run: RunModel,
    health: Result<(String, bool), String>,
    reached: bool,
    preflight: Result<PrefightData, String>,
    status: Result<StatusData, String>,
)
    ensures
        run.stage is Health ==> {
            let after = next(run, DoctorEvent::Health(health));
            &&& after.stage is Reconnect
            &&& after.checks.len() == run.checks.len() + 1
            &&& after.checks.last().name == "Tala daemon"@
            &&& after.checks.last().status == CheckStatus::Okay <==> (health matches Ok((_, healthy))
                && healthy)
            &&& after.checks.last() == devcontainer_doctor::tala_check(
                health,
                if run.platform == Platform::Unix {
                    "/tmp/tala.sock"@
                } else {
                    "\\\\.\\pipe\\tala"@
                },
            )
        },
        run.stage is Reconnect ==> next(run, DoctorEvent::Reconnected(reached)) == (RunModel {
            stage: StageModel::Config { connected: reached },
            ..run
        }),
        run.stage is Preflight ==> {
            let after = next(run, DoctorEvent::Preflight(preflight));
            &&& after.stage is Status
            &&& after.checks == run.checks.push(
                devcontainer_doctor::docker_check(Some(preflight), None),
            )
        },
        run.stage is Status ==> {
            let after = next(run, DoctorEvent::Status(status));
            let running = status matches Ok(data) && data.running;
            &&& after.checks[run.checks.len() as int] == devcontainer_doctor::status_check(
                Some(status),
            )
            &&& running ==> after.stage == (StageModel::Capabilities {
                container_id: status->Ok_0.container_id@,
            }) && after.checks.len() == run.checks.len() + 1
            &&& !running ==> after.stage is Done && after.checks.len() == run.checks.len() + 2
                && after.checks.last().status == CheckStatus::Skip && after.checks.last().name
                == "Capabilities"@
        },
{
    let after = next(run, DoctorEvent::Health(health));
    devcontainer_doctor::law_daemon_passes_where_it_is_well(
        health,
        ipc::tala_address_text(run.platform),
    );
    if run.stage is Reconnect {
        assert(next(run, DoctorEvent::Reconnected(reached)).checks =~= run.checks);
    }
    if run.stage is Preflight {
        assert(next(run, DoctorEvent::Preflight(preflight)).checks =~= run.checks.push(
            devcontainer_doctor::docker_check(Some(preflight), None),
        ));
    }
    devcontainer_doctor::law_container_passes_where_it_runs(Some(status));
}

/// The configuration is looked for in the workspace: the first place counts before the second. Docker
/// is asked next, through the daemon exactly where that was reached.
pub proof fn law_configuration_is_checked(
    run: RunModel,
    primary_exists: bool,
    fallback_exists: bool,
    ok: bool,
)
    ensures
        run.stage matches StageModel::Config { connected } ==> {
            let after = next(run, DoctorEvent::Config { primary_exists, fallback_exists });
            let config = if primary_exists {
                Some(path::joined(run.platform, run.workspace, ".devcontainer/devcontainer.json"@))
            } else if fallback_exists {
                Some(path::joined(run.platform, run.workspace, ".devcontainer.json"@))
            } else {
                None
            };
            &&& after.checks == run.checks.push(
                devcontainer_doctor::config_check(run.platform, run.workspace, config),
            )
            &&& after.stage is Preflight <==> connected
            &&& after.stage is DirectDocker <==> !connected
        },
        run.stage is DirectDocker ==> {
            let after = next(run, DoctorEvent::DirectDocker(ok));
            let n = run.checks.len() as int;
            &&& after.stage is Done
            &&& after.checks.len() == n + 3
            &&& after.checks[n] == devcontainer_doctor::docker_check(None, Some(ok))
            &&& after.checks[n + 1].status == CheckStatus::Skip && after.checks[n + 1].name
                == "Container status"@
            &&& after.checks[n + 2].status == CheckStatus::Skip && after.checks[n + 2].name
                == "Capabilities"@
        },
{
    if run.stage is Config {
        let after = next(run, DoctorEvent::Config { primary_exists, fallback_exists });
        assert(after.checks =~= run.checks.push(after.checks.last()));
    }
}

/// The capabilities of the container that runs are checked as they were found, and the run is done.
pub proof fn law_capabilities_are_checked(
    run: RunModel,
    terminal_ok: bool,
    rust_ok: bool,
    python_ok: bool,
)
    requires
        run.stage is Capabilities,
    ensures
        ({
            let after = next(run, DoctorEvent::Capabilities(terminal_ok, rust_ok, python_ok));
            let check = after.checks.last();
            &&& after.stage is Done
            &&& after.checks == run.checks.push(check)
            &&& check == devcontainer_doctor::capabilities_check(
                Some(run.stage->Capabilities_container_id),
                Some((terminal_ok, rust_ok, python_ok)),
            )
            &&& check.status == CheckStatus::Okay <==> terminal_ok && rust_ok && python_ok
        }),
{
    let after = next(run, DoctorEvent::Capabilities(terminal_ok, rust_ok, python_ok));
    assert(after.checks =~= run.checks.push(after.checks.last()));
    devcontainer_doctor::law_capabilities_pass_where_all_work(
        run.stage->Capabilities_container_id,
        terminal_ok,
        rust_ok,
        python_ok,
    );
}

/// A run prints its document in JSON mode and its report else, with the verdict on all its checks;
/// nothing of how it is run changes on the way.
pub proof fn law_diagnosis_is_printed(
    workspace: Seq<char>,
    checks: Seq<CheckResult>,
    verbose: bool,
    use_color: bool,
    run: RunModel,
    event: DoctorEvent,
)
    ensures
        report_text(workspace, checks, true, verbose, use_color) == json::pretty_text(
            devcontainer_doctor::report_json(
                workspace,
                checks,
                devcontainer_doctor::verdict_of(checks),
            ),
        ) + "\n"@,
        report_text(workspace, checks, false, verbose, use_color)
            == devcontainer_doctor::report_text(
            workspace,
            checks,
            devcontainer_doctor::verdict_of(checks),
            verbose,
            use_color,
        ),
        next(run, event).workspace == run.workspace,
        next(run, event).json == run.json,
        next(run, event).verbose == run.verbose,
        next(run, event).use_color == run.use_color,
        next(run, event).platform == run.platform,
        run.stage is Done ==> next(run, event) == run,
{
}

/// A command line asks for help where that is left when the shared arguments are taken out; a flag
/// that is left is refused, by its name, and all else is run.
pub proof fn law_command_line_is_run(args: Seq<Seq<char>>, current_dir: Option<Seq<char>>)
    ensures
        ({
            let rest = cli::without_common(args);
            let help = rest.contains("--help"@) || rest.contains("-h"@);
            &&& doctor_args(args, current_dir) is Help <==> help
            &&& doctor_args(args, current_dir) is Reject <==> !help && cli::first_flag(rest) is Some
            &&& doctor_args(args, current_dir) matches ParsedModel::Reject(message) ==> message
                == "error: unexpected argument: "@ + cli::first_flag(rest)->Some_0
            &&& doctor_args(args, current_dir) matches ParsedModel::Run(run) ==> run
                == cli::common_args(args, current_dir)
        }),
{
}

/// A diagnosis begins with the health of the daemon and without checks, on the workspace and as the
/// command line says; colours are for terminals, and never in JSON mode. Its exit code is one exactly
/// where some check is an error, and zero else.
pub proof fn law_runs_begin_and_end(
    platform: Platform,
    workspace: Seq<char>,
    args: CommonModel,
    is_terminal: bool,
    checks: Seq<CheckResult>,
)
    ensures
        ({
            let run = first_run(platform, workspace, args, is_terminal);
            &&& run.stage is Health && run.checks.len() == 0
            &&& run.workspace == workspace && run.platform == platform
            &&& run.json == args.json && run.verbose == args.verbose
            &&& run.use_color <==> is_terminal && !args.json
        }),
        exit_code_of(checks) == 1 <==> exists|i: int|
            0 <= i < checks.len() && (#[trigger] checks[i]).status == CheckStatus::Error,
        exit_code_of(checks) == 0 || exit_code_of(checks) == 1,
{
    devcontainer_doctor::law_verdict_is_the_worst_check(checks);
}

/// What a run did not ask leaves it as it was.
pub proof fn law_unasked_answers_change_nothing(run: RunModel, event: DoctorEvent)
    requires
        match run.stage {
            StageModel::Health => !(event is Health),
            StageModel::Reconnect => !(event is Reconnected),
            StageModel::Config { .. } => !(event is Config),
            StageModel::Preflight => !(event is Preflight),
            StageModel::DirectDocker => !(event is DirectDocker),
            StageModel::Status => !(event is Status),
            StageModel::Capabilities { .. } => !(event is Capabilities),
            StageModel::Done => true,
        },
    ensures
        next(run, event) == run,
{
}

} // verus!
