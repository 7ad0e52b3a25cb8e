//! The two errands of the panel: finding the daemon when it is opened, and following a build.
//!
//! An errand is a machine. It says what to do next, is told what came of it, and changes the panel.

use crate::build_progress;
use crate::build_progress::{BuildProgress, BuildStep, BuildStepModel};
use crate::container_lsp;
use crate::container_lsp::{AdapterModel, ContainerLspAdapter, ContainerServer, ServerModel};
use crate::devcontainer_doctor::PrefightData;
use crate::devcontainer_hud;
use crate::panel;
use crate::panel::{BuildRequest, DaemonAnswer, PanelModel, RequestModel, SalaHud};
use crate::path;
use crate::text;
use std::time::Instant;
use vstd::prelude::*;

verus! {

/// What the panel does when it is opened.
#[derive(Debug)]
pub enum OpeningStage {
    /// Look for a configuration in the workspace.
    FindConfig,
    /// Connect to the daemon.
    Connect { config: Option<String> },
    /// Ask the daemon how it is.
    Health { config: Option<String> },
    /// Ask the daemon how Docker is.
    Preflight { config: Option<String>, version: String },
    Done,
}

/// The model of what the panel does when it is opened.
pub enum OpeningModel {
    FindConfig,
    Connect { config: Option<Seq<char>> },
    Health { config: Option<Seq<char>> },
    Preflight { config: Option<Seq<char>>, version: Seq<char> },
    Done,
}

impl View for OpeningStage {
    type V = OpeningModel;

    open spec fn view(&self) -> OpeningModel {
        match *self {
            OpeningStage::FindConfig => OpeningModel::FindConfig,
            OpeningStage::Connect { config } => OpeningModel::Connect {
                config: text::text_option(config),
            },
            OpeningStage::Health { config } => OpeningModel::Health {
                config: text::text_option(config),
            },
            OpeningStage::Preflight { config, version } => OpeningModel::Preflight {
                config: text::text_option(config),
                version: version@,
            },
            OpeningStage::Done => OpeningModel::Done,
        }
    }
}

/// What came of what the panel does when it is opened.
pub enum OpeningEvent {
    /// The configuration that was found.
    Config(Option<String>),
    /// The daemon was reached, or why not.
    Connected(Result<(), String>),
    /// The version of the daemon and whether it is well, or why it did not answer.
    Health(Result<(String, bool), String>),
    /// What the daemon says of Docker, where it answered.
    Preflight(Option<PrefightData>),
}

/// The panel, and what it does next.
pub struct Opening {
    pub panel: PanelModel,
    pub stage: OpeningModel,
}

/// The daemon has said what it has to say.
pub open spec fn opened(
    panel: PanelModel,
    answer: DaemonAnswer,
    config: Option<Seq<char>>,
    preflight: Option<PrefightData>,
    at: Instant,
) -> Opening {
    Opening {
        panel: panel.daemon_answered(answer, config, preflight, at),
        stage: OpeningModel::Done,
    }
}

/// The daemon is well, with this version, and says this of Docker.
pub open spec fn opened_well(
    panel: PanelModel,
    version: Seq<char>,
    config: Option<Seq<char>>,
    preflight: Option<PrefightData>,
) -> Opening {
    Opening {
        panel: PanelModel {
            connection: panel::ConnectionModel::Connected(version),
            preflight_passed: panel::docker_usable(preflight),
            has_client: true,
            ..panel.with_config(config)
        },
        stage: OpeningModel::Done,
    }
}

/// The panel after something came, and what it does next. The daemon is asked how Docker is only
/// where it is well and the workspace has a configuration. What was not asked changes nothing.
pub open spec fn opening_next(
    panel: PanelModel,
    stage: OpeningModel,
    event: OpeningEvent,
    at: Instant,
) -> Opening {
    match (stage, event) {
        (OpeningModel::FindConfig, OpeningEvent::Config(config)) => Opening {
            panel,
            stage: OpeningModel::Connect { config: text::text_option(config) },
        },
        (OpeningModel::Connect { config }, OpeningEvent::Connected(Ok(_))) => Opening {
            panel: panel.daemon_reached(at),
            stage: OpeningModel::Health { config },
        },
        (OpeningModel::Connect { config }, OpeningEvent::Connected(Err(error))) => opened(
            panel,
            DaemonAnswer::Unreachable(error),
            config,
            None,
            at,
        ),
        (OpeningModel::Health { config }, OpeningEvent::Health(Ok((version, healthy)))) => if healthy
            && panel.workspace is Some && config is Some {
            Opening { panel, stage: OpeningModel::Preflight { config, version: version@ } }
        } else {
            opened(panel, DaemonAnswer::Health { version, healthy }, config, None, at)
        },
        (OpeningModel::Health { config }, OpeningEvent::Health(Err(error))) => opened(
            panel,
            DaemonAnswer::Silent(error),
            config,
            None,
            at,
        ),
        (OpeningModel::Preflight { config, version }, OpeningEvent::Preflight(preflight)) => {
            opened_well(panel, version, config, preflight)
        },
        (stage, _) => Opening { panel, stage },
    }
}

/// Takes what came of what the panel does when it is opened; gives what it does next.
pub fn opening_step(
    panel: &mut SalaHud,
    stage: OpeningStage,
    event: OpeningEvent,
    at: Instant,
) -> (r: OpeningStage)
    ensures
        final(panel)@ == opening_next(old(panel)@, stage@, event, at).panel,
        r@ == opening_next(old(panel)@, stage@, event, at).stage,
{
    match (stage, event) {
        (OpeningStage::FindConfig, OpeningEvent::Config(config)) => OpeningStage::Connect {
            config,
        },
        (OpeningStage::Connect { config }, OpeningEvent::Connected(Ok(_))) => {
            panel.on_daemon_reached(at);
            OpeningStage::Health { config }
        },
        (OpeningStage::Connect { config }, OpeningEvent::Connected(Err(error))) => {
            panel.on_daemon_answer(DaemonAnswer::Unreachable(error), config, None, at);
            OpeningStage::Done
        },
        (OpeningStage::Health { config }, OpeningEvent::Health(Ok((version, healthy)))) => {
            if healthy && panel.wants_preflight(&config) {
                OpeningStage::Preflight { config, version }
            } else {
                panel.on_daemon_answer(
                    DaemonAnswer::Health { version, healthy },
                    config,
                    None,
                    at,
                );
                OpeningStage::Done
            }
        },
        (OpeningStage::Health { config }, OpeningEvent::Health(Err(error))) => {
            panel.on_daemon_answer(DaemonAnswer::Silent(error), config, None, at);
            OpeningStage::Done
        },
        (OpeningStage::Preflight { config, version }, OpeningEvent::Preflight(preflight)) => {
            panel.on_daemon_answer(
                DaemonAnswer::Health { version, healthy: true },
                config,
                preflight,
                at,
            );
            OpeningStage::Done
        },
        (stage, _) => stage,
    }
}

/// What the panel does to follow a build.
#[derive(Debug)]
pub enum FollowStage {
    /// Ask the daemon for the build.
    Open,
    /// Wait for the next report.
    Report,
    /// Open a terminal in the container.
    OpenTerminal { container_id: String },
    /// Register the language servers of the container.
    RegisterServers { container_id: String },
    /// Look for `rust-analyzer` in the container.
    FindRust { container_id: String },
    /// Look for `pyright` in the container.
    FindPython { container_id: String },
    /// Test the terminal of the container.
    TestTerminal { container_id: String },
    Done,
}

/// The model of what the panel does to follow a build.
pub enum FollowModel {
    Open,
    Report,
    OpenTerminal { container_id: Seq<char> },
    RegisterServers { container_id: Seq<char> },
    FindRust { container_id: Seq<char> },
    FindPython { container_id: Seq<char> },
    TestTerminal { container_id: Seq<char> },
    Done,
}

impl View for FollowStage {
    type V = FollowModel;

    open spec fn view(&self) -> FollowModel {
        match *self {
            FollowStage::Open => FollowModel::Open,
            FollowStage::Report => FollowModel::Report,
            FollowStage::OpenTerminal { container_id } => FollowModel::OpenTerminal {
                container_id: container_id@,
            },
            FollowStage::RegisterServers { container_id } => FollowModel::RegisterServers {
                container_id: container_id@,
            },
            FollowStage::FindRust { container_id } => FollowModel::FindRust {
                container_id: container_id@,
            },
            FollowStage::FindPython { container_id } => FollowModel::FindPython {
                container_id: container_id@,
            },
            FollowStage::TestTerminal { container_id } => FollowModel::TestTerminal {
                container_id: container_id@,
            },
            FollowStage::Done => FollowModel::Done,
        }
    }
}

/// What came of what the panel does to follow a build.
#[derive(Debug)]
pub enum FollowEvent {
    /// The daemon builds.
    Opened,
    /// The daemon does not build, or the stream of reports broke.
    Broken(String),
    /// The daemon reports.
    Report(BuildProgress),
    /// The stream of reports ended.
    Ended,
    /// A terminal was opened, or could not be.
    TerminalTried,
    /// The editor is there to register language servers with.
    EditorAsked,
    /// What was looked for or tested is there and works.
    Found(bool),
}

/// What the editor is to do with its language servers.
#[derive(Debug)]
pub enum ServerChange {
    Keep,
    Register(ContainerLspAdapter, ContainerLspAdapter),
    TakeBack(ContainerServer, ContainerServer),
}

/// The model of what the editor is to do with its language servers.
pub enum ChangeModel {
    Keep,
    Register(AdapterModel, AdapterModel),
    TakeBack(ServerModel, ServerModel),
}

impl View for ServerChange {
    type V = ChangeModel;

    open spec fn view(&self) -> ChangeModel {
        match *self {
            ServerChange::Keep => ChangeModel::Keep,
            ServerChange::Register(rust, python) => ChangeModel::Register(rust@, python@),
            ServerChange::TakeBack(rust, python) => ChangeModel::TakeBack(rust@, python@),
        }
    }
}

/// The panel, what it does next, and what the editor is to do.
pub struct Follow {
    pub panel: PanelModel,
    pub stage: FollowModel,
    pub servers: ChangeModel,
}

/// The panel goes on, and the editor keeps its language servers.
pub open spec fn follows(panel: PanelModel, stage: FollowModel) -> Follow {
    Follow { panel, stage, servers: ChangeModel::Keep }
}

/// The build broke: the language servers of the container are taken back where they can be.
pub open spec fn broke(
    panel: PanelModel,
    request: RequestModel,
    error: Seq<char>,
    editor_open: bool,
    at: Instant,
) -> Follow {
    Follow {
        panel: panel.build_broken(request.workspace, error, editor_open, at),
        stage: FollowModel::Done,
        servers: match panel.servers_to_take_back(editor_open) {
            Some((rust, python)) => ChangeModel::TakeBack(rust, python),
            None => ChangeModel::Keep,
        },
    }
}

/// The language servers of a container are registered, where none is and the editor is there.
pub open spec fn registered(
    panel: PanelModel,
    request: RequestModel,
    container_id: Seq<char>,
    editor_open: bool,
) -> Follow {
    Follow {
        panel: panel.lsp_added(editor_open),
        stage: FollowModel::FindRust { container_id },
        servers: match panel.servers_to_register(
            container_id,
            request.project_name,
            editor_open,
        ) {
            Some((rust, python)) => ChangeModel::Register(rust, python),
            None => ChangeModel::Keep,
        },
    }
}

/// The panel after something came, and what it does next. A container that is ready gets a terminal
/// and its language servers, and is then tested. What was not asked changes nothing.
pub open spec fn follow_next(
    panel: PanelModel,
    request: RequestModel,
    stage: FollowModel,
    event: FollowEvent,
    editor_open: bool,
    at: Instant,
) -> Follow {
    let workspace = request.workspace;
    match (stage, event) {
        (FollowModel::Open, FollowEvent::Opened) => follows(panel, FollowModel::Report),
        (FollowModel::Open, FollowEvent::Broken(error)) => broke(
            panel,
            request,
            error@,
            editor_open,
            at,
        ),
        (FollowModel::Report, FollowEvent::Broken(error)) => broke(
            panel,
            request,
            error@,
            editor_open,
            at,
        ),
        (FollowModel::Report, FollowEvent::Report(report)) => follows(
            panel.build_reported(workspace, report, at),
            match build_progress::report_step(report) {
                BuildStepModel::Ready(container_id) => FollowModel::OpenTerminal { container_id },
                BuildStepModel::Fail(_) => FollowModel::Done,
                BuildStepModel::Wait => FollowModel::Report,
            },
        ),
        (FollowModel::Report, FollowEvent::Ended) => follows(panel, FollowModel::Done),
        (FollowModel::OpenTerminal { container_id }, FollowEvent::TerminalTried) => follows(
            panel,
            FollowModel::RegisterServers { container_id },
        ),
        (FollowModel::RegisterServers { container_id }, FollowEvent::EditorAsked) => registered(
            panel,
            request,
            container_id,
            editor_open,
        ),
        (FollowModel::FindRust { container_id }, FollowEvent::Found(available)) => follows(
            PanelModel {
                lsp_available: Some(available),
                hud: panel.hud.lsp_rust_result(workspace, available),
                ..panel
            },
            FollowModel::FindPython { container_id },
        ),
        (FollowModel::FindPython { container_id }, FollowEvent::Found(available)) => follows(
            PanelModel { hud: panel.hud.lsp_python_result(workspace, available), ..panel },
            FollowModel::TestTerminal { container_id },
        ),
        (FollowModel::TestTerminal { container_id }, FollowEvent::Found(ok)) => follows(
            PanelModel { hud: panel.hud.terminal_result(workspace, ok), ..panel },
            FollowModel::Done,
        ),
        (stage, _) => follows(panel, stage),
    }
}

/// The build broke.
fn break_build(
    panel: &mut SalaHud,
    request: &BuildRequest,
    error: String,
    editor_open: bool,
    at: Instant,
) -> (r: (FollowStage, ServerChange))
    ensures
        final(panel)@ == broke(old(panel)@, request@, error@, editor_open, at).panel,
        r.0@ == broke(old(panel)@, request@, error@, editor_open, at).stage,
        r.1@ == broke(old(panel)@, request@, error@, editor_open, at).servers,
{
    let change = match panel.on_build_broken(request.workspace.as_str(), error, editor_open, at) {
        Some((rust, python)) => ServerChange::TakeBack(rust, python),
        None => ServerChange::Keep,
    };
    (FollowStage::Done, change)
}

/// The daemon reports of the build.
fn take_report(
    panel: &mut SalaHud,
    request: &BuildRequest,
    report: &BuildProgress,
    at: Instant,
) -> (r: FollowStage)
    ensures
        final(panel)@ == old(panel)@.build_reported(request@.workspace, *report, at),
        r@ == match build_progress::report_step(*report) {
            BuildStepModel::Ready(container_id) => FollowModel::OpenTerminal { container_id },
            BuildStepModel::Fail(_) => FollowModel::Done,
            BuildStepModel::Wait => FollowModel::Report,
        },
{
    match panel.on_build_report(request.workspace.as_str(), report, at) {
        BuildStep::Ready(container_id) => FollowStage::OpenTerminal { container_id },
        BuildStep::Fail(_) => FollowStage::Done,
        BuildStep::Wait => FollowStage::Report,
    }
}

/// The language servers of a container are registered.
fn register(
    panel: &mut SalaHud,
    request: &BuildRequest,
    container_id: String,
    editor_open: bool,
) -> (r: (FollowStage, ServerChange))
    ensures
        final(panel)@ == registered(old(panel)@, request@, container_id@, editor_open).panel,
        r.0@ == registered(old(panel)@, request@, container_id@, editor_open).stage,
        r.1@ == registered(old(panel)@, request@, container_id@, editor_open).servers,
{
    let change = match panel.register_container_lsp(
        container_id.as_str(),
        request.project_name.as_str(),
        editor_open,
    ) {
        Some((rust, python)) => ServerChange::Register(rust, python),
        None => ServerChange::Keep,
    };
    (FollowStage::FindRust { container_id }, change)
}

/// Takes what came of what the panel does to follow a build; gives what it does next, and what the
/// editor is to do with its language servers.
pub fn follow_step(
    panel: &mut SalaHud,
    request: &BuildRequest,
    stage: FollowStage,
    event: FollowEvent,
    editor_open: bool,
    at: Instant,
) -> (r: (FollowStage, ServerChange))
    ensures
        final(panel)@ == follow_next(
            old(panel)@,
            request@,
            stage@,
            event,
            editor_open,
            at,
        ).panel,
        r.0@ == follow_next(old(panel)@, request@, stage@, event, editor_open, at).stage,
        r.1@ == follow_next(old(panel)@, request@, stage@, event, editor_open, at).servers,
{
    let next = match (stage, event) {
        (FollowStage::Open, FollowEvent::Opened) => FollowStage::Report,
        (FollowStage::Open, FollowEvent::Broken(error)) => {
            return break_build(panel, request, error, editor_open, at);
        },
        (FollowStage::Report, FollowEvent::Broken(error)) => {
            return break_build(panel, request, error, editor_open, at);
        },
        (FollowStage::Report, FollowEvent::Report(report)) => take_report(
            panel,
            request,
            &report,
            at,
        ),
        (FollowStage::Report, FollowEvent::Ended) => FollowStage::Done,
        (FollowStage::OpenTerminal { container_id }, FollowEvent::TerminalTried) => {
            FollowStage::RegisterServers { container_id }
        },
        (FollowStage::RegisterServers { container_id }, FollowEvent::EditorAsked) => {
            return register(panel, request, container_id, editor_open);
        },
        (FollowStage::FindRust { container_id }, FollowEvent::Found(available)) => {
            panel.on_rust_checked(request.workspace.as_str(), available);
            FollowStage::FindPython { container_id }
        },
        (FollowStage::FindPython { container_id }, FollowEvent::Found(available)) => {
            panel.on_python_checked(request.workspace.as_str(), available);
            FollowStage::TestTerminal { container_id }
        },
        (FollowStage::TestTerminal { .. }, FollowEvent::Found(ok)) => {
            panel.on_terminal_checked(request.workspace.as_str(), ok);
            FollowStage::Done
        },
        (stage, _) => stage,
    };
    (next, ServerChange::Keep)
}

/// The editor is told to register language servers only where none is registered, and to take them
/// back only where they are; either way the panel then knows.
pub proof fn law_servers_are_registered_once(
    panel: PanelModel,
    request: RequestModel,
    stage: FollowModel,
    event: FollowEvent,
    editor_open: bool,
    at: Instant,
)
    ensures
        ({
            let after = follow_next(panel, request, stage, event, editor_open, at);
            match after.servers {
                ChangeModel::Register(_, _) => !panel.lsp_registered && after.panel.lsp_registered,
                ChangeModel::TakeBack(_, _) => panel.lsp_registered && !after.panel.lsp_registered,
                ChangeModel::Keep => after.panel.lsp_registered == panel.lsp_registered,
            }
        }),
{
}

/// The language servers that the editor is told to take back on one errand are those that it was
/// told to register on another, or before on the same: their languages and names agree.
pub proof fn law_registered_servers_are_taken_back(
    panel: PanelModel,
    request: RequestModel,
    stage: FollowModel,
    event: FollowEvent,
    at: Instant,
    later_panel: PanelModel,
    later_request: RequestModel,
    later_stage: FollowModel,
    later_event: FollowEvent,
    later_at: Instant,
    editor_open: bool,
)
    ensures
        follow_next(panel, request, stage, event, editor_open, at).servers
            matches ChangeModel::Register(rust, python) ==> (follow_next(
            later_panel,
            later_request,
            later_stage,
            later_event,
            editor_open,
            later_at,
        ).servers matches ChangeModel::TakeBack(first, second) ==> first
            == container_lsp::server_of(rust) && second == container_lsp::server_of(python)),
{
}

/// A build that is followed changes nothing but what is known of its workspace and container: not
/// the connection, the workspace, nor whether Docker can be used.
pub proof fn law_following_keeps_the_connection(
    panel: PanelModel,
    request: RequestModel,
    stage: FollowModel,
    event: FollowEvent,
    editor_open: bool,
    at: Instant,
)
    ensures
        ({
            let after = follow_next(panel, request, stage, event, editor_open, at).panel;
            &&& after.connection == panel.connection
            &&& after.workspace == panel.workspace
            &&& after.preflight_passed == panel.preflight_passed
            &&& after.has_client == panel.has_client
            &&& after.auto_reopen == panel.auto_reopen
        }),
{
}

/// Whatever comes on either errand, no workspace gets two states in the store of the panel.
#[verifier::rlimit(50)]
pub proof fn law_errands_keep_workspaces_apart(
    panel: PanelModel,
    request: RequestModel,
    opening: OpeningModel,
    opening_event: OpeningEvent,
    follow: FollowModel,
    follow_event: FollowEvent,
    editor_open: bool,
    at: Instant,
)
    requires
        panel.hud.well_formed(),
    ensures
        opening_next(panel, opening, opening_event, at).panel.hud.well_formed(),
        follow_next(panel, request, follow, follow_event, editor_open, at).panel.hud.well_formed(),
{
    if panel.workspace is Some {
        let workspace = panel.workspace->Some_0;
        let reason = match opening_event {
            OpeningEvent::Connected(Err(error)) => "Connection failed: "@ + error@,
            OpeningEvent::Health(Err(error)) => "Health check failed: "@ + error@,
            _ => "Daemon unhealthy"@,
        };
        devcontainer_hud::law_transitions_keep_workspaces_apart(
            panel.hud,
            workspace,
            path::project_name_text(panel.hud.platform, workspace),
            0,
            reason,
            seq![],
            true,
            at,
        );
    }
    let ok = match follow_event {
        FollowEvent::Found(found) => found,
        _ => true,
    };
    let message = match follow_event {
        FollowEvent::Broken(error) => error@,
        FollowEvent::Report(report) => match build_progress::report_step(report) {
            BuildStepModel::Fail(error) => error,
            _ => report.message@,
        },
        _ => seq![],
    };
    let (progress, container_id) = match follow_event {
        FollowEvent::Report(report) => (
            panel::percent_byte(report.percent),
            build_progress::ready_id(report.message@),
        ),
        _ => (0u8, seq![]),
    };
    devcontainer_hud::law_transitions_keep_workspaces_apart(
        panel.hud,
        request.workspace,
        seq![],
        progress,
        message,
        container_id,
        ok,
        at,
    );
}

/// The opening of a panel ends with the daemon connected or with the reason why it is not.
pub proof fn law_opening_settles_the_connection(
    panel: PanelModel,
    stage: OpeningModel,
    event: OpeningEvent,
    at: Instant,
)
    requires
        !(stage is Done),
        opening_next(panel, stage, event, at).stage is Done,
    ensures
        !(opening_next(panel, stage, event, at).panel.connection is Connecting),
        opening_next(panel, stage, event, at).panel.connection is Connected ==> opening_next(
            panel,
            stage,
            event,
            at,
        ).panel.has_client,
{
}

/// The opening of a panel asks one thing after the other: for the configuration, for the connection,
/// how the daemon is, and, where it is well and there is a workspace with a configuration, how Docker
/// is. What the configuration was is kept to the end.
#[verifier::rlimit(50)]
pub proof fn law_opening_asks_in_turn(
    panel: PanelModel,
    config: Option<Seq<char>>,
    found: Option<String>,
    version: String,
    healthy: bool,
    preflight: Option<PrefightData>,
    error: String,
    at: Instant,
)
    ensures
        opening_next(panel, OpeningModel::FindConfig, OpeningEvent::Config(found), at) == (Opening {
            panel,
            stage: OpeningModel::Connect { config: text::text_option(found) },
        }),
        ({
            let after = opening_next(
                panel,
                OpeningModel::Connect { config },
                OpeningEvent::Connected(Ok(())),
                at,
            );
            after.stage == (OpeningModel::Health { config }) && after.panel == panel.daemon_reached(
                at,
            )
        }),
        ({
            let after = opening_next(
                panel,
                OpeningModel::Connect { config },
                OpeningEvent::Connected(Err(error)),
                at,
            );
            &&& after.stage is Done
            &&& after.panel.connection == panel::ConnectionModel::Disconnected(
                "Connection failed: "@ + error@,
            )
        }),
        ({
            let after = opening_next(
                panel,
                OpeningModel::Health { config },
                OpeningEvent::Health(Ok((version, healthy))),
                at,
            );
            &&& after.stage is Preflight <==> healthy && panel.workspace is Some && config is Some
            &&& after.stage is Preflight ==> after.panel == panel && after.stage
                == (OpeningModel::Preflight { config, version: version@ })
            &&& !(after.stage is Preflight) ==> after.stage is Done && (
            after.panel.connection is Connected <==> healthy)
        }),
        ({
            let after = opening_next(
                panel,
                OpeningModel::Health { config },
                OpeningEvent::Health(Err(error)),
                at,
            );
            &&& after.stage is Done
            &&& after.panel.connection == panel::ConnectionModel::Disconnected(
                "Health check failed: "@ + error@,
            )
        }),
        ({
            let after = opening_next(
                panel,
                OpeningModel::Preflight { config, version: version@ },
                OpeningEvent::Preflight(preflight),
                at,
            );
            &&& after.stage is Done
            &&& after.panel.connection == panel::ConnectionModel::Connected(version@)
            &&& after.panel.has_client
            &&& after.panel.preflight_passed <==> (preflight matches Some(data)
                && data.docker_available && data.docker_permissions_ok)
            &&& config matches Some(config_path) ==> after.panel.state
                == (panel::StateModel::Detected { config_path })
        }),
{
}

/// A build that is followed is asked for, and its reports are taken until one decides it. A container
/// that is ready gets a terminal, then its language servers, and then `rust-analyzer`, `pyright` and
/// the terminal are tested, all in that container; what was found stands in the store of the
/// workspace, each under its own capability.
#[verifier::rlimit(50)]
pub proof fn law_ready_container_is_set_up(
    panel: PanelModel,
    request: RequestModel,
    container_id: Seq<char>,
    found: bool,
    editor_open: bool,
    at: Instant,
)
    ensures
        follow_next(
            panel,
            request,
            FollowModel::Open,
            FollowEvent::Opened,
            editor_open,
            at,
        ).stage is Report,
        follow_next(
            panel,
            request,
            FollowModel::OpenTerminal { container_id },
            FollowEvent::TerminalTried,
            editor_open,
            at,
        ) == follows(panel, FollowModel::RegisterServers { container_id }),
        follow_next(
            panel,
            request,
            FollowModel::RegisterServers { container_id },
            FollowEvent::EditorAsked,
            editor_open,
            at,
        ).stage == (FollowModel::FindRust { container_id }),
        ({
            let after = follow_next(
                panel,
                request,
                FollowModel::FindRust { container_id },
                FollowEvent::Found(found),
                editor_open,
                at,
            );
            let status = after.panel.hud.status_of(request.workspace)->Some_0;
            &&& after.stage == (FollowModel::FindPython { container_id })
            &&& after.panel.lsp_available == Some(found)
            &&& after.panel.hud.status_of(request.workspace) is Some
            &&& status.capabilities.lsp_rust_ok == found
            &&& status.capabilities.lsp_python_ok == panel.hud.entry(
                request.workspace,
            ).capabilities.lsp_python_ok
            &&& status.capabilities.terminal_ok == panel.hud.entry(
                request.workspace,
            ).capabilities.terminal_ok
        }),
        ({
            let after = follow_next(
                panel,
                request,
                FollowModel::FindPython { container_id },
                FollowEvent::Found(found),
                editor_open,
                at,
            );
            let status = after.panel.hud.status_of(request.workspace)->Some_0;
            &&& after.stage == (FollowModel::TestTerminal { container_id })
            &&& after.panel.lsp_available == panel.lsp_available
            &&& after.panel.hud.status_of(request.workspace) is Some
            &&& status.capabilities.lsp_python_ok == found
            &&& status.capabilities.lsp_rust_ok == panel.hud.entry(
                request.workspace,
            ).capabilities.lsp_rust_ok
        }),
        ({
            let after = follow_next(
                panel,
                request,
                FollowModel::TestTerminal { container_id },
                FollowEvent::Found(found),
                editor_open,
                at,
            );
            let status = after.panel.hud.status_of(request.workspace)->Some_0;
            &&& after.stage is Done
            &&& after.panel.lsp_available == panel.lsp_available
            &&& after.panel.hud.status_of(request.workspace) is Some
            &&& status.capabilities.terminal_ok == found
            &&& status.capabilities.lsp_rust_ok == panel.hud.entry(
                request.workspace,
            ).capabilities.lsp_rust_ok
        }),
{
    devcontainer_hud::law_results_keep_the_phase(panel.hud, request.workspace, found);
}

/// What a report means for the errand: a container that is ready is set up, a failure ends it, and
/// anything else is waited through; the end of the reports ends it, and a fault breaks the build.
#[verifier::rlimit(50)]
pub proof fn law_reports_are_followed(
    panel: PanelModel,
    request: RequestModel,
    report: BuildProgress,
    error: String,
    editor_open: bool,
    at: Instant,
)
    ensures
        ({
            let after = follow_next(
                panel,
                request,
                FollowModel::Report,
                FollowEvent::Report(report),
                editor_open,
                at,
            );
            &&& after.servers is Keep
            &&& report.stage is Complete ==> after.stage == (FollowModel::OpenTerminal {
                container_id: build_progress::ready_id(report.message@),
            })
            &&& report.stage is Failed ==> after.stage is Done
            &&& report.stage is Other ==> after.stage is Report
            &&& after.panel == panel.build_reported(request.workspace, report, at)
        }),
        follow_next(
            panel,
            request,
            FollowModel::Report,
            FollowEvent::Ended,
            editor_open,
            at,
        ) == follows(panel, FollowModel::Done),
        forall|stage: FollowModel|
            stage is Open || stage is Report ==> {
                let after = #[trigger] follow_next(
                    panel,
                    request,
                    stage,
                    FollowEvent::Broken(error),
                    editor_open,
                    at,
                );
                &&& after.stage is Done
                &&& after.panel.state == (panel::StateModel::Failed { error: error@ })
                &&& after.servers is TakeBack <==> panel.lsp_registered && editor_open
            },
        ({
            let after = follow_next(
                panel,
                request,
                FollowModel::RegisterServers {
                    container_id: build_progress::ready_id(report.message@),
                },
                FollowEvent::EditorAsked,
                editor_open,
                at,
            );
            &&& after.servers is Register <==> !panel.lsp_registered && editor_open
            &&& after.servers matches ChangeModel::Register(rust, python) ==> {
                &&& rust == container_lsp::rust_adapter(
                    build_progress::ready_id(report.message@),
                    request.project_name,
                )
                &&& python == container_lsp::python_adapter(
                    build_progress::ready_id(report.message@),
                    request.project_name,
                )
            }
        }),
{
}

/// What an errand did not ask changes nothing: not the panel, not what it does next, and not the
/// language servers.
pub proof fn law_unasked_events_change_nothing(
    panel: PanelModel,
    request: RequestModel,
    opening: OpeningModel,
    opening_event: OpeningEvent,
    follow: FollowModel,
    follow_event: FollowEvent,
    editor_open: bool,
    at: Instant,
)
    ensures
        (match opening {
            OpeningModel::FindConfig => !(opening_event is Config),
            OpeningModel::Connect { .. } => !(opening_event is Connected),
            OpeningModel::Health { .. } => !(opening_event is Health),
            OpeningModel::Preflight { .. } => !(opening_event is Preflight),
            OpeningModel::Done => true,
        }) ==> opening_next(panel, opening, opening_event, at) == (Opening {
            panel,
            stage: opening,
        }),
        (match follow {
            FollowModel::Open => !(follow_event is Opened) && !(follow_event is Broken),
            FollowModel::Report => !(follow_event is Report) && !(follow_event is Broken)
                && !(follow_event is Ended),
            FollowModel::OpenTerminal { .. } => !(follow_event is TerminalTried),
            FollowModel::RegisterServers { .. } => !(follow_event is EditorAsked),
            FollowModel::FindRust { .. } => !(follow_event is Found),
            FollowModel::FindPython { .. } => !(follow_event is Found),
            FollowModel::TestTerminal { .. } => !(follow_event is Found),
            FollowModel::Done => true,
        }) ==> follow_next(panel, request, follow, follow_event, editor_open, at) == (Follow {
            panel,
            stage: follow,
            servers: ChangeModel::Keep,
        }),
{
}

} // verus!
