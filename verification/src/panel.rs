//! The panel of the editor that offers a container for the workspace: what it knows, what each
//! event changes, and what it shows.

use crate::build_progress;
use crate::build_progress::{BuildCall, BuildProgress, BuildStep, BuildStepModel, CallModel};
use crate::container_lsp;
use crate::container_lsp::{AdapterModel, ContainerLspAdapter, ContainerServer, ServerModel};
use crate::devcontainer_doctor::PrefightData;
use crate::devcontainer_hud;
use crate::devcontainer_hud::{DevContainerHud, HudModel, PhaseModel, StatusModel};
use crate::path;
use crate::platform::Platform;
use crate::text;
use std::time::Instant;
use vstd::prelude::*;
use vstd::string::StringExecFns;

verus! {

/// The socket of the daemon that the panel talks to on Unix.
pub const PANEL_SOCKET: &'static str = "/tmp/tais-devcontainerd.sock";

/// The named pipe of the daemon that the panel talks to on Windows.
pub const PANEL_PIPE: &'static str = "\\\\.\\pipe\\tais-devcontainerd";

/// Where the daemon that the panel talks to listens.
pub open spec fn panel_address_text(platform: Platform) -> Seq<char> {
    match platform {
        Platform::Unix => PANEL_SOCKET@,
        Platform::Windows => PANEL_PIPE@,
    }
}

/// Where the daemon that the panel talks to listens: at a socket on Unix, at a named pipe on
/// Windows.
pub fn panel_address(platform: Platform) -> (r: &'static str)
    ensures
        r@ == panel_address_text(platform),
{
    match platform {
        Platform::Unix => PANEL_SOCKET,
        Platform::Windows => PANEL_PIPE,
    }
}

/// Whether the daemon is connected.
#[derive(Debug)]
pub enum ConnectionStatus {
    Connecting,
    Connected(String),
    Disconnected(String),
}

/// The model of whether the daemon is connected.
pub enum ConnectionModel {
    Connecting,
    Connected(Seq<char>),
    Disconnected(Seq<char>),
}

impl View for ConnectionStatus {
    type V = ConnectionModel;

    open spec fn view(&self) -> ConnectionModel {
        match *self {
            ConnectionStatus::Connecting => ConnectionModel::Connecting,
            ConnectionStatus::Connected(version) => ConnectionModel::Connected(version@),
            ConnectionStatus::Disconnected(error) => ConnectionModel::Disconnected(error@),
        }
    }
}

/// How a connection is coloured.
#[derive(Debug, Clone, Copy, PartialEq, Eq, Structural)]
pub enum Tone {
    Muted,
    Success,
    Warning,
}

/// What the panel says of a connection.
pub open spec fn connection_line(connection: ConnectionModel) -> Seq<char> {
    match connection {
        ConnectionModel::Connecting => "Connecting to tais-devcontainerd daemon..."@,
        ConnectionModel::Connected(version) => "Connected to tais-devcontainerd daemon v"@
            + version,
        ConnectionModel::Disconnected(error) => "Not connected to tais-devcontainerd daemon: "@
            + error,
    }
}

/// How a connection is coloured.
pub open spec fn connection_tone(connection: ConnectionModel) -> Tone {
    match connection {
        ConnectionModel::Connecting => Tone::Muted,
        ConnectionModel::Connected(_) => Tone::Success,
        ConnectionModel::Disconnected(_) => Tone::Warning,
    }
}

impl ConnectionStatus {
    /// Whether the daemon could not be connected.
    pub fn is_disconnected(&self) -> (r: bool)
        ensures
            r == (self@ is Disconnected),
    {
        matches!(self, ConnectionStatus::Disconnected(_))
    }

    /// Why the daemon could not be connected.
    pub fn disconnected_message(&self) -> (r: Option<&str>)
        ensures
            text::str_option(r) == match self@ {
                ConnectionModel::Disconnected(error) => Some(error),
                _ => None,
            },
    {
        match self {
            ConnectionStatus::Disconnected(error) => Some(error.as_str()),
            _ => None,
        }
    }

    /// What the panel says of the connection, and in which colour.
    pub fn line(&self) -> (r: (String, Tone))
        ensures
            r.0@ == connection_line(self@),
            r.1 == connection_tone(self@),
    {
        match self {
            ConnectionStatus::Connecting => (
                "Connecting to tais-devcontainerd daemon...".to_owned(),
                Tone::Muted,
            ),
            ConnectionStatus::Connected(version) => (
                "Connected to tais-devcontainerd daemon v".to_owned().concat(version.as_str()),
                Tone::Success,
            ),
            ConnectionStatus::Disconnected(error) => (
                "Not connected to tais-devcontainerd daemon: ".to_owned().concat(error.as_str()),
                Tone::Warning,
            ),
        }
    }
}

/// How far the workspace is from its container.
#[derive(Debug)]
pub enum DevContainerState {
    NotDetected,
    Detected { config_path: String },
    Building { percent: i32, message: String },
    Connected { container_id: String },
    Failed { error: String },
}

/// The model of how far the workspace is from its container.
pub enum StateModel {
    NotDetected,
    Detected { config_path: Seq<char> },
    Building { percent: i32, message: Seq<char> },
    Connected { container_id: Seq<char> },
    Failed { error: Seq<char> },
}

impl View for DevContainerState {
    type V = StateModel;

    open spec fn view(&self) -> StateModel {
        match *self {
            DevContainerState::NotDetected => StateModel::NotDetected,
            DevContainerState::Detected { config_path } => StateModel::Detected {
                config_path: config_path@,
            },
            DevContainerState::Building { percent, message } => StateModel::Building {
                percent,
                message: message@,
            },
            DevContainerState::Connected { container_id } => StateModel::Connected {
                container_id: container_id@,
            },
            DevContainerState::Failed { error } => StateModel::Failed { error: error@ },
        }
    }
}

/// What the panel knows.
pub struct SalaHud {
    pub connection_status: ConnectionStatus,
    pub devcontainer_state: DevContainerState,
    pub workspace_path: Option<String>,
    /// Whether the connection to the daemon is held.
    pub has_client: bool,
    pub preflight_passed: bool,
    pub auto_reopen: bool,
    pub container_lsp_registered: bool,
    pub container_lsp_available: Option<bool>,
    pub hud: DevContainerHud,
}

/// The model of what the panel knows.
pub struct PanelModel {
    pub connection: ConnectionModel,
    pub state: StateModel,
    pub workspace: Option<Seq<char>>,
    pub has_client: bool,
    pub preflight_passed: bool,
    pub auto_reopen: bool,
    pub lsp_registered: bool,
    pub lsp_available: Option<bool>,
    pub hud: HudModel,
}

impl View for SalaHud {
    type V = PanelModel;

    open spec fn view(&self) -> PanelModel {
        PanelModel {
            connection: self.connection_status@,
            state: self.devcontainer_state@,
            workspace: text::text_option(self.workspace_path),
            has_client: self.has_client,
            preflight_passed: self.preflight_passed,
            auto_reopen: self.auto_reopen,
            lsp_registered: self.container_lsp_registered,
            lsp_available: self.container_lsp_available,
            hud: self.hud@,
        }
    }
}

/// What came of asking the daemon how it is: it could not be reached, it did not answer, or its
/// version and whether it is well.
#[derive(Debug)]
pub enum DaemonAnswer {
    Unreachable(String),
    Silent(String),
    Health { version: String, healthy: bool },
}

/// A build that is to be asked for.
#[derive(Debug)]
pub struct BuildRequest {
    pub workspace: String,
    pub config_path: String,
    pub project_name: String,
}

/// The model of a build that is to be asked for.
pub struct RequestModel {
    pub workspace: Seq<char>,
    pub config_path: Seq<char>,
    pub project_name: Seq<char>,
}

impl View for BuildRequest {
    type V = RequestModel;

    open spec fn view(&self) -> RequestModel {
        RequestModel {
            workspace: self.workspace@,
            config_path: self.config_path@,
            project_name: self.project_name@,
        }
    }
}

/// The model of a build that may be asked for.
pub open spec fn request_option(request: Option<BuildRequest>) -> Option<RequestModel> {
    match request {
        Some(r) => Some(r@),
        None => None,
    }
}

/// The call that asks the daemon for a build: a container that is there is kept.
pub open spec fn call_of(request: RequestModel) -> CallModel {
    CallModel {
        workspace_path: request.workspace,
        config_path: request.config_path,
        force_rebuild: false,
    }
}

impl BuildRequest {
    /// The call that asks the daemon for the build. The container that is there is kept: nothing is
    /// rebuilt by force.
    pub fn build_call(&self) -> (r: BuildCall)
        ensures
            r@ == call_of(self@),
    {
        BuildCall {
            workspace_path: self.workspace.clone(),
            config_path: self.config_path.clone(),
            force_rebuild: false,
        }
    }
}

/// The models of two language servers that may be registered.
pub open spec fn adapters_option(
    adapters: Option<(ContainerLspAdapter, ContainerLspAdapter)>,
) -> Option<(AdapterModel, AdapterModel)> {
    match adapters {
        Some((rust, python)) => Some((rust@, python@)),
        None => None,
    }
}

/// The models of two language servers that may be taken back.
pub open spec fn servers_option(
    servers: Option<(ContainerServer, ContainerServer)>,
) -> Option<(ServerModel, ServerModel)> {
    match servers {
        Some((rust, python)) => Some((rust@, python@)),
        None => None,
    }
}

/// A percentage as the store keeps it: its lowest eight bits.
pub open spec fn percent_byte(percent: i32) -> u8 {
    percent as u8
}

/// Whether Docker can be used, from what the daemon says of it.
pub open spec fn docker_usable(preflight: Option<PrefightData>) -> bool {
    match preflight {
        Some(data) => data.docker_available && data.docker_permissions_ok,
        None => false,
    }
}

impl PanelModel {
    /// A panel that has just been opened.
    pub open spec fn opened(platform: Platform, workspace: Option<Seq<char>>) -> PanelModel {
        PanelModel {
            connection: ConnectionModel::Connecting,
            state: StateModel::NotDetected,
            workspace,
            has_client: false,
            preflight_passed: false,
            auto_reopen: false,
            lsp_registered: false,
            lsp_available: None,
            hud: HudModel::empty(platform),
        }
    }

    /// The panel after the daemon was reached: the preflight of the workspace begins.
    pub open spec fn daemon_reached(self, at: Instant) -> PanelModel {
        match self.workspace {
            Some(workspace) => PanelModel {
                hud: self.hud.preflight_started(
                    workspace,
                    path::project_name_text(self.hud.platform, workspace),
                    at,
                ),
                ..self
            },
            None => self,
        }
    }

    /// The panel with a configuration, where one was found.
    pub open spec fn with_config(self, config: Option<Seq<char>>) -> PanelModel {
        match config {
            Some(config_path) => PanelModel { state: StateModel::Detected { config_path }, ..self },
            None => self,
        }
    }

    /// The panel without a connection: the reason is shown, and recorded for the workspace.
    pub open spec fn disconnected(
        self,
        config: Option<Seq<char>>,
        error: Seq<char>,
        at: Instant,
    ) -> PanelModel {
        let told = PanelModel {
            connection: ConnectionModel::Disconnected(error),
            ..self.with_config(config)
        };
        match self.workspace {
            Some(workspace) => PanelModel { hud: self.hud.error(workspace, error, at), ..told },
            None => told,
        }
    }

    /// The panel after the daemon was asked how it is. What it says of Docker counts only where it
    /// is well.
    pub open spec fn daemon_answered(
        self,
        answer: DaemonAnswer,
        config: Option<Seq<char>>,
        preflight: Option<PrefightData>,
        at: Instant,
    ) -> PanelModel {
        match answer {
            DaemonAnswer::Unreachable(error) => self.disconnected(
                config,
                "Connection failed: "@ + error@,
                at,
            ),
            DaemonAnswer::Silent(error) => self.disconnected(
                config,
                "Health check failed: "@ + error@,
                at,
            ),
            DaemonAnswer::Health { version, healthy } => if healthy {
                PanelModel {
                    connection: ConnectionModel::Connected(version@),
                    preflight_passed: docker_usable(preflight),
                    has_client: true,
                    ..self.with_config(config)
                }
            } else {
                self.disconnected(config, "Daemon unhealthy"@, at)
            },
        }
    }

    /// The build that the panel may ask for: there is a workspace with a configuration, Docker can
    /// be used, and the daemon is connected.
    pub open spec fn ready_build(self) -> Option<RequestModel> {
        match (self.workspace, self.state) {
            (Some(workspace), StateModel::Detected { config_path }) => if self.preflight_passed
                && self.has_client {
                Some(
                    RequestModel {
                        workspace,
                        config_path,
                        project_name: path::project_name_text(self.hud.platform, workspace),
                    },
                )
            } else {
                None
            },
            _ => None,
        }
    }

    /// The panel after a build was asked for, where one may be.
    pub open spec fn build_started(self, at: Instant) -> PanelModel {
        match self.ready_build() {
            Some(request) => PanelModel {
                state: StateModel::Building { percent: 0, message: "Starting build..."@ },
                hud: self.hud.build_progress(request.workspace, 0, "Starting build..."@, at),
                ..self
            },
            None => self,
        }
    }

    /// The panel after the offer was taken for good.
    pub open spec fn reopened(self, at: Instant) -> PanelModel {
        (PanelModel { auto_reopen: true, ..self }).build_started(at)
    }

    /// The panel after a report of the build of a workspace.
    pub open spec fn build_reported(
        self,
        workspace: Seq<char>,
        report: BuildProgress,
        at: Instant,
    ) -> PanelModel {
        match build_progress::report_step(report) {
            BuildStepModel::Ready(container_id) => PanelModel {
                state: StateModel::Connected { container_id },
                hud: self.hud.container_started(workspace, container_id, at),
                ..self
            },
            BuildStepModel::Fail(error) => PanelModel {
                state: StateModel::Failed { error },
                hud: self.hud.error(workspace, error, at),
                ..self
            },
            BuildStepModel::Wait => PanelModel {
                state: StateModel::Building { percent: report.percent, message: report.message@ },
                hud: self.hud.build_progress(
                    workspace,
                    percent_byte(report.percent),
                    report.message@,
                    at,
                ),
                ..self
            },
        }
    }

    /// The language servers of a container that are to be registered, that of Rust before that of
    /// Python: there are some where none is registered and the editor is still there.
    pub open spec fn servers_to_register(
        self,
        container_id: Seq<char>,
        project_name: Seq<char>,
        editor_open: bool,
    ) -> Option<(AdapterModel, AdapterModel)> {
        if !self.lsp_registered && editor_open {
            Some(
                (
                    container_lsp::rust_adapter(container_id, project_name),
                    container_lsp::python_adapter(container_id, project_name),
                ),
            )
        } else {
            None
        }
    }

    /// The panel after language servers were registered, where they are to be.
    pub open spec fn lsp_added(self, editor_open: bool) -> PanelModel {
        PanelModel { lsp_registered: self.lsp_registered || editor_open, ..self }
    }

    /// Whether the language servers of the container can be taken back: they were registered, and
    /// the editor is still there.
    pub open spec fn can_remove_lsp(self, editor_open: bool) -> bool {
        self.lsp_registered && editor_open
    }

    /// The language servers that are to be taken back, where they can be.
    pub open spec fn servers_to_take_back(self, editor_open: bool) -> Option<
        (ServerModel, ServerModel),
    > {
        if self.can_remove_lsp(editor_open) {
            Some(container_lsp::servers_of_container())
        } else {
            None
        }
    }

    /// The panel after the language servers of the container were taken back, where they can be.
    pub open spec fn lsp_removed(self, editor_open: bool) -> PanelModel {
        if self.can_remove_lsp(editor_open) {
            PanelModel { lsp_registered: false, lsp_available: None, ..self }
        } else {
            self
        }
    }

    /// The panel after the stream of reports broke, or could not be opened.
    pub open spec fn build_broken(
        self,
        workspace: Seq<char>,
        error: Seq<char>,
        editor_open: bool,
        at: Instant,
    ) -> PanelModel {
        PanelModel {
            state: StateModel::Failed { error },
            hud: self.hud.error(workspace, error, at),
            ..self.lsp_removed(editor_open)
        }
    }

    /// The panel without the workspace in its store.
    pub open spec fn forgotten(self) -> PanelModel {
        match self.workspace {
            Some(workspace) => PanelModel { hud: self.hud.removed(workspace), ..self },
            None => self,
        }
    }

    /// The panel after the offer of a container was dismissed.
    pub open spec fn dismissed(self, editor_open: bool) -> PanelModel {
        PanelModel { state: StateModel::NotDetected, ..self.lsp_removed(editor_open).forgotten() }
    }

    /// The panel before a build is tried again: with the configuration that was found, where there
    /// is a workspace.
    pub open spec fn reset(self, editor_open: bool, config: Option<Seq<char>>) -> PanelModel {
        let cleared = self.lsp_removed(editor_open).forgotten();
        if self.workspace is Some {
            cleared.with_config(config)
        } else {
            cleared
        }
    }

    /// The build that is asked for when one is tried again.
    pub open spec fn retried_build(
        self,
        editor_open: bool,
        config: Option<Seq<char>>,
    ) -> Option<RequestModel> {
        if self.retries(config) {
            self.reset(editor_open, config).ready_build()
        } else {
            None
        }
    }

    /// The panel after a build was tried again, where one is.
    pub open spec fn retried(
        self,
        editor_open: bool,
        config: Option<Seq<char>>,
        at: Instant,
    ) -> PanelModel {
        if self.retries(config) {
            self.reset(editor_open, config).build_started(at)
        } else {
            self.reset(editor_open, config)
        }
    }

    /// Whether a build is tried again.
    pub open spec fn retries(self, config: Option<Seq<char>>) -> bool {
        self.workspace is Some && config is Some
    }
}

/// What the panel shows of the container.
#[derive(Debug)]
pub enum Section {
    Hidden,
    Offer { label: String, docker_unavailable: bool, tooltip: String },
    Progress { label: String, percent: i32, message: String },
    Running { label: String, server_missing: bool },
    Failure { label: String, error: String },
}

/// The model of what the panel shows of the container.
pub enum SectionModel {
    Hidden,
    Offer { label: Seq<char>, docker_unavailable: bool, tooltip: Seq<char> },
    Progress { label: Seq<char>, percent: i32, message: Seq<char> },
    Running { label: Seq<char>, server_missing: bool },
    Failure { label: Seq<char>, error: Seq<char> },
}

impl View for Section {
    type V = SectionModel;

    open spec fn view(&self) -> SectionModel {
        match *self {
            Section::Hidden => SectionModel::Hidden,
            Section::Offer { label, docker_unavailable, tooltip } => SectionModel::Offer {
                label: label@,
                docker_unavailable,
                tooltip: tooltip@,
            },
            Section::Progress { label, percent, message } => SectionModel::Progress {
                label: label@,
                percent,
                message: message@,
            },
            Section::Running { label, server_missing } => SectionModel::Running {
                label: label@,
                server_missing,
            },
            Section::Failure { label, error } => SectionModel::Failure {
                label: label@,
                error: error@,
            },
        }
    }
}

/// What the panel says where the language server of Rust is not in the container.
pub const SERVER_MISSING: &'static str = "rust-analyzer not found in container. Install it to enable code intelligence.";

/// What the panel shows of the container.
pub open spec fn section_of(panel: PanelModel) -> SectionModel {
    match panel.state {
        StateModel::NotDetected => SectionModel::Hidden,
        StateModel::Detected { config_path } => SectionModel::Offer {
            label: "DevContainer detected: "@ + match path::file_name_text(
                panel.hud.platform,
                config_path,
            ) {
                Some(name) => name,
                None => "devcontainer.json"@,
            },
            docker_unavailable: !panel.preflight_passed,
            tooltip: if panel.preflight_passed {
                "Build and open workspace in DevContainer"@
            } else {
                "Docker is not available or lacks permissions"@
            },
        },
        StateModel::Building { percent, message } => SectionModel::Progress {
            label: "Building... "@ + text::signed_text(percent as int) + "%"@,
            percent,
            message,
        },
        StateModel::Connected { container_id } => SectionModel::Running {
            label: "Container started: "@ + text::short_id_text(container_id),
            server_missing: panel.lsp_available == Some(false),
        },
        StateModel::Failed { error } => SectionModel::Failure {
            label: "Container build failed"@,
            error,
        },
    }
}

impl SalaHud {
    /// A panel that has just been opened on a workspace.
    pub fn new(platform: Platform, workspace_path: Option<String>) -> (r: Self)
        ensures
            r@ == PanelModel::opened(platform, text::text_option(workspace_path)),
    {
        SalaHud {
            connection_status: ConnectionStatus::Connecting,
            devcontainer_state: DevContainerState::NotDetected,
            workspace_path,
            has_client: false,
            preflight_passed: false,
            auto_reopen: false,
            container_lsp_registered: false,
            container_lsp_available: None,
            hud: DevContainerHud::with_platform(platform),
        }
    }

    /// The daemon was reached.
    pub fn on_daemon_reached(&mut self, at: Instant)
        ensures
            final(self)@ == old(self)@.daemon_reached(at),
    {
        if let Some(workspace) = &self.workspace_path {
            let project_name = path::project_name(self.hud.platform(), workspace.as_str());
            self.hud.preflight_started_at(workspace.clone(), project_name, at);
        }
    }

    /// Whether the daemon is to be asked how Docker is: a workspace with a configuration is open.
    pub fn wants_preflight(&self, config: &Option<String>) -> (r: bool)
        ensures
            r == (self@.workspace is Some && config is Some),
    {
        self.workspace_path.is_some() && config.is_some()
    }

    /// Takes the configuration that was found.
    fn take_config(&mut self, config: Option<String>)
        ensures
            final(self)@ == old(self)@.with_config(text::text_option(config)),
    {
        if let Some(config_path) = config {
            self.devcontainer_state = DevContainerState::Detected { config_path };
        }
    }

    /// The daemon cannot be used.
    fn disconnect(&mut self, config: Option<String>, error: String, at: Instant)
        ensures
            final(self)@ == old(self)@.disconnected(text::text_option(config), error@, at),
    {
        self.connection_status = ConnectionStatus::Disconnected(error.clone());
        self.take_config(config);
        if let Some(workspace) = &self.workspace_path {
            self.hud.error_at(workspace.as_str(), error, at);
        }
    }

    /// The daemon was asked how it is.
    pub fn on_daemon_answer(
        &mut self,
        answer: DaemonAnswer,
        config: Option<String>,
        preflight: Option<PrefightData>,
        at: Instant,
    )
        ensures
            final(self)@ == old(self)@.daemon_answered(
                answer,
                text::text_option(config),
                preflight,
                at,
            ),
    {
        match answer {
            DaemonAnswer::Unreachable(error) => {
                self.disconnect(
                    config,
                    "Connection failed: ".to_owned().concat(error.as_str()),
                    at,
                );
            },
            DaemonAnswer::Silent(error) => {
                self.disconnect(
                    config,
                    "Health check failed: ".to_owned().concat(error.as_str()),
                    at,
                );
            },
            DaemonAnswer::Health { version, healthy } => {
                if healthy {
                    self.connection_status = ConnectionStatus::Connected(version);
                    self.preflight_passed = match preflight {
                        Some(data) => data.docker_available && data.docker_permissions_ok,
                        None => false,
                    };
                    self.take_config(config);
                    self.has_client = true;
                } else {
                    self.disconnect(config, "Daemon unhealthy".to_owned(), at);
                }
            },
        }
    }

    /// The container that the workspace is connected to.
    pub fn connected_container_id(&self) -> (r: Option<String>)
        ensures
            text::text_option(r) == match self@.state {
                StateModel::Connected { container_id } => Some(container_id),
                _ => None,
            },
    {
        match &self.devcontainer_state {
            DevContainerState::Connected { container_id } => Some(container_id.clone()),
            _ => None,
        }
    }

    /// Starts a build, where one may be started, and gives the request for it.
    pub fn start_build(&mut self, at: Instant) -> (r: Option<BuildRequest>)
        ensures
            request_option(r) == old(self)@.ready_build(),
            final(self)@ == old(self)@.build_started(at),
    {
        let workspace = match &self.workspace_path {
            Some(workspace) => workspace.clone(),
            None => {
                return None;
            },
        };
        let config_path = match &self.devcontainer_state {
            DevContainerState::Detected { config_path } => config_path.clone(),
            _ => {
                return None;
            },
        };
        if !self.preflight_passed || !self.has_client {
            return None;
        }
        let project_name = path::project_name(self.hud.platform(), workspace.as_str());
        self.devcontainer_state = DevContainerState::Building {
            percent: 0,
            message: "Starting build...".to_owned(),
        };
        self.hud.build_progress_at(
            workspace.as_str(),
            0,
            "Starting build...".to_owned(),
            at,
        );
        Some(BuildRequest { workspace, config_path, project_name })
    }

    /// The offer is taken for good: a build starts, where one may be started.
    pub fn always_reopen(&mut self, at: Instant) -> (r: Option<BuildRequest>)
        ensures
            request_option(r) == old(self)@.ready_build(),
            final(self)@ == (PanelModel { auto_reopen: true, ..old(self)@ }).build_started(at),
            final(self)@ == old(self)@.reopened(at),
    {
        self.auto_reopen = true;
        self.start_build(at)
    }

    /// The daemon reports of the build of a workspace. Says whether the container is ready, the
    /// build failed, or more is to come.
    pub fn on_build_report(
        &mut self,
        workspace: &str,
        report: &BuildProgress,
        at: Instant,
    ) -> (r: BuildStep)
        ensures
            r@ == build_progress::report_step(*report),
            final(self)@ == old(self)@.build_reported(workspace@, *report, at),
    {
        let step = build_progress::interpret_report(report);
        match &step {
            BuildStep::Ready(container_id) => {
                self.devcontainer_state = DevContainerState::Connected {
                    container_id: container_id.clone(),
                };
                self.hud.container_started_at(workspace, container_id.clone(), at);
            },
            BuildStep::Fail(error) => {
                self.devcontainer_state = DevContainerState::Failed { error: error.clone() };
                self.hud.error_at(workspace, error.clone(), at);
            },
            BuildStep::Wait => {
                self.devcontainer_state = DevContainerState::Building {
                    percent: report.percent,
                    message: report.message.clone(),
                };
                let progress: u8 = #[verifier::truncate]
                (report.percent as u8);
                self.hud.build_progress_at(workspace, progress, report.message.clone(), at);
            },
        }
        step
    }

    /// The stream of reports broke, or could not be opened. Gives the language servers of the
    /// container that are to be taken back.
    pub fn on_build_broken(
        &mut self,
        workspace: &str,
        error: String,
        editor_open: bool,
        at: Instant,
    ) -> (r: Option<(ContainerServer, ContainerServer)>)
        ensures
            servers_option(r) == old(self)@.servers_to_take_back(editor_open),
            final(self)@ == old(self)@.build_broken(workspace@, error@, editor_open, at),
    {
        let removed = self.remove_container_lsp(editor_open);
        self.devcontainer_state = DevContainerState::Failed { error: error.clone() };
        self.hud.error_at(workspace, error, at);
        removed
    }

    /// Registers the language servers of a container, where none is registered and the editor is
    /// still there: gives them, that of Rust before that of Python.
    pub fn register_container_lsp(
        &mut self,
        container_id: &str,
        project_name: &str,
        editor_open: bool,
    ) -> (r: Option<(ContainerLspAdapter, ContainerLspAdapter)>)
        ensures
            adapters_option(r) == old(self)@.servers_to_register(
                container_id@,
                project_name@,
                editor_open,
            ),
            final(self)@ == old(self)@.lsp_added(editor_open),
    {
        if self.container_lsp_registered || !editor_open {
            return None;
        }
        self.container_lsp_registered = true;
        Some(
            (
                ContainerLspAdapter::rust(container_id.to_owned(), project_name.to_owned()),
                ContainerLspAdapter::python(container_id.to_owned(), project_name.to_owned()),
            ),
        )
    }

    /// Takes the language servers of the container back, where they can be: gives those that the
    /// editor is to forget, that of Rust before that of Python.
    pub fn remove_container_lsp(&mut self, editor_open: bool) -> (r: Option<
        (ContainerServer, ContainerServer),
    >)
        ensures
            servers_option(r) == old(self)@.servers_to_take_back(editor_open),
            final(self)@ == old(self)@.lsp_removed(editor_open),
    {
        if !self.container_lsp_registered || !editor_open {
            return None;
        }
        self.container_lsp_registered = false;
        self.container_lsp_available = None;
        Some(container_lsp::container_servers())
    }

    /// `rust-analyzer` was looked for in the container of a workspace.
    pub fn on_rust_checked(&mut self, workspace: &str, available: bool)
        ensures
            final(self)@ == (PanelModel {
                lsp_available: Some(available),
                hud: old(self)@.hud.lsp_rust_result(workspace@, available),
                ..old(self)@
            }),
    {
        self.container_lsp_available = Some(available);
        self.hud.on_lsp_rust_result(workspace, available);
    }

    /// `pyright` was looked for in the container of a workspace.
    pub fn on_python_checked(&mut self, workspace: &str, available: bool)
        ensures
            final(self)@ == (PanelModel {
                hud: old(self)@.hud.lsp_python_result(workspace@, available),
                ..old(self)@
            }),
    {
        self.hud.on_lsp_python_result(workspace, available);
    }

    /// The terminal of the container of a workspace was tested.
    pub fn on_terminal_checked(&mut self, workspace: &str, ok: bool)
        ensures
            final(self)@ == (PanelModel {
                hud: old(self)@.hud.terminal_result(workspace@, ok),
                ..old(self)@
            }),
    {
        self.hud.on_terminal_smoke_result(workspace, ok);
    }

    /// Stops tracking the workspace.
    fn forget(&mut self)
        ensures
            final(self)@ == old(self)@.forgotten(),
    {
        if let Some(workspace) = &self.workspace_path {
            self.hud.remove_workspace(workspace.as_str());
        }
    }

    /// The offer of a container is dismissed. Gives the language servers of the container that are
    /// to be taken back.
    pub fn dismiss_devcontainer(&mut self, editor_open: bool) -> (r: Option<
        (ContainerServer, ContainerServer),
    >)
        ensures
            servers_option(r) == old(self)@.servers_to_take_back(editor_open),
            final(self)@ == old(self)@.dismissed(editor_open),
    {
        let removed = self.remove_container_lsp(editor_open);
        self.forget();
        self.devcontainer_state = DevContainerState::NotDetected;
        removed
    }

    /// A build is tried again with the configuration that was found. Gives the language servers of
    /// the container that are to be taken back, and the request for the build, where one may be
    /// started.
    pub fn retry_build(
        &mut self,
        editor_open: bool,
        config: Option<String>,
        at: Instant,
    ) -> (r: (Option<(ContainerServer, ContainerServer)>, Option<BuildRequest>))
        ensures
            servers_option(r.0) == old(self)@.servers_to_take_back(editor_open),
            ({
                let config = text::text_option(config);
                let reset = old(self)@.reset(editor_open, config);
                if old(self)@.retries(config) {
                    request_option(r.1) == reset.ready_build() && final(self)@
                        == reset.build_started(at)
                } else {
                    r.1 is None && final(self)@ == reset
                }
            }),
            request_option(r.1) == old(self)@.retried_build(editor_open, text::text_option(config)),
            final(self)@ == old(self)@.retried(editor_open, text::text_option(config), at),
    {
        let removed = self.remove_container_lsp(editor_open);
        self.forget();
        if self.workspace_path.is_some() && config.is_some() {
            self.take_config(config);
            let request = self.start_build(at);
            (removed, request)
        } else {
            (removed, None)
        }
    }

    /// What the panel shows of the container.
    pub fn section(&self) -> (r: Section)
        requires
            self@.state matches StateModel::Connected { container_id } ==> text::has_short_id(
                container_id,
            ),
        ensures
            r@ == section_of(self@),
    {
        match &self.devcontainer_state {
            DevContainerState::NotDetected => Section::Hidden,
            DevContainerState::Detected { config_path } => {
                let name = match path::file_name(self.hud.platform(), config_path.as_str()) {
                    Some(name) => name,
                    None => "devcontainer.json".to_owned(),
                };
                let tooltip = if self.preflight_passed {
                    "Build and open workspace in DevContainer"
                } else {
                    "Docker is not available or lacks permissions"
                };
                Section::Offer {
                    label: "DevContainer detected: ".to_owned().concat(name.as_str()),
                    docker_unavailable: !self.preflight_passed,
                    tooltip: tooltip.to_owned(),
                }
            },
            DevContainerState::Building { percent, message } => Section::Progress {
                label: "Building... ".to_owned().concat(
                    text::signed_decimal(*percent).as_str(),
                ).concat("%"),
                percent: *percent,
                message: message.clone(),
            },
            DevContainerState::Connected { container_id } => {
                let server_missing = match self.container_lsp_available {
                    Some(available) => !available,
                    None => false,
                };
                Section::Running {
                    label: "Container started: ".to_owned().concat(
                        text::short_id(container_id.as_str()),
                    ),
                    server_missing,
                }
            },
            DevContainerState::Failed { error } => Section::Failure {
                label: "Container build failed".to_owned(),
                error: error.clone(),
            },
        }
    }
}

/// A build is asked for only where Docker can be used and the daemon is connected, for a workspace
/// with a configuration; then the panel shows that it starts, and asks for no second one.
pub proof fn law_build_needs_preflight(panel: PanelModel, at: Instant)
    ensures
        panel.ready_build() is Some ==> panel.preflight_passed && panel.has_client
            && panel.workspace is Some && panel.state is Detected,
        panel.ready_build() is Some ==> panel.build_started(at).state is Building
            && panel.build_started(at).ready_build() is None,
        panel.ready_build() is None ==> panel.build_started(at) == panel,
{
}

/// A panel that has just been opened asks for nothing: it offers no container and starts no build.
pub proof fn law_opened_panel_is_idle(platform: Platform, workspace: Option<Seq<char>>)
    ensures
        PanelModel::opened(platform, workspace).ready_build() is None,
        section_of(PanelModel::opened(platform, workspace)) == SectionModel::Hidden,
        PanelModel::opened(platform, workspace).hud.well_formed(),
{
}

/// The store says of the workspace what the panel shows of its build: that it goes on, that the
/// container runs, or why it failed.
pub proof fn law_store_follows_the_build(
    panel: PanelModel,
    workspace: Seq<char>,
    report: BuildProgress,
    at: Instant,
)
    requires
        panel.hud.well_formed(),
    ensures
        ({
            let after = panel.build_reported(workspace, report, at);
            &&& after.hud.well_formed()
            &&& after.hud.status_of(workspace) is Some
            &&& match after.state {
                StateModel::Building { message, .. } => {
                    &&& after.hud.entry(workspace).phase is Building
                    &&& after.hud.entry(workspace).phase->Building_message == message
                },
                StateModel::Connected { container_id } => {
                    &&& after.hud.entry(workspace).phase is Running
                    &&& after.hud.entry(workspace).container_id == Some(container_id)
                },
                StateModel::Failed { error } => {
                    &&& after.hud.entry(workspace).phase is Error
                    &&& after.hud.entry(workspace).phase->Error_message == error
                },
                _ => false,
            }
        }),
{
    let after = panel.build_reported(workspace, report, at);
    let before = panel.hud.entry(workspace);
    devcontainer_hud::lemma_position(panel.hud.platform, panel.hud.statuses, workspace);
    let status = match build_progress::report_step(report) {
        BuildStepModel::Ready(container_id) => StatusModel {
            phase: PhaseModel::Running { started_at: at },
            container_id: Some(container_id),
            capabilities: devcontainer_hud::no_capabilities(),
            ..before
        },
        BuildStepModel::Fail(error) => StatusModel {
            phase: PhaseModel::Error { at, message: error },
            ..before
        },
        BuildStepModel::Wait => StatusModel {
            phase: PhaseModel::Building {
                started_at: match before.phase {
                    PhaseModel::Building { started_at, .. } => started_at,
                    _ => at,
                },
                progress: percent_byte(report.percent),
                message: report.message@,
            },
            ..before
        },
    };
    devcontainer_hud::law_put_is_read_back(panel.hud, workspace, status);
    devcontainer_hud::law_every_change_keeps_workspaces_apart(panel.hud, workspace, status);
    assert(panel.hud.put(workspace, status).status_of(workspace) == Some(status));
    assert(after.hud.statuses == panel.hud.put(workspace, status).statuses);
    assert(after.hud.status_of(workspace) == Some(status));
}

/// An offer that was dismissed is gone: nothing is shown, no build can start, and the store does
/// not know the workspace.
pub proof fn law_dismissed_offer_is_gone(panel: PanelModel, editor_open: bool)
    requires
        panel.hud.well_formed(),
    ensures
        section_of(panel.dismissed(editor_open)) == SectionModel::Hidden,
        panel.dismissed(editor_open).ready_build() is None,
        panel.workspace is Some ==> panel.dismissed(editor_open).hud.status_of(
            panel.workspace->Some_0,
        ) is None,
        editor_open ==> !panel.dismissed(editor_open).lsp_registered,
{
    if panel.workspace is Some {
        devcontainer_hud::law_removed_is_not_tracked(panel.hud, panel.workspace->Some_0);
    }
}

/// What is taken back is what was registered: whatever container and project language servers were
/// registered for, and whatever the panel went through since, the editor is told to forget the
/// languages and the names of just these servers.
pub proof fn law_registered_servers_are_taken_back(
    before: PanelModel,
    container_id: Seq<char>,
    project_name: Seq<char>,
    later: PanelModel,
)
    requires
        before.servers_to_register(container_id, project_name, true) is Some,
        later.lsp_registered,
    ensures
        ({
            let registered = before.servers_to_register(container_id, project_name, true)->Some_0;
            later.servers_to_take_back(true) == Some(
                (
                    container_lsp::server_of(registered.0),
                    container_lsp::server_of(registered.1),
                ),
            )
        }),
        before.lsp_added(true).lsp_registered,
{
}

/// Language servers are taken back once: then none is registered and nothing is known of them, to
/// take them back again does nothing, and those of a container can be registered again.
pub proof fn law_servers_are_taken_back_once(
    panel: PanelModel,
    container_id: Seq<char>,
    project_name: Seq<char>,
    editor_open: bool,
)
    requires
        panel.lsp_registered,
    ensures
        ({
            let after = panel.lsp_removed(true);
            &&& !after.lsp_registered && after.lsp_available is None
            &&& after.servers_to_take_back(editor_open) is None
            &&& after.lsp_removed(editor_open) == after
            &&& after.servers_to_register(container_id, project_name, true) is Some
            &&& after.lsp_added(true) == (PanelModel { lsp_available: None, ..panel })
        }),
        panel.servers_to_register(container_id, project_name, editor_open) is None,
        panel.lsp_added(editor_open) == panel,
{
}

/// A percentage from zero to a hundred is kept as it is.
pub proof fn law_percentage_is_kept(percent: i32)
    requires
        0 <= percent <= 100,
    ensures
        percent_byte(percent) == percent,
{
    assert(percent as u8 == percent) by (bit_vector)
        requires
            0 <= percent <= 100,
    ;
}

/// The panel is connected where the daemon answered that it is well, and only there; only then it
/// holds the connection. Else it shows why not, and the store has the reason for the workspace.
#[verifier::rlimit(50)]
pub proof fn law_panel_is_connected_where_the_daemon_is_well(
    panel: PanelModel,
    answer: DaemonAnswer,
    config: Option<Seq<char>>,
    preflight: Option<PrefightData>,
    at: Instant,
)
    requires
        panel.hud.well_formed(),
    ensures
        ({
            let after = panel.daemon_answered(answer, config, preflight, at);
            let well = answer matches DaemonAnswer::Health { healthy, .. } && healthy;
            let reason = match answer {
                DaemonAnswer::Unreachable(error) => "Connection failed: "@ + error@,
                DaemonAnswer::Silent(error) => "Health check failed: "@ + error@,
                DaemonAnswer::Health { .. } => "Daemon unhealthy"@,
            };
            &&& after.connection is Connected <==> well
            &&& well ==> {
                &&& answer matches DaemonAnswer::Health { version, .. } && after.connection
                    == ConnectionModel::Connected(version@)
                &&& after.has_client
                &&& after.preflight_passed <==> (preflight matches Some(data)
                    && data.docker_available && data.docker_permissions_ok)
                &&& after.hud == panel.hud
            }
            &&& !well ==> {
                &&& after.connection == ConnectionModel::Disconnected(reason)
                &&& after.has_client == panel.has_client
                &&& after.preflight_passed == panel.preflight_passed
                &&& panel.workspace matches Some(workspace) ==> {
                    &&& after.hud.status_of(workspace) is Some
                    &&& after.hud.status_of(workspace)->Some_0.phase == (PhaseModel::Error {
                        at,
                        message: reason,
                    })
                }
                &&& panel.workspace is None ==> after.hud == panel.hud
            }
            &&& after.state == match config {
                Some(config_path) => StateModel::Detected { config_path },
                None => panel.state,
            }
            &&& after.workspace == panel.workspace && after.auto_reopen == panel.auto_reopen
            &&& after.lsp_registered == panel.lsp_registered
            &&& after.lsp_available == panel.lsp_available
        }),
{
    let reason = match answer {
        DaemonAnswer::Unreachable(error) => "Connection failed: "@ + error@,
        DaemonAnswer::Silent(error) => "Health check failed: "@ + error@,
        DaemonAnswer::Health { .. } => "Daemon unhealthy"@,
    };
    if panel.workspace is Some {
        let workspace = panel.workspace->Some_0;
        devcontainer_hud::law_transitions_change_the_phase(
            panel.hud,
            workspace,
            seq![],
            0,
            reason,
            at,
        );
    }
}

/// A daemon that was reached starts the preflight of the workspace, under its project's name.
pub proof fn law_reached_daemon_starts_preflight(panel: PanelModel, at: Instant)
    ensures
        ({
            let after = panel.daemon_reached(at);
            &&& panel.workspace matches Some(workspace) ==> {
                &&& after.hud.status_of(workspace) is Some
                &&& after.hud.status_of(workspace)->Some_0.phase == (PhaseModel::Preflight {
                    started_at: at,
                })
                &&& after.hud.status_of(workspace)->Some_0.project_name == path::project_name_text(
                    panel.hud.platform,
                    workspace,
                )
            }
            &&& panel.workspace is None ==> after == panel
            &&& after == (PanelModel { hud: after.hud, ..panel })
        }),
{
    if panel.workspace is Some {
        let workspace = panel.workspace->Some_0;
        devcontainer_hud::law_transitions_change_the_phase(
            panel.hud,
            workspace,
            path::project_name_text(panel.hud.platform, workspace),
            0,
            seq![],
            at,
        );
    }
}

/// A build is asked for where there is a workspace with a configuration, Docker can be used and the
/// connection is held, and only there. It is the build of that workspace from that configuration, for
/// the project of that name, and never by force; the panel shows that it starts.
pub proof fn law_build_is_asked_for(panel: PanelModel, at: Instant)
    ensures
        panel.ready_build() is Some <==> panel.workspace is Some && panel.state is Detected
            && panel.preflight_passed && panel.has_client,
        panel.ready_build() matches Some(request) ==> {
            &&& Some(request.workspace) == panel.workspace
            &&& panel.state == (StateModel::Detected { config_path: request.config_path })
            &&& request.project_name == path::project_name_text(
                panel.hud.platform,
                request.workspace,
            )
            &&& call_of(request).workspace_path == request.workspace
            &&& call_of(request).config_path == request.config_path
            &&& !call_of(request).force_rebuild
            &&& panel.build_started(at).state == (StateModel::Building {
                percent: 0,
                message: "Starting build..."@,
            })
            &&& panel.build_started(at) == (PanelModel {
                state: panel.build_started(at).state,
                hud: panel.build_started(at).hud,
                ..panel
            })
        },
{
}

/// What a report of a build makes of the panel: it shows the container that is ready, the reason of a
/// failure, or how far the build is; nothing else changes but the store.
pub proof fn law_report_is_shown(
    panel: PanelModel,
    workspace: Seq<char>,
    report: BuildProgress,
    at: Instant,
)
    ensures
        ({
            let after = panel.build_reported(workspace, report, at);
            &&& report.stage is Complete ==> after.state == (StateModel::Connected {
                container_id: build_progress::ready_id(report.message@),
            })
            &&& report.stage is Failed ==> after.state == (StateModel::Failed {
                error: if report.error@.len() > 0 {
                    report.error@
                } else {
                    report.message@
                },
            })
            &&& report.stage is Other ==> after.state == (StateModel::Building {
                percent: report.percent,
                message: report.message@,
            })
            &&& after == (PanelModel { state: after.state, hud: after.hud, ..panel })
        }),
{
}

/// A build that broke is shown as a failure with its reason, which the store has too; the language
/// servers of the container are taken back where they can be.
pub proof fn law_broken_build_is_shown(
    panel: PanelModel,
    workspace: Seq<char>,
    error: Seq<char>,
    editor_open: bool,
    at: Instant,
)
    ensures
        ({
            let after = panel.build_broken(workspace, error, editor_open, at);
            &&& after.state == (StateModel::Failed { error })
            &&& after.hud.status_of(workspace) is Some
            &&& after.hud.status_of(workspace)->Some_0.phase == (PhaseModel::Error {
                at,
                message: error,
            })
            &&& after.lsp_registered <==> panel.lsp_registered && !editor_open
            &&& panel.lsp_registered && editor_open ==> after.lsp_available is None
            &&& !(panel.lsp_registered && editor_open) ==> after.lsp_available == panel.lsp_available
            &&& after.connection == panel.connection && after.workspace == panel.workspace
            &&& after.has_client == panel.has_client && after.preflight_passed
                == panel.preflight_passed
        }),
{
    devcontainer_hud::law_transitions_change_the_phase(panel.hud, workspace, seq![], 0, error, at);
}

/// A build that is tried again starts afresh with the configuration that is found now: the store
/// forgets the workspace and the servers are taken back where they can be. Without a workspace or a
/// configuration nothing is built, and the panel shows what it showed.
pub proof fn law_retry_starts_afresh(
    panel: PanelModel,
    editor_open: bool,
    config: Option<Seq<char>>,
    at: Instant,
)
    requires
        panel.hud.well_formed(),
    ensures
        ({
            let reset = panel.reset(editor_open, config);
            &&& panel.retries(config) <==> panel.workspace is Some && config is Some
            &&& panel.workspace matches Some(workspace) ==> reset.hud.status_of(workspace) is None
            &&& reset.lsp_registered <==> panel.lsp_registered && !editor_open
            &&& panel.retries(config) ==> reset.state == (StateModel::Detected {
                config_path: config->Some_0,
            })
            &&& !panel.retries(config) ==> reset.state == panel.state
            &&& panel.retries(config) && panel.preflight_passed && panel.has_client
                ==> reset.ready_build() is Some && reset.ready_build()->Some_0.config_path
                == config->Some_0
            &&& reset.connection == panel.connection && reset.workspace == panel.workspace
        }),
{
    if panel.workspace is Some {
        devcontainer_hud::law_removed_is_not_tracked(panel.hud, panel.workspace->Some_0);
    }
}

/// What is registered is the servers of the container and the project, where none is registered and
/// the editor is there, and only there.
pub proof fn law_servers_of_the_container_are_registered(
    panel: PanelModel,
    container_id: Seq<char>,
    project_name: Seq<char>,
    editor_open: bool,
)
    ensures
        panel.servers_to_register(container_id, project_name, editor_open) is Some
            <==> !panel.lsp_registered && editor_open,
        panel.servers_to_register(container_id, project_name, editor_open) matches Some(
            (rust, python),
        ) ==> {
            &&& rust.container_id == container_id && python.container_id == container_id
            &&& rust.project_name == project_name && python.project_name == project_name
            &&& rust.language_name == "Rust"@ && python.language_name == "Python"@
        },
        panel.lsp_added(editor_open) == (PanelModel {
            lsp_registered: panel.lsp_registered || editor_open,
            ..panel
        }),
        panel.servers_to_take_back(editor_open) is Some <==> panel.lsp_registered && editor_open,
{
}

/// What the panel shows of the container: nothing before one is found, the offer with the name of its
/// configuration, which can be taken where Docker can be used, how far the build is, the container by
/// the start of its id with a warning where `rust-analyzer` was looked for and not found, or the
/// reason of a failure.
pub proof fn law_section_shows_the_state(panel: PanelModel)
    ensures
        match panel.state {
            StateModel::NotDetected => section_of(panel) is Hidden,
            StateModel::Detected { config_path } => section_of(panel) matches SectionModel::Offer {
                label,
                docker_unavailable,
                tooltip,
            } && {
                &&& docker_unavailable <==> !panel.preflight_passed
                &&& path::file_name_text(panel.hud.platform, config_path) matches Some(name)
                    ==> label == "DevContainer detected: "@ + name
                &&& path::file_name_text(panel.hud.platform, config_path) is None ==> label
                    == "DevContainer detected: "@ + "devcontainer.json"@
                &&& panel.preflight_passed ==> tooltip == "Build and open workspace in DevContainer"@
                &&& !panel.preflight_passed ==> tooltip
                    == "Docker is not available or lacks permissions"@
            },
            StateModel::Building { percent, message } => section_of(panel) == (
            SectionModel::Progress {
                label: "Building... "@ + text::signed_text(percent as int) + "%"@,
                percent,
                message,
            }),
            StateModel::Connected { container_id } => section_of(panel) == (SectionModel::Running {
                label: "Container started: "@ + text::short_id_text(container_id),
                server_missing: panel.lsp_available is Some && !panel.lsp_available->Some_0,
            }),
            StateModel::Failed { error } => section_of(panel) == (SectionModel::Failure {
                label: "Container build failed"@,
                error,
            }),
        },
{
}

/// A connection is told of in words and by its colour.
pub proof fn law_connection_is_told(version: Seq<char>, error: Seq<char>)
    ensures
        connection_line(ConnectionModel::Connected(version))
            == "Connected to tais-devcontainerd daemon v"@ + version,
        connection_line(ConnectionModel::Disconnected(error))
            == "Not connected to tais-devcontainerd daemon: "@ + error,
        connection_line(ConnectionModel::Connecting)
            == "Connecting to tais-devcontainerd daemon..."@,
        connection_tone(ConnectionModel::Connected(version)) == Tone::Success,
        connection_tone(ConnectionModel::Disconnected(error)) == Tone::Warning,
        connection_tone(ConnectionModel::Connecting) == Tone::Muted,
        panel_address_text(Platform::Unix) == "/tmp/tais-devcontainerd.sock"@,
        panel_address_text(Platform::Windows) == "\\\\.\\pipe\\tais-devcontainerd"@,
{
}

/// A panel that has just been opened is connecting, knows its workspace, and nothing else.
pub proof fn law_opened_panel_knows_its_workspace(platform: Platform, workspace: Option<Seq<char>>)
    ensures
        ({
            let panel = PanelModel::opened(platform, workspace);
            &&& panel.connection is Connecting && panel.state is NotDetected
            &&& panel.workspace == workspace && panel.hud.platform == platform
            &&& !panel.has_client && !panel.preflight_passed && !panel.auto_reopen
            &&& !panel.lsp_registered && panel.lsp_available is None
            &&& panel.hud.statuses.len() == 0 && panel.hud.events.len() == 0
        }),
{
}

/// A build that starts stands in the store as one that has begun; a report stands there as far as it
/// says, up to a hundred percent.
#[verifier::rlimit(50)]
pub proof fn law_store_has_the_progress(
    panel: PanelModel,
    workspace: Seq<char>,
    report: BuildProgress,
    at: Instant,
)
    requires
        panel.hud.well_formed(),
    ensures
        panel.ready_build() matches Some(request) ==> (!(panel.hud.entry(
            request.workspace,
        ).phase is Building) ==> {
            let after = panel.build_started(at).hud.status_of(request.workspace);
            &&& after is Some
            &&& after->Some_0.phase == (PhaseModel::Building {
                started_at: at,
                progress: 0,
                message: "Starting build..."@,
            })
        }),
        report.stage is Other && 0 <= report.percent <= 100 && !(panel.hud.entry(
            workspace,
        ).phase is Building) ==> {
            let after = panel.build_reported(workspace, report, at).hud.status_of(workspace);
            &&& after is Some
            &&& after->Some_0.phase == (PhaseModel::Building {
                started_at: at,
                progress: report.percent as u8,
                message: report.message@,
            })
        },
        report.stage is Complete ==> {
            let after = panel.build_reported(workspace, report, at).hud.status_of(workspace);
            &&& after is Some
            &&& after->Some_0.phase == (PhaseModel::Running { started_at: at })
            &&& after->Some_0.container_id == Some(build_progress::ready_id(report.message@))
        },
{
    if panel.ready_build() is Some {
        devcontainer_hud::law_transitions_change_the_phase(
            panel.hud,
            panel.ready_build()->Some_0.workspace,
            seq![],
            0,
            "Starting build..."@,
            at,
        );
    }
    devcontainer_hud::law_transitions_change_the_phase(
        panel.hud,
        workspace,
        seq![],
        percent_byte(report.percent),
        report.message@,
        at,
    );
    devcontainer_hud::law_restart_resets_capabilities(
        panel.hud,
        workspace,
        build_progress::ready_id(report.message@),
        at,
    );
}

/// An offer that is dismissed changes what is known of the container and nothing else: the connection
/// and the workspace stay, and Docker can be used as before.
pub proof fn law_dismissal_keeps_the_connection(panel: PanelModel, editor_open: bool, at: Instant)
    ensures
        ({
            let after = panel.dismissed(editor_open);
            &&& after.state is NotDetected
            &&& after.connection == panel.connection && after.workspace == panel.workspace
            &&& after.has_client == panel.has_client && after.preflight_passed
                == panel.preflight_passed
            &&& after.auto_reopen == panel.auto_reopen
            &&& after.lsp_registered <==> panel.lsp_registered && !editor_open
        }),
        panel.reopened(at).auto_reopen,
        panel.reopened(at) == (PanelModel { auto_reopen: true, ..panel.build_started(at) }),
{
}

/// A build that is tried again is the one of the workspace from the configuration that was found, and
/// is asked for where Docker can be used and the connection is held. Where there is none, nothing is
/// asked for.
pub proof fn law_retried_build_is_asked_for(
    panel: PanelModel,
    editor_open: bool,
    config: Option<Seq<char>>,
    at: Instant,
)
    ensures
        panel.retried_build(editor_open, config) is Some <==> panel.workspace is Some
            && config is Some && panel.preflight_passed && panel.has_client,
        panel.retried_build(editor_open, config) matches Some(request) ==> {
            &&& Some(request.workspace) == panel.workspace
            &&& Some(request.config_path) == config
            &&& panel.retried(editor_open, config, at).state is Building
        },
        panel.workspace is None || config is None ==> panel.retried(editor_open, config, at).state
            == panel.state,
{
}

} // verus!
