//! The state of every tracked workspace: phase, container and capabilities, the events that a
//! listener has not read yet, and the lines that were not logged yet.

use crate::json;
use crate::json::Json;
use crate::path;
use crate::platform;
use crate::platform::Platform;
use crate::text;
use serde_json::Value;
use std::time::Instant;
use vstd::prelude::*;
use vstd::string::StringExecFns;

verus! {

#[verifier::external_type_specification]
#[verifier::external_body]
pub struct ExInstant(std::time::Instant);

/// `Instant::now` reads the clock. Nothing is said of the instant that it gives.
#[verifier::external_body]
fn now() -> (r: Instant) {
    Instant::now()
}

/// Where a container is in its life.
#[derive(Debug)]
pub enum DevContainerPhase {
    Idle,
    Preflight { started_at: Instant },
    Building { started_at: Instant, progress: u8, message: String },
    Running { started_at: Instant },
    Error { at: Instant, message: String },
}

/// The model of a phase.
pub enum PhaseModel {
    Idle,
    Preflight { started_at: Instant },
    Building { started_at: Instant, progress: u8, message: Seq<char> },
    Running { started_at: Instant },
    Error { at: Instant, message: Seq<char> },
}

impl View for DevContainerPhase {
    type V = PhaseModel;

    open spec fn view(&self) -> PhaseModel {
        match *self {
            DevContainerPhase::Idle => PhaseModel::Idle,
            DevContainerPhase::Preflight { started_at } => PhaseModel::Preflight { started_at },
            DevContainerPhase::Building { started_at, progress, message } => PhaseModel::Building {
                started_at,
                progress,
                message: message@,
            },
            DevContainerPhase::Running { started_at } => PhaseModel::Running { started_at },
            DevContainerPhase::Error { at, message } => PhaseModel::Error { at, message: message@ },
        }
    }
}

impl Clone for DevContainerPhase {
    fn clone(&self) -> (r: Self)
        ensures
            r@ == self@,
    {
        match self {
            DevContainerPhase::Idle => DevContainerPhase::Idle,
            DevContainerPhase::Preflight { started_at } => DevContainerPhase::Preflight {
                started_at: *started_at,
            },
            DevContainerPhase::Building { started_at, progress, message } =>
                DevContainerPhase::Building {
                started_at: *started_at,
                progress: *progress,
                message: message.clone(),
            },
            DevContainerPhase::Running { started_at } => DevContainerPhase::Running {
                started_at: *started_at,
            },
            DevContainerPhase::Error { at, message } => DevContainerPhase::Error {
                at: *at,
                message: message.clone(),
            },
        }
    }
}

/// The name of a phase.
pub open spec fn phase_label(phase: PhaseModel) -> Seq<char> {
    match phase {
        PhaseModel::Idle => "Idle"@,
        PhaseModel::Preflight { .. } => "Preflight"@,
        PhaseModel::Building { .. } => "Building"@,
        PhaseModel::Running { .. } => "Running"@,
        PhaseModel::Error { .. } => "Error"@,
    }
}

impl DevContainerPhase {
    pub fn is_idle(&self) -> (r: bool)
        ensures
            r == (self@ is Idle),
    {
        matches!(self, DevContainerPhase::Idle)
    }

    pub fn is_preflight(&self) -> (r: bool)
        ensures
            r == (self@ is Preflight),
    {
        matches!(self, DevContainerPhase::Preflight { .. })
    }

    pub fn is_building(&self) -> (r: bool)
        ensures
            r == (self@ is Building),
    {
        matches!(self, DevContainerPhase::Building { .. })
    }

    pub fn is_running(&self) -> (r: bool)
        ensures
            r == (self@ is Running),
    {
        matches!(self, DevContainerPhase::Running { .. })
    }

    pub fn is_error(&self) -> (r: bool)
        ensures
            r == (self@ is Error),
    {
        matches!(self, DevContainerPhase::Error { .. })
    }

    /// The name of the phase.
    pub fn label(&self) -> (r: &'static str)
        ensures
            r@ == phase_label(self@),
    {
        match self {
            DevContainerPhase::Idle => "Idle",
            DevContainerPhase::Preflight { .. } => "Preflight",
            DevContainerPhase::Building { .. } => "Building",
            DevContainerPhase::Running { .. } => "Running",
            DevContainerPhase::Error { .. } => "Error",
        }
    }
}

/// What works inside a running container.
#[derive(Debug, PartialEq, Eq, Structural)]
pub struct DevContainerCapabilities {
    pub terminal_ok: bool,
    pub lsp_rust_ok: bool,
    pub lsp_python_ok: bool,
}

impl Clone for DevContainerCapabilities {
    fn clone(&self) -> (r: Self)
        ensures
            r == *self,
    {
        DevContainerCapabilities {
            terminal_ok: self.terminal_ok,
            lsp_rust_ok: self.lsp_rust_ok,
            lsp_python_ok: self.lsp_python_ok,
        }
    }
}

/// Nothing is known to work.
pub open spec fn no_capabilities() -> DevContainerCapabilities {
    DevContainerCapabilities { terminal_ok: false, lsp_rust_ok: false, lsp_python_ok: false }
}

impl Default for DevContainerCapabilities {
    fn default() -> (r: Self)
        ensures
            r == no_capabilities(),
    {
        DevContainerCapabilities { terminal_ok: false, lsp_rust_ok: false, lsp_python_ok: false }
    }
}

/// The state of one workspace.
#[derive(Debug)]
pub struct DevContainerStatus {
    pub workspace_root: String,
    pub project_name: String,
    pub container_id: Option<String>,
    pub phase: DevContainerPhase,
    pub capabilities: DevContainerCapabilities,
}

/// The model of the state of one workspace.
pub struct StatusModel {
    pub workspace_root: Seq<char>,
    pub project_name: Seq<char>,
    pub container_id: Option<Seq<char>>,
    pub phase: PhaseModel,
    pub capabilities: DevContainerCapabilities,
}

impl View for DevContainerStatus {
    type V = StatusModel;

    open spec fn view(&self) -> StatusModel {
        StatusModel {
            workspace_root: self.workspace_root@,
            project_name: self.project_name@,
            container_id: text::text_option(self.container_id),
            phase: self.phase@,
            capabilities: self.capabilities,
        }
    }
}

impl Clone for DevContainerStatus {
    fn clone(&self) -> (r: Self)
        ensures
            r@ == self@,
    {
        DevContainerStatus {
            workspace_root: self.workspace_root.clone(),
            project_name: self.project_name.clone(),
            container_id: match &self.container_id {
                Some(id) => Some(id.clone()),
                None => None,
            },
            phase: self.phase.clone(),
            capabilities: self.capabilities.clone(),
        }
    }
}

/// A change that a listener can read.
#[derive(Debug)]
pub enum DevContainerHudEvent {
    PhaseChanged { workspace: String, phase_label: String },
    CapabilityUpdated { workspace: String, capability: String, value: bool },
}

/// The model of a change.
pub enum EventModel {
    PhaseChanged { workspace: Seq<char>, phase_label: Seq<char> },
    CapabilityUpdated { workspace: Seq<char>, capability: Seq<char>, value: bool },
}

impl View for DevContainerHudEvent {
    type V = EventModel;

    open spec fn view(&self) -> EventModel {
        match *self {
            DevContainerHudEvent::PhaseChanged { workspace, phase_label } => EventModel::PhaseChanged {
                workspace: workspace@,
                phase_label: phase_label@,
            },
            DevContainerHudEvent::CapabilityUpdated { workspace, capability, value } =>
                EventModel::CapabilityUpdated {
                workspace: workspace@,
                capability: capability@,
                value,
            },
        }
    }
}

impl Clone for DevContainerHudEvent {
    fn clone(&self) -> (r: Self)
        ensures
            r@ == self@,
    {
        match self {
            DevContainerHudEvent::PhaseChanged { workspace, phase_label } =>
                DevContainerHudEvent::PhaseChanged {
                workspace: workspace.clone(),
                phase_label: phase_label.clone(),
            },
            DevContainerHudEvent::CapabilityUpdated { workspace, capability, value } =>
                DevContainerHudEvent::CapabilityUpdated {
                workspace: workspace.clone(),
                capability: capability.clone(),
                value: *value,
            },
        }
    }
}

/// The models of a list of states.
pub open spec fn status_models(statuses: Seq<DevContainerStatus>) -> Seq<StatusModel> {
    statuses.map_values(|s: DevContainerStatus| s@)
}

/// The models of a list of changes.
pub open spec fn event_models(events: Seq<DevContainerHudEvent>) -> Seq<EventModel> {
    events.map_values(|e: DevContainerHudEvent| e@)
}

/// A line for the log.
#[derive(Debug)]
pub enum LogLine {
    Info(String),
    Error(String),
}

/// The model of a line for the log.
pub enum LogModel {
    Info(Seq<char>),
    Error(Seq<char>),
}

impl View for LogLine {
    type V = LogModel;

    open spec fn view(&self) -> LogModel {
        match *self {
            LogLine::Info(line) => LogModel::Info(line@),
            LogLine::Error(line) => LogModel::Error(line@),
        }
    }
}

/// The models of a list of lines for the log.
pub open spec fn log_models(logs: Seq<LogLine>) -> Seq<LogModel> {
    logs.map_values(|line: LogLine| line@)
}

/// How every line for the log begins.
pub open spec fn log_head(workspace: Seq<char>) -> Seq<char> {
    "[HUD] workspace="@ + workspace
}

/// How every line for the log begins.
fn log_start(workspace: &str) -> (r: String)
    ensures
        r@ == log_head(workspace@),
{
    "[HUD] workspace=".to_owned().concat(workspace)
}

/// What is logged of a test of a capability.
pub open spec fn capability_log(workspace: Seq<char>, capability: Seq<char>, ok: bool) -> LogModel {
    LogModel::Info(
        log_head(workspace) + " capability="@ + capability + " ok="@ + if ok {
            "true"@
        } else {
            "false"@
        },
    )
}

/// The model of the store: how it reads paths, the states in the order in which their workspaces
/// were first seen, the changes that were not read yet, and the lines that were not logged yet.
#[verifier::ext_equal]
pub struct HudModel {
    pub platform: Platform,
    pub statuses: Seq<StatusModel>,
    pub events: Seq<EventModel>,
    pub logs: Seq<LogModel>,
}

/// The position of the state of a workspace, or the number of states.
pub open spec fn position(
    platform: Platform,
    statuses: Seq<StatusModel>,
    workspace: Seq<char>,
) -> int
    decreases statuses.len(),
{
    if statuses.len() == 0 || path::same_path_text(platform, statuses[0].workspace_root, workspace) {
        0
    } else {
        1 + position(platform, statuses.skip(1), workspace)
    }
}

/// The state of a workspace that is seen for the first time.
pub open spec fn fresh_status(platform: Platform, workspace: Seq<char>) -> StatusModel {
    StatusModel {
        workspace_root: workspace,
        project_name: path::project_name_text(platform, workspace),
        container_id: None,
        phase: PhaseModel::Idle,
        capabilities: no_capabilities(),
    }
}

impl HudModel {
    /// A store that tracks nothing.
    pub open spec fn empty(platform: Platform) -> HudModel {
        HudModel { platform, statuses: seq![], events: seq![], logs: seq![] }
    }

    /// No workspace has two states.
    pub open spec fn well_formed(self) -> bool {
        forall|i: int, j: int|
            0 <= i < j < self.statuses.len() ==> !path::same_path_text(
                self.platform,
                (#[trigger] self.statuses[i]).workspace_root,
                (#[trigger] self.statuses[j]).workspace_root,
            )
    }

    /// Whether a workspace is tracked.
    pub open spec fn tracks(self, workspace: Seq<char>) -> bool {
        position(self.platform, self.statuses, workspace) < self.statuses.len()
    }

    /// The state of a tracked workspace.
    pub open spec fn status_of(self, workspace: Seq<char>) -> Option<StatusModel> {
        if self.tracks(workspace) {
            Some(self.statuses[position(self.platform, self.statuses, workspace)])
        } else {
            None
        }
    }

    /// The state of a workspace, a fresh one where it is not tracked.
    pub open spec fn entry(self, workspace: Seq<char>) -> StatusModel {
        match self.status_of(workspace) {
            Some(status) => status,
            None => fresh_status(self.platform, workspace),
        }
    }

    /// The store with this state of a workspace.
    pub open spec fn put(self, workspace: Seq<char>, status: StatusModel) -> HudModel {
        HudModel {
            statuses: if self.tracks(workspace) {
                self.statuses.update(position(self.platform, self.statuses, workspace), status)
            } else {
                self.statuses.push(status)
            },
            ..self
        }
    }

    /// The store with one more change to read.
    pub open spec fn with_event(self, event: EventModel) -> HudModel {
        HudModel { events: self.events.push(event), ..self }
    }

    /// The store with one more line for the log.
    pub open spec fn with_log(self, line: LogModel) -> HudModel {
        HudModel { logs: self.logs.push(line), ..self }
    }

    /// The store after a change of phase.
    pub open spec fn with_phase(
        self,
        workspace: Seq<char>,
        status: StatusModel,
    ) -> HudModel {
        self.put(workspace, status).with_event(
            EventModel::PhaseChanged { workspace, phase_label: phase_label(status.phase) },
        )
    }

    /// The store after a change of a capability.
    pub open spec fn with_capability(
        self,
        workspace: Seq<char>,
        capabilities: DevContainerCapabilities,
        capability: Seq<char>,
        value: bool,
    ) -> HudModel {
        self.put(workspace, StatusModel { capabilities, ..self.entry(workspace) }).with_event(
            EventModel::CapabilityUpdated { workspace, capability, value },
        ).with_log(capability_log(workspace, capability, value))
    }

    /// The store after preflight started at `at`.
    pub open spec fn preflight_started(
        self,
        workspace: Seq<char>,
        project_name: Seq<char>,
        at: Instant,
    ) -> HudModel {
        self.with_phase(
            workspace,
            StatusModel {
                project_name,
                phase: PhaseModel::Preflight { started_at: at },
                ..self.entry(workspace)
            },
        ).with_log(
            LogModel::Info(log_head(workspace) + " phase=Preflight project="@ + project_name),
        )
    }

    /// The store after progress of a build at `at`: a build that goes on keeps its start.
    pub open spec fn build_progress(
        self,
        workspace: Seq<char>,
        progress: u8,
        message: Seq<char>,
        at: Instant,
    ) -> HudModel {
        let started_at = match self.entry(workspace).phase {
            PhaseModel::Building { started_at, .. } => started_at,
            _ => at,
        };
        self.with_phase(
            workspace,
            StatusModel {
                phase: PhaseModel::Building { started_at, progress, message },
                ..self.entry(workspace)
            },
        ).with_log(
            LogModel::Info(
                log_head(workspace) + " phase=Building progress="@ + text::decimal_text(
                    progress as nat,
                ) + " message=\""@ + message + "\""@,
            ),
        )
    }

    /// The store after a container started at `at`: nothing is known to work in it yet.
    pub open spec fn container_started(
        self,
        workspace: Seq<char>,
        container_id: Seq<char>,
        at: Instant,
    ) -> HudModel {
        self.with_phase(
            workspace,
            StatusModel {
                phase: PhaseModel::Running { started_at: at },
                container_id: Some(container_id),
                capabilities: no_capabilities(),
                ..self.entry(workspace)
            },
        ).with_log(
            LogModel::Info(log_head(workspace) + " phase=Running container_id="@ + container_id),
        )
    }

    /// The store after an error at `at`.
    pub open spec fn error(self, workspace: Seq<char>, message: Seq<char>, at: Instant) -> HudModel {
        self.with_phase(
            workspace,
            StatusModel { phase: PhaseModel::Error { at, message }, ..self.entry(workspace) },
        ).with_log(
            LogModel::Error(log_head(workspace) + " phase=Error message=\""@ + message + "\""@),
        )
    }

    /// The store after a test of the terminal.
    pub open spec fn terminal_result(self, workspace: Seq<char>, ok: bool) -> HudModel {
        self.with_capability(
            workspace,
            DevContainerCapabilities { terminal_ok: ok, ..self.entry(workspace).capabilities },
            "terminal"@,
            ok,
        )
    }

    /// The store after a test of `rust-analyzer`.
    pub open spec fn lsp_rust_result(self, workspace: Seq<char>, ok: bool) -> HudModel {
        self.with_capability(
            workspace,
            DevContainerCapabilities { lsp_rust_ok: ok, ..self.entry(workspace).capabilities },
            "lsp_rust"@,
            ok,
        )
    }

    /// The store after a test of `pyright`.
    pub open spec fn lsp_python_result(self, workspace: Seq<char>, ok: bool) -> HudModel {
        self.with_capability(
            workspace,
            DevContainerCapabilities { lsp_python_ok: ok, ..self.entry(workspace).capabilities },
            "lsp_python"@,
            ok,
        )
    }

    /// The store without a workspace.
    pub open spec fn removed(self, workspace: Seq<char>) -> HudModel {
        if self.tracks(workspace) {
            HudModel {
                statuses: self.statuses.remove(
                    position(self.platform, self.statuses, workspace),
                ),
                ..self
            }.with_log(LogModel::Info(log_head(workspace) + " removed from tracking"@))
        } else {
            self
        }
    }
}

/// What `position` returns: no state of the workspace before it, and one at it unless it is the
/// number of states.
pub proof fn lemma_position(
    platform: Platform,
    statuses: Seq<StatusModel>,
    workspace: Seq<char>,
)
    ensures
        0 <= position(platform, statuses, workspace) <= statuses.len(),
        forall|i: int|
            0 <= i < position(platform, statuses, workspace) ==> !path::same_path_text(
                platform,
                (#[trigger] statuses[i]).workspace_root,
                workspace,
            ),
        position(platform, statuses, workspace) < statuses.len() ==> path::same_path_text(
            platform,
            statuses[position(platform, statuses, workspace)].workspace_root,
            workspace,
        ),
    decreases statuses.len(),
{
    if statuses.len() > 0 && !path::same_path_text(platform, statuses[0].workspace_root, workspace) {
        let rest = statuses.skip(1);
        lemma_position(platform, rest, workspace);
        assert forall|i: int| 0 <= i < position(platform, statuses, workspace) implies !path::same_path_text(
            platform,
            (#[trigger] statuses[i]).workspace_root,
            workspace,
        ) by {
            if i > 0 {
                assert(statuses[i] == rest[i - 1]);
            }
        }
    }
}

/// A position with these two properties is the one that `position` returns.
proof fn lemma_position_is(
    platform: Platform,
    statuses: Seq<StatusModel>,
    workspace: Seq<char>,
    at: int,
)
    requires
        0 <= at <= statuses.len(),
        forall|i: int|
            0 <= i < at ==> !path::same_path_text(
                platform,
                (#[trigger] statuses[i]).workspace_root,
                workspace,
            ),
        at < statuses.len() ==> path::same_path_text(platform, statuses[at].workspace_root, workspace),
    ensures
        position(platform, statuses, workspace) == at,
{
    lemma_position(platform, statuses, workspace);
    let found = position(platform, statuses, workspace);
    if found < at {
        assert(!path::same_path_text(platform, statuses[found].workspace_root, workspace));
    }
    if at < found {
        assert(!path::same_path_text(platform, statuses[at].workspace_root, workspace));
    }
}

/// A state of a workspace in its place keeps the store well formed.
proof fn lemma_put_well_formed(hud: HudModel, workspace: Seq<char>, status: StatusModel)
    requires
        hud.well_formed(),
        path::same_path_text(hud.platform, status.workspace_root, workspace),
    ensures
        hud.put(workspace, status).well_formed(),
{
    lemma_position(hud.platform, hud.statuses, workspace);
    let after = hud.put(workspace, status).statuses;
    let at = position(hud.platform, hud.statuses, workspace);
    assert forall|i: int, j: int| 0 <= i < j < after.len() implies !path::same_path_text(
        hud.platform,
        (#[trigger] after[i]).workspace_root,
        (#[trigger] after[j]).workspace_root,
    ) by {
        if i < hud.statuses.len() && j < hud.statuses.len() {
            assert(!path::same_path_text(
                hud.platform,
                hud.statuses[i].workspace_root,
                hud.statuses[j].workspace_root,
            ));
        }
    }
}

/// The entry of a workspace is a state of that workspace.
proof fn lemma_entry_root(hud: HudModel, workspace: Seq<char>)
    ensures
        path::same_path_text(hud.platform, hud.entry(workspace).workspace_root, workspace),
{
    lemma_position(hud.platform, hud.statuses, workspace);
}

/// The state of every tracked workspace, the changes that were not read yet, and the lines that were
/// not logged yet.
pub struct DevContainerHud {
    platform: Platform,
    workspaces: Vec<DevContainerStatus>,
    pending_events: Vec<DevContainerHudEvent>,
    pending_logs: Vec<LogLine>,
}

impl View for DevContainerHud {
    type V = HudModel;

    closed spec fn view(&self) -> HudModel {
        HudModel {
            platform: self.platform,
            statuses: status_models(self.workspaces@),
            events: event_models(self.pending_events@),
            logs: log_models(self.pending_logs@),
        }
    }
}

impl DevContainerHud {
    /// A store that tracks nothing and reads paths as the machine does that the program runs on.
    pub fn new() -> (r: Self)
        ensures
            r@ == HudModel::empty(r@.platform),
            r@.well_formed(),
    {
        DevContainerHud::with_platform(platform::here())
    }

    /// A store that tracks nothing and reads paths as a platform does.
    pub fn with_platform(platform: Platform) -> (r: Self)
        ensures
            r@ == HudModel::empty(platform),
            r@.well_formed(),
    {
        let r = DevContainerHud {
            platform,
            workspaces: Vec::new(),
            pending_events: Vec::new(),
            pending_logs: Vec::new(),
        };
        assert(r@ =~= HudModel::empty(platform));
        r
    }

    /// How the store reads paths.
    pub fn platform(&self) -> (r: Platform)
        ensures
            r == self@.platform,
    {
        self.platform
    }

    /// The position of the state of a workspace, or the number of states.
    fn find(&self, workspace: &str) -> (at: usize)
        ensures
            at == position(self@.platform, self@.statuses, workspace@),
            at <= self.workspaces@.len(),
    {
        let mut at: usize = 0;
        while at < self.workspaces.len()
            invariant
                at <= self.workspaces@.len(),
                forall|i: int|
                    0 <= i < at ==> !path::same_path_text(
                        self.platform,
                        (#[trigger] self@.statuses[i]).workspace_root,
                        workspace@,
                    ),
            decreases self.workspaces@.len() - at,
        {
            if path::same_path(
                self.platform,
                self.workspaces[at].workspace_root.as_str(),
                workspace,
            ) {
                assert(self@.statuses[at as int] == self.workspaces@[at as int]@);
                proof {
                    lemma_position_is(self.platform, self@.statuses, workspace@, at as int);
                }
                return at;
            }
            at = at + 1;
        }
        proof {
            lemma_position_is(self.platform, self@.statuses, workspace@, at as int);
        }
        at
    }

    /// The state of a workspace.
    pub fn status(&self, workspace: &str) -> (r: Option<&DevContainerStatus>)
        ensures
            match r {
                Some(status) => self@.status_of(workspace@) == Some(status@),
                None => self@.status_of(workspace@) is None,
            },
    {
        let at = self.find(workspace);
        if at < self.workspaces.len() {
            assert(self@.statuses[at as int] == self.workspaces@[at as int]@);
            Some(&self.workspaces[at])
        } else {
            None
        }
    }

    /// The states of all tracked workspaces.
    pub fn all_statuses(&self) -> (r: &Vec<DevContainerStatus>)
        ensures
            status_models(r@) == self@.statuses,
    {
        &self.workspaces
    }

    /// The state of a workspace, made fresh where it is not tracked.
    fn get_or_create(&mut self, workspace: &str) -> (status: &mut DevContainerStatus)
        ensures
            status@ == old(self)@.entry(workspace@),
            final(self)@ == old(self)@.put(workspace@, final(status)@),
    {
        let at = self.find(workspace);
        if at == self.workspaces.len() {
            self.workspaces.push(
                DevContainerStatus {
                    workspace_root: workspace.to_owned(),
                    project_name: path::project_name(self.platform, workspace),
                    container_id: None,
                    phase: DevContainerPhase::Idle,
                    capabilities: DevContainerCapabilities::default(),
                },
            );
        }
        &mut self.workspaces[at]
    }

    /// Hands out the changes that were not read yet.
    pub fn drain_events(&mut self) -> (r: Vec<DevContainerHudEvent>)
        ensures
            event_models(r@) == old(self)@.events,
            final(self)@ == (HudModel { events: seq![], ..old(self)@ }),
    {
        let mut events: Vec<DevContainerHudEvent> = Vec::new();
        std::mem::swap(&mut events, &mut self.pending_events);
        assert(self@.events =~= seq![]);
        events
    }

    /// Hands out the lines that were not logged yet.
    pub fn drain_logs(&mut self) -> (r: Vec<LogLine>)
        ensures
            log_models(r@) == old(self)@.logs,
            final(self)@ == (HudModel { logs: seq![], ..old(self)@ }),
    {
        let mut logs: Vec<LogLine> = Vec::new();
        std::mem::swap(&mut logs, &mut self.pending_logs);
        assert(self@.logs =~= seq![]);
        logs
    }

    /// Stops tracking a workspace.
    pub fn remove_workspace(&mut self, workspace: &str)
        ensures
            final(self)@ == old(self)@.removed(workspace@),
            old(self)@.well_formed() ==> final(self)@.well_formed(),
    {
        let at = self.find(workspace);
        if at < self.workspaces.len() {
            self.workspaces.remove(at);
            assert(self@.statuses =~= old(self)@.statuses.remove(at as int));
            self.push_log(
                LogLine::Info(log_start(workspace).concat(" removed from tracking")),
            );
        }
        proof {
            if old(self)@.well_formed() {
                law_every_change_keeps_workspaces_apart(
                    old(self)@,
                    workspace@,
                    fresh_status(old(self)@.platform, workspace@),
                );
            }
        }
    }

    /// Keeps a line for the log.
    fn push_log(&mut self, line: LogLine)
        ensures
            final(self)@ == old(self)@.with_log(line@),
    {
        self.pending_logs.push(line);
        assert(self@ =~= old(self)@.with_log(line@));
    }

    /// Tells the listener of a phase.
    fn push_phase_event(&mut self, workspace: &str, label: &str)
        ensures
            final(self)@ == old(self)@.with_event(
                EventModel::PhaseChanged { workspace: workspace@, phase_label: label@ },
            ),
    {
        self.pending_events.push(
            DevContainerHudEvent::PhaseChanged {
                workspace: workspace.to_owned(),
                phase_label: label.to_owned(),
            },
        );
        assert(self@ =~= old(self)@.with_event(
            EventModel::PhaseChanged { workspace: workspace@, phase_label: label@ },
        ));
    }

    /// Tells the listener of a capability, and keeps a line for the log.
    fn push_capability_event(&mut self, workspace: &str, capability: &str, value: bool)
        ensures
            final(self)@ == old(self)@.with_event(
                EventModel::CapabilityUpdated {
                    workspace: workspace@,
                    capability: capability@,
                    value,
                },
            ).with_log(capability_log(workspace@, capability@, value)),
    {
        self.pending_events.push(
            DevContainerHudEvent::CapabilityUpdated {
                workspace: workspace.to_owned(),
                capability: capability.to_owned(),
                value,
            },
        );
        assert(self@ =~= old(self)@.with_event(
            EventModel::CapabilityUpdated { workspace: workspace@, capability: capability@, value },
        ));
        let word = if value {
            "true"
        } else {
            "false"
        };
        self.push_log(
            LogLine::Info(
                log_start(workspace).concat(" capability=").concat(capability).concat(
                    " ok=",
                ).concat(word),
            ),
        );
    }

    /// Preflight of a workspace starts now.
    pub fn on_preflight_started(&mut self, workspace: String, project_name: String)
        ensures
            old(self)@.well_formed() ==> final(self)@.well_formed(),
            exists|at: Instant|
                final(self)@ == #[trigger] old(self)@.preflight_started(
                    workspace@,
                    project_name@,
                    at,
                ),
    {
        let at = now();
        self.preflight_started_at(workspace, project_name, at);
    }

    /// Preflight of a workspace starts at `at`.
    pub fn preflight_started_at(&mut self, workspace: String, project_name: String, at: Instant)
        ensures
            old(self)@.well_formed() ==> final(self)@.well_formed(),
            final(self)@ == old(self)@.preflight_started(workspace@, project_name@, at),
    {
        proof {
            lemma_entry_change(self@, workspace@);
        }
        let line = log_start(workspace.as_str()).concat(" phase=Preflight project=").concat(
            project_name.as_str(),
        );
        let status = self.get_or_create(workspace.as_str());
        status.project_name = project_name;
        status.phase = DevContainerPhase::Preflight { started_at: at };
        self.push_phase_event(workspace.as_str(), "Preflight");
        self.push_log(LogLine::Info(line));
    }

    /// The build of a workspace goes on now.
    pub fn on_build_progress(&mut self, workspace: &str, progress: u8, message: String)
        ensures
            old(self)@.well_formed() ==> final(self)@.well_formed(),
            exists|at: Instant|
                final(self)@ == #[trigger] old(self)@.build_progress(
                    workspace@,
                    progress,
                    message@,
                    at,
                ),
    {
        let at = now();
        self.build_progress_at(workspace, progress, message, at);
    }

    /// The build of a workspace goes on at `at`.
    pub fn build_progress_at(&mut self, workspace: &str, progress: u8, message: String, at: Instant)
        ensures
            old(self)@.well_formed() ==> final(self)@.well_formed(),
            final(self)@ == old(self)@.build_progress(workspace@, progress, message@, at),
    {
        proof {
            lemma_entry_change(self@, workspace@);
        }
        let line = log_start(workspace).concat(" phase=Building progress=").concat(
            text::decimal(progress as u64).as_str(),
        ).concat(" message=\"").concat(message.as_str()).concat("\"");
        let status = self.get_or_create(workspace);
        let started_at = match &status.phase {
            DevContainerPhase::Building { started_at, .. } => *started_at,
            _ => at,
        };
        status.phase = DevContainerPhase::Building { started_at, progress, message };
        self.push_phase_event(workspace, "Building");
        self.push_log(LogLine::Info(line));
    }

    /// The container of a workspace runs from now on.
    pub fn on_container_started(&mut self, workspace: &str, container_id: String)
        ensures
            old(self)@.well_formed() ==> final(self)@.well_formed(),
            exists|at: Instant|
                final(self)@ == #[trigger] old(self)@.container_started(
                    workspace@,
                    container_id@,
                    at,
                ),
    {
        let at = now();
        self.container_started_at(workspace, container_id, at);
    }

    /// The container of a workspace runs from `at` on.
    pub fn container_started_at(&mut self, workspace: &str, container_id: String, at: Instant)
        ensures
            old(self)@.well_formed() ==> final(self)@.well_formed(),
            final(self)@ == old(self)@.container_started(workspace@, container_id@, at),
    {
        proof {
            lemma_entry_change(self@, workspace@);
        }
        let line = log_start(workspace).concat(" phase=Running container_id=").concat(
            container_id.as_str(),
        );
        let status = self.get_or_create(workspace);
        status.phase = DevContainerPhase::Running { started_at: at };
        status.container_id = Some(container_id);
        status.capabilities = DevContainerCapabilities::default();
        self.push_phase_event(workspace, "Running");
        self.push_log(LogLine::Info(line));
    }

    /// The terminal was tested.
    pub fn on_terminal_smoke_result(&mut self, workspace: &str, ok: bool)
        ensures
            old(self)@.well_formed() ==> final(self)@.well_formed(),
            final(self)@ == old(self)@.terminal_result(workspace@, ok),
    {
        proof {
            lemma_entry_change(self@, workspace@);
        }
        let status = self.get_or_create(workspace);
        status.capabilities.terminal_ok = ok;
        self.push_capability_event(workspace, "terminal", ok);
    }

    /// `rust-analyzer` was tested.
    pub fn on_lsp_rust_result(&mut self, workspace: &str, ok: bool)
        ensures
            old(self)@.well_formed() ==> final(self)@.well_formed(),
            final(self)@ == old(self)@.lsp_rust_result(workspace@, ok),
    {
        proof {
            lemma_entry_change(self@, workspace@);
        }
        let status = self.get_or_create(workspace);
        status.capabilities.lsp_rust_ok = ok;
        self.push_capability_event(workspace, "lsp_rust", ok);
    }

    /// `pyright` was tested.
    pub fn on_lsp_python_result(&mut self, workspace: &str, ok: bool)
        ensures
            old(self)@.well_formed() ==> final(self)@.well_formed(),
            final(self)@ == old(self)@.lsp_python_result(workspace@, ok),
    {
        proof {
            lemma_entry_change(self@, workspace@);
        }
        let status = self.get_or_create(workspace);
        status.capabilities.lsp_python_ok = ok;
        self.push_capability_event(workspace, "lsp_python", ok);
    }

    /// A workspace fails now.
    pub fn on_error(&mut self, workspace: &str, message: String)
        ensures
            old(self)@.well_formed() ==> final(self)@.well_formed(),
            exists|at: Instant|
                final(self)@ == #[trigger] old(self)@.error(workspace@, message@, at),
    {
        let at = now();
        self.error_at(workspace, message, at);
    }

    /// A workspace fails at `at`.
    pub fn error_at(&mut self, workspace: &str, message: String, at: Instant)
        ensures
            old(self)@.well_formed() ==> final(self)@.well_formed(),
            final(self)@ == old(self)@.error(workspace@, message@, at),
    {
        proof {
            lemma_entry_change(self@, workspace@);
        }
        let line = log_start(workspace).concat(" phase=Error message=\"").concat(
            message.as_str(),
        ).concat("\"");
        let status = self.get_or_create(workspace);
        status.phase = DevContainerPhase::Error { at, message };
        self.push_phase_event(workspace, "Error");
        self.push_log(LogLine::Error(line));
    }
}

/// Any change of the state of a workspace that keeps its root keeps the store well formed.
proof fn lemma_entry_change(hud: HudModel, workspace: Seq<char>)
    ensures
        hud.well_formed() ==> forall|status: StatusModel|
            status.workspace_root == hud.entry(workspace).workspace_root ==> (#[trigger] hud.put(
                workspace,
                status,
            )).well_formed(),
{
    lemma_entry_root(hud, workspace);
    if hud.well_formed() {
        assert forall|status: StatusModel|
            status.workspace_root == hud.entry(workspace).workspace_root implies (
        #[trigger] hud.put(workspace, status)).well_formed() by {
            lemma_put_well_formed(hud, workspace, status);
        }
    }
}

/// No change lets two states share a workspace: not a state that is put in its place, and not the
/// removal of one.
pub proof fn law_every_change_keeps_workspaces_apart(
    hud: HudModel,
    workspace: Seq<char>,
    status: StatusModel,
)
    requires
        hud.well_formed(),
        path::same_path_text(hud.platform, status.workspace_root, workspace),
    ensures
        hud.put(workspace, status).well_formed(),
        hud.removed(workspace).well_formed(),
{
    lemma_put_well_formed(hud, workspace, status);
    lemma_position(hud.platform, hud.statuses, workspace);
    let at = position(hud.platform, hud.statuses, workspace);
    let after = hud.removed(workspace).statuses;
    assert forall|i: int, j: int| 0 <= i < j < after.len() implies !path::same_path_text(
        hud.platform,
        (#[trigger] after[i]).workspace_root,
        (#[trigger] after[j]).workspace_root,
    ) by {
        let before_i = if hud.tracks(workspace) && i >= at {
            i + 1
        } else {
            i
        };
        let before_j = if hud.tracks(workspace) && j >= at {
            j + 1
        } else {
            j
        };
        assert(after[i] == hud.statuses[before_i]);
        assert(after[j] == hud.statuses[before_j]);
    }
}

/// The text of one row: the path, the phase, the container and the three capabilities.
pub open spec fn row_text(
    workspace: Seq<char>,
    phase: Seq<char>,
    container: Seq<char>,
    terminal: Seq<char>,
    rust: Seq<char>,
    python: Seq<char>,
) -> Seq<char> {
    text::padded(workspace, 40) + " "@ + text::padded(phase, 12) + " "@ + text::padded(container, 14)
        + " "@ + text::padded(terminal, 5) + " "@ + text::padded(rust, 5) + " "@ + text::padded(
        python,
        5,
    )
}

fn row(
    workspace: &str,
    phase: &str,
    container: &str,
    terminal: &str,
    rust: &str,
    python: &str,
) -> (r: String)
    ensures
        r@ == row_text(workspace@, phase@, container@, terminal@, rust@, python@),
{
    text::pad(workspace, 40).concat(" ").concat(text::pad(phase, 12).as_str()).concat(" ").concat(
        text::pad(container, 14).as_str(),
    ).concat(" ").concat(text::pad(terminal, 5).as_str()).concat(" ").concat(
        text::pad(rust, 5).as_str(),
    ).concat(" ").concat(text::pad(python, 5).as_str())
}

/// What stands for a container: the start of its id, or a dash.
pub open spec fn container_text(container_id: Option<Seq<char>>) -> Seq<char> {
    match container_id {
        Some(id) => text::short_id_text(id),
        None => "\u{2014}"@,
    }
}

/// What stands for a capability: that it works, or a dash.
pub open spec fn capability_text(ok: bool) -> Seq<char> {
    if ok {
        "OK"@
    } else {
        "\u{2014}"@
    }
}

fn capability(ok: bool) -> (r: &'static str)
    ensures
        r@ == capability_text(ok),
{
    if ok {
        "OK"
    } else {
        "\u{2014}"
    }
}

/// The row of a state.
pub open spec fn status_row(status: StatusModel) -> Seq<char> {
    row_text(
        status.workspace_root,
        phase_label(status.phase),
        container_text(status.container_id),
        capability_text(status.capabilities.terminal_ok),
        capability_text(status.capabilities.lsp_rust_ok),
        capability_text(status.capabilities.lsp_python_ok),
    )
}

/// The rows of a list of states.
pub open spec fn status_rows(statuses: Seq<StatusModel>) -> Seq<Seq<char>> {
    statuses.map_values(|s: StatusModel| status_row(s))
}

/// Whether every container in a list of states can be shown by the start of its id.
pub open spec fn showable(statuses: Seq<StatusModel>) -> bool {
    forall|i: int|
        0 <= i < statuses.len() && (#[trigger] statuses[i]).container_id is Some
            ==> text::has_short_id(statuses[i].container_id->Some_0)
}

/// The table of a list of states.
pub open spec fn status_table(statuses: Seq<StatusModel>) -> Seq<char> {
    if statuses.len() == 0 {
        "No tracked workspaces."@
    } else {
        text::join_texts(
            seq![
                row_text("Workspace"@, "Phase"@, "Container"@, "Term"@, "Rust"@, "Py"@),
                text::repeated('-', 85),
            ] + status_rows(statuses),
            "\n"@,
        )
    }
}

/// A phase as JSON: its name, and for a build and an error what is known of it.
pub open spec fn phase_json(phase: PhaseModel) -> Json {
    match phase {
        PhaseModel::Building { progress, message, .. } => Json::Object(
            seq![
                ("phase"@, Json::Text(phase_label(phase))),
                ("progress"@, Json::Unsigned(progress as nat)),
                ("message"@, Json::Text(message)),
            ],
        ),
        PhaseModel::Error { message, .. } => Json::Object(
            seq![("phase"@, Json::Text(phase_label(phase))), ("message"@, Json::Text(message))],
        ),
        _ => Json::Object(seq![("phase"@, Json::Text(phase_label(phase)))]),
    }
}

/// Capabilities as JSON.
pub open spec fn capabilities_json(capabilities: DevContainerCapabilities) -> Json {
    Json::Object(
        seq![
            ("terminal_ok"@, Json::Bool(capabilities.terminal_ok)),
            ("lsp_rust_ok"@, Json::Bool(capabilities.lsp_rust_ok)),
            ("lsp_python_ok"@, Json::Bool(capabilities.lsp_python_ok)),
        ],
    )
}

/// A state as JSON.
pub open spec fn status_json(status: StatusModel) -> Json {
    Json::Object(
        seq![
            ("workspace_root"@, Json::Text(status.workspace_root)),
            ("project_name"@, Json::Text(status.project_name)),
            ("container_id"@, json::text_or_null(status.container_id)),
            ("phase"@, phase_json(status.phase)),
            ("capabilities"@, capabilities_json(status.capabilities)),
        ],
    )
}

/// A list of states as JSON.
pub open spec fn statuses_json(statuses: Seq<StatusModel>) -> Json {
    Json::Array(statuses.map_values(|s: StatusModel| status_json(s)))
}

impl DevContainerPhase {
    /// The phase as JSON.
    pub fn to_json(&self) -> (r: Value)
        ensures
            json::json_of(r) == phase_json(self@),
    {
        let mut members = vec![json::member("phase", json::string(self.label()))];
        match self {
            DevContainerPhase::Building { progress, message, .. } => {
                members.push(json::member("progress", json::unsigned(*progress as u64)));
                members.push(json::member("message", json::string(message.as_str())));
            },
            DevContainerPhase::Error { message, .. } => {
                members.push(json::member("message", json::string(message.as_str())));
            },
            _ => {},
        }
        proof {
            json::lemma_keys();
            assert(json::members_of(members@) =~= phase_json(self@)->Object_0);
        }
        json::object(members)
    }
}

impl DevContainerCapabilities {
    /// The capabilities as JSON.
    pub fn to_json(&self) -> (r: Value)
        ensures
            json::json_of(r) == capabilities_json(*self),
    {
        let members = vec![
            json::member("terminal_ok", json::boolean(self.terminal_ok)),
            json::member("lsp_rust_ok", json::boolean(self.lsp_rust_ok)),
            json::member("lsp_python_ok", json::boolean(self.lsp_python_ok)),
        ];
        proof {
            json::lemma_keys();
            assert(json::members_of(members@) =~= capabilities_json(*self)->Object_0);
        }
        json::object(members)
    }
}

impl DevContainerStatus {
    /// The state as JSON.
    pub fn to_json(&self) -> (r: Value)
        ensures
            json::json_of(r) == status_json(self@),
    {
        let members = vec![
            json::member("workspace_root", json::string(self.workspace_root.as_str())),
            json::member("project_name", json::string(self.project_name.as_str())),
            json::member("container_id", json::string_or_null(&self.container_id)),
            json::member("phase", self.phase.to_json()),
            json::member("capabilities", self.capabilities.to_json()),
        ];
        proof {
            json::lemma_keys();
            assert(json::members_of(members@) =~= status_json(self@)->Object_0);
        }
        json::object(members)
    }
}

impl DevContainerHud {
    /// A table of all tracked workspaces.
    pub fn format_status_table(&self) -> (r: String)
        requires
            showable(self@.statuses),
        ensures
            r@ == status_table(self@.statuses),
    {
        if self.workspaces.len() == 0 {
            return "No tracked workspaces.".to_owned();
        }
        let mut lines = vec![
            row("Workspace", "Phase", "Container", "Term", "Rust", "Py"),
            text::repeat('-', 85),
        ];
        let ghost head = text::texts(lines@);
        let ghost all = self@.statuses;
        let mut i: usize = 0;
        assert(text::texts(lines@) =~= head + status_rows(all.take(0)));
        while i < self.workspaces.len()
            invariant
                i <= self.workspaces@.len(),
                all == self@.statuses,
                showable(all),
                text::texts(lines@) == head + status_rows(all.take(i as int)),
            decreases self.workspaces@.len() - i,
        {
            let status = &self.workspaces[i];
            assert(all[i as int] == status@);
            let ghost before = text::texts(lines@);
            let container = match &status.container_id {
                Some(id) => text::short_id(id.as_str()),
                None => "\u{2014}",
            };
            lines.push(
                row(
                    status.workspace_root.as_str(),
                    status.phase.label(),
                    container,
                    capability(status.capabilities.terminal_ok),
                    capability(status.capabilities.lsp_rust_ok),
                    capability(status.capabilities.lsp_python_ok),
                ),
            );
            assert(text::texts(lines@) =~= before.push(status_row(all[i as int])));
            assert(status_rows(all.take(i + 1)) =~= status_rows(all.take(i as int)).push(
                status_row(all[i as int]),
            ));
            i = i + 1;
        }
        proof {
            assert(all.take(i as int) =~= all);
            assert(text::texts(lines@) =~= seq![
                row_text("Workspace"@, "Phase"@, "Container"@, "Term"@, "Rust"@, "Py"@),
                text::repeated('-', 85),
            ] + status_rows(all));
        }
        text::join(&lines, "\n")
    }

    /// All tracked workspaces as pretty-printed JSON.
    pub fn format_status_json(&self) -> (r: Result<String, serde_json::Error>)
        ensures
            r is Ok,
            r->Ok_0@ == json::pretty_text(statuses_json(self@.statuses)),
    {
        let mut values: Vec<Value> = Vec::new();
        let ghost all = self@.statuses;
        let mut i: usize = 0;
        while i < self.workspaces.len()
            invariant
                i <= self.workspaces@.len(),
                all == self@.statuses,
                json::jsons(values@) == all.take(i as int).map_values(
                    |s: StatusModel| status_json(s),
                ),
            decreases self.workspaces@.len() - i,
        {
            let ghost before = json::jsons(values@);
            values.push(self.workspaces[i].to_json());
            assert(json::jsons(values@) =~= before.push(status_json(all[i as int])));
            assert(all.take(i + 1).map_values(|s: StatusModel| status_json(s)) =~= all.take(
                i as int,
            ).map_values(|s: StatusModel| status_json(s)).push(status_json(all[i as int])));
            i = i + 1;
        }
        assert(all.take(i as int) =~= all);
        json::to_pretty(&json::array(values))
    }
}

/// A change of one workspace leaves the state of every other as it was.
pub proof fn law_workspaces_are_independent(
    hud: HudModel,
    workspace: Seq<char>,
    other: Seq<char>,
    status: StatusModel,
)
    requires
        hud.well_formed(),
        path::same_path_text(hud.platform, status.workspace_root, workspace),
        !path::same_path_text(hud.platform, other, workspace),
    ensures
        hud.put(workspace, status).status_of(other) == hud.status_of(other),
        hud.removed(workspace).status_of(other) == hud.status_of(other),
{
    lemma_position(hud.platform, hud.statuses, workspace);
    lemma_position(hud.platform, hud.statuses, other);
    let at = position(hud.platform, hud.statuses, workspace);
    let found = position(hud.platform, hud.statuses, other);
    let put = hud.put(workspace, status).statuses;
    let put_at = if hud.tracks(other) {
        found
    } else {
        put.len() as int
    };
    assert forall|i: int| 0 <= i < put_at implies !path::same_path_text(
        hud.platform,
        (#[trigger] put[i]).workspace_root,
        other,
    ) by {
        if i < hud.statuses.len() && i != at {
            assert(put[i] == hud.statuses[i]);
        }
    }
    lemma_position_is(hud.platform, put, other, put_at);
    if hud.tracks(workspace) {
        let removed = hud.removed(workspace).statuses;
        let removed_at = if found > at {
            found - 1
        } else {
            found
        };
        assert forall|i: int| 0 <= i < removed_at implies !path::same_path_text(
            hud.platform,
            (#[trigger] removed[i]).workspace_root,
            other,
        ) by {
            if i < at {
                assert(removed[i] == hud.statuses[i]);
            } else {
                assert(removed[i] == hud.statuses[i + 1]);
            }
        }
        lemma_position_is(hud.platform, removed, other, removed_at);
    }
}

/// A state that was put in its place is the state of the workspace, under whatever spelling of
/// its path.
pub proof fn law_put_is_read_back(hud: HudModel, workspace: Seq<char>, status: StatusModel)
    requires
        path::same_path_text(hud.platform, status.workspace_root, workspace),
    ensures
        forall|spelling: Seq<char>|
            path::same_path_text(hud.platform, spelling, workspace) ==> #[trigger] hud.put(
                workspace,
                status,
            ).status_of(spelling) == Some(status),
{
    lemma_position(hud.platform, hud.statuses, workspace);
    let put = hud.put(workspace, status).statuses;
    assert forall|spelling: Seq<char>|
        path::same_path_text(hud.platform, spelling, workspace) implies #[trigger] hud.put(
        workspace,
        status,
    ).status_of(spelling) == Some(status) by {
        lemma_position_is(hud.platform, put, spelling, position(hud.platform, hud.statuses, workspace));
    }
}

/// A workspace that was removed is tracked no more.
pub proof fn law_removed_is_not_tracked(hud: HudModel, workspace: Seq<char>)
    requires
        hud.well_formed(),
    ensures
        hud.removed(workspace).status_of(workspace) is None,
        hud.removed(workspace).events == hud.events,
        hud.status_of(workspace) is None ==> hud.removed(workspace) == hud,
{
    lemma_position(hud.platform, hud.statuses, workspace);
    if hud.tracks(workspace) {
        let at = position(hud.platform, hud.statuses, workspace);
        let removed = hud.removed(workspace).statuses;
        assert forall|i: int| 0 <= i < removed.len() implies !path::same_path_text(
            hud.platform,
            (#[trigger] removed[i]).workspace_root,
            workspace,
        ) by {
            if i < at {
                assert(removed[i] == hud.statuses[i]);
            } else {
                assert(removed[i] == hud.statuses[i + 1]);
                assert(!path::same_path_text(
                    hud.platform,
                    hud.statuses[at].workspace_root,
                    hud.statuses[i + 1].workspace_root,
                ));
            }
        }
        lemma_position_is(hud.platform, removed, workspace, removed.len() as int);
    }
}

/// Every transition tells the listener once, with the new phase or the new capability.
pub proof fn law_every_transition_emits_one_event(
    hud: HudModel,
    workspace: Seq<char>,
    project_name: Seq<char>,
    progress: u8,
    message: Seq<char>,
    container_id: Seq<char>,
    ok: bool,
    at: Instant,
)
    ensures
        hud.preflight_started(workspace, project_name, at).events == hud.events.push(
            EventModel::PhaseChanged { workspace, phase_label: "Preflight"@ },
        ),
        hud.build_progress(workspace, progress, message, at).events == hud.events.push(
            EventModel::PhaseChanged { workspace, phase_label: "Building"@ },
        ),
        hud.container_started(workspace, container_id, at).events == hud.events.push(
            EventModel::PhaseChanged { workspace, phase_label: "Running"@ },
        ),
        hud.error(workspace, message, at).events == hud.events.push(
            EventModel::PhaseChanged { workspace, phase_label: "Error"@ },
        ),
        hud.terminal_result(workspace, ok).events == hud.events.push(
            EventModel::CapabilityUpdated { workspace, capability: "terminal"@, value: ok },
        ),
        hud.lsp_rust_result(workspace, ok).events == hud.events.push(
            EventModel::CapabilityUpdated { workspace, capability: "lsp_rust"@, value: ok },
        ),
        hud.lsp_python_result(workspace, ok).events == hud.events.push(
            EventModel::CapabilityUpdated { workspace, capability: "lsp_python"@, value: ok },
        ),
{
}

/// Every transition is logged once, with the workspace and what became of it; the removal of a
/// workspace is logged where it was tracked.
pub proof fn law_every_transition_is_logged(
    hud: HudModel,
    workspace: Seq<char>,
    project_name: Seq<char>,
    progress: u8,
    message: Seq<char>,
    container_id: Seq<char>,
    ok: bool,
    at: Instant,
)
    ensures
        hud.preflight_started(workspace, project_name, at).logs == hud.logs.push(
            LogModel::Info(
                "[HUD] workspace="@ + workspace + " phase=Preflight project="@ + project_name,
            ),
        ),
        hud.build_progress(workspace, progress, message, at).logs == hud.logs.push(
            LogModel::Info(
                "[HUD] workspace="@ + workspace + " phase=Building progress="@ + text::decimal_text(
                    progress as nat,
                ) + " message=\""@ + message + "\""@,
            ),
        ),
        hud.container_started(workspace, container_id, at).logs == hud.logs.push(
            LogModel::Info(
                "[HUD] workspace="@ + workspace + " phase=Running container_id="@ + container_id,
            ),
        ),
        hud.error(workspace, message, at).logs == hud.logs.push(
            LogModel::Error(
                "[HUD] workspace="@ + workspace + " phase=Error message=\""@ + message + "\""@,
            ),
        ),
        hud.terminal_result(workspace, ok).logs == hud.logs.push(
            capability_log(workspace, "terminal"@, ok),
        ),
        hud.lsp_rust_result(workspace, ok).logs == hud.logs.push(
            capability_log(workspace, "lsp_rust"@, ok),
        ),
        hud.lsp_python_result(workspace, ok).logs == hud.logs.push(
            capability_log(workspace, "lsp_python"@, ok),
        ),
        hud.removed(workspace).logs == if hud.tracks(workspace) {
            hud.logs.push(
                LogModel::Info("[HUD] workspace="@ + workspace + " removed from tracking"@),
            )
        } else {
            hud.logs
        },
{
}

/// No transition and no removal lets two states share a workspace.
pub proof fn law_transitions_keep_workspaces_apart(
    hud: HudModel,
    workspace: Seq<char>,
    project_name: Seq<char>,
    progress: u8,
    message: Seq<char>,
    container_id: Seq<char>,
    ok: bool,
    at: Instant,
)
    requires
        hud.well_formed(),
    ensures
        hud.preflight_started(workspace, project_name, at).well_formed(),
        hud.build_progress(workspace, progress, message, at).well_formed(),
        hud.container_started(workspace, container_id, at).well_formed(),
        hud.error(workspace, message, at).well_formed(),
        hud.terminal_result(workspace, ok).well_formed(),
        hud.lsp_rust_result(workspace, ok).well_formed(),
        hud.lsp_python_result(workspace, ok).well_formed(),
        hud.removed(workspace).well_formed(),
{
    lemma_entry_change(hud, workspace);
    law_every_change_keeps_workspaces_apart(hud, workspace, fresh_status(hud.platform, workspace));
}

/// Whatever was known to work in the container before, nothing is known to work in the one that
/// has started: a restart forgets the capabilities and takes the new container's id.
pub proof fn law_restart_resets_capabilities(
    hud: HudModel,
    workspace: Seq<char>,
    container_id: Seq<char>,
    at: Instant,
)
    ensures
        match hud.container_started(workspace, container_id, at).status_of(workspace) {
            Some(status) => {
                &&& status.capabilities == no_capabilities()
                &&& status.container_id == Some(container_id)
                &&& status.phase == PhaseModel::Running { started_at: at }
                &&& status.project_name == hud.entry(workspace).project_name
            },
            None => false,
        },
{
    let status = StatusModel {
        phase: PhaseModel::Running { started_at: at },
        container_id: Some(container_id),
        capabilities: no_capabilities(),
        ..hud.entry(workspace)
    };
    lemma_entry_root(hud, workspace);
    law_put_is_read_back(hud, workspace, status);
    assert(hud.put(workspace, status).status_of(workspace) == Some(status));
}

/// Progress of a build that goes on keeps the time at which it started.
pub proof fn law_build_keeps_its_start(
    hud: HudModel,
    workspace: Seq<char>,
    first: u8,
    first_message: Seq<char>,
    first_at: Instant,
    second: u8,
    second_message: Seq<char>,
    second_at: Instant,
)
    requires
        !(hud.entry(workspace).phase is Building),
    ensures
        hud.build_progress(workspace, first, first_message, first_at).build_progress(
            workspace,
            second,
            second_message,
            second_at,
        ).entry(workspace).phase == (PhaseModel::Building {
            started_at: first_at,
            progress: second,
            message: second_message,
        }),
{
    lemma_entry_root(hud, workspace);
    let one = StatusModel {
        phase: PhaseModel::Building {
            started_at: first_at,
            progress: first,
            message: first_message,
        },
        ..hud.entry(workspace)
    };
    law_put_is_read_back(hud, workspace, one);
    let middle = hud.build_progress(workspace, first, first_message, first_at);
    assert(hud.put(workspace, one).status_of(workspace) == Some(one));
    assert(middle.status_of(workspace) == Some(one));
    let two = StatusModel {
        phase: PhaseModel::Building {
            started_at: first_at,
            progress: second,
            message: second_message,
        },
        ..one
    };
    law_put_is_read_back(middle, workspace, two);
    assert(middle.put(workspace, two).status_of(workspace) == Some(two));
}

/// The result of a test changes the capability that was tested, and neither the phase, nor the
/// container, nor the other capabilities.
pub proof fn law_results_keep_the_phase(hud: HudModel, workspace: Seq<char>, ok: bool)
    ensures
        hud.terminal_result(workspace, ok).status_of(workspace) == Some(
            StatusModel {
                capabilities: DevContainerCapabilities {
                    terminal_ok: ok,
                    ..hud.entry(workspace).capabilities
                },
                ..hud.entry(workspace)
            },
        ),
        hud.lsp_rust_result(workspace, ok).status_of(workspace) == Some(
            StatusModel {
                capabilities: DevContainerCapabilities {
                    lsp_rust_ok: ok,
                    ..hud.entry(workspace).capabilities
                },
                ..hud.entry(workspace)
            },
        ),
        hud.lsp_python_result(workspace, ok).status_of(workspace) == Some(
            StatusModel {
                capabilities: DevContainerCapabilities {
                    lsp_python_ok: ok,
                    ..hud.entry(workspace).capabilities
                },
                ..hud.entry(workspace)
            },
        ),
{
    lemma_entry_root(hud, workspace);
    let entry = hud.entry(workspace);
    let terminal = StatusModel {
        capabilities: DevContainerCapabilities { terminal_ok: ok, ..entry.capabilities },
        ..entry
    };
    let rust = StatusModel {
        capabilities: DevContainerCapabilities { lsp_rust_ok: ok, ..entry.capabilities },
        ..entry
    };
    let python = StatusModel {
        capabilities: DevContainerCapabilities { lsp_python_ok: ok, ..entry.capabilities },
        ..entry
    };
    law_put_is_read_back(hud, workspace, terminal);
    law_put_is_read_back(hud, workspace, rust);
    law_put_is_read_back(hud, workspace, python);
    assert(hud.put(workspace, terminal).status_of(workspace) == Some(terminal));
    assert(hud.put(workspace, rust).status_of(workspace) == Some(rust));
    assert(hud.put(workspace, python).status_of(workspace) == Some(python));
}

/// The columns of the table: a row has the workspace, the phase, the container and the three
/// capabilities each where the head names it, so long as they fit. A mark is `OK` exactly where its
/// own capability works, and a dash else.
pub proof fn law_marks_stand_in_their_columns(status: StatusModel)
    requires
        status.workspace_root.len() <= 40,
        container_text(status.container_id).len() <= 14,
    ensures
        ({
            let head = row_text("Workspace"@, "Phase"@, "Container"@, "Term"@, "Rust"@, "Py"@);
            let row = status_row(status);
            let yes = "OK   "@;
            let no = "\u{2014}    "@;
            &&& head.len() == 86 && row.len() == 86
            &&& head.subrange(0, 9) == "Workspace"@ && head.subrange(41, 46) == "Phase"@
            &&& head.subrange(54, 63) == "Container"@
            &&& head.subrange(69, 73) == "Term"@
            &&& head.subrange(75, 79) == "Rust"@
            &&& head.subrange(81, 83) == "Py"@
            &&& row.subrange(0, status.workspace_root.len() as int) == status.workspace_root
            &&& row.subrange(41, 41int + phase_label(status.phase).len()) == phase_label(status.phase)
            &&& row.subrange(54, 54int + container_text(status.container_id).len()) == container_text(
                status.container_id,
            )
            &&& row.subrange(69, 74) == if status.capabilities.terminal_ok {
                yes
            } else {
                no
            }
            &&& row.subrange(75, 80) == if status.capabilities.lsp_rust_ok {
                yes
            } else {
                no
            }
            &&& row.subrange(81, 86) == if status.capabilities.lsp_python_ok {
                yes
            } else {
                no
            }
        }),
{
    lemma_header_columns();
    lemma_labels(status.phase);
    reveal_strlit("OK");
    reveal_strlit("\u{2014}");
    lemma_row_columns(
        status.workspace_root,
        phase_label(status.phase),
        container_text(status.container_id),
        capability_text(status.capabilities.terminal_ok),
        capability_text(status.capabilities.lsp_rust_ok),
        capability_text(status.capabilities.lsp_python_ok),
    );
    lemma_marks(status.capabilities.terminal_ok);
    lemma_marks(status.capabilities.lsp_rust_ok);
    lemma_marks(status.capabilities.lsp_python_ok);
}

/// A mark fills its column.
proof fn lemma_marks(ok: bool)
    ensures
        text::padded(capability_text(ok), 5) == if ok {
            "OK   "@
        } else {
            "\u{2014}    "@
        },
{
    reveal_strlit("OK");
    reveal_strlit("\u{2014}");
    reveal_strlit("OK   ");
    reveal_strlit("\u{2014}    ");
    assert(text::padded(capability_text(ok), 5) =~= if ok {
        "OK   "@
    } else {
        "\u{2014}    "@
    });
}

/// A phase has a name that fits its column.
pub(crate) proof fn lemma_labels(phase: PhaseModel)
    ensures
        phase_label(phase).len() <= 12,
        phase_label(phase).len() > 0,
{
    reveal_strlit("Idle");
    reveal_strlit("Preflight");
    reveal_strlit("Building");
    reveal_strlit("Running");
    reveal_strlit("Error");
}

/// The head of the table stands in the columns.
#[verifier::rlimit(50)]
proof fn lemma_header_columns()
    ensures
        ({
            let head = row_text("Workspace"@, "Phase"@, "Container"@, "Term"@, "Rust"@, "Py"@);
            &&& head.len() == 86
            &&& head.subrange(0, 9) == "Workspace"@ && head.subrange(41, 46) == "Phase"@
            &&& head.subrange(54, 63) == "Container"@
            &&& head.subrange(69, 73) == "Term"@
            &&& head.subrange(75, 79) == "Rust"@
            &&& head.subrange(81, 83) == "Py"@
        }),
{
    reveal_strlit("Workspace");
    reveal_strlit("Phase");
    reveal_strlit("Container");
    reveal_strlit("Term");
    reveal_strlit("Rust");
    reveal_strlit("Py");
    lemma_row_columns("Workspace"@, "Phase"@, "Container"@, "Term"@, "Rust"@, "Py"@);
    let head = row_text("Workspace"@, "Phase"@, "Container"@, "Term"@, "Rust"@, "Py"@);
    assert(head.subrange(69, 73) =~= head.subrange(69, 74).take(4));
    assert(head.subrange(75, 79) =~= head.subrange(75, 80).take(4));
    assert(head.subrange(81, 83) =~= head.subrange(81, 86).take(2));
    assert(text::padded("Term"@, 5).take(4) =~= "Term"@);
    assert(text::padded("Rust"@, 5).take(4) =~= "Rust"@);
    assert(text::padded("Py"@, 5).take(2) =~= "Py"@);
}

/// Where the columns of a row begin.
#[verifier::rlimit(50)]
proof fn lemma_row_columns(
    workspace: Seq<char>,
    phase: Seq<char>,
    container: Seq<char>,
    terminal: Seq<char>,
    rust: Seq<char>,
    python: Seq<char>,
)
    requires
        workspace.len() <= 40,
        phase.len() <= 12,
        container.len() <= 14,
        terminal.len() <= 5,
        rust.len() <= 5,
        python.len() <= 5,
    ensures
        ({
            let row = row_text(workspace, phase, container, terminal, rust, python);
            &&& row.len() == 86
            &&& row.subrange(0, workspace.len() as int) == workspace
            &&& row.subrange(41, 41int + phase.len()) == phase
            &&& row.subrange(54, 54int + container.len()) == container
            &&& row.subrange(69, 74) == text::padded(terminal, 5)
            &&& row.subrange(75, 80) == text::padded(rust, 5)
            &&& row.subrange(81, 86) == text::padded(python, 5)
        }),
{
    reveal_strlit(" ");
    let row = row_text(workspace, phase, container, terminal, rust, python);
    assert(row.subrange(0, workspace.len() as int) =~= workspace);
    assert(row.subrange(41, 41int + phase.len()) =~= phase);
    assert(row.subrange(54, 54int + container.len()) =~= container);
    assert(row.subrange(69, 74) =~= text::padded(terminal, 5));
    assert(row.subrange(75, 80) =~= text::padded(rust, 5));
    assert(row.subrange(81, 86) =~= text::padded(python, 5));
}

/// The table has its head, a line below it, and one row for each state, in order. A container is
/// shown by the start of its id, and by a dash where there is none.
pub proof fn law_table_lists_the_states(statuses: Seq<StatusModel>)
    requires
        statuses.len() > 0,
        forall|i: int| 0 <= i < statuses.len() ==> !(#[trigger] status_row(statuses[i])).contains('\n'),
    ensures
        ({
            let lines = text::split_text(status_table(statuses), '\n');
            &&& lines.len() == statuses.len() + 2
            &&& forall|i: int|
                0 <= i < statuses.len() ==> #[trigger] lines[i + 2] == status_row(statuses[i])
            &&& lines[0] == row_text("Workspace"@, "Phase"@, "Container"@, "Term"@, "Rust"@, "Py"@)
            &&& lines[1].len() == 85
        }),
        status_table(seq![]) == "No tracked workspaces."@,
        container_text(None) == "\u{2014}"@,
        forall|id: Seq<char>| #[trigger] container_text(Some(id)) == text::short_id_text(id),
{
    reveal_strlit("\n");
    lemma_header_columns();
    let head = row_text("Workspace"@, "Phase"@, "Container"@, "Term"@, "Rust"@, "Py"@);
    let parts = seq![head, text::repeated('-', 85)] + status_rows(statuses);
    lemma_header_is_one_line();
    assert("\n"@ =~= seq!['\n']);
    assert forall|i: int| 0 <= i < parts.len() implies !(#[trigger] parts[i]).contains('\n') by {
        if i >= 2 {
            assert(parts[i] == status_row(statuses[i - 2]));
        }
    }
    text::lemma_split_join(parts, '\n');
}

/// The head of the table is one line.
proof fn lemma_header_is_one_line()
    ensures
        !row_text("Workspace"@, "Phase"@, "Container"@, "Term"@, "Rust"@, "Py"@).contains('\n'),
{
    reveal_strlit("Workspace");
    reveal_strlit("Phase");
    reveal_strlit("Container");
    reveal_strlit("Term");
    reveal_strlit("Rust");
    reveal_strlit("Py");
    reveal_strlit(" ");
}

/// A document of a state tells the workspace, the project, the container or null, the phase, and
/// each capability under its own name.
pub proof fn law_state_is_documented(status: StatusModel)
    ensures
        ({
            let document = status_json(status);
            &&& document.member("workspace_root"@) == Some(Json::Text(status.workspace_root))
            &&& document.member("project_name"@) == Some(Json::Text(status.project_name))
            &&& document.member("container_id"@) == Some(
                match status.container_id {
                    Some(id) => Json::Text(id),
                    None => Json::Null,
                },
            )
            &&& document.member("phase"@) == Some(phase_json(status.phase))
            &&& document.member("capabilities"@) matches Some(capabilities) && {
                &&& capabilities.member("terminal_ok"@) == Some(
                    Json::Bool(status.capabilities.terminal_ok),
                )
                &&& capabilities.member("lsp_rust_ok"@) == Some(
                    Json::Bool(status.capabilities.lsp_rust_ok),
                )
                &&& capabilities.member("lsp_python_ok"@) == Some(
                    Json::Bool(status.capabilities.lsp_python_ok),
                )
            }
        }),
{
    json::lemma_keys();
    let document = status_json(status);
    let members = document->Object_0;
    reveal_strlit("project_name");
    reveal_strlit("capabilities");
    reveal_strlit("container_id");
    assert(json::distinct_keys(members));
    json::law_members_are_found(members);
    assert(document.member(members[0].0) == Some(members[0].1));
    assert(document.member(members[1].0) == Some(members[1].1));
    assert(document.member(members[2].0) == Some(members[2].1));
    assert(document.member(members[3].0) == Some(members[3].1));
    assert(document.member(members[4].0) == Some(members[4].1));
    let capabilities = members[4].1;
    let inner = capabilities->Object_0;
    assert(json::distinct_keys(inner));
    json::law_members_are_found(inner);
    assert(capabilities.member(inner[0].0) == Some(inner[0].1));
    assert(capabilities.member(inner[1].0) == Some(inner[1].1));
    assert(capabilities.member(inner[2].0) == Some(inner[2].1));
}

/// A document of a phase names it; that of a build tells how far it is and its message, and that of
/// an error the message.
pub proof fn law_phase_is_documented(phase: PhaseModel)
    ensures
        phase_json(phase).member("phase"@) == Some(
            Json::Text(
                match phase {
                    PhaseModel::Idle => "Idle"@,
                    PhaseModel::Preflight { .. } => "Preflight"@,
                    PhaseModel::Building { .. } => "Building"@,
                    PhaseModel::Running { .. } => "Running"@,
                    PhaseModel::Error { .. } => "Error"@,
                },
            ),
        ),
        phase matches PhaseModel::Building { progress, message, .. } ==> phase_json(phase).member(
            "progress"@,
        ) == Some(Json::Unsigned(progress as nat)) && phase_json(phase).member("message"@) == Some(
            Json::Text(message),
        ),
        phase matches PhaseModel::Error { message, .. } ==> phase_json(phase).member("message"@)
            == Some(Json::Text(message)),
{
    json::lemma_keys();
    let document = phase_json(phase);
    let members = document->Object_0;
    assert(json::distinct_keys(members));
    json::law_members_are_found(members);
    assert(document.member(members[0].0) == Some(members[0].1));
    if members.len() > 1 {
        assert(document.member(members[1].0) == Some(members[1].1));
    }
    if members.len() > 2 {
        assert(document.member(members[2].0) == Some(members[2].1));
    }
}

/// The document of the store has one entry for each state, in order.
pub proof fn law_store_is_documented(statuses: Seq<StatusModel>)
    ensures
        statuses_json(statuses) is Array,
        statuses_json(statuses)->Array_0.len() == statuses.len(),
        forall|i: int|
            0 <= i < statuses.len() ==> #[trigger] statuses_json(statuses)->Array_0[i]
                == status_json(statuses[i]),
{
}

/// What a transition makes of the state of its workspace: the new phase with its time and message,
/// and nothing else but the name of the project where preflight starts.
#[verifier::rlimit(50)]
pub proof fn law_transitions_change_the_phase(
    hud: HudModel,
    workspace: Seq<char>,
    project_name: Seq<char>,
    progress: u8,
    message: Seq<char>,
    at: Instant,
)
    ensures
        hud.preflight_started(workspace, project_name, at).status_of(workspace) == Some(
            StatusModel {
                phase: PhaseModel::Preflight { started_at: at },
                project_name,
                ..hud.entry(workspace)
            },
        ),
        hud.error(workspace, message, at).status_of(workspace) == Some(
            StatusModel { phase: PhaseModel::Error { at, message }, ..hud.entry(workspace) },
        ),
        !(hud.entry(workspace).phase is Building) ==> hud.build_progress(
            workspace,
            progress,
            message,
            at,
        ).status_of(workspace) == Some(
            StatusModel {
                phase: PhaseModel::Building { started_at: at, progress, message },
                ..hud.entry(workspace)
            },
        ),
{
    lemma_entry_root(hud, workspace);
    let entry = hud.entry(workspace);
    let ready = StatusModel {
        phase: PhaseModel::Preflight { started_at: at },
        project_name,
        ..entry
    };
    let failed = StatusModel { phase: PhaseModel::Error { at, message }, ..entry };
    let building = StatusModel {
        phase: PhaseModel::Building { started_at: at, progress, message },
        ..entry
    };
    law_put_is_read_back(hud, workspace, ready);
    law_put_is_read_back(hud, workspace, failed);
    law_put_is_read_back(hud, workspace, building);
    assert(hud.put(workspace, ready).status_of(workspace) == Some(ready));
    assert(hud.put(workspace, failed).status_of(workspace) == Some(failed));
    assert(hud.put(workspace, building).status_of(workspace) == Some(building));
}

/// A workspace that is seen for the first time is idle, without a container and with nothing known
/// to work, under the last name of its path.
pub proof fn law_new_workspace_is_idle(hud: HudModel, workspace: Seq<char>)
    requires
        hud.status_of(workspace) is None,
    ensures
        ({
            let entry = hud.entry(workspace);
            &&& entry.workspace_root == workspace
            &&& entry.project_name == path::project_name_text(hud.platform, workspace)
            &&& entry.container_id is None
            &&& entry.phase is Idle
            &&& !entry.capabilities.terminal_ok && !entry.capabilities.lsp_rust_ok
                && !entry.capabilities.lsp_python_ok
        }),
{
}

} // verus!
