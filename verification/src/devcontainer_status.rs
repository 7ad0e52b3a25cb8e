//! The running containers as Docker sees them: which are shown, what is recorded of each, and the
//! table.

use crate::bytes;
use crate::cli::{Parsed, ParsedModel};
use crate::devcontainer_hud;
use crate::devcontainer_hud::{
    DevContainerHud, DevContainerPhase, HudModel, LogLine, PhaseModel, StatusModel,
};
use crate::docker;
use crate::path;
use crate::platform::Platform;
use crate::text;
use std::time::Instant;
use vstd::prelude::*;
use vstd::string::StringExecFns;

verus! {

pub const GREEN: &'static str = "\x1b[32m";

pub const RED: &'static str = "\x1b[31m";

pub const YELLOW: &'static str = "\x1b[33m";

pub const CYAN: &'static str = "\x1b[36m";

pub const BOLD: &'static str = "\x1b[1m";

pub const RESET: &'static str = "\x1b[0m";

/// What the help flag prints.
pub const STATUS_HELP: &'static str = "Usage: devcontainer_status [OPTIONS]\n\nOptions:\n  -w, --workspace <PATH>  Filter to a specific workspace\n  -j, --json              Output as JSON\n  -v, --verbose           Show extra detail\n  -h, --help              Show this help\n";

/// The arguments of the command: the workspace to show, or all of them.
pub struct StatusArgs {
    pub workspace: Option<String>,
    pub json: bool,
    pub verbose: bool,
}

/// The model of the arguments of the command.
pub struct StatusArgsModel {
    pub workspace: Option<Seq<char>>,
    pub json: bool,
    pub verbose: bool,
}

impl View for StatusArgs {
    type V = StatusArgsModel;

    open spec fn view(&self) -> StatusArgsModel {
        StatusArgsModel {
            workspace: text::text_option(self.workspace),
            json: self.json,
            verbose: self.verbose,
        }
    }
}

/// What a command line says from the argument `i` on, after what `so_far` holds.
pub open spec fn status_args_from(
    args: Seq<Seq<char>>,
    i: int,
    so_far: StatusArgsModel,
) -> ParsedModel<StatusArgsModel>
    decreases args.len() - i,
{
    if i >= args.len() {
        ParsedModel::Run(so_far)
    } else if args[i] == "--workspace"@ || args[i] == "-w"@ {
        if i + 1 < args.len() {
            status_args_from(
                args,
                i + 2,
                StatusArgsModel { workspace: Some(args[i + 1]), ..so_far },
            )
        } else {
            ParsedModel::Reject("error: --workspace requires an argument"@)
        }
    } else if args[i] == "--json"@ || args[i] == "-j"@ {
        status_args_from(args, i + 1, StatusArgsModel { json: true, ..so_far })
    } else if args[i] == "--verbose"@ || args[i] == "-v"@ {
        status_args_from(args, i + 1, StatusArgsModel { verbose: true, ..so_far })
    } else if args[i] == "--help"@ || args[i] == "-h"@ {
        ParsedModel::Help
    } else {
        ParsedModel::Reject("error: unexpected argument: "@ + args[i])
    }
}

/// What a command line says.
pub open spec fn status_args(args: Seq<Seq<char>>) -> ParsedModel<StatusArgsModel> {
    status_args_from(
        args,
        0,
        StatusArgsModel { workspace: None, json: false, verbose: false },
    )
}

/// Takes a command line apart, from left to right.
pub fn parse_args(args: &Vec<String>) -> (r: Parsed<StatusArgs>)
    ensures
        r@ == status_args(text::texts(args@)),
{
    let ghost all = text::texts(args@);
    let mut so_far = StatusArgs { workspace: None, json: false, verbose: false };
    let mut i: usize = 0;
    let size: usize = args.len();
    while i < size
        invariant
            i <= size,
            size == args@.len(),
            all == text::texts(args@),
            status_args(all) == status_args_from(all, i as int, so_far@),
        decreases size - i,
    {
        let arg = args[i].as_str();
        assert(all[i as int] == arg@);
        if text::same(arg, "--workspace") || text::same(arg, "-w") {
            i = i + 1;
            if i < size {
                assert(all[i as int] == args@[i as int]@);
                so_far.workspace = Some(args[i].clone());
            } else {
                return Parsed::Reject("error: --workspace requires an argument".to_owned());
            }
        } else if text::same(arg, "--json") || text::same(arg, "-j") {
            so_far.json = true;
        } else if text::same(arg, "--verbose") || text::same(arg, "-v") {
            so_far.verbose = true;
        } else if text::same(arg, "--help") || text::same(arg, "-h") {
            return Parsed::Help;
        } else {
            return Parsed::Reject("error: unexpected argument: ".to_owned().concat(arg));
        }
        i = i + 1;
    }
    Parsed::Run(so_far)
}

/// A container that Docker runs for a workspace.
pub struct DiscoveredContainer {
    pub id: String,
    pub workspace_folder: String,
}

/// Whether a container is shown: all are where no workspace is named.
pub open spec fn shown(
    platform: Platform,
    workspace_folder: Seq<char>,
    filter: Option<Seq<char>>,
) -> bool {
    match filter {
        Some(workspace) => path::same_path_text(platform, workspace_folder, workspace),
        None => true,
    }
}

/// Whether a container is shown.
pub fn is_shown(
    platform: Platform,
    container: &DiscoveredContainer,
    filter: &Option<String>,
) -> (r: bool)
    ensures
        r == shown(platform, container.workspace_folder@, text::text_option(*filter)),
{
    match filter {
        Some(workspace) => path::same_path(
            platform,
            container.workspace_folder.as_str(),
            workspace.as_str(),
        ),
        None => true,
    }
}

/// The store after a container was found that runs for a workspace, and was tested.
pub open spec fn recorded(
    hud: HudModel,
    workspace: Seq<char>,
    id: Seq<char>,
    capabilities: (bool, bool, bool),
    at: Instant,
) -> HudModel {
    hud.preflight_started(
        workspace,
        path::project_name_text(hud.platform, workspace),
        at,
    ).container_started(workspace, id, at).terminal_result(
        workspace,
        capabilities.0,
    ).lsp_rust_result(workspace, capabilities.1).lsp_python_result(workspace, capabilities.2)
}

/// Records a container and what works in it: the terminal, `rust-analyzer` and `pyright`, in this
/// order. It was found and runs from `at` on.
pub fn record_container(
    hud: &mut DevContainerHud,
    container: &DiscoveredContainer,
    capabilities: (bool, bool, bool),
    at: Instant,
)
    ensures
        old(hud)@.well_formed() ==> final(hud)@.well_formed(),
        final(hud)@ == recorded(
            old(hud)@,
            container.workspace_folder@,
            container.id@,
            capabilities,
            at,
        ),
{
    let workspace = container.workspace_folder.as_str();
    let project_name = path::project_name(hud.platform(), workspace);
    hud.preflight_started_at(workspace.to_owned(), project_name, at);
    hud.container_started_at(workspace, container.id.clone(), at);
    hud.on_terminal_smoke_result(workspace, capabilities.0);
    hud.on_lsp_rust_result(workspace, capabilities.1);
    hud.on_lsp_python_result(workspace, capabilities.2);
}

/// The name of a phase, in the colour of the phase.
pub open spec fn phase_text(phase: PhaseModel, use_color: bool) -> Seq<char> {
    let label = devcontainer_hud::phase_label(phase);
    if !use_color {
        label
    } else {
        match phase {
            PhaseModel::Idle => label,
            PhaseModel::Preflight { .. } => YELLOW@ + label + RESET@,
            PhaseModel::Building { .. } => YELLOW@ + label + RESET@,
            PhaseModel::Running { .. } => GREEN@ + label + RESET@,
            PhaseModel::Error { .. } => RED@ + label + RESET@,
        }
    }
}

/// The name of a phase, in the colour of the phase.
pub fn phase_colored(phase: &DevContainerPhase, use_color: bool) -> (r: String)
    ensures
        r@ == phase_text(phase@, use_color),
{
    let label = phase.label();
    if !use_color {
        return label.to_owned();
    }
    match phase {
        DevContainerPhase::Idle => label.to_owned(),
        DevContainerPhase::Preflight { .. } => YELLOW.to_owned().concat(label).concat(RESET),
        DevContainerPhase::Building { .. } => YELLOW.to_owned().concat(label).concat(RESET),
        DevContainerPhase::Running { .. } => GREEN.to_owned().concat(label).concat(RESET),
        DevContainerPhase::Error { .. } => RED.to_owned().concat(label).concat(RESET),
    }
}

/// The mark of a capability, in the colour of its state.
pub open spec fn mark_text(ok: bool, use_color: bool) -> Seq<char> {
    match (ok, use_color) {
        (true, true) => "\x1b[32mOK\x1b[0m"@,
        (true, false) => "OK"@,
        (false, true) => "\x1b[31m\u{2014}\x1b[0m"@,
        (false, false) => "\u{2014}"@,
    }
}

/// The mark of a capability, in the colour of its state.
pub fn capability_colored(ok: bool, use_color: bool) -> (r: &'static str)
    ensures
        r@ == mark_text(ok, use_color),
{
    match (ok, use_color) {
        (true, true) => "\x1b[32mOK\x1b[0m",
        (true, false) => "OK",
        (false, true) => "\x1b[31m\u{2014}\x1b[0m",
        (false, false) => "\u{2014}",
    }
}

/// The head of the table.
pub open spec fn header_text(use_color: bool) -> Seq<char> {
    let columns = text::padded("Workspace"@, 40) + " "@ + text::padded("Phase"@, 12) + " "@
        + text::padded("Container"@, 14) + " "@ + text::padded("Term"@, 5) + " "@ + text::padded(
        "Rust"@,
        5,
    ) + " "@ + text::padded("Py"@, 5);
    if use_color {
        BOLD@ + columns + RESET@
    } else {
        columns
    }
}

/// The line below the head.
pub open spec fn separator_text(use_color: bool) -> Seq<char> {
    if use_color {
        CYAN@ + text::repeated('\u{2500}', 85) + RESET@
    } else {
        text::repeated('-', 85)
    }
}

/// How many blanks follow the name of a phase: colours take no room.
pub open spec fn phase_padding(phase: PhaseModel) -> nat {
    let size = devcontainer_hud::phase_label(phase).len();
    if size < 12 {
        (12 - size) as nat
    } else {
        0
    }
}

/// The row of a state.
pub open spec fn row_text(status: StatusModel, use_color: bool) -> Seq<char> {
    text::padded(status.workspace_root, 40) + " "@ + phase_text(status.phase, use_color)
        + text::repeated(' ', phase_padding(status.phase)) + " "@ + text::padded(
        devcontainer_hud::container_text(status.container_id),
        14,
    ) + " "@ + text::padded(mark_text(status.capabilities.terminal_ok, use_color), 5) + " "@
        + text::padded(mark_text(status.capabilities.lsp_rust_ok, use_color), 5) + " "@
        + text::padded(mark_text(status.capabilities.lsp_python_ok, use_color), 5)
}

/// The rows of a list of states.
pub open spec fn rows(statuses: Seq<StatusModel>, use_color: bool) -> Seq<Seq<char>> {
    statuses.map_values(|s: StatusModel| row_text(s, use_color))
}

/// The table of a list of states.
pub open spec fn table_text(statuses: Seq<StatusModel>, use_color: bool) -> Seq<char> {
    if statuses.len() == 0 {
        "No running DevContainers found."@
    } else {
        text::join_texts(
            seq![header_text(use_color), separator_text(use_color)] + rows(statuses, use_color),
            "\n"@,
        )
    }
}

/// The head of the table.
fn header(use_color: bool) -> (r: String)
    ensures
        r@ == header_text(use_color),
{
    let columns = text::pad("Workspace", 40).concat(" ").concat(
        text::pad("Phase", 12).as_str(),
    ).concat(" ").concat(text::pad("Container", 14).as_str()).concat(" ").concat(
        text::pad("Term", 5).as_str(),
    ).concat(" ").concat(text::pad("Rust", 5).as_str()).concat(" ").concat(
        text::pad("Py", 5).as_str(),
    );
    if use_color {
        BOLD.to_owned().concat(columns.as_str()).concat(RESET)
    } else {
        columns
    }
}

/// The line below the head.
fn separator(use_color: bool) -> (r: String)
    ensures
        r@ == separator_text(use_color),
{
    if use_color {
        CYAN.to_owned().concat(text::repeat('\u{2500}', 85).as_str()).concat(RESET)
    } else {
        text::repeat('-', 85)
    }
}

/// The row of a state.
fn row(status: &devcontainer_hud::DevContainerStatus, use_color: bool) -> (r: String)
    requires
        status@.container_id is Some ==> text::has_short_id(status@.container_id->Some_0),
    ensures
        r@ == row_text(status@, use_color),
{
    let container = match &status.container_id {
        Some(id) => text::short_id(id.as_str()),
        None => "\u{2014}",
    };
    let size: usize = text::to_chars(status.phase.label()).len();
    let padding: usize = if size < 12 {
        12 - size
    } else {
        0
    };
    text::pad(status.workspace_root.as_str(), 40).concat(" ").concat(
        phase_colored(&status.phase, use_color).as_str(),
    ).concat(text::repeat(' ', padding).as_str()).concat(" ").concat(
        text::pad(container, 14).as_str(),
    ).concat(" ").concat(
        text::pad(capability_colored(status.capabilities.terminal_ok, use_color), 5).as_str(),
    ).concat(" ").concat(
        text::pad(capability_colored(status.capabilities.lsp_rust_ok, use_color), 5).as_str(),
    ).concat(" ").concat(
        text::pad(capability_colored(status.capabilities.lsp_python_ok, use_color), 5).as_str(),
    )
}

/// The table of all tracked workspaces.
pub fn format_colored_table(hud: &DevContainerHud, use_color: bool) -> (r: String)
    requires
        devcontainer_hud::showable(hud@.statuses),
    ensures
        r@ == table_text(hud@.statuses, use_color),
{
    let statuses = hud.all_statuses();
    let ghost all = hud@.statuses;
    assert(all.len() == statuses@.len());
    if statuses.len() == 0 {
        return "No running DevContainers found.".to_owned();
    }
    let mut lines = vec![header(use_color), separator(use_color)];
    let ghost head = seq![header_text(use_color), separator_text(use_color)];
    let mut i: usize = 0;
    assert(text::texts(lines@) =~= head + rows(all.take(0), use_color));
    while i < statuses.len()
        invariant
            i <= statuses@.len(),
            all == devcontainer_hud::status_models(statuses@),
            devcontainer_hud::showable(all),
            text::texts(lines@) == head + rows(all.take(i as int), use_color),
        decreases statuses@.len() - i,
    {
        let ghost before = text::texts(lines@);
        assert(all[i as int] == statuses@[i as int]@);
        lines.push(row(&statuses[i], use_color));
        assert(text::texts(lines@) =~= before.push(row_text(all[i as int], use_color)));
        assert(rows(all.take(i + 1), use_color) =~= rows(all.take(i as int), use_color).push(
            row_text(all[i as int], use_color),
        ));
        i = i + 1;
    }
    assert(all.take(i as int) =~= all);
    text::join(&lines, "\n")
}

/// What the command does next, or that it is done.
#[derive(Debug)]
pub enum StatusStage {
    /// List the containers.
    List,
    /// Ask for the workspace of a container.
    Inspect { id: String },
    /// Look at what works in a container.
    Probe { id: String },
    /// Print what was found.
    Show,
    /// End with an error.
    Fail(String),
}

/// The model of what the command does next.
pub enum StageModel {
    List,
    Inspect { id: Seq<char> },
    Probe { id: Seq<char> },
    Show,
    Fail(Seq<char>),
}

impl View for StatusStage {
    type V = StageModel;

    open spec fn view(&self) -> StageModel {
        match *self {
            StatusStage::List => StageModel::List,
            StatusStage::Inspect { id } => StageModel::Inspect { id: id@ },
            StatusStage::Probe { id } => StageModel::Probe { id: id@ },
            StatusStage::Show => StageModel::Show,
            StatusStage::Fail(message) => StageModel::Fail(message@),
        }
    }
}

/// What came of what the command did.
#[derive(Debug)]
pub enum StatusEvent {
    /// The containers were listed, or not.
    Listed { success: bool, stdout: Vec<u8>, stderr: Vec<u8> },
    /// A container was asked for its workspace.
    Inspected { success: bool, stdout: Vec<u8> },
    /// Whether the terminal, `rust-analyzer` and `pyright` work in a container.
    Probed(bool, bool, bool),
}

/// A run of the command: the containers that are still to be asked, those that are still to be
/// looked at, and what was found.
pub struct StatusRun {
    filter: Option<String>,
    unasked: Vec<String>,
    unseen: Vec<DiscoveredContainer>,
    hud: DevContainerHud,
    stage: StatusStage,
}

/// The model of a container: its id and its workspace.
pub struct ContainerModel {
    pub id: Seq<char>,
    pub workspace_folder: Seq<char>,
}

/// The models of a list of containers.
pub open spec fn container_models(containers: Seq<DiscoveredContainer>) -> Seq<ContainerModel> {
    containers.map_values(
        |c: DiscoveredContainer|
            ContainerModel { id: c.id@, workspace_folder: c.workspace_folder@ },
    )
}

/// The model of a run of the command.
pub struct RunModel {
    pub filter: Option<Seq<char>>,
    pub unasked: Seq<Seq<char>>,
    pub unseen: Seq<ContainerModel>,
    pub hud: HudModel,
    pub stage: StageModel,
}

impl View for StatusRun {
    type V = RunModel;

    closed spec fn view(&self) -> RunModel {
        RunModel {
            filter: text::text_option(self.filter),
            unasked: text::texts(self.unasked@),
            unseen: container_models(self.unseen@),
            hud: self.hud@,
            stage: self.stage@,
        }
    }
}

/// What follows: the next container is asked, or else the first that was found is looked at.
pub open spec fn settled(run: RunModel) -> RunModel {
    RunModel {
        stage: if run.unasked.len() > 0 {
            StageModel::Inspect { id: run.unasked[0] }
        } else if run.unseen.len() > 0 {
            StageModel::Probe { id: run.unseen[0].id }
        } else {
            StageModel::Show
        },
        ..run
    }
}

/// The run after something came. A container is looked at where its label names a workspace that
/// is shown. What was not asked changes nothing.
pub open spec fn next(run: RunModel, event: StatusEvent, at: Instant) -> RunModel {
    match (run.stage, event) {
        (StageModel::List, StatusEvent::Listed { success, stdout, stderr }) => if success {
            settled(RunModel { unasked: docker::listed_ids(stdout@), ..run })
        } else {
            RunModel {
                stage: StageModel::Fail("docker ps failed: "@ + bytes::shown_text(stderr@)),
                ..run
            }
        },
        (StageModel::Inspect { id }, StatusEvent::Inspected { success, stdout }) => {
            let asked = RunModel { unasked: run.unasked.skip(1), ..run };
            match docker::labelled_folder(success, stdout@) {
                Some(workspace_folder) => if shown(run.hud.platform, workspace_folder, run.filter) {
                    settled(
                        RunModel {
                            unseen: run.unseen.push(ContainerModel { id, workspace_folder }),
                            ..asked
                        },
                    )
                } else {
                    settled(asked)
                },
                None => settled(asked),
            }
        },
        (StageModel::Probe { id }, StatusEvent::Probed(terminal, rust, python)) => settled(
            RunModel {
                unseen: run.unseen.skip(1),
                hud: recorded(
                    run.hud,
                    run.unseen[0].workspace_folder,
                    id,
                    (terminal, rust, python),
                    at,
                ),
                ..run
            },
        ),
        _ => run,
    }
}

/// What holds of every run: what it does next is about the first that is still to be done, no
/// workspace has two states, and only workspaces that are shown are looked at and recorded.
pub open spec fn consistent(run: RunModel) -> bool {
    &&& run.hud.well_formed()
    &&& forall|i: int|
        0 <= i < run.unseen.len() ==> shown(
            run.hud.platform,
            (#[trigger] run.unseen[i]).workspace_folder,
            run.filter,
        )
    &&& forall|i: int|
        0 <= i < run.hud.statuses.len() ==> shown(
            run.hud.platform,
            (#[trigger] run.hud.statuses[i]).workspace_root,
            run.filter,
        )
    &&& match run.stage {
        StageModel::Inspect { id } => run.unasked.len() > 0 && run.unasked[0] == id,
        StageModel::Probe { id } => run.unasked.len() == 0 && run.unseen.len() > 0
            && run.unseen[0].id == id,
        StageModel::Show => run.unasked.len() == 0 && run.unseen.len() == 0,
        _ => true,
    }
}

/// The run of the command for one workspace, or for all.
pub fn begin(platform: Platform, filter: Option<String>) -> (r: StatusRun)
    ensures
        r@.filter == text::text_option(filter),
        r@.unasked == Seq::<Seq<char>>::empty(),
        r@.unseen == Seq::<ContainerModel>::empty(),
        r@.hud == HudModel::empty(platform),
        r@.stage is List,
        consistent(r@),
{
    let r = StatusRun {
        filter,
        unasked: Vec::new(),
        unseen: Vec::new(),
        hud: DevContainerHud::with_platform(platform),
        stage: StatusStage::List,
    };
    assert(r@.unasked =~= seq![]);
    assert(r@.unseen =~= seq![]);
    r
}

impl StatusRun {
    /// What the command does next.
    pub fn stage(&self) -> (r: &StatusStage)
        ensures
            r@ == self@.stage,
    {
        &self.stage
    }

    /// What was found.
    pub fn hud(&self) -> (r: &DevContainerHud)
        ensures
            r@ == self@.hud,
    {
        &self.hud
    }

    /// Hands out the lines that were not logged yet.
    pub fn drain_logs(&mut self) -> (r: Vec<LogLine>)
        ensures
            devcontainer_hud::log_models(r@) == old(self)@.hud.logs,
            final(self)@ == (RunModel {
                hud: HudModel { logs: seq![], ..old(self)@.hud },
                ..old(self)@
            }),
    {
        self.hud.drain_logs()
    }

    /// What follows.
    fn settle(self) -> (r: Self)
        ensures
            r@ == settled(self@),
    {
        let stage = if self.unasked.len() > 0 {
            assert(self@.unasked[0] == self.unasked@[0]@);
            StatusStage::Inspect { id: self.unasked[0].clone() }
        } else if self.unseen.len() > 0 {
            assert(self@.unseen[0].id == self.unseen@[0].id@);
            StatusStage::Probe { id: self.unseen[0].id.clone() }
        } else {
            StatusStage::Show
        };
        StatusRun { stage, ..self }
    }

    /// A container was asked for its workspace.
    fn after_inspect(self, id: String, success: bool, stdout: &Vec<u8>, at: Instant) -> (r: Self)
        requires
            self@.stage == (StageModel::Inspect { id: id@ }),
            consistent(self@),
        ensures
            r@ == next(self@, StatusEvent::Inspected { success, stdout: *stdout }, at),
    {
        let ghost before = self@;
        let mut run = self;
        run.unasked.remove(0);
        assert(run@.unasked =~= before.unasked.skip(1));
        if let Some(workspace_folder) = docker::container_folder(success, stdout) {
            let container = DiscoveredContainer { id, workspace_folder };
            if is_shown(run.hud.platform(), &container, &run.filter) {
                run.unseen.push(container);
                assert(run@.unseen =~= before.unseen.push(
                    ContainerModel { id: id@, workspace_folder: workspace_folder@ },
                ));
            }
        }
        run.settle()
    }

    /// What works in a container was looked at.
    fn after_probe(self, capabilities: (bool, bool, bool), at: Instant) -> (r: Self)
        requires
            self@.stage is Probe,
            consistent(self@),
        ensures
            r@ == next(
                self@,
                StatusEvent::Probed(capabilities.0, capabilities.1, capabilities.2),
                at,
            ),
    {
        let ghost before = self@;
        let mut run = self;
        assert(before.unseen[0].workspace_folder == run.unseen@[0].workspace_folder@);
        assert(before.unseen[0].id == run.unseen@[0].id@);
        let container = run.unseen.remove(0);
        assert(run@.unseen =~= before.unseen.skip(1));
        record_container(&mut run.hud, &container, capabilities, at);
        run.settle()
    }

    /// Takes what came of what the command did.
    pub fn step(self, event: StatusEvent, at: Instant) -> (r: Self)
        requires
            consistent(self@),
        ensures
            r@ == next(self@, event, at),
            consistent(r@),
    {
        proof {
            law_runs_are_consistent(self@, event, at);
        }
        match (&self.stage, event) {
            (StatusStage::List, StatusEvent::Listed { success, stdout, stderr }) => {
                if success {
                    let unasked = docker::container_ids(&stdout);
                    (StatusRun { unasked, ..self }).settle()
                } else {
                    let stage = StatusStage::Fail(docker::list_error(&stderr));
                    StatusRun { stage, ..self }
                }
            },
            (StatusStage::Inspect { id }, StatusEvent::Inspected { success, stdout }) => {
                let id = id.clone();
                self.after_inspect(id, success, &stdout, at)
            },
            (StatusStage::Probe { .. }, StatusEvent::Probed(terminal, rust, python)) => {
                self.after_probe((terminal, rust, python), at)
            },
            _ => self,
        }
    }
}

/// Every run stays consistent, whatever comes: when the command shows what it found, every
/// container that was listed was asked, every one whose workspace is shown was looked at, and no
/// other is in the store.
pub proof fn law_runs_are_consistent(run: RunModel, event: StatusEvent, at: Instant)
    requires
        consistent(run),
    ensures
        consistent(next(run, event, at)),
{
    if run.stage is Probe && event is Probed {
        let first = run.unseen[0];
        let capabilities = (event->Probed_0, event->Probed_1, event->Probed_2);
        law_recorded_container_is_shown(
            run.hud,
            first.workspace_folder,
            first.id,
            capabilities,
            at,
        );
        let after = recorded(run.hud, first.workspace_folder, first.id, capabilities, at);
        assert forall|i: int| 0 <= i < after.statuses.len() implies shown(
            run.hud.platform,
            (#[trigger] after.statuses[i]).workspace_root,
            run.filter,
        ) by {
            lemma_state_at(after, i);
            let root = after.statuses[i].workspace_root;
            if !path::same_path_text(run.hud.platform, root, first.workspace_folder) {
                devcontainer_hud::lemma_position(run.hud.platform, run.hud.statuses, root);
                assert(run.hud.status_of(root) == after.status_of(root));
            } else {
                assert(shown(run.hud.platform, first.workspace_folder, run.filter));
            }
        }
    }
}

/// In a store where no workspace has two states, a state is the state of its workspace.
proof fn lemma_state_at(hud: HudModel, i: int)
    requires
        hud.well_formed(),
        0 <= i < hud.statuses.len(),
    ensures
        hud.status_of(hud.statuses[i].workspace_root) == Some(hud.statuses[i]),
{
    let root = hud.statuses[i].workspace_root;
    devcontainer_hud::lemma_position(hud.platform, hud.statuses, root);
    let found = devcontainer_hud::position(hud.platform, hud.statuses, root);
    if found < i {
        assert(!path::same_path_text(
            hud.platform,
            hud.statuses[found].workspace_root,
            hud.statuses[i].workspace_root,
        ));
    }
    if i < found {
        assert(!path::same_path_text(hud.platform, hud.statuses[i].workspace_root, root));
    }
}

/// A container that was recorded is what the store says of its workspace: it runs, under its id
/// and the name of the workspace, with what the tests found. The rest of the store is as it was.
pub proof fn law_recorded_container_is_shown(
    hud: HudModel,
    workspace: Seq<char>,
    id: Seq<char>,
    capabilities: (bool, bool, bool),
    at: Instant,
)
    requires
        hud.well_formed(),
    ensures
        ({
            let after = recorded(hud, workspace, id, capabilities, at);
            &&& after.well_formed()
            &&& match after.status_of(workspace) {
                Some(status) => {
                    &&& path::same_path_text(hud.platform, status.workspace_root, workspace)
                    &&& status.project_name == path::project_name_text(hud.platform, workspace)
                    &&& status.container_id == Some(id)
                    &&& status.phase == PhaseModel::Running { started_at: at }
                    &&& status.capabilities.terminal_ok == capabilities.0
                    &&& status.capabilities.lsp_rust_ok == capabilities.1
                    &&& status.capabilities.lsp_python_ok == capabilities.2
                },
                None => false,
            }
            &&& forall|other: Seq<char>|
                !path::same_path_text(hud.platform, other, workspace) ==> #[trigger] after.status_of(other)
                    == hud.status_of(other)
        }),
{
    let s1 = StatusModel {
        project_name: path::project_name_text(hud.platform, workspace),
        phase: PhaseModel::Preflight { started_at: at },
        ..hud.entry(workspace)
    };
    let h1 = hud.preflight_started(workspace, path::project_name_text(hud.platform, workspace), at);
    lemma_step(hud, h1, workspace, s1);
    let s2 = StatusModel {
        phase: PhaseModel::Running { started_at: at },
        container_id: Some(id),
        capabilities: devcontainer_hud::no_capabilities(),
        ..s1
    };
    let h2 = h1.container_started(workspace, id, at);
    lemma_step(h1, h2, workspace, s2);
    let s3 = StatusModel {
        capabilities: devcontainer_hud::DevContainerCapabilities {
            terminal_ok: capabilities.0,
            ..s2.capabilities
        },
        ..s2
    };
    let h3 = h2.terminal_result(workspace, capabilities.0);
    lemma_step(h2, h3, workspace, s3);
    let s4 = StatusModel {
        capabilities: devcontainer_hud::DevContainerCapabilities {
            lsp_rust_ok: capabilities.1,
            ..s3.capabilities
        },
        ..s3
    };
    let h4 = h3.lsp_rust_result(workspace, capabilities.1);
    lemma_step(h3, h4, workspace, s4);
    let s5 = StatusModel {
        capabilities: devcontainer_hud::DevContainerCapabilities {
            lsp_python_ok: capabilities.2,
            ..s4.capabilities
        },
        ..s4
    };
    let h5 = h4.lsp_python_result(workspace, capabilities.2);
    lemma_step(h4, h5, workspace, s5);
}

/// One transition of a workspace: its state is the new one, and the others are as they were.
proof fn lemma_step(before: HudModel, after: HudModel, workspace: Seq<char>, status: StatusModel)
    requires
        before.well_formed(),
        status.workspace_root == before.entry(workspace).workspace_root,
        after.platform == before.platform,
        after.statuses == before.put(workspace, status).statuses,
    ensures
        after.well_formed(),
        after.status_of(workspace) == Some(status),
        after.entry(workspace) == status,
        path::same_path_text(before.platform, status.workspace_root, workspace),
        forall|other: Seq<char>|
            !path::same_path_text(before.platform, other, workspace) ==> #[trigger] after.status_of(other)
                == before.status_of(other),
{
    devcontainer_hud::lemma_position(before.platform, before.statuses, workspace);
    devcontainer_hud::law_every_change_keeps_workspaces_apart(before, workspace, status);
    devcontainer_hud::law_put_is_read_back(before, workspace, status);
    assert(before.put(workspace, status).status_of(workspace) == Some(status));
    assert forall|other: Seq<char>|
        !path::same_path_text(before.platform, other, workspace) implies #[trigger] after.status_of(other)
        == before.status_of(other) by {
        devcontainer_hud::law_workspaces_are_independent(before, workspace, other, status);
    }
}

/// The columns of the table without colour: a row has the workspace, the phase, the container and
/// the three capabilities each where the head names it, so long as they fit. A mark is `OK` exactly
/// where its own capability works, and a dash else.
pub proof fn law_marks_stand_in_their_columns(status: StatusModel)
    requires
        status.workspace_root.len() <= 40,
        devcontainer_hud::container_text(status.container_id).len() <= 14,
    ensures
        ({
            let head = header_text(false);
            let row = row_text(status, false);
            let container = devcontainer_hud::container_text(status.container_id);
            let label = devcontainer_hud::phase_label(status.phase);
            let yes = "OK   "@;
            let no = "\u{2014}    "@;
            &&& head.len() == 86 && row.len() == 86
            &&& head.subrange(0, 9) == "Workspace"@ && head.subrange(41, 46) == "Phase"@
            &&& head.subrange(54, 63) == "Container"@
            &&& head.subrange(69, 73) == "Term"@
            &&& head.subrange(75, 79) == "Rust"@
            &&& head.subrange(81, 83) == "Py"@
            &&& row.subrange(0, status.workspace_root.len() as int) == status.workspace_root
            &&& row.subrange(41, 41int + label.len()) == label
            &&& row.subrange(54, 54int + container.len()) == container
            &&& row.subrange(69, 74) == if status.capabilities.terminal_ok {
                yes
            } else {
                no
            }
            &&& row.subrange(75, 80) == if status.capabilities.lsp_rust_ok {
                yes
            } else {
                no
            }
            &&& row.subrange(81, 86) == if status.capabilities.lsp_python_ok {
                yes
            } else {
                no
            }
        }),
{
    lemma_head();
    lemma_row(status);
    lemma_mark(status.capabilities.terminal_ok);
    lemma_mark(status.capabilities.lsp_rust_ok);
    lemma_mark(status.capabilities.lsp_python_ok);
}

/// A mark fills its column.
proof fn lemma_mark(ok: bool)
    ensures
        text::padded(mark_text(ok, false), 5) == if ok {
            "OK   "@
        } else {
            "\u{2014}    "@
        },
{
    reveal_strlit("OK");
    reveal_strlit("\u{2014}");
    reveal_strlit("OK   ");
    reveal_strlit("\u{2014}    ");
    assert(text::padded(mark_text(ok, false), 5) =~= if ok {
        "OK   "@
    } else {
        "\u{2014}    "@
    });
}

/// The head of the table stands in the columns.
#[verifier::rlimit(50)]
proof fn lemma_head()
    ensures
        ({
            let head = header_text(false);
            &&& head.len() == 86
            &&& head.subrange(0, 9) == "Workspace"@ && head.subrange(41, 46) == "Phase"@
            &&& head.subrange(54, 63) == "Container"@
            &&& head.subrange(69, 73) == "Term"@
            &&& head.subrange(75, 79) == "Rust"@
            &&& head.subrange(81, 83) == "Py"@
        }),
{
    reveal_strlit("Workspace");
    reveal_strlit("Phase");
    reveal_strlit("Container");
    reveal_strlit("Term");
    reveal_strlit("Rust");
    reveal_strlit("Py");
    reveal_strlit(" ");
    let head = header_text(false);
    assert(head.subrange(0, 9) =~= "Workspace"@);
    assert(head.subrange(41, 46) =~= "Phase"@);
    assert(head.subrange(54, 63) =~= "Container"@);
    assert(head.subrange(69, 73) =~= "Term"@);
    assert(head.subrange(75, 79) =~= "Rust"@);
    assert(head.subrange(81, 83) =~= "Py"@);
}

/// Where the columns of a row begin.
#[verifier::rlimit(50)]
proof fn lemma_row(status: StatusModel)
    requires
        status.workspace_root.len() <= 40,
        devcontainer_hud::container_text(status.container_id).len() <= 14,
    ensures
        ({
            let row = row_text(status, false);
            let container = devcontainer_hud::container_text(status.container_id);
            let label = devcontainer_hud::phase_label(status.phase);
            &&& row.len() == 86
            &&& row.subrange(0, status.workspace_root.len() as int) == status.workspace_root
            &&& row.subrange(41, 41int + label.len()) == label
            &&& row.subrange(54, 54int + container.len()) == container
            &&& row.subrange(69, 74) == text::padded(
                mark_text(status.capabilities.terminal_ok, false),
                5,
            )
            &&& row.subrange(75, 80) == text::padded(
                mark_text(status.capabilities.lsp_rust_ok, false),
                5,
            )
            &&& row.subrange(81, 86) == text::padded(
                mark_text(status.capabilities.lsp_python_ok, false),
                5,
            )
        }),
{
    reveal_strlit(" ");
    reveal_strlit("OK");
    reveal_strlit("\u{2014}");
    devcontainer_hud::lemma_labels(status.phase);
    let row = row_text(status, false);
    let container = devcontainer_hud::container_text(status.container_id);
    let label = devcontainer_hud::phase_label(status.phase);
    let terminal = text::padded(mark_text(status.capabilities.terminal_ok, false), 5);
    let rust = text::padded(mark_text(status.capabilities.lsp_rust_ok, false), 5);
    let python = text::padded(mark_text(status.capabilities.lsp_python_ok, false), 5);
    assert(terminal.len() == 5 && rust.len() == 5 && python.len() == 5);
    assert(row.subrange(0, status.workspace_root.len() as int) =~= status.workspace_root);
    assert(row.subrange(41, 41int + label.len()) =~= label);
    assert(row.subrange(54, 54int + container.len()) =~= container);
    assert(row.subrange(69, 74) =~= terminal);
    assert(row.subrange(75, 80) =~= rust);
    assert(row.subrange(81, 86) =~= python);
}

/// A row ends with its three marks, in the order of the head and with the colour of each: green where
/// the capability works, red where it does not.
pub proof fn law_coloured_row_ends_with_its_marks(status: StatusModel)
    ensures
        ({
            let yes = "\x1b[32mOK\x1b[0m"@;
            let no = "\x1b[31m\u{2014}\x1b[0m"@;
            let terminal = if status.capabilities.terminal_ok {
                yes
            } else {
                no
            };
            let rust = if status.capabilities.lsp_rust_ok {
                yes
            } else {
                no
            };
            let python = if status.capabilities.lsp_python_ok {
                yes
            } else {
                no
            };
            let row = row_text(status, true);
            let end = " "@ + terminal + " "@ + rust + " "@ + python;
            &&& row.len() >= end.len()
            &&& row.skip(row.len() - end.len()) == end
            &&& text::padded(status.workspace_root, 40).is_prefix_of(row)
        }),
{
    reveal_strlit("\x1b[32mOK\x1b[0m");
    reveal_strlit("\x1b[31m\u{2014}\x1b[0m");
    let terminal = mark_text(status.capabilities.terminal_ok, true);
    let rust = mark_text(status.capabilities.lsp_rust_ok, true);
    let python = mark_text(status.capabilities.lsp_python_ok, true);
    let row = row_text(status, true);
    let end = " "@ + terminal + " "@ + rust + " "@ + python;
    assert(row.skip(row.len() - end.len()) =~= end);
    assert(row.take(text::padded(status.workspace_root, 40).len() as int) =~= text::padded(
        status.workspace_root,
        40,
    ));
}

/// A phase is named, and its colour says how it is: yellow before the container runs, green where it
/// runs, red where it failed. Without colour it is the bare name.
pub proof fn law_phase_is_coloured(phase: PhaseModel)
    ensures
        ({
            let label = match phase {
                PhaseModel::Idle => "Idle"@,
                PhaseModel::Preflight { .. } => "Preflight"@,
                PhaseModel::Building { .. } => "Building"@,
                PhaseModel::Running { .. } => "Running"@,
                PhaseModel::Error { .. } => "Error"@,
            };
            &&& phase_text(phase, false) == label
            &&& phase is Idle ==> phase_text(phase, true) == label
            &&& phase is Preflight || phase is Building ==> phase_text(phase, true) == "\x1b[33m"@
                + label + "\x1b[0m"@
            &&& phase is Running ==> phase_text(phase, true) == "\x1b[32m"@ + label + "\x1b[0m"@
            &&& phase is Error ==> phase_text(phase, true) == "\x1b[31m"@ + label + "\x1b[0m"@
        }),
{
}

/// The table has its head, a line below it, and one row for each state, in order.
pub proof fn law_table_lists_the_states(statuses: Seq<StatusModel>, use_color: bool)
    requires
        statuses.len() > 0,
        forall|i: int|
            0 <= i < statuses.len() ==> !(#[trigger] row_text(statuses[i], use_color)).contains(
                '\n',
            ),
    ensures
        ({
            let lines = text::split_text(table_text(statuses, use_color), '\n');
            &&& lines.len() == statuses.len() + 2
            &&& lines[0] == header_text(use_color)
            &&& forall|i: int|
                0 <= i < statuses.len() ==> #[trigger] lines[i + 2] == row_text(
                    statuses[i],
                    use_color,
                )
        }),
        table_text(seq![], use_color) == "No running DevContainers found."@,
{
    reveal_strlit("\n");
    assert("\n"@ =~= seq!['\n']);
    lemma_one_line(use_color);
    let parts = seq![header_text(use_color), separator_text(use_color)] + rows(statuses, use_color);
    assert forall|i: int| 0 <= i < parts.len() implies !(#[trigger] parts[i]).contains('\n') by {
        if i >= 2 {
            assert(parts[i] == row_text(statuses[i - 2], use_color));
        }
    }
    text::lemma_split_join(parts, '\n');
}

/// The head of the table and the line below it are one line each.
proof fn lemma_one_line(use_color: bool)
    ensures
        !header_text(use_color).contains('\n'),
        !separator_text(use_color).contains('\n'),
{
    reveal_strlit("Workspace");
    reveal_strlit("Phase");
    reveal_strlit("Container");
    reveal_strlit("Term");
    reveal_strlit("Rust");
    reveal_strlit("Py");
    reveal_strlit(" ");
    reveal_strlit("\x1b[1m");
    reveal_strlit("\x1b[36m");
    reveal_strlit("\x1b[0m");
}

/// A container is shown where no workspace is named, or where its own is the one that is named.
pub proof fn law_named_workspace_is_shown(
    platform: Platform,
    workspace_folder: Seq<char>,
    workspace: Seq<char>,
)
    ensures
        shown(platform, workspace_folder, None),
        shown(platform, workspace_folder, Some(workspace)) <==> path::same_path_text(
            platform,
            workspace_folder,
            workspace,
        ),
        shown(platform, workspace, Some(workspace)),
{
}

/// A run lists the containers, asks each that was listed for its workspace, in order, looks at each
/// whose workspace is shown, in order, and then shows what it found. Docker that does not list ends
/// it with what Docker said.
#[verifier::rlimit(50)]
pub proof fn law_listed_containers_are_looked_at(
    run: RunModel,
    success: bool,
    stdout: Vec<u8>,
    stderr: Vec<u8>,
    found: Option<Seq<char>>,
    at: Instant,
)
    ensures
        run.stage is List && run.unseen.len() == 0 ==> {
            let after = next(run, StatusEvent::Listed { success, stdout, stderr }, at);
            &&& !success ==> after.stage == StageModel::Fail(
                "docker ps failed: "@ + bytes::shown_text(stderr@),
            )
            &&& success ==> {
                let ids = docker::listed_ids(stdout@);
                &&& after.unasked == ids && after.hud == run.hud && after.filter == run.filter
                &&& ids.len() == 0 ==> after.stage is Show
                &&& ids.len() > 0 ==> after.stage == (StageModel::Inspect { id: ids[0] })
            }
        },
        run.stage is Inspect && run.unasked.len() > 0 && docker::labelled_folder(success, stdout@)
            == found ==> {
            let id = run.stage->Inspect_id;
            let after = next(run, StatusEvent::Inspected { success, stdout }, at);
            let kept = found is Some && shown(run.hud.platform, found->Some_0, run.filter);
            &&& after.unasked == run.unasked.skip(1)
            &&& after.hud == run.hud
            &&& kept ==> after.unseen == run.unseen.push(
                ContainerModel { id, workspace_folder: found->Some_0 },
            )
            &&& !kept ==> after.unseen == run.unseen
            &&& run.unasked.len() > 1 ==> after.stage == (StageModel::Inspect {
                id: run.unasked[1],
            })
            &&& run.unasked.len() == 1 && after.unseen.len() > 0 ==> after.stage
                == (StageModel::Probe { id: after.unseen[0].id })
            &&& run.unasked.len() == 1 && after.unseen.len() == 0 ==> after.stage is Show
        },
{
}

/// What was found in a container is recorded for its own workspace, under its own id; then the next
/// container is looked at, or what was found is shown.
pub proof fn law_probed_container_is_recorded(
    run: RunModel,
    terminal: bool,
    rust: bool,
    python: bool,
    at: Instant,
)
    requires
        consistent(run),
        run.stage is Probe,
    ensures
        ({
            let after = next(run, StatusEvent::Probed(terminal, rust, python), at);
            let container = run.unseen[0];
            &&& after.unseen == run.unseen.skip(1)
            &&& after.hud.status_of(container.workspace_folder) matches Some(status) && {
                &&& status.container_id == Some(container.id)
                &&& status.phase is Running
                &&& status.capabilities.terminal_ok == terminal
                &&& status.capabilities.lsp_rust_ok == rust
                &&& status.capabilities.lsp_python_ok == python
            }
            &&& run.unseen.len() > 1 ==> after.stage == (StageModel::Probe { id: run.unseen[1].id })
            &&& run.unseen.len() == 1 ==> after.stage is Show
        }),
{
    let container = run.unseen[0];
    law_recorded_container_is_shown(
        run.hud,
        container.workspace_folder,
        container.id,
        (terminal, rust, python),
        at,
    );
}

/// A command line is read from left to right: each flag says what it says wherever it stands, the
/// last workspace counts, help goes before what follows it, and what is no flag is refused.
#[verifier::rlimit(50)]
pub proof fn law_command_line_is_read(args: Seq<Seq<char>>, i: int, so_far: StatusArgsModel)
    requires
        0 <= i < args.len(),
    ensures
        args[i] == "--json"@ || args[i] == "-j"@ ==> status_args_from(args, i, so_far)
            == status_args_from(args, i + 1, StatusArgsModel { json: true, ..so_far }),
        args[i] == "--verbose"@ || args[i] == "-v"@ ==> status_args_from(args, i, so_far)
            == status_args_from(args, i + 1, StatusArgsModel { verbose: true, ..so_far }),
        args[i] == "--help"@ || args[i] == "-h"@ ==> status_args_from(args, i, so_far)
            == ParsedModel::<StatusArgsModel>::Help,
        (args[i] == "--workspace"@ || args[i] == "-w"@) && i + 1 < args.len() ==> status_args_from(
            args,
            i,
            so_far,
        ) == status_args_from(
            args,
            i + 2,
            StatusArgsModel { workspace: Some(args[i + 1]), ..so_far },
        ),
        (args[i] == "--workspace"@ || args[i] == "-w"@) && i + 1 == args.len() ==> status_args_from(
            args,
            i,
            so_far,
        ) is Reject,
        !"-"@.is_prefix_of(args[i]) ==> status_args_from(args, i, so_far)
            == ParsedModel::<StatusArgsModel>::Reject("error: unexpected argument: "@ + args[i]),
        status_args_from(args, args.len() as int, so_far) == ParsedModel::Run(so_far),
        status_args(seq![]) == ParsedModel::Run(
            StatusArgsModel { workspace: None, json: false, verbose: false },
        ),
{
    reveal_strlit("-");
    reveal_strlit("--json");
    reveal_strlit("-j");
    reveal_strlit("--verbose");
    reveal_strlit("-v");
    reveal_strlit("--help");
    reveal_strlit("-h");
    reveal_strlit("--workspace");
    reveal_strlit("-w");
    if !"-"@.is_prefix_of(args[i]) {
        assert(args[i].len() == 0 || args[i][0] != '-') by {
            if args[i].len() > 0 && args[i][0] == '-' {
                assert(args[i].take(1) =~= "-"@);
            }
        }
    }
    assert("--json"@[2] == 'j' && "--verbose"@[2] == 'v' && "--help"@[2] == 'h'
        && "--workspace"@[2] == 'w');
    assert("-j"@[1] == 'j' && "-v"@[1] == 'v' && "-h"@[1] == 'h' && "-w"@[1] == 'w');
}

/// What a run did not ask leaves it as it was, and the workspace that is named stays.
pub proof fn law_unasked_events_change_nothing(run: RunModel, event: StatusEvent, at: Instant)
    ensures
        (match run.stage {
            StageModel::List => !(event is Listed),
            StageModel::Inspect { .. } => !(event is Inspected),
            StageModel::Probe { .. } => !(event is Probed),
            StageModel::Show => true,
            StageModel::Fail(_) => true,
        }) ==> next(run, event, at) == run,
        next(run, event, at).filter == run.filter,
{
}

/// The head and the rows with colour: the head is bold, and before its marks a row is the plain one
/// with its phase coloured; colours take no room.
#[verifier::rlimit(50)]
pub proof fn law_colours_of_the_table(status: StatusModel)
    ensures
        header_text(true) == "\x1b[1m"@ + header_text(false) + "\x1b[0m"@,
        separator_text(false).len() == 85,
        forall|i: int| 0 <= i < 85 ==> #[trigger] separator_text(false)[i] == '-',
        forall|use_color: bool|
            (text::padded(status.workspace_root, 40) + " "@ + phase_text(status.phase, use_color)
                + text::repeated(
                ' ',
                (12 - devcontainer_hud::phase_label(status.phase).len()) as nat,
            ) + " "@ + text::padded(
                devcontainer_hud::container_text(status.container_id),
                14,
            )).is_prefix_of(#[trigger] row_text(status, use_color)),
{
    devcontainer_hud::lemma_labels(status.phase);
    assert forall|use_color: bool|
        (text::padded(status.workspace_root, 40) + " "@ + phase_text(status.phase, use_color)
            + text::repeated(
            ' ',
            (12 - devcontainer_hud::phase_label(status.phase).len()) as nat,
        ) + " "@ + text::padded(
            devcontainer_hud::container_text(status.container_id),
            14,
        )).is_prefix_of(#[trigger] row_text(status, use_color)) by {
        let start = text::padded(status.workspace_root, 40) + " "@ + phase_text(
            status.phase,
            use_color,
        ) + text::repeated(
            ' ',
            (12 - devcontainer_hud::phase_label(status.phase).len()) as nat,
        ) + " "@ + text::padded(devcontainer_hud::container_text(status.container_id), 14);
        let padding = phase_padding(status.phase);
        assert(text::repeated(
            ' ',
            (12 - devcontainer_hud::phase_label(status.phase).len()) as nat,
        ) =~= text::repeated(' ', padding));
        assert(row_text(status, use_color).take(start.len() as int) =~= start);
    }
}

} // verus!
