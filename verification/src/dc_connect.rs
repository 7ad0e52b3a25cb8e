//! The connection to a container that exists: its arguments, its course, and what it prints.
//!
//! A run is a machine. It says what to do next, is told what came of it, and says what to print.

use crate::cli;
use crate::cli::{CommonArgs, CommonModel, Parsed, ParsedModel};
use crate::console;
use crate::console::{Output, OutputModel};
use crate::ipc;
use crate::json;
use crate::json::Json;
use crate::schemas::DcConnectJson;
use crate::text;
use serde_json::Value;
use vstd::prelude::*;
use vstd::string::StringExecFns;

verus! {

/// What the help flag prints.
pub const CONNECT_HELP: &'static str = "Usage: dc-connect [OPTIONS]\n\nConnect to an existing DevContainer for the given workspace via Tala.\nIf the container is stopped, Tala will restart it.\nIf config has changed, a rebuild hint is shown.\n\nOptions:\n  -w, --workspace <PATH>  Workspace to connect (default: cwd)\n  -j, --json              Machine-readable JSON output\n  -v, --verbose           Show extra detail\n  -h, --help              Show this help\n";

/// How long the daemon may take to connect a container, in seconds.
pub const CONNECT_TIMEOUT: u64 = 30;

/// What a command line says that was given in `current_dir`.
pub open spec fn connect_args(
    args: Seq<Seq<char>>,
    current_dir: Option<Seq<char>>,
) -> ParsedModel<CommonModel> {
    if cli::asks_help(args) {
        ParsedModel::Help
    } else {
        ParsedModel::Run(cli::common_args(args, current_dir))
    }
}

/// Takes a command line apart that was given in `current_dir`.
pub fn parse_args(args: Vec<String>, current_dir: Option<String>) -> (r: Parsed<CommonArgs>)
    ensures
        r@ == connect_args(text::texts(args@), text::text_option(current_dir)),
{
    let mut args = args;
    if cli::wants_help(&args) {
        return Parsed::Help;
    }
    Parsed::Run(cli::parse_common_args(&mut args, current_dir))
}

/// Where a run is: what it waits for, or its exit code.
#[derive(Debug, Clone, Copy, PartialEq, Eq, Structural)]
pub enum ConnectStage {
    Connect,
    Call,
    Done(i32),
}

/// What came of what a run waits for.
#[derive(Debug)]
pub enum ConnectEvent {
    /// The daemon accepted the connection.
    Connected,
    /// The daemon did not accept the connection.
    ConnectFailed,
    /// The daemon has connected a container.
    Answer { container_id: String, workspace_folder: String, config_changed: bool },
    /// The daemon has not connected a container.
    CallFailed,
    /// The daemon did not answer in time.
    TimedOut,
}

/// A run of a connection.
#[derive(Debug)]
pub struct ConnectRun {
    pub workspace: String,
    pub json: bool,
    pub use_color: bool,
    pub stage: ConnectStage,
}

/// The model of a run of a connection.
pub struct RunModel {
    pub workspace: Seq<char>,
    pub json: bool,
    pub use_color: bool,
    pub stage: ConnectStage,
}

impl View for ConnectRun {
    type V = RunModel;

    open spec fn view(&self) -> RunModel {
        RunModel {
            workspace: self.workspace@,
            json: self.json,
            use_color: self.use_color,
            stage: self.stage,
        }
    }
}

/// A run after something came, and what is printed then.
pub struct Turn {
    pub run: RunModel,
    pub output: Seq<OutputModel>,
}

/// The run of a command line on a workspace, and what is printed at its start.
pub open spec fn first_turn(workspace: Seq<char>, json: bool, is_terminal: bool) -> Turn {
    let use_color = !json && is_terminal;
    Turn {
        run: RunModel { workspace, json, use_color, stage: ConnectStage::Connect },
        output: console::unless_json(
            json,
            seq![
                console::out(
                    console::painted(use_color, "\x1b[1m"@, "dc-connect"@) + " \u{2014} "@
                        + workspace,
                ),
            ],
        ),
    }
}

/// The document of a connection that failed.
pub open spec fn error_json(workspace: Seq<char>, error: Seq<char>) -> Json {
    Json::Object(seq![("workspace"@, Json::Text(workspace)), ("error"@, Json::Text(error))])
}

/// The document of a connection.
pub open spec fn connected_json(
    workspace: Seq<char>,
    container_id: Seq<char>,
    workspace_folder: Seq<char>,
    config_changed: bool,
) -> Json {
    Json::Object(
        seq![
            ("workspace"@, Json::Text(workspace)),
            ("container_id"@, Json::Text(container_id)),
            ("workspace_folder"@, Json::Text(workspace_folder)),
            ("config_changed"@, Json::Bool(config_changed)),
        ],
    )
}

/// The run ends with an error, which a document and a line may word differently.
pub open spec fn failed(run: RunModel, error: Seq<char>, line: Seq<char>) -> Turn {
    Turn {
        run: RunModel { stage: ConnectStage::Done(1), ..run },
        output: if run.json {
            seq![console::out(json::pretty_text(error_json(run.workspace, error)))]
        } else {
            seq![console::err("error: "@ + line)]
        },
    }
}

/// The lines that tell of a connection. A configuration that has changed is told of, with the
/// command that follows it.
pub open spec fn connected_lines(
    run: RunModel,
    container_id: Seq<char>,
    workspace_folder: Seq<char>,
    config_changed: bool,
) -> Seq<OutputModel> {
    seq![
        console::out(
            "  "@ + console::painted(run.use_color, "\x1b[32m"@, "Connected"@)
                + " to container "@ + text::short_id_text(container_id),
        ),
        console::out("  workspace_folder: "@ + workspace_folder),
    ] + if config_changed {
        seq![
            console::out(""@),
            console::out(
                "  "@ + console::painted(run.use_color, "\x1b[33m"@, "Note:"@)
                    + " devcontainer config has changed since last build."@,
            ),
            console::out(
                "  Consider running: dc-build --force --workspace "@ + run.workspace,
            ),
        ]
    } else {
        seq![]
    }
}

/// The run waits on.
pub open spec fn stays(run: RunModel) -> Turn {
    Turn { run, output: seq![] }
}

/// The turn of a run. What a run does not wait for leaves it as it was.
pub open spec fn turn(run: RunModel, event: ConnectEvent) -> Turn {
    match (run.stage, event) {
        (ConnectStage::Connect, ConnectEvent::Connected) => Turn {
            run: RunModel { stage: ConnectStage::Call, ..run },
            output: console::unless_json(run.json, seq![console::out("  Connecting ..."@)]),
        },
        (ConnectStage::Connect, ConnectEvent::ConnectFailed) => failed(
            run,
            "Failed to connect to tala: "@ + ipc::CONNECT_MESSAGE@,
            "failed to connect to tala daemon: "@ + ipc::CONNECT_MESSAGE@,
        ),
        (
            ConnectStage::Call,
            ConnectEvent::Answer { container_id, workspace_folder, config_changed },
        ) => Turn {
            run: RunModel { stage: ConnectStage::Done(0), ..run },
            output: if run.json {
                seq![
                    console::out(
                        json::pretty_text(
                            connected_json(
                                run.workspace,
                                container_id@,
                                workspace_folder@,
                                config_changed,
                            ),
                        ),
                    ),
                ]
            } else {
                connected_lines(run, container_id@, workspace_folder@, config_changed)
            },
        },
        (ConnectStage::Call, ConnectEvent::CallFailed) => failed(
            run,
            "ConnectContainer RPC failed"@,
            "ConnectContainer RPC failed"@,
        ),
        (ConnectStage::Call, ConnectEvent::TimedOut) => failed(
            run,
            "Connection timed out after 30s"@,
            "Connection timed out after 30s"@,
        ),
        _ => stays(run),
    }
}

/// The run of a command line on a workspace, and what is printed at its start.
pub fn begin(workspace: String, json: bool, is_terminal: bool) -> (r: (ConnectRun, Vec<Output>))
    ensures
        r.0@ == first_turn(workspace@, json, is_terminal).run,
        console::outputs(r.1@) == first_turn(workspace@, json, is_terminal).output,
{
    let use_color = !json && is_terminal;
    let lines = vec![
        Output::Stdout(
            console::paint(use_color, "\x1b[1m", "dc-connect").concat(" \u{2014} ").concat(
                workspace.as_str(),
            ),
        ),
    ];
    assert(console::outputs(lines@) =~= seq![
        console::out(
            console::painted(use_color, "\x1b[1m"@, "dc-connect"@) + " \u{2014} "@ + workspace@,
        ),
    ]);
    let output = console::remarks(json, lines);
    (ConnectRun { workspace, json, use_color, stage: ConnectStage::Connect }, output)
}

/// The document of a connection that failed.
fn error_value(workspace: &str, error: &str) -> (r: Value)
    ensures
        json::json_of(r) == error_json(workspace@, error@),
{
    let members = vec![
        json::member("workspace", json::string(workspace)),
        json::member("error", json::string(error)),
    ];
    proof {
        json::lemma_keys();
        assert(json::members_of(members@) =~= error_json(workspace@, error@)->Object_0);
    }
    json::object(members)
}

/// A document on the standard output.
fn document(value: &Value) -> (r: Vec<Output>)
    ensures
        console::outputs(r@) == seq![console::out(json::pretty_text(json::json_of(*value)))],
{
    let r = match json::to_pretty(value) {
        Ok(shown) => vec![Output::Stdout(shown)],
        Err(_) => Vec::new(),
    };
    assert(console::outputs(r@) =~= seq![
        console::out(json::pretty_text(json::json_of(*value))),
    ]);
    r
}

impl ConnectRun {
    /// The run ends with an error.
    fn fail(self, error: &str, line: &str) -> (r: (ConnectRun, Vec<Output>))
        ensures
            r.0@ == failed(self@, error@, line@).run,
            console::outputs(r.1@) == failed(self@, error@, line@).output,
    {
        let output = if self.json {
            document(&error_value(self.workspace.as_str(), error))
        } else {
            vec![Output::Stderr("error: ".to_owned().concat(line))]
        };
        assert(console::outputs(output@) =~= failed(self@, error@, line@).output);
        (ConnectRun { stage: ConnectStage::Done(1), ..self }, output)
    }

    /// The lines that tell of a connection.
    fn tell(
        &self,
        container_id: &str,
        workspace_folder: &str,
        config_changed: bool,
    ) -> (r: Vec<Output>)
        requires
            text::has_short_id(container_id@),
        ensures
            console::outputs(r@) == connected_lines(
                self@,
                container_id@,
                workspace_folder@,
                config_changed,
            ),
    {
        let mut lines = vec![
            Output::Stdout(
                "  ".to_owned().concat(
                    console::paint(self.use_color, "\x1b[32m", "Connected").as_str(),
                ).concat(" to container ").concat(text::short_id(container_id)),
            ),
            Output::Stdout("  workspace_folder: ".to_owned().concat(workspace_folder)),
        ];
        if config_changed {
            lines.push(Output::Stdout("".to_owned()));
            lines.push(
                Output::Stdout(
                    "  ".to_owned().concat(
                        console::paint(self.use_color, "\x1b[33m", "Note:").as_str(),
                    ).concat(" devcontainer config has changed since last build."),
                ),
            );
            lines.push(
                Output::Stdout(
                    "  Consider running: dc-build --force --workspace ".to_owned().concat(
                        self.workspace.as_str(),
                    ),
                ),
            );
        }
        assert(console::outputs(lines@) =~= connected_lines(
            self@,
            container_id@,
            workspace_folder@,
            config_changed,
        ));
        lines
    }

    /// Takes what came of what the run waits for; gives the run as it is then, and what is
    /// printed.
    pub fn step(self, event: ConnectEvent) -> (r: (ConnectRun, Vec<Output>))
        requires
            self@.stage is Call && event is Answer ==> text::has_short_id(
                event->Answer_container_id@,
            ),
        ensures
            r.0@ == turn(self@, event).run,
            console::outputs(r.1@) == turn(self@, event).output,
    {
        match (self.stage, event) {
            (ConnectStage::Connect, ConnectEvent::Connected) => {
                let lines = vec![Output::Stdout("  Connecting ...".to_owned())];
                assert(console::outputs(lines@) =~= seq![console::out("  Connecting ..."@)]);
                let output = console::remarks(self.json, lines);
                (ConnectRun { stage: ConnectStage::Call, ..self }, output)
            },
            (ConnectStage::Connect, ConnectEvent::ConnectFailed) => {
                let error = "Failed to connect to tala: ".to_owned().concat(ipc::CONNECT_MESSAGE);
                let line = "failed to connect to tala daemon: ".to_owned().concat(
                    ipc::CONNECT_MESSAGE,
                );
                self.fail(error.as_str(), line.as_str())
            },
            (
                ConnectStage::Call,
                ConnectEvent::Answer { container_id, workspace_folder, config_changed },
            ) => {
                let output = if self.json {
                    let answer = DcConnectJson {
                        workspace: self.workspace.clone(),
                        container_id,
                        workspace_folder,
                        config_changed,
                    };
                    proof {
                        assert(answer.json()->Object_0 =~= connected_json(
                            self@.workspace,
                            container_id@,
                            workspace_folder@,
                            config_changed,
                        )->Object_0);
                    }
                    document(&answer.to_json())
                } else {
                    self.tell(container_id.as_str(), workspace_folder.as_str(), config_changed)
                };
                (ConnectRun { stage: ConnectStage::Done(0), ..self }, output)
            },
            (ConnectStage::Call, ConnectEvent::CallFailed) => self.fail(
                "ConnectContainer RPC failed",
                "ConnectContainer RPC failed",
            ),
            (ConnectStage::Call, ConnectEvent::TimedOut) => self.fail(
                "Connection timed out after 30s",
                "Connection timed out after 30s",
            ),
            _ => {
                let output: Vec<Output> = Vec::new();
                assert(console::outputs(output@) =~= seq![]);
                (self, output)
            },
        }
    }
}

/// In JSON mode the standard output carries one document and nothing else, and nothing goes to
/// the standard error: the document is printed in the turn that ends the run.
pub proof fn law_json_mode_prints_one_document(run: RunModel, event: ConnectEvent)
    requires
        run.json,
    ensures
        turn(run, event).run.stage is Done && !(run.stage is Done) ==> turn(
            run,
            event,
        ).output.len() == 1 && turn(run, event).output[0] is Stdout,
        !(turn(run, event).run.stage is Done) || run.stage is Done ==> turn(
            run,
            event,
        ).output.len() == 0,
        first_turn(run.workspace, run.json, run.use_color).output.len() == 0,
{
}

/// A run ends with zero where the daemon has connected a container and only there; every other
/// end is one.
pub proof fn law_exit_code_is_zero_iff_connected(run: RunModel, event: ConnectEvent)
    requires
        !(run.stage is Done),
        turn(run, event).run.stage is Done,
    ensures
        turn(run, event).run.stage->Done_0 == 0 || turn(run, event).run.stage->Done_0 == 1,
        turn(run, event).run.stage->Done_0 == 0 <==> event is Answer,
{
}

/// The answer of the daemon is passed on. In JSON mode its document carries the workspace and what
/// the daemon said of the container, the folder and the configuration, and nothing else. In text
/// mode the first line ends with the start of the id and the second names the folder; a rebuild is
/// advised exactly where the daemon says that the configuration has changed, for the workspace.
pub proof fn law_answer_is_passed_on(
    run: RunModel,
    container_id: String,
    workspace_folder: String,
    config_changed: bool,
)
    requires
        run.stage is Call,
    ensures
        ({
            let event = ConnectEvent::Answer { container_id, workspace_folder, config_changed };
            let after = turn(run, event);
            let document = connected_json(
                run.workspace,
                container_id@,
                workspace_folder@,
                config_changed,
            );
            &&& after.run == (RunModel { stage: ConnectStage::Done(0), ..run })
            &&& run.json ==> {
                &&& after.output == seq![console::out(json::pretty_text(document))]
                &&& document.member("workspace"@) == Some(Json::Text(run.workspace))
                &&& document.member("container_id"@) == Some(Json::Text(container_id@))
                &&& document.member("workspace_folder"@) == Some(Json::Text(workspace_folder@))
                &&& document.member("config_changed"@) == Some(Json::Bool(config_changed))
                &&& document->Object_0.len() == 4
            }
            &&& !run.json ==> {
                let short = text::short_id_text(container_id@);
                let line = after.output[0]->Stdout_0;
                &&& after.output[0] is Stdout
                &&& line.skip(line.len() - short.len()) == short
                &&& after.output[1] == console::out("  workspace_folder: "@ + workspace_folder@)
                &&& after.output.len() == if config_changed {
                    5nat
                } else {
                    2nat
                }
                &&& config_changed ==> after.output[4] == console::out(
                    "  Consider running: dc-build --force --workspace "@ + run.workspace,
                )
            }
            &&& !run.json && !run.use_color ==> after.output[0] == console::out(
                "  Connected to container "@ + text::short_id_text(container_id@),
            )
            &&& !run.json && !run.use_color && config_changed ==> after.output[3] == console::out(
                "  Note: devcontainer config has changed since last build."@,
            )
        }),
{
    let event = ConnectEvent::Answer { container_id, workspace_folder, config_changed };
    let after = turn(run, event);
    let document = connected_json(run.workspace, container_id@, workspace_folder@, config_changed);
    let members = document->Object_0;
    json::lemma_keys();
    assert(json::distinct_keys(members));
    json::law_members_are_found(members);
    assert(document.member(members[0].0) == Some(members[0].1));
    assert(document.member(members[1].0) == Some(members[1].1));
    assert(document.member(members[2].0) == Some(members[2].1));
    assert(document.member(members[3].0) == Some(members[3].1));
    if !run.json {
        let short = text::short_id_text(container_id@);
        let line = after.output[0]->Stdout_0;
        assert(line.skip(line.len() - short.len()) =~= short);
    }
    reveal_strlit("  ");
    reveal_strlit("Connected");
    reveal_strlit(" to container ");
    reveal_strlit("  Connected to container ");
    reveal_strlit("Note:");
    reveal_strlit(" devcontainer config has changed since last build.");
    reveal_strlit("  Note: devcontainer config has changed since last build.");
    assert("  "@ + "Connected"@ + " to container "@ =~= "  Connected to container "@);
    assert("  "@ + "Note:"@ + " devcontainer config has changed since last build."@
        =~= "  Note: devcontainer config has changed since last build."@);
}

/// Two answers that differ in the configuration, the container or the folder give different
/// documents.
pub proof fn law_documents_tell_answers_apart(
    workspace: Seq<char>,
    first_id: Seq<char>,
    first_folder: Seq<char>,
    first_changed: bool,
    second_id: Seq<char>,
    second_folder: Seq<char>,
    second_changed: bool,
)
    requires
        connected_json(workspace, first_id, first_folder, first_changed) == connected_json(
            workspace,
            second_id,
            second_folder,
            second_changed,
        ),
    ensures
        first_id == second_id && first_folder == second_folder && first_changed == second_changed,
{
    let a = connected_json(workspace, first_id, first_folder, first_changed)->Object_0;
    let b = connected_json(workspace, second_id, second_folder, second_changed)->Object_0;
    assert(a[1] == b[1] && a[2] == b[2] && a[3] == b[3]);
}

/// Every failure ends the run with one, and is told once: in JSON mode by a document with the
/// workspace and the reason, else by a line on the standard error that ends with the reason.
pub proof fn law_failure_is_told(run: RunModel, event: ConnectEvent)
    requires
        (run.stage is Connect && event is ConnectFailed) || (run.stage is Call && (event is CallFailed
            || event is TimedOut)),
    ensures
        ({
            let after = turn(run, event);
            let reason = match event {
                ConnectEvent::ConnectFailed =>
                    "failed to connect to tala daemon -- is it running?"@,
                ConnectEvent::CallFailed => "ConnectContainer RPC failed"@,
                _ => "Connection timed out after 30s"@,
            };
            let told = if event is ConnectFailed {
                "Failed to connect to tala: "@ + reason
            } else {
                reason
            };
            let document = error_json(run.workspace, told);
            &&& after.run == (RunModel { stage: ConnectStage::Done(1), ..run })
            &&& after.output.len() == 1
            &&& run.json ==> {
                &&& after.output[0] == console::out(json::pretty_text(document))
                &&& document.member("workspace"@) == Some(Json::Text(run.workspace))
                &&& document.member("error"@) == Some(Json::Text(told))
            }
            &&& !run.json ==> {
                let line = after.output[0]->Stderr_0;
                &&& after.output[0] is Stderr
                &&& "error: "@.is_prefix_of(line)
                &&& line.skip(line.len() - reason.len()) == reason
            }
        }),
{
    let after = turn(run, event);
    let reason = match event {
        ConnectEvent::ConnectFailed => "failed to connect to tala daemon -- is it running?"@,
        ConnectEvent::CallFailed => "ConnectContainer RPC failed"@,
        _ => "Connection timed out after 30s"@,
    };
    let told = if event is ConnectFailed {
        "Failed to connect to tala: "@ + reason
    } else {
        reason
    };
    let document = error_json(run.workspace, told);
    let members = document->Object_0;
    json::lemma_keys();
    json::law_members_are_found(members);
    assert(document.member(members[0].0) == Some(members[0].1));
    assert(document.member(members[1].0) == Some(members[1].1));
    if !run.json {
        let line = after.output[0]->Stderr_0;
        assert(line.take("error: "@.len() as int) =~= "error: "@);
        assert(line.skip(line.len() - reason.len()) =~= reason);
    }
}

/// A run connects first and calls then; it is told to people only, and colours are for terminals.
/// What a run does not wait for changes nothing and prints nothing.
pub proof fn law_runs_connect_then_call(
    workspace: Seq<char>,
    json: bool,
    is_terminal: bool,
    run: RunModel,
    event: ConnectEvent,
)
    ensures
        ({
            let first = first_turn(workspace, json, is_terminal);
            &&& first.run.stage is Connect && first.run.workspace == workspace && first.run.json == json
            &&& first.run.use_color <==> is_terminal && !json
            &&& turn(first.run, ConnectEvent::Connected).run == (RunModel {
                stage: ConnectStage::Call,
                ..first.run
            })
            &&& json ==> first.output.len() == 0
            &&& !json && !is_terminal ==> first.output == seq![
                console::out("dc-connect \u{2014} "@ + workspace),
            ]
        }),
        (run.stage is Connect && !(event is Connected) && !(event is ConnectFailed)) || (run.stage is Call
            && (event is Connected || event is ConnectFailed)) || run.stage is Done ==> turn(
            run,
            event,
        ).run == run && turn(run, event).output.len() == 0,
{
    reveal_strlit("dc-connect");
    reveal_strlit(" \u{2014} ");
    reveal_strlit("dc-connect \u{2014} ");
    assert("dc-connect"@ + " \u{2014} "@ =~= "dc-connect \u{2014} "@);
}

/// A command line asks for help wherever it says so, and is run else.
pub proof fn law_command_line_is_run(args: Seq<Seq<char>>, current_dir: Option<Seq<char>>)
    ensures
        connect_args(args, current_dir) is Help <==> args.contains("--help"@) || args.contains(
            "-h"@,
        ),
        !args.contains("--help"@) && !args.contains("-h"@) ==> connect_args(args, current_dir)
            == ParsedModel::Run(cli::common_args(args, current_dir)),
{
}

/// Colour is put on the first words of a line, and on nothing else: bold on the name of the command,
/// green on a connection, yellow on the note.
pub proof fn law_colours_of_a_connection(
    run: RunModel,
    workspace: Seq<char>,
    container_id: Seq<char>,
    workspace_folder: Seq<char>,
)
    requires
        run.use_color,
    ensures
        connected_lines(run, container_id, workspace_folder, true)[0] == console::out(
            "  "@ + ("\x1b[32m"@ + "Connected"@ + "\x1b[0m"@) + " to container "@
                + text::short_id_text(container_id),
        ),
        connected_lines(run, container_id, workspace_folder, true)[3] == console::out(
            "  "@ + ("\x1b[33m"@ + "Note:"@ + "\x1b[0m"@)
                + " devcontainer config has changed since last build."@,
        ),
        first_turn(workspace, false, true).output == seq![
            console::out("\x1b[1m"@ + "dc-connect"@ + "\x1b[0m"@ + " \u{2014} "@ + workspace),
        ],
{
}

} // verus!
