//! What a smoke test found: the result of each step, the summary, the document and the exit code.

use crate::json;
use crate::json::Json;
use crate::schemas::{DcSmokeJson, DcSmokeStepJson};
use crate::text;
use vstd::prelude::*;
use vstd::string::StringExecFns;

verus! {

/// The result of one step.
#[derive(Debug)]
pub enum StepResult {
    Okay(String),
    Fail(String),
    Skip(String),
}

/// The model of the result of one step.
pub enum StepModel {
    Okay(Seq<char>),
    Fail(Seq<char>),
    Skip(Seq<char>),
}

impl View for StepResult {
    type V = StepModel;

    open spec fn view(&self) -> StepModel {
        match *self {
            StepResult::Okay(message) => StepModel::Okay(message@),
            StepResult::Fail(message) => StepModel::Fail(message@),
            StepResult::Skip(message) => StepModel::Skip(message@),
        }
    }
}

/// The word for a result.
pub open spec fn status_word(step: StepModel) -> Seq<char> {
    match step {
        StepModel::Okay(_) => "ok"@,
        StepModel::Fail(_) => "fail"@,
        StepModel::Skip(_) => "skip"@,
    }
}

/// The message of a result.
pub open spec fn step_message(step: StepModel) -> Seq<char> {
    match step {
        StepModel::Okay(message) => message,
        StepModel::Fail(message) => message,
        StepModel::Skip(message) => message,
    }
}

impl StepResult {
    /// The word for the result.
    pub fn status_str(&self) -> (r: &'static str)
        ensures
            r@ == status_word(self@),
    {
        match self {
            StepResult::Okay(_) => "ok",
            StepResult::Fail(_) => "fail",
            StepResult::Skip(_) => "skip",
        }
    }

    /// The message of the result.
    pub fn message(&self) -> (r: &str)
        ensures
            r@ == step_message(self@),
    {
        match self {
            StepResult::Okay(message) => message.as_str(),
            StepResult::Fail(message) => message.as_str(),
            StepResult::Skip(message) => message.as_str(),
        }
    }
}

/// The results of a smoke test; a step that was not run has none.
#[derive(Debug)]
pub struct SmokeResults {
    pub devcontainer: Option<StepResult>,
    pub terminal: Option<StepResult>,
    pub lsp: Option<StepResult>,
    pub lsp_label: String,
}

/// The model of the results of a smoke test.
pub struct ResultsModel {
    pub devcontainer: Option<StepModel>,
    pub terminal: Option<StepModel>,
    pub lsp: Option<StepModel>,
    pub lsp_label: Seq<char>,
}

/// The model of an optional result.
pub open spec fn step_option(step: Option<StepResult>) -> Option<StepModel> {
    match step {
        Some(s) => Some(s@),
        None => None,
    }
}

impl View for SmokeResults {
    type V = ResultsModel;

    open spec fn view(&self) -> ResultsModel {
        ResultsModel {
            devcontainer: step_option(self.devcontainer),
            terminal: step_option(self.terminal),
            lsp: step_option(self.lsp),
            lsp_label: self.lsp_label@,
        }
    }
}

/// The results of a test that has not begun.
pub open spec fn no_results(lsp_display_name: Seq<char>) -> ResultsModel {
    ResultsModel {
        devcontainer: None,
        terminal: None,
        lsp: None,
        lsp_label: "LSP ("@ + lsp_display_name + ")"@,
    }
}

/// Whether a step was run and failed.
pub open spec fn failed(step: Option<StepModel>) -> bool {
    step is Some && step->Some_0 is Fail
}

/// Whether any step failed.
pub open spec fn any_failed(results: ResultsModel) -> bool {
    failed(results.devcontainer) || failed(results.terminal) || failed(results.lsp)
}

/// The exit code of the first step that failed, else zero.
pub open spec fn exit_code_of(results: ResultsModel) -> i32 {
    if failed(results.devcontainer) {
        4
    } else if failed(results.terminal) {
        5
    } else if failed(results.lsp) {
        6
    } else {
        0
    }
}

/// The line of the summary for one step.
pub open spec fn step_line(label: Seq<char>, step: Option<StepModel>) -> Seq<char> {
    match step {
        Some(StepModel::Okay(message)) => "  "@ + label + "  OK    "@ + message,
        Some(StepModel::Fail(message)) => "  "@ + label + "  FAIL  "@ + message,
        Some(StepModel::Skip(message)) => "  "@ + label + "  SKIP  "@ + message,
        None => "  "@ + label + "  ---   (not run)"@,
    }
}

/// The lines of the summary.
pub open spec fn summary_texts(results: ResultsModel) -> Seq<Seq<char>> {
    seq![
        ""@,
        "========================================"@,
        "  DevContainer Smoke Test  --  Summary  "@,
        "========================================"@,
        step_line("DevContainer"@, results.devcontainer),
        step_line("Terminal    "@, results.terminal),
        step_line(text::padded(results.lsp_label, 12), results.lsp),
        "========================================"@,
        ""@,
    ]
}

/// One step of the document, where it was run.
pub open spec fn step_json(name: Seq<char>, step: Option<StepModel>) -> Seq<Json> {
    match step {
        Some(s) => seq![
            Json::Object(
                seq![
                    ("name"@, Json::Text(name)),
                    ("status"@, Json::Text(status_word(s))),
                    ("message"@, Json::Text(step_message(s))),
                ],
            ),
        ],
        None => seq![],
    }
}

/// The document of a smoke test: the steps that were run, in order, and whether all passed.
pub open spec fn results_json(results: ResultsModel, workspace: Seq<char>) -> Json {
    Json::Object(
        seq![
            ("workspace"@, Json::Text(workspace)),
            (
                "overall"@,
                Json::Text(
                    if any_failed(results) {
                        "fail"@
                    } else {
                        "pass"@
                    },
                ),
            ),
            (
                "steps"@,
                Json::Array(
                    step_json("devcontainer"@, results.devcontainer) + step_json(
                        "terminal"@,
                        results.terminal,
                    ) + step_json("lsp"@, results.lsp),
                ),
            ),
        ],
    )
}

/// Whether a step was run and failed.
fn has_failed(step: &Option<StepResult>) -> (r: bool)
    ensures
        r == failed(step_option(*step)),
{
    match step {
        Some(StepResult::Fail(_)) => true,
        _ => false,
    }
}

/// The line of the summary for one step.
fn format_step(label: &str, step: &Option<StepResult>) -> (r: String)
    ensures
        r@ == step_line(label@, step_option(*step)),
{
    let start = "  ".to_owned().concat(label);
    match step {
        Some(StepResult::Okay(message)) => start.concat("  OK    ").concat(message.as_str()),
        Some(StepResult::Fail(message)) => start.concat("  FAIL  ").concat(message.as_str()),
        Some(StepResult::Skip(message)) => start.concat("  SKIP  ").concat(message.as_str()),
        None => start.concat("  ---   (not run)"),
    }
}

/// The steps of a document.
spec fn documents(steps: Seq<DcSmokeStepJson>) -> Seq<Json> {
    steps.map_values(|s: DcSmokeStepJson| s.json())
}

/// Adds a step to the document, where it was run.
fn push_step(steps: &mut Vec<DcSmokeStepJson>, name: &str, step: &Option<StepResult>)
    ensures
        documents(final(steps)@) == documents(old(steps)@) + step_json(name@, step_option(*step)),
{
    let ghost before = documents(steps@);
    if let Some(s) = step {
        steps.push(
            DcSmokeStepJson {
                name: name.to_owned(),
                status: s.status_str().to_owned(),
                message: s.message().to_owned(),
            },
        );
    }
    assert(documents(steps@) =~= before + step_json(name@, step_option(*step)));
}

impl SmokeResults {
    /// The results of a test that has not begun.
    pub fn new(lsp_display_name: &str) -> (r: Self)
        ensures
            r@ == no_results(lsp_display_name@),
    {
        SmokeResults {
            devcontainer: None,
            terminal: None,
            lsp: None,
            lsp_label: "LSP (".to_owned().concat(lsp_display_name).concat(")"),
        }
    }

    /// The exit code of the first step that failed, else zero.
    pub fn exit_code(&self) -> (r: i32)
        ensures
            r == exit_code_of(self@),
    {
        if has_failed(&self.devcontainer) {
            return 4;
        }
        if has_failed(&self.terminal) {
            return 5;
        }
        if has_failed(&self.lsp) {
            return 6;
        }
        0
    }

    /// Whether any step failed.
    pub fn has_any_fail(&self) -> (r: bool)
        ensures
            r == any_failed(self@),
    {
        has_failed(&self.devcontainer) || has_failed(&self.terminal) || has_failed(&self.lsp)
    }

    /// The lines of the summary.
    pub fn summary_lines(&self) -> (r: Vec<String>)
        ensures
            text::texts(r@) == summary_texts(self@),
    {
        let lsp_padded = text::pad(self.lsp_label.as_str(), 12);
        let r = vec![
            "".to_owned(),
            "========================================".to_owned(),
            "  DevContainer Smoke Test  --  Summary  ".to_owned(),
            "========================================".to_owned(),
            format_step("DevContainer", &self.devcontainer),
            format_step("Terminal    ", &self.terminal),
            format_step(lsp_padded.as_str(), &self.lsp),
            "========================================".to_owned(),
            "".to_owned(),
        ];
        assert(text::texts(r@) =~= summary_texts(self@));
        r
    }

    /// The document of the test.
    pub fn to_json(&self, workspace: &str) -> (r: DcSmokeJson)
        ensures
            r.json() == results_json(self@, workspace@),
    {
        let mut steps: Vec<DcSmokeStepJson> = Vec::new();
        assert(documents(steps@) =~= seq![]);
        push_step(&mut steps, "devcontainer", &self.devcontainer);
        push_step(&mut steps, "terminal", &self.terminal);
        push_step(&mut steps, "lsp", &self.lsp);
        let overall = if self.has_any_fail() {
            "fail".to_owned()
        } else {
            "pass".to_owned()
        };
        let r = DcSmokeJson { workspace: workspace.to_owned(), overall, steps };
        proof {
            assert(documents(r.steps@) =~= step_json("devcontainer"@, self@.devcontainer)
                + step_json("terminal"@, self@.terminal) + step_json("lsp"@, self@.lsp));
            assert(r.json()->Object_0 =~= results_json(self@, workspace@)->Object_0);
        }
        r
    }
}

/// The exit code says whether the document passes: it is zero where no step failed, and only
/// there.
pub proof fn law_exit_code_is_zero_iff_passed(results: ResultsModel, workspace: Seq<char>)
    ensures
        exit_code_of(results) == 0 <==> results_json(results, workspace)->Object_0[1]
            == ("overall"@, Json::Text("pass"@)),
{
    reveal_strlit("pass");
    reveal_strlit("fail");
    assert("pass"@[0] != "fail"@[0]);
}

/// The exit code names the first step that failed: four for the container, five for the terminal,
/// six for the language server, and zero where none failed. A step that was skipped did not fail.
pub proof fn law_exit_code_names_the_first_failure(results: ResultsModel)
    ensures
        exit_code_of(results) == 4 <==> results.devcontainer matches Some(StepModel::Fail(_)),
        exit_code_of(results) == 5 <==> !(results.devcontainer matches Some(StepModel::Fail(_)))
            && results.terminal matches Some(StepModel::Fail(_)),
        exit_code_of(results) == 6 <==> !(results.devcontainer matches Some(StepModel::Fail(_)))
            && !(results.terminal matches Some(StepModel::Fail(_)))
            && results.lsp matches Some(StepModel::Fail(_)),
        exit_code_of(results) == 0 <==> !(results.devcontainer matches Some(StepModel::Fail(_)))
            && !(results.terminal matches Some(StepModel::Fail(_)))
            && !(results.lsp matches Some(StepModel::Fail(_))),
        any_failed(results) <==> exit_code_of(results) != 0,
{
}

/// What a document says of one step: its name, how it ended, and its message.
pub proof fn law_step_is_documented(name: Seq<char>, step: StepModel)
    ensures
        step_json(name, None).len() == 0,
        ({
            let document = step_json(name, Some(step))[0];
            &&& step_json(name, Some(step)).len() == 1
            &&& document.member("name"@) == Some(Json::Text(name))
            &&& document.member("status"@) == Some(
                Json::Text(
                    match step {
                        StepModel::Okay(_) => "ok"@,
                        StepModel::Fail(_) => "fail"@,
                        StepModel::Skip(_) => "skip"@,
                    },
                ),
            )
            &&& document.member("message"@) == Some(
                Json::Text(
                    match step {
                        StepModel::Okay(message) => message,
                        StepModel::Fail(message) => message,
                        StepModel::Skip(message) => message,
                    },
                ),
            )
        }),
{
    json::lemma_keys();
    let document = step_json(name, Some(step))[0];
    let members = document->Object_0;
    json::law_members_are_found(members);
    assert(document.member(members[0].0) == Some(members[0].1));
    assert(document.member(members[1].0) == Some(members[1].1));
    assert(document.member(members[2].0) == Some(members[2].1));
}

/// The document of a test tells the workspace, whether any step failed, and every step that was run:
/// first the container, then the terminal, then the language server.
pub proof fn law_document_tells_the_test(results: ResultsModel, workspace: Seq<char>)
    ensures
        ({
            let document = results_json(results, workspace);
            let failed = (results.devcontainer matches Some(StepModel::Fail(_)))
                || (results.terminal matches Some(StepModel::Fail(_)))
                || (results.lsp matches Some(StepModel::Fail(_)));
            &&& document.member("workspace"@) == Some(Json::Text(workspace))
            &&& document.member("overall"@) == Some(
                Json::Text(
                    if failed {
                        "fail"@
                    } else {
                        "pass"@
                    },
                ),
            )
            &&& document.member("steps"@) == Some(
                Json::Array(
                    step_json("devcontainer"@, results.devcontainer) + step_json(
                        "terminal"@,
                        results.terminal,
                    ) + step_json("lsp"@, results.lsp),
                ),
            )
        }),
{
    json::lemma_keys();
    let document = results_json(results, workspace);
    let members = document->Object_0;
    json::law_members_are_found(members);
    assert(document.member(members[0].0) == Some(members[0].1));
    assert(document.member(members[1].0) == Some(members[1].1));
    assert(document.member(members[2].0) == Some(members[2].1));
}

/// The summary has a line for each step, in order, with its label, how it ended and its message.
pub proof fn law_summary_tells_each_step(results: ResultsModel)
    ensures
        summary_texts(results).len() == 9,
        summary_texts(results)[4] == "  DevContainer"@ + ended(results.devcontainer),
        summary_texts(results)[5] == "  Terminal    "@ + ended(results.terminal),
        summary_texts(results)[6] == "  "@ + text::padded(results.lsp_label, 12) + ended(
            results.lsp,
        ),
{
    reveal_strlit("  ");
    reveal_strlit("DevContainer");
    reveal_strlit("Terminal    ");
    reveal_strlit("  DevContainer");
    reveal_strlit("  Terminal    ");
    assert("  "@ + "DevContainer"@ =~= "  DevContainer"@);
    assert("  "@ + "Terminal    "@ =~= "  Terminal    "@);
    let shown = summary_texts(results);
    reveal_strlit("  OK    ");
    reveal_strlit("  FAIL  ");
    reveal_strlit("  SKIP  ");
    reveal_strlit("OK    ");
    reveal_strlit("FAIL  ");
    reveal_strlit("SKIP  ");
    assert("  "@ + "OK    "@ =~= "  OK    "@);
    assert("  "@ + "FAIL  "@ =~= "  FAIL  "@);
    assert("  "@ + "SKIP  "@ =~= "  SKIP  "@);
    assert(shown[4] =~= "  DevContainer"@ + ended(results.devcontainer));
    assert(shown[5] =~= "  Terminal    "@ + ended(results.terminal));
    assert(shown[6] =~= "  "@ + text::padded(results.lsp_label, 12) + ended(results.lsp));
}

/// How a line of the summary tells that a step ended.
pub open spec fn ended(step: Option<StepModel>) -> Seq<char> {
    match step {
        Some(StepModel::Okay(message)) => "  "@ + "OK    "@ + message,
        Some(StepModel::Fail(message)) => "  "@ + "FAIL  "@ + message,
        Some(StepModel::Skip(message)) => "  "@ + "SKIP  "@ + message,
        None => "  ---   (not run)"@,
    }
}

} // verus!
