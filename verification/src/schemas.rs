//! The JSON documents that the commands print.

use crate::json;
use crate::json::Json;
use crate::text;
use serde_json::Value;
use vstd::prelude::*;

verus! {

/// One entry of the status listing.
#[derive(Debug)]
pub struct DcStatusJson {
    pub workspace: String,
    pub phase: String,
    pub container_id: Option<String>,
    pub terminal_ok: bool,
    pub lsp_rust_ok: bool,
    pub lsp_python_ok: bool,
}

impl DcStatusJson {
    /// The document: every field, a missing container as null.
    pub open spec fn json(self) -> Json {
        Json::Object(
            seq![
                ("workspace"@, Json::Text(self.workspace@)),
                ("phase"@, Json::Text(self.phase@)),
                ("container_id"@, json::text_or_null(text::text_option(self.container_id))),
                ("terminal_ok"@, Json::Bool(self.terminal_ok)),
                ("lsp_rust_ok"@, Json::Bool(self.lsp_rust_ok)),
                ("lsp_python_ok"@, Json::Bool(self.lsp_python_ok)),
            ],
        )
    }

    /// The document as a JSON value.
    pub fn to_json(&self) -> (r: Value)
        ensures
            json::json_of(r) == self.json(),
    {
        let members = vec![
            json::member("workspace", json::string(self.workspace.as_str())),
            json::member("phase", json::string(self.phase.as_str())),
            json::member("container_id", json::string_or_null(&self.container_id)),
            json::member("terminal_ok", json::boolean(self.terminal_ok)),
            json::member("lsp_rust_ok", json::boolean(self.lsp_rust_ok)),
            json::member("lsp_python_ok", json::boolean(self.lsp_python_ok)),
        ];
        proof {
            json::lemma_keys();
            assert(json::members_of(members@) =~= self.json()->Object_0);
        }
        json::object(members)
    }
}

/// One check of the diagnosis.
#[derive(Debug, Clone)]
pub struct DcDoctorCheckJson {
    pub name: String,
    pub status: String,
    pub message: String,
    pub suggestion: Option<String>,
    pub details: Option<Value>,
}

/// The member `key` with a text, or no member where there is no text.
pub open spec fn optional_text(key: Seq<char>, s: Option<Seq<char>>) -> Seq<(Seq<char>, Json)> {
    match s {
        Some(t) => seq![(key, Json::Text(t))],
        None => seq![],
    }
}

/// The member `key` with a value, or no member where there is no value.
pub open spec fn optional_value(key: Seq<char>, v: Option<Json>) -> Seq<(Seq<char>, Json)> {
    match v {
        Some(j) => seq![(key, j)],
        None => seq![],
    }
}

impl DcDoctorCheckJson {
    /// The document: a missing suggestion and missing details are left out.
    pub open spec fn json(self) -> Json {
        Json::Object(
            seq![
                ("name"@, Json::Text(self.name@)),
                ("status"@, Json::Text(self.status@)),
                ("message"@, Json::Text(self.message@)),
            ] + optional_text("suggestion"@, text::text_option(self.suggestion)) + optional_value(
                "details"@,
                json::json_option(self.details),
            ),
        )
    }

    /// The document as a JSON value.
    pub fn to_json(&self) -> (r: Value)
        ensures
            json::json_of(r) == self.json(),
    {
        let mut members = vec![
            json::member("name", json::string(self.name.as_str())),
            json::member("status", json::string(self.status.as_str())),
            json::member("message", json::string(self.message.as_str())),
        ];
        if let Some(suggestion) = &self.suggestion {
            members.push(json::member("suggestion", json::string(suggestion.as_str())));
        }
        if let Some(details) = &self.details {
            members.push(json::member("details", json::copy(details)));
        }
        proof {
            json::lemma_keys();
            assert(json::members_of(members@) =~= self.json()->Object_0);
        }
        json::object(members)
    }
}

/// The diagnosis of a workspace.
#[derive(Debug, Clone)]
pub struct DcDoctorJson {
    pub workspace: String,
    pub overall_status: String,
    pub checks: Vec<DcDoctorCheckJson>,
}

impl DcDoctorJson {
    /// The document: every field, the checks in order.
    pub open spec fn json(self) -> Json {
        Json::Object(
            seq![
                ("workspace"@, Json::Text(self.workspace@)),
                ("overall_status"@, Json::Text(self.overall_status@)),
                (
                    "checks"@,
                    Json::Array(self.checks@.map_values(|c: DcDoctorCheckJson| c.json())),
                ),
            ],
        )
    }

    /// The document as a JSON value.
    pub fn to_json(&self) -> (r: Value)
        ensures
            json::json_of(r) == self.json(),
    {
        let ghost wanted = self.checks@.map_values(|c: DcDoctorCheckJson| c.json());
        let mut checks: Vec<Value> = Vec::new();
        let mut i: usize = 0;
        while i < self.checks.len()
            invariant
                i <= self.checks@.len(),
                wanted == self.checks@.map_values(|c: DcDoctorCheckJson| c.json()),
                json::jsons(checks@) == wanted.take(i as int),
            decreases self.checks@.len() - i,
        {
            let ghost before = json::jsons(checks@);
            checks.push(self.checks[i].to_json());
            assert(json::jsons(checks@) =~= before.push(wanted[i as int]));
            i = i + 1;
        }
        assert(wanted.take(i as int) =~= wanted);
        let members = vec![
            json::member("workspace", json::string(self.workspace.as_str())),
            json::member("overall_status", json::string(self.overall_status.as_str())),
            json::member("checks", json::array(checks)),
        ];
        proof {
            json::lemma_keys();
            assert(json::members_of(members@) =~= self.json()->Object_0);
        }
        json::object(members)
    }
}

/// The outcome of a build.
#[derive(Debug)]
pub struct DcBuildJson {
    pub workspace: String,
    pub action: String,
    pub status: String,
    pub duration_ms: u64,
    pub container_id: Option<String>,
    pub error_message: Option<String>,
}

impl DcBuildJson {
    /// The document: a missing container and a missing error are left out.
    pub open spec fn json(self) -> Json {
        Json::Object(
            seq![
                ("workspace"@, Json::Text(self.workspace@)),
                ("action"@, Json::Text(self.action@)),
                ("status"@, Json::Text(self.status@)),
                ("duration_ms"@, Json::Unsigned(self.duration_ms as nat)),
            ] + optional_text("container_id"@, text::text_option(self.container_id))
                + optional_text("error_message"@, text::text_option(self.error_message)),
        )
    }

    /// The document as a JSON value.
    pub fn to_json(&self) -> (r: Value)
        ensures
            json::json_of(r) == self.json(),
    {
        let mut members = vec![
            json::member("workspace", json::string(self.workspace.as_str())),
            json::member("action", json::string(self.action.as_str())),
            json::member("status", json::string(self.status.as_str())),
            json::member("duration_ms", json::unsigned(self.duration_ms)),
        ];
        if let Some(id) = &self.container_id {
            members.push(json::member("container_id", json::string(id.as_str())));
        }
        if let Some(error) = &self.error_message {
            members.push(json::member("error_message", json::string(error.as_str())));
        }
        proof {
            json::lemma_keys();
            assert(json::members_of(members@) =~= self.json()->Object_0);
        }
        json::object(members)
    }
}

/// The outcome of a connection.
#[derive(Debug)]
pub struct DcConnectJson {
    pub workspace: String,
    pub container_id: String,
    pub workspace_folder: String,
    pub config_changed: bool,
}

impl DcConnectJson {
    /// The document: every field.
    pub open spec fn json(self) -> Json {
        Json::Object(
            seq![
                ("workspace"@, Json::Text(self.workspace@)),
                ("container_id"@, Json::Text(self.container_id@)),
                ("workspace_folder"@, Json::Text(self.workspace_folder@)),
                ("config_changed"@, Json::Bool(self.config_changed)),
            ],
        )
    }

    /// The document as a JSON value.
    pub fn to_json(&self) -> (r: Value)
        ensures
            json::json_of(r) == self.json(),
    {
        let members = vec![
            json::member("workspace", json::string(self.workspace.as_str())),
            json::member("container_id", json::string(self.container_id.as_str())),
            json::member("workspace_folder", json::string(self.workspace_folder.as_str())),
            json::member("config_changed", json::boolean(self.config_changed)),
        ];
        proof {
            json::lemma_keys();
            assert(json::members_of(members@) =~= self.json()->Object_0);
        }
        json::object(members)
    }
}

/// One step of the smoke test.
#[derive(Debug)]
pub struct DcSmokeStepJson {
    pub name: String,
    pub status: String,
    pub message: String,
}

impl DcSmokeStepJson {
    /// The document: every field.
    pub open spec fn json(self) -> Json {
        Json::Object(
            seq![
                ("name"@, Json::Text(self.name@)),
                ("status"@, Json::Text(self.status@)),
                ("message"@, Json::Text(self.message@)),
            ],
        )
    }

    /// The document as a JSON value.
    pub fn to_json(&self) -> (r: Value)
        ensures
            json::json_of(r) == self.json(),
    {
        let members = vec![
            json::member("name", json::string(self.name.as_str())),
            json::member("status", json::string(self.status.as_str())),
            json::member("message", json::string(self.message.as_str())),
        ];
        proof {
            json::lemma_keys();
            assert(json::members_of(members@) =~= self.json()->Object_0);
        }
        json::object(members)
    }
}

/// The outcome of the smoke test.
#[derive(Debug)]
pub struct DcSmokeJson {
    pub workspace: String,
    pub overall: String,
    pub steps: Vec<DcSmokeStepJson>,
}

impl DcSmokeJson {
    /// The document: every field, the steps in order.
    pub open spec fn json(self) -> Json {
        Json::Object(
            seq![
                ("workspace"@, Json::Text(self.workspace@)),
                ("overall"@, Json::Text(self.overall@)),
                ("steps"@, Json::Array(self.steps@.map_values(|s: DcSmokeStepJson| s.json()))),
            ],
        )
    }

    /// The document as a JSON value.
    pub fn to_json(&self) -> (r: Value)
        ensures
            json::json_of(r) == self.json(),
    {
        let ghost wanted = self.steps@.map_values(|s: DcSmokeStepJson| s.json());
        let mut steps: Vec<Value> = Vec::new();
        let mut i: usize = 0;
        while i < self.steps.len()
            invariant
                i <= self.steps@.len(),
                wanted == self.steps@.map_values(|s: DcSmokeStepJson| s.json()),
                json::jsons(steps@) == wanted.take(i as int),
            decreases self.steps@.len() - i,
        {
            let ghost before = json::jsons(steps@);
            steps.push(self.steps[i].to_json());
            assert(json::jsons(steps@) =~= before.push(wanted[i as int]));
            i = i + 1;
        }
        assert(wanted.take(i as int) =~= wanted);
        let members = vec![
            json::member("workspace", json::string(self.workspace.as_str())),
            json::member("overall", json::string(self.overall.as_str())),
            json::member("steps", json::array(steps)),
        ];
        proof {
            json::lemma_keys();
            assert(json::members_of(members@) =~= self.json()->Object_0);
        }
        json::object(members)
    }
}

/// An entry of the status listing tells each of its fields under its own name, a missing container
/// as null.
pub proof fn law_status_entry_is_documented(entry: DcStatusJson)
    ensures
        entry.json().member("workspace"@) == Some(Json::Text(entry.workspace@)),
        entry.json().member("phase"@) == Some(Json::Text(entry.phase@)),
        entry.json().member("container_id"@) == Some(
            match entry.container_id {
                Some(id) => Json::Text(id@),
                None => Json::Null,
            },
        ),
        entry.json().member("terminal_ok"@) == Some(Json::Bool(entry.terminal_ok)),
        entry.json().member("lsp_rust_ok"@) == Some(Json::Bool(entry.lsp_rust_ok)),
        entry.json().member("lsp_python_ok"@) == Some(Json::Bool(entry.lsp_python_ok)),
{
    json::lemma_keys();
    let document = entry.json();
    let members = document->Object_0;
    assert(json::distinct_keys(members));
    json::law_members_are_found(members);
    assert(document.member(members[0].0) == Some(members[0].1));
    assert(document.member(members[1].0) == Some(members[1].1));
    assert(document.member(members[2].0) == Some(members[2].1));
    assert(document.member(members[3].0) == Some(members[3].1));
    assert(document.member(members[4].0) == Some(members[4].1));
    assert(document.member(members[5].0) == Some(members[5].1));
}

/// A check tells its fields under their names; advice and details only where there are some.
pub proof fn law_check_is_documented(check: DcDoctorCheckJson)
    ensures
        check.json().member("name"@) == Some(Json::Text(check.name@)),
        check.json().member("status"@) == Some(Json::Text(check.status@)),
        check.json().member("message"@) == Some(Json::Text(check.message@)),
        check.json().member("suggestion"@) == match check.suggestion {
            Some(advice) => Some(Json::Text(advice@)),
            None => None,
        },
        check.json().member("details"@) == match check.details {
            Some(details) => Some(json::json_of(details)),
            None => None,
        },
{
    json::lemma_keys();
    let document = check.json();
    let members = document->Object_0;
    assert(json::distinct_keys(members));
    json::law_members_are_found(members);
    assert(document.member(members[0].0) == Some(members[0].1));
    assert(document.member(members[1].0) == Some(members[1].1));
    assert(document.member(members[2].0) == Some(members[2].1));
    if check.suggestion is Some {
        assert(document.member(members[3].0) == Some(members[3].1));
    } else {
        assert(forall|i: int| 0 <= i < members.len() ==> members[i].0 != "suggestion"@);
    }
    if check.details is Some {
        let last = members.len() - 1;
        assert(document.member(members[last].0) == Some(members[last].1));
    } else {
        assert(forall|i: int| 0 <= i < members.len() ==> members[i].0 != "details"@);
    }
}

/// A diagnosis tells its workspace, its state and its checks, each in order.
pub proof fn law_diagnosis_is_documented(diagnosis: DcDoctorJson)
    ensures
        diagnosis.json().member("workspace"@) == Some(Json::Text(diagnosis.workspace@)),
        diagnosis.json().member("overall_status"@) == Some(Json::Text(diagnosis.overall_status@)),
        diagnosis.json().member("checks"@) matches Some(Json::Array(entries)) && entries.len()
            == diagnosis.checks@.len() && (forall|i: int|
            0 <= i < entries.len() ==> #[trigger] entries[i] == diagnosis.checks@[i].json()),
{
    json::lemma_keys();
    let document = diagnosis.json();
    let members = document->Object_0;
    assert(json::distinct_keys(members));
    json::law_members_are_found(members);
    assert(document.member(members[0].0) == Some(members[0].1));
    assert(document.member(members[1].0) == Some(members[1].1));
    assert(document.member(members[2].0) == Some(members[2].1));
}

/// The outcome of a build tells its fields under their names; a container and an error only where
/// there is one.
pub proof fn law_build_is_documented(build: DcBuildJson)
    ensures
        build.json().member("workspace"@) == Some(Json::Text(build.workspace@)),
        build.json().member("action"@) == Some(Json::Text(build.action@)),
        build.json().member("status"@) == Some(Json::Text(build.status@)),
        build.json().member("duration_ms"@) == Some(Json::Unsigned(build.duration_ms as nat)),
        build.json().member("container_id"@) == match build.container_id {
            Some(id) => Some(Json::Text(id@)),
            None => None,
        },
        build.json().member("error_message"@) == match build.error_message {
            Some(error) => Some(Json::Text(error@)),
            None => None,
        },
{
    json::lemma_keys();
    let document = build.json();
    let members = document->Object_0;
    assert(json::distinct_keys(members));
    json::law_members_are_found(members);
    assert(document.member(members[0].0) == Some(members[0].1));
    assert(document.member(members[1].0) == Some(members[1].1));
    assert(document.member(members[2].0) == Some(members[2].1));
    assert(document.member(members[3].0) == Some(members[3].1));
    if build.container_id is Some {
        assert(document.member(members[4].0) == Some(members[4].1));
    } else {
        assert(forall|i: int| 0 <= i < members.len() ==> members[i].0 != "container_id"@);
    }
    if build.error_message is Some {
        let last = members.len() - 1;
        assert(document.member(members[last].0) == Some(members[last].1));
    } else {
        assert(forall|i: int| 0 <= i < members.len() ==> members[i].0 != "error_message"@);
    }
}

/// The outcome of a connection tells each of its fields under its own name.
pub proof fn law_connection_is_documented(connection: DcConnectJson)
    ensures
        connection.json().member("workspace"@) == Some(Json::Text(connection.workspace@)),
        connection.json().member("container_id"@) == Some(Json::Text(connection.container_id@)),
        connection.json().member("workspace_folder"@) == Some(
            Json::Text(connection.workspace_folder@),
        ),
        connection.json().member("config_changed"@) == Some(Json::Bool(connection.config_changed)),
{
    json::lemma_keys();
    let document = connection.json();
    let members = document->Object_0;
    assert(json::distinct_keys(members));
    json::law_members_are_found(members);
    assert(document.member(members[0].0) == Some(members[0].1));
    assert(document.member(members[1].0) == Some(members[1].1));
    assert(document.member(members[2].0) == Some(members[2].1));
    assert(document.member(members[3].0) == Some(members[3].1));
}

/// The outcome of a smoke test tells its workspace, whether it passed, and its steps in order, each
/// with its name, status and message.
pub proof fn law_smoke_test_is_documented(test: DcSmokeJson, step: DcSmokeStepJson)
    ensures
        test.json().member("workspace"@) == Some(Json::Text(test.workspace@)),
        test.json().member("overall"@) == Some(Json::Text(test.overall@)),
        test.json().member("steps"@) matches Some(Json::Array(entries)) && entries.len()
            == test.steps@.len() && (forall|i: int|
            0 <= i < entries.len() ==> #[trigger] entries[i] == test.steps@[i].json()),
        step.json().member("name"@) == Some(Json::Text(step.name@)),
        step.json().member("status"@) == Some(Json::Text(step.status@)),
        step.json().member("message"@) == Some(Json::Text(step.message@)),
{
    json::lemma_keys();
    let document = test.json();
    let members = document->Object_0;
    assert(json::distinct_keys(members));
    json::law_members_are_found(members);
    assert(document.member(members[0].0) == Some(members[0].1));
    assert(document.member(members[1].0) == Some(members[1].1));
    assert(document.member(members[2].0) == Some(members[2].1));
    let entry = step.json();
    let inner = entry->Object_0;
    assert(json::distinct_keys(inner));
    json::law_members_are_found(inner);
    assert(entry.member(inner[0].0) == Some(inner[0].1));
    assert(entry.member(inner[1].0) == Some(inner[1].1));
    assert(entry.member(inner[2].0) == Some(inner[2].1));
}

} // verus!
