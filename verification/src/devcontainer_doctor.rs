//! The diagnosis of a workspace: what each observation means, the overall verdict and the report.

use crate::console;
use crate::json;
use crate::json::Json;
use crate::path;
use crate::platform::Platform;
use crate::schemas;
use crate::text;
use serde_json::Value;
use vstd::prelude::*;
use vstd::string::StringExecFns;

verus! {

/// The outcome of one check.
#[derive(Debug, Clone, Copy, PartialEq, Eq, Structural)]
pub enum CheckStatus {
    Okay,
    Warn,
    Error,
    Skip,
}

/// One check of a diagnosis.
#[derive(Debug, Clone)]
pub struct CheckResult {
    pub name: String,
    pub status: CheckStatus,
    pub message: String,
    pub suggestion: Option<String>,
    pub details: Option<Value>,
}

/// The model of a check.
pub struct CheckModel {
    pub name: Seq<char>,
    pub status: CheckStatus,
    pub message: Seq<char>,
    pub suggestion: Option<Seq<char>>,
    pub details: Option<Json>,
}

impl View for CheckResult {
    type V = CheckModel;

    open spec fn view(&self) -> CheckModel {
        CheckModel {
            name: self.name@,
            status: self.status,
            message: self.message@,
            suggestion: text::text_option(self.suggestion),
            details: json::json_option(self.details),
        }
    }
}

/// The overall state of a workspace.
#[derive(Debug, Clone, Copy, PartialEq, Eq, Structural)]
pub enum Verdict {
    Healthy,
    Degraded,
    Broken,
}

/// What the daemon says of Docker before a build.
pub struct PrefightData {
    pub docker_available: bool,
    pub docker_permissions_ok: bool,
    pub error_message: String,
}

/// What the daemon says of the container of a workspace.
pub struct StatusData {
    pub container_id: String,
    pub status: String,
    pub running: bool,
}

/// The command that starts the daemon.
pub const TALA_COMMAND: &'static str = "cd /workspace/_JAGORA/tala && cargo run -p tala-server --bin tala";

/// The details of a daemon that answered.
pub open spec fn tala_details(socket: Seq<char>, version: Seq<char>, healthy: bool) -> Json {
    Json::Object(
        seq![
            ("socket"@, Json::Text(socket)),
            ("version"@, Json::Text(version)),
            ("healthy"@, Json::Bool(healthy)),
        ],
    )
}

/// The check of the daemon, from its answer or from the error of asking.
pub open spec fn tala_check(result: Result<(String, bool), String>, socket: Seq<char>) -> CheckModel {
    match result {
        Ok((version, true)) => CheckModel {
            name: "Tala daemon"@,
            status: CheckStatus::Okay,
            message: "Tala daemon reachable at "@ + socket + " (version "@ + version@ + ")"@,
            suggestion: None,
            details: Some(tala_details(socket, version@, true)),
        },
        Ok((version, false)) => CheckModel {
            name: "Tala daemon"@,
            status: CheckStatus::Error,
            message: "Tala daemon at "@ + socket + " reports unhealthy (version "@ + version@
                + ")"@,
            suggestion: Some("Restart the tala daemon: "@ + TALA_COMMAND@),
            details: Some(tala_details(socket, version@, false)),
        },
        Err(error) => CheckModel {
            name: "Tala daemon"@,
            status: CheckStatus::Error,
            message: "Tala daemon not reachable at "@ + socket,
            suggestion: Some(
                "Start tala in a separate terminal:\n  "@ + TALA_COMMAND@ + "\n\nError: "@ + error@,
            ),
            details: Some(
                Json::Object(seq![("socket"@, Json::Text(socket)), ("error"@, Json::Text(error@))]),
            ),
        },
    }
}

/// The details of a daemon that answered.
fn tala_details_value(socket: &str, version: &str, healthy: bool) -> (r: Value)
    ensures
        json::json_of(r) == tala_details(socket@, version@, healthy),
{
    let members = vec![
        json::member("socket", json::string(socket)),
        json::member("version", json::string(version)),
        json::member("healthy", json::boolean(healthy)),
    ];
    proof {
        json::lemma_keys();
        assert(json::members_of(members@) =~= tala_details(socket@, version@, healthy)->Object_0);
    }
    json::object(members)
}

/// The check of the daemon, from its answer or from the error of asking.
pub fn interpret_tala_health(
    result: Result<(String, bool), String>,
    socket_path: &str,
) -> (r: CheckResult)
    ensures
        r@ == tala_check(result, socket_path@),
{
    match result {
        Ok((version, true)) => CheckResult {
            name: "Tala daemon".to_owned(),
            status: CheckStatus::Okay,
            message: "Tala daemon reachable at ".to_owned().concat(socket_path).concat(
                " (version ",
            ).concat(version.as_str()).concat(")"),
            suggestion: None,
            details: Some(tala_details_value(socket_path, version.as_str(), true)),
        },
        Ok((version, false)) => CheckResult {
            name: "Tala daemon".to_owned(),
            status: CheckStatus::Error,
            message: "Tala daemon at ".to_owned().concat(socket_path).concat(
                " reports unhealthy (version ",
            ).concat(version.as_str()).concat(")"),
            suggestion: Some("Restart the tala daemon: ".to_owned().concat(TALA_COMMAND)),
            details: Some(tala_details_value(socket_path, version.as_str(), false)),
        },
        Err(error) => {
            let members = vec![
                json::member("socket", json::string(socket_path)),
                json::member("error", json::string(error.as_str())),
            ];
            proof {
                json::lemma_keys();
                assert(json::members_of(members@) =~= seq![
                    ("socket"@, Json::Text(socket_path@)),
                    ("error"@, Json::Text(error@)),
                ]);
            }
            CheckResult {
                name: "Tala daemon".to_owned(),
                status: CheckStatus::Error,
                message: "Tala daemon not reachable at ".to_owned().concat(socket_path),
                suggestion: Some(
                    "Start tala in a separate terminal:\n  ".to_owned().concat(TALA_COMMAND).concat(
                        "\n\nError: ",
                    ).concat(error.as_str()),
                ),
                details: Some(json::object(members)),
            }
        },
    }
}

/// The path of a configuration file as a report shows it: below the workspace where it lies there.
pub open spec fn shown_config(
    platform: Platform,
    workspace: Seq<char>,
    config: Seq<char>,
) -> Seq<char> {
    match path::relative_text(platform, config, workspace) {
        Some(rest) => rest,
        None => config,
    }
}

/// The check of the configuration file.
pub open spec fn config_check(
    platform: Platform,
    workspace: Seq<char>,
    config: Option<Seq<char>>,
) -> CheckModel {
    match config {
        Some(path) => CheckModel {
            name: "DevContainer config"@,
            status: CheckStatus::Okay,
            message: "DevContainer config detected ("@ + shown_config(platform, workspace, path) + ")"@,
            suggestion: None,
            details: Some(Json::Object(seq![("config_path"@, Json::Text(path))])),
        },
        None => CheckModel {
            name: "DevContainer config"@,
            status: CheckStatus::Warn,
            message: "No DevContainer config found for this workspace"@,
            suggestion: Some(
                "Create .devcontainer/devcontainer.json manually, or use Flow 0 scaffold from Sala."@,
            ),
            details: None,
        },
    }
}

/// The check of the configuration file.
pub fn interpret_devcontainer_config(
    platform: Platform,
    workspace: &str,
    config_path: Option<String>,
) -> (r: CheckResult)
    ensures
        r@ == config_check(platform, workspace@, text::text_option(config_path)),
{
    match config_path {
        Some(config) => {
            let shown = match path::relative(platform, config.as_str(), workspace) {
                Some(rest) => rest,
                None => config.clone(),
            };
            let members = vec![json::member("config_path", json::string(config.as_str()))];
            assert(json::members_of(members@) =~= seq![("config_path"@, Json::Text(config@))]);
            CheckResult {
                name: "DevContainer config".to_owned(),
                status: CheckStatus::Okay,
                message: "DevContainer config detected (".to_owned().concat(shown.as_str()).concat(
                    ")",
                ),
                suggestion: None,
                details: Some(json::object(members)),
            }
        },
        None => CheckResult {
            name: "DevContainer config".to_owned(),
            status: CheckStatus::Warn,
            message: "No DevContainer config found for this workspace".to_owned(),
            suggestion: Some(
                "Create .devcontainer/devcontainer.json manually, or use Flow 0 scaffold from Sala.".to_owned(),
            ),
            details: None,
        },
    }
}

/// A check of the Docker daemon.
pub open spec fn docker_result(
    status: CheckStatus,
    message: Seq<char>,
    suggestion: Option<Seq<char>>,
    details: Option<Json>,
) -> CheckModel {
    CheckModel { name: "Docker daemon"@, status, message, suggestion, details }
}

/// What a report adds to the advice to start Docker: the error, where there is one.
pub open spec fn docker_detail(error: Seq<char>) -> Seq<char> {
    if error.len() == 0 {
        seq![]
    } else {
        "Detail: "@ + error
    }
}

/// The check of Docker from what the daemon says of it.
pub open spec fn preflight_check(data: PrefightData) -> CheckModel {
    if data.docker_available && data.docker_permissions_ok {
        docker_result(
            CheckStatus::Okay,
            "Docker daemon reachable with correct permissions"@,
            None,
            Some(
                Json::Object(
                    seq![
                        ("docker_available"@, Json::Bool(true)),
                        ("permissions_ok"@, Json::Bool(true)),
                        ("source"@, Json::Text("tala_preflight"@)),
                    ],
                ),
            ),
        )
    } else if data.docker_available {
        docker_result(
            CheckStatus::Error,
            "Docker daemon reachable but permissions denied"@,
            Some(
                "Add your user to the docker group: sudo usermod -aG docker $USER && newgrp docker"@,
            ),
            Some(
                Json::Object(
                    seq![
                        ("docker_available"@, Json::Bool(true)),
                        ("permissions_ok"@, Json::Bool(false)),
                        ("error_message"@, Json::Text(data.error_message@)),
                    ],
                ),
            ),
        )
    } else {
        docker_result(
            CheckStatus::Error,
            "Docker daemon not available"@,
            Some(
                "Start Docker Desktop or the Docker service.\n"@ + docker_detail(
                    data.error_message@,
                ),
            ),
            Some(
                Json::Object(
                    seq![
                        ("docker_available"@, Json::Bool(false)),
                        ("error_message"@, Json::Text(data.error_message@)),
                    ],
                ),
            ),
        )
    }
}

/// The details of a check that asked Docker itself.
pub open spec fn direct_details() -> Json {
    Json::Object(seq![("source"@, Json::Text("direct"@))])
}

/// The check of Docker: from what the daemon says, or from asking Docker itself where the daemon
/// could not be asked.
pub open spec fn docker_check(
    preflight: Option<Result<PrefightData, String>>,
    direct_docker_ok: Option<bool>,
) -> CheckModel {
    match (preflight, direct_docker_ok) {
        (Some(Ok(data)), _) => preflight_check(data),
        (Some(Err(error)), _) => docker_result(
            CheckStatus::Error,
            "Failed to check Docker via Tala preflight"@,
            Some("Error: "@ + error@),
            None,
        ),
        (None, Some(true)) => docker_result(
            CheckStatus::Okay,
            "Docker daemon reachable (direct check, Tala unavailable)"@,
            None,
            Some(direct_details()),
        ),
        (None, Some(false)) => docker_result(
            CheckStatus::Error,
            "Docker daemon not reachable"@,
            Some("Start Docker Desktop or the Docker service."@),
            Some(direct_details()),
        ),
        (None, None) => docker_result(
            CheckStatus::Skip,
            "Docker check skipped (Tala unavailable, direct check failed)"@,
            None,
            None,
        ),
    }
}

/// A check of the Docker daemon.
fn docker_report(
    status: CheckStatus,
    message: &str,
    suggestion: Option<String>,
    details: Option<Value>,
) -> (r: CheckResult)
    ensures
        r@ == docker_result(
            status,
            message@,
            text::text_option(suggestion),
            json::json_option(details),
        ),
{
    CheckResult {
        name: "Docker daemon".to_owned(),
        status,
        message: message.to_owned(),
        suggestion,
        details,
    }
}

/// The check of Docker from what the daemon says of it.
fn interpret_preflight(data: PrefightData) -> (r: CheckResult)
    ensures
        r@ == preflight_check(data),
{
    let ghost wanted = preflight_check(data).details->0->Object_0;
    proof {
        json::lemma_keys();
    }
    if data.docker_available && data.docker_permissions_ok {
        let members = vec![
            json::member("docker_available", json::boolean(true)),
            json::member("permissions_ok", json::boolean(true)),
            json::member("source", json::string("tala_preflight")),
        ];
        assert(json::members_of(members@) =~= wanted);
        docker_report(
            CheckStatus::Okay,
            "Docker daemon reachable with correct permissions",
            None,
            Some(json::object(members)),
        )
    } else if data.docker_available {
        let members = vec![
            json::member("docker_available", json::boolean(true)),
            json::member("permissions_ok", json::boolean(false)),
            json::member("error_message", json::string(data.error_message.as_str())),
        ];
        assert(json::members_of(members@) =~= wanted);
        docker_report(
            CheckStatus::Error,
            "Docker daemon reachable but permissions denied",
            Some(
                "Add your user to the docker group: sudo usermod -aG docker $USER && newgrp docker".to_owned(),
            ),
            Some(json::object(members)),
        )
    } else {
        let members = vec![
            json::member("docker_available", json::boolean(false)),
            json::member("error_message", json::string(data.error_message.as_str())),
        ];
        assert(json::members_of(members@) =~= wanted);
        let detail = if data.error_message.as_str().is_empty() {
            String::new()
        } else {
            "Detail: ".to_owned().concat(data.error_message.as_str())
        };
        docker_report(
            CheckStatus::Error,
            "Docker daemon not available",
            Some(
                "Start Docker Desktop or the Docker service.\n".to_owned().concat(detail.as_str()),
            ),
            Some(json::object(members)),
        )
    }
}

/// The details of a check that asked Docker itself.
fn direct_details_value() -> (r: Value)
    ensures
        json::json_of(r) == direct_details(),
{
    let members = vec![json::member("source", json::string("direct"))];
    assert(json::members_of(members@) =~= direct_details()->Object_0);
    json::object(members)
}

/// The check of Docker: from what the daemon says, or from asking Docker itself where the daemon
/// could not be asked.
pub fn interpret_docker_preflight(
    preflight: Option<Result<PrefightData, String>>,
    direct_docker_ok: Option<bool>,
) -> (r: CheckResult)
    ensures
        r@ == docker_check(preflight, direct_docker_ok),
{
    match preflight {
        Some(Ok(data)) => interpret_preflight(data),
        Some(Err(error)) => docker_report(
            CheckStatus::Error,
            "Failed to check Docker via Tala preflight",
            Some("Error: ".to_owned().concat(error.as_str())),
            None,
        ),
        None => match direct_docker_ok {
            Some(true) => docker_report(
                CheckStatus::Okay,
                "Docker daemon reachable (direct check, Tala unavailable)",
                None,
                Some(direct_details_value()),
            ),
            Some(false) => docker_report(
                CheckStatus::Error,
                "Docker daemon not reachable",
                Some("Start Docker Desktop or the Docker service.".to_owned()),
                Some(direct_details_value()),
            ),
            None => docker_report(
                CheckStatus::Skip,
                "Docker check skipped (Tala unavailable, direct check failed)",
                None,
                None,
            ),
        },
    }
}

/// A check of the container of a workspace.
pub open spec fn container_result(
    status: CheckStatus,
    message: Seq<char>,
    suggestion: Option<Seq<char>>,
    details: Option<Json>,
) -> CheckModel {
    CheckModel { name: "Container status"@, status, message, suggestion, details }
}

/// The details of a container.
pub open spec fn container_details(data: StatusData) -> Json {
    Json::Object(
        seq![
            ("container_id"@, Json::Text(data.container_id@)),
            ("status"@, Json::Text(data.status@)),
            ("running"@, Json::Bool(data.running)),
        ],
    )
}

/// The check of the container of a workspace.
pub open spec fn status_check(status: Option<Result<StatusData, String>>) -> CheckModel {
    match status {
        Some(Ok(data)) => if data.running {
            container_result(
                CheckStatus::Okay,
                "Container running ("@ + text::short_id_text(data.container_id@) + ", status: "@
                    + data.status@ + ")"@,
                None,
                Some(container_details(data)),
            )
        } else if data.container_id@.len() > 0 {
            container_result(
                CheckStatus::Warn,
                "Container exists but not running (status: "@ + data.status@ + ")"@,
                Some("Trigger reconnect from Sala, or run Flow 1 build to restart."@),
                Some(container_details(data)),
            )
        } else {
            container_result(
                CheckStatus::Warn,
                "No DevContainer has been built for this workspace"@,
                Some("Run Flow 1 build from Sala, or use: make dc-build"@),
                None,
            )
        },
        Some(Err(error)) => container_result(
            CheckStatus::Warn,
            "Could not query workspace status from Tala"@,
            Some("Error: "@ + error@),
            None,
        ),
        None => container_result(
            CheckStatus::Skip,
            "Container status check skipped (Tala unavailable)"@,
            None,
            None,
        ),
    }
}

/// The container that runs for a workspace.
pub open spec fn running_container(status: Option<Result<StatusData, String>>) -> Option<
    Seq<char>,
> {
    match status {
        Some(Ok(data)) => if data.running {
            Some(data.container_id@)
        } else {
            None
        },
        _ => None,
    }
}

/// A check of the container of a workspace.
fn container_report(
    status: CheckStatus,
    message: String,
    suggestion: Option<String>,
    details: Option<Value>,
) -> (r: CheckResult)
    ensures
        r@ == container_result(
            status,
            message@,
            text::text_option(suggestion),
            json::json_option(details),
        ),
{
    CheckResult {
        name: "Container status".to_owned(),
        status,
        message,
        suggestion,
        details,
    }
}

/// The details of a container.
fn container_details_value(data: &StatusData) -> (r: Value)
    ensures
        json::json_of(r) == container_details(*data),
{
    let members = vec![
        json::member("container_id", json::string(data.container_id.as_str())),
        json::member("status", json::string(data.status.as_str())),
        json::member("running", json::boolean(data.running)),
    ];
    proof {
        json::lemma_keys();
        assert(json::members_of(members@) =~= container_details(*data)->Object_0);
    }
    json::object(members)
}

/// The check of the container of a workspace, and the container that runs there.
pub fn interpret_workspace_status(status: Option<Result<StatusData, String>>) -> (r: (
    CheckResult,
    Option<String>,
))
    requires
        running_container(status) matches Some(id) ==> text::has_short_id(id),
    ensures
        r.0@ == status_check(status),
        text::text_option(r.1) == running_container(status),
{
    match status {
        Some(Ok(data)) => {
            if data.running {
                let message = "Container running (".to_owned().concat(
                    text::short_id(data.container_id.as_str()),
                ).concat(", status: ").concat(data.status.as_str()).concat(")");
                let details = container_details_value(&data);
                (
                    container_report(CheckStatus::Okay, message, None, Some(details)),
                    Some(data.container_id),
                )
            } else if !data.container_id.as_str().is_empty() {
                let message = "Container exists but not running (status: ".to_owned().concat(
                    data.status.as_str(),
                ).concat(")");
                let advice = "Trigger reconnect from Sala, or run Flow 1 build to restart.".to_owned();
                let details = container_details_value(&data);
                (container_report(CheckStatus::Warn, message, Some(advice), Some(details)), None)
            } else {
                let message = "No DevContainer has been built for this workspace".to_owned();
                let advice = "Run Flow 1 build from Sala, or use: make dc-build".to_owned();
                (container_report(CheckStatus::Warn, message, Some(advice), None), None)
            }
        },
        Some(Err(error)) => {
            let message = "Could not query workspace status from Tala".to_owned();
            let advice = "Error: ".to_owned().concat(error.as_str());
            (container_report(CheckStatus::Warn, message, Some(advice), None), None)
        },
        None => {
            let message = "Container status check skipped (Tala unavailable)".to_owned();
            (container_report(CheckStatus::Skip, message, None, None), None)
        },
    }
}

/// How a report marks a capability.
pub open spec fn capability_mark(ok: bool) -> Seq<char> {
    if ok {
        "OK"@
    } else {
        "FAIL"@
    }
}

/// `word` where `missing` holds, else nothing.
pub open spec fn word_if(missing: bool, word: Seq<char>) -> Seq<Seq<char>> {
    if missing {
        seq![word]
    } else {
        seq![]
    }
}

/// What each missing capability is called.
pub open spec fn missing_names(terminal_ok: bool, rust_ok: bool, python_ok: bool) -> Seq<
    Seq<char>,
> {
    word_if(!terminal_ok, "terminal"@) + word_if(!rust_ok, "rust-analyzer"@) + word_if(
        !python_ok,
        "pyright"@,
    )
}

/// What to do about each missing capability.
pub open spec fn missing_hints(terminal_ok: bool, rust_ok: bool, python_ok: bool) -> Seq<
    Seq<char>,
> {
    word_if(!terminal_ok, "Check that the container allows docker exec."@) + word_if(
        !rust_ok,
        "Install rust-analyzer in the container (rustup component add rust-analyzer)."@,
    ) + word_if(!python_ok, "Install pyright in the container (npm install -g pyright)."@)
}

/// The check of what works inside the running container.
pub open spec fn capabilities_check(
    container_id: Option<Seq<char>>,
    caps: Option<(bool, bool, bool)>,
) -> CheckModel {
    match (container_id, caps) {
        (Some(id), Some((terminal_ok, rust_ok, python_ok))) => {
            let details = Json::Object(
                seq![
                    ("terminal_ok"@, Json::Bool(terminal_ok)),
                    ("lsp_rust_ok"@, Json::Bool(rust_ok)),
                    ("lsp_python_ok"@, Json::Bool(python_ok)),
                ],
            );
            if terminal_ok && rust_ok && python_ok {
                CheckModel {
                    name: "Capabilities"@,
                    status: CheckStatus::Okay,
                    message: "Container "@ + text::short_id_text(id)
                        + " \u{2014} terminal=OK, rust_lsp=OK, py_lsp=OK"@,
                    suggestion: None,
                    details: Some(details),
                }
            } else {
                CheckModel {
                    name: "Capabilities"@,
                    status: CheckStatus::Warn,
                    message: "Container "@ + text::short_id_text(id) + " \u{2014} terminal="@
                        + capability_mark(terminal_ok) + ", rust_lsp="@ + capability_mark(rust_ok)
                        + ", py_lsp="@ + capability_mark(python_ok) + ". Missing: "@
                        + text::join_texts(missing_names(terminal_ok, rust_ok, python_ok), ", "@),
                    suggestion: Some(
                        text::join_texts(missing_hints(terminal_ok, rust_ok, python_ok), "\n"@),
                    ),
                    details: Some(details),
                }
            }
        },
        (None, _) => CheckModel {
            name: "Capabilities"@,
            status: CheckStatus::Skip,
            message: "Capability checks skipped (no running container)"@,
            suggestion: None,
            details: None,
        },
        (Some(_), None) => CheckModel {
            name: "Capabilities"@,
            status: CheckStatus::Skip,
            message: "Capability checks could not be performed"@,
            suggestion: None,
            details: None,
        },
    }
}

/// How a report marks a capability.
fn mark(ok: bool) -> (r: &'static str)
    ensures
        r@ == capability_mark(ok),
{
    if ok {
        "OK"
    } else {
        "FAIL"
    }
}

/// The words whose capability is missing, in order.
fn missing_words(
    terminal: Option<&str>,
    rust: Option<&str>,
    python: Option<&str>,
) -> (r: Vec<String>)
    ensures
        text::texts(r@) == word_if(terminal is Some, terminal->0@) + word_if(
            rust is Some,
            rust->0@,
        ) + word_if(python is Some, python->0@),
{
    let mut words: Vec<String> = Vec::new();
    if let Some(word) = terminal {
        words.push(word.to_owned());
    }
    if let Some(word) = rust {
        words.push(word.to_owned());
    }
    if let Some(word) = python {
        words.push(word.to_owned());
    }
    assert(text::texts(words@) =~= word_if(terminal is Some, terminal->0@) + word_if(
        rust is Some,
        rust->0@,
    ) + word_if(python is Some, python->0@));
    words
}

/// `word` unless `ok` holds.
fn unless<'a>(ok: bool, word: &'a str) -> (r: Option<&'a str>)
    ensures
        r == if ok {
            None
        } else {
            Some(word)
        },
{
    if ok {
        None
    } else {
        Some(word)
    }
}

/// The check of what works inside the running container: the terminal, `rust-analyzer` and
/// `pyright`, in this order.
pub fn interpret_capabilities(
    container_id: Option<&str>,
    caps: Option<(bool, bool, bool)>,
) -> (r: CheckResult)
    requires
        container_id is Some && caps is Some ==> text::has_short_id(container_id->0@),
    ensures
        r@ == capabilities_check(text::str_option(container_id), caps),
{
    match (container_id, caps) {
        (Some(id), Some((terminal_ok, rust_ok, python_ok))) => {
            let members = vec![
                json::member("terminal_ok", json::boolean(terminal_ok)),
                json::member("lsp_rust_ok", json::boolean(rust_ok)),
                json::member("lsp_python_ok", json::boolean(python_ok)),
            ];
            proof {
                json::lemma_keys();
                assert(json::members_of(members@) =~= capabilities_check(
                    Some(id@),
                    caps,
                ).details->0->Object_0);
            }
            let details = json::object(members);
            if terminal_ok && rust_ok && python_ok {
                CheckResult {
                    name: "Capabilities".to_owned(),
                    status: CheckStatus::Okay,
                    message: "Container ".to_owned().concat(text::short_id(id)).concat(
                        " \u{2014} terminal=OK, rust_lsp=OK, py_lsp=OK",
                    ),
                    suggestion: None,
                    details: Some(details),
                }
            } else {
                let names = missing_words(
                    unless(terminal_ok, "terminal"),
                    unless(rust_ok, "rust-analyzer"),
                    unless(python_ok, "pyright"),
                );
                let hints = missing_words(
                    unless(terminal_ok, "Check that the container allows docker exec."),
                    unless(
                        rust_ok,
                        "Install rust-analyzer in the container (rustup component add rust-analyzer).",
                    ),
                    unless(
                        python_ok,
                        "Install pyright in the container (npm install -g pyright).",
                    ),
                );
                CheckResult {
                    name: "Capabilities".to_owned(),
                    status: CheckStatus::Warn,
                    message: "Container ".to_owned().concat(text::short_id(id)).concat(
                        " \u{2014} terminal=",
                    ).concat(mark(terminal_ok)).concat(", rust_lsp=").concat(mark(rust_ok)).concat(
                        ", py_lsp=",
                    ).concat(mark(python_ok)).concat(". Missing: ").concat(
                        text::join(&names, ", ").as_str(),
                    ),
                    suggestion: Some(text::join(&hints, "\n")),
                    details: Some(details),
                }
            }
        },
        (None, _) => CheckResult {
            name: "Capabilities".to_owned(),
            status: CheckStatus::Skip,
            message: "Capability checks skipped (no running container)".to_owned(),
            suggestion: None,
            details: None,
        },
        (Some(_), None) => CheckResult {
            name: "Capabilities".to_owned(),
            status: CheckStatus::Skip,
            message: "Capability checks could not be performed".to_owned(),
            suggestion: None,
            details: None,
        },
    }
}

/// Some check has this status.
pub open spec fn any_status(checks: Seq<CheckResult>, status: CheckStatus) -> bool {
    exists|i: int| 0 <= i < checks.len() && (#[trigger] checks[i]).status == status
}

/// The verdict on the checks: an error breaks, a warning degrades.
pub open spec fn verdict_of(checks: Seq<CheckResult>) -> Verdict {
    if any_status(checks, CheckStatus::Error) {
        Verdict::Broken
    } else if any_status(checks, CheckStatus::Warn) {
        Verdict::Degraded
    } else {
        Verdict::Healthy
    }
}

/// Whether some check has this status.
fn has_status(checks: &[CheckResult], status: CheckStatus) -> (r: bool)
    ensures
        r == any_status(checks@, status),
{
    let mut i: usize = 0;
    while i < checks.len()
        invariant
            i <= checks@.len(),
            forall|j: int| 0 <= j < i ==> (#[trigger] checks@[j]).status != status,
        decreases checks@.len() - i,
    {
        if checks[i].status == status {
            assert(checks@[i as int].status == status);
            return true;
        }
        i = i + 1;
    }
    false
}

/// The verdict on the checks: an error breaks, a warning degrades.
pub fn compute_verdict(checks: &[CheckResult]) -> (r: Verdict)
    ensures
        r == verdict_of(checks@),
{
    let has_error = has_status(checks, CheckStatus::Error);
    let has_warn = has_status(checks, CheckStatus::Warn);
    if has_error {
        Verdict::Broken
    } else if has_warn {
        Verdict::Degraded
    } else {
        Verdict::Healthy
    }
}

/// The exit code of the diagnosis: one where the workspace is broken, else zero.
pub open spec fn doctor_exit_code(verdict: Verdict) -> i32 {
    match verdict {
        Verdict::Broken => 1,
        _ => 0,
    }
}

/// The exit code of the diagnosis.
pub fn exit_code(verdict: Verdict) -> (r: i32)
    ensures
        r == doctor_exit_code(verdict),
{
    match verdict {
        Verdict::Broken => 1,
        _ => 0,
    }
}

/// The exit code is zero exactly where no check is an error.
pub proof fn law_exit_code_zero_iff_no_error(checks: Seq<CheckResult>)
    ensures
        (doctor_exit_code(verdict_of(checks)) == 0) == !any_status(checks, CheckStatus::Error),
        doctor_exit_code(verdict_of(checks)) == 0 || doctor_exit_code(verdict_of(checks)) == 1,
{
}

/// A verdict is healthy exactly where every check passed or was skipped.
pub proof fn law_healthy_iff_all_passed_or_skipped(checks: Seq<CheckResult>)
    ensures
        (verdict_of(checks) == Verdict::Healthy) == (forall|i: int|
            0 <= i < checks.len() ==> (#[trigger] checks[i]).status == CheckStatus::Okay
                || checks[i].status == CheckStatus::Skip),
{
}

/// How bad a verdict is.
pub open spec fn severity(verdict: Verdict) -> int {
    match verdict {
        Verdict::Healthy => 0,
        Verdict::Degraded => 1,
        Verdict::Broken => 2,
    }
}

/// A further check never makes a verdict better.
pub proof fn law_more_checks_never_improve(checks: Seq<CheckResult>, check: CheckResult)
    ensures
        severity(verdict_of(checks)) <= severity(verdict_of(checks.push(check))),
{
    let more = checks.push(check);
    assert forall|status: CheckStatus| any_status(checks, status) implies #[trigger] any_status(
        more,
        status,
    ) by {
        let i = choose|i: int| 0 <= i < checks.len() && (#[trigger] checks[i]).status == status;
        assert(more[i].status == status);
    }
    assert(any_status(checks, CheckStatus::Error) ==> any_status(more, CheckStatus::Error));
    assert(any_status(checks, CheckStatus::Warn) ==> any_status(more, CheckStatus::Warn));
}

/// The verdict does not depend on the order of the checks.
pub proof fn law_verdict_ignores_order(a: Seq<CheckResult>, b: Seq<CheckResult>)
    requires
        a.to_multiset() == b.to_multiset(),
    ensures
        verdict_of(a) == verdict_of(b),
{
    lemma_any_status_by_contents(a, b);
    lemma_any_status_by_contents(b, a);
}

proof fn lemma_any_status_by_contents(a: Seq<CheckResult>, b: Seq<CheckResult>)
    requires
        a.to_multiset() == b.to_multiset(),
    ensures
        forall|status: CheckStatus|
            any_status(a, status) ==> #[trigger] any_status(b, status),
{
    a.to_multiset_ensures();
    b.to_multiset_ensures();
    assert forall|status: CheckStatus| any_status(a, status) implies #[trigger] any_status(
        b,
        status,
    ) by {
        let i = choose|i: int| 0 <= i < a.len() && (#[trigger] a[i]).status == status;
        assert(a.contains(a[i]));
        assert(a.to_multiset().count(a[i]) > 0);
        assert(b.to_multiset().count(a[i]) > 0);
        assert(b.contains(a[i]));
        let j = choose|j: int| 0 <= j < b.len() && b[j] == a[i];
        assert(b[j].status == status);
    }
}

pub const GREEN: &'static str = "\x1b[32m";

pub const YELLOW: &'static str = "\x1b[33m";

pub const RED: &'static str = "\x1b[31m";

pub const DIM: &'static str = "\x1b[2m";

pub const BOLD: &'static str = "\x1b[1m";

pub const RESET: &'static str = "\x1b[0m";

/// The badge in front of a check.
pub open spec fn badge_text(status: CheckStatus, use_color: bool) -> Seq<char> {
    match (status, use_color) {
        (CheckStatus::Okay, true) => "\x1b[32m[OK]\x1b[0m   "@,
        (CheckStatus::Okay, false) => "[OK]   "@,
        (CheckStatus::Warn, true) => "\x1b[33m[WARN]\x1b[0m "@,
        (CheckStatus::Warn, false) => "[WARN] "@,
        (CheckStatus::Error, true) => "\x1b[31m[ERROR]\x1b[0m"@,
        (CheckStatus::Error, false) => "[ERROR]"@,
        (CheckStatus::Skip, true) => "\x1b[2m[SKIP]\x1b[0m "@,
        (CheckStatus::Skip, false) => "[SKIP] "@,
    }
}

/// The badge in front of a check.
pub fn status_badge(status: CheckStatus, use_color: bool) -> (r: &'static str)
    ensures
        r@ == badge_text(status, use_color),
{
    match (status, use_color) {
        (CheckStatus::Okay, true) => "\x1b[32m[OK]\x1b[0m   ",
        (CheckStatus::Okay, false) => "[OK]   ",
        (CheckStatus::Warn, true) => "\x1b[33m[WARN]\x1b[0m ",
        (CheckStatus::Warn, false) => "[WARN] ",
        (CheckStatus::Error, true) => "\x1b[31m[ERROR]\x1b[0m",
        (CheckStatus::Error, false) => "[ERROR]",
        (CheckStatus::Skip, true) => "\x1b[2m[SKIP]\x1b[0m ",
        (CheckStatus::Skip, false) => "[SKIP] ",
    }
}

/// The last line of a report.
pub open spec fn verdict_text(verdict: Verdict, use_color: bool) -> Seq<char> {
    match (verdict, use_color) {
        (Verdict::Healthy, true) => "\n"@ + BOLD@ + "Overall: "@ + GREEN@ + "HEALTHY"@ + RESET@
            + BOLD@ + "."@ + RESET@,
        (Verdict::Healthy, false) => "\nOverall: HEALTHY."@,
        (Verdict::Degraded, true) => "\n"@ + BOLD@ + "Overall: "@ + YELLOW@ + "DEGRADED"@ + RESET@
            + BOLD@ + " \u{2014} follow the WARN checks above."@ + RESET@,
        (Verdict::Degraded, false) =>
            "\nOverall: DEGRADED \u{2014} follow the WARN checks above."@,
        (Verdict::Broken, true) => "\n"@ + BOLD@ + "Overall: "@ + RED@ + "BROKEN"@ + RESET@ + BOLD@
            + " \u{2014} fix the ERROR checks first."@ + RESET@,
        (Verdict::Broken, false) => "\nOverall: BROKEN \u{2014} fix the ERROR checks first."@,
    }
}

/// The coloured last line of a report.
fn colored_verdict(color: &str, word: &str, rest: &str) -> (r: String)
    ensures
        r@ == "\n"@ + BOLD@ + "Overall: "@ + color@ + word@ + RESET@ + BOLD@ + rest@ + RESET@,
{
    "\n".to_owned().concat(BOLD).concat("Overall: ").concat(color).concat(word).concat(RESET).concat(
        BOLD,
    ).concat(rest).concat(RESET)
}

/// The last line of a report.
pub fn verdict_line(verdict: Verdict, use_color: bool) -> (r: String)
    ensures
        r@ == verdict_text(verdict, use_color),
{
    match (verdict, use_color) {
        (Verdict::Healthy, true) => colored_verdict(GREEN, "HEALTHY", "."),
        (Verdict::Healthy, false) => "\nOverall: HEALTHY.".to_owned(),
        (Verdict::Degraded, true) => colored_verdict(
            YELLOW,
            "DEGRADED",
            " \u{2014} follow the WARN checks above.",
        ),
        (Verdict::Degraded, false) =>
            "\nOverall: DEGRADED \u{2014} follow the WARN checks above.".to_owned(),
        (Verdict::Broken, true) => colored_verdict(
            RED,
            "BROKEN",
            " \u{2014} fix the ERROR checks first.",
        ),
        (Verdict::Broken, false) =>
            "\nOverall: BROKEN \u{2014} fix the ERROR checks first.".to_owned(),
    }
}

/// An indented line below a check.
pub open spec fn note_text(line: Seq<char>, use_color: bool) -> Seq<char> {
    if use_color {
        "        "@ + DIM@ + line + RESET@ + "\n"@
    } else {
        "        "@ + line + "\n"@
    }
}

/// An indented line below a check.
fn note(line: &str, use_color: bool) -> (r: String)
    ensures
        r@ == note_text(line@, use_color),
{
    if use_color {
        "        ".to_owned().concat(DIM).concat(line).concat(RESET).concat("\n")
    } else {
        "        ".to_owned().concat(line).concat("\n")
    }
}

/// The indented lines below a check.
pub open spec fn notes_text(lines: Seq<Seq<char>>, use_color: bool) -> Seq<char>
    decreases lines.len(),
{
    if lines.len() == 0 {
        seq![]
    } else {
        notes_text(lines.drop_last(), use_color) + note_text(lines.last(), use_color)
    }
}

/// The indented lines below a check.
fn notes(lines: &Vec<String>, use_color: bool) -> (r: String)
    ensures
        r@ == notes_text(text::texts(lines@), use_color),
{
    let ghost all = text::texts(lines@);
    let mut r: String = String::new();
    let mut i: usize = 0;
    assert(all.take(0) =~= seq![]);
    while i < lines.len()
        invariant
            i <= lines@.len(),
            all == text::texts(lines@),
            r@ == notes_text(all.take(i as int), use_color),
        decreases lines@.len() - i,
    {
        assert(all.take(i + 1).drop_last() =~= all.take(i as int));
        r.append(note(lines[i].as_str(), use_color).as_str());
        i = i + 1;
    }
    assert(all.take(i as int) =~= all);
    r
}

/// The lines of a report on one check: its badge and message, its suggestion line by line, and,
/// in a verbose report, its details as compact JSON.
pub open spec fn check_text(check: CheckModel, verbose: bool, use_color: bool) -> Seq<char> {
    badge_text(check.status, use_color) + " "@ + check.message + "\n"@ + match check.suggestion {
        Some(suggestion) => notes_text(text::line_texts(suggestion), use_color),
        None => seq![],
    } + if verbose && check.details is Some {
        note_text("details: "@ + json::compact_text(check.details->0), use_color)
    } else {
        seq![]
    }
}

/// The lines of a report on one check.
fn check_lines(check: &CheckResult, verbose: bool, use_color: bool) -> (r: String)
    ensures
        r@ == check_text(check@, verbose, use_color),
        plain_details(check@, verbose),
{
    let mut r: String = status_badge(check.status, use_color).to_owned().concat(" ").concat(
        check.message.as_str(),
    ).concat("\n");
    match &check.suggestion {
        Some(suggestion) => {
            r.append(notes(&text::lines(suggestion.as_str()), use_color).as_str());
        },
        None => {
            assert(r@ + Seq::<char>::empty() =~= r@);
        },
    }
    let ghost shown = r@;
    assert(shown + Seq::<char>::empty() =~= shown);
    if verbose {
        if let Some(details) = &check.details {
            let json = match json::to_compact(details) {
                Ok(json) => json,
                Err(_) => String::new(),
            };
            let line = "details: ".to_owned().concat(json.as_str());
            r.append(note(line.as_str(), use_color).as_str());
        }
    }
    r
}

/// The lines of a report on the checks, in order.
pub open spec fn checks_text(checks: Seq<CheckResult>, verbose: bool, use_color: bool) -> Seq<char>
    decreases checks.len(),
{
    if checks.len() == 0 {
        seq![]
    } else {
        checks_text(checks.drop_last(), verbose, use_color) + check_text(
            checks.last()@,
            verbose,
            use_color,
        )
    }
}

/// The first lines of a report.
pub open spec fn header_text(workspace: Seq<char>, use_color: bool) -> Seq<char> {
    if use_color {
        "\n"@ + BOLD@ + "dc-doctor \u{2014} "@ + workspace + RESET@ + "\n\n"@
    } else {
        "\ndc-doctor \u{2014} "@ + workspace + "\n\n"@
    }
}

/// The report: a header, the checks in order, and the verdict.
pub open spec fn report_text(
    workspace: Seq<char>,
    checks: Seq<CheckResult>,
    verdict: Verdict,
    verbose: bool,
    use_color: bool,
) -> Seq<char> {
    header_text(workspace, use_color) + checks_text(checks, verbose, use_color) + verdict_text(
        verdict,
        use_color,
    ) + "\n"@
}

/// Whether the message and the suggestion of a check hold no escape character.
pub open spec fn plain_check(check: CheckModel) -> bool {
    console::no_escape(check.message) && (check.suggestion is Some ==> console::no_escape(
        check.suggestion->Some_0,
    ))
}

/// Whether the messages and the suggestions of checks hold no escape character.
pub open spec fn plain_checks(checks: Seq<CheckResult>) -> bool {
    forall|i: int| 0 <= i < checks.len() ==> plain_check((#[trigger] checks[i])@)
}

/// Whether the details of a check, where they are shown, hold no escape character.
pub open spec fn plain_details(check: CheckModel, verbose: bool) -> bool {
    verbose && check.details is Some ==> console::no_escape(
        json::compact_text(check.details->Some_0),
    )
}

/// The report for a person to read. Colour changes nothing of it but the escape codes.
pub fn format_text_report(
    workspace: &str,
    checks: &[CheckResult],
    verdict: Verdict,
    verbose: bool,
    use_color: bool,
) -> (r: String)
    ensures
        r@ == report_text(workspace@, checks@, verdict, verbose, use_color),
        console::no_escape(workspace@) && plain_checks(checks@) ==> console::unstyled(r@)
            == report_text(workspace@, checks@, verdict, verbose, false),
{
    let mut out: String = if use_color {
        "\n".to_owned().concat(BOLD).concat("dc-doctor \u{2014} ").concat(workspace).concat(
            RESET,
        ).concat("\n\n")
    } else {
        "\ndc-doctor \u{2014} ".to_owned().concat(workspace).concat("\n\n")
    };
    let ghost header = header_text(workspace@, use_color);
    let mut i: usize = 0;
    assert(checks@.take(0) =~= seq![]);
    assert(header + checks_text(checks@.take(0), verbose, use_color) =~= header);
    while i < checks.len()
        invariant
            i <= checks@.len(),
            out@ == header + checks_text(checks@.take(i as int), verbose, use_color),
            forall|j: int| 0 <= j < i ==> plain_details((#[trigger] checks@[j])@, verbose),
        decreases checks@.len() - i,
    {
        let ghost done = checks_text(checks@.take(i as int), verbose, use_color);
        assert(checks@.take(i + 1).drop_last() =~= checks@.take(i as int));
        let lines = check_lines(&checks[i], verbose, use_color);
        out.append(lines.as_str());
        assert(out@ =~= header + (done + lines@));
        i = i + 1;
    }
    assert(checks@.take(i as int) =~= checks@);
    out.append(verdict_line(verdict, use_color).as_str());
    out.append("\n");
    proof {
        if console::no_escape(workspace@) && plain_checks(checks@) {
            law_color_changes_no_text(workspace@, checks@, verdict, verbose);
            console::lemma_shows_itself(report_text(workspace@, checks@, verdict, verbose, false));
        }
    }
    out
}

/// Each escape code of a report is a style.
proof fn lemma_styles()
    ensures
        console::shows(GREEN@, seq![]),
        console::shows(YELLOW@, seq![]),
        console::shows(RED@, seq![]),
        console::shows(DIM@, seq![]),
        console::shows(BOLD@, seq![]),
        console::shows(RESET@, seq![]),
{
    reveal_strlit("\x1b[32m");
    reveal_strlit("\x1b[33m");
    reveal_strlit("\x1b[31m");
    reveal_strlit("\x1b[2m");
    reveal_strlit("\x1b[1m");
    reveal_strlit("\x1b[0m");
    console::lemma_style_shows_nothing(GREEN@);
    console::lemma_style_shows_nothing(YELLOW@);
    console::lemma_style_shows_nothing(RED@);
    console::lemma_style_shows_nothing(DIM@);
    console::lemma_style_shows_nothing(BOLD@);
    console::lemma_style_shows_nothing(RESET@);
}

/// A text in a style shows the text.
proof fn lemma_painted(style: Seq<char>, s: Seq<char>)
    requires
        console::shows(style, seq![]),
        console::no_escape(s),
    ensures
        console::shows(style + s + RESET@, s),
{
    lemma_styles();
    console::lemma_shows_itself(s);
    console::lemma_shows_both(style, seq![], s, s);
    console::lemma_shows_both(style + s, seq![] + s, RESET@, seq![]);
    assert(seq![] + s + seq![] =~= s);
}

/// The style of a badge, and the length of its word.
spec fn badge_parts(status: CheckStatus) -> (Seq<char>, int) {
    match status {
        CheckStatus::Okay => (GREEN@, 4),
        CheckStatus::Warn => (YELLOW@, 6),
        CheckStatus::Error => (RED@, 7),
        CheckStatus::Skip => (DIM@, 6),
    }
}

/// A coloured badge is a word in a style, and the blanks after it.
#[verifier::rlimit(50)]
proof fn lemma_badge_parts(status: CheckStatus)
    ensures
        ({
            let (style, size) = badge_parts(status);
            let plain = badge_text(status, false);
            &&& size <= plain.len()
            &&& console::no_escape(plain)
            &&& badge_text(status, true) == style + plain.take(size) + RESET@ + plain.skip(size)
        }),
{
    reveal_strlit("\x1b[0m");
    match status {
        CheckStatus::Okay => {
            reveal_strlit("\x1b[32m");
            reveal_strlit("[OK]   ");
            reveal_strlit("\x1b[32m[OK]\x1b[0m   ");
        },
        CheckStatus::Warn => {
            reveal_strlit("\x1b[33m");
            reveal_strlit("[WARN] ");
            reveal_strlit("\x1b[33m[WARN]\x1b[0m ");
        },
        CheckStatus::Error => {
            reveal_strlit("\x1b[31m");
            reveal_strlit("[ERROR]");
            reveal_strlit("\x1b[31m[ERROR]\x1b[0m");
        },
        CheckStatus::Skip => {
            reveal_strlit("\x1b[2m");
            reveal_strlit("[SKIP] ");
            reveal_strlit("\x1b[2m[SKIP]\x1b[0m ");
        },
    }
    let (style, size) = badge_parts(status);
    let plain = badge_text(status, false);
    assert(badge_text(status, true) =~= style + plain.take(size) + RESET@ + plain.skip(size));
}

/// A coloured badge shows the plain one.
proof fn lemma_badge(status: CheckStatus)
    ensures
        console::shows(badge_text(status, true), badge_text(status, false)),
{
    let (style, size) = badge_parts(status);
    let plain = badge_text(status, false);
    let word = plain.take(size);
    let blank = plain.skip(size);
    lemma_styles();
    lemma_badge_parts(status);
    lemma_painted(style, word);
    console::lemma_shows_itself(blank);
    console::lemma_shows_both(style + word + RESET@, word, blank, blank);
    assert(plain =~= word + blank);
}

/// A coloured line below a check shows the plain one.
proof fn lemma_note(line: Seq<char>)
    requires
        console::no_escape(line),
    ensures
        console::shows(note_text(line, true), note_text(line, false)),
{
    reveal_strlit("        ");
    reveal_strlit("\n");
    let indent = "        "@;
    let painted = DIM@ + line + RESET@;
    lemma_styles();
    lemma_painted(DIM@, line);
    console::lemma_shows_itself(indent);
    console::lemma_shows_itself("\n"@);
    console::lemma_shows_both(indent, indent, painted, line);
    console::lemma_shows_both(indent + painted, indent + line, "\n"@, "\n"@);
    assert(note_text(line, true) =~= indent + painted + "\n"@);
}

/// Coloured lines below a check show the plain ones.
proof fn lemma_notes(lines: Seq<Seq<char>>)
    requires
        forall|i: int| 0 <= i < lines.len() ==> console::no_escape(#[trigger] lines[i]),
    ensures
        console::shows(notes_text(lines, true), notes_text(lines, false)),
    decreases lines.len(),
{
    if lines.len() == 0 {
        console::lemma_shows_itself(seq![]);
    } else {
        let front = lines.drop_last();
        lemma_notes(front);
        lemma_note(lines.last());
        console::lemma_shows_both(
            notes_text(front, true),
            notes_text(front, false),
            note_text(lines.last(), true),
            note_text(lines.last(), false),
        );
    }
}

/// The lines of a text without escape characters have none.
proof fn lemma_lines_without_escape(s: Seq<char>)
    requires
        console::no_escape(s),
    ensures
        forall|i: int|
            0 <= i < text::line_texts(s).len() ==> console::no_escape(
                #[trigger] text::line_texts(s)[i],
            ),
    decreases s.len(),
{
    let at = text::find_char(s, '\n');
    text::lemma_find_char(s, '\n');
    if at < s.len() {
        lemma_lines_without_escape(s.skip(at + 1));
        let first = text::without_return(s.take(at));
        assert(console::no_escape(first));
        assert forall|i: int| 0 <= i < text::line_texts(s).len() implies console::no_escape(
            #[trigger] text::line_texts(s)[i],
        ) by {
            if i > 0 {
                assert(text::line_texts(s)[i] == text::line_texts(s.skip(at + 1))[i - 1]);
            }
        }
    }
}

/// The coloured lines on a check show the plain ones.
proof fn lemma_check_lines(check: CheckModel, verbose: bool)
    requires
        plain_check(check),
        plain_details(check, verbose),
    ensures
        console::shows(check_text(check, verbose, true), check_text(check, verbose, false)),
{
    reveal_strlit(" ");
    reveal_strlit("\n");
    reveal_strlit("details: ");
    let none: Seq<char> = seq![];
    console::lemma_shows_itself(none);
    console::lemma_shows_itself(" "@);
    console::lemma_shows_itself("\n"@);
    console::lemma_shows_itself(check.message);
    lemma_badge(check.status);
    let (badge, plain_badge) = (badge_text(check.status, true), badge_text(check.status, false));
    console::lemma_shows_both(badge, plain_badge, " "@, " "@);
    console::lemma_shows_both(badge + " "@, plain_badge + " "@, check.message, check.message);
    console::lemma_shows_both(
        badge + " "@ + check.message,
        plain_badge + " "@ + check.message,
        "\n"@,
        "\n"@,
    );
    let head = badge + " "@ + check.message + "\n"@;
    let plain_head = plain_badge + " "@ + check.message + "\n"@;
    let (hint, plain_hint) = match check.suggestion {
        Some(suggestion) => {
            let lines = text::line_texts(suggestion);
            lemma_lines_without_escape(suggestion);
            lemma_notes(lines);
            (notes_text(lines, true), notes_text(lines, false))
        },
        None => (none, none),
    };
    console::lemma_shows_both(head, plain_head, hint, plain_hint);
    let (more, plain_more) = if verbose && check.details is Some {
        let line = "details: "@ + json::compact_text(check.details->0);
        lemma_note(line);
        (note_text(line, true), note_text(line, false))
    } else {
        (none, none)
    };
    console::lemma_shows_both(head + hint, plain_head + plain_hint, more, plain_more);
}

/// The coloured lines on the checks show the plain ones.
proof fn lemma_checks_lines(checks: Seq<CheckResult>, verbose: bool)
    requires
        plain_checks(checks),
        forall|i: int| 0 <= i < checks.len() ==> plain_details((#[trigger] checks[i])@, verbose),
    ensures
        console::shows(checks_text(checks, verbose, true), checks_text(checks, verbose, false)),
    decreases checks.len(),
{
    if checks.len() == 0 {
        console::lemma_shows_itself(seq![]);
    } else {
        let front = checks.drop_last();
        assert forall|i: int| 0 <= i < front.len() implies plain_check((#[trigger] front[i])@)
            && plain_details(front[i]@, verbose) by {
            assert(front[i] == checks[i]);
        }
        lemma_checks_lines(front, verbose);
        lemma_check_lines(checks.last()@, verbose);
        console::lemma_shows_both(
            checks_text(front, verbose, true),
            checks_text(front, verbose, false),
            check_text(checks.last()@, verbose, true),
            check_text(checks.last()@, verbose, false),
        );
    }
}

/// The coloured header shows the plain one.
proof fn lemma_header(workspace: Seq<char>)
    requires
        console::no_escape(workspace),
    ensures
        console::shows(header_text(workspace, true), header_text(workspace, false)),
{
    reveal_strlit("\n");
    reveal_strlit("\n\n");
    reveal_strlit("dc-doctor \u{2014} ");
    reveal_strlit("\ndc-doctor \u{2014} ");
    let title = "dc-doctor \u{2014} "@ + workspace;
    let painted = BOLD@ + title + RESET@;
    lemma_styles();
    lemma_painted(BOLD@, title);
    console::lemma_shows_itself("\n"@);
    console::lemma_shows_itself("\n\n"@);
    console::lemma_shows_both("\n"@, "\n"@, painted, title);
    console::lemma_shows_both("\n"@ + painted, "\n"@ + title, "\n\n"@, "\n\n"@);
    assert(header_text(workspace, true) =~= "\n"@ + painted + "\n\n"@);
    assert(header_text(workspace, false) =~= "\n"@ + title + "\n\n"@);
}

/// The colour of a verdict, its name, and what the last line of a report says after it.
spec fn verdict_parts(verdict: Verdict) -> (Seq<char>, Seq<char>, Seq<char>) {
    match verdict {
        Verdict::Healthy => (GREEN@, "HEALTHY"@, "."@),
        Verdict::Degraded => (
            YELLOW@,
            "DEGRADED"@,
            " \u{2014} follow the WARN checks above."@,
        ),
        Verdict::Broken => (RED@, "BROKEN"@, " \u{2014} fix the ERROR checks first."@),
    }
}

/// The plain last line is made of its parts, which hold no escape character.
#[verifier::rlimit(50)]
proof fn lemma_verdict_parts(verdict: Verdict)
    ensures
        ({
            let (_, word, rest) = verdict_parts(verdict);
            &&& verdict_text(verdict, false) == "\n"@ + "Overall: "@ + word + rest
            &&& console::no_escape(word)
            &&& console::no_escape(rest)
        }),
        console::no_escape("\n"@),
        console::no_escape("Overall: "@),
{
    reveal_strlit("\n");
    reveal_strlit("Overall: ");
    let (_, word, rest) = verdict_parts(verdict);
    match verdict {
        Verdict::Healthy => {
            reveal_strlit("HEALTHY");
            reveal_strlit(".");
            reveal_strlit("\nOverall: HEALTHY.");
        },
        Verdict::Degraded => {
            reveal_strlit("DEGRADED");
            reveal_strlit(" \u{2014} follow the WARN checks above.");
            reveal_strlit("\nOverall: DEGRADED \u{2014} follow the WARN checks above.");
        },
        Verdict::Broken => {
            reveal_strlit("BROKEN");
            reveal_strlit(" \u{2014} fix the ERROR checks first.");
            reveal_strlit("\nOverall: BROKEN \u{2014} fix the ERROR checks first.");
        },
    }
    assert(verdict_text(verdict, false) =~= "\n"@ + "Overall: "@ + word + rest);
}

/// The coloured last line shows the plain one.
proof fn lemma_verdict(verdict: Verdict)
    ensures
        console::shows(verdict_text(verdict, true), verdict_text(verdict, false)),
{
    let (color, word, rest) = verdict_parts(verdict);
    let feed = "\n"@;
    let start = "Overall: "@;
    let middle = color + word + RESET@;
    let end = BOLD@ + rest + RESET@;
    lemma_styles();
    lemma_verdict_parts(verdict);
    lemma_painted(color, word);
    lemma_painted(BOLD@, rest);
    console::lemma_shows_itself(feed);
    console::lemma_shows_itself(start);
    console::lemma_shows_both(feed, feed, BOLD@, seq![]);
    assert(feed + seq![] =~= feed);
    console::lemma_shows_both(feed + BOLD@, feed, start, start);
    console::lemma_shows_both(feed + BOLD@ + start, feed + start, middle, word);
    console::lemma_shows_both(feed + BOLD@ + start + middle, feed + start + word, end, rest);
    assert(verdict_text(verdict, true) =~= feed + BOLD@ + start + middle + end);
}

/// Colour changes nothing of a report but its escape codes: without them the coloured report is the
/// plain one, which holds none. This is of texts that hold no escape character themselves; the
/// details, which only a verbose report shows, never do where they were written as JSON.
pub proof fn law_color_changes_no_text(
    workspace: Seq<char>,
    checks: Seq<CheckResult>,
    verdict: Verdict,
    verbose: bool,
)
    requires
        console::no_escape(workspace),
        plain_checks(checks),
        forall|i: int| 0 <= i < checks.len() ==> plain_details((#[trigger] checks[i])@, verbose),
    ensures
        console::unstyled(report_text(workspace, checks, verdict, verbose, true)) == report_text(
            workspace,
            checks,
            verdict,
            verbose,
            false,
        ),
        console::no_escape(report_text(workspace, checks, verdict, verbose, false)),
{
    reveal_strlit("\n");
    lemma_header(workspace);
    lemma_checks_lines(checks, verbose);
    lemma_verdict(verdict);
    console::lemma_shows_itself("\n"@);
    let (header, plain_header) = (header_text(workspace, true), header_text(workspace, false));
    let body = checks_text(checks, verbose, true);
    let plain_body = checks_text(checks, verbose, false);
    let (last, plain_last) = (verdict_text(verdict, true), verdict_text(verdict, false));
    console::lemma_shows_both(header, plain_header, body, plain_body);
    console::lemma_shows_both(header + body, plain_header + plain_body, last, plain_last);
    console::lemma_shows_both(
        header + body + last,
        plain_header + plain_body + plain_last,
        "\n"@,
        "\n"@,
    );
}

/// How a document names a status.
pub open spec fn status_word(status: CheckStatus) -> Seq<char> {
    match status {
        CheckStatus::Okay => "OK"@,
        CheckStatus::Warn => "WARN"@,
        CheckStatus::Error => "ERROR"@,
        CheckStatus::Skip => "SKIP"@,
    }
}

/// How a document names a status.
fn status_name(status: CheckStatus) -> (r: &'static str)
    ensures
        r@ == status_word(status),
{
    match status {
        CheckStatus::Okay => "OK",
        CheckStatus::Warn => "WARN",
        CheckStatus::Error => "ERROR",
        CheckStatus::Skip => "SKIP",
    }
}

/// How a document names a verdict.
pub open spec fn verdict_word(verdict: Verdict) -> Seq<char> {
    match verdict {
        Verdict::Healthy => "HEALTHY"@,
        Verdict::Degraded => "DEGRADED"@,
        Verdict::Broken => "BROKEN"@,
    }
}

/// How a document names a verdict.
fn verdict_name(verdict: Verdict) -> (r: &'static str)
    ensures
        r@ == verdict_word(verdict),
{
    match verdict {
        Verdict::Healthy => "HEALTHY",
        Verdict::Degraded => "DEGRADED",
        Verdict::Broken => "BROKEN",
    }
}

/// The document on one check: a missing suggestion and missing details are left out.
pub open spec fn check_json(check: CheckModel) -> Json {
    Json::Object(
        seq![
            ("name"@, Json::Text(check.name)),
            ("status"@, Json::Text(status_word(check.status))),
            ("message"@, Json::Text(check.message)),
        ] + schemas::optional_text("suggestion"@, check.suggestion) + schemas::optional_value(
            "details"@,
            check.details,
        ),
    )
}

/// The document of a report.
pub open spec fn report_json(
    workspace: Seq<char>,
    checks: Seq<CheckResult>,
    verdict: Verdict,
) -> Json {
    Json::Object(
        seq![
            ("workspace"@, Json::Text(workspace)),
            ("overall_status"@, Json::Text(verdict_word(verdict))),
            ("checks"@, Json::Array(checks.map_values(|c: CheckResult| check_json(c@)))),
        ],
    )
}

/// The document on one check.
fn check_document(check: &CheckResult) -> (r: schemas::DcDoctorCheckJson)
    ensures
        r.json() == check_json(check@),
{
    let details = match &check.details {
        Some(value) => Some(json::copy(value)),
        None => None,
    };
    let suggestion = match &check.suggestion {
        Some(suggestion) => Some(suggestion.clone()),
        None => None,
    };
    schemas::DcDoctorCheckJson {
        name: check.name.clone(),
        status: status_name(check.status).to_owned(),
        message: check.message.clone(),
        suggestion,
        details,
    }
}

/// The report as an indented JSON document.
pub fn format_json_report(workspace: &str, checks: &[CheckResult], verdict: Verdict) -> (r: String)
    ensures
        r@ == json::pretty_text(report_json(workspace@, checks@, verdict)),
{
    let mut documents: Vec<schemas::DcDoctorCheckJson> = Vec::new();
    let mut i: usize = 0;
    while i < checks.len()
        invariant
            i <= checks@.len(),
            documents@.len() == i,
            forall|j: int|
                0 <= j < i ==> (#[trigger] documents@[j]).json() == check_json(checks@[j]@),
        decreases checks@.len() - i,
    {
        documents.push(check_document(&checks[i]));
        i = i + 1;
    }
    let report = schemas::DcDoctorJson {
        workspace: workspace.to_owned(),
        overall_status: verdict_name(verdict).to_owned(),
        checks: documents,
    };
    proof {
        assert(report.checks@.map_values(|c: schemas::DcDoctorCheckJson| c.json())
            =~= checks@.map_values(|c: CheckResult| check_json(c@)));
        assert(report.json() == report_json(workspace@, checks@, verdict));
    }
    match json::to_pretty(&report.to_json()) {
        Ok(document) => document,
        Err(_) => "{}".to_owned(),
    }
}

/// The daemon passes where it answered that it is well, and only there; else it is an error, with
/// advice. The report says where the daemon was asked and, where it answered, its version; the
/// details say the same.
pub proof fn law_daemon_passes_where_it_is_well(
    result: Result<(String, bool), String>,
    socket: Seq<char>,
)
    ensures
        ({
            let check = tala_check(result, socket);
            &&& check.name == "Tala daemon"@
            &&& check.status == CheckStatus::Okay <==> (result matches Ok((_, healthy)) && healthy)
            &&& check.status == CheckStatus::Okay || check.status == CheckStatus::Error
            &&& check.suggestion is None <==> check.status == CheckStatus::Okay
            &&& check.details is Some
            &&& check.details->Some_0.member("socket"@) == Some(Json::Text(socket))
            &&& result matches Ok((version, healthy)) ==> {
                &&& check.details->Some_0.member("version"@) == Some(Json::Text(version@))
                &&& check.details->Some_0.member("healthy"@) == Some(Json::Bool(healthy))
                &&& check.message == if healthy {
                    "Tala daemon reachable at "@ + socket + " (version "@ + version@ + ")"@
                } else {
                    "Tala daemon at "@ + socket + " reports unhealthy (version "@ + version@ + ")"@
                }
            }
            &&& result matches Err(error) ==> {
                let advice = check.suggestion->Some_0;
                &&& check.details->Some_0.member("error"@) == Some(Json::Text(error@))
                &&& check.message == "Tala daemon not reachable at "@ + socket
                &&& advice.skip(advice.len() - error@.len()) == error@
            }
        }),
{
    json::lemma_keys();
    let check = tala_check(result, socket);
    let details = check.details->Some_0;
    let members = details->Object_0;
    assert(json::distinct_keys(members));
    json::law_members_are_found(members);
    assert(details.member(members[0].0) == Some(members[0].1));
    assert(details.member(members[1].0) == Some(members[1].1));
    match result {
        Ok(_) => {
            assert(details.member(members[2].0) == Some(members[2].1));
        },
        Err(error) => {
            let advice = check.suggestion->Some_0;
            assert(advice.skip(advice.len() - error@.len()) =~= error@);
        },
    }
}

/// A configuration passes where one was found, and only there; a missing one is a warning with
/// advice. The one that was found is shown by what follows the workspace in its path, where it lies
/// there, and stands whole in the details.
pub proof fn law_configuration_passes_where_it_is_found(
    platform: Platform,
    workspace: Seq<char>,
    config: Option<Seq<char>>,
)
    ensures
        ({
            let check = config_check(platform, workspace, config);
            &&& check.name == "DevContainer config"@
            &&& check.status == CheckStatus::Okay <==> config is Some
            &&& check.status == CheckStatus::Warn <==> config is None
            &&& check.suggestion is Some <==> config is None
            &&& config matches Some(found) ==> {
                let shown = match path::relative_text(platform, found, workspace) {
                    Some(rest) => rest,
                    None => found,
                };
                &&& check.message == "DevContainer config detected ("@ + shown + ")"@
                &&& check.details is Some
                &&& check.details->Some_0.member("config_path"@) == Some(Json::Text(found))
            }
            &&& config is None ==> check.details is None
        }),
{
    json::lemma_keys();
    if config is Some {
        let details = config_check(platform, workspace, config).details->Some_0;
        let members = details->Object_0;
        json::law_members_are_found(members);
        assert(details.member(members[0].0) == Some(members[0].1));
    }
}

/// Docker passes where the daemon says that it is there and may be used, or, where the daemon could
/// not be asked, where Docker itself answers; and only there. It is skipped where neither was asked,
/// and an error else, with advice.
#[verifier::rlimit(50)]
pub proof fn law_docker_passes_where_it_can_be_used(
    preflight: Option<Result<PrefightData, String>>,
    direct_docker_ok: Option<bool>,
)
    ensures
        ({
            let check = docker_check(preflight, direct_docker_ok);
            let usable = match preflight {
                Some(Ok(data)) => data.docker_available && data.docker_permissions_ok,
                Some(Err(_)) => false,
                None => direct_docker_ok == Some(true),
            };
            &&& check.name == "Docker daemon"@
            &&& check.status == CheckStatus::Okay <==> usable
            &&& check.status == CheckStatus::Skip <==> preflight is None && direct_docker_ok is None
            &&& check.status != CheckStatus::Warn
            &&& check.suggestion is Some <==> check.status == CheckStatus::Error
            &&& preflight matches Some(Ok(data)) ==> {
                &&& check.details is Some
                &&& check.details->Some_0.member("docker_available"@) == Some(
                    Json::Bool(data.docker_available),
                )
                &&& data.docker_available ==> check.details->Some_0.member("permissions_ok"@)
                    == Some(Json::Bool(data.docker_permissions_ok))
                &&& !usable ==> check.details->Some_0.member("error_message"@) == Some(
                    Json::Text(data.error_message@),
                )
                &&& !data.docker_available && data.error_message@.len() > 0 ==> {
                    let advice = check.suggestion->Some_0;
                    advice.skip(advice.len() - data.error_message@.len()) == data.error_message@
                }
            }
            &&& preflight matches Some(Err(error)) ==> check.suggestion == Some("Error: "@ + error@)
        }),
{
    json::lemma_keys();
    let check = docker_check(preflight, direct_docker_ok);
    match preflight {
        Some(Ok(data)) => {
            let details = check.details->Some_0;
            let members = details->Object_0;
            assert(json::distinct_keys(members));
            json::law_members_are_found(members);
            assert(details.member(members[0].0) == Some(members[0].1));
            assert(details.member(members[1].0) == Some(members[1].1));
            if data.docker_available {
                assert(details.member(members[2].0) == Some(members[2].1));
            }
            if !data.docker_available && data.error_message@.len() > 0 {
                let advice = check.suggestion->Some_0;
                assert(advice.skip(advice.len() - data.error_message@.len())
                    =~= data.error_message@);
            }
        },
        _ => {},
    }
}

/// The four things that can be said of Docker from what the daemon says are told apart by their
/// words.
pub proof fn law_docker_is_told(preflight: Option<Result<PrefightData, String>>, direct: Option<bool>)
    ensures
        docker_check(preflight, direct).message == match preflight {
            Some(Ok(data)) => if !data.docker_available {
                "Docker daemon not available"@
            } else if !data.docker_permissions_ok {
                "Docker daemon reachable but permissions denied"@
            } else {
                "Docker daemon reachable with correct permissions"@
            },
            Some(Err(_)) => "Failed to check Docker via Tala preflight"@,
            None => match direct {
                Some(true) => "Docker daemon reachable (direct check, Tala unavailable)"@,
                Some(false) => "Docker daemon not reachable"@,
                None => "Docker check skipped (Tala unavailable, direct check failed)"@,
            },
        },
{
}

/// A container passes where it runs, and only there, and then it is the one whose capabilities are
/// tested. One that does not run is a warning with advice, as is a daemon that could not say; the
/// check is skipped where the daemon was not asked.
pub proof fn law_container_passes_where_it_runs(status: Option<Result<StatusData, String>>)
    ensures
        ({
            let check = status_check(status);
            let running = status matches Some(Ok(data)) && data.running;
            &&& check.name == "Container status"@
            &&& check.status == CheckStatus::Okay <==> running
            &&& check.status == CheckStatus::Skip <==> status is None
            &&& check.status != CheckStatus::Error
            &&& check.suggestion is Some <==> check.status == CheckStatus::Warn
            &&& running_container(status) is Some <==> running
            &&& status matches Some(Ok(data)) ==> {
                &&& data.running ==> running_container(status) == Some(data.container_id@)
                &&& data.running || data.container_id@.len() > 0 ==> {
                    &&& check.details is Some
                    &&& check.details->Some_0.member("container_id"@) == Some(
                        Json::Text(data.container_id@),
                    )
                    &&& check.details->Some_0.member("status"@) == Some(Json::Text(data.status@))
                    &&& check.details->Some_0.member("running"@) == Some(Json::Bool(data.running))
                }
                &&& check.message == if data.running {
                    "Container running ("@ + text::short_id_text(data.container_id@)
                        + ", status: "@ + data.status@ + ")"@
                } else if data.container_id@.len() > 0 {
                    "Container exists but not running (status: "@ + data.status@ + ")"@
                } else {
                    "No DevContainer has been built for this workspace"@
                }
            }
            &&& status matches Some(Err(error)) ==> check.suggestion == Some("Error: "@ + error@)
        }),
{
    json::lemma_keys();
    match status {
        Some(Ok(data)) => {
            if data.running || data.container_id@.len() > 0 {
                let details = status_check(status).details->Some_0;
                let members = details->Object_0;
                assert(json::distinct_keys(members));
                json::law_members_are_found(members);
                assert(details.member(members[0].0) == Some(members[0].1));
                assert(details.member(members[1].0) == Some(members[1].1));
                assert(details.member(members[2].0) == Some(members[2].1));
            }
        },
        _ => {},
    }
}

/// The capabilities of a container that was tested pass where the terminal, `rust-analyzer` and
/// `pyright` all work, and only there; else they are a warning. Advice is given exactly where one of
/// the three is missing. The details tell all three.
pub proof fn law_capabilities_pass_where_all_work(
    id: Seq<char>,
    terminal_ok: bool,
    rust_ok: bool,
    python_ok: bool,
)
    ensures
        ({
            let check = capabilities_check(Some(id), Some((terminal_ok, rust_ok, python_ok)));
            &&& check.name == "Capabilities"@
            &&& check.status == CheckStatus::Okay <==> terminal_ok && rust_ok && python_ok
            &&& check.status == CheckStatus::Warn <==> !terminal_ok || !rust_ok || !python_ok
            &&& check.suggestion is Some <==> !terminal_ok || !rust_ok || !python_ok
            &&& check.details is Some
            &&& check.details->Some_0.member("terminal_ok"@) == Some(Json::Bool(terminal_ok))
            &&& check.details->Some_0.member("lsp_rust_ok"@) == Some(Json::Bool(rust_ok))
            &&& check.details->Some_0.member("lsp_python_ok"@) == Some(Json::Bool(python_ok))
        }),
{
    json::lemma_keys();
    let check = capabilities_check(Some(id), Some((terminal_ok, rust_ok, python_ok)));
    let details = check.details->Some_0;
    let members = details->Object_0;
    assert(json::distinct_keys(members));
    json::law_members_are_found(members);
    assert(details.member(members[0].0) == Some(members[0].1));
    assert(details.member(members[1].0) == Some(members[1].1));
    assert(details.member(members[2].0) == Some(members[2].1));
}

/// The message of a test of capabilities names the container and marks each capability by whether it
/// works; what follows names those that are missing.
#[verifier::rlimit(50)]
pub proof fn law_capabilities_are_marked(
    id: Seq<char>,
    terminal_ok: bool,
    rust_ok: bool,
    python_ok: bool,
)
    ensures
        ({
            let check = capabilities_check(Some(id), Some((terminal_ok, rust_ok, python_ok)));
            let marks = "Container "@ + text::short_id_text(id) + " \u{2014} terminal="@ + if terminal_ok {
                "OK"@
            } else {
                "FAIL"@
            } + ", rust_lsp="@ + if rust_ok {
                "OK"@
            } else {
                "FAIL"@
            } + ", py_lsp="@ + if python_ok {
                "OK"@
            } else {
                "FAIL"@
            };
            &&& marks.is_prefix_of(check.message)
            &&& terminal_ok && rust_ok && python_ok ==> check.message == marks
            &&& !(terminal_ok && rust_ok && python_ok) ==> {
                let missing = ". Missing: "@ + text::join_texts(
                    missing_names(terminal_ok, rust_ok, python_ok),
                    ", "@,
                );
                check.message == marks + missing
            }
        }),
        missing_names(terminal_ok, rust_ok, python_ok).contains("terminal"@) <==> !terminal_ok,
        missing_names(terminal_ok, rust_ok, python_ok).contains("rust-analyzer"@) <==> !rust_ok,
        missing_names(terminal_ok, rust_ok, python_ok).contains("pyright"@) <==> !python_ok,
{
    reveal_strlit(" \u{2014} terminal=OK, rust_lsp=OK, py_lsp=OK");
    reveal_strlit(" \u{2014} terminal=");
    reveal_strlit(", rust_lsp=");
    reveal_strlit(", py_lsp=");
    reveal_strlit("OK");
    reveal_strlit("terminal");
    reveal_strlit("rust-analyzer");
    reveal_strlit("pyright");
    let check = capabilities_check(Some(id), Some((terminal_ok, rust_ok, python_ok)));
    let start = "Container "@ + text::short_id_text(id);
    let marks = start + " \u{2014} terminal="@ + capability_mark(terminal_ok) + ", rust_lsp="@
        + capability_mark(rust_ok) + ", py_lsp="@ + capability_mark(python_ok);
    if terminal_ok && rust_ok && python_ok {
        assert(check.message =~= marks);
    } else {
        assert(check.message =~= marks + (". Missing: "@ + text::join_texts(
            missing_names(terminal_ok, rust_ok, python_ok),
            ", "@,
        )));
    }
    assert(check.message.take(marks.len() as int) =~= marks);
    lemma_missing(terminal_ok, rust_ok, python_ok);
}

/// The advice on missing capabilities has a line for each one that is missing, in order.
#[verifier::rlimit(50)]
pub proof fn law_each_missing_capability_gets_advice(
    id: Seq<char>,
    terminal_ok: bool,
    rust_ok: bool,
    python_ok: bool,
)
    requires
        !terminal_ok || !rust_ok || !python_ok,
    ensures
        ({
            let advice = capabilities_check(
                Some(id),
                Some((terminal_ok, rust_ok, python_ok)),
            ).suggestion;
            let terminal = "Check that the container allows docker exec."@;
            let rust = "Install rust-analyzer in the container (rustup component add rust-analyzer)."@;
            let python = "Install pyright in the container (npm install -g pyright)."@;
            &&& !terminal_ok && rust_ok && python_ok ==> advice == Some(terminal)
            &&& terminal_ok && !rust_ok && python_ok ==> advice == Some(rust)
            &&& terminal_ok && rust_ok && !python_ok ==> advice == Some(python)
            &&& !terminal_ok && !rust_ok && python_ok ==> advice == Some(terminal + "\n"@ + rust)
            &&& !terminal_ok && rust_ok && !python_ok ==> advice == Some(terminal + "\n"@ + python)
            &&& terminal_ok && !rust_ok && !python_ok ==> advice == Some(rust + "\n"@ + python)
            &&& !terminal_ok && !rust_ok && !python_ok ==> advice == Some(
                terminal + "\n"@ + rust + "\n"@ + python,
            )
        }),
{
    let terminal = "Check that the container allows docker exec."@;
    let rust = "Install rust-analyzer in the container (rustup component add rust-analyzer)."@;
    let python = "Install pyright in the container (npm install -g pyright)."@;
    let hints = missing_hints(terminal_ok, rust_ok, python_ok);
    let wanted = if terminal_ok {
        if rust_ok {
            seq![python]
        } else if python_ok {
            seq![rust]
        } else {
            seq![rust, python]
        }
    } else if rust_ok {
        if python_ok {
            seq![terminal]
        } else {
            seq![terminal, python]
        }
    } else if python_ok {
        seq![terminal, rust]
    } else {
        seq![terminal, rust, python]
    };
    assert(hints =~= wanted);
    reveal_with_fuel(text::join_texts, 4);
    if hints.len() > 1 {
        assert(hints.drop_last() =~= wanted.take(hints.len() - 1));
        if hints.len() > 2 {
            assert(hints.drop_last().drop_last() =~= wanted.take(1));
        }
    }
}

/// Which names are missing.
proof fn lemma_missing(terminal_ok: bool, rust_ok: bool, python_ok: bool)
    ensures
        missing_names(terminal_ok, rust_ok, python_ok).contains("terminal"@) <==> !terminal_ok,
        missing_names(terminal_ok, rust_ok, python_ok).contains("rust-analyzer"@) <==> !rust_ok,
        missing_names(terminal_ok, rust_ok, python_ok).contains("pyright"@) <==> !python_ok,
{
    reveal_strlit("terminal");
    reveal_strlit("rust-analyzer");
    reveal_strlit("pyright");
    let names = missing_names(terminal_ok, rust_ok, python_ok);
    let terminals = word_if(!terminal_ok, "terminal"@);
    let rusts = word_if(!rust_ok, "rust-analyzer"@);
    let pythons = word_if(!python_ok, "pyright"@);
    if !terminal_ok {
        assert(names[0] == "terminal"@);
    }
    if !rust_ok {
        assert(names[terminals.len() as int] == "rust-analyzer"@);
    }
    if !python_ok {
        assert(names[(terminals.len() + rusts.len()) as int] == "pyright"@);
    }
}

/// Capabilities are skipped where no container runs or none could be tested.
pub proof fn law_untested_capabilities_are_skipped(
    id: Seq<char>,
    caps: Option<(bool, bool, bool)>,
)
    ensures
        capabilities_check(None, caps).status == CheckStatus::Skip,
        capabilities_check(Some(id), None).status == CheckStatus::Skip,
        capabilities_check(None, caps).message == "Capability checks skipped (no running container)"@,
        capabilities_check(Some(id), None).message == "Capability checks could not be performed"@,
        capabilities_check(None, caps).suggestion is None && capabilities_check(
            None,
            caps,
        ).details is None,
        capabilities_check(Some(id), None).suggestion is None && capabilities_check(
            Some(id),
            None,
        ).details is None,
{
}

/// A verdict is broken exactly where some check is an error, and degraded exactly where none is and
/// some check is a warning.
pub proof fn law_verdict_is_the_worst_check(checks: Seq<CheckResult>)
    ensures
        verdict_of(checks) == Verdict::Broken <==> exists|i: int|
            0 <= i < checks.len() && (#[trigger] checks[i]).status == CheckStatus::Error,
        verdict_of(checks) == Verdict::Degraded <==> (forall|i: int|
            0 <= i < checks.len() ==> (#[trigger] checks[i]).status != CheckStatus::Error) && (exists|
            i: int,
        |
            0 <= i < checks.len() && (#[trigger] checks[i]).status == CheckStatus::Warn),
        doctor_exit_code(verdict_of(checks)) == 1 <==> exists|i: int|
            0 <= i < checks.len() && (#[trigger] checks[i]).status == CheckStatus::Error,
{
}

/// A diagnosis that found a capability missing is never healthy.
pub proof fn law_missing_capability_is_never_healthy(
    checks: Seq<CheckResult>,
    at: int,
    id: Seq<char>,
    terminal_ok: bool,
    rust_ok: bool,
    python_ok: bool,
)
    requires
        0 <= at < checks.len(),
        checks[at]@ == capabilities_check(Some(id), Some((terminal_ok, rust_ok, python_ok))),
        !terminal_ok || !rust_ok || !python_ok,
    ensures
        verdict_of(checks) != Verdict::Healthy,
{
    law_capabilities_pass_where_all_work(id, terminal_ok, rust_ok, python_ok);
    assert(checks[at].status == checks[at]@.status);
    law_healthy_iff_all_passed_or_skipped(checks);
}

/// The document of a check tells its name, its status in capitals, and its message; advice and
/// details stand in it where the check has them, and only there.
pub proof fn law_check_is_documented(check: CheckModel)
    ensures
        ({
            let document = check_json(check);
            &&& document.member("name"@) == Some(Json::Text(check.name))
            &&& document.member("message"@) == Some(Json::Text(check.message))
            &&& document.member("status"@) == Some(
                Json::Text(
                    match check.status {
                        CheckStatus::Okay => "OK"@,
                        CheckStatus::Warn => "WARN"@,
                        CheckStatus::Error => "ERROR"@,
                        CheckStatus::Skip => "SKIP"@,
                    },
                ),
            )
            &&& document.member("suggestion"@) == match check.suggestion {
                Some(advice) => Some(Json::Text(advice)),
                None => None,
            }
            &&& document.member("details"@) == check.details
        }),
{
    json::lemma_keys();
    let document = check_json(check);
    let members = document->Object_0;
    assert(json::distinct_keys(members));
    json::law_members_are_found(members);
    assert(document.member(members[0].0) == Some(members[0].1));
    assert(document.member(members[1].0) == Some(members[1].1));
    assert(document.member(members[2].0) == Some(members[2].1));
    if check.suggestion is Some {
        assert(document.member(members[3].0) == Some(members[3].1));
    } else {
        assert(forall|i: int| 0 <= i < members.len() ==> members[i].0 != "suggestion"@);
    }
    if check.details is Some {
        let last = members.len() - 1;
        assert(members[last] == ("details"@, check.details->Some_0));
        assert(document.member(members[last].0) == Some(members[last].1));
    } else {
        assert(forall|i: int| 0 <= i < members.len() ==> members[i].0 != "details"@);
    }
}

/// The document of a diagnosis tells the workspace, the verdict in capitals, and every check in
/// order.
pub proof fn law_diagnosis_is_documented(
    workspace: Seq<char>,
    checks: Seq<CheckResult>,
    verdict: Verdict,
)
    ensures
        ({
            let document = report_json(workspace, checks, verdict);
            &&& document.member("workspace"@) == Some(Json::Text(workspace))
            &&& document.member("overall_status"@) == Some(
                Json::Text(
                    match verdict {
                        Verdict::Healthy => "HEALTHY"@,
                        Verdict::Degraded => "DEGRADED"@,
                        Verdict::Broken => "BROKEN"@,
                    },
                ),
            )
            &&& document.member("checks"@) matches Some(Json::Array(entries)) && {
                &&& entries.len() == checks.len()
                &&& forall|i: int|
                    0 <= i < checks.len() ==> #[trigger] entries[i] == check_json(checks[i]@)
            }
        }),
{
    json::lemma_keys();
    let document = report_json(workspace, checks, verdict);
    let members = document->Object_0;
    assert(json::distinct_keys(members));
    json::law_members_are_found(members);
    assert(document.member(members[0].0) == Some(members[0].1));
    assert(document.member(members[1].0) == Some(members[1].1));
    assert(document.member(members[2].0) == Some(members[2].1));
}

/// A further check adds its lines to a report behind those of the checks before it, and changes
/// nothing else; the report begins with the workspace and ends with the verdict.
pub proof fn law_report_lists_the_checks(
    workspace: Seq<char>,
    checks: Seq<CheckResult>,
    check: CheckResult,
    verdict: Verdict,
    verbose: bool,
)
    ensures
        ({
            let end = match verdict {
                Verdict::Healthy => "\nOverall: HEALTHY."@,
                Verdict::Degraded =>
                    "\nOverall: DEGRADED \u{2014} follow the WARN checks above."@,
                Verdict::Broken => "\nOverall: BROKEN \u{2014} fix the ERROR checks first."@,
            } + "\n"@;
            let start = "\ndc-doctor \u{2014} "@ + workspace + "\n\n"@;
            let shorter = report_text(workspace, checks, verdict, verbose, false);
            let longer = report_text(workspace, checks.push(check), verdict, verbose, false);
            let kept = shorter.len() - end.len();
            &&& report_text(workspace, seq![], verdict, verbose, false) == start + end
            &&& kept >= 0
            &&& shorter.skip(kept) == end
            &&& longer == shorter.take(kept) + check_text(check@, verbose, false) + end
        }),
{
    let end = verdict_text(verdict, false) + "\n"@;
    let start = header_text(workspace, false);
    let shorter = report_text(workspace, checks, verdict, verbose, false);
    let longer = report_text(workspace, checks.push(check), verdict, verbose, false);
    let none: Seq<CheckResult> = seq![];
    assert(checks.push(check).drop_last() =~= checks);
    assert(checks_text(none, verbose, false) =~= seq![]);
    assert(report_text(workspace, none, verdict, verbose, false) =~= start + end);
    assert(shorter =~= start + checks_text(checks, verbose, false) + end);
    assert(shorter.skip(shorter.len() - end.len()) =~= end);
    assert(shorter.take(shorter.len() - end.len()) =~= start + checks_text(checks, verbose, false));
    assert(longer =~= shorter.take(shorter.len() - end.len()) + check_text(check@, verbose, false)
        + end);
}

/// The lines of a check in a plain report: its badge and message, then its advice. Details follow
/// only in a verbose report, and only where the check has them.
pub proof fn law_check_is_reported(check: CheckModel, verbose: bool)
    ensures
        ({
            let badge = match check.status {
                CheckStatus::Okay => "[OK]   "@,
                CheckStatus::Warn => "[WARN] "@,
                CheckStatus::Error => "[ERROR]"@,
                CheckStatus::Skip => "[SKIP] "@,
            };
            let line = badge + " "@ + check.message + "\n"@;
            let advice = match check.suggestion {
                Some(advice) => notes_text(text::line_texts(advice), false),
                None => seq![],
            };
            let brief = check_text(check, false, false);
            &&& badge.len() == 7
            &&& brief == line + advice
            &&& check.details is None ==> check_text(check, true, false) == brief
            &&& check.details is Some ==> check_text(check, true, false) == brief + ("        "@
                + ("details: "@ + json::compact_text(check.details->Some_0)) + "\n"@)
        }),
{
    reveal_strlit("[OK]   ");
    reveal_strlit("[WARN] ");
    reveal_strlit("[ERROR]");
    reveal_strlit("[SKIP] ");
    let line = badge_text(check.status, false) + " "@ + check.message + "\n"@;
    let advice = match check.suggestion {
        Some(advice) => notes_text(text::line_texts(advice), false),
        None => seq![],
    };
    assert(check_text(check, false, false) =~= line + advice);
    if check.details is None {
        assert(check_text(check, true, false) =~= line + advice);
    }
}

/// Each line of advice stands on a line of its own, behind eight blanks, in order.
pub proof fn law_advice_is_indented(lines: Seq<Seq<char>>, line: Seq<char>)
    ensures
        notes_text(seq![], false) == Seq::<char>::empty(),
        notes_text(lines.push(line), false) == notes_text(lines, false) + ("        "@ + line
            + "\n"@),
{
    assert(lines.push(line).drop_last() =~= lines);
}

/// What a person is advised to do about each check that did not pass, in words.
pub proof fn law_advice_in_words(
    platform: Platform,
    workspace: Seq<char>,
    socket: Seq<char>,
    version: String,
    data: PrefightData,
    status: StatusData,
)
    ensures
        tala_check(Ok((version, false)), socket).suggestion == Some(
            "Restart the tala daemon: "@
                + "cd /workspace/_JAGORA/tala && cargo run -p tala-server --bin tala"@,
        ),
        config_check(platform, workspace, None).suggestion == Some(
            "Create .devcontainer/devcontainer.json manually, or use Flow 0 scaffold from Sala."@,
        ),
        data.docker_available && !data.docker_permissions_ok ==> docker_check(
            Some(Ok(data)),
            None,
        ).suggestion == Some(
            "Add your user to the docker group: sudo usermod -aG docker $USER && newgrp docker"@,
        ),
        docker_check(None, Some(false)).suggestion == Some(
            "Start Docker Desktop or the Docker service."@,
        ),
        !status.running && status.container_id@.len() > 0 ==> status_check(
            Some(Ok(status)),
        ).suggestion == Some("Trigger reconnect from Sala, or run Flow 1 build to restart."@),
        !status.running && status.container_id@.len() == 0 ==> status_check(
            Some(Ok(status)),
        ).suggestion == Some("Run Flow 1 build from Sala, or use: make dc-build"@),
{
}

/// The details say who was asked of Docker: the daemon, or Docker itself.
pub proof fn law_source_is_documented(data: PrefightData, ok: bool)
    ensures
        docker_check(None, Some(ok)).details matches Some(details) && details.member("source"@)
            == Some(Json::Text("direct"@)),
        data.docker_available && data.docker_permissions_ok ==> (docker_check(
            Some(Ok(data)),
            None,
        ).details matches Some(details) && details.member("source"@) == Some(
            Json::Text("tala_preflight"@),
        )),
{
    json::lemma_keys();
    let direct = direct_details();
    json::law_members_are_found(direct->Object_0);
    assert(direct.member(direct->Object_0[0].0) == Some(direct->Object_0[0].1));
    if data.docker_available && data.docker_permissions_ok {
        let details = docker_check(Some(Ok(data)), None).details->Some_0;
        let members = details->Object_0;
        assert(json::distinct_keys(members));
        json::law_members_are_found(members);
        assert(details.member(members[2].0) == Some(members[2].1));
    }
}

} // verus!
