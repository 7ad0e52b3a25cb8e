//! A short conversation with a language server: it is started, initialized and shut down.

use crate::json;
use crate::json::Json;
use crate::lsp_frame;
use crate::text;
use serde_json::Value;
use vstd::prelude::*;
use vstd::string::StringExecFns;

verus! {

/// How a language server is looked for, run and named.
#[derive(Debug)]
pub struct LspConfig {
    pub display_name: String,
    pub check_binary: String,
    pub server_binary: String,
    pub server_args: Vec<String>,
    pub log_tag: String,
}

/// The model of how a language server is looked for, run and named.
pub struct LspConfigModel {
    pub display_name: Seq<char>,
    pub check_binary: Seq<char>,
    pub server_binary: Seq<char>,
    pub server_args: Seq<Seq<char>>,
    pub log_tag: Seq<char>,
}

impl View for LspConfig {
    type V = LspConfigModel;

    open spec fn view(&self) -> LspConfigModel {
        LspConfigModel {
            display_name: self.display_name@,
            check_binary: self.check_binary@,
            server_binary: self.server_binary@,
            server_args: text::texts(self.server_args@),
            log_tag: self.log_tag@,
        }
    }
}

/// The language server of Rust.
pub open spec fn rust_config() -> LspConfigModel {
    LspConfigModel {
        display_name: "rust-analyzer"@,
        check_binary: "rust-analyzer"@,
        server_binary: "rust-analyzer"@,
        server_args: seq![],
        log_tag: "[LSP-RUST]  "@,
    }
}

/// The language server of Python.
pub open spec fn python_config() -> LspConfigModel {
    LspConfigModel {
        display_name: "pyright"@,
        check_binary: "pyright-langserver"@,
        server_binary: "pyright-langserver"@,
        server_args: seq!["--stdio"@],
        log_tag: "[LSP-PYTHON]"@,
    }
}

impl LspConfig {
    /// The language server of Rust.
    pub fn rust() -> (r: Self)
        ensures
            r@ == rust_config(),
    {
        let r = LspConfig {
            display_name: "rust-analyzer".to_owned(),
            check_binary: "rust-analyzer".to_owned(),
            server_binary: "rust-analyzer".to_owned(),
            server_args: Vec::new(),
            log_tag: "[LSP-RUST]  ".to_owned(),
        };
        assert(r@.server_args =~= seq![]);
        r
    }

    /// The language server of Python.
    pub fn python() -> (r: Self)
        ensures
            r@ == python_config(),
    {
        let r = LspConfig {
            display_name: "pyright".to_owned(),
            check_binary: "pyright-langserver".to_owned(),
            server_binary: "pyright-langserver".to_owned(),
            server_args: vec!["--stdio".to_owned()],
            log_tag: "[LSP-PYTHON]".to_owned(),
        };
        assert(r@.server_args =~= seq!["--stdio"@]);
        r
    }
}

/// The request that opens the conversation.
pub open spec fn initialize_json(workdir: Seq<char>, project_name: Seq<char>) -> Json {
    let root_uri = "file://"@ + workdir;
    Json::Object(
        seq![
            ("jsonrpc"@, Json::Text("2.0"@)),
            ("id"@, Json::Unsigned(1)),
            ("method"@, Json::Text("initialize"@)),
            (
                "params"@,
                Json::Object(
                    seq![
                        ("processId"@, Json::Null),
                        ("rootUri"@, Json::Text(root_uri)),
                        ("capabilities"@, Json::Object(seq![])),
                        (
                            "workspaceFolders"@,
                            Json::Array(
                                seq![
                                    Json::Object(
                                        seq![
                                            ("uri"@, Json::Text(root_uri)),
                                            ("name"@, Json::Text(project_name)),
                                        ],
                                    ),
                                ],
                            ),
                        ),
                    ],
                ),
            ),
        ],
    )
}

/// The word that the client is ready.
pub open spec fn initialized_json() -> Json {
    Json::Object(
        seq![
            ("jsonrpc"@, Json::Text("2.0"@)),
            ("method"@, Json::Text("initialized"@)),
            ("params"@, Json::Object(seq![])),
        ],
    )
}

/// The request that closes the conversation.
pub open spec fn shutdown_json() -> Json {
    Json::Object(
        seq![
            ("jsonrpc"@, Json::Text("2.0"@)),
            ("id"@, Json::Unsigned(2)),
            ("method"@, Json::Text("shutdown"@)),
            ("params"@, Json::Null),
        ],
    )
}

/// The word that the server may end.
pub open spec fn exit_json() -> Json {
    Json::Object(
        seq![
            ("jsonrpc"@, Json::Text("2.0"@)),
            ("method"@, Json::Text("exit"@)),
            ("params"@, Json::Null),
        ],
    )
}

/// An object without members.
fn empty_object() -> (r: Value)
    ensures
        json::json_of(r) == Json::Object(seq![]),
{
    let members: Vec<(String, Value)> = Vec::new();
    assert(json::members_of(members@) =~= seq![]);
    json::object(members)
}

/// The request that opens the conversation.
pub fn initialize_message(workdir: &str, project_name: &str) -> (r: Value)
    ensures
        json::json_of(r) == initialize_json(workdir@, project_name@),
{
    proof {
        json::lemma_keys();
    }
    let root_uri = "file://".to_owned().concat(workdir);
    let folder = vec![
        json::member("uri", json::string(root_uri.as_str())),
        json::member("name", json::string(project_name)),
    ];
    assert(json::members_of(folder@) =~= seq![
        ("uri"@, Json::Text(root_uri@)),
        ("name"@, Json::Text(project_name@)),
    ]);
    let folders = vec![json::object(folder)];
    assert(json::jsons(folders@) =~= seq![
        Json::Object(
            seq![("uri"@, Json::Text(root_uri@)), ("name"@, Json::Text(project_name@))],
        ),
    ]);
    let params = vec![
        json::member("processId", json::null()),
        json::member("rootUri", json::string(root_uri.as_str())),
        json::member("capabilities", empty_object()),
        json::member("workspaceFolders", json::array(folders)),
    ];
    let ghost wanted = initialize_json(workdir@, project_name@)->Object_0;
    assert(json::members_of(params@) =~= wanted[3].1->Object_0);
    let members = vec![
        json::member("jsonrpc", json::string("2.0")),
        json::member("id", json::unsigned(1)),
        json::member("method", json::string("initialize")),
        json::member("params", json::object(params)),
    ];
    assert(json::members_of(members@) =~= wanted);
    json::object(members)
}

/// The word that the client is ready.
pub fn initialized_message() -> (r: Value)
    ensures
        json::json_of(r) == initialized_json(),
{
    let members = vec![
        json::member("jsonrpc", json::string("2.0")),
        json::member("method", json::string("initialized")),
        json::member("params", empty_object()),
    ];
    proof {
        json::lemma_keys();
        assert(json::members_of(members@) =~= initialized_json()->Object_0);
    }
    json::object(members)
}

/// The request that closes the conversation.
pub fn shutdown_message() -> (r: Value)
    ensures
        json::json_of(r) == shutdown_json(),
{
    let members = vec![
        json::member("jsonrpc", json::string("2.0")),
        json::member("id", json::unsigned(2)),
        json::member("method", json::string("shutdown")),
        json::member("params", json::null()),
    ];
    proof {
        json::lemma_keys();
        assert(json::members_of(members@) =~= shutdown_json()->Object_0);
    }
    json::object(members)
}

/// The word that the server may end.
pub fn exit_message() -> (r: Value)
    ensures
        json::json_of(r) == exit_json(),
{
    let members = vec![
        json::member("jsonrpc", json::string("2.0")),
        json::member("method", json::string("exit")),
        json::member("params", json::null()),
    ];
    proof {
        json::lemma_keys();
        assert(json::members_of(members@) =~= exit_json()->Object_0);
    }
    json::object(members)
}

/// The bytes that carry a message.
pub open spec fn message_bytes(message: Json) -> Seq<u8> {
    lsp_frame::frame_bytes(json::compact_text(message))
}

/// The bytes that carry a message.
pub fn frame_message(message: &Value) -> (r: Vec<u8>)
    ensures
        r@ == message_bytes(json::json_of(*message)),
{
    match json::to_compact(message) {
        Ok(body) => lsp_frame::frame(body.as_str()),
        Err(_) => Vec::new(),
    }
}

/// What a message of the server says to one who waits for the answer to the first request: it is
/// a notification, it answers another request, the request was refused, or the server is ready.
#[derive(Debug)]
pub enum Answer {
    Notification(String),
    Other(String),
    Refused(String),
    Ready { name: String, version: String },
}

/// The model of what a message of the server says.
pub enum AnswerModel {
    Notification(Seq<char>),
    Other(Seq<char>),
    Refused(Seq<char>),
    Ready { name: Seq<char>, version: Seq<char> },
}

impl View for Answer {
    type V = AnswerModel;

    open spec fn view(&self) -> AnswerModel {
        match *self {
            Answer::Notification(method) => AnswerModel::Notification(method@),
            Answer::Other(id) => AnswerModel::Other(id@),
            Answer::Refused(error) => AnswerModel::Refused(error@),
            Answer::Ready { name, version } => AnswerModel::Ready {
                name: name@,
                version: version@,
            },
        }
    }
}

/// The characters of a text, or `otherwise`.
pub open spec fn text_or(value: Option<Json>, otherwise: Seq<char>) -> Seq<char> {
    match value {
        Some(Json::Text(s)) => s,
        _ => otherwise,
    }
}

/// What a message of the server says.
pub open spec fn answer(message: Json) -> AnswerModel {
    match message.member("id"@) {
        None => AnswerModel::Notification(text_or(message.member("method"@), "<unknown>"@)),
        Some(id) => if id == Json::Unsigned(1) {
            match message.member("error"@) {
                Some(error) => AnswerModel::Refused(json::pretty_text(error)),
                None => AnswerModel::Ready {
                    name: text_or(
                        message.member3("result"@, "serverInfo"@, "name"@),
                        "unknown"@,
                    ),
                    version: text_or(
                        message.member3("result"@, "serverInfo"@, "version"@),
                        "?"@,
                    ),
                },
            }
        } else {
            AnswerModel::Other(json::debug_text(id))
        },
    }
}

/// The characters of a text, or `otherwise`.
fn string_or(value: Option<&Value>, otherwise: &str) -> (r: String)
    ensures
        r@ == text_or(json::json_ref_option(value), otherwise@),
{
    match value {
        Some(v) => match json::as_str(v) {
            Some(s) => s.to_owned(),
            None => otherwise.to_owned(),
        },
        None => otherwise.to_owned(),
    }
}

/// What the server says of itself under `key`, or `otherwise`.
fn server_info(message: &Value, key: &str, otherwise: &str) -> (r: String)
    ensures
        r@ == text_or(
            json::json_of(*message).member3("result"@, "serverInfo"@, key@),
            otherwise@,
        ),
{
    match json::get(message, "result") {
        Some(result) => match json::get(result, "serverInfo") {
            Some(info) => string_or(json::get(info, key), otherwise),
            None => otherwise.to_owned(),
        },
        None => otherwise.to_owned(),
    }
}

/// What a message of the server says.
pub fn interpret_message(message: &Value) -> (r: Answer)
    ensures
        r@ == answer(json::json_of(*message)),
{
    match json::get(message, "id") {
        None => Answer::Notification(string_or(json::get(message, "method"), "<unknown>")),
        Some(id) => {
            let number = json::as_u64(id);
            if number.is_some() && number.unwrap() == 1 {
                match json::get(message, "error") {
                    Some(error) => match json::to_pretty(error) {
                        Ok(shown) => Answer::Refused(shown),
                        Err(_) => Answer::Refused(String::new()),
                    },
                    None => Answer::Ready {
                        name: server_info(message, "name", "unknown"),
                        version: server_info(message, "version", "?"),
                    },
                }
            } else {
                Answer::Other(json::debug(id))
            }
        },
    }
}

/// What a text that the server sent says; nothing where it is not JSON.
pub fn interpret_text(raw: &str) -> (r: Option<Answer>)
    ensures
        match r {
            Some(a) => json::parsed_json(raw@) is Some && a@ == answer(
                json::parsed_json(raw@)->Some_0,
            ),
            None => json::parsed_json(raw@) is None,
        },
{
    match json::parse(raw) {
        Ok(message) => Some(interpret_message(&message)),
        Err(_) => None,
    }
}

/// The first request is one that its own answer is waited for: a message that bears the id of the
/// request is taken as the answer, whatever else it holds, and no other message is.
pub proof fn law_only_the_answer_is_taken(
    message: Json,
    workdir: Seq<char>,
    project_name: Seq<char>,
)
    ensures
        (answer(message) is Refused || answer(message) is Ready) <==> message.member("id"@)
            == initialize_json(workdir, project_name).member("id"@),
{
    reveal_with_fuel(json::member_position, 5);
    json::lemma_keys();
    let request = initialize_json(workdir, project_name);
    let members = request->Object_0;
    assert(members[0].0 != "id"@);
    assert(members.skip(1)[0] == members[1]);
    assert(json::member_position(members, "id"@) == 1);
}

/// The two language servers: what they are called, how they are looked for, and how they are run.
pub proof fn law_language_servers()
    ensures
        rust_config().display_name == "rust-analyzer"@,
        rust_config().check_binary == "rust-analyzer"@,
        rust_config().server_binary == "rust-analyzer"@,
        rust_config().server_args == Seq::<Seq<char>>::empty(),
        rust_config().log_tag == "[LSP-RUST]  "@,
        python_config().display_name == "pyright"@,
        python_config().check_binary == "pyright-langserver"@,
        python_config().server_binary == "pyright-langserver"@,
        python_config().server_args == seq!["--stdio"@],
        python_config().log_tag == "[LSP-PYTHON]"@,
{
}

/// The request that opens the conversation asks to initialize, under the id one, the folder of the
/// project, as its root and as its only workspace folder.
pub proof fn law_initialize_names_the_folder(workdir: Seq<char>, project_name: Seq<char>)
    ensures
        ({
            let request = initialize_json(workdir, project_name);
            let uri = "file://"@ + workdir;
            &&& request.member("jsonrpc"@) == Some(Json::Text("2.0"@))
            &&& request.member("id"@) == Some(Json::Unsigned(1))
            &&& request.member("method"@) == Some(Json::Text("initialize"@))
            &&& request.member("params"@) matches Some(params) && {
                &&& params.member("processId"@) == Some(Json::Null)
                &&& params.member("rootUri"@) == Some(Json::Text(uri))
                &&& params.member("capabilities"@) == Some(
                    Json::Object(Seq::<(Seq<char>, Json)>::empty()),
                )
                &&& params.member("workspaceFolders"@) matches Some(Json::Array(folders)) && {
                    &&& folders.len() == 1
                    &&& folders[0].member("uri"@) == Some(Json::Text(uri))
                    &&& folders[0].member("name"@) == Some(Json::Text(project_name))
                }
            }
        }),
{
    json::lemma_keys();
    let request = initialize_json(workdir, project_name);
    let members = request->Object_0;
    json::law_members_are_found(members);
    assert(request.member(members[0].0) == Some(members[0].1));
    assert(request.member(members[1].0) == Some(members[1].1));
    assert(request.member(members[2].0) == Some(members[2].1));
    assert(request.member(members[3].0) == Some(members[3].1));
    let params = members[3].1;
    let inner = params->Object_0;
    reveal_strlit("workspaceFolders");
    reveal_strlit("capabilities");
    assert(json::distinct_keys(inner));
    json::law_members_are_found(inner);
    assert(params.member(inner[0].0) == Some(inner[0].1));
    assert(params.member(inner[1].0) == Some(inner[1].1));
    assert(params.member(inner[2].0) == Some(inner[2].1));
    assert(params.member(inner[3].0) == Some(inner[3].1));
    let folder = inner[3].1->Array_0[0];
    let last = folder->Object_0;
    json::law_members_are_found(last);
    assert(folder.member(last[0].0) == Some(last[0].1));
    assert(folder.member(last[1].0) == Some(last[1].1));
}

/// The conversation is closed by word that the client is ready, the request to shut down under an id
/// of its own, and word that the server may end. Words that ask nothing have no id.
pub proof fn law_closing_messages()
    ensures
        initialized_json().member("method"@) == Some(Json::Text("initialized"@)),
        initialized_json().member("id"@) is None,
        initialized_json().member("params"@) == Some(
            Json::Object(Seq::<(Seq<char>, Json)>::empty()),
        ),
        shutdown_json().member("method"@) == Some(Json::Text("shutdown"@)),
        shutdown_json().member("id"@) == Some(Json::Unsigned(2)),
        shutdown_json().member("params"@) == Some(Json::Null),
        exit_json().member("method"@) == Some(Json::Text("exit"@)),
        exit_json().member("id"@) is None,
        exit_json().member("params"@) == Some(Json::Null),
        initialized_json().member("jsonrpc"@) == Some(Json::Text("2.0"@)),
        shutdown_json().member("jsonrpc"@) == Some(Json::Text("2.0"@)),
        exit_json().member("jsonrpc"@) == Some(Json::Text("2.0"@)),
{
    json::lemma_keys();
    let ready = initialized_json()->Object_0;
    let shutdown = shutdown_json()->Object_0;
    let exit = exit_json()->Object_0;
    json::law_members_are_found(ready);
    json::law_members_are_found(shutdown);
    json::law_members_are_found(exit);
    assert(initialized_json().member(ready[0].0) == Some(ready[0].1));
    assert(initialized_json().member(ready[1].0) == Some(ready[1].1));
    assert(initialized_json().member(ready[2].0) == Some(ready[2].1));
    assert(shutdown_json().member(shutdown[0].0) == Some(shutdown[0].1));
    assert(shutdown_json().member(shutdown[1].0) == Some(shutdown[1].1));
    assert(shutdown_json().member(shutdown[2].0) == Some(shutdown[2].1));
    assert(shutdown_json().member(shutdown[3].0) == Some(shutdown[3].1));
    assert(exit_json().member(exit[0].0) == Some(exit[0].1));
    assert(exit_json().member(exit[1].0) == Some(exit[1].1));
    assert(exit_json().member(exit[2].0) == Some(exit[2].1));
    assert(forall|i: int| 0 <= i < ready.len() ==> ready[i].0 != "id"@);
    assert(forall|i: int| 0 <= i < exit.len() ==> exit[i].0 != "id"@);
}

/// What a message of the server says. Without an id it is a notification, under its method. With
/// another id than that of the request it answers something else. With the id of the request it is
/// the answer: a refusal where it bears an error, with the error, else the word that the server is
/// ready, under the name and the version that it gives itself.
pub proof fn law_messages_are_understood(message: Json, method: Seq<char>, id: Json)
    ensures
        message.member("id"@) is None <==> answer(message) is Notification,
        message.member("id"@) is None && message.member("method"@) == Some(Json::Text(method))
            ==> answer(message) == AnswerModel::Notification(method),
        message.member("id"@) == Some(id) && id != Json::Unsigned(1) ==> answer(message)
            == AnswerModel::Other(json::debug_text(id)),
        message.member("id"@) == Some(Json::Unsigned(1)) ==> match message.member("error"@) {
            Some(error) => answer(message) == AnswerModel::Refused(json::pretty_text(error)),
            None => answer(message) is Ready,
        },
        message.member("id"@) == Some(Json::Unsigned(1)) && message.member("error"@) is None ==> {
            let info = match message.member("result"@) {
                Some(result) => result.member("serverInfo"@),
                None => None,
            };
            &&& info is Some && info->Some_0.member("name"@) is Some
                && info->Some_0.member("name"@)->Some_0 is Text ==> answer(message)->Ready_name
                == info->Some_0.member("name"@)->Some_0->Text_0
            &&& info is Some && info->Some_0.member("version"@) is Some
                && info->Some_0.member("version"@)->Some_0 is Text ==> answer(message)->Ready_version
                == info->Some_0.member("version"@)->Some_0->Text_0
            &&& info is None ==> answer(message) == (AnswerModel::Ready {
                name: "unknown"@,
                version: "?"@,
            })
        },
{
}

/// What a server does not say of itself, or does not say as a text, is told as unknown.
pub proof fn law_unnamed_server_is_unknown(message: Json, info: Json)
    requires
        message.member("id"@) == Some(Json::Unsigned(1)),
        message.member("error"@) is None,
        message.member("result"@) is Some,
        message.member("result"@)->Some_0.member("serverInfo"@) == Some(info),
    ensures
        ({
            let unnamed = !(info.member("name"@) matches Some(Json::Text(_)));
            let unversioned = !(info.member("version"@) matches Some(Json::Text(_)));
            &&& answer(message) is Ready
            &&& unnamed ==> answer(message)->Ready_name == "unknown"@
            &&& unversioned ==> answer(message)->Ready_version == "?"@
        }),
{
}

/// A notification that names no method is told as unknown.
pub proof fn law_unnamed_notification_is_unknown(message: Json)
    requires
        message.member("id"@) is None,
        !(message.member("method"@) matches Some(Json::Text(_))),
    ensures
        answer(message) == AnswerModel::Notification("<unknown>"@),
{
}

} // verus!
