//! JSON values: a model of what a `serde_json::Value` holds, and the calls into `serde_json`.
//!
//! `serde_json` is built with its `preserve_order` feature, so an object keeps its members in the
//! order in which they were written.

use crate::console;
use crate::text;
use serde_json::Value;
use vstd::prelude::*;

verus! {

#[verifier::external_type_specification]
#[verifier::external_body]
pub struct ExValue(serde_json::Value);

#[verifier::external_type_specification]
#[verifier::external_body]
pub struct ExJsonError(serde_json::Error);

/// What a JSON value holds.
pub enum Json {
    Null,
    Bool(bool),
    /// A whole number from zero up that fits 64 bits.
    Unsigned(nat),
    /// Any other number, by its text.
    Number(Seq<char>),
    Text(Seq<char>),
    Array(Seq<Json>),
    /// The members of an object, in order.
    Object(Seq<(Seq<char>, Json)>),
}

/// The position of the member `key`, or the number of members.
pub open spec fn member_position(members: Seq<(Seq<char>, Json)>, key: Seq<char>) -> int
    decreases members.len(),
{
    if members.len() == 0 || members[0].0 == key {
        0
    } else {
        1 + member_position(members.skip(1), key)
    }
}

impl Json {
    /// The member `key` of an object that has it.
    pub open spec fn member(self, key: Seq<char>) -> Option<Json> {
        match self {
            Json::Object(members) => {
                let at = member_position(members, key);
                if at < members.len() {
                    Some(members[at].1)
                } else {
                    None
                }
            },
            _ => None,
        }
    }

    /// The characters of a text.
    pub open spec fn as_text(self) -> Option<Seq<char>> {
        match self {
            Json::Text(s) => Some(s),
            _ => None,
        }
    }

    /// The member of a member of a member.
    pub open spec fn member3(self, a: Seq<char>, b: Seq<char>, c: Seq<char>) -> Option<Json> {
        match self.member(a) {
            Some(first) => match first.member(b) {
                Some(second) => second.member(c),
                None => None,
            },
            None => None,
        }
    }
}

/// What a `serde_json::Value` holds.
pub uninterp spec fn json_of(value: Value) -> Json;

/// The compact text that `serde_json::to_string` writes for a value.
pub uninterp spec fn compact_text(json: Json) -> Seq<char>;

/// The indented text that `serde_json::to_string_pretty` writes for a value.
pub uninterp spec fn pretty_text(json: Json) -> Seq<char>;

/// The value that `serde_json::from_str` reads from a text, where it is JSON.
pub uninterp spec fn parsed_json(text: Seq<char>) -> Option<Json>;

/// The text that the `Debug` impl of `serde_json::Value` writes for a value.
pub uninterp spec fn debug_text(json: Json) -> Seq<char>;

/// What an optional value holds.
pub open spec fn json_option(value: Option<Value>) -> Option<Json> {
    match value {
        Some(v) => Some(json_of(v)),
        None => None,
    }
}

/// What an optional borrowed value holds.
pub open spec fn json_ref_option(value: Option<&Value>) -> Option<Json> {
    match value {
        Some(v) => Some(json_of(*v)),
        None => None,
    }
}

/// What a list of values holds.
pub open spec fn jsons(values: Seq<Value>) -> Seq<Json> {
    values.map_values(|v: Value| json_of(v))
}

/// What the members of an object hold, in order.
pub open spec fn members_of(members: Seq<(String, Value)>) -> Seq<(Seq<char>, Json)> {
    members.map_values(|m: (String, Value)| (m.0@, json_of(m.1)))
}

/// No key occurs twice.
pub open spec fn distinct_keys(members: Seq<(Seq<char>, Json)>) -> bool {
    forall|i: int, j: int| 0 <= i < j < members.len() ==> members[i].0 != members[j].0
}

/// `serde_json::Value::Null` is the null value.
#[verifier::external_body]
pub(crate) fn null() -> (r: Value)
    ensures
        json_of(r) == Json::Null,
{
    serde_json::Value::Null
}

/// `serde_json::Value::Bool` holds the truth value that it is made of.
#[verifier::external_body]
pub(crate) fn boolean(b: bool) -> (r: Value)
    ensures
        json_of(r) == Json::Bool(b),
{
    serde_json::Value::Bool(b)
}

/// `serde_json::Value::from` makes of a `u64` the number that it is.
#[verifier::external_body]
pub(crate) fn unsigned(n: u64) -> (r: Value)
    ensures
        json_of(r) == Json::Unsigned(n as nat),
{
    serde_json::Value::from(n)
}

/// `serde_json::Value::String` holds the string that it is made of.
#[verifier::external_body]
pub(crate) fn string(s: &str) -> (r: Value)
    ensures
        json_of(r) == Json::Text(s@),
{
    serde_json::Value::String(s.to_owned())
}

/// `serde_json::Value::Array` holds the values that it is made of, in order.
#[verifier::external_body]
pub(crate) fn array(items: Vec<Value>) -> (r: Value)
    ensures
        json_of(r) == Json::Array(jsons(items@)),
{
    serde_json::Value::Array(items)
}

/// `serde_json::Value::from_iter` on pairs makes an object that holds them in order, where no key
/// occurs twice.
#[verifier::external_body]
pub(crate) fn object(members: Vec<(String, Value)>) -> (r: Value)
    requires
        distinct_keys(members_of(members@)),
    ensures
        json_of(r) == Json::Object(members_of(members@)),
{
    serde_json::Value::from_iter(members)
}

/// `serde_json::Value::clone` copies what the value holds.
#[verifier::external_body]
pub(crate) fn copy(value: &Value) -> (r: Value)
    ensures
        json_of(r) == json_of(*value),
{
    value.clone()
}

/// A member of an object.
pub(crate) fn member(key: &str, value: Value) -> (r: (String, Value))
    ensures
        r.0@ == key@,
        r.1 == value,
{
    (key.to_owned(), value)
}

/// A text, or null where there is none.
pub open spec fn text_or_null(s: Option<Seq<char>>) -> Json {
    match s {
        Some(t) => Json::Text(t),
        None => Json::Null,
    }
}

/// A text, or null where there is none.
pub(crate) fn string_or_null(s: &Option<String>) -> (r: Value)
    ensures
        json_of(r) == text_or_null(text::text_option(*s)),
{
    match s {
        Some(t) => string(t.as_str()),
        None => null(),
    }
}

/// `serde_json::Value::get` with a string gives the member of that name of an object, and nothing
/// for any other value.
#[verifier::external_body]
pub(crate) fn get<'a>(value: &'a Value, key: &str) -> (r: Option<&'a Value>)
    ensures
        json_ref_option(r) == json_of(*value).member(key@),
{
    value.get(key)
}

/// `serde_json::Value::as_str` gives the characters of a text, and nothing for any other value.
#[verifier::external_body]
pub(crate) fn as_str(value: &Value) -> (r: Option<&str>)
    ensures
        text::str_option(r) == json_of(*value).as_text(),
{
    value.as_str()
}

/// `serde_json::Value::as_u64` gives a whole number from zero up that fits 64 bits, and nothing for
/// any other value.
#[verifier::external_body]
pub(crate) fn as_u64(value: &Value) -> (r: Option<u64>)
    ensures
        match r {
            Some(n) => json_of(*value) == Json::Unsigned(n as nat),
            None => !(json_of(*value) is Unsigned),
        },
{
    value.as_u64()
}

/// `serde_json::to_string` writes a `Value` as compact text. Serializing fails only where a
/// `Serialize` impl fails or a map has keys that are no strings, and a `Value` has neither. Control
/// characters of strings and keys are written as `\u` and digits, or by a letter, so the text holds
/// no escape character.
#[verifier::external_body]
pub(crate) fn to_compact(value: &Value) -> (r: Result<String, serde_json::Error>)
    ensures
        r is Ok,
        r->Ok_0@ == compact_text(json_of(*value)),
        console::no_escape(r->Ok_0@),
{
    serde_json::to_string(value)
}

/// `serde_json::to_string_pretty` writes a `Value` as indented text. Serializing fails only where a
/// `Serialize` impl fails or a map has keys that are no strings, and a `Value` has neither.
#[verifier::external_body]
pub(crate) fn to_pretty(value: &Value) -> (r: Result<String, serde_json::Error>)
    ensures
        r is Ok,
        r->Ok_0@ == pretty_text(json_of(*value)),
{
    serde_json::to_string_pretty(value)
}

/// `serde_json::from_str` reads a text as a `Value`.
#[verifier::external_body]
pub(crate) fn parse(text: &str) -> (r: Result<Value, serde_json::Error>)
    ensures
        match r {
            Ok(v) => parsed_json(text@) == Some(json_of(v)),
            Err(_) => parsed_json(text@) is None,
        },
{
    serde_json::from_str(text)
}

/// The `Debug` impl of `serde_json::Value` writes a value by the names of its variants.
#[verifier::external_body]
pub(crate) fn debug(value: &Value) -> (r: String)
    ensures
        r@ == debug_text(json_of(*value)),
{
    format!("{:?}", value)
}

/// The member names that the documents use: their lengths, and that those of one length that occur
/// in one object differ.
pub(crate) proof fn lemma_keys()
    ensures
        "socket"@.len() == 6,
        "version"@.len() == 7,
        "healthy"@.len() == 7,
        "error"@.len() == 5,
        "config_path"@.len() == 11,
        "docker_available"@.len() == 16,
        "permissions_ok"@.len() == 14,
        "source"@.len() == 6,
        "error_message"@.len() == 13,
        "container_id"@.len() == 12,
        "status"@.len() == 6,
        "running"@.len() == 7,
        "terminal_ok"@.len() == 11,
        "lsp_rust_ok"@.len() == 11,
        "lsp_python_ok"@.len() == 13,
        "workspace"@.len() == 9,
        "overall_status"@.len() == 14,
        "checks"@.len() == 6,
        "name"@.len() == 4,
        "message"@.len() == 7,
        "suggestion"@.len() == 10,
        "details"@.len() == 7,
        "phase"@.len() == 5,
        "progress"@.len() == 8,
        "workspace_root"@.len() == 14,
        "project_name"@.len() == 12,
        "capabilities"@.len() == 12,
        "action"@.len() == 6,
        "duration_ms"@.len() == 11,
        "workspace_folder"@.len() == 16,
        "config_changed"@.len() == 14,
        "overall"@.len() == 7,
        "steps"@.len() == 5,
        "jsonrpc"@.len() == 7,
        "id"@.len() == 2,
        "method"@.len() == 6,
        "params"@.len() == 6,
        "processId"@.len() == 9,
        "rootUri"@.len() == 7,
        "workspaceFolders"@.len() == 16,
        "uri"@.len() == 3,
        "action"@ != "status"@,
        "container_id"@ != "capabilities"@,
        "message"@ != "details"@,
        "method"@ != "params"@,
        "project_name"@ != "capabilities"@,
        "project_name"@ != "container_id"@,
        "terminal_ok"@ != "lsp_rust_ok"@,
        "version"@ != "healthy"@,
{
    reveal_strlit("socket");
    reveal_strlit("version");
    reveal_strlit("healthy");
    reveal_strlit("error");
    reveal_strlit("config_path");
    reveal_strlit("docker_available");
    reveal_strlit("permissions_ok");
    reveal_strlit("source");
    reveal_strlit("error_message");
    reveal_strlit("container_id");
    reveal_strlit("status");
    reveal_strlit("running");
    reveal_strlit("terminal_ok");
    reveal_strlit("lsp_rust_ok");
    reveal_strlit("lsp_python_ok");
    reveal_strlit("workspace");
    reveal_strlit("overall_status");
    reveal_strlit("checks");
    reveal_strlit("name");
    reveal_strlit("message");
    reveal_strlit("suggestion");
    reveal_strlit("details");
    reveal_strlit("phase");
    reveal_strlit("progress");
    reveal_strlit("workspace_root");
    reveal_strlit("project_name");
    reveal_strlit("capabilities");
    reveal_strlit("action");
    reveal_strlit("duration_ms");
    reveal_strlit("workspace_folder");
    reveal_strlit("config_changed");
    reveal_strlit("overall");
    reveal_strlit("steps");
    reveal_strlit("jsonrpc");
    reveal_strlit("id");
    reveal_strlit("method");
    reveal_strlit("params");
    reveal_strlit("processId");
    reveal_strlit("rootUri");
    reveal_strlit("workspaceFolders");
    reveal_strlit("uri");
    assert("action"@[0] != "status"@[0]);
    assert("container_id"@[1] != "capabilities"@[1]);
    assert("message"@[0] != "details"@[0]);
    assert("method"@[0] != "params"@[0]);
    assert("project_name"@[0] != "capabilities"@[0]);
    assert("project_name"@[0] != "container_id"@[0]);
    assert("terminal_ok"@[0] != "lsp_rust_ok"@[0]);
    assert("version"@[0] != "healthy"@[0]);
}

/// Each member of an object whose keys differ is found under its key, and no other key finds one.
pub proof fn law_members_are_found(members: Seq<(Seq<char>, Json)>)
    requires
        distinct_keys(members),
    ensures
        forall|i: int|
            0 <= i < members.len() ==> Json::Object(members).member((#[trigger] members[i]).0)
                == Some(members[i].1),
        forall|key: Seq<char>|
            (forall|i: int| 0 <= i < members.len() ==> (#[trigger] members[i]).0 != key)
                ==> #[trigger] Json::Object(members).member(key) is None,
{
    assert forall|i: int| 0 <= i < members.len() implies Json::Object(members).member(
        (#[trigger] members[i]).0,
    ) == Some(members[i].1) by {
        lemma_member_position(members, members[i].0);
        let at = member_position(members, members[i].0);
        if at < i {
            assert(members[at].0 != members[i].0);
        }
        if i < at {
            assert(members[i].0 != members[i].0);
        }
    }
    assert forall|key: Seq<char>|
        (forall|i: int|
            0 <= i < members.len() ==> (#[trigger] members[i]).0 != key) implies #[trigger] Json::Object(
        members,
    ).member(key) is None by {
        lemma_member_position(members, key);
    }
}

/// What stands at the position of a member, and before it.
proof fn lemma_member_position(members: Seq<(Seq<char>, Json)>, key: Seq<char>)
    ensures
        0 <= member_position(members, key) <= members.len(),
        forall|i: int| 0 <= i < member_position(members, key) ==> (#[trigger] members[i]).0 != key,
        member_position(members, key) < members.len() ==> members[member_position(members, key)].0
            == key,
    decreases members.len(),
{
    if members.len() > 0 && members[0].0 != key {
        lemma_member_position(members.skip(1), key);
        assert forall|i: int| 0 <= i < member_position(members, key) implies (
        #[trigger] members[i]).0 != key by {
            if i > 0 {
                assert(members[i] == members.skip(1)[i - 1]);
            }
        }
    }
}

} // verus!
