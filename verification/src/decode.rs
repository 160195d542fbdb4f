//! The wire form of backend events.
use vstd::prelude::*;

use crate::event::{
    BackendCapabilities, BackendEvent, BackendInfo, BackendInfoView, BackendTaskState,
    CapabilitiesView, EventView, Finding, FindingView, RuntimeInfo, RuntimeView, SnapshotView,
    StateSnapshot, TaskStateView,
};
use crate::event;
use crate::json;
use crate::json::{Json, JsonView};
use crate::protocol::PROTOCOL_VERSION;
use crate::schema;
use crate::schema::SchemaCheck;
use crate::text;

verus! {

broadcast use text::lemma_texts_push;

// ---------------------------------------------------------------------------
// Members of a simple type
// ---------------------------------------------------------------------------

/// The member `name`, if it is a truth value.
pub open spec fn bool_at(value: JsonView, name: Seq<char>) -> Option<bool> {
    match value.get(name) {
        Some(JsonView::Bool(b)) => Some(b),
        _ => None,
    }
}

/// The member `name`, if it is an unsigned integer.
pub open spec fn u64_at(value: JsonView, name: Seq<char>) -> Option<u64> {
    match value.get(name) {
        Some(member) => member.as_u64(),
        None => None,
    }
}

/// The member `name`, if it is an unsigned integer of 32 bits.
pub open spec fn u32_at(value: JsonView, name: Seq<char>) -> Option<u32> {
    match u64_at(value, name) {
        Some(n) => if n <= u32::MAX {
            Some(n as u32)
        } else {
            None
        },
        None => None,
    }
}

/// The member `name`, if it is an unsigned integer of 8 bits.
pub open spec fn u8_at(value: JsonView, name: Seq<char>) -> Option<u8> {
    match u64_at(value, name) {
        Some(n) => if n <= u8::MAX {
            Some(n as u8)
        } else {
            None
        },
        None => None,
    }
}

/// The member `name`, which may be missing or null, if it is otherwise a text.
pub open spec fn opt_text_at(value: JsonView, name: Seq<char>) -> Option<Option<Seq<char>>> {
    match value.get(name) {
        None => Some(None),
        Some(JsonView::Null) => Some(None),
        Some(JsonView::Text(content)) => Some(Some(content)),
        Some(_) => None,
    }
}

/// The member `name`, which must be there and may be null, if it is otherwise a text.
pub open spec fn stated_text_at(value: JsonView, name: Seq<char>) -> Option<Option<Seq<char>>> {
    match value.get(name) {
        None => None,
        Some(_) => opt_text_at(value, name),
    }
}

/// The member `name`, which may be missing or null, if it is otherwise an unsigned integer.
pub open spec fn opt_u64_at(value: JsonView, name: Seq<char>) -> Option<Option<u64>> {
    match value.get(name) {
        None => Some(None),
        Some(JsonView::Null) => Some(None),
        Some(member) => match member.as_u64() {
            Some(n) => Some(Some(n)),
            None => None,
        },
    }
}

/// The member `name`, which must be there; null stands for nothing.
pub open spec fn stated_json_at(value: JsonView, name: Seq<char>) -> Option<Option<JsonView>> {
    match value.get(name) {
        None => None,
        Some(JsonView::Null) => Some(None),
        Some(member) => Some(Some(member)),
    }
}

/// The items of an array of texts.
pub open spec fn texts_of(value: JsonView) -> Option<Seq<Seq<char>>> {
    match value {
        JsonView::Array(items) => if forall|i: int| 0 <= i < items.len() ==> items[i] is Text {
            Some(items.map_values(|item: JsonView| item->Text_0))
        } else {
            None
        },
        _ => None,
    }
}

/// The member `name`, if it is an array of texts.
pub open spec fn texts_at(value: JsonView, name: Seq<char>) -> Option<Seq<Seq<char>>> {
    match value.get(name) {
        Some(member) => texts_of(member),
        None => None,
    }
}

/// The member `name`, which may be missing, if it is otherwise an array of texts.
pub open spec fn texts_or_empty_at(value: JsonView, name: Seq<char>) -> Option<Seq<Seq<char>>> {
    match value.get(name) {
        Some(member) => texts_of(member),
        None => Some(seq![]),
    }
}

/// The member `name`, if it is an array.
pub open spec fn jsons_at(value: JsonView, name: Seq<char>) -> Option<Seq<JsonView>> {
    match value.get(name) {
        Some(JsonView::Array(items)) => Some(items),
        _ => None,
    }
}

/// Reads the member `name` as a text.
fn read_text(value: &Json, name: &str) -> (content: Option<String>)
    ensures
        text::opt_text(content) == value@.text_at(name@),
{
    match value.text_at(name) {
        Some(content) => Some(content.to_owned()),
        None => None,
    }
}

/// Reads the member `name` as a truth value.
fn read_bool(value: &Json, name: &str) -> (content: Option<bool>)
    ensures
        content == bool_at(value@, name@),
{
    match value.get(name) {
        Some(Json::Bool(b)) => Some(*b),
        _ => None,
    }
}

/// Reads the member `name` as an unsigned integer.
fn read_u64(value: &Json, name: &str) -> (content: Option<u64>)
    ensures
        content == u64_at(value@, name@),
{
    match value.get(name) {
        Some(member) => member.as_u64(),
        None => None,
    }
}

/// Reads the member `name` as an unsigned integer of 32 bits.
fn read_u32(value: &Json, name: &str) -> (content: Option<u32>)
    ensures
        content == u32_at(value@, name@),
{
    match read_u64(value, name) {
        Some(n) => if n <= u32::MAX as u64 {
            Some(n as u32)
        } else {
            None
        },
        None => None,
    }
}

/// Reads the member `name` as an unsigned integer of 8 bits.
fn read_u8(value: &Json, name: &str) -> (content: Option<u8>)
    ensures
        content == u8_at(value@, name@),
{
    match read_u64(value, name) {
        Some(n) => if n <= u8::MAX as u64 {
            Some(n as u8)
        } else {
            None
        },
        None => None,
    }
}

/// Reads the member `name` as a text that may be missing or null.
fn read_opt_text(value: &Json, name: &str) -> (content: Option<Option<String>>)
    ensures
        match content {
            Some(inner) => opt_text_at(value@, name@) == Some(text::opt_text(inner)),
            None => opt_text_at(value@, name@) is None,
        },
{
    match value.get(name) {
        None => Some(None),
        Some(Json::Null) => Some(None),
        Some(Json::Text(content)) => Some(Some(content.clone())),
        Some(_) => None,
    }
}

/// Reads the member `name`, which must be there, as a text or null.
fn read_stated_text(value: &Json, name: &str) -> (content: Option<Option<String>>)
    ensures
        match content {
            Some(inner) => stated_text_at(value@, name@) == Some(text::opt_text(inner)),
            None => stated_text_at(value@, name@) is None,
        },
{
    match value.get(name) {
        None => None,
        Some(_) => read_opt_text(value, name),
    }
}

/// Reads the member `name` as an unsigned integer that may be missing or null.
fn read_opt_u64(value: &Json, name: &str) -> (content: Option<Option<u64>>)
    ensures
        content == opt_u64_at(value@, name@),
{
    match value.get(name) {
        None => Some(None),
        Some(Json::Null) => Some(None),
        Some(member) => match member.as_u64() {
            Some(n) => Some(Some(n)),
            None => None,
        },
    }
}

/// Reads the member `name` as any value.
fn read_json(value: &Json, name: &str) -> (content: Option<Json>)
    ensures
        json::opt_view(content) == value@.get(name@),
{
    match value.get(name) {
        Some(member) => Some(member.duplicate()),
        None => None,
    }
}

/// Reads the member `name`, which must be there; null stands for nothing.
fn read_stated_json(value: &Json, name: &str) -> (content: Option<Option<Json>>)
    ensures
        match content {
            Some(inner) => stated_json_at(value@, name@) == Some(json::opt_view(inner)),
            None => stated_json_at(value@, name@) is None,
        },
{
    match value.get(name) {
        None => None,
        Some(Json::Null) => Some(None),
        Some(member) => Some(Some(member.duplicate())),
    }
}

/// Reads an array of texts.
fn decode_texts(value: &Json) -> (content: Option<Vec<String>>)
    ensures
        match content {
            Some(list) => texts_of(value@) == Some(text::texts(list@)),
            None => texts_of(value@) is None,
        },
{
    match value {
        Json::Array(items) => {
            proof {
                json::lemma_array_view(*items);
            }
            let ghost all = json::views(items@);
            let mut list: Vec<String> = Vec::new();
            let mut i: usize = 0;
            while i < items.len()
                invariant
                    all == json::views(items@),
                    value@ == JsonView::Array(all),
                    i <= items@.len(),
                    list@.len() == i,
                    forall|j: int|
                        0 <= j < i ==> #[trigger] all[j] == JsonView::Text(list@[j]@),
                decreases items@.len() - i,
            {
                assert(all[i as int] == items@[i as int]@);
                match items[i].as_text() {
                    Some(content) => {
                        list.push(content.to_owned());
                    },
                    None => {
                        return None;
                    },
                }
                i += 1;
            }
            assert(text::texts(list@) =~= all.map_values(|item: JsonView| item->Text_0));
            Some(list)
        },
        _ => None,
    }
}

/// Reads the member `name` as an array of texts.
fn read_texts(value: &Json, name: &str) -> (content: Option<Vec<String>>)
    ensures
        match content {
            Some(list) => texts_at(value@, name@) == Some(text::texts(list@)),
            None => texts_at(value@, name@) is None,
        },
{
    match value.get(name) {
        Some(member) => decode_texts(member),
        None => None,
    }
}

/// Reads the member `name` as an array of texts that may be missing.
fn read_texts_or_empty(value: &Json, name: &str) -> (content: Option<Vec<String>>)
    ensures
        match content {
            Some(list) => texts_or_empty_at(value@, name@) == Some(text::texts(list@)),
            None => texts_or_empty_at(value@, name@) is None,
        },
{
    match value.get(name) {
        Some(member) => decode_texts(member),
        None => {
            let list: Vec<String> = Vec::new();
            assert(text::texts(list@) =~= seq![]);
            Some(list)
        },
    }
}

/// Reads the member `name` as an array.
fn read_jsons(value: &Json, name: &str) -> (content: Option<Vec<Json>>)
    ensures
        match content {
            Some(list) => jsons_at(value@, name@) == Some(json::views(list@)),
            None => jsons_at(value@, name@) is None,
        },
{
    match value.get(name) {
        Some(Json::Array(items)) => {
            proof {
                json::lemma_array_view(*items);
            }
            let mut list: Vec<Json> = Vec::new();
            let mut i: usize = 0;
            while i < items.len()
                invariant
                    i <= items@.len(),
                    list@.len() == i,
                    forall|j: int| 0 <= j < i ==> (#[trigger] list@[j])@ == items@[j]@,
                decreases items@.len() - i,
            {
                list.push(items[i].duplicate());
                i += 1;
            }
            assert(json::views(list@) =~= json::views(items@));
            Some(list)
        },
        _ => None,
    }
}

// ---------------------------------------------------------------------------
// Records
// ---------------------------------------------------------------------------

/// The texts of a list of literals.
pub open spec fn literals(list: Seq<&'static str>) -> Seq<Seq<char>> {
    list.map_values(|item: &'static str| item@)
}

/// `value` as an object with members of the given names: a record may also be written as the
/// array of its member values in order, of which at least the first `least` are there.
pub open spec fn members(value: JsonView, names: Seq<Seq<char>>, least: int) -> JsonView {
    match value {
        JsonView::Array(items) => if least <= items.len() <= names.len() {
            JsonView::Object(Seq::new(items.len(), |i: int| (names[i], items[i])))
        } else {
            JsonView::Null
        },
        _ => value,
    }
}

/// A record that is written as an array, as an object; nothing if it is not an array.
fn read_positional(value: &Json, names: &Vec<&'static str>, least: usize) -> (object: Option<Json>)
    ensures
        match object {
            Some(inner) => inner@ == members(value@, literals(names@), least as int),
            None => value@ == members(value@, literals(names@), least as int),
        },
{
    match value {
        Json::Array(items) => {
            proof {
                json::lemma_array_view(*items);
            }
            if items.len() < least || items.len() > names.len() {
                return Some(Json::Null);
            }
            let mut fields: Vec<(String, Json)> = Vec::new();
            let mut i: usize = 0;
            while i < items.len()
                invariant
                    i <= items@.len() <= names@.len(),
                    fields@.len() == i,
                    forall|j: int|
                        0 <= j < i ==> (#[trigger] fields@[j]).0@ == names@[j]@ && fields@[j].1@
                            == items@[j]@,
                decreases items@.len() - i,
            {
                fields.push((names[i].to_owned(), items[i].clone()));
                i += 1;
            }
            proof {
                json::lemma_object_view(fields);
                assert(json::member_views(fields@) =~= Seq::new(
                    json::views(items@).len(),
                    |j: int| (literals(names@)[j], json::views(items@)[j]),
                ));
            }
            Some(Json::Object(fields))
        },
        _ => None,
    }
}

/// The members of a [`BackendInfo`], in order.
pub open spec fn backend_info_fields() -> Seq<Seq<char>> {
    seq!["pid"@, "version"@, "protocol_version"@]
}

/// Reads a [`BackendInfo`].
pub open spec fn backend_info_of(value: JsonView) -> Option<BackendInfoView> {
    let value = members(value, backend_info_fields(), 3);
    match (
        u32_at(value, "pid"@),
        value.text_at("version"@),
        u8_at(value, "protocol_version"@),
    ) {
        (
            Some(pid),
            Some(version),
            Some(_protocol_version),
        ) => Some(
            BackendInfoView {
                pid,
                version,
                _protocol_version,
            },
        ),
        _ => None,
    }
}

/// Reads a [`BackendInfo`].
pub fn decode_backend_info(value: &Json) -> (decoded: Option<BackendInfo>)
    ensures
        match decoded {
            Some(inner) => backend_info_of(value@) == Some(inner@),
            None => backend_info_of(value@) is None,
        },
{
    let names: Vec<&'static str> = vec!["pid", "version", "protocol_version"];
    assert(literals(names@) =~= backend_info_fields());
    let positional = read_positional(value, &names, 3);
    let value = match &positional {
        Some(object) => object,
        None => value,
    };
    let pid = match read_u32(value, "pid") {
        Some(inner) => inner,
        None => return None,
    };
    let version = match read_text(value, "version") {
        Some(inner) => inner,
        None => return None,
    };
    let _protocol_version = match read_u8(value, "protocol_version") {
        Some(inner) => inner,
        None => return None,
    };
    Some(BackendInfo { pid, version, _protocol_version })
}

/// Reads the member `name` as a [`BackendInfo`].
pub open spec fn backend_info_at(value: JsonView, name: Seq<char>) -> Option<BackendInfoView> {
    match value.get(name) {
        Some(member) => backend_info_of(member),
        None => None,
    }
}

/// Reads the member `name` as a [`BackendInfo`].
fn read_backend_info(value: &Json, name: &str) -> (decoded: Option<BackendInfo>)
    ensures
        match decoded {
            Some(inner) => backend_info_at(value@, name@) == Some(inner@),
            None => backend_info_at(value@, name@) is None,
        },
{
    match value.get(name) {
        Some(member) => decode_backend_info(member),
        None => None,
    }
}

/// The members of a [`RuntimeInfo`], in order.
pub open spec fn runtime_fields() -> Seq<Seq<char>> {
    seq!["config_ready"@, "provider"@, "model"@, "mcp_started"@, "skills"@]
}

/// Reads a [`RuntimeInfo`].
pub open spec fn runtime_of(value: JsonView) -> Option<RuntimeView> {
    let value = members(value, runtime_fields(), 5);
    match (
        bool_at(value, "config_ready"@),
        value.text_at("provider"@),
        value.text_at("model"@),
        u64_at(value, "mcp_started"@),
        texts_at(value, "skills"@),
    ) {
        (
            Some(config_ready),
            Some(provider),
            Some(model),
            Some(_mcp_started),
            Some(skills),
        ) => Some(
            RuntimeView {
                config_ready,
                provider,
                model,
                _mcp_started,
                skills,
            },
        ),
        _ => None,
    }
}

/// Reads a [`RuntimeInfo`].
pub fn decode_runtime(value: &Json) -> (decoded: Option<RuntimeInfo>)
    ensures
        match decoded {
            Some(inner) => runtime_of(value@) == Some(inner@),
            None => runtime_of(value@) is None,
        },
{
    let names: Vec<&'static str> = vec![
        "config_ready",
        "provider",
        "model",
        "mcp_started",
        "skills",
    ];
    assert(literals(names@) =~= runtime_fields());
    let positional = read_positional(value, &names, 5);
    let value = match &positional {
        Some(object) => object,
        None => value,
    };
    let config_ready = match read_bool(value, "config_ready") {
        Some(inner) => inner,
        None => return None,
    };
    let provider = match read_text(value, "provider") {
        Some(inner) => inner,
        None => return None,
    };
    let model = match read_text(value, "model") {
        Some(inner) => inner,
        None => return None,
    };
    let _mcp_started = match read_u64(value, "mcp_started") {
        Some(inner) => inner,
        None => return None,
    };
    let skills = match read_texts(value, "skills") {
        Some(inner) => inner,
        None => return None,
    };
    Some(RuntimeInfo { config_ready, provider, model, _mcp_started, skills })
}

/// Reads the member `name` as a [`RuntimeInfo`].
pub open spec fn runtime_at(value: JsonView, name: Seq<char>) -> Option<RuntimeView> {
    match value.get(name) {
        Some(member) => runtime_of(member),
        None => None,
    }
}

/// Reads the member `name` as a [`RuntimeInfo`].
fn read_runtime(value: &Json, name: &str) -> (decoded: Option<RuntimeInfo>)
    ensures
        match decoded {
            Some(inner) => runtime_at(value@, name@) == Some(inner@),
            None => runtime_at(value@, name@) is None,
        },
{
    match value.get(name) {
        Some(member) => decode_runtime(member),
        None => None,
    }
}

/// The members of a [`BackendCapabilities`], in order.
pub open spec fn capabilities_fields() -> Seq<Seq<char>> {
    seq!["commands"@, "control_operations"@, "cancellation"@, "authoritative_state"@]
}

/// Reads a [`BackendCapabilities`].
pub open spec fn capabilities_of(value: JsonView) -> Option<CapabilitiesView> {
    let value = members(value, capabilities_fields(), 4);
    match (
        texts_at(value, "commands"@),
        texts_or_empty_at(value, "control_operations"@),
        bool_at(value, "cancellation"@),
        bool_at(value, "authoritative_state"@),
    ) {
        (
            Some(commands),
            Some(control_operations),
            Some(cancellation),
            Some(authoritative_state),
        ) => Some(
            CapabilitiesView {
                commands,
                control_operations,
                cancellation,
                authoritative_state,
            },
        ),
        _ => None,
    }
}

/// Reads a [`BackendCapabilities`].
pub fn decode_capabilities(value: &Json) -> (decoded: Option<BackendCapabilities>)
    ensures
        match decoded {
            Some(inner) => capabilities_of(value@) == Some(inner@),
            None => capabilities_of(value@) is None,
        },
{
    let names: Vec<&'static str> = vec![
        "commands",
        "control_operations",
        "cancellation",
        "authoritative_state",
    ];
    assert(literals(names@) =~= capabilities_fields());
    let positional = read_positional(value, &names, 4);
    let value = match &positional {
        Some(object) => object,
        None => value,
    };
    let commands = match read_texts(value, "commands") {
        Some(inner) => inner,
        None => return None,
    };
    let control_operations = match read_texts_or_empty(value, "control_operations") {
        Some(inner) => inner,
        None => return None,
    };
    let cancellation = match read_bool(value, "cancellation") {
        Some(inner) => inner,
        None => return None,
    };
    let authoritative_state = match read_bool(value, "authoritative_state") {
        Some(inner) => inner,
        None => return None,
    };
    Some(BackendCapabilities { commands, control_operations, cancellation, authoritative_state })
}

/// Reads the member `name` as a [`BackendCapabilities`].
pub open spec fn capabilities_at(value: JsonView, name: Seq<char>) -> Option<CapabilitiesView> {
    match value.get(name) {
        Some(member) => capabilities_of(member),
        None => None,
    }
}

/// Reads the member `name` as a [`BackendCapabilities`].
fn read_capabilities(value: &Json, name: &str) -> (decoded: Option<BackendCapabilities>)
    ensures
        match decoded {
            Some(inner) => capabilities_at(value@, name@) == Some(inner@),
            None => capabilities_at(value@, name@) is None,
        },
{
    match value.get(name) {
        Some(member) => decode_capabilities(member),
        None => None,
    }
}

/// The members of a [`BackendTaskState`], in order.
pub open spec fn task_state_fields() -> Seq<Seq<char>> {
    seq!["active"@, "task_id"@]
}

/// Reads a [`BackendTaskState`].
pub open spec fn task_state_of(value: JsonView) -> Option<TaskStateView> {
    let value = members(value, task_state_fields(), 2);
    match (
        bool_at(value, "active"@),
        stated_text_at(value, "task_id"@),
    ) {
        (
            Some(active),
            Some(task_id),
        ) => Some(
            TaskStateView {
                active,
                task_id,
            },
        ),
        _ => None,
    }
}

/// Reads a [`BackendTaskState`].
pub fn decode_task_state(value: &Json) -> (decoded: Option<BackendTaskState>)
    ensures
        match decoded {
            Some(inner) => task_state_of(value@) == Some(inner@),
            None => task_state_of(value@) is None,
        },
{
    let names: Vec<&'static str> = vec!["active", "task_id"];
    assert(literals(names@) =~= task_state_fields());
    let positional = read_positional(value, &names, 2);
    let value = match &positional {
        Some(object) => object,
        None => value,
    };
    let active = match read_bool(value, "active") {
        Some(inner) => inner,
        None => return None,
    };
    let task_id = match read_stated_text(value, "task_id") {
        Some(inner) => inner,
        None => return None,
    };
    Some(BackendTaskState { active, task_id })
}

/// Reads the member `name` as a [`BackendTaskState`].
pub open spec fn task_state_at(value: JsonView, name: Seq<char>) -> Option<TaskStateView> {
    match value.get(name) {
        Some(member) => task_state_of(member),
        None => None,
    }
}

/// Reads the member `name` as a [`BackendTaskState`].
fn read_task_state(value: &Json, name: &str) -> (decoded: Option<BackendTaskState>)
    ensures
        match decoded {
            Some(inner) => task_state_at(value@, name@) == Some(inner@),
            None => task_state_at(value@, name@) is None,
        },
{
    match value.get(name) {
        Some(member) => decode_task_state(member),
        None => None,
    }
}

/// The members of a [`Finding`], in order.
pub open spec fn finding_fields() -> Seq<Seq<char>> {
    seq!["id"@, "severity"@, "title"@, "target"@, "line"@, "code_location"@, "chain_depends_on"@]
}

/// Reads a [`Finding`].
pub open spec fn finding_of(value: JsonView) -> Option<FindingView> {
    let value = members(value, finding_fields(), 6);
    match (
        value.text_at("id"@),
        value.text_at("severity"@),
        value.text_at("title"@),
        value.text_at("target"@),
        opt_u64_at(value, "line"@),
        opt_text_at(value, "code_location"@),
        texts_or_empty_at(value, "chain_depends_on"@),
    ) {
        (
            Some(id),
            Some(severity),
            Some(title),
            Some(target),
            Some(line),
            Some(code_location),
            Some(chain_depends_on),
        ) => Some(
            FindingView {
                id,
                severity,
                title,
                target,
                line,
                code_location,
                chain_depends_on,
            },
        ),
        _ => None,
    }
}

/// Reads a [`Finding`].
pub fn decode_finding(value: &Json) -> (decoded: Option<Finding>)
    ensures
        match decoded {
            Some(inner) => finding_of(value@) == Some(inner@),
            None => finding_of(value@) is None,
        },
{
    let names: Vec<&'static str> = vec![
        "id",
        "severity",
        "title",
        "target",
        "line",
        "code_location",
        "chain_depends_on",
    ];
    assert(literals(names@) =~= finding_fields());
    let positional = read_positional(value, &names, 6);
    let value = match &positional {
        Some(object) => object,
        None => value,
    };
    let id = match read_text(value, "id") {
        Some(inner) => inner,
        None => return None,
    };
    let severity = match read_text(value, "severity") {
        Some(inner) => inner,
        None => return None,
    };
    let title = match read_text(value, "title") {
        Some(inner) => inner,
        None => return None,
    };
    let target = match read_text(value, "target") {
        Some(inner) => inner,
        None => return None,
    };
    let line = match read_opt_u64(value, "line") {
        Some(inner) => inner,
        None => return None,
    };
    let code_location = match read_opt_text(value, "code_location") {
        Some(inner) => inner,
        None => return None,
    };
    let chain_depends_on = match read_texts_or_empty(value, "chain_depends_on") {
        Some(inner) => inner,
        None => return None,
    };
    Some(Finding { id, severity, title, target, line, code_location, chain_depends_on })
}

/// Reads the member `name` as a [`Finding`].
pub open spec fn finding_at(value: JsonView, name: Seq<char>) -> Option<FindingView> {
    match value.get(name) {
        Some(member) => finding_of(member),
        None => None,
    }
}

/// Reads the member `name` as a [`Finding`].
fn read_finding(value: &Json, name: &str) -> (decoded: Option<Finding>)
    ensures
        match decoded {
            Some(inner) => finding_at(value@, name@) == Some(inner@),
            None => finding_at(value@, name@) is None,
        },
{
    match value.get(name) {
        Some(member) => decode_finding(member),
        None => None,
    }
}

/// The member `name`, if it is an array of findings.
pub open spec fn findings_at(value: JsonView, name: Seq<char>) -> Option<Seq<FindingView>> {
    match value.get(name) {
        Some(JsonView::Array(items)) => if forall|i: int|
            0 <= i < items.len() ==> finding_of(#[trigger] items[i]) is Some {
            Some(items.map_values(|item: JsonView| finding_of(item)->0))
        } else {
            None
        },
        _ => None,
    }
}

/// Reads the member `name` as an array of findings.
fn read_findings(value: &Json, name: &str) -> (decoded: Option<Vec<Finding>>)
    ensures
        match decoded {
            Some(list) => findings_at(value@, name@) == Some(event::findings_view(list@)),
            None => findings_at(value@, name@) is None,
        },
{
    match value.get(name) {
        Some(Json::Array(items)) => {
            proof {
                json::lemma_array_view(*items);
            }
            let ghost all = json::views(items@);
            let mut list: Vec<Finding> = Vec::new();
            let mut i: usize = 0;
            while i < items.len()
                invariant
                    all == json::views(items@),
                    value@.get(name@) == Some(JsonView::Array(all)),
                    i <= items@.len(),
                    list@.len() == i,
                    forall|j: int|
                        0 <= j < i ==> finding_of(#[trigger] all[j]) == Some(list@[j]@),
                decreases items@.len() - i,
            {
                assert(all[i as int] == items@[i as int]@);
                match decode_finding(&items[i]) {
                    Some(finding) => {
                        list.push(finding);
                    },
                    None => {
                        return None;
                    },
                }
                i += 1;
            }
            assert(event::findings_view(list@) =~= all.map_values(
                |item: JsonView| finding_of(item)->0,
            ));
            Some(list)
        },
        _ => None,
    }
}

/// The members of a [`StateSnapshot`], in order.
pub open spec fn snapshot_fields() -> Seq<Seq<char>> {
    seq![
        "target"@,
        "phase"@,
        "task_constraints"@,
        "findings"@,
        "task"@,
        "last_run"@,
        "evidence"@,
        "constraint_violations"@,
    ]
}

/// Reads a [`StateSnapshot`].
pub open spec fn snapshot_of(value: JsonView) -> Option<SnapshotView> {
    let value = members(value, snapshot_fields(), 8);
    match (
        value.text_at("target"@),
        value.text_at("phase"@),
        value.get("task_constraints"@),
        findings_at(value, "findings"@),
        task_state_at(value, "task"@),
        stated_json_at(value, "last_run"@),
        jsons_at(value, "evidence"@),
        texts_at(value, "constraint_violations"@),
    ) {
        (
            Some(target),
            Some(phase),
            Some(task_constraints),
            Some(findings),
            Some(task),
            Some(last_run),
            Some(evidence),
            Some(constraint_violations),
        ) => Some(
            SnapshotView {
                target,
                phase,
                task_constraints,
                findings,
                task,
                last_run,
                evidence,
                constraint_violations,
            },
        ),
        _ => None,
    }
}

/// Reads a [`StateSnapshot`].
pub fn decode_snapshot(value: &Json) -> (decoded: Option<StateSnapshot>)
    ensures
        match decoded {
            Some(inner) => snapshot_of(value@) == Some(inner@),
            None => snapshot_of(value@) is None,
        },
{
    let names: Vec<&'static str> = vec![
        "target",
        "phase",
        "task_constraints",
        "findings",
        "task",
        "last_run",
        "evidence",
        "constraint_violations",
    ];
    assert(literals(names@) =~= snapshot_fields());
    let positional = read_positional(value, &names, 8);
    let value = match &positional {
        Some(object) => object,
        None => value,
    };
    let target = match read_text(value, "target") {
        Some(inner) => inner,
        None => return None,
    };
    let phase = match read_text(value, "phase") {
        Some(inner) => inner,
        None => return None,
    };
    let task_constraints = match read_json(value, "task_constraints") {
        Some(inner) => inner,
        None => return None,
    };
    let findings = match read_findings(value, "findings") {
        Some(inner) => inner,
        None => return None,
    };
    let task = match read_task_state(value, "task") {
        Some(inner) => inner,
        None => return None,
    };
    let last_run = match read_stated_json(value, "last_run") {
        Some(inner) => inner,
        None => return None,
    };
    let evidence = match read_jsons(value, "evidence") {
        Some(inner) => inner,
        None => return None,
    };
    let constraint_violations = match read_texts(value, "constraint_violations") {
        Some(inner) => inner,
        None => return None,
    };
    Some(
        StateSnapshot {
            target,
            phase,
            task_constraints,
            findings,
            task,
            last_run,
            evidence,
            constraint_violations,
        },
    )
}

/// Reads the member `name` as a [`StateSnapshot`].
pub open spec fn snapshot_at(value: JsonView, name: Seq<char>) -> Option<SnapshotView> {
    match value.get(name) {
        Some(member) => snapshot_of(member),
        None => None,
    }
}

/// Reads the member `name` as a [`StateSnapshot`].
fn read_snapshot(value: &Json, name: &str) -> (decoded: Option<StateSnapshot>)
    ensures
        match decoded {
            Some(inner) => snapshot_at(value@, name@) == Some(inner@),
            None => snapshot_at(value@, name@) is None,
        },
{
    match value.get(name) {
        Some(member) => decode_snapshot(member),
        None => None,
    }
}

/// The member `name`, which may be missing or null, if it is otherwise a snapshot.
pub open spec fn opt_snapshot_at(value: JsonView, name: Seq<char>) -> Option<
    Option<SnapshotView>,
> {
    match value.get(name) {
        None => Some(None),
        Some(JsonView::Null) => Some(None),
        Some(member) => match snapshot_of(member) {
            Some(state) => Some(Some(state)),
            None => None,
        },
    }
}

/// Reads the member `name` as a snapshot that may be missing or null.
fn read_opt_snapshot(value: &Json, name: &str) -> (decoded: Option<Option<StateSnapshot>>)
    ensures
        match decoded {
            Some(inner) => opt_snapshot_at(value@, name@) == Some(event::opt_snapshot(inner)),
            None => opt_snapshot_at(value@, name@) is None,
        },
{
    match value.get(name) {
        None => Some(None),
        Some(Json::Null) => Some(None),
        Some(member) => match decode_snapshot(member) {
            Some(state) => Some(Some(state)),
            None => None,
        },
    }
}

// ---------------------------------------------------------------------------
// Events
// ---------------------------------------------------------------------------

/// Reads the event `ready`.
pub open spec fn ready_event_of(value: JsonView) -> Option<EventView> {
    match (
        value.text_at("request_id"@),
        backend_info_at(value, "backend"@),
        capabilities_at(value, "capabilities"@),
        runtime_at(value, "runtime"@),
        snapshot_at(value, "state"@),
    ) {
        (
            Some(request_id),
            Some(backend),
            Some(capabilities),
            Some(runtime),
            Some(state),
        ) => Some(EventView::Ready { request_id, backend, capabilities, runtime, state }),
        _ => None,
    }
}

/// Reads the event `ready`.
fn decode_ready_event(value: &Json) -> (decoded: Option<BackendEvent>)
    ensures
        match decoded {
            Some(event) => ready_event_of(value@) == Some(event@),
            None => ready_event_of(value@) is None,
        },
{
    let request_id = match read_text(value, "request_id") {
        Some(inner) => inner,
        None => return None,
    };
    let backend = match read_backend_info(value, "backend") {
        Some(inner) => inner,
        None => return None,
    };
    let capabilities = match read_capabilities(value, "capabilities") {
        Some(inner) => inner,
        None => return None,
    };
    let runtime = match read_runtime(value, "runtime") {
        Some(inner) => inner,
        None => return None,
    };
    let state = match read_snapshot(value, "state") {
        Some(inner) => inner,
        None => return None,
    };
    Some(BackendEvent::Ready { request_id, backend, capabilities, runtime, state })
}

/// Reads the event `state`.
pub open spec fn state_event_of(value: JsonView) -> Option<EventView> {
    match (
        opt_text_at(value, "request_id"@),
        snapshot_at(value, "state"@),
    ) {
        (
            Some(request_id),
            Some(state),
        ) => Some(EventView::State { request_id, state }),
        _ => None,
    }
}

/// Reads the event `state`.
fn decode_state_event(value: &Json) -> (decoded: Option<BackendEvent>)
    ensures
        match decoded {
            Some(event) => state_event_of(value@) == Some(event@),
            None => state_event_of(value@) is None,
        },
{
    let request_id = match read_opt_text(value, "request_id") {
        Some(inner) => inner,
        None => return None,
    };
    let state = match read_snapshot(value, "state") {
        Some(inner) => inner,
        None => return None,
    };
    Some(BackendEvent::State { request_id, state })
}

/// Reads the event `task_started`.
pub open spec fn task_started_event_of(value: JsonView) -> Option<EventView> {
    match (
        value.text_at("request_id"@),
        value.text_at("task_id"@),
        value.get("task"@),
        snapshot_at(value, "state"@),
    ) {
        (
            Some(request_id),
            Some(task_id),
            Some(task),
            Some(state),
        ) => Some(EventView::TaskStarted { request_id, task_id, task, state }),
        _ => None,
    }
}

/// Reads the event `task_started`.
fn decode_task_started_event(value: &Json) -> (decoded: Option<BackendEvent>)
    ensures
        match decoded {
            Some(event) => task_started_event_of(value@) == Some(event@),
            None => task_started_event_of(value@) is None,
        },
{
    let request_id = match read_text(value, "request_id") {
        Some(inner) => inner,
        None => return None,
    };
    let task_id = match read_text(value, "task_id") {
        Some(inner) => inner,
        None => return None,
    };
    let task = match read_json(value, "task") {
        Some(inner) => inner,
        None => return None,
    };
    let state = match read_snapshot(value, "state") {
        Some(inner) => inner,
        None => return None,
    };
    Some(BackendEvent::TaskStarted { request_id, task_id, task, state })
}

/// Reads the event `status`.
pub open spec fn status_event_of(value: JsonView) -> Option<EventView> {
    match (
        value.text_at("task_id"@),
        value.text_at("status"@),
    ) {
        (
            Some(task_id),
            Some(status),
        ) => Some(EventView::Status { task_id, status }),
        _ => None,
    }
}

/// Reads the event `status`.
fn decode_status_event(value: &Json) -> (decoded: Option<BackendEvent>)
    ensures
        match decoded {
            Some(event) => status_event_of(value@) == Some(event@),
            None => status_event_of(value@) is None,
        },
{
    let task_id = match read_text(value, "task_id") {
        Some(inner) => inner,
        None => return None,
    };
    let status = match read_text(value, "status") {
        Some(inner) => inner,
        None => return None,
    };
    Some(BackendEvent::Status { task_id, status })
}

/// Reads the event `reasoning`.
pub open spec fn reasoning_event_of(value: JsonView) -> Option<EventView> {
    match (
        value.text_at("task_id"@),
        value.text_at("text"@),
    ) {
        (
            Some(task_id),
            Some(text),
        ) => Some(EventView::Reasoning { task_id, text }),
        _ => None,
    }
}

/// Reads the event `reasoning`.
fn decode_reasoning_event(value: &Json) -> (decoded: Option<BackendEvent>)
    ensures
        match decoded {
            Some(event) => reasoning_event_of(value@) == Some(event@),
            None => reasoning_event_of(value@) is None,
        },
{
    let task_id = match read_text(value, "task_id") {
        Some(inner) => inner,
        None => return None,
    };
    let text = match read_text(value, "text") {
        Some(inner) => inner,
        None => return None,
    };
    Some(BackendEvent::Reasoning { task_id, text })
}

/// Reads the event `log`.
pub open spec fn log_event_of(value: JsonView) -> Option<EventView> {
    match (
        value.text_at("task_id"@),
        value.text_at("message"@),
    ) {
        (
            Some(task_id),
            Some(message),
        ) => Some(EventView::Log { task_id, message }),
        _ => None,
    }
}

/// Reads the event `log`.
fn decode_log_event(value: &Json) -> (decoded: Option<BackendEvent>)
    ensures
        match decoded {
            Some(event) => log_event_of(value@) == Some(event@),
            None => log_event_of(value@) is None,
        },
{
    let task_id = match read_text(value, "task_id") {
        Some(inner) => inner,
        None => return None,
    };
    let message = match read_text(value, "message") {
        Some(inner) => inner,
        None => return None,
    };
    Some(BackendEvent::Log { task_id, message })
}

/// Reads the event `tool_call`.
pub open spec fn tool_call_event_of(value: JsonView) -> Option<EventView> {
    match (
        value.text_at("task_id"@),
        value.text_at("tool"@),
        value.text_at("arguments"@),
    ) {
        (
            Some(task_id),
            Some(tool),
            Some(arguments),
        ) => Some(EventView::ToolCall { task_id, tool, arguments }),
        _ => None,
    }
}

/// Reads the event `tool_call`.
fn decode_tool_call_event(value: &Json) -> (decoded: Option<BackendEvent>)
    ensures
        match decoded {
            Some(event) => tool_call_event_of(value@) == Some(event@),
            None => tool_call_event_of(value@) is None,
        },
{
    let task_id = match read_text(value, "task_id") {
        Some(inner) => inner,
        None => return None,
    };
    let tool = match read_text(value, "tool") {
        Some(inner) => inner,
        None => return None,
    };
    let arguments = match read_text(value, "arguments") {
        Some(inner) => inner,
        None => return None,
    };
    Some(BackendEvent::ToolCall { task_id, tool, arguments })
}

/// Reads the event `tool_result`.
pub open spec fn tool_result_event_of(value: JsonView) -> Option<EventView> {
    match (
        value.text_at("task_id"@),
        value.text_at("result"@),
    ) {
        (
            Some(task_id),
            Some(result),
        ) => Some(EventView::ToolResult { task_id, result }),
        _ => None,
    }
}

/// Reads the event `tool_result`.
fn decode_tool_result_event(value: &Json) -> (decoded: Option<BackendEvent>)
    ensures
        match decoded {
            Some(event) => tool_result_event_of(value@) == Some(event@),
            None => tool_result_event_of(value@) is None,
        },
{
    let task_id = match read_text(value, "task_id") {
        Some(inner) => inner,
        None => return None,
    };
    let result = match read_text(value, "result") {
        Some(inner) => inner,
        None => return None,
    };
    Some(BackendEvent::ToolResult { task_id, result })
}

/// Reads the event `finding`.
pub open spec fn finding_event_of(value: JsonView) -> Option<EventView> {
    match (
        value.text_at("task_id"@),
        finding_at(value, "finding"@),
    ) {
        (
            Some(task_id),
            Some(finding),
        ) => Some(EventView::Finding { task_id, finding }),
        _ => None,
    }
}

/// Reads the event `finding`.
fn decode_finding_event(value: &Json) -> (decoded: Option<BackendEvent>)
    ensures
        match decoded {
            Some(event) => finding_event_of(value@) == Some(event@),
            None => finding_event_of(value@) is None,
        },
{
    let task_id = match read_text(value, "task_id") {
        Some(inner) => inner,
        None => return None,
    };
    let finding = match read_finding(value, "finding") {
        Some(inner) => inner,
        None => return None,
    };
    Some(BackendEvent::Finding { task_id, finding })
}

/// Reads the event `approval_required`.
pub open spec fn approval_required_event_of(value: JsonView) -> Option<EventView> {
    match (
        value.text_at("task_id"@),
        value.text_at("question"@),
    ) {
        (
            Some(task_id),
            Some(question),
        ) => Some(EventView::ApprovalRequired { task_id, question }),
        _ => None,
    }
}

/// Reads the event `approval_required`.
fn decode_approval_required_event(value: &Json) -> (decoded: Option<BackendEvent>)
    ensures
        match decoded {
            Some(event) => approval_required_event_of(value@) == Some(event@),
            None => approval_required_event_of(value@) is None,
        },
{
    let task_id = match read_text(value, "task_id") {
        Some(inner) => inner,
        None => return None,
    };
    let question = match read_text(value, "question") {
        Some(inner) => inner,
        None => return None,
    };
    Some(BackendEvent::ApprovalRequired { task_id, question })
}

/// Reads the event `task_completed`.
pub open spec fn task_completed_event_of(value: JsonView) -> Option<EventView> {
    match (
        value.text_at("request_id"@),
        value.text_at("task_id"@),
        value.get("result"@),
        findings_at(value, "findings"@),
        snapshot_at(value, "state"@),
    ) {
        (
            Some(request_id),
            Some(task_id),
            Some(result),
            Some(findings),
            Some(state),
        ) => Some(EventView::TaskCompleted { request_id, task_id, result, findings, state }),
        _ => None,
    }
}

/// Reads the event `task_completed`.
fn decode_task_completed_event(value: &Json) -> (decoded: Option<BackendEvent>)
    ensures
        match decoded {
            Some(event) => task_completed_event_of(value@) == Some(event@),
            None => task_completed_event_of(value@) is None,
        },
{
    let request_id = match read_text(value, "request_id") {
        Some(inner) => inner,
        None => return None,
    };
    let task_id = match read_text(value, "task_id") {
        Some(inner) => inner,
        None => return None,
    };
    let result = match read_json(value, "result") {
        Some(inner) => inner,
        None => return None,
    };
    let findings = match read_findings(value, "findings") {
        Some(inner) => inner,
        None => return None,
    };
    let state = match read_snapshot(value, "state") {
        Some(inner) => inner,
        None => return None,
    };
    Some(BackendEvent::TaskCompleted { request_id, task_id, result, findings, state })
}

/// Reads the event `task_cancelled`.
pub open spec fn task_cancelled_event_of(value: JsonView) -> Option<EventView> {
    match (
        value.text_at("request_id"@),
        value.text_at("task_id"@),
        snapshot_at(value, "state"@),
    ) {
        (
            Some(request_id),
            Some(task_id),
            Some(state),
        ) => Some(EventView::TaskCancelled { request_id, task_id, state }),
        _ => None,
    }
}

/// Reads the event `task_cancelled`.
fn decode_task_cancelled_event(value: &Json) -> (decoded: Option<BackendEvent>)
    ensures
        match decoded {
            Some(event) => task_cancelled_event_of(value@) == Some(event@),
            None => task_cancelled_event_of(value@) is None,
        },
{
    let request_id = match read_text(value, "request_id") {
        Some(inner) => inner,
        None => return None,
    };
    let task_id = match read_text(value, "task_id") {
        Some(inner) => inner,
        None => return None,
    };
    let state = match read_snapshot(value, "state") {
        Some(inner) => inner,
        None => return None,
    };
    Some(BackendEvent::TaskCancelled { request_id, task_id, state })
}

/// Reads the event `task_failed`.
pub open spec fn task_failed_event_of(value: JsonView) -> Option<EventView> {
    match (
        value.text_at("request_id"@),
        value.text_at("task_id"@),
        value.get("error"@),
        snapshot_at(value, "state"@),
    ) {
        (
            Some(request_id),
            Some(task_id),
            Some(error),
            Some(state),
        ) => Some(EventView::TaskFailed { request_id, task_id, error, state }),
        _ => None,
    }
}

/// Reads the event `task_failed`.
fn decode_task_failed_event(value: &Json) -> (decoded: Option<BackendEvent>)
    ensures
        match decoded {
            Some(event) => task_failed_event_of(value@) == Some(event@),
            None => task_failed_event_of(value@) is None,
        },
{
    let request_id = match read_text(value, "request_id") {
        Some(inner) => inner,
        None => return None,
    };
    let task_id = match read_text(value, "task_id") {
        Some(inner) => inner,
        None => return None,
    };
    let error = match read_json(value, "error") {
        Some(inner) => inner,
        None => return None,
    };
    let state = match read_snapshot(value, "state") {
        Some(inner) => inner,
        None => return None,
    };
    Some(BackendEvent::TaskFailed { request_id, task_id, error, state })
}

/// Reads the event `control_result`.
pub open spec fn control_result_event_of(value: JsonView) -> Option<EventView> {
    match (
        value.text_at("request_id"@),
        value.text_at("operation"@),
        value.get("result"@),
        opt_snapshot_at(value, "state"@),
    ) {
        (
            Some(request_id),
            Some(operation),
            Some(result),
            Some(state),
        ) => Some(EventView::ControlResult { request_id, operation, result, state }),
        _ => None,
    }
}

/// Reads the event `control_result`.
fn decode_control_result_event(value: &Json) -> (decoded: Option<BackendEvent>)
    ensures
        match decoded {
            Some(event) => control_result_event_of(value@) == Some(event@),
            None => control_result_event_of(value@) is None,
        },
{
    let request_id = match read_text(value, "request_id") {
        Some(inner) => inner,
        None => return None,
    };
    let operation = match read_text(value, "operation") {
        Some(inner) => inner,
        None => return None,
    };
    let result = match read_json(value, "result") {
        Some(inner) => inner,
        None => return None,
    };
    let state = match read_opt_snapshot(value, "state") {
        Some(inner) => inner,
        None => return None,
    };
    Some(BackendEvent::ControlResult { request_id, operation, result, state })
}

/// Reads the event `error`.
pub open spec fn error_event_of(value: JsonView) -> Option<EventView> {
    match (
        opt_text_at(value, "request_id"@),
        opt_text_at(value, "task_id"@),
        value.text_at("code"@),
        value.text_at("message"@),
    ) {
        (
            Some(request_id),
            Some(task_id),
            Some(code),
            Some(message),
        ) => Some(EventView::Error { request_id, task_id, code, message }),
        _ => None,
    }
}

/// Reads the event `error`.
fn decode_error_event(value: &Json) -> (decoded: Option<BackendEvent>)
    ensures
        match decoded {
            Some(event) => error_event_of(value@) == Some(event@),
            None => error_event_of(value@) is None,
        },
{
    let request_id = match read_opt_text(value, "request_id") {
        Some(inner) => inner,
        None => return None,
    };
    let task_id = match read_opt_text(value, "task_id") {
        Some(inner) => inner,
        None => return None,
    };
    let code = match read_text(value, "code") {
        Some(inner) => inner,
        None => return None,
    };
    let message = match read_text(value, "message") {
        Some(inner) => inner,
        None => return None,
    };
    Some(BackendEvent::Error { request_id, task_id, code, message })
}

/// Reads the event `shutdown_complete`.
pub open spec fn shutdown_complete_event_of(value: JsonView) -> Option<EventView> {
    match (
        value.text_at("request_id"@),
    ) {
        (
            Some(request_id),
        ) => Some(EventView::ShutdownComplete { request_id }),
        _ => None,
    }
}

/// Reads the event `shutdown_complete`.
fn decode_shutdown_complete_event(value: &Json) -> (decoded: Option<BackendEvent>)
    ensures
        match decoded {
            Some(event) => shutdown_complete_event_of(value@) == Some(event@),
            None => shutdown_complete_event_of(value@) is None,
        },
{
    let request_id = match read_text(value, "request_id") {
        Some(inner) => inner,
        None => return None,
    };
    Some(BackendEvent::ShutdownComplete { request_id })
}

/// The event that `value` stands for: its `type` says which one.
pub open spec fn event_of(value: JsonView) -> Option<EventView> {
    match value.text_at("type"@) {
        None => None,
        Some(kind) => {
            if kind == "ready"@ {
                ready_event_of(value)
            } else if kind == "state"@ {
                state_event_of(value)
            } else if kind == "task_started"@ {
                task_started_event_of(value)
            } else if kind == "status"@ {
                status_event_of(value)
            } else if kind == "reasoning"@ {
                reasoning_event_of(value)
            } else if kind == "log"@ {
                log_event_of(value)
            } else if kind == "tool_call"@ {
                tool_call_event_of(value)
            } else if kind == "tool_result"@ {
                tool_result_event_of(value)
            } else if kind == "finding"@ {
                finding_event_of(value)
            } else if kind == "approval_required"@ {
                approval_required_event_of(value)
            } else if kind == "task_completed"@ {
                task_completed_event_of(value)
            } else if kind == "task_cancelled"@ {
                task_cancelled_event_of(value)
            } else if kind == "task_failed"@ {
                task_failed_event_of(value)
            } else if kind == "control_result"@ {
                control_result_event_of(value)
            } else if kind == "error"@ {
                error_event_of(value)
            } else if kind == "shutdown_complete"@ {
                shutdown_complete_event_of(value)
            } else {
                None
            }
        },
    }
}

/// Reads the event that `value` stands for.
pub fn decode_event(value: &Json) -> (decoded: Option<BackendEvent>)
    ensures
        match decoded {
            Some(event) => event_of(value@) == Some(event@),
            None => event_of(value@) is None,
        },
{
    match value.text_at("type") {
        None => None,
        Some(kind) => {
            if text::same_text(kind, "ready") {
                decode_ready_event(value)
            } else if text::same_text(kind, "state") {
                decode_state_event(value)
            } else if text::same_text(kind, "task_started") {
                decode_task_started_event(value)
            } else if text::same_text(kind, "status") {
                decode_status_event(value)
            } else if text::same_text(kind, "reasoning") {
                decode_reasoning_event(value)
            } else if text::same_text(kind, "log") {
                decode_log_event(value)
            } else if text::same_text(kind, "tool_call") {
                decode_tool_call_event(value)
            } else if text::same_text(kind, "tool_result") {
                decode_tool_result_event(value)
            } else if text::same_text(kind, "finding") {
                decode_finding_event(value)
            } else if text::same_text(kind, "approval_required") {
                decode_approval_required_event(value)
            } else if text::same_text(kind, "task_completed") {
                decode_task_completed_event(value)
            } else if text::same_text(kind, "task_cancelled") {
                decode_task_cancelled_event(value)
            } else if text::same_text(kind, "task_failed") {
                decode_task_failed_event(value)
            } else if text::same_text(kind, "control_result") {
                decode_control_result_event(value)
            } else if text::same_text(kind, "error") {
                decode_error_event(value)
            } else if text::same_text(kind, "shutdown_complete") {
                decode_shutdown_complete_event(value)
            } else {
                None
            }
        },
    }
}

// ---------------------------------------------------------------------------
// Lines
// ---------------------------------------------------------------------------

/// `value` states the protocol version that this client speaks.
pub open spec fn speaks_our_version(value: JsonView) -> bool {
    u64_at(value, "protocol_version"@) == Some(PROTOCOL_VERSION as u64)
}

/// The complaint about another protocol version.
pub open spec fn version_complaint() -> Seq<char> {
    "unsupported backend protocol version; expected "@ + text::decimal(PROTOCOL_VERSION as nat)
}

/// What becomes of a document of our version that was held against the schema. `refusal` is
/// what the deserializer says of a document that is no event.
pub open spec fn event_or_complaint(
    value: JsonView,
    check: SchemaCheck,
    refusal: Seq<char>,
) -> Result<EventView, Seq<char>> {
    match schema::complaint(check) {
        Err(reason) => Err(reason),
        Ok(()) => match event_of(value) {
            Some(event) => Ok(event),
            None => Err(refusal),
        },
    }
}

/// The content of an event or of a complaint.
pub open spec fn outcome_view(outcome: Result<BackendEvent, String>) -> Result<
    EventView,
    Seq<char>,
> {
    match outcome {
        Ok(event) => Ok(event@),
        Err(reason) => Err(reason@),
    }
}

/// Reads the event out of a document of our version that was held against the schema, or
/// hands on the refusal where it is no event.
pub fn accept_event(value: &Json, check: SchemaCheck, refusal: &str) -> (outcome: Result<
    BackendEvent,
    String,
>)
    ensures
        outcome_view(outcome) == event_or_complaint(value@, check, refusal@),
{
    match schema::report_check(check) {
        Err(reason) => Err(reason),
        Ok(()) => match decode_event(value) {
            Some(event) => Ok(event),
            None => Err(refusal.to_owned()),
        },
    }
}

/// Complains about a document of another protocol version.
pub fn check_version(value: &Json) -> (outcome: Result<(), String>)
    ensures
        outcome is Ok <==> speaks_our_version(value@),
        outcome is Err ==> outcome->Err_0@ == version_complaint(),
{
    match read_u64(value, "protocol_version") {
        Some(version) => if version == PROTOCOL_VERSION as u64 {
            return Ok(());
        },
        None => {},
    }
    let expected = text::numeral(PROTOCOL_VERSION as u64);
    Err(text::glue("unsupported backend protocol version; expected ", expected.as_str()))
}

/// What may become of a line that the backend wrote. The schema decides whether a document
/// of our version is accepted; what it says of one that it rejects is left open.
pub open spec fn line_outcome(
    line: Seq<char>,
    schema: Seq<char>,
    refusal: Seq<char>,
    outcome: Result<EventView, Seq<char>>,
) -> bool {
    match json::tree(line, json::MAX_DEPTH as nat) {
        Err(reason) => outcome == Err::<EventView, _>(reason),
        Ok(value) => if !speaks_our_version(value) {
            outcome == Err::<EventView, _>(version_complaint())
        } else {
            match schema::schema_verdict(schema, line) {
                Some(true) => outcome == event_or_complaint(value, SchemaCheck::Accepted, refusal),
                Some(false) => outcome is Err && text::begins_with(
                    outcome->Err_0,
                    "protocol schema violation: "@,
                ),
                None => outcome is Err && text::begins_with(
                    outcome->Err_0,
                    "protocol schema cannot be used: "@,
                ),
            }
        },
    }
}

/// Reads one line that the backend wrote: a JSON document of our protocol version that
/// satisfies the protocol schema and is the wire form of an event. `refusal` is what the
/// deserializer says of the line where it is no event; the complaint is then in these words.
pub fn parse_backend_line(line: &str, schema: &str, refusal: &str) -> (outcome: Result<
    BackendEvent,
    String,
>)
    ensures
        line_outcome(line@, schema@, refusal@, outcome_view(outcome)),
{
    match json::parse_json(line) {
        Err(reason) => Err(reason),
        Ok(value) => match check_version(&value) {
            Err(reason) => Err(reason),
            Ok(()) => {
                let check = schema::check_schema(schema, line);
                proof {
                    text::lemma_begins_with("protocol schema violation: "@, check->Rejected_0@);
                    text::lemma_begins_with(
                        "protocol schema cannot be used: "@,
                        check->Unusable_0@,
                    );
                }
                accept_event(&value, check, refusal)
            },
        },
    }
}

/// The settings that the terminal hands to the backend: a JSON document from the
/// environment, or no settings where there is none or it cannot be read.
pub open spec fn bootstrap_of(raw: Option<Seq<char>>) -> JsonView {
    match raw {
        Some(document) => match json::tree(document, json::MAX_DEPTH as nat) {
            Ok(value) => value,
            Err(_) => JsonView::Object(seq![]),
        },
        None => JsonView::Object(seq![]),
    }
}

/// Reads the settings that the terminal hands to the backend.
pub fn parse_bootstrap(raw: Option<String>) -> (value: Json)
    ensures
        value@ == bootstrap_of(text::opt_text(raw)),
{
    match raw {
        Some(document) => match json::parse_json(document.as_str()) {
            Ok(value) => value,
            Err(_) => Json::empty_object(),
        },
        None => Json::empty_object(),
    }
}

/// A reported state is complete: without any one of its fields, or without the identity of
/// the running task, it is rejected.
pub proof fn every_state_field_is_required(value: JsonView)
    requires
        snapshot_of(value) is Some,
    ensures
        value is Object || value is Array && value->Array_0.len() == snapshot_fields().len(),
        value is Object ==> {
            &&& value.get("target"@) is Some
            &&& value.get("phase"@) is Some
            &&& value.get("task_constraints"@) is Some
            &&& value.get("findings"@) is Some
            &&& value.get("task"@) is Some
            &&& value.get("last_run"@) is Some
            &&& value.get("evidence"@) is Some
            &&& value.get("constraint_violations"@) is Some
            &&& task_state_of(value.get("task"@)->Some_0) is Some
        },
{
}

/// The state of the running task is complete.
pub proof fn every_task_state_field_is_required(value: JsonView)
    requires
        task_state_of(value) is Some,
    ensures
        value is Object || value is Array && value->Array_0.len() == task_state_fields().len(),
        value is Object ==> value.get("active"@) is Some && value.get("task_id"@) is Some,
{
}

/// A state event holds a complete state.
pub proof fn state_events_hold_a_state(value: JsonView)
    requires
        value.text_at("type"@) == Some("state"@),
        event_of(value) is Some,
    ensures
        value.get("state"@) is Some,
        snapshot_of(value.get("state"@)->Some_0) is Some,
        event_of(value)->Some_0 is State,
{
    reveal_strlit("ready");
    reveal_strlit("state");
    assert("ready"@[0] != "state"@[0]);
}

/// Only a document of our protocol version that satisfies the schema becomes an event.
pub proof fn accepted_lines_follow_the_protocol(
    line: Seq<char>,
    schema: Seq<char>,
    refusal: Seq<char>,
    event: EventView,
)
    requires
        line_outcome(line, schema, refusal, Ok(event)),
    ensures
        json::tree(line, json::MAX_DEPTH as nat) is Ok,
        speaks_our_version(json::tree(line, json::MAX_DEPTH as nat)->Ok_0),
        schema::schema_verdict(schema, line) == Some(true),
        event_of(json::tree(line, json::MAX_DEPTH as nat)->Ok_0) == Some(event),
{
}

/// A line that follows the protocol and satisfies the schema but is no event is refused in
/// the words of the deserializer.
pub proof fn refusals_are_handed_on(
    line: Seq<char>,
    schema: Seq<char>,
    refusal: Seq<char>,
    outcome: Result<EventView, Seq<char>>,
)
    requires
        line_outcome(line, schema, refusal, outcome),
        json::tree(line, json::MAX_DEPTH as nat) is Ok,
        speaks_our_version(json::tree(line, json::MAX_DEPTH as nat)->Ok_0),
        schema::schema_verdict(schema, line) == Some(true),
        event_of(json::tree(line, json::MAX_DEPTH as nat)->Ok_0) is None,
    ensures
        outcome == Err::<EventView, _>(refusal),
{
}

} // verus!
