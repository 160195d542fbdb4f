//! What holds of the wire form: which JSON value states which record or event.
use vstd::prelude::*;

use crate::decode;
use crate::event::{
    AppEventView, BackendInfoView, CapabilitiesView, EventView, FindingView, RuntimeView,
    SnapshotView, TaskStateView,
};
use crate::json;
use crate::json::{Json, JsonView};
use crate::protocol;
use crate::protocol::{RequestView, TaskInput};
use crate::schema;
use crate::schema::SchemaCheck;
use crate::text;
use crate::transport;
use crate::transport::{ChildPoll, ReapStep};

verus! {

// ---------------------------------------------------------------------------
// Parts of a record
// ---------------------------------------------------------------------------

/// The part `name` of a record that is written as an object, or the part at `i` of one that is
/// written as an array.
pub open spec fn part(value: JsonView, name: Seq<char>, i: int) -> Option<JsonView> {
    match value {
        JsonView::Array(items) => if 0 <= i < items.len() {
            Some(items[i])
        } else {
            None
        },
        JsonView::Object(_) => value.get(name),
        _ => None,
    }
}

/// `value` is an object, or an array of at least `least` and at most `most` parts.
pub open spec fn is_record(value: JsonView, least: int, most: int) -> bool {
    value is Object || value is Array && least <= value->Array_0.len() <= most
}

/// The part is the text `s`.
pub open spec fn is_text(part: Option<JsonView>, s: Seq<char>) -> bool {
    part == Some(JsonView::Text(s))
}

/// The part is the truth value `b`.
pub open spec fn is_truth(part: Option<JsonView>, b: bool) -> bool {
    part == Some(JsonView::Bool(b))
}

/// The part is the unsigned number `n`.
pub open spec fn is_unsigned(part: Option<JsonView>, n: int) -> bool {
    match part {
        Some(JsonView::Number(number)) => number.unsigned matches Some(value) && value == n,
        _ => false,
    }
}

/// The part is missing or null.
pub open spec fn is_nothing(part: Option<JsonView>) -> bool {
    part is None || part == Some(JsonView::Null)
}

/// The part is the text, or is missing or null where there is none.
pub open spec fn is_opt_text(part: Option<JsonView>, s: Option<Seq<char>>) -> bool {
    match s {
        Some(content) => is_text(part, content),
        None => is_nothing(part),
    }
}

/// The part is the array of the texts of `list`, in order.
pub open spec fn is_texts(part: Option<JsonView>, list: Seq<Seq<char>>) -> bool {
    match part {
        Some(JsonView::Array(items)) => items.len() == list.len() && forall|i: int|
            0 <= i < items.len() ==> #[trigger] items[i] == JsonView::Text(list[i]),
        _ => false,
    }
}

/// The names differ from one another.
pub open spec fn distinct(names: Seq<Seq<char>>) -> bool {
    forall|i: int, j: int| 0 <= i < j < names.len() ==> names[i] != names[j]
}

/// The member of a record of the given shape is its part.
proof fn lemma_part(value: JsonView, names: Seq<Seq<char>>, least: int, i: int)
    requires
        distinct(names),
        0 <= i < names.len(),
    ensures
        decode::members(value, names, least).get(names[i]) == (if is_record(
            value,
            least,
            names.len() as int,
        ) {
            part(value, names[i], i)
        } else {
            None
        }),
{
    if let JsonView::Array(items) = value {
        if least <= items.len() <= names.len() {
            let fields = Seq::new(items.len(), |j: int| (names[j], items[j]));
            assert(decode::members(value, names, least) == JsonView::Object(fields));
            if i < items.len() {
                assert(fields[i].0 == names[i]);
                json::lemma_lookup_first(fields, i);
            } else {
                json::lemma_lookup_none(fields, names[i]);
            }
        }
    }
}

/// Reading a list of texts.
proof fn lemma_texts(value: JsonView, list: Seq<Seq<char>>)
    ensures
        decode::texts_of(value) == Some(list) <==> is_texts(Some(value), list),
{
    if let JsonView::Array(items) = value {
        let read = items.map_values(|item: JsonView| item->Text_0);
        if is_texts(Some(value), list) {
            assert forall|i: int| 0 <= i < items.len() implies items[i] is Text by {
                assert(items[i] == JsonView::Text(list[i]));
            }
            assert(read =~= list);
        }
        if decode::texts_of(value) == Some(list) {
            assert forall|i: int| 0 <= i < items.len() implies #[trigger] items[i]
                == JsonView::Text(list[i]) by {
                assert(read[i] == items[i]->Text_0);
            }
        }
    }
}

/// Reading a list of texts that may be missing.
proof fn lemma_texts_at(value: JsonView, name: Seq<char>, list: Seq<Seq<char>>)
    ensures
        decode::texts_at(value, name) == Some(list) <==> is_texts(value.get(name), list),
        decode::texts_or_empty_at(value, name) == Some(list) <==> is_texts(value.get(name), list)
            || value.get(name) is None && list.len() == 0,
{
    match value.get(name) {
        Some(member) => {
            lemma_texts(member, list);
        },
        None => {
            if list.len() == 0 {
                assert(list =~= seq![]);
            }
        },
    }
}

/// Reading an unsigned number.
proof fn lemma_unsigned(value: JsonView, name: Seq<char>)
    ensures
        forall|n: u64|
            decode::u64_at(value, name) == Some(n) <==> #[trigger] is_unsigned(
                value.get(name),
                n as int,
            ),
{
}

// ---------------------------------------------------------------------------
// Records
// ---------------------------------------------------------------------------

/// `value` states the task state.
pub open spec fn states_task_state(value: JsonView, task: TaskStateView) -> bool {
    &&& is_record(value, 2, 2)
    &&& is_truth(part(value, "active"@, 0), task.active)
    &&& part(value, "task_id"@, 1) is Some
    &&& is_opt_text(part(value, "task_id"@, 1), task.task_id)
}

/// A task state is read exactly as it is stated.
pub proof fn task_states_are_read_as_stated(value: JsonView, task: TaskStateView)
    ensures
        decode::task_state_of(value) == Some(task) <==> states_task_state(value, task),
{
    let names = decode::task_state_fields();
    assert(distinct(names)) by {
        reveal_strlit("active");
        reveal_strlit("task_id");
        assert("active"@.len() == 6 && "task_id"@.len() == 7);
    }
    lemma_part(value, names, 2, 0);
    lemma_part(value, names, 2, 1);
}

/// `value` states the finding.
pub open spec fn states_finding(value: JsonView, finding: FindingView) -> bool {
    &&& is_record(value, 6, 7)
    &&& is_text(part(value, "id"@, 0), finding.id)
    &&& is_text(part(value, "severity"@, 1), finding.severity)
    &&& is_text(part(value, "title"@, 2), finding.title)
    &&& is_text(part(value, "target"@, 3), finding.target)
    &&& match finding.line {
        Some(n) => is_unsigned(part(value, "line"@, 4), n as int),
        None => is_nothing(part(value, "line"@, 4)),
    }
    &&& is_opt_text(part(value, "code_location"@, 5), finding.code_location)
    &&& is_texts(part(value, "chain_depends_on"@, 6), finding.chain_depends_on) || part(
        value,
        "chain_depends_on"@,
        6,
    ) is None && finding.chain_depends_on.len() == 0
}

/// A finding is read exactly as it is stated.
pub proof fn findings_are_read_as_stated(value: JsonView, finding: FindingView)
    ensures
        decode::finding_of(value) == Some(finding) <==> states_finding(value, finding),
{
    let names = decode::finding_fields();
    lemma_finding_names();
    lemma_part(value, names, 6, 0);
    lemma_part(value, names, 6, 1);
    lemma_part(value, names, 6, 2);
    lemma_part(value, names, 6, 3);
    lemma_part(value, names, 6, 4);
    lemma_part(value, names, 6, 5);
    lemma_part(value, names, 6, 6);
    let object = decode::members(value, names, 6);
    lemma_unsigned(object, "line"@);
    lemma_texts_at(object, "chain_depends_on"@, finding.chain_depends_on);
    if let Some(n) = finding.line {
        assert(decode::u64_at(object, "line"@) == Some(n) <==> is_unsigned(
            object.get("line"@),
            n as int,
        ));
    }
}

/// The names of the parts of a finding differ.
proof fn lemma_finding_names()
    ensures
        distinct(decode::finding_fields()),
{
    reveal_strlit("id");
    reveal_strlit("severity");
    reveal_strlit("title");
    reveal_strlit("target");
    reveal_strlit("line");
    reveal_strlit("code_location");
    reveal_strlit("chain_depends_on");
    assert("id"@.len() == 2 && "severity"@.len() == 8 && "title"@.len() == 5 && "target"@.len() == 6
        && "line"@.len() == 4 && "code_location"@.len() == 13 && "chain_depends_on"@.len() == 16);
}

/// The part is the array of the findings of `list`, in order.
pub open spec fn is_findings(part: Option<JsonView>, list: Seq<FindingView>) -> bool {
    match part {
        Some(JsonView::Array(items)) => items.len() == list.len() && forall|i: int|
            0 <= i < items.len() ==> states_finding(#[trigger] items[i], list[i]),
        _ => false,
    }
}

/// Reading a list of findings.
proof fn lemma_findings_at(value: JsonView, name: Seq<char>, list: Seq<FindingView>)
    ensures
        decode::findings_at(value, name) == Some(list) <==> is_findings(value.get(name), list),
{
    if let Some(JsonView::Array(items)) = value.get(name) {
        let read = items.map_values(|item: JsonView| decode::finding_of(item)->0);
        if is_findings(value.get(name), list) {
            assert forall|i: int| 0 <= i < items.len() implies decode::finding_of(
                #[trigger] items[i],
            ) == Some(list[i]) by {
                findings_are_read_as_stated(items[i], list[i]);
            }
            assert(read =~= list);
        }
        if decode::findings_at(value, name) == Some(list) {
            assert(list == read);
            assert forall|i: int| 0 <= i < items.len() implies states_finding(
                #[trigger] items[i],
                list[i],
            ) by {
                assert(decode::finding_of(items[i]) is Some);
                assert(read[i] == decode::finding_of(items[i])->0);
                findings_are_read_as_stated(items[i], list[i]);
            }
        }
    }
}

/// `value` states the state of the backend.
pub open spec fn states_snapshot(value: JsonView, state: SnapshotView) -> bool {
    &&& is_record(value, 8, 8)
    &&& is_text(part(value, "target"@, 0), state.target)
    &&& is_text(part(value, "phase"@, 1), state.phase)
    &&& part(value, "task_constraints"@, 2) == Some(state.task_constraints)
    &&& is_findings(part(value, "findings"@, 3), state.findings)
    &&& part(value, "task"@, 4) matches Some(task) && states_task_state(task, state.task)
    &&& match state.last_run {
        Some(run) => part(value, "last_run"@, 5) == Some(run) && run !is Null,
        None => part(value, "last_run"@, 5) == Some(JsonView::Null),
    }
    &&& part(value, "evidence"@, 6) == Some(JsonView::Array(state.evidence))
    &&& is_texts(part(value, "constraint_violations"@, 7), state.constraint_violations)
}

/// The state of the backend is read exactly as it is stated: as many findings as there are,
/// each with its own parts, and every other part under its own name.
pub proof fn states_are_read_as_stated(value: JsonView, state: SnapshotView)
    ensures
        decode::snapshot_of(value) == Some(state) <==> states_snapshot(value, state),
{
    let names = decode::snapshot_fields();
    lemma_snapshot_names();
    lemma_part(value, names, 8, 0);
    lemma_part(value, names, 8, 1);
    lemma_part(value, names, 8, 2);
    lemma_part(value, names, 8, 3);
    lemma_part(value, names, 8, 4);
    lemma_part(value, names, 8, 5);
    lemma_part(value, names, 8, 6);
    lemma_part(value, names, 8, 7);
    let object = decode::members(value, names, 8);
    lemma_findings_at(object, "findings"@, state.findings);
    lemma_texts_at(object, "constraint_violations"@, state.constraint_violations);
    if let Some(task) = object.get("task"@) {
        task_states_are_read_as_stated(task, state.task);
    }
}

/// The names of the parts of a state differ.
proof fn lemma_snapshot_names()
    ensures
        distinct(decode::snapshot_fields()),
{
    reveal_strlit("target");
    reveal_strlit("phase");
    reveal_strlit("task_constraints");
    reveal_strlit("findings");
    reveal_strlit("task");
    reveal_strlit("last_run");
    reveal_strlit("evidence");
    reveal_strlit("constraint_violations");
    assert("target"@.len() == 6 && "phase"@.len() == 5 && "task_constraints"@.len() == 16
        && "findings"@.len() == 8 && "task"@.len() == 4 && "last_run"@.len() == 8
        && "evidence"@.len() == 8 && "constraint_violations"@.len() == 21);
    assert("findings"@[0] == 'f' && "last_run"@[0] == 'l' && "evidence"@[0] == 'e');
}

/// `value` states the backend process.
pub open spec fn states_backend(value: JsonView, backend: BackendInfoView) -> bool {
    &&& is_record(value, 3, 3)
    &&& is_unsigned(part(value, "pid"@, 0), backend.pid as int)
    &&& is_text(part(value, "version"@, 1), backend.version)
    &&& is_unsigned(part(value, "protocol_version"@, 2), backend._protocol_version as int)
}

/// A backend process is read exactly as it is stated.
pub proof fn backends_are_read_as_stated(value: JsonView, backend: BackendInfoView)
    ensures
        decode::backend_info_of(value) == Some(backend) <==> states_backend(value, backend),
{
    let names = decode::backend_info_fields();
    assert(distinct(names)) by {
        reveal_strlit("pid");
        reveal_strlit("version");
        reveal_strlit("protocol_version");
        assert("pid"@.len() == 3 && "version"@.len() == 7 && "protocol_version"@.len() == 16);
    }
    lemma_part(value, names, 3, 0);
    lemma_part(value, names, 3, 1);
    lemma_part(value, names, 3, 2);
    let object = decode::members(value, names, 3);
    lemma_unsigned(object, "pid"@);
    lemma_unsigned(object, "protocol_version"@);
    let pid: u64 = backend.pid as u64;
    let version: u64 = backend._protocol_version as u64;
    assert(decode::u64_at(object, "pid"@) == Some(pid) <==> is_unsigned(
        object.get("pid"@),
        pid as int,
    ));
    assert(decode::u64_at(object, "protocol_version"@) == Some(version) <==> is_unsigned(
        object.get("protocol_version"@),
        version as int,
    ));
}

/// `value` states the runtime.
pub open spec fn states_runtime(value: JsonView, runtime: RuntimeView) -> bool {
    &&& is_record(value, 5, 5)
    &&& is_truth(part(value, "config_ready"@, 0), runtime.config_ready)
    &&& is_text(part(value, "provider"@, 1), runtime.provider)
    &&& is_text(part(value, "model"@, 2), runtime.model)
    &&& is_unsigned(part(value, "mcp_started"@, 3), runtime._mcp_started as int)
    &&& is_texts(part(value, "skills"@, 4), runtime.skills)
}

/// A runtime is read exactly as it is stated.
pub proof fn runtimes_are_read_as_stated(value: JsonView, runtime: RuntimeView)
    ensures
        decode::runtime_of(value) == Some(runtime) <==> states_runtime(value, runtime),
{
    let names = decode::runtime_fields();
    assert(distinct(names)) by {
        reveal_strlit("config_ready");
        reveal_strlit("provider");
        reveal_strlit("model");
        reveal_strlit("mcp_started");
        reveal_strlit("skills");
        assert("config_ready"@.len() == 12 && "provider"@.len() == 8 && "model"@.len() == 5
            && "mcp_started"@.len() == 11 && "skills"@.len() == 6);
    }
    lemma_part(value, names, 5, 0);
    lemma_part(value, names, 5, 1);
    lemma_part(value, names, 5, 2);
    lemma_part(value, names, 5, 3);
    lemma_part(value, names, 5, 4);
    let object = decode::members(value, names, 5);
    lemma_unsigned(object, "mcp_started"@);
    lemma_texts_at(object, "skills"@, runtime.skills);
    assert(decode::u64_at(object, "mcp_started"@) == Some(runtime._mcp_started) <==> is_unsigned(
        object.get("mcp_started"@),
        runtime._mcp_started as int,
    ));
}

/// `value` states the capabilities.
pub open spec fn states_capabilities(value: JsonView, capabilities: CapabilitiesView) -> bool {
    &&& is_record(value, 4, 4)
    &&& is_texts(part(value, "commands"@, 0), capabilities.commands)
    &&& is_texts(part(value, "control_operations"@, 1), capabilities.control_operations) || part(
        value,
        "control_operations"@,
        1,
    ) is None && capabilities.control_operations.len() == 0
    &&& is_truth(part(value, "cancellation"@, 2), capabilities.cancellation)
    &&& is_truth(part(value, "authoritative_state"@, 3), capabilities.authoritative_state)
}

/// Capabilities are read exactly as they are stated.
pub proof fn capabilities_are_read_as_stated(value: JsonView, capabilities: CapabilitiesView)
    ensures
        decode::capabilities_of(value) == Some(capabilities) <==> states_capabilities(
            value,
            capabilities,
        ),
{
    let names = decode::capabilities_fields();
    assert(distinct(names)) by {
        reveal_strlit("commands");
        reveal_strlit("control_operations");
        reveal_strlit("cancellation");
        reveal_strlit("authoritative_state");
        assert("commands"@.len() == 8 && "control_operations"@.len() == 18
            && "cancellation"@.len() == 12 && "authoritative_state"@.len() == 19);
    }
    lemma_part(value, names, 4, 0);
    lemma_part(value, names, 4, 1);
    lemma_part(value, names, 4, 2);
    lemma_part(value, names, 4, 3);
    let object = decode::members(value, names, 4);
    lemma_texts_at(object, "commands"@, capabilities.commands);
    lemma_texts_at(object, "control_operations"@, capabilities.control_operations);
}

// ---------------------------------------------------------------------------
// Writing and reading back
// ---------------------------------------------------------------------------

/// A text, or null where there is none.
pub open spec fn opt_text_json(s: Option<Seq<char>>) -> JsonView {
    match s {
        Some(content) => JsonView::Text(content),
        None => JsonView::Null,
    }
}

/// An array of texts.
pub open spec fn texts_json(list: Seq<Seq<char>>) -> JsonView {
    JsonView::Array(list.map_values(|item: Seq<char>| JsonView::Text(item)))
}

/// A finding as an object.
pub open spec fn finding_json(finding: FindingView) -> JsonView {
    JsonView::Object(
        seq![
            ("id"@, JsonView::Text(finding.id)),
            ("severity"@, JsonView::Text(finding.severity)),
            ("title"@, JsonView::Text(finding.title)),
            ("target"@, JsonView::Text(finding.target)),
            (
                "line"@,
                match finding.line {
                    Some(n) => json::number_view(n),
                    None => JsonView::Null,
                },
            ),
            ("code_location"@, opt_text_json(finding.code_location)),
            ("chain_depends_on"@, texts_json(finding.chain_depends_on)),
        ],
    )
}

/// A task state as an object.
pub open spec fn task_state_json(task: TaskStateView) -> JsonView {
    JsonView::Object(
        seq![("active"@, JsonView::Bool(task.active)), ("task_id"@, opt_text_json(task.task_id))],
    )
}

/// The state of a backend as an object.
pub open spec fn snapshot_json(state: SnapshotView) -> JsonView {
    JsonView::Object(
        seq![
            ("target"@, JsonView::Text(state.target)),
            ("phase"@, JsonView::Text(state.phase)),
            ("task_constraints"@, state.task_constraints),
            (
                "findings"@,
                JsonView::Array(
                    state.findings.map_values(|finding: FindingView| finding_json(finding)),
                ),
            ),
            ("task"@, task_state_json(state.task)),
            (
                "last_run"@,
                match state.last_run {
                    Some(run) => run,
                    None => JsonView::Null,
                },
            ),
            ("evidence"@, JsonView::Array(state.evidence)),
            ("constraint_violations"@, texts_json(state.constraint_violations)),
        ],
    )
}

/// A member of an object with distinct names is found under its name.
proof fn lemma_member(fields: Seq<(Seq<char>, JsonView)>, names: Seq<Seq<char>>, i: int)
    requires
        distinct(names),
        fields.len() == names.len(),
        forall|j: int| 0 <= j < fields.len() ==> (#[trigger] fields[j]).0 == names[j],
        0 <= i < names.len(),
    ensures
        JsonView::Object(fields).get(names[i]) == Some(fields[i].1),
{
    assert(fields[i].0 == names[i]);
    json::lemma_lookup_first(fields, i);
}

/// A finding that is written as an object is read back.
pub proof fn findings_read_back(finding: FindingView)
    ensures
        decode::finding_of(finding_json(finding)) == Some(finding),
{
    let value = finding_json(finding);
    let fields = value->Object_0;
    let names = decode::finding_fields();
    lemma_finding_names();
    assert(forall|j: int| 0 <= j < fields.len() ==> (#[trigger] fields[j]).0 == names[j]);
    lemma_member(fields, names, 0);
    lemma_member(fields, names, 1);
    lemma_member(fields, names, 2);
    lemma_member(fields, names, 3);
    lemma_member(fields, names, 4);
    lemma_member(fields, names, 5);
    lemma_member(fields, names, 6);
    findings_are_read_as_stated(value, finding);
}

/// A task state that is written as an object is read back.
pub proof fn task_states_read_back(task: TaskStateView)
    ensures
        decode::task_state_of(task_state_json(task)) == Some(task),
{
    let value = task_state_json(task);
    let fields = value->Object_0;
    let names = decode::task_state_fields();
    assert(distinct(names)) by {
        reveal_strlit("active");
        reveal_strlit("task_id");
        assert("active"@.len() == 6 && "task_id"@.len() == 7);
    }
    assert(forall|j: int| 0 <= j < fields.len() ==> (#[trigger] fields[j]).0 == names[j]);
    lemma_member(fields, names, 0);
    lemma_member(fields, names, 1);
    task_states_are_read_as_stated(value, task);
}

/// The state of a backend that is written as an object is read back. Null stands for no last
/// run, so a last run is something else.
pub proof fn states_read_back(state: SnapshotView)
    requires
        state.last_run != Some(JsonView::Null),
    ensures
        decode::snapshot_of(snapshot_json(state)) == Some(state),
{
    let value = snapshot_json(state);
    let fields = value->Object_0;
    let names = decode::snapshot_fields();
    lemma_snapshot_names();
    assert(forall|j: int| 0 <= j < fields.len() ==> (#[trigger] fields[j]).0 == names[j]);
    lemma_member(fields, names, 0);
    lemma_member(fields, names, 1);
    lemma_member(fields, names, 2);
    lemma_member(fields, names, 3);
    lemma_member(fields, names, 4);
    lemma_member(fields, names, 5);
    lemma_member(fields, names, 6);
    lemma_member(fields, names, 7);
    let items = state.findings.map_values(|finding: FindingView| finding_json(finding));
    assert forall|i: int| 0 <= i < items.len() implies states_finding(
        #[trigger] items[i],
        state.findings[i],
    ) by {
        findings_read_back(state.findings[i]);
        findings_are_read_as_stated(items[i], state.findings[i]);
    }
    task_states_read_back(state.task);
    task_states_are_read_as_stated(task_state_json(state.task), state.task);
    states_are_read_as_stated(value, state);
}

// ---------------------------------------------------------------------------
// Events
// ---------------------------------------------------------------------------

/// The member `name` states the state of the backend.
pub open spec fn holds_state(value: JsonView, state: SnapshotView) -> bool {
    value.get("state"@) matches Some(member) && states_snapshot(member, state)
}

/// `value` states the event.
pub open spec fn states_event(value: JsonView, event: EventView) -> bool {
    match event {
        EventView::Ready { request_id, backend, capabilities, runtime, state } => {
            &&& is_text(value.get("type"@), "ready"@)
            &&& is_text(value.get("request_id"@), request_id)
            &&& value.get("backend"@) matches Some(member) && states_backend(member, backend)
            &&& value.get("capabilities"@) matches Some(member) && states_capabilities(
                member,
                capabilities,
            )
            &&& value.get("runtime"@) matches Some(member) && states_runtime(member, runtime)
            &&& holds_state(value, state)
        },
        EventView::State { request_id, state } => {
            &&& is_text(value.get("type"@), "state"@)
            &&& is_opt_text(value.get("request_id"@), request_id)
            &&& holds_state(value, state)
        },
        EventView::TaskStarted { request_id, task_id, task, state } => {
            &&& is_text(value.get("type"@), "task_started"@)
            &&& is_text(value.get("request_id"@), request_id)
            &&& is_text(value.get("task_id"@), task_id)
            &&& value.get("task"@) == Some(task)
            &&& holds_state(value, state)
        },
        EventView::Status { task_id, status } => {
            &&& is_text(value.get("type"@), "status"@)
            &&& is_text(value.get("task_id"@), task_id)
            &&& is_text(value.get("status"@), status)
        },
        EventView::Reasoning { task_id, text } => {
            &&& is_text(value.get("type"@), "reasoning"@)
            &&& is_text(value.get("task_id"@), task_id)
            &&& is_text(value.get("text"@), text)
        },
        EventView::Log { task_id, message } => {
            &&& is_text(value.get("type"@), "log"@)
            &&& is_text(value.get("task_id"@), task_id)
            &&& is_text(value.get("message"@), message)
        },
        EventView::ToolCall { task_id, tool, arguments } => {
            &&& is_text(value.get("type"@), "tool_call"@)
            &&& is_text(value.get("task_id"@), task_id)
            &&& is_text(value.get("tool"@), tool)
            &&& is_text(value.get("arguments"@), arguments)
        },
        EventView::ToolResult { task_id, result } => {
            &&& is_text(value.get("type"@), "tool_result"@)
            &&& is_text(value.get("task_id"@), task_id)
            &&& is_text(value.get("result"@), result)
        },
        EventView::Finding { task_id, finding } => {
            &&& is_text(value.get("type"@), "finding"@)
            &&& is_text(value.get("task_id"@), task_id)
            &&& value.get("finding"@) matches Some(member) && states_finding(member, finding)
        },
        EventView::ApprovalRequired { task_id, question } => {
            &&& is_text(value.get("type"@), "approval_required"@)
            &&& is_text(value.get("task_id"@), task_id)
            &&& is_text(value.get("question"@), question)
        },
        EventView::TaskCompleted { request_id, task_id, result, findings, state } => {
            &&& is_text(value.get("type"@), "task_completed"@)
            &&& is_text(value.get("request_id"@), request_id)
            &&& is_text(value.get("task_id"@), task_id)
            &&& value.get("result"@) == Some(result)
            &&& is_findings(value.get("findings"@), findings)
            &&& holds_state(value, state)
        },
        EventView::TaskCancelled { request_id, task_id, state } => {
            &&& is_text(value.get("type"@), "task_cancelled"@)
            &&& is_text(value.get("request_id"@), request_id)
            &&& is_text(value.get("task_id"@), task_id)
            &&& holds_state(value, state)
        },
        EventView::TaskFailed { request_id, task_id, error, state } => {
            &&& is_text(value.get("type"@), "task_failed"@)
            &&& is_text(value.get("request_id"@), request_id)
            &&& is_text(value.get("task_id"@), task_id)
            &&& value.get("error"@) == Some(error)
            &&& holds_state(value, state)
        },
        EventView::ControlResult { request_id, operation, result, state } => {
            &&& is_text(value.get("type"@), "control_result"@)
            &&& is_text(value.get("request_id"@), request_id)
            &&& is_text(value.get("operation"@), operation)
            &&& value.get("result"@) == Some(result)
            &&& match state {
                Some(snapshot) => holds_state(value, snapshot),
                None => is_nothing(value.get("state"@)),
            }
        },
        EventView::Error { request_id, task_id, code, message } => {
            &&& is_text(value.get("type"@), "error"@)
            &&& is_opt_text(value.get("request_id"@), request_id)
            &&& is_opt_text(value.get("task_id"@), task_id)
            &&& is_text(value.get("code"@), code)
            &&& is_text(value.get("message"@), message)
        },
        EventView::ShutdownComplete { request_id } => {
            &&& is_text(value.get("type"@), "shutdown_complete"@)
            &&& is_text(value.get("request_id"@), request_id)
        },
    }
}

/// The kinds of events.
pub open spec fn kinds() -> Seq<Seq<char>> {
    seq![
        "ready"@,
        "state"@,
        "task_started"@,
        "status"@,
        "reasoning"@,
        "log"@,
        "tool_call"@,
        "tool_result"@,
        "finding"@,
        "approval_required"@,
        "task_completed"@,
        "task_cancelled"@,
        "task_failed"@,
        "control_result"@,
        "error"@,
        "shutdown_complete"@,
    ]
}

/// Every kind of event has a name of its own.
proof fn lemma_kinds_differ()
    ensures
        distinct(kinds()),
{
    reveal_strlit("ready");
    reveal_strlit("state");
    reveal_strlit("task_started");
    reveal_strlit("status");
    reveal_strlit("reasoning");
    reveal_strlit("log");
    reveal_strlit("tool_call");
    reveal_strlit("tool_result");
    reveal_strlit("finding");
    reveal_strlit("approval_required");
    reveal_strlit("task_completed");
    reveal_strlit("task_cancelled");
    reveal_strlit("task_failed");
    reveal_strlit("control_result");
    reveal_strlit("error");
    reveal_strlit("shutdown_complete");
    assert("ready"@.len() == 5 && "ready"@[0] == 'r');
    assert("state"@.len() == 5 && "state"@[0] == 's');
    assert("error"@.len() == 5 && "error"@[0] == 'e');
    assert("task_started"@.len() == 12);
    assert("status"@.len() == 6);
    assert("reasoning"@.len() == 9 && "reasoning"@[0] == 'r');
    assert("tool_call"@.len() == 9 && "tool_call"@[0] == 't');
    assert("log"@.len() == 3);
    assert("tool_result"@.len() == 11 && "tool_result"@[1] == 'o');
    assert("task_failed"@.len() == 11 && "task_failed"@[1] == 'a');
    assert("finding"@.len() == 7);
    assert("approval_required"@.len() == 17 && "approval_required"@[0] == 'a');
    assert("shutdown_complete"@.len() == 17 && "shutdown_complete"@[0] == 's');
    assert("task_completed"@.len() == 14 && "task_completed"@[6] == 'o');
    assert("task_cancelled"@.len() == 14 && "task_cancelled"@[6] == 'a');
    assert("control_result"@.len() == 14 && "control_result"@[6] == 'l');
}

/// An event is read exactly as it is stated: by the name of its kind, and every part under its
/// own name.
pub proof fn events_are_read_as_stated(value: JsonView, event: EventView)
    ensures
        decode::event_of(value) == Some(event) <==> states_event(value, event),
{
    lemma_kinds_differ();
    let all = kinds();
    assert(forall|i: int, j: int| 0 <= i < j < all.len() ==> all[i] != all[j]);
    match event {
        EventView::Ready { backend, capabilities, runtime, state, .. } => {
            lemma_state_at(value, state);
            if let Some(member) = value.get("backend"@) {
                backends_are_read_as_stated(member, backend);
            }
            if let Some(member) = value.get("capabilities"@) {
                capabilities_are_read_as_stated(member, capabilities);
            }
            if let Some(member) = value.get("runtime"@) {
                runtimes_are_read_as_stated(member, runtime);
            }
        },
        EventView::State { state, .. } => lemma_state_at(value, state),
        EventView::TaskStarted { state, .. } => lemma_state_at(value, state),
        EventView::Finding { finding, .. } => {
            if let Some(member) = value.get("finding"@) {
                findings_are_read_as_stated(member, finding);
            }
        },
        EventView::TaskCompleted { findings, state, .. } => {
            lemma_state_at(value, state);
            lemma_findings_at(value, "findings"@, findings);
        },
        EventView::TaskCancelled { state, .. } => lemma_state_at(value, state),
        EventView::TaskFailed { state, .. } => lemma_state_at(value, state),
        EventView::ControlResult { state, .. } => {
            if let Some(snapshot) = state {
                lemma_state_at(value, snapshot);
            }
        },
        _ => {},
    }
}

/// Reading the state that an event holds.
proof fn lemma_state_at(value: JsonView, state: SnapshotView)
    ensures
        decode::snapshot_at(value, "state"@) == Some(state) <==> holds_state(value, state),
{
    if let Some(member) = value.get("state"@) {
        states_are_read_as_stated(member, state);
    }
}

// ---------------------------------------------------------------------------
// Documents
// ---------------------------------------------------------------------------

/// A document without items or members stands for its own value, and one that cannot be read
/// for its error.
pub proof fn plain_documents_stand_for_themselves(document: Seq<char>, depth: nat)
    ensures
        match json::json_node(document) {
            Err(reason) => json::tree(document, depth) == Err::<JsonView, _>(reason),
            Ok(json::NodeView::Null) => json::tree(document, depth) == Ok::<_, Seq<char>>(
                JsonView::Null,
            ),
            Ok(json::NodeView::Bool(b)) => json::tree(document, depth) == Ok::<_, Seq<char>>(
                JsonView::Bool(b),
            ),
            Ok(json::NodeView::Number(n)) => json::tree(document, depth) == Ok::<_, Seq<char>>(
                JsonView::Number(n),
            ),
            Ok(json::NodeView::Text(s)) => json::tree(document, depth) == Ok::<_, Seq<char>>(
                JsonView::Text(s),
            ),
            Ok(_) => depth == 0 ==> json::tree(document, depth) == Err::<JsonView, _>(
                "recursion limit exceeded"@,
            ),
        },
{
}

/// An array is read item by item: it has a value exactly if every item has, and the values of
/// the items are its items, in order. The first item without a value gives the error.
pub proof fn arrays_are_read_item_by_item(
    document: Seq<char>,
    items: Seq<Seq<char>>,
    depth: nat,
    k: int,
)
    requires
        json::json_node(document) == Ok::<_, Seq<char>>(json::NodeView::Array(items)),
        0 <= k <= items.len(),
        forall|i: int| 0 <= i < k ==> json::tree(#[trigger] items[i], depth) is Ok,
        k < items.len() ==> json::tree(items[k], depth) is Err,
    ensures
        k < items.len() ==> json::tree(document, depth + 1) == json::tree(items[k], depth),
        k == items.len() ==> {
            &&& json::tree(document, depth + 1) matches Ok(JsonView::Array(values))
            &&& values.len() == items.len()
            &&& forall|i: int|
                0 <= i < items.len() ==> json::tree(#[trigger] items[i], depth) == Ok::<_, Seq<char>>(
                    values[i],
                )
        },
{
    assert((depth + 1 - 1) as nat == depth);
    lemma_items(items, depth, k);
}

/// Reading a list of documents, of which the one at `k` is the first without a value.
proof fn lemma_items(items: Seq<Seq<char>>, depth: nat, k: int)
    requires
        0 <= k <= items.len(),
        forall|i: int| 0 <= i < k ==> json::tree(#[trigger] items[i], depth) is Ok,
        k < items.len() ==> json::tree(items[k], depth) is Err,
    ensures
        k < items.len() ==> json::tree_items(items, depth) == Err::<Seq<JsonView>, _>(
            json::tree(items[k], depth)->Err_0,
        ),
        k == items.len() ==> {
            &&& json::tree_items(items, depth) matches Ok(values)
            &&& values.len() == items.len()
            &&& forall|i: int|
                0 <= i < items.len() ==> json::tree(#[trigger] items[i], depth) == Ok::<_, Seq<char>>(
                    values[i],
                )
        },
    decreases items.len(),
{
    if items.len() > 0 {
        let front = items.drop_last();
        if k == items.len() {
            lemma_items(front, depth, k - 1);
            assert(json::tree(items[k - 1], depth) is Ok);
            let before = json::tree_items(front, depth)->Ok_0;
            let values = json::tree_items(items, depth)->Ok_0;
            assert forall|i: int| 0 <= i < items.len() implies json::tree(
                #[trigger] items[i],
                depth,
            ) == Ok::<_, Seq<char>>(values[i]) by {
                if i < front.len() {
                    assert(front[i] == items[i]);
                    assert(values[i] == before[i]);
                }
            }
        } else if k == items.len() - 1 {
            lemma_items(front, depth, k);
        } else {
            assert(front[k] == items[k]);
            lemma_items(front, depth, k);
        }
    }
}

/// An object is read member by member: it has a value exactly if every member has, and its
/// members have the same names, in order, and the values that they stand for. The first member
/// without a value gives the error.
pub proof fn objects_are_read_member_by_member(
    document: Seq<char>,
    fields: Seq<(Seq<char>, Seq<char>)>,
    depth: nat,
    k: int,
)
    requires
        json::json_node(document) == Ok::<_, Seq<char>>(json::NodeView::Object(fields)),
        0 <= k <= fields.len(),
        forall|i: int| 0 <= i < k ==> json::tree((#[trigger] fields[i]).1, depth) is Ok,
        k < fields.len() ==> json::tree(fields[k].1, depth) is Err,
    ensures
        k < fields.len() ==> json::tree(document, depth + 1) == json::tree(fields[k].1, depth),
        k == fields.len() ==> {
            &&& json::tree(document, depth + 1) matches Ok(JsonView::Object(values))
            &&& values.len() == fields.len()
            &&& forall|i: int|
                0 <= i < fields.len() ==> {
                    &&& values[i].0 == (#[trigger] fields[i]).0
                    &&& json::tree(fields[i].1, depth) == Ok::<_, Seq<char>>(values[i].1)
                }
        },
{
    assert((depth + 1 - 1) as nat == depth);
    lemma_fields(fields, depth, k);
}

/// Reading a list of members, of which the one at `k` is the first without a value.
proof fn lemma_fields(fields: Seq<(Seq<char>, Seq<char>)>, depth: nat, k: int)
    requires
        0 <= k <= fields.len(),
        forall|i: int| 0 <= i < k ==> json::tree((#[trigger] fields[i]).1, depth) is Ok,
        k < fields.len() ==> json::tree(fields[k].1, depth) is Err,
    ensures
        k < fields.len() ==> json::tree_fields(fields, depth) == Err::<
            Seq<(Seq<char>, JsonView)>,
            _,
        >(json::tree(fields[k].1, depth)->Err_0),
        k == fields.len() ==> {
            &&& json::tree_fields(fields, depth) matches Ok(values)
            &&& values.len() == fields.len()
            &&& forall|i: int|
                0 <= i < fields.len() ==> {
                    &&& values[i].0 == (#[trigger] fields[i]).0
                    &&& json::tree(fields[i].1, depth) == Ok::<_, Seq<char>>(values[i].1)
                }
        },
    decreases fields.len(),
{
    if fields.len() > 0 {
        let front = fields.drop_last();
        if k == fields.len() {
            lemma_fields(front, depth, k - 1);
            assert(json::tree(fields[k - 1].1, depth) is Ok);
            let before = json::tree_fields(front, depth)->Ok_0;
            let values = json::tree_fields(fields, depth)->Ok_0;
            assert forall|i: int| 0 <= i < fields.len() implies {
                &&& values[i].0 == (#[trigger] fields[i]).0
                &&& json::tree(fields[i].1, depth) == Ok::<_, Seq<char>>(values[i].1)
            } by {
                if i < front.len() {
                    assert(front[i] == fields[i]);
                    assert(values[i] == before[i]);
                }
            }
        } else if k == fields.len() - 1 {
            lemma_fields(front, depth, k);
        } else {
            assert(front[k] == fields[k]);
            lemma_fields(front, depth, k);
        }
    }
}

/// The session is opened with the document that the environment gives, if it can be read, and
/// with an empty object otherwise.
pub proof fn sessions_open_with_a_readable_document(document: Seq<char>)
    ensures
        json::tree(document, 128) matches Ok(value) ==> decode::bootstrap_of(Some(document))
            == value,
        json::tree(document, 128) is Err ==> decode::bootstrap_of(Some(document))
            == JsonView::Object(seq![]),
        decode::bootstrap_of(None) == JsonView::Object(seq![]),
{
}

// ---------------------------------------------------------------------------
// Lines
// ---------------------------------------------------------------------------

/// A line gives an event exactly if it can be read, speaks the protocol version one, satisfies
/// the schema and states that event.
pub proof fn lines_give_the_event_they_state(
    line: Seq<char>,
    schema: Seq<char>,
    refusal: Seq<char>,
    outcome: Result<EventView, Seq<char>>,
    event: EventView,
)
    requires
        decode::line_outcome(line, schema, refusal, outcome),
    ensures
        outcome == Ok::<_, Seq<char>>(event) <==> {
            &&& json::tree(line, 128) is Ok
            &&& is_unsigned(json::tree(line, 128)->Ok_0.get("protocol_version"@), 1)
            &&& schema::schema_verdict(schema, line) == Some(true)
            &&& states_event(json::tree(line, 128)->Ok_0, event)
        },
{
    if let Ok(value) = json::tree(line, 128) {
        lemma_unsigned(value, "protocol_version"@);
        assert(decode::u64_at(value, "protocol_version"@) == Some(1u64) <==> is_unsigned(
            value.get("protocol_version"@),
            1u64 as int,
        ));
        events_are_read_as_stated(value, event);
    }
}

/// A line that gives no event is answered with the error of the reader, with the complaint about
/// the version, with the complaint about the schema, or with the words of the refusal, and the
/// first of these that applies.
pub proof fn lines_are_refused_for_the_first_reason(
    line: Seq<char>,
    schema: Seq<char>,
    refusal: Seq<char>,
    outcome: Result<EventView, Seq<char>>,
)
    requires
        decode::line_outcome(line, schema, refusal, outcome),
    ensures
        match json::tree(line, 128) {
            Err(reason) => outcome == Err::<EventView, _>(reason),
            Ok(value) => if !is_unsigned(value.get("protocol_version"@), 1) {
                outcome == Err::<EventView, _>(
                    "unsupported backend protocol version; expected "@ + seq!['1'],
                )
            } else if schema::schema_verdict(schema, line) == Some(true) {
                (forall|event: EventView| !states_event(value, event)) ==> outcome == Err::<
                    EventView,
                    _,
                >(refusal)
            } else {
                let prefix = if schema::schema_verdict(schema, line) == Some(false) {
                    "protocol schema violation: "@
                } else {
                    "protocol schema cannot be used: "@
                };
                &&& outcome is Err
                &&& prefix.len() <= outcome->Err_0.len()
                &&& outcome->Err_0.take(prefix.len() as int) == prefix
            },
        },
{
    if let Ok(value) = json::tree(line, 128) {
        lemma_unsigned(value, "protocol_version"@);
        assert(decode::u64_at(value, "protocol_version"@) == Some(1u64) <==> is_unsigned(
            value.get("protocol_version"@),
            1u64 as int,
        ));
        assert(text::decimal(1) =~= seq!['1']);
        if decode::event_of(value) is Some {
            events_are_read_as_stated(value, decode::event_of(value)->0);
        }
    }
}

/// A complaint names what is wrong and quotes the reason.
pub proof fn complaints_quote_the_reason(reason: String)
    ensures
        schema::complaint(SchemaCheck::Accepted) is Ok,
        schema::complaint(SchemaCheck::Rejected(reason)) == Err::<(), _>(
            "protocol schema violation: "@ + reason@,
        ),
        schema::complaint(SchemaCheck::Unusable(reason)) == Err::<(), _>(
            "protocol schema cannot be used: "@ + reason@,
        ),
{
}

/// A value is accepted as the event that it states once the schema accepts it. Otherwise the
/// complaint about the schema comes first, and then the words of the refusal.
pub proof fn accepted_values_give_the_event_they_state(
    value: JsonView,
    reason: String,
    refusal: Seq<char>,
    event: EventView,
)
    ensures
        decode::event_or_complaint(value, SchemaCheck::Accepted, refusal) == Ok::<_, Seq<char>>(
            event,
        ) <==> states_event(value, event),
        (forall|other: EventView| !states_event(value, other)) ==> decode::event_or_complaint(
            value,
            SchemaCheck::Accepted,
            refusal,
        ) == Err::<EventView, _>(refusal),
        decode::event_or_complaint(value, SchemaCheck::Rejected(reason), refusal) == Err::<
            EventView,
            _,
        >("protocol schema violation: "@ + reason@),
        decode::event_or_complaint(value, SchemaCheck::Unusable(reason), refusal) == Err::<
            EventView,
            _,
        >("protocol schema cannot be used: "@ + reason@),
{
    events_are_read_as_stated(value, event);
    if decode::event_of(value) is Some {
        events_are_read_as_stated(value, decode::event_of(value)->0);
    }
}

/// What a line becomes tells it apart from every other: an event is handed on as it is, and
/// everything else is quoted in full together with the reason.
pub proof fn lines_become_events_or_quotations(
    line: Seq<char>,
    event: EventView,
    reason: Seq<char>,
)
    ensures
        transport::labelled(line, Ok(event)) == AppEventView::Backend(event),
        transport::labelled(line, Err(reason)) == AppEventView::BackendDiagnostic(
            "invalid backend protocol line ("@ + reason + "): "@ + line,
        ),
{
}

// ---------------------------------------------------------------------------
// Requests
// ---------------------------------------------------------------------------

/// Every request says that it speaks the protocol version one.
pub proof fn requests_speak_version_one(
    kind: Seq<char>,
    request_id: Seq<char>,
    task_id: Option<Seq<char>>,
    payload: JsonView,
)
    ensures
        ({
            let request = RequestView::new(kind, request_id, task_id, payload);
            let version = request.envelope().get("protocol_version"@);
            &&& request == RequestView {
                protocol_version: 1,
                kind,
                request_id,
                task_id,
                payload,
            }
            &&& is_unsigned(version, 1)
            &&& version->Some_0->Number_0.text == seq!['1']
            &&& request.envelope()->Object_0.len() == (if task_id is Some {
                5int
            } else {
                4int
            })
        }),
{
    protocol::requests_carry_version_and_identity(kind, request_id, task_id, payload);
    assert(text::decimal(1) =~= seq!['1']);
}

/// What a task is started with is the only member of the payload, under the name of its form.
pub proof fn task_payloads_name_their_form(line: String, task: Json)
    ensures
        protocol::task_payload(TaskInput::CommandLine(line)).text_at("command_line"@) == Some(
            line@,
        ),
        protocol::task_payload(TaskInput::CommandLine(line)).get("task"@) is None,
        protocol::task_payload(TaskInput::Description(task)).get("task"@) == Some(task@),
        protocol::task_payload(TaskInput::Description(task)).get("command_line"@) is None,
{
    reveal_strlit("command_line");
    reveal_strlit("task");
    assert("command_line"@.len() == 12 && "task"@.len() == 4);
    let with_line = protocol::task_payload(TaskInput::CommandLine(line))->Object_0;
    let with_task = protocol::task_payload(TaskInput::Description(task))->Object_0;
    json::lemma_lookup_first(with_line, 0);
    json::lemma_lookup_first(with_task, 0);
    json::lemma_lookup_none(with_line, "task"@);
    json::lemma_lookup_none(with_task, "command_line"@);
}

// ---------------------------------------------------------------------------
// The backend process
// ---------------------------------------------------------------------------

/// The backend module is always what is run, last; the interpreter is the one that the user
/// names, or `python`, and on Windows the launcher for Python 3 stands in for `python`.
pub proof fn the_backend_module_is_run(python: Option<Seq<char>>, windows: bool)
    ensures
        ({
            let program = transport::backend_program(python, windows);
            let arguments = transport::backend_arguments(python, windows);
            let default = python is None || python == Some("python"@);
            &&& windows && default ==> program == "py"@ && arguments == seq![
                "-3"@,
                "-m"@,
                "vulnclaw.tui_backend"@,
            ]
            &&& !(windows && default) ==> {
                &&& program == (if default {
                    "python"@
                } else {
                    python->Some_0
                })
                &&& arguments == seq!["-m"@, "vulnclaw.tui_backend"@]
            }
        }),
{
    assert(seq!["-3"@] + seq!["-m"@, "vulnclaw.tui_backend"@] =~= seq![
        "-3"@,
        "-m"@,
        "vulnclaw.tui_backend"@,
    ]);
}

/// The pauses are a tenth and a fortieth of a second, and a backend gets two seconds to end after
/// the farewell, and a tenth of a second if it could not be greeted.
pub proof fn pauses_are_short()
    ensures
        transport::WATCH_INTERVAL_MS == 100,
        transport::REAP_INTERVAL_MS == 25,
        transport::SHUTDOWN_GRACE_MS == 2000,
        transport::GREETING_GRACE_MS == 100,
{
}

/// A process that should end is given time while it may still run and the deadline is not past;
/// it is reaped once it has ended, is gone or is late, and left alone if nobody can look at it.
pub proof fn late_and_ended_processes_are_reaped(poll: ChildPoll, overdue: bool)
    ensures
        ({
            let step = transport::reap_step_of(poll, overdue);
            &&& step == ReapStep::GiveUp <==> poll is Unreachable
            &&& step == ReapStep::Sleep <==> (poll is Running || poll is Failed) && !overdue
            &&& poll is Exited || poll is Absent ==> step == ReapStep::Reap
        }),
{
}

} // verus!
