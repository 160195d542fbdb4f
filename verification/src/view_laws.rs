//! What the mathematical contents of the data types show: every part, as it is.
use vstd::prelude::*;

use crate::app;
use crate::app::{
    App, Dispatch, OperationReceipt, Purpose, SkillNode, SlashCommand, TranscriptItem,
};
use crate::decode;
use crate::event;
use crate::event::{
    AppEvent, AppEventView, BackendCapabilities, BackendEvent, BackendInfo, BackendInfoView,
    BackendTaskState, CapabilitiesView, EventView, Finding, FindingView, RuntimeInfo, RuntimeView,
    SnapshotView, StateSnapshot, TaskStateView,
};
use crate::json;
use crate::json::{Json, JsonView, Node, NodeView, Number};
use crate::model::{DispatchView, ItemView, PurposeView, ReceiptView, SlashView};
use crate::protocol::ClientRequest;
use crate::tasks;
use crate::text;

verus! {

// ---------------------------------------------------------------------------
// Optional and fallible values
// ---------------------------------------------------------------------------

/// The content of something optional is that of what is there, and nothing where nothing is.
pub proof fn optional_contents(
    content: String,
    value: Json,
    state: StateSnapshot,
    receipt: OperationReceipt,
    dispatch: Dispatch,
)
    ensures
        text::opt_text(Some(content)) == Some(content@),
        text::opt_text(None) is None,
        json::opt_view(Some(value)) == Some(value@),
        json::opt_view(None) is None,
        event::opt_snapshot(Some(state)) == Some(state@),
        event::opt_snapshot(None) is None,
        app::opt_receipt(Some(receipt)) == Some(receipt@),
        app::opt_receipt(None) is None,
        app::opt_dispatch(Some(dispatch)) == Some(dispatch@),
        app::opt_dispatch(None) is None,
{
}

/// The content of an outcome is that of the success or of the reason of the failure.
pub proof fn outcome_contents(place: String, reason: String, value: Json, event: BackendEvent)
    ensures
        tasks::delivery_view(Ok(())) == Ok::<(), Seq<char>>(()),
        tasks::delivery_view(Err(reason)) == Err::<(), _>(reason@),
        tasks::saving_view(Ok(place)) == Ok::<_, Seq<char>>(place@),
        tasks::saving_view(Err(reason)) == Err::<Seq<char>, _>(reason@),
        json::parsed_view(Ok(value)) == Ok::<_, Seq<char>>(value@),
        json::parsed_view(Err(reason)) == Err::<JsonView, _>(reason@),
        decode::outcome_view(Ok(event)) == Ok::<_, Seq<char>>(event@),
        decode::outcome_view(Err(reason)) == Err::<EventView, _>(reason@),
{
}

// ---------------------------------------------------------------------------
// JSON
// ---------------------------------------------------------------------------

/// The content of a JSON value is of its kind and holds what it holds: an array its items and an
/// object its members, in order.
pub proof fn json_contents(
    truth: bool,
    number: Number,
    content: String,
    items: Vec<Json>,
    fields: Vec<(String, Json)>,
)
    ensures
        Json::Null@ == JsonView::Null,
        Json::Bool(truth)@ == JsonView::Bool(truth),
        Json::Number(number)@ is Number,
        Json::Number(number)@->Number_0.unsigned == number.unsigned,
        Json::Number(number)@->Number_0.text == number.text@,
        Json::Text(content)@ == JsonView::Text(content@),
        Json::Array(items)@ is Array,
        Json::Array(items)@->Array_0.len() == items@.len(),
        forall|i: int|
            0 <= i < items@.len() ==> #[trigger] Json::Array(items)@->Array_0[i] == items@[i]@,
        Json::Object(fields)@ is Object,
        Json::Object(fields)@->Object_0.len() == fields@.len(),
        forall|i: int|
            0 <= i < fields@.len() ==> #[trigger] Json::Object(fields)@->Object_0[i] == (
                fields@[i].0@,
                fields@[i].1@,
            ),
{
}

/// The content of one level of a document is of its kind and holds what it holds.
pub proof fn node_contents(
    truth: bool,
    number: Number,
    content: String,
    items: Vec<String>,
    fields: Vec<(String, String)>,
    reason: String,
)
    ensures
        Node::Null@ == NodeView::Null,
        Node::Bool(truth)@ == NodeView::Bool(truth),
        Node::Number(number)@ == NodeView::Number(number@),
        Node::Text(content)@ == NodeView::Text(content@),
        Node::Array(items)@ is Array,
        Node::Array(items)@->Array_0.len() == items@.len(),
        forall|i: int|
            0 <= i < items@.len() ==> #[trigger] Node::Array(items)@->Array_0[i] == items@[i]@,
        Node::Object(fields)@ is Object,
        Node::Object(fields)@->Object_0.len() == fields@.len(),
        forall|i: int|
            0 <= i < fields@.len() ==> #[trigger] Node::Object(fields)@->Object_0[i] == (
                fields@[i].0@,
                fields@[i].1@,
            ),
        json::node_view(Err(reason)) == Err::<NodeView, _>(reason@),
        json::node_view(Ok(Node::Text(content))) == Ok::<_, Seq<char>>(NodeView::Text(content@)),
{
}

/// A member is found exactly if a field has its name, and then it is the first such; only objects
/// have members.
pub proof fn members_are_the_first_of_their_name(
    fields: Seq<(Seq<char>, JsonView)>,
    name: Seq<char>,
    i: int,
)
    requires
        0 <= i <= fields.len(),
        forall|j: int| 0 <= j < i ==> (#[trigger] fields[j]).0 != name,
        i < fields.len() ==> fields[i].0 == name,
    ensures
        i < fields.len() ==> JsonView::Object(fields).get(name) == Some(fields[i].1),
        i == fields.len() ==> JsonView::Object(fields).get(name) is None,
{
    if i < fields.len() {
        json::lemma_lookup_first(fields, i);
    } else {
        json::lemma_lookup_none(fields, name);
    }
}

/// Only objects have members, only texts have a text, and only unsigned numbers are unsigned.
pub proof fn values_are_read_by_their_kind(value: JsonView, name: Seq<char>)
    ensures
        value !is Object ==> value.get(name) is None,
        value.as_text() == (match value {
            JsonView::Text(content) => Some(content),
            _ => None,
        }),
        value.as_u64() == (match value {
            JsonView::Number(number) => number.unsigned,
            _ => None,
        }),
        value.text_at(name) == (match value.get(name) {
            Some(JsonView::Text(content)) => Some(content),
            _ => None,
        }),
{
}

/// A number that is written down is that number, and reads as its numeral.
pub proof fn written_numbers_are_themselves(n: u64)
    ensures
        json::number_view(n) is Number,
        json::number_view(n).as_u64() == Some(n),
        json::number_view(n)->Number_0.text == text::decimal(n as nat),
{
}

// ---------------------------------------------------------------------------
// Records
// ---------------------------------------------------------------------------

/// The content of what the backend says of itself shows every part.
pub proof fn backend_contents(
    backend: BackendInfo,
    runtime: RuntimeInfo,
    capabilities: BackendCapabilities,
    i: int,
)
    ensures
        backend@.pid == backend.pid,
        backend@.version == backend.version@,
        backend@._protocol_version == backend._protocol_version,
        runtime@.config_ready == runtime.config_ready,
        runtime@.provider == runtime.provider@,
        runtime@.model == runtime.model@,
        runtime@._mcp_started == runtime._mcp_started,
        runtime@.skills.len() == runtime.skills@.len(),
        0 <= i < runtime.skills@.len() ==> runtime@.skills[i] == runtime.skills@[i]@,
        capabilities@.commands.len() == capabilities.commands@.len(),
        0 <= i < capabilities.commands@.len() ==> capabilities@.commands[i]
            == capabilities.commands@[i]@,
        capabilities@.control_operations.len() == capabilities.control_operations@.len(),
        0 <= i < capabilities.control_operations@.len() ==> capabilities@.control_operations[i]
            == capabilities.control_operations@[i]@,
        capabilities@.cancellation == capabilities.cancellation,
        capabilities@.authoritative_state == capabilities.authoritative_state,
{
}

/// The content of a finding shows every part.
pub proof fn finding_contents(finding: Finding, i: int)
    ensures
        finding@.id == finding.id@,
        finding@.severity == finding.severity@,
        finding@.title == finding.title@,
        finding@.target == finding.target@,
        finding@.line == finding.line,
        finding@.code_location == (match finding.code_location {
            Some(place) => Some(place@),
            None => None,
        }),
        finding@.chain_depends_on.len() == finding.chain_depends_on@.len(),
        0 <= i < finding.chain_depends_on@.len() ==> finding@.chain_depends_on[i]
            == finding.chain_depends_on@[i]@,
{
}

/// The content of a state shows every part.
pub proof fn state_contents(state: StateSnapshot, task: BackendTaskState, i: int)
    ensures
        task@.active == task.active,
        task@.task_id == (match task.task_id {
            Some(id) => Some(id@),
            None => None,
        }),
        state@.target == state.target@,
        state@.phase == state.phase@,
        state@.task_constraints == state.task_constraints@,
        state@.findings.len() == state.findings@.len(),
        0 <= i < state.findings@.len() ==> state@.findings[i] == state.findings@[i]@,
        state@.task == state.task@,
        state@.last_run == (match state.last_run {
            Some(run) => Some(run@),
            None => None,
        }),
        state@.evidence.len() == state.evidence@.len(),
        0 <= i < state.evidence@.len() ==> state@.evidence[i] == state.evidence@[i]@,
        state@.constraint_violations.len() == state.constraint_violations@.len(),
        0 <= i < state.constraint_violations@.len() ==> state@.constraint_violations[i]
            == state.constraint_violations@[i]@,
{
}

/// What nothing was reported in is empty in every part.
pub proof fn blank_contents()
    ensures
        BackendInfoView::blank().pid == 0,
        BackendInfoView::blank().version.len() == 0,
        BackendInfoView::blank()._protocol_version == 0,
        !RuntimeView::blank().config_ready,
        RuntimeView::blank().provider.len() == 0,
        RuntimeView::blank().model.len() == 0,
        RuntimeView::blank()._mcp_started == 0,
        RuntimeView::blank().skills.len() == 0,
        CapabilitiesView::blank().commands.len() == 0,
        CapabilitiesView::blank().control_operations.len() == 0,
        !CapabilitiesView::blank().cancellation,
        !CapabilitiesView::blank().authoritative_state,
        !TaskStateView::blank().active,
        TaskStateView::blank().task_id is None,
        FindingView::blank().id.len() == 0,
        FindingView::blank().severity.len() == 0,
        FindingView::blank().title.len() == 0,
        FindingView::blank().target.len() == 0,
        FindingView::blank().line is None,
        FindingView::blank().code_location is None,
        FindingView::blank().chain_depends_on.len() == 0,
        SnapshotView::blank().target.len() == 0,
        SnapshotView::blank().phase.len() == 0,
        SnapshotView::blank().task_constraints == JsonView::Null,
        SnapshotView::blank().findings.len() == 0,
        SnapshotView::blank().task == TaskStateView::blank(),
        SnapshotView::blank().last_run is None,
        SnapshotView::blank().evidence.len() == 0,
        SnapshotView::blank().constraint_violations.len() == 0,
{
}

/// The content of an event is of its kind and shows every part.
pub proof fn event_contents(event: BackendEvent)
    ensures
        match event {
            BackendEvent::Ready { request_id, backend, capabilities, runtime, state } => event@
                == EventView::Ready {
                request_id: request_id@,
                backend: backend@,
                capabilities: capabilities@,
                runtime: runtime@,
                state: state@,
            },
            BackendEvent::State { request_id, state } => event@ == EventView::State {
                request_id: text::opt_text(request_id),
                state: state@,
            },
            BackendEvent::TaskStarted { request_id, task_id, task, state } => event@
                == EventView::TaskStarted {
                request_id: request_id@,
                task_id: task_id@,
                task: task@,
                state: state@,
            },
            BackendEvent::Status { task_id, status } => event@ == EventView::Status {
                task_id: task_id@,
                status: status@,
            },
            BackendEvent::Reasoning { task_id, text } => event@ == EventView::Reasoning {
                task_id: task_id@,
                text: text@,
            },
            BackendEvent::Log { task_id, message } => event@ == EventView::Log {
                task_id: task_id@,
                message: message@,
            },
            BackendEvent::ToolCall { task_id, tool, arguments } => event@ == EventView::ToolCall {
                task_id: task_id@,
                tool: tool@,
                arguments: arguments@,
            },
            BackendEvent::ToolResult { task_id, result } => event@ == EventView::ToolResult {
                task_id: task_id@,
                result: result@,
            },
            BackendEvent::Finding { task_id, finding } => event@ == EventView::Finding {
                task_id: task_id@,
                finding: finding@,
            },
            BackendEvent::ApprovalRequired { task_id, question } => event@
                == EventView::ApprovalRequired { task_id: task_id@, question: question@ },
            BackendEvent::TaskCompleted { request_id, task_id, result, findings, state } => event@
                == EventView::TaskCompleted {
                request_id: request_id@,
                task_id: task_id@,
                result: result@,
                findings: findings@.map_values(|finding: Finding| finding@),
                state: state@,
            },
            BackendEvent::TaskCancelled { request_id, task_id, state } => event@
                == EventView::TaskCancelled {
                request_id: request_id@,
                task_id: task_id@,
                state: state@,
            },
            BackendEvent::TaskFailed { request_id, task_id, error, state } => event@
                == EventView::TaskFailed {
                request_id: request_id@,
                task_id: task_id@,
                error: error@,
                state: state@,
            },
            BackendEvent::ControlResult { request_id, operation, result, state } => event@
                == EventView::ControlResult {
                request_id: request_id@,
                operation: operation@,
                result: result@,
                state: event::opt_snapshot(state),
            },
            BackendEvent::Error { request_id, task_id, code, message } => event@
                == EventView::Error {
                request_id: text::opt_text(request_id),
                task_id: text::opt_text(task_id),
                code: code@,
                message: message@,
            },
            BackendEvent::ShutdownComplete { request_id } => event@
                == EventView::ShutdownComplete { request_id: request_id@ },
        },
{
    if let BackendEvent::TaskCompleted { findings, .. } = event {
        assert(event@->TaskCompleted_findings =~= findings@.map_values(
            |finding: Finding| finding@,
        ));
    }
}

/// The content of what reaches the terminal is of its kind and shows it.
pub proof fn app_event_contents(event: BackendEvent, message: String, success: bool)
    ensures
        AppEvent::Backend(event)@ == AppEventView::Backend(event@),
        AppEvent::BackendDiagnostic(message)@ == AppEventView::BackendDiagnostic(message@),
        AppEvent::BackendExited(success)@ == AppEventView::BackendExited(success),
{
}

// ---------------------------------------------------------------------------
// The workbench
// ---------------------------------------------------------------------------

/// The contents of the parts of the workbench show every part of them.
pub proof fn part_contents(
    item: TranscriptItem,
    command: SlashCommand,
    receipt: OperationReceipt,
    skill: SkillNode,
    i: int,
)
    ensures
        item@ == (ItemView { kind: item.kind, text: item.text@ }),
        command@ == (SlashView { command: command.command@, description: command.description@ }),
        receipt@ == (ReceiptView {
            command: receipt.command@,
            phase: receipt.phase@,
            findings: receipt.findings as int,
        }),
        skill@.name == skill.name@,
        skill@.children.len() == skill.children@.len(),
        0 <= i < skill.children@.len() ==> skill@.children[i] == skill.children@[i]@,
{
}

/// The contents of lists of entries, commands, skills and findings are those of their items, in
/// order.
pub proof fn list_contents(
    items: Seq<TranscriptItem>,
    commands: Seq<SlashCommand>,
    skills: Seq<SkillNode>,
    findings: Seq<Finding>,
    i: int,
)
    ensures
        app::items_view(items).len() == items.len(),
        0 <= i < items.len() ==> app::items_view(items)[i] == items[i]@,
        app::commands_view(commands).len() == commands.len(),
        0 <= i < commands.len() ==> app::commands_view(commands)[i] == commands[i]@,
        app::skills_view(skills).len() == skills.len(),
        0 <= i < skills.len() ==> app::skills_view(skills)[i] == skills[i]@,
        event::findings_view(findings).len() == findings.len(),
        0 <= i < findings.len() ==> event::findings_view(findings)[i] == findings[i]@,
{
}

/// The content of a request on its way shows why it is sent and every part of it.
pub proof fn dispatch_contents(dispatch: Dispatch, request: ClientRequest, operation: String)
    ensures
        dispatch@ == (DispatchView { purpose: dispatch.purpose@, request: dispatch.request@ }),
        Purpose::Initialize@ == PurposeView::Initialize,
        Purpose::StartTask@ == PurposeView::StartTask,
        Purpose::Scope(operation)@ == PurposeView::Scope(operation@),
        Purpose::CancelTask@ == PurposeView::CancelTask,
        request@.protocol_version == request.protocol_version,
        request@.kind == request.kind@,
        request@.request_id == request.request_id@,
        request@.task_id == (match request.task_id {
            Some(id) => Some(id@),
            None => None,
        }),
        request@.payload == request.payload@,
{
}

/// The content of the workbench shows every field: numbers, flags and postures as they are, and
/// texts by their content.
pub proof fn workbench_contents(app: App)
    ensures
        app@.mode == app.mode,
        app@.permission == app.permission,
        app@.active_pane == app.active_pane,
        app@.input == app.input@,
        app@.input_cursor == app.input_cursor,
        app@.history_index == app.history_index,
        app@.history_draft == app.history_draft@,
        app@.findings_scroll == app.findings_scroll,
        app@.transcript_scroll == app.transcript_scroll,
        app@.transcript_follow == app.transcript_follow,
        app@.palette_selection == app.palette_selection,
        app@.show_reasoning == app.show_reasoning,
        app@.running == app.running,
        app@.worker_active == app.worker_active,
        app@.backend_connected == app.backend_connected,
        app@.backend_ready == app.backend_ready,
        app@.backend_pid == app.backend_pid,
        app@.config_ready == app.config_ready,
        app@.backend_supports_cancellation == app.backend_supports_cancellation,
        app@.target == app.target@,
        app@.phase == app.phase@,
        app@.active_task_id == text::opt_text(app.active_task_id),
        app@.task_constraints == app.task_constraints@,
        app@.last_run == json::opt_view(app.last_run),
        app@.process_id == app.process_id,
        app@.request_counter == app.request_counter,
        app@.active_receipt == app::opt_receipt(app.active_receipt),
        app@.last_receipt == app::opt_receipt(app.last_receipt),
        app@.worker_started_at == app.worker_started_at,
        app@.show_attack_chain == app.show_attack_chain,
        app@.pending_task == text::opt_text(app.pending_task),
        app@.terminal_size == app.terminal_size,
        app@.toast == app.toast@,
{
}

/// The lists in the content of the workbench hold the contents of the items of its own, in order.
pub proof fn workbench_list_contents(app: App, i: int)
    ensures
        app@.command_history.len() == app.command_history@.len(),
        0 <= i < app.command_history@.len() ==> app@.command_history[i]
            == app.command_history@[i]@,
        app@.transcript.len() == app.transcript@.len(),
        0 <= i < app.transcript@.len() ==> app@.transcript[i] == app.transcript@[i]@,
        app@.findings.len() == app.findings@.len(),
        0 <= i < app.findings@.len() ==> app@.findings[i] == app.findings@[i]@,
        app@.backend_commands.len() == app.backend_commands@.len(),
        0 <= i < app.backend_commands@.len() ==> app@.backend_commands[i]
            == app.backend_commands@[i]@,
        app@.backend_control_operations.len() == app.backend_control_operations@.len(),
        0 <= i < app.backend_control_operations@.len() ==> app@.backend_control_operations[i]
            == app.backend_control_operations@[i]@,
        app@.evidence.len() == app.evidence@.len(),
        0 <= i < app.evidence@.len() ==> app@.evidence[i] == app.evidence@[i]@,
        app@.constraint_violations.len() == app.constraint_violations@.len(),
        0 <= i < app.constraint_violations@.len() ==> app@.constraint_violations[i]
            == app.constraint_violations@[i]@,
        app@.skills.len() == app.skills@.len(),
        0 <= i < app.skills@.len() ==> app@.skills[i] == app.skills@[i]@,
{
}

} // verus!
