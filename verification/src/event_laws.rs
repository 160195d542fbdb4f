//! What events do to the workbench: to the business fields, the receipts, the transcript and
//! what is known of the backend.
use std::time::Instant;

use vstd::prelude::*;

use crate::app::TranscriptKind;
use crate::command;
use crate::event::{
    AppEventView, BackendInfoView, CapabilitiesView, EventView, FindingView, RuntimeView,
    SnapshotView,
};
use crate::json::JsonView;
use crate::model;
use crate::model::{AppModel, ItemView, ReceiptView, SkillView};
use crate::order;
use crate::text;

verus! {

// ---------------------------------------------------------------------------
// Business fields
// ---------------------------------------------------------------------------

/// The state that an event carries.
pub open spec fn carried_state(event: EventView) -> Option<SnapshotView> {
    match event {
        EventView::Ready { state, .. } => Some(state),
        EventView::State { state, .. } => Some(state),
        EventView::TaskStarted { state, .. } => Some(state),
        EventView::TaskCompleted { state, .. } => Some(state),
        EventView::TaskCancelled { state, .. } => Some(state),
        EventView::TaskFailed { state, .. } => Some(state),
        EventView::ControlResult { state, .. } => state,
        _ => None,
    }
}

/// The event tells the end of a task.
pub open spec fn ends_a_task(event: EventView) -> bool {
    event is TaskCompleted || event is TaskCancelled || event is TaskFailed
}

/// The task that an event names as its own.
pub open spec fn named_task(event: EventView) -> Option<Seq<char>> {
    match event {
        EventView::TaskStarted { task_id, .. } => Some(task_id),
        EventView::Status { task_id, .. } => Some(task_id),
        EventView::Reasoning { task_id, .. } => Some(task_id),
        EventView::Log { task_id, .. } => Some(task_id),
        EventView::ToolCall { task_id, .. } => Some(task_id),
        EventView::ToolResult { task_id, .. } => Some(task_id),
        EventView::Finding { task_id, .. } => Some(task_id),
        EventView::ApprovalRequired { task_id, .. } => Some(task_id),
        EventView::TaskCompleted { task_id, .. } => Some(task_id),
        EventView::TaskCancelled { task_id, .. } => Some(task_id),
        EventView::TaskFailed { task_id, .. } => Some(task_id),
        _ => None,
    }
}

/// The event is about the session, or about the task that runs.
pub open spec fn heeded(app: AppModel, event: EventView) -> bool {
    named_task(event) is Some ==> named_task(event) == app.active_task_id
}

/// An event about another task than the running one changes nothing.
#[verifier::spinoff_prover]
#[verifier::rlimit(40)]
pub proof fn unheeded_events_change_nothing(app: AppModel, event: EventView, now: Instant)
    requires
        !heeded(app, event),
    ensures
        app.apply_event(AppEventView::Backend(event), now) == app,
{
}

/// Every heeded event that carries a state puts each business field to what that state says;
/// where it also tells the end of a task, no task runs afterwards.
#[verifier::spinoff_prover]
#[verifier::rlimit(40)]
pub proof fn carried_states_take_effect(
    app: AppModel,
    event: EventView,
    state: SnapshotView,
    now: Instant,
)
    requires
        heeded(app, event),
        carried_state(event) == Some(state),
    ensures
        ({
            let after = app.apply_event(AppEventView::Backend(event), now);
            &&& after.target == state.target
            &&& after.phase == state.phase
            &&& after.findings == state.findings
            &&& after.task_constraints == state.task_constraints
            &&& after.last_run == state.last_run
            &&& after.evidence == state.evidence
            &&& after.constraint_violations == state.constraint_violations
            &&& !ends_a_task(event) ==> after.worker_active == state.task.active
            &&& !ends_a_task(event) ==> after.active_task_id == state.task.task_id
            &&& ends_a_task(event) ==> !after.worker_active && after.active_task_id is None
        }),
{
}

/// An event that carries no state leaves every business field alone, but for the findings,
/// which a finding enters, and the running task, which a refusal of it ends.
#[verifier::spinoff_prover]
#[verifier::rlimit(40)]
pub proof fn events_without_a_state_leave_it(app: AppModel, event: EventView, now: Instant)
    requires
        carried_state(event) is None,
    ensures
        ({
            let after = app.apply_event(AppEventView::Backend(event), now);
            &&& after.target == app.target
            &&& after.phase == app.phase
            &&& after.task_constraints == app.task_constraints
            &&& after.last_run == app.last_run
            &&& after.evidence == app.evidence
            &&& after.constraint_violations == app.constraint_violations
            &&& event !is Finding ==> after.findings == app.findings
            &&& event !is Error ==> after.worker_active == app.worker_active
            &&& event !is Error ==> after.active_task_id == app.active_task_id
        }),
{
}

// ---------------------------------------------------------------------------
// Receipts
// ---------------------------------------------------------------------------

/// The receipt with another number of findings.
pub open spec fn counting(receipt: Option<ReceiptView>, findings: int) -> Option<ReceiptView> {
    match receipt {
        Some(r) => Some(ReceiptView { command: r.command, phase: r.phase, findings }),
        None => None,
    }
}

/// The receipt in another phase.
pub open spec fn in_phase(receipt: Option<ReceiptView>, phase: Seq<char>) -> Option<ReceiptView> {
    match receipt {
        Some(r) => Some(ReceiptView { command: r.command, phase, findings: r.findings }),
        None => None,
    }
}

/// The latest receipt once a task with the receipt `active` has ended.
pub open spec fn closed(
    active: Option<ReceiptView>,
    last: Option<ReceiptView>,
    phase: Seq<char>,
    findings: int,
) -> Option<ReceiptView> {
    match active {
        Some(r) => Some(ReceiptView { command: r.command, phase, findings }),
        None => last,
    }
}

// ---------------------------------------------------------------------------
// What stays
// ---------------------------------------------------------------------------

/// What the user sees and does is the same: the postures, the panes, the composer and its
/// history, the numbering of requests and the armed task.
pub open spec fn same_desk(after: AppModel, app: AppModel) -> bool {
    &&& after.mode == app.mode
    &&& after.permission == app.permission
    &&& after.active_pane == app.active_pane
    &&& after.input == app.input
    &&& after.input_cursor == app.input_cursor
    &&& after.command_history == app.command_history
    &&& after.history_index == app.history_index
    &&& after.history_draft == app.history_draft
    &&& after.findings_scroll == app.findings_scroll
    &&& after.transcript_scroll == app.transcript_scroll
    &&& after.transcript_follow == app.transcript_follow
    &&& after.palette_selection == app.palette_selection
    &&& after.show_reasoning == app.show_reasoning
    &&& after.running == app.running
    &&& after.process_id == app.process_id
    &&& after.request_counter == app.request_counter
    &&& after.show_attack_chain == app.show_attack_chain
    &&& after.pending_task == app.pending_task
    &&& after.terminal_size == app.terminal_size
    &&& after.toast == app.toast
}

/// What is known of the backend process is the same.
pub open spec fn same_backend(after: AppModel, app: AppModel) -> bool {
    &&& after.backend_connected == app.backend_connected
    &&& after.backend_ready == app.backend_ready
    &&& after.backend_pid == app.backend_pid
    &&& after.config_ready == app.config_ready
    &&& after.backend_commands == app.backend_commands
    &&& after.backend_control_operations == app.backend_control_operations
    &&& after.backend_supports_cancellation == app.backend_supports_cancellation
    &&& after.skills == app.skills
}

/// What the backend is the authority on is the same.
pub open spec fn same_business(after: AppModel, app: AppModel) -> bool {
    &&& after.target == app.target
    &&& after.phase == app.phase
    &&& after.findings == app.findings
    &&& after.worker_active == app.worker_active
    &&& after.active_task_id == app.active_task_id
    &&& after.task_constraints == app.task_constraints
    &&& after.last_run == app.last_run
    &&& after.evidence == app.evidence
    &&& after.constraint_violations == app.constraint_violations
}

/// The receipts and the time since when a task runs are the same.
pub open spec fn same_receipts(after: AppModel, app: AppModel) -> bool {
    &&& after.active_receipt == app.active_receipt
    &&& after.last_receipt == app.last_receipt
    &&& after.worker_started_at == app.worker_started_at
}

/// No event touches what the user sees and does.
#[verifier::spinoff_prover]
#[verifier::rlimit(40)]
pub proof fn events_leave_the_desk(app: AppModel, event: AppEventView, now: Instant)
    ensures
        same_desk(app.apply_event(event, now), app),
{
}

/// Only a backend that gets ready, says goodbye or ends changes what is known of it.
#[verifier::spinoff_prover]
#[verifier::rlimit(40)]
pub proof fn tasks_leave_the_backend(app: AppModel, event: EventView, now: Instant)
    requires
        event !is Ready,
        event !is ShutdownComplete,
    ensures
        same_backend(app.apply_event(AppEventView::Backend(event), now), app),
{
}

// ---------------------------------------------------------------------------
// Each event
// ---------------------------------------------------------------------------

/// A state makes the receipt count its findings, and tells nothing.
pub proof fn states_are_counted(
    app: AppModel,
    request_id: Option<Seq<char>>,
    state: SnapshotView,
    now: Instant,
)
    ensures
        ({
            let after = app.apply_event(
                AppEventView::Backend(EventView::State { request_id, state }),
                now,
            );
            &&& after.transcript == app.transcript
            &&& after.active_receipt == counting(app.active_receipt, state.findings.len() as int)
            &&& after.last_receipt == app.last_receipt
            &&& after.worker_started_at == app.worker_started_at
        }),
{
}

/// The answer to a management operation is told in the words of the backend, or in our own where
/// it has none. The receipt counts the findings of a state that comes with it.
#[verifier::spinoff_prover]
#[verifier::rlimit(40)]
pub proof fn answers_are_told(
    app: AppModel,
    request_id: Seq<char>,
    operation: Seq<char>,
    result: JsonView,
    state: Option<SnapshotView>,
    now: Instant,
)
    ensures
        ({
            let after = app.apply_event(
                AppEventView::Backend(
                    EventView::ControlResult { request_id, operation, result, state },
                ),
                now,
            );
            &&& after.transcript == app.transcript.push(
                ItemView {
                    kind: TranscriptKind::Status,
                    text: match result.get("message"@) {
                        Some(JsonView::Text(message)) => message,
                        _ => "Backend control "@ + operation + " completed."@,
                    },
                },
            )
            &&& after.active_receipt == (match state {
                Some(snapshot) => counting(app.active_receipt, snapshot.findings.len() as int),
                None => app.active_receipt,
            })
            &&& after.last_receipt == app.last_receipt
            &&& after.worker_started_at == app.worker_started_at
        }),
{
}

/// A text member of a value, or nothing where there is none.
pub open spec fn text_member(value: JsonView, name: Seq<char>) -> Seq<char> {
    match value.get(name) {
        Some(JsonView::Text(content)) => content,
        _ => seq![],
    }
}

/// The beginning of a task sets the time since when it runs, and its receipt counts the findings,
/// tells the command that runs, and bears the command line of the backend where there is one.
pub proof fn beginnings_are_recorded(
    app: AppModel,
    request_id: Seq<char>,
    task_id: Seq<char>,
    task: JsonView,
    state: SnapshotView,
    now: Instant,
)
    requires
        app.active_task_id == Some(task_id),
    ensures
        ({
            let after = app.apply_event(
                AppEventView::Backend(EventView::TaskStarted { request_id, task_id, task, state }),
                now,
            );
            let line = text_member(task, "normalized_command"@);
            &&& after.transcript == app.transcript
            &&& after.worker_started_at == Some(now)
            &&& after.last_receipt == app.last_receipt
            &&& app.active_receipt is None ==> after.active_receipt is None
            &&& app.active_receipt matches Some(receipt) ==> after.active_receipt == Some(
                ReceiptView {
                    command: if line.len() > 0 {
                        line
                    } else {
                        receipt.command
                    },
                    phase: text_member(task, "command"@) + " running"@,
                    findings: state.findings.len() as int,
                },
            )
        }),
{
}

/// A task that has completed leaves a closed receipt, and its end is told with the name of its
/// run where it has one.
#[verifier::spinoff_prover]
#[verifier::rlimit(40)]
pub proof fn completions_are_recorded(
    app: AppModel,
    request_id: Seq<char>,
    task_id: Seq<char>,
    result: JsonView,
    findings: Seq<FindingView>,
    state: SnapshotView,
    now: Instant,
)
    requires
        app.active_task_id == Some(task_id),
    ensures
        ({
            let after = app.apply_event(
                AppEventView::Backend(
                    EventView::TaskCompleted { request_id, task_id, result, findings, state },
                ),
                now,
            );
            let run = match result.get("run"@) {
                Some(run) => text_member(run, "name"@),
                None => seq![],
            };
            &&& after.transcript == app.transcript.push(
                ItemView {
                    kind: TranscriptKind::Status,
                    text: if run.len() > 0 {
                        "VulnClaw task completed. Run: "@ + run
                    } else {
                        "VulnClaw task completed."@
                    },
                },
            )
            &&& after.worker_started_at is None
            &&& after.active_receipt is None
            &&& after.last_receipt == closed(
                app.active_receipt,
                app.last_receipt,
                "Completed"@,
                state.findings.len() as int,
            )
        }),
{
}

/// A task that was cancelled leaves a closed receipt, and its end is told.
pub proof fn cancellations_are_recorded(
    app: AppModel,
    request_id: Seq<char>,
    task_id: Seq<char>,
    state: SnapshotView,
    now: Instant,
)
    requires
        app.active_task_id == Some(task_id),
    ensures
        ({
            let after = app.apply_event(
                AppEventView::Backend(
                    EventView::TaskCancelled { request_id, task_id, state },
                ),
                now,
            );
            &&& after.transcript == app.transcript.push(
                ItemView {
                    kind: TranscriptKind::Status,
                    text: "VulnClaw task cancelled; backend session remains available."@,
                },
            )
            &&& after.worker_started_at is None
            &&& after.active_receipt is None
            &&& after.last_receipt == closed(
                app.active_receipt,
                app.last_receipt,
                "Cancelled"@,
                state.findings.len() as int,
            )
        }),
{
}

/// A task that has failed leaves a closed receipt, and its end is told with the words of the
/// backend where it has any.
#[verifier::spinoff_prover]
#[verifier::rlimit(40)]
pub proof fn failures_are_recorded(
    app: AppModel,
    request_id: Seq<char>,
    task_id: Seq<char>,
    error: JsonView,
    state: SnapshotView,
    now: Instant,
)
    requires
        app.active_task_id == Some(task_id),
    ensures
        ({
            let after = app.apply_event(
                AppEventView::Backend(
                    EventView::TaskFailed { request_id, task_id, error, state },
                ),
                now,
            );
            &&& after.transcript == app.transcript.push(
                ItemView {
                    kind: TranscriptKind::Error,
                    text: "VulnClaw task failed: "@ + (match error.get("message"@) {
                        Some(JsonView::Text(message)) => message,
                        _ => "task failed"@,
                    }),
                },
            )
            &&& after.worker_started_at is None
            &&& after.active_receipt is None
            &&& after.last_receipt == closed(
                app.active_receipt,
                app.last_receipt,
                "Failed"@,
                state.findings.len() as int,
            )
        }),
{
}

/// A status of the running task is told in its own words and is the phase of its receipt.
pub proof fn statuses_are_told(
    app: AppModel,
    task_id: Seq<char>,
    status: Seq<char>,
    now: Instant,
)
    requires
        app.active_task_id == Some(task_id),
    ensures
        ({
            let after = app.apply_event(
                AppEventView::Backend(EventView::Status { task_id, status }),
                now,
            );
            &&& after.transcript == app.transcript.push(
                ItemView {
                    kind: TranscriptKind::Status,
                    text: status,
                },
            )
            &&& after.active_receipt == in_phase(app.active_receipt, status)
            &&& after.last_receipt == app.last_receipt
            &&& after.worker_started_at == app.worker_started_at
        }),
{
}

/// What the running task thinks is told in its own words and puts its receipt into a phase.
pub proof fn thoughts_are_told(
    app: AppModel,
    task_id: Seq<char>,
    text: Seq<char>,
    now: Instant,
)
    requires
        app.active_task_id == Some(task_id),
    ensures
        ({
            let after = app.apply_event(
                AppEventView::Backend(EventView::Reasoning { task_id, text }),
                now,
            );
            &&& after.transcript == app.transcript.push(
                ItemView {
                    kind: TranscriptKind::Reasoning,
                    text: text,
                },
            )
            &&& after.active_receipt == in_phase(app.active_receipt, "Thinking"@)
            &&& after.last_receipt == app.last_receipt
            &&& after.worker_started_at == app.worker_started_at
        }),
{
}

/// What the running task logs is told in its own words and puts its receipt into a phase.
pub proof fn log_lines_are_told(
    app: AppModel,
    task_id: Seq<char>,
    message: Seq<char>,
    now: Instant,
)
    requires
        app.active_task_id == Some(task_id),
    ensures
        ({
            let after = app.apply_event(
                AppEventView::Backend(EventView::Log { task_id, message }),
                now,
            );
            &&& after.transcript == app.transcript.push(
                ItemView {
                    kind: TranscriptKind::Log,
                    text: message,
                },
            )
            &&& after.active_receipt == in_phase(app.active_receipt, "Running"@)
            &&& after.last_receipt == app.last_receipt
            &&& after.worker_started_at == app.worker_started_at
        }),
{
}

/// A question of the running task is told as one that wants an approval.
pub proof fn questions_are_told(
    app: AppModel,
    task_id: Seq<char>,
    question: Seq<char>,
    now: Instant,
)
    requires
        app.active_task_id == Some(task_id),
    ensures
        ({
            let after = app.apply_event(
                AppEventView::Backend(EventView::ApprovalRequired { task_id, question }),
                now,
            );
            &&& after.transcript == app.transcript.push(
                ItemView {
                    kind: TranscriptKind::Status,
                    text: "Approval required: "@ + question,
                },
            )
            &&& after.active_receipt == app.active_receipt
            &&& after.last_receipt == app.last_receipt
            &&& after.worker_started_at == app.worker_started_at
        }),
{
}

/// A text of at most `max` characters as it is, else its first `max` characters and an ellipsis.
pub open spec fn shortened(s: Seq<char>, max: int) -> Seq<char> {
    if s.len() <= max {
        s
    } else {
        s.take(max) + seq!['…']
    }
}

/// A tool is told with its arguments, in at most a hundred and sixty characters, and puts the
/// receipt into a phase.
pub proof fn tools_are_told_in_short(
    app: AppModel,
    task_id: Seq<char>,
    tool: Seq<char>,
    arguments: Seq<char>,
    now: Instant,
)
    requires
        app.active_task_id == Some(task_id),
    ensures
        ({
            let after = app.apply_event(
                AppEventView::Backend(EventView::ToolCall { task_id, tool, arguments }),
                now,
            );
            &&& after.transcript == app.transcript.push(
                ItemView {
                    kind: TranscriptKind::Log,
                    text: "→ tool: "@ + tool + " "@ + shortened(arguments, 160),
                },
            )
            &&& after.active_receipt == in_phase(app.active_receipt, "Using tool"@)
            &&& after.last_receipt == app.last_receipt
            &&& after.worker_started_at == app.worker_started_at
        }),
{
    assert(command::truncated(arguments, 160) =~= shortened(arguments, 160));
}

/// What a tool gave back is told in at most two hundred and forty characters, and puts the
/// receipt into a phase.
pub proof fn tool_results_are_told_in_short(
    app: AppModel,
    task_id: Seq<char>,
    result: Seq<char>,
    now: Instant,
)
    requires
        app.active_task_id == Some(task_id),
    ensures
        ({
            let after = app.apply_event(
                AppEventView::Backend(EventView::ToolResult { task_id, result }),
                now,
            );
            &&& after.transcript == app.transcript.push(
                ItemView {
                    kind: TranscriptKind::Log,
                    text: "→ result: "@ + shortened(result, 240),
                },
            )
            &&& after.active_receipt == in_phase(app.active_receipt, "Running"@)
            &&& after.last_receipt == app.last_receipt
            &&& after.worker_started_at == app.worker_started_at
        }),
{
    assert(command::truncated(result, 240) =~= shortened(result, 240));
}

/// The place of the first finding with the given identifier.
proof fn lemma_first_finding(findings: Seq<FindingView>, id: Seq<char>, i: int)
    requires
        0 <= i <= findings.len(),
        forall|j: int| 0 <= j < i ==> (#[trigger] findings[j]).id != id,
        i < findings.len() ==> findings[i].id == id,
    ensures
        model::finding_index(findings, id) == i,
    decreases i,
{
    if i > 0 {
        let rest = findings.drop_first();
        assert(findings[0].id != id);
        assert forall|j: int| 0 <= j < i - 1 implies (#[trigger] rest[j]).id != id by {
            assert(rest[j] == findings[j + 1]);
        }
        lemma_first_finding(rest, id, i - 1);
    }
}

/// A finding with the identifier of one that is there takes its place, the place of the first
/// such, and nothing is announced: the receipt counts as many findings as before.
pub proof fn known_findings_are_replaced_in_place(
    app: AppModel,
    task_id: Seq<char>,
    finding: FindingView,
    i: int,
    now: Instant,
)
    requires
        app.active_task_id == Some(task_id),
        finding.id.len() > 0,
        0 <= i < app.findings.len(),
        app.findings[i].id == finding.id,
        forall|j: int| 0 <= j < i ==> (#[trigger] app.findings[j]).id != finding.id,
    ensures
        ({
            let after = app.apply_event(
                AppEventView::Backend(EventView::Finding { task_id, finding }),
                now,
            );
            &&& after.findings == app.findings.update(i, finding)
            &&& after.transcript == app.transcript
            &&& after.active_receipt == in_phase(
                counting(app.active_receipt, app.findings.len() as int),
                "Receiving findings"@,
            )
            &&& after.last_receipt == app.last_receipt
            &&& after.worker_started_at == app.worker_started_at
        }),
{
    lemma_first_finding(app.findings, finding.id, i);
}

/// A finding without an identifier, or with one that no finding has, comes behind the others and
/// is announced by its summary; the receipt counts one more than there were.
pub proof fn new_findings_are_added_and_announced(
    app: AppModel,
    task_id: Seq<char>,
    finding: FindingView,
    now: Instant,
)
    requires
        app.active_task_id == Some(task_id),
        finding.id.len() == 0 || forall|j: int|
            0 <= j < app.findings.len() ==> (#[trigger] app.findings[j]).id != finding.id,
    ensures
        ({
            let after = app.apply_event(
                AppEventView::Backend(EventView::Finding { task_id, finding }),
                now,
            );
            &&& after.findings == app.findings.push(finding)
            &&& after.transcript == app.transcript.push(
                ItemView { kind: TranscriptKind::Finding, text: finding.summary() },
            )
            &&& after.active_receipt == in_phase(
                counting(app.active_receipt, app.findings.len() as int + 1),
                "Receiving findings"@,
            )
            &&& after.last_receipt == app.last_receipt
            &&& after.worker_started_at == app.worker_started_at
        }),
{
    if finding.id.len() > 0 {
        lemma_first_finding(app.findings, finding.id, app.findings.len() as int);
    }
}

/// The summary of a finding tells its severity in upper case, its title and its place: the line
/// within its target where there is one, else its code location, else its target.
pub proof fn summaries_tell_severity_title_and_place(finding: FindingView)
    ensures
        finding.summary() == "["@ + text::upper_case(finding.severity) + "] "@ + finding.title
            + " ("@ + (match finding.line {
            Some(line) => finding.target + ":"@ + text::decimal(line as nat),
            None => match finding.code_location {
                Some(place) => place,
                None => finding.target,
            },
        }) + ")"@,
{
}

/// A refusal is told with its code and its words. If it is about the running task, that has
/// ended as rejected with the findings that are known; otherwise nothing else changes.
pub proof fn refusals_end_the_task_they_are_about(
    app: AppModel,
    request_id: Option<Seq<char>>,
    task_id: Option<Seq<char>>,
    code: Seq<char>,
    message: Seq<char>,
    now: Instant,
)
    ensures
        ({
            let after = app.apply_event(
                AppEventView::Backend(EventView::Error { request_id, task_id, code, message }),
                now,
            );
            let about_it = task_id is Some && task_id == app.active_task_id;
            &&& after.transcript == app.transcript.push(
                ItemView {
                    kind: TranscriptKind::Error,
                    text: "Backend "@ + code + ": "@ + message,
                },
            )
            &&& !about_it ==> same_business(after, app) && same_receipts(after, app)
            &&& about_it ==> {
                &&& !after.worker_active
                &&& after.active_task_id is None
                &&& after.worker_started_at is None
                &&& after.active_receipt is None
                &&& after.last_receipt == closed(
                    app.active_receipt,
                    app.last_receipt,
                    "Rejected"@,
                    app.findings.len() as int,
                )
            }
        }),
{
}

/// A backend that has said goodbye is not ready and takes no task and no operation; nothing else
/// changes.
pub proof fn goodbyes_end_readiness(app: AppModel, request_id: Seq<char>, now: Instant)
    ensures
        ({
            let after = app.apply_event(
                AppEventView::Backend(EventView::ShutdownComplete { request_id }),
                now,
            );
            &&& !after.backend_ready
            &&& after.backend_commands.len() == 0
            &&& after.backend_control_operations.len() == 0
            &&& after.backend_connected == app.backend_connected
            &&& after.backend_pid == app.backend_pid
            &&& after.config_ready == app.config_ready
            &&& after.backend_supports_cancellation == app.backend_supports_cancellation
            &&& after.skills == app.skills
            &&& after.transcript == app.transcript
            &&& same_business(after, app)
            &&& same_receipts(after, app)
        }),
{
}

/// A diagnostic of the backend is logged as such, and nothing else changes.
pub proof fn diagnostics_are_logged(app: AppModel, message: Seq<char>, now: Instant)
    ensures
        ({
            let after = app.apply_event(AppEventView::BackendDiagnostic(message), now);
            &&& after.transcript == app.transcript.push(
                ItemView { kind: TranscriptKind::Log, text: "backend: "@ + message },
            )
            &&& same_backend(after, app)
            &&& same_business(after, app)
            &&& same_receipts(after, app)
        }),
{
}

/// A backend process that has ended is disconnected and not ready, and nothing of it is
/// advertised; the task that ran has ended with it, and its receipt says so and keeps its count.
/// The end is told, as an error, only while the workbench runs. What the backend reported stays.
pub proof fn exits_close_the_session(app: AppModel, success: bool, now: Instant)
    ensures
        ({
            let after = app.apply_event(AppEventView::BackendExited(success), now);
            &&& !after.backend_connected
            &&& !after.backend_ready
            &&& after.backend_pid is None
            &&& after.backend_commands.len() == 0
            &&& after.backend_control_operations.len() == 0
            &&& !after.backend_supports_cancellation
            &&& after.config_ready == app.config_ready
            &&& after.skills == app.skills
            &&& !after.worker_active
            &&& after.active_task_id is None
            &&& after.worker_started_at is None
            &&& after.active_receipt is None
            &&& after.last_receipt == (match app.active_receipt {
                Some(r) => closed(
                    app.active_receipt,
                    app.last_receipt,
                    "Backend disconnected"@,
                    r.findings,
                ),
                None => app.last_receipt,
            })
            &&& after.target == app.target
            &&& after.phase == app.phase
            &&& after.findings == app.findings
            &&& after.task_constraints == app.task_constraints
            &&& after.last_run == app.last_run
            &&& after.evidence == app.evidence
            &&& after.constraint_violations == app.constraint_violations
            &&& !app.running ==> after.transcript == app.transcript
            &&& app.running ==> after.transcript == app.transcript.push(
                ItemView {
                    kind: TranscriptKind::Error,
                    text: if success {
                        "Python backend exited."@
                    } else {
                        "Python backend exited with a non-zero status."@
                    },
                },
            )
        }),
{
}

// ---------------------------------------------------------------------------
// A backend that is ready
// ---------------------------------------------------------------------------

/// A verb is among the verbs of the advertised commands exactly if one of them stands for it.
proof fn lemma_verbs(commands: Seq<Seq<char>>, verb: Seq<char>)
    ensures
        model::verbs_of(commands).contains(verb) <==> exists|i: int|
            0 <= i < commands.len() && command::normalized_verb(#[trigger] commands[i]) == Some(
                verb,
            ),
    decreases commands.len(),
{
    if commands.len() > 0 {
        let rest = commands.drop_last();
        let all = model::verbs_of(commands);
        let before = model::verbs_of(rest);
        lemma_verbs(rest, verb);
        if all.contains(verb) {
            let j = choose|j: int| 0 <= j < all.len() && all[j] == verb;
            if j < before.len() {
                assert(before[j] == verb);
                assert(before.contains(verb));
                let i = choose|i: int|
                    0 <= i < rest.len() && command::normalized_verb(#[trigger] rest[i]) == Some(
                        verb,
                    );
                assert(commands[i] == rest[i]);
            } else {
                assert(command::normalized_verb(commands[commands.len() - 1]) == Some(verb));
            }
        }
        if exists|i: int|
            0 <= i < commands.len() && command::normalized_verb(#[trigger] commands[i]) == Some(
                verb,
            ) {
            let i = choose|i: int|
                0 <= i < commands.len() && command::normalized_verb(#[trigger] commands[i])
                    == Some(verb);
            if i < rest.len() {
                assert(rest[i] == commands[i]);
                assert(before.contains(verb));
                let j = choose|j: int| 0 <= j < before.len() && before[j] == verb;
                assert(all[j] == verb);
            } else {
                assert(all[all.len() - 1] == verb);
            }
        }
    }
}

/// An operation is among the named ones exactly if it is listed and its name is not blank.
proof fn lemma_operations(operations: Seq<Seq<char>>, operation: Seq<char>)
    ensures
        model::named_operations(operations).contains(operation) <==> operations.contains(operation)
            && text::trimmed(operation).len() > 0,
    decreases operations.len(),
{
    if operations.len() > 0 {
        let rest = operations.drop_last();
        let all = model::named_operations(operations);
        let before = model::named_operations(rest);
        lemma_operations(rest, operation);
        if all.contains(operation) {
            let j = choose|j: int| 0 <= j < all.len() && all[j] == operation;
            if j < before.len() {
                assert(before[j] == operation);
                assert(before.contains(operation));
                let i = choose|i: int| 0 <= i < rest.len() && rest[i] == operation;
                assert(operations[i] == operation);
            } else {
                assert(operations[operations.len() - 1] == operation);
            }
        }
        if operations.contains(operation) && text::trimmed(operation).len() > 0 {
            let i = choose|i: int| 0 <= i < operations.len() && operations[i] == operation;
            if i < rest.len() {
                assert(rest[i] == operation);
                assert(before.contains(operation));
                let j = choose|j: int| 0 <= j < before.len() && before[j] == operation;
                assert(all[j] == operation);
            } else {
                assert(all[all.len() - 1] == operation);
            }
        }
    }
}

/// A backend that is ready is known with its process, its configuration and its ability to
/// cancel. It gets exactly the task verbs that its commands stand for, if its state is
/// authoritative, and none otherwise; and exactly the operations that it names.
#[verifier::spinoff_prover]
#[verifier::rlimit(40)]
pub proof fn readiness_tells_what_the_backend_can_do(
    app: AppModel,
    request_id: Seq<char>,
    backend: BackendInfoView,
    capabilities: CapabilitiesView,
    runtime: RuntimeView,
    state: SnapshotView,
    now: Instant,
    name: Seq<char>,
)
    ensures
        ({
            let after = app.apply_event(
                AppEventView::Backend(
                    EventView::Ready { request_id, backend, capabilities, runtime, state },
                ),
                now,
            );
            &&& after.backend_ready
            &&& after.backend_pid == Some(backend.pid)
            &&& after.config_ready == Some(runtime.config_ready)
            &&& after.backend_connected == app.backend_connected
            &&& after.backend_supports_cancellation == capabilities.cancellation
            &&& after.active_receipt == counting(app.active_receipt, state.findings.len() as int)
            &&& after.last_receipt == app.last_receipt
            &&& after.worker_started_at == app.worker_started_at
            &&& forall|i: int, j: int|
                0 <= i < j < after.backend_commands.len() ==> order::precedes(
                    after.backend_commands[i],
                    after.backend_commands[j],
                )
            &&& after.backend_commands.contains(name) <==> capabilities.authoritative_state
                && exists|i: int|
                0 <= i < capabilities.commands.len() && command::normalized_verb(
                    #[trigger] capabilities.commands[i],
                ) == Some(name)
            &&& forall|i: int, j: int|
                0 <= i < j < after.backend_control_operations.len() ==> order::precedes(
                    after.backend_control_operations[i],
                    after.backend_control_operations[j],
                )
            &&& after.backend_control_operations.contains(name) <==>
                capabilities.control_operations.contains(name) && text::trimmed(name).len() > 0
        }),
{
    let verbs = model::verbs_of(capabilities.commands);
    let operations = model::named_operations(capabilities.control_operations);
    order::sorted_unique_orders_and_keeps(verbs);
    order::sorted_unique_orders_and_keeps(operations);
    lemma_verbs(capabilities.commands, name);
    lemma_operations(capabilities.control_operations, name);
}

/// A backend that is ready is announced with its process, its version and its model, after a
/// complaint if its state is not authoritative, and before one if it lacks credentials. Its
/// skills, where it has any, stand under a heading of their own.
#[verifier::spinoff_prover]
#[verifier::rlimit(40)]
pub proof fn readiness_is_announced(
    app: AppModel,
    request_id: Seq<char>,
    backend: BackendInfoView,
    capabilities: CapabilitiesView,
    runtime: RuntimeView,
    state: SnapshotView,
    now: Instant,
)
    ensures
        ({
            let after = app.apply_event(
                AppEventView::Backend(
                    EventView::Ready { request_id, backend, capabilities, runtime, state },
                ),
                now,
            );
            let refusal = if capabilities.authoritative_state {
                seq![]
            } else {
                seq![
                    ItemView {
                        kind: TranscriptKind::Error,
                        text:
                            "Backend does not advertise authoritative state; refusing task commands."@,
                    },
                ]
            };
            let greeting = seq![
                ItemView {
                    kind: TranscriptKind::Status,
                    text: "Python backend ready (pid "@ + text::decimal(backend.pid as nat)
                        + ", VulnClaw "@ + backend.version + ", "@ + runtime.provider + "/"@
                        + runtime.model + ")."@,
                },
            ];
            let advice = if runtime.config_ready {
                seq![]
            } else {
                seq![
                    ItemView {
                        kind: TranscriptKind::Error,
                        text:
                            "LLM credentials are not configured. Run `vulnclaw config set` before starting a task."@,
                    },
                ]
            };
            &&& after.transcript == app.transcript + refusal + greeting + advice
            &&& runtime.skills.len() == 0 ==> after.skills == app.skills
            &&& runtime.skills.len() > 0 ==> {
                &&& after.skills.len() == 1
                &&& after.skills[0].name == "Python skills"@
                &&& after.skills[0].children.len() == runtime.skills.len()
                &&& forall|i: int|
                    0 <= i < runtime.skills.len() ==> #[trigger] after.skills[0].children[i]
                        == (SkillView { name: runtime.skills[i], children: seq![] })
            }
        }),
{
    let after = app.apply_event(
        AppEventView::Backend(
            EventView::Ready { request_id, backend, capabilities, runtime, state },
        ),
        now,
    );
    let refusal = if capabilities.authoritative_state {
        seq![]
    } else {
        seq![
            ItemView {
                kind: TranscriptKind::Error,
                text: "Backend does not advertise authoritative state; refusing task commands."@,
            },
        ]
    };
    let greeting = seq![
        ItemView {
            kind: TranscriptKind::Status,
            text: "Python backend ready (pid "@ + text::decimal(backend.pid as nat) + ", VulnClaw "@
                + backend.version + ", "@ + runtime.provider + "/"@ + runtime.model + ")."@,
        },
    ];
    let advice = if runtime.config_ready {
        seq![]
    } else {
        seq![
            ItemView {
                kind: TranscriptKind::Error,
                text:
                    "LLM credentials are not configured. Run `vulnclaw config set` before starting a task."@,
            },
        ]
    };
    assert(after.transcript =~= app.transcript + refusal + greeting + advice);
}

} // verus!
