//! What holds of the workbench as a whole: laws over several operations, all events and
//! every state.
use std::time::Instant;

use vstd::prelude::*;

use crate::app::TranscriptKind;
use crate::command;
use crate::composer;
use crate::event::{
    AppEventView, BackendInfoView, CapabilitiesView, EventView, FindingView, RuntimeView,
    SnapshotView,
};
use crate::json::JsonView;
use crate::layout;
use crate::layout::Screen;
use crate::model;
use crate::model::{
    AppModel, DispatchView, PurposeView, ReceiptView, SlashView, MAX_COMMAND_HISTORY,
};
use crate::modes::ExecutionMode;
use crate::order;
use crate::text;

verus! {

// ---------------------------------------------------------------------------
// Authoritative state
// ---------------------------------------------------------------------------

/// The two states differ at most in what the backend is the authority on, and in how many
/// findings the receipt counts.
pub open spec fn same_but_for_business(a: AppModel, b: AppModel) -> bool {
    a == AppModel {
        target: a.target,
        phase: a.phase,
        findings: a.findings,
        worker_active: a.worker_active,
        active_task_id: a.active_task_id,
        task_constraints: a.task_constraints,
        last_run: a.last_run,
        evidence: a.evidence,
        constraint_violations: a.constraint_violations,
        active_receipt: match (a.active_receipt, b.active_receipt) {
            (Some(mine), Some(theirs)) => Some(
                ReceiptView { findings: mine.findings, ..theirs },
            ),
            _ => b.active_receipt,
        },
        ..b
    }
}

/// A reported state replaces and clears every business field: nothing of what was known
/// before survives.
pub proof fn authoritative_state_replaces_every_business_field(
    a: AppModel,
    b: AppModel,
    request_id: Option<Seq<char>>,
    state: SnapshotView,
    now: Instant,
)
    requires
        same_but_for_business(a, b),
    ensures
        ({
            let event = AppEventView::Backend(EventView::State { request_id, state });
            let after = a.apply_event(event, now);
            &&& after == b.apply_event(event, now)
            &&& after.target == state.target
            &&& after.phase == state.phase
            &&& after.findings == state.findings
            &&& after.worker_active == state.task.active
            &&& after.active_task_id == state.task.task_id
            &&& after.task_constraints == state.task_constraints
            &&& after.last_run == state.last_run
            &&& after.evidence == state.evidence
            &&& after.constraint_violations == state.constraint_violations
        }),
{
}

/// The summaries in a task event never override the state that comes with it: what a
/// beginning or completed task is said to be or to have found changes no business field.
pub proof fn task_summaries_never_override_state(
    app: AppModel,
    request_id: Seq<char>,
    task_id: Seq<char>,
    task: JsonView,
    result: JsonView,
    findings: Seq<FindingView>,
    state: SnapshotView,
    now: Instant,
)
    requires
        app.is_current_task(task_id),
    ensures
        ({
            let started = app.apply_event(
                AppEventView::Backend(
                    EventView::TaskStarted { request_id, task_id, task, state },
                ),
                now,
            );
            &&& started.target == state.target
            &&& started.phase == state.phase
            &&& started.findings == state.findings
            &&& started.worker_active == state.task.active
            &&& started.active_task_id == state.task.task_id
            &&& started.task_constraints == state.task_constraints
            &&& started.last_run == state.last_run
            &&& started.evidence == state.evidence
            &&& started.constraint_violations == state.constraint_violations
        }),
        ({
            let completed = app.apply_event(
                AppEventView::Backend(
                    EventView::TaskCompleted { request_id, task_id, result, findings, state },
                ),
                now,
            );
            &&& completed.target == state.target
            &&& completed.phase == state.phase
            &&& completed.findings == state.findings
            &&& completed.task_constraints == state.task_constraints
            &&& completed.last_run == state.last_run
            &&& completed.evidence == state.evidence
            &&& completed.constraint_violations == state.constraint_violations
        }),
{
}

/// Events of a task that is not the running one change nothing.
pub proof fn foreign_task_events_change_nothing(app: AppModel, event: EventView, now: Instant)
    requires
        AppModel::task_of(event) is Some,
        AppModel::task_of(event) != app.active_task_id,
    ensures
        app.apply_event(AppEventView::Backend(event), now) == app,
{
}

/// No event touches what the user is typing, the history, the postures, the focus or a task
/// that waits for its confirmation, and none numbers a request.
pub proof fn events_leave_the_user_alone(app: AppModel, event: AppEventView, now: Instant)
    ensures
        ({
            let after = app.apply_event(event, now);
            &&& after.input == app.input
            &&& after.input_cursor == app.input_cursor
            &&& after.command_history == app.command_history
            &&& after.history_index == app.history_index
            &&& after.history_draft == app.history_draft
            &&& after.palette_selection == app.palette_selection
            &&& after.mode == app.mode
            &&& after.permission == app.permission
            &&& after.active_pane == app.active_pane
            &&& after.pending_task == app.pending_task
            &&& after.request_counter == app.request_counter
            &&& after.process_id == app.process_id
            &&& app.well_formed() ==> after.well_formed()
        }),
{
}

/// Events only ever add to the transcript.
pub proof fn events_only_add_to_the_transcript(app: AppModel, event: AppEventView, now: Instant)
    ensures
        app.transcript.len() <= app.apply_event(event, now).transcript.len(),
        app.apply_event(event, now).transcript.take(app.transcript.len() as int) == app.transcript,
{
    assert(app.apply_event(event, now).transcript.take(app.transcript.len() as int)
        =~= app.transcript);
}

// ---------------------------------------------------------------------------
// Capabilities
// ---------------------------------------------------------------------------

/// Every verb among the advertised commands is well formed.
proof fn lemma_verbs_of(commands: Seq<Seq<char>>)
    ensures
        forall|i: int|
            0 <= i < model::verbs_of(commands).len() ==> command::is_verb(
                #[trigger] model::verbs_of(commands)[i],
            ),
    decreases commands.len(),
{
    if commands.len() > 0 {
        let rest = commands.drop_last();
        let verbs = model::verbs_of(commands);
        lemma_verbs_of(rest);
        assert forall|i: int| 0 <= i < verbs.len() implies command::is_verb(
            #[trigger] verbs[i],
        ) by {
            if i < model::verbs_of(rest).len() {
                assert(verbs[i] == model::verbs_of(rest)[i]);
            }
        }
    }
}

/// A backend that is ready gets the task verbs that it advertises, well formed, in order and
/// each of them once; without authoritative state it gets none.
pub proof fn ready_backend_gets_sorted_verbs(
    app: AppModel,
    request_id: Seq<char>,
    backend: BackendInfoView,
    capabilities: CapabilitiesView,
    runtime: RuntimeView,
    state: SnapshotView,
    now: Instant,
)
    ensures
        ({
            let after = app.apply_event(
                AppEventView::Backend(
                    EventView::Ready { request_id, backend, capabilities, runtime, state },
                ),
                now,
            );
            &&& after.backend_ready
            &&& after.backend_pid == Some(backend.pid)
            &&& after.backend_supports_cancellation == capabilities.cancellation
            &&& order::strictly_sorted(after.backend_commands)
            &&& order::strictly_sorted(after.backend_control_operations)
            &&& forall|i: int|
                0 <= i < after.backend_commands.len() ==> command::is_verb(
                    #[trigger] after.backend_commands[i],
                )
            &&& !capabilities.authoritative_state ==> after.backend_commands.len() == 0
            &&& capabilities.authoritative_state ==> forall|verb: Seq<char>|
                #[trigger] after.backend_commands.contains(verb) <==> model::verbs_of(
                    capabilities.commands,
                ).contains(verb)
        }),
{
    let verbs = model::verbs_of(capabilities.commands);
    order::sorted_unique_orders_and_keeps(verbs);
    order::sorted_unique_orders_and_keeps(
        model::named_operations(capabilities.control_operations),
    );
    lemma_verbs_of(capabilities.commands);
    let sorted = order::sorted_unique(verbs);
    assert forall|i: int| 0 <= i < sorted.len() implies command::is_verb(#[trigger] sorted[i]) by {
        assert(sorted.contains(sorted[i]));
        assert(verbs.contains(sorted[i]));
    }
}

/// A management operation is asked only of a backend that is connected and ready, that
/// advertises it, and that runs no task.
pub proof fn control_is_capability_gated(
    app: AppModel,
    operation: Seq<char>,
    arguments: JsonView,
)
    ensures
        app.request_control(operation, arguments).1 is Some <==> !app.worker_active
            && app.backend_ready && app.backend_connected
            && app.backend_control_operations.contains(operation),
{
}

// ---------------------------------------------------------------------------
// Tasks
// ---------------------------------------------------------------------------

/// In plan mode no command arms a task.
pub proof fn plan_mode_never_arms_a_task(app: AppModel)
    requires
        app.mode == ExecutionMode::Plan,
    ensures
        app.submit().0.pending_task == app.pending_task,
        app.submit().0.mode == ExecutionMode::Plan,
{
}

/// A submitted command never starts a task: it is armed at most, and nothing but a
/// confirmation asks the backend to start it.
pub proof fn only_a_confirmation_starts_a_task(app: AppModel)
    ensures
        app.submit().0.worker_active == app.worker_active,
        app.submit().0.active_task_id == app.active_task_id,
        app.submit().0.active_receipt == app.active_receipt,
        app.submit().1 matches Some(dispatch) ==> dispatch.purpose is Scope,
        app.stop_worker().1 matches Some(dispatch) ==> dispatch.purpose is CancelTask,
{
}

/// A command that is submitted leaves an empty composer, and is the latest of the history.
pub proof fn submitting_empties_the_composer(app: AppModel)
    requires
        app.typed_command().len() > 0,
    ensures
        app.submit().0.input.len() == 0,
        app.submit().0.input_cursor == 0,
        app.submit().0.history_index is None,
        app.submit().0.command_history.len() > 0,
        app.submit().0.command_history.last() == app.typed_command(),
{
}

/// A confirmation uses the armed task up: a second one does nothing.
pub proof fn confirmation_is_used_up(app: AppModel, now: Instant, later: Instant)
    ensures
        app.confirm_task(now).0.pending_task is None,
        app.confirm_task(now).0.confirm_task(later) == (app.confirm_task(now).0, None::<DispatchView>),
        app.dismiss_task().pending_task is None,
        app.dismiss_task().confirm_task(now) == (app.dismiss_task(), None::<DispatchView>),
{
}

/// Nothing starts while a task runs, and what runs is not disturbed.
pub proof fn one_task_at_a_time(app: AppModel, command_line: Seq<char>, now: Instant)
    requires
        app.worker_active,
    ensures
        app.start_task(command_line, now).1 is None,
        app.start_task(command_line, now).0.active_task_id == app.active_task_id,
        app.start_task(command_line, now).0.active_receipt == app.active_receipt,
        app.start_task(command_line, now).0.worker_active,
{
}

/// A task that is submitted is the running one, under the identifier that its request
/// carries: its events are heeded.
pub proof fn submitted_task_is_the_running_one(app: AppModel, command_line: Seq<char>, now: Instant)
    ensures
        app.start_task(command_line, now).1 matches Some(dispatch) ==> {
            &&& dispatch.purpose is StartTask
            &&& dispatch.request.task_id is Some
            &&& app.start_task(command_line, now).0.active_task_id == dispatch.request.task_id
            &&& app.start_task(command_line, now).0.worker_active
            &&& app.start_task(command_line, now).0.active_receipt == Some(
                ReceiptView { command: command_line, phase: "Submitting"@, findings: 0 },
            )
        },
{
}

/// A task whose request was not delivered is not running.
pub proof fn undelivered_task_is_not_running(app: AppModel, reason: Seq<char>)
    ensures
        ({
            let after = app.settle(PurposeView::StartTask, Err(reason));
            &&& !after.worker_active
            &&& after.worker_started_at is None
            &&& after.active_task_id is None
            &&& after.active_receipt is None
            &&& app.active_receipt matches Some(receipt) ==> after.last_receipt == Some(
                ReceiptView {
                    command: receipt.command,
                    phase: "Failed to submit"@,
                    findings: app.findings.len() as int,
                },
            )
        }),
{
}

/// Cancelling asks the backend and keeps the session: the task goes on running until the
/// backend says otherwise.
pub proof fn cancelling_keeps_the_session(app: AppModel, outcome: Result<(), Seq<char>>)
    ensures
        ({
            let asked = app.stop_worker().0;
            let settled = asked.settle(PurposeView::CancelTask, outcome);
            &&& asked.backend_connected == app.backend_connected
            &&& asked.backend_ready == app.backend_ready
            &&& asked.worker_active == app.worker_active
            &&& asked.active_task_id == app.active_task_id
            &&& settled.backend_connected == app.backend_connected
            &&& settled.backend_ready == app.backend_ready
            &&& settled.worker_active == app.worker_active
            &&& settled.active_task_id == app.active_task_id
        }),
{
}

/// The end of a running task closes its receipt, with the phase that the end has and the
/// findings that the backend reports, and keeps the backend session.
pub proof fn end_of_a_task_closes_its_receipt(
    app: AppModel,
    request_id: Seq<char>,
    task_id: Seq<char>,
    detail: JsonView,
    findings: Seq<FindingView>,
    state: SnapshotView,
    now: Instant,
)
    requires
        app.is_current_task(task_id),
    ensures
        ({
            let completed = app.apply_event(
                AppEventView::Backend(
                    EventView::TaskCompleted {
                        request_id,
                        task_id,
                        result: detail,
                        findings,
                        state,
                    },
                ),
                now,
            );
            let cancelled = app.apply_event(
                AppEventView::Backend(EventView::TaskCancelled { request_id, task_id, state }),
                now,
            );
            let failed = app.apply_event(
                AppEventView::Backend(
                    EventView::TaskFailed { request_id, task_id, error: detail, state },
                ),
                now,
            );
            &&& ended(app, completed, "Completed"@, state)
            &&& ended(app, cancelled, "Cancelled"@, state)
            &&& ended(app, failed, "Failed"@, state)
        }),
{
}

/// `after` is what a running task leaves that ended in the given phase and state.
pub open spec fn ended(
    before: AppModel,
    after: AppModel,
    phase: Seq<char>,
    state: SnapshotView,
) -> bool {
    &&& !after.worker_active
    &&& after.worker_started_at is None
    &&& after.active_task_id is None
    &&& after.active_receipt is None
    &&& after.findings == state.findings
    &&& after.backend_connected == before.backend_connected
    &&& after.backend_ready == before.backend_ready
    &&& after.backend_commands == before.backend_commands
    &&& before.active_receipt matches Some(receipt) ==> after.last_receipt == Some(
        ReceiptView { command: receipt.command, phase, findings: state.findings.len() as int },
    )
}

/// A backend process that has ended leaves nothing running and nothing advertised, and says
/// so while the workbench runs.
pub proof fn exit_leaves_nothing_running(app: AppModel, success: bool, now: Instant)
    ensures
        ({
            let after = app.apply_event(AppEventView::BackendExited(success), now);
            &&& !after.backend_connected
            &&& !after.backend_ready
            &&& after.backend_pid is None
            &&& after.backend_commands.len() == 0
            &&& after.backend_control_operations.len() == 0
            &&& !after.backend_supports_cancellation
            &&& !after.worker_active
            &&& after.active_task_id is None
            &&& after.active_receipt is None
            &&& after.transcript.len() == app.transcript.len() + (if app.running {
                1int
            } else {
                0int
            })
        }),
{
}

/// The connection is given up once: a second time there is nobody to say farewell to.
pub proof fn farewell_is_said_once(app: AppModel)
    ensures
        app.shutdown_backend().1 is Some <==> app.backend_connected,
        !app.shutdown_backend().0.backend_connected,
        app.shutdown_backend().0.shutdown_backend().1 is None,
        app.shutdown_backend().0.shutdown_backend().0 == app.shutdown_backend().0,
{
}

/// `/clear` empties the transcript and keeps the findings.
pub proof fn clearing_keeps_the_findings(app: AppModel)
    ensures
        app.run_command("/clear"@).0.findings == app.findings,
        app.run_command("/clear"@).0.transcript.len() == 1,
        app.run_command("/clear"@).1 is None,
{
    reveal_strlit("/clear");
    reveal_strlit("/help");
    assert("/clear"@.len() != "/help"@.len());
}

// ---------------------------------------------------------------------------
// Findings
// ---------------------------------------------------------------------------

/// No two findings share an identifier, those without one aside.
pub open spec fn identifiers_unique(findings: Seq<FindingView>) -> bool {
    forall|i: int, j: int|
        0 <= i < j < findings.len() && (#[trigger] findings[i]).id.len() > 0 ==> findings[i].id != (
        #[trigger] findings[j]).id
}

/// The place of a finding: it is there, unless no finding has the identifier.
proof fn lemma_finding_index(findings: Seq<FindingView>, id: Seq<char>)
    ensures
        0 <= model::finding_index(findings, id) <= findings.len(),
        model::finding_index(findings, id) < findings.len() ==> findings[model::finding_index(
            findings,
            id,
        )].id == id,
        forall|i: int|
            0 <= i < model::finding_index(findings, id) ==> (#[trigger] findings[i]).id != id,
    decreases findings.len(),
{
    if findings.len() > 0 && findings[0].id != id {
        let rest = findings.drop_first();
        lemma_finding_index(rest, id);
        assert forall|i: int| 0 <= i < model::finding_index(findings, id) implies (
        #[trigger] findings[i]).id != id by {
            if i > 0 {
                assert(findings[i] == rest[i - 1]);
            }
        }
    }
}

/// A finding that comes in is there afterwards, once: it replaces the one with its
/// identifier in place, or comes behind the others, which stay as they are.
pub proof fn findings_are_kept_once(app: AppModel, finding: FindingView)
    requires
        identifiers_unique(app.findings),
    ensures
        identifiers_unique(app.upsert_finding(finding).findings),
        app.upsert_finding(finding).findings.contains(finding),
        forall|i: int|
            0 <= i < app.findings.len() && ((#[trigger] app.findings[i]).id != finding.id
                || finding.id.len() == 0) ==> app.upsert_finding(finding).findings[i]
                == app.findings[i],
        app.upsert_finding(finding).findings.len() <= app.findings.len() + 1,
{
    let index = model::finding_index(app.findings, finding.id);
    lemma_finding_index(app.findings, finding.id);
    let after = app.upsert_finding(finding).findings;
    if finding.id.len() > 0 && index < app.findings.len() {
        assert(after[index] == finding);
    } else {
        assert(after[app.findings.len() as int] == finding);
    }
}

/// The receipt of the running task always counts the findings, after a finding or a state.
pub proof fn receipt_counts_the_findings(app: AppModel, finding: FindingView, state: SnapshotView)
    ensures
        app.upsert_finding(finding).active_receipt matches Some(receipt) ==> receipt.findings
            == app.upsert_finding(finding).findings.len(),
        app.apply_backend_state(state).active_receipt matches Some(receipt) ==> receipt.findings
            == app.apply_backend_state(state).findings.len(),
{
}

// ---------------------------------------------------------------------------
// Postures
// ---------------------------------------------------------------------------

/// The cycles of mode and permission are independent, and neither arms nor starts a task.
pub proof fn postures_are_independent(app: AppModel)
    ensures
        app.cycle_mode().permission == app.permission,
        app.cycle_permission().mode == app.mode,
        app.cycle_mode().cycle_permission().mode == app.cycle_permission().cycle_mode().mode,
        app.cycle_mode().cycle_permission().permission
            == app.cycle_permission().cycle_mode().permission,
        app.cycle_mode().pending_task == app.pending_task,
        app.cycle_permission().pending_task == app.pending_task,
        app.cycle_mode().worker_active == app.worker_active,
        app.cycle_permission().worker_active == app.worker_active,
{
}

// ---------------------------------------------------------------------------
// The composer
// ---------------------------------------------------------------------------

/// `s` holds no line break.
pub open spec fn single_line(s: Seq<char>) -> bool {
    forall|i: int| 0 <= i < s.len() ==> (#[trigger] s[i]) != '\r' && s[i] != '\n'
}

/// Dropping line breaks leaves a single line, and a single line as it is.
proof fn lemma_without_breaks(s: Seq<char>)
    ensures
        single_line(model::without_breaks(s)),
        single_line(s) ==> model::without_breaks(s) == s,
    decreases s.len(),
{
    if s.len() > 0 {
        lemma_without_breaks(s.drop_last());
        if single_line(s) {
            assert(s.last() == s[s.len() - 1]);
            assert forall|i: int| 0 <= i < s.drop_last().len() implies (
            #[trigger] s.drop_last()[i]) != '\r' && s.drop_last()[i] != '\n' by {
                assert(s.drop_last()[i] == s[i]);
            }
            assert(s.drop_last().push(s.last()) =~= s);
        }
    } else {
        assert(model::without_breaks(s) =~= s);
    }
}

/// Whatever is typed or pasted, the composer holds a single line, so that a paste never
/// submits more than one command.
pub proof fn composer_holds_a_single_line(app: AppModel, added: Seq<char>)
    requires
        single_line(app.input),
        app.well_formed(),
    ensures
        single_line(app.insert_text(added).input),
        single_line(app.delete_input().input),
        single_line(app.delete_forward_input().input),
{
    lemma_without_breaks(added);
    composer::lemma_cursor(app.input, app.input_cursor);
    let kept = model::without_breaks(added);
    let k = app.caret();
    let after = app.insert_text(added).input;
    assert forall|i: int| 0 <= i < after.len() implies (#[trigger] after[i]) != '\r' && after[i]
        != '\n' by {
        if i < k {
            assert(after[i] == app.input[i]);
        } else if i < k + kept.len() {
            assert(after[i] == kept[i - k]);
        } else {
            assert(after[i] == app.input[i - kept.len()]);
        }
    }
    let shorter = app.delete_input().input;
    assert forall|i: int| 0 <= i < shorter.len() implies (#[trigger] shorter[i]) != '\r'
        && shorter[i] != '\n' by {
        if app.input_cursor == 0 || i < k - 1 {
            assert(shorter[i] == app.input[i]);
        } else {
            assert(shorter[i] == app.input[i + 1]);
        }
    }
    let forward = app.delete_forward_input().input;
    assert forall|i: int| 0 <= i < forward.len() implies (#[trigger] forward[i]) != '\r'
        && forward[i] != '\n' by {
        if app.input_cursor >= text::byte_len(app.input) || i < k {
            assert(forward[i] == app.input[i]);
        } else {
            assert(forward[i] == app.input[i + 1]);
        }
    }
}

/// Text without line breaks that is inserted stands at the cursor as it is.
pub proof fn inserted_text_stands_at_the_cursor(app: AppModel, added: Seq<char>)
    requires
        app.well_formed(),
        single_line(added),
    ensures
        app.insert_text(added).input == app.input.take(app.caret()) + added + app.input.skip(
            app.caret(),
        ),
        app.insert_text(added).caret() == app.caret() + added.len(),
{
    lemma_without_breaks(added);
    composer::lemma_cursor(app.input, app.input_cursor);
    let front = app.input.take(app.caret());
    text::lemma_byte_len_concat(front, added);
    composer::lemma_boundary_behind(front + added, app.input.skip(app.caret()));
}

/// Deleting backwards undoes typing a character.
pub proof fn deleting_undoes_typing(app: AppModel, c: char)
    requires
        app.well_formed(),
        c != '\r' && c != '\n',
    ensures
        app.insert_text(seq![c]).delete_input().input == app.input,
        app.insert_text(seq![c]).delete_input().input_cursor == app.input_cursor,
{
    let typed = app.insert_text(seq![c]);
    let k = app.caret();
    inserted_text_stands_at_the_cursor(app, seq![c]);
    composer::lemma_cursor(app.input, app.input_cursor);
    let front = app.input.take(k);
    text::lemma_byte_len_concat(front, seq![c]);
    lemma_without_breaks(seq![c]);
    composer::lemma_boundary_behind(front + seq![c], app.input.skip(k));
    composer::lemma_cursor(typed.input, typed.input_cursor);
    assert(typed.input.take(k) =~= front);
    assert(typed.input.skip(k + 1) =~= app.input.skip(k));
    assert(front + app.input.skip(k) =~= app.input);
}

/// Moving the cursor left undoes moving it right over a character, and the other way round.
pub proof fn cursor_moves_are_reversible(app: AppModel)
    requires
        app.well_formed(),
    ensures
        app.caret() < app.input.len() ==> app.move_input_cursor(true).move_input_cursor(
            false,
        ).input_cursor == app.input_cursor,
        app.caret() > 0 ==> app.move_input_cursor(false).move_input_cursor(true).input_cursor
            == app.input_cursor,
{
    let k = app.caret();
    composer::lemma_cursor(app.input, app.input_cursor);
    if k < app.input.len() {
        text::lemma_caret_of_offset(app.input, k + 1);
    }
    if k > 0 {
        text::lemma_caret_of_offset(app.input, k - 1);
    }
}

/// Going back to the newest command and forth again restores the draft.
pub proof fn recalling_keeps_the_draft(app: AppModel)
    requires
        app.command_history.len() > 0,
        app.command_history.len() <= usize::MAX,
        app.history_index is None,
    ensures
        app.recall_history(true).input == app.command_history.last(),
        app.recall_history(true).recall_history(false).input == app.input,
        app.recall_history(true).recall_history(false).history_index is None,
        app.recall_history(true).recall_history(false).history_draft.len() == 0,
        app.recall_history(true).recall_history(false).command_history == app.command_history,
{
}

/// No two neighbours of `history` are equal.
pub open spec fn no_repetition(history: Seq<Seq<char>>) -> bool {
    forall|i: int| 0 < i < history.len() ==> history[i - 1] != #[trigger] history[i]
}

/// The history holds the latest commands, not too many of them, and no command twice in a
/// row.
pub proof fn history_is_bounded(app: AppModel, command: Seq<char>)
    requires
        app.command_history.len() <= MAX_COMMAND_HISTORY,
        no_repetition(app.command_history),
    ensures
        app.record_command(command).command_history.len() <= MAX_COMMAND_HISTORY,
        no_repetition(app.record_command(command).command_history),
        app.record_command(command).command_history.len() > 0,
        app.record_command(command).command_history.last() == command,
{
    let longer = app.command_history.push(command);
    let after = app.record_command(command).command_history;
    if longer.len() > MAX_COMMAND_HISTORY && after != app.command_history {
        assert forall|i: int| 0 < i < after.len() implies after[i - 1] != #[trigger] after[i] by {
            assert(after[i] == longer[i + 1]);
            assert(after[i - 1] == longer[i]);
        }
    }
}

// ---------------------------------------------------------------------------
// The palette
// ---------------------------------------------------------------------------

/// What matches begins with the query, is in the list, and is all of that.
proof fn lemma_matching(list: Seq<SlashView>, query: Seq<char>)
    ensures
        forall|i: int|
            0 <= i < model::matching(list, query).len() ==> text::begins_with(
                (#[trigger] model::matching(list, query)[i]).command,
                query,
            ) && list.contains(model::matching(list, query)[i]),
        forall|i: int|
            0 <= i < list.len() && text::begins_with((#[trigger] list[i]).command, query)
                ==> model::matching(list, query).contains(list[i]),
    decreases list.len(),
{
    if list.len() > 0 {
        let rest = list.drop_last();
        let found = model::matching(list, query);
        let before = model::matching(rest, query);
        lemma_matching(rest, query);
        assert forall|i: int| 0 <= i < found.len() implies text::begins_with(
            (#[trigger] found[i]).command,
            query,
        ) && list.contains(found[i]) by {
            if i < before.len() {
                assert(found[i] == before[i]);
                assert(rest.contains(before[i]));
                let j = choose|j: int| 0 <= j < rest.len() && rest[j] == before[i];
                assert(list[j] == found[i]);
            } else {
                assert(list[list.len() - 1] == found[i]);
            }
        }
        assert forall|i: int|
            0 <= i < list.len() && text::begins_with(
                (#[trigger] list[i]).command,
                query,
            ) implies found.contains(list[i]) by {
            if i < rest.len() {
                assert(list[i] == rest[i]);
                assert(before.contains(rest[i]));
                let j = choose|j: int| 0 <= j < before.len() && before[j] == rest[i];
                assert(found[j] == list[i]);
            } else {
                assert(found[found.len() - 1] == list[i]);
            }
        }
    }
}

/// The palette offers the commands that complete what was typed, all of them and no others.
pub proof fn suggestions_complete_what_was_typed(app: AppModel, command: SlashView)
    requires
        command::begins_with_slash(text::lowered(text::trimmed_start(app.input))),
    ensures
        app.suggested_commands().contains(command) <==> app.offered_commands().contains(command)
            && text::begins_with(
            command.command,
            text::lowered(text::trimmed_start(app.input)),
        ),
{
    let query = text::lowered(text::trimmed_start(app.input));
    let offered = app.offered_commands();
    let found = app.suggested_commands();
    lemma_matching(offered, query);
    if found.contains(command) {
        let i = choose|i: int| 0 <= i < found.len() && found[i] == command;
        assert(offered.contains(found[i]));
    }
    if offered.contains(command) && text::begins_with(command.command, query) {
        let i = choose|i: int| 0 <= i < offered.len() && offered[i] == command;
        assert(found.contains(offered[i]));
    }
}

/// The selection stays among the suggestions, and moving it up undoes moving it down.
pub proof fn selection_goes_round(app: AppModel)
    requires
        0 <= app.palette_selection < app.suggested_commands().len(),
    ensures
        0 <= app.select_next_command(true).palette_selection < app.suggested_commands().len(),
        0 <= app.select_next_command(false).palette_selection < app.suggested_commands().len(),
        app.select_next_command(true).select_next_command(false).palette_selection
            == app.palette_selection,
        app.select_next_command(false).select_next_command(true).palette_selection
            == app.palette_selection,
{
    let n = app.suggested_commands().len() as int;
    let s = app.palette_selection;
    assert(app.select_next_command(true).suggested_commands() == app.suggested_commands());
    assert(app.select_next_command(false).suggested_commands() == app.suggested_commands());
    lemma_wraps(s + 1, n);
    lemma_wraps(s + n - 1, n);
    let down = app.select_next_command(true).palette_selection;
    let up = app.select_next_command(false).palette_selection;
    lemma_wraps(down + n - 1, n);
    lemma_wraps(up + 1, n);
}

/// The remainder of a number below twice the divisor.
proof fn lemma_wraps(a: int, n: int)
    requires
        0 <= a < 2 * n,
    ensures
        a % n == (if a < n {
            a
        } else {
            a - n
        }),
{
    if a < n {
        vstd::arithmetic::div_mod::lemma_small_mod(a as nat, n as nat);
    } else {
        vstd::arithmetic::div_mod::lemma_mod_add_multiples_vanish(a - n, n);
        vstd::arithmetic::div_mod::lemma_small_mod((a - n) as nat, n as nat);
    }
}

// ---------------------------------------------------------------------------
// Scrolling and copying
// ---------------------------------------------------------------------------

/// The transcript after `n` steps down.
pub open spec fn scrolled_down(app: AppModel, n: nat, max: int) -> AppModel
    decreases n,
{
    if n == 0 {
        app
    } else {
        scrolled_down(app, (n - 1) as nat, max).scroll_transcript(true, max)
    }
}

/// While it follows, the transcript is pinned to its newest output, as far as 16 bits go.
pub proof fn following_pins_to_the_bottom(app: AppModel, max: int)
    requires
        app.transcript_follow,
    ensures
        app.follow_transcript(max).transcript_scroll == model::lowest_offset(max),
        max <= u16::MAX ==> app.follow_transcript(max).transcript_scroll == max,
        app.follow_transcript(max).transcript_follow,
{
}

/// Scrolling up from the bottom moves by one row and ends following.
pub proof fn scrolling_up_ends_following(app: AppModel, max: int)
    requires
        0 < max,
        app.transcript_scroll == model::lowest_offset(max),
    ensures
        app.scroll_transcript(false, max).transcript_scroll == app.transcript_scroll - 1,
        !app.scroll_transcript(false, max).transcript_follow,
{
}

/// The transcript follows after a step exactly if it shows the bottom then, and never
/// scrolls past it.
pub proof fn bottom_resumes_following(app: AppModel, down: bool, max: int)
    requires
        0 <= max,
        0 <= app.transcript_scroll <= u16::MAX,
    ensures
        0 <= app.scroll_transcript(down, max).transcript_scroll <= model::lowest_offset(max),
        app.scroll_transcript(down, max).transcript_follow <==> app.scroll_transcript(
            down,
            max,
        ).transcript_scroll == max,
{
}

/// Enough steps down show the bottom, as far as 16 bits go; the transcript follows again
/// exactly if that is the bottom.
pub proof fn scrolling_down_reaches_the_bottom(app: AppModel, n: nat, max: int)
    requires
        0 <= max,
        0 <= app.transcript_scroll <= model::lowest_offset(max),
        n > 0,
        app.transcript_scroll + n >= model::lowest_offset(max),
    ensures
        scrolled_down(app, n, max).transcript_scroll == model::lowest_offset(max),
        scrolled_down(app, n, max).transcript_follow <==> max <= u16::MAX,
{
    lemma_scrolled_down(app, (n - 1) as nat, max);
}

/// Steps down add up, and end at the bottom.
proof fn lemma_scrolled_down(app: AppModel, n: nat, max: int)
    requires
        0 <= max,
        0 <= app.transcript_scroll <= model::lowest_offset(max),
    ensures
        scrolled_down(app, n, max).transcript_scroll == (if app.transcript_scroll + n
            < model::lowest_offset(max) {
            app.transcript_scroll + n
        } else {
            model::lowest_offset(max)
        }),
    decreases n,
{
    if n > 0 {
        lemma_scrolled_down(app, (n - 1) as nat, max);
    }
}

/// Which pane has the focus makes no difference to where the transcript ends.
pub proof fn focus_does_not_move_the_transcript(
    app: AppModel,
    backwards: bool,
    lines: Seq<Seq<char>>,
)
    ensures
        app.cycle_active_pane(backwards).transcript_max_scroll(lines)
            == app.transcript_max_scroll(lines),
        app.cycle_active_pane(backwards).panels(app.terminal_size) == app.panels(
            app.terminal_size,
        ),
{
}

/// A copy takes the focused pane and nothing else: what the screen shows outside of it makes
/// no difference.
pub proof fn copy_takes_the_focused_pane_alone(app: AppModel, a: Screen, b: Screen)
    requires
        layout::agree_inside(a, b, app.active_pane_rect(app.terminal_size)),
    ensures
        app.copied_text(Some(a)) == app.copied_text(Some(b)),
{
    layout::region_text_depends_on_its_cells(a, b, app.active_pane_rect(app.terminal_size));
}

// ---------------------------------------------------------------------------
// Identifiers
// ---------------------------------------------------------------------------

/// Different digits look different.
proof fn lemma_digit_injective(a: nat, b: nat)
    requires
        a < 10,
        b < 10,
        text::digit(a) == text::digit(b),
    ensures
        a == b,
{
}

/// Different numbers have different numerals.
proof fn lemma_decimal_injective(a: nat, b: nat)
    requires
        text::decimal(a) == text::decimal(b),
    ensures
        a == b,
    decreases a,
{
    let x = text::decimal(a);
    let y = text::decimal(b);
    lemma_decimal_len(a);
    lemma_decimal_len(b);
    assert(x.last() == text::digit(a % 10));
    assert(y.last() == text::digit(b % 10));
    lemma_digit_injective(a % 10, b % 10);
    if a >= 10 {
        assert(x.drop_last() =~= text::decimal(a / 10));
        assert(y.drop_last() =~= text::decimal(b / 10));
        lemma_decimal_injective(a / 10, b / 10);
    }
}

/// A numeral has one digit exactly for a number below ten.
proof fn lemma_decimal_len(n: nat)
    ensures
        text::decimal(n).len() >= 1,
        n >= 10 <==> text::decimal(n).len() >= 2,
    decreases n,
{
    if n >= 10 {
        lemma_decimal_len(n / 10);
    }
}

/// Two requests of a process that are numbered one after the other have different
/// identifiers, as long as there are numbers left; so have two tasks.
pub proof fn identifiers_are_distinct(a: AppModel, b: AppModel)
    requires
        a.process_id == b.process_id,
        a.request_counter < b.request_counter < u64::MAX,
    ensures
        a.next_id() != b.next_id(),
        a.next_task_id() != b.next_task_id(),
{
    let x = text::decimal((a.request_counter + 1) as nat);
    let y = text::decimal((b.request_counter + 1) as nat);
    let process = text::decimal(a.process_id as nat);
    if a.next_id() == b.next_id() {
        lemma_same_rest("rust-"@ + process + "-"@, x, y);
        lemma_decimal_injective((a.request_counter + 1) as nat, (b.request_counter + 1) as nat);
    }
    if a.next_task_id() == b.next_task_id() {
        lemma_same_rest("task-"@ + process + "-"@, x, y);
        lemma_decimal_injective((a.request_counter + 1) as nat, (b.request_counter + 1) as nat);
    }
}

/// Texts with the same front part differ in the rest.
proof fn lemma_same_rest(front: Seq<char>, x: Seq<char>, y: Seq<char>)
    requires
        front + x == front + y,
    ensures
        x == y,
{
    assert(x =~= (front + x).skip(front.len() as int));
    assert(y =~= (front + y).skip(front.len() as int));
}

/// Each request that is handed out is numbered with a number of its own.
pub proof fn every_request_is_numbered(app: AppModel, now: Instant)
    requires
        app.request_counter < u64::MAX,
    ensures
        app.submit().1 matches Some(dispatch) ==> dispatch.request.request_id == app.next_id()
            && app.submit().0.request_counter == app.request_counter + 1,
        app.confirm_task(now).1 matches Some(dispatch) ==> dispatch.request.request_id
            == app.next_id() && app.confirm_task(now).0.request_counter == app.request_counter + 1,
        app.stop_worker().1 matches Some(dispatch) ==> dispatch.request.request_id
            == app.next_id() && app.stop_worker().0.request_counter == app.request_counter + 1,
        app.shutdown_backend().1 matches Some(request) ==> request.request_id == app.next_id()
            && app.shutdown_backend().0.request_counter == app.request_counter + 1,
{
}

// ---------------------------------------------------------------------------
// What operations leave alone
// ---------------------------------------------------------------------------

/// A blank submission changes nothing, and asks nothing of the backend.
pub proof fn blank_submission_changes_nothing(app: AppModel)
    requires
        text::trimmed(app.input).len() == 0,
    ensures
        app.submit() == (app, None::<DispatchView>),
{
}

/// Cancelling without a running task changes nothing, and asks nothing of the backend.
pub proof fn cancelling_nothing_changes_nothing(app: AppModel)
    requires
        app.active_task_id is None,
    ensures
        app.stop_worker() == (app, None::<DispatchView>),
{
}

/// A management operation adds at most one error to the transcript and numbers at most one
/// request; where it asks something of the backend it says nothing. Nothing else changes.
pub proof fn control_changes_transcript_and_counter(
    app: AppModel,
    operation: Seq<char>,
    arguments: JsonView,
)
    ensures
        ({
            let (after, dispatch) = app.request_control(operation, arguments);
            &&& after == AppModel {
                transcript: after.transcript,
                request_counter: after.request_counter,
                ..app
            }
            &&& dispatch is Some ==> after.transcript == app.transcript
            &&& dispatch is None ==> after.transcript.drop_last() == app.transcript
                && after.transcript.last().kind == TranscriptKind::Error
        }),
{
    let (after, dispatch) = app.request_control(operation, arguments);
    if dispatch is None {
        assert(after.transcript.drop_last() =~= app.transcript);
    }
}

/// A copy and its outcome change the toast and nothing else.
pub proof fn copying_changes_the_toast(
    app: AppModel,
    rendered: Option<Screen>,
    copied: Seq<char>,
    delivered: bool,
)
    ensures
        app.copy_active_pane(rendered) == (AppModel {
            toast: app.copy_active_pane(rendered).toast,
            ..app
        }),
        app.finish_copy(copied, delivered) == (AppModel {
            toast: app.finish_copy(copied, delivered).toast,
            ..app
        }),
{
}

/// Typing and deleting change the composer and its history navigation and nothing else.
pub proof fn editing_changes_the_composer(app: AppModel, added: Seq<char>)
    ensures
        app.insert_text(added) == (AppModel {
            input: app.insert_text(added).input,
            input_cursor: app.insert_text(added).input_cursor,
            palette_selection: 0,
            history_index: None,
            history_draft: seq![],
            ..app
        }),
        app.delete_input() == (AppModel {
            input: app.delete_input().input,
            input_cursor: app.delete_input().input_cursor,
            palette_selection: app.delete_input().palette_selection,
            history_index: app.delete_input().history_index,
            history_draft: app.delete_input().history_draft,
            ..app
        }),
        app.delete_forward_input() == (AppModel {
            input: app.delete_forward_input().input,
            palette_selection: app.delete_forward_input().palette_selection,
            history_index: app.delete_forward_input().history_index,
            history_draft: app.delete_forward_input().history_draft,
            ..app
        }),
{
}

/// Scrolling and following change the offsets and whether the transcript follows, and nothing
/// else.
pub proof fn scrolling_changes_the_offsets(
    app: AppModel,
    down: bool,
    lines: Seq<Seq<char>>,
    max: int,
)
    ensures
        app.scroll_active_pane(down, lines) == (AppModel {
            findings_scroll: app.scroll_active_pane(down, lines).findings_scroll,
            transcript_scroll: app.scroll_active_pane(down, lines).transcript_scroll,
            transcript_follow: app.scroll_active_pane(down, lines).transcript_follow,
            ..app
        }),
        app.follow_transcript(max) == (AppModel {
            transcript_scroll: app.follow_transcript(max).transcript_scroll,
            ..app
        }),
        !app.transcript_follow ==> app.follow_transcript(max) == app,
{
}

} // verus!
