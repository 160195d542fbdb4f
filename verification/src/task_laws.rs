//! What holds of commands and tasks: what a submission does, what is asked of the backend, and
//! what becomes of a request.
use std::time::Instant;

use vstd::prelude::*;

use crate::app::TranscriptKind;
use crate::command;
use crate::event_laws;
use crate::json;
use crate::json::JsonView;
use crate::model;
use crate::model::{AppModel, DispatchView, ItemView, PurposeView, ReceiptView, SkillView};
use crate::modes::{ActivePane, ExecutionMode, PermissionMode};
use crate::protocol::RequestView;
use crate::text;
use crate::text_laws;

verus! {

// ---------------------------------------------------------------------------
// What stays
// ---------------------------------------------------------------------------

/// What is on the screen is the same, the transcript and the composer aside.
pub open spec fn same_view(after: AppModel, app: AppModel) -> bool {
    &&& after.active_pane == app.active_pane
    &&& after.findings_scroll == app.findings_scroll
    &&& after.show_reasoning == app.show_reasoning
    &&& after.running == app.running
    &&& after.process_id == app.process_id
    &&& after.show_attack_chain == app.show_attack_chain
    &&& after.terminal_size == app.terminal_size
    &&& after.toast == app.toast
}

/// The postures are the same.
pub open spec fn same_postures(after: AppModel, app: AppModel) -> bool {
    after.mode == app.mode && after.permission == app.permission
}

/// The composer and the history of commands are the same.
pub open spec fn same_composer(after: AppModel, app: AppModel) -> bool {
    &&& after.input == app.input
    &&& after.input_cursor == app.input_cursor
    &&& after.palette_selection == app.palette_selection
    &&& after.command_history == app.command_history
    &&& after.history_index == app.history_index
    &&& after.history_draft == app.history_draft
}

/// Where the transcript stands is the same.
pub open spec fn same_scroll(after: AppModel, app: AppModel) -> bool {
    after.transcript_scroll == app.transcript_scroll && after.transcript_follow
        == app.transcript_follow
}

/// What the session knows is the same: what the backend can do and what it reported.
pub open spec fn same_session(after: AppModel, app: AppModel) -> bool {
    &&& event_laws::same_backend(after, app)
    &&& event_laws::same_business(after, app)
    &&& event_laws::same_receipts(after, app)
}

/// The item that stands for `text` in the transcript.
pub open spec fn item(kind: TranscriptKind, text: Seq<char>) -> ItemView {
    ItemView { kind, text }
}

// ---------------------------------------------------------------------------
// Bookkeeping
// ---------------------------------------------------------------------------

/// An entry of any kind comes behind the others, and nothing else changes.
pub proof fn entries_come_behind_the_others(
    app: AppModel,
    kind: TranscriptKind,
    text: Seq<char>,
)
    ensures
        app.push(kind, text).transcript == app.transcript.push(item(kind, text)),
        event_laws::same_desk(app.push(kind, text), app),
        same_session(app.push(kind, text), app),
        app.status(text) == app.push(TranscriptKind::Status, text),
        app.error(text) == app.push(TranscriptKind::Error, text),
{
}

/// A phase is put into the receipt of the running task, and a count into it too, and nothing else
/// changes; without such a receipt nothing changes at all.
pub proof fn receipts_are_kept(app: AppModel, phase: Seq<char>)
    ensures
        ({
            let phased = app.update_receipt(phase);
            let counted = app.count_findings();
            &&& phased.active_receipt == event_laws::in_phase(app.active_receipt, phase)
            &&& counted.active_receipt == event_laws::counting(
                app.active_receipt,
                app.findings.len() as int,
            )
            &&& phased.last_receipt == app.last_receipt
            &&& counted.last_receipt == app.last_receipt
            &&& phased.worker_started_at == app.worker_started_at
            &&& counted.worker_started_at == app.worker_started_at
            &&& phased.transcript == app.transcript
            &&& counted.transcript == app.transcript
            &&& event_laws::same_desk(phased, app)
            &&& event_laws::same_desk(counted, app)
            &&& event_laws::same_backend(phased, app)
            &&& event_laws::same_backend(counted, app)
            &&& event_laws::same_business(phased, app)
            &&& event_laws::same_business(counted, app)
        }),
{
}

/// A task that has ended does not run any more; its receipt is the latest, with the phase of its
/// end and the findings there are. Nothing else changes.
pub proof fn ended_tasks_leave_a_receipt(app: AppModel, phase: Seq<char>)
    ensures
        ({
            let after = app.finish_task(phase);
            &&& !after.worker_active
            &&& after.active_task_id is None
            &&& after.worker_started_at is None
            &&& after.active_receipt is None
            &&& after.last_receipt == event_laws::closed(
                app.active_receipt,
                app.last_receipt,
                phase,
                app.findings.len() as int,
            )
            &&& after.transcript == app.transcript
            &&& event_laws::same_desk(after, app)
            &&& event_laws::same_backend(after, app)
            &&& after.target == app.target
            &&& after.phase == app.phase
            &&& after.findings == app.findings
            &&& after.task_constraints == app.task_constraints
            &&& after.last_run == app.last_run
            &&& after.evidence == app.evidence
            &&& after.constraint_violations == app.constraint_violations
        }),
{
}

// ---------------------------------------------------------------------------
// Identifiers
// ---------------------------------------------------------------------------

/// The identifiers of a request and of a task name the process and the number of the request,
/// which is one more than that of the last one.
pub proof fn identifiers_tell_process_and_number(app: AppModel)
    requires
        app.request_counter < u64::MAX,
    ensures
        app.next_id() == "rust-"@ + text::decimal(app.process_id as nat) + "-"@ + text::decimal(
            (app.request_counter + 1) as nat,
        ),
        app.next_task_id() == "task-"@ + text::decimal(app.process_id as nat) + "-"@
            + text::decimal((app.request_counter + 1) as nat),
        app.bumped() == (AppModel { request_counter: (app.request_counter + 1) as u64, ..app }),
{
}

/// Once there are no numbers left, the last one is used again.
pub proof fn the_last_number_is_used_again(app: AppModel)
    requires
        app.request_counter == u64::MAX,
    ensures
        app.next_id() == "rust-"@ + text::decimal(app.process_id as nat) + "-"@ + text::decimal(
            app.request_counter as nat,
        ),
        app.bumped() == app,
{
}

// ---------------------------------------------------------------------------
// What was typed
// ---------------------------------------------------------------------------

/// A command is what was typed between blank text.
pub proof fn commands_are_what_was_typed(
    app: AppModel,
    front: Seq<char>,
    command: Seq<char>,
    back: Seq<char>,
)
    requires
        app.input == front + command + back,
        text_laws::blank(front),
        text_laws::blank(back),
        text_laws::tight(command),
        !command.contains('>'),
    ensures
        app.typed_command() == command,
{
    text_laws::trimming_finds_the_core(front, command, back);
    assert forall|i: int| 0 <= i < command.len() implies command[i] != '>' by {
        if command[i] == '>' {
            assert(command.contains('>'));
        }
    }
    text_laws::texts_without_a_prompt_are_kept(command);
}

/// A prompt that was pasted along with a command is not part of it: what follows the last `>` that
/// a command follows is the command.
pub proof fn pasted_prompts_are_no_part_of_a_command(
    app: AppModel,
    front: Seq<char>,
    before: Seq<char>,
    rest: Seq<char>,
    back: Seq<char>,
)
    requires
        app.input == front + (before + seq!['>'] + rest) + back,
        text_laws::blank(front),
        text_laws::blank(back),
        text_laws::tight(before + seq!['>'] + rest),
        text::trimmed_start(rest).len() > 0 && text::trimmed_start(rest)[0] == '/',
        forall|i: int|
            0 <= i < rest.len() && rest[i] == '>' ==> {
                let tail = text::trimmed_start(#[trigger] rest.skip(i + 1));
                tail.len() == 0 || tail[0] != '/'
            },
    ensures
        app.typed_command() == text::trimmed_start(rest),
{
    text_laws::trimming_finds_the_core(front, before + seq!['>'] + rest, back);
    text_laws::the_last_prompt_decides(before, rest);
}

/// A `>` that no command follows is part of what was typed.
pub proof fn other_marks_are_part_of_a_command(
    app: AppModel,
    front: Seq<char>,
    command: Seq<char>,
    back: Seq<char>,
)
    requires
        app.input == front + command + back,
        text_laws::blank(front),
        text_laws::blank(back),
        text_laws::tight(command),
        forall|i: int|
            0 <= i < command.len() && command[i] == '>' ==> {
                let tail = text::trimmed_start(#[trigger] command.skip(i + 1));
                tail.len() == 0 || tail[0] != '/'
            },
    ensures
        app.typed_command() == command,
{
    text_laws::trimming_finds_the_core(front, command, back);
    text_laws::texts_without_a_prompt_are_kept(command);
    text_laws::leading_white_space_is_cut(seq![], command);
    assert(seq![] + command =~= command);
}

// ---------------------------------------------------------------------------
// Submitting
// ---------------------------------------------------------------------------

/// Every submission empties the composer, ends the navigation of the history, and leaves the
/// view, the postures and the session alone.
pub proof fn submissions_leave_the_session(app: AppModel)
    ensures
        ({
            let after = app.submit().0;
            &&& same_view(after, app)
            &&& same_postures(after, app)
            &&& same_session(after, app)
            &&& app.typed_command() != "/clear"@ ==> same_scroll(after, app)
            &&& app.typed_command().len() == 0 ==> same_composer(after, app) && app.submit().1
                is None
            &&& app.typed_command().len() > 0 ==> {
                &&& after.input.len() == 0
                &&& after.input_cursor == 0
                &&& after.palette_selection == 0
                &&& after.history_index is None
                &&& after.history_draft.len() == 0
            }
        }),
{
}

/// A command enters the history behind the others, unless it repeats the last one; beyond fifty
/// the oldest goes.
pub proof fn history_keeps_the_latest_in_order(app: AppModel, command: Seq<char>)
    requires
        app.command_history.len() <= 50,
    ensures
        ({
            let before = app.command_history;
            let after = app.record_command(command).command_history;
            if before.len() > 0 && before[before.len() - 1] == command {
                after == before
            } else if before.len() < 50 {
                after == before.push(command)
            } else {
                after == before.skip(1).push(command)
            }
        }),
        app.record_command(command).history_index is None,
        app.record_command(command).history_draft.len() == 0,
        app.record_command(command).input == app.input,
        app.record_command(command).input_cursor == app.input_cursor,
        app.record_command(command).transcript == app.transcript,
{
    let before = app.command_history;
    let after = app.record_command(command).command_history;
    if !(before.len() > 0 && before[before.len() - 1] == command) && before.len() == 50 {
        assert(before.push(command).drop_first() =~= before.skip(1).push(command));
    }
}

/// A submission records its command.
pub proof fn submissions_are_recorded(app: AppModel)
    requires
        app.typed_command().len() > 0,
    ensures
        app.submit().0.command_history == app.record_command(app.typed_command()).command_history,
{
}

/// A command that was submitted is the first that is recalled.
pub proof fn submitted_commands_can_be_recalled(app: AppModel)
    requires
        app.typed_command().len() > 0,
        app.command_history.len() <= 50,
    ensures
        app.submit().0.recall_history(true).input == app.typed_command(),
        app.submit().0.recall_history(true).recall_history(false).input.len() == 0,
{
    submissions_leave_the_session(app);
    submissions_are_recorded(app);
    history_keeps_the_latest_in_order(app, app.typed_command());
}

/// The transcript with the echo of a submitted command.
pub open spec fn echoed(transcript: Seq<ItemView>, command: Seq<char>) -> Seq<ItemView> {
    transcript.push(item(TranscriptKind::User, "> "@ + command))
}

/// Asking for help is answered with what can be typed, and asks nothing of the backend.
pub proof fn help_lists_the_commands(app: AppModel)
    requires
        app.typed_command() == "/help"@,
    ensures
        ({
            let verbs = app.backend_commands;
            &&& app.submit().0.transcript == echoed(app.transcript, "/help"@).push(
                item(
                    TranscriptKind::Status,
                    "Backend tasks: "@ + (if verbs.len() == 0 {
                        "none advertised yet"@
                    } else {
                        model::usages(verbs)
                    })
                        + ". Local commands: /scope, /report, /config, /clear, /help. Ctrl+C aborts a running command."@,
                ),
            )
            &&& app.submit().0.pending_task == app.pending_task
            &&& app.submit().0.request_counter == app.request_counter
            &&& app.submit().1 is None
        }),
{
    reveal_strlit("/help");
}

/// The usages of a list of verbs are the usage of each, with commas between them.
pub proof fn usages_name_each_verb(verbs: Seq<Seq<char>>, verb: Seq<char>)
    ensures
        model::usages(seq![verb]) == "/"@ + verb + " <target>"@,
        verbs.len() > 0 ==> model::usages(verbs.push(verb)) == model::usages(verbs) + ", "@ + "/"@
            + verb + " <target>"@,
{
    if verbs.len() > 0 {
        let longer = verbs.push(verb);
        assert(longer.drop_last() =~= verbs);
        assert(model::usages(longer) =~= model::usages(verbs) + ", "@ + "/"@ + verb
            + " <target>"@);
    }
}

/// `/clear` leaves one line in the transcript, which follows again from its top.
pub proof fn clearing_leaves_one_line(app: AppModel)
    requires
        app.typed_command() == "/clear"@,
    ensures
        app.submit().0.transcript == seq![
            item(
                TranscriptKind::Status,
                "Transcript cleared. Findings remain available in the inspector."@,
            ),
        ],
        app.submit().0.transcript_scroll == 0,
        app.submit().0.transcript_follow,
        app.submit().0.pending_task == app.pending_task,
        app.submit().0.request_counter == app.request_counter,
        app.submit().1 is None,
{
    lemma_local_commands();
    assert(app.submit().0.transcript =~= seq![
        item(
            TranscriptKind::Status,
            "Transcript cleared. Findings remain available in the inspector."@,
        ),
    ]);
}

/// The local commands without arguments are not empty and differ.
proof fn lemma_local_commands()
    ensures
        "/help"@.len() == 5,
        "/clear"@.len() == 6,
        "/report"@.len() == 7,
        "/config"@.len() == 7,
        "/report"@ != "/config"@,
{
    reveal_strlit("/help");
    reveal_strlit("/clear");
    reveal_strlit("/report");
    reveal_strlit("/config");
    assert("/report"@[1] == 'r' && "/config"@[1] == 'c');
}

/// `/report` and `/config` are answered with advice, and ask nothing of the backend.
pub proof fn advice_is_given(app: AppModel)
    requires
        app.typed_command() == "/report"@ || app.typed_command() == "/config"@,
    ensures
        app.submit().0.transcript == echoed(app.transcript, app.typed_command()).push(
            item(
                TranscriptKind::Status,
                if app.typed_command() == "/report"@ {
                    "Use vulnclaw report <result.json> [--pdf] to write the report; the TUI shows findings live."@
                } else {
                    "Use vulnclaw config set <key> <value> for llm.provider / llm.api_key / llm.base_url / llm.model."@
                },
            ),
        ),
        app.submit().0.pending_task == app.pending_task,
        app.submit().0.request_counter == app.request_counter,
        app.submit().1 is None,
{
    lemma_local_commands();
}

/// The command is one that the terminal answers itself without arguments.
pub open spec fn is_plain_local(command: Seq<char>) -> bool {
    command == "/help"@ || command == "/clear"@ || command == "/report"@ || command == "/config"@
}

/// What is no slash command, or has a verb that nobody knows, is refused with its own words, and
/// arms nothing and asks nothing.
pub proof fn unknown_commands_are_refused(app: AppModel)
    requires
        app.typed_command().len() > 0,
        !is_plain_local(app.typed_command()),
        command::slash_parts(app.typed_command()) matches Some((verb, _)) ==> verb != "scope"@
            && !app.backend_commands.contains(verb),
    ensures
        app.submit().0.transcript == echoed(app.transcript, app.typed_command()).push(
            item(TranscriptKind::Error, "Unknown command: "@ + app.typed_command()),
        ),
        app.submit().0.pending_task == app.pending_task,
        app.submit().0.request_counter == app.request_counter,
        app.submit().1 is None,
{
}

/// A task command arms its text: a slash, the verb, a space and the trimmed arguments. In plan
/// mode and without arguments nothing is armed, and the user is told why.
pub proof fn task_commands_arm_their_text(
    app: AppModel,
    verb: Seq<char>,
    gap: Seq<char>,
    arguments: Seq<char>,
)
    requires
        verb.len() > 0,
        text_laws::solid(verb),
        text_laws::blank(gap),
        arguments.len() > 0 ==> gap.len() > 0 && !text::is_white_space(arguments[0]),
        app.typed_command() == seq!['/'] + verb + gap + arguments,
        !is_plain_local(app.typed_command()),
        verb != "scope"@,
        app.backend_commands.contains(verb),
    ensures
        ({
            let after = app.submit().0;
            let trimmed = text::trimmed(arguments);
            let armed = app.mode != ExecutionMode::Plan && trimmed.len() > 0;
            &&& app.submit().1 is None
            &&& after.request_counter == app.request_counter
            &&& after.pending_task == (if armed {
                Some(seq!['/'] + verb + seq![' '] + trimmed)
            } else {
                app.pending_task
            })
            &&& after.transcript == echoed(app.transcript, app.typed_command()).push(
                if armed {
                    item(
                        TranscriptKind::Status,
                        "/"@ + verb + " armed for "@ + command::first_word(trimmed)
                            + ". Press Y to run, or Esc to cancel."@,
                    )
                } else if app.mode == ExecutionMode::Plan {
                    item(
                        TranscriptKind::Error,
                        "Plan mode is read-only. Press Tab to switch to Agent before running a task."@,
                    )
                } else {
                    item(
                        TranscriptKind::Error,
                        "/"@ + verb + " requires a target: /"@ + verb
                            + " <target> [--only-port N] [--only-host H] [--blocked-host H]"@,
                    )
                },
            )
        }),
{
    text_laws::slash_commands_are_split(verb, gap, arguments);
    reveal_strlit("/");
    reveal_strlit(" ");
    let trimmed = text::trimmed(arguments);
    assert("/"@ + verb + " "@ + trimmed =~= seq!['/'] + verb + seq![' '] + trimmed);
}

/// A task that is asked for is armed as a slash, its verb, a space and what its arguments are
/// between blank text, unless they are blank or the mode is plan; then nothing is armed. The user
/// is told, and nothing else changes.
pub proof fn requested_tasks_are_armed(
    app: AppModel,
    verb: Seq<char>,
    front: Seq<char>,
    core: Seq<char>,
    back: Seq<char>,
)
    requires
        text_laws::blank(front),
        text_laws::blank(back),
        text_laws::tight(core),
    ensures
        ({
            let after = app.request_task(verb, front + core + back);
            let armed = app.mode != ExecutionMode::Plan && core.len() > 0;
            &&& after.pending_task == (if armed {
                Some(seq!['/'] + verb + seq![' '] + core)
            } else {
                app.pending_task
            })
            &&& after.transcript.len() == app.transcript.len() + 1
            &&& after.transcript.take(app.transcript.len() as int) == app.transcript
            &&& after.transcript[app.transcript.len() as int].kind == (if armed {
                TranscriptKind::Status
            } else {
                TranscriptKind::Error
            })
            &&& after.request_counter == app.request_counter
            &&& same_view(after, app)
            &&& same_postures(after, app)
            &&& same_composer(after, app)
            &&& same_scroll(after, app)
            &&& same_session(after, app)
        }),
{
    text_laws::trimming_finds_the_core(front, core, back);
    reveal_strlit("/");
    reveal_strlit(" ");
    assert("/"@ + verb + " "@ + core =~= seq!['/'] + verb + seq![' '] + core);
    let after = app.request_task(verb, front + core + back);
    assert(after.transcript.take(app.transcript.len() as int) =~= app.transcript);
}

/// A task that is started is sent exactly if none runs and the backend is ready and connected,
/// with its command line, character for character, whatever else is armed.
pub proof fn started_tasks_are_sent(app: AppModel, command_line: Seq<char>, now: Instant)
    ensures
        ({
            let (after, dispatch) = app.start_task(command_line, now);
            &&& dispatch is Some <==> !app.worker_active && app.backend_ready
                && app.backend_connected
            &&& dispatch matches Some(sent) ==> {
                &&& sent.purpose == PurposeView::StartTask
                &&& sent.request.kind == "start_task"@
                &&& sent.request.request_id == app.next_id()
                &&& sent.request.task_id == Some(app.next_task_id())
                &&& sent.request.payload == JsonView::Object(
                    seq![("command_line"@, JsonView::Text(command_line))],
                )
                &&& after.active_task_id == sent.request.task_id
                &&& after.worker_active
                &&& after.worker_started_at == Some(now)
                &&& after.transcript == app.transcript
            }
            &&& dispatch is None && (app.worker_active || !app.backend_ready)
                ==> after.worker_active == app.worker_active && after.active_task_id
                == app.active_task_id && event_laws::same_receipts(after, app)
            &&& dispatch is None && !app.worker_active && app.backend_ready
                ==> !after.worker_active && after.active_task_id is None
            &&& after.pending_task == app.pending_task
            &&& event_laws::same_backend(after, app)
            &&& same_view(after, app)
            &&& same_postures(after, app)
            &&& same_composer(after, app)
            &&& same_scroll(after, app)
        }),
{
}

// ---------------------------------------------------------------------------
// Confirming
// ---------------------------------------------------------------------------

/// Confirming hands out a request exactly if a task is armed, none runs, and the backend is ready
/// and connected. The request starts a task, under an identifier of its own, and its payload holds
/// the text that was armed, character for character, and nothing else.
pub proof fn confirming_sends_the_armed_text(app: AppModel, now: Instant)
    ensures
        app.confirm_task(now).1 is Some <==> app.pending_task is Some && !app.worker_active
            && app.backend_ready && app.backend_connected,
        app.confirm_task(now).1 matches Some(dispatch) ==> {
            &&& dispatch.purpose == PurposeView::StartTask
            &&& dispatch.request.protocol_version == 1
            &&& dispatch.request.kind == "start_task"@
            &&& dispatch.request.request_id == app.next_id()
            &&& dispatch.request.task_id == Some(app.next_task_id())
            &&& dispatch.request.payload.text_at("command_line"@) == app.pending_task
            &&& dispatch.request.payload == JsonView::Object(
                seq![("command_line"@, JsonView::Text(app.pending_task->Some_0))],
            )
        },
{
    if let Some(dispatch) = app.confirm_task(now).1 {
        json::lemma_lookup_first(dispatch.request.payload->Object_0, 0);
    }
}

/// A task command that is submitted and confirmed reaches the backend as a slash, the verb, a
/// space and the trimmed arguments, whatever they are.
pub proof fn submitted_commands_reach_the_backend(
    app: AppModel,
    verb: Seq<char>,
    gap: Seq<char>,
    arguments: Seq<char>,
    now: Instant,
)
    requires
        verb.len() > 0,
        text_laws::solid(verb),
        text_laws::blank(gap),
        gap.len() > 0,
        arguments.len() > 0,
        text_laws::tight(arguments),
        app.typed_command() == seq!['/'] + verb + gap + arguments,
        !is_plain_local(app.typed_command()),
        verb != "scope"@,
        app.backend_commands.contains(verb),
        app.mode != ExecutionMode::Plan,
        !app.worker_active,
        app.backend_ready,
        app.backend_connected,
    ensures
        app.submit().0.confirm_task(now).1 matches Some(dispatch) && dispatch.request.kind
            == "start_task"@ && dispatch.request.payload.text_at("command_line"@) == Some(
            seq!['/'] + verb + seq![' '] + arguments,
        ),
{
    task_commands_arm_their_text(app, verb, gap, arguments);
    text_laws::trimming_finds_the_core(seq![], arguments, seq![]);
    assert(seq![] + arguments + seq![] =~= arguments);
    submissions_leave_the_session(app);
    confirming_sends_the_armed_text(app.submit().0, now);
}

/// What a confirmation leaves: the armed task is used up and the confirmation is told. A task that
/// is sent runs from now on under the identifier of its request, with a receipt that bears its
/// text; one that cannot be sent leaves nothing running, and the user is told why.
pub proof fn confirming_starts_the_task(app: AppModel, now: Instant)
    requires
        app.pending_task is Some,
        app.request_counter < u64::MAX,
    ensures
        ({
            let line = app.pending_task->Some_0;
            let (after, dispatch) = app.confirm_task(now);
            let told = app.transcript.push(
                item(TranscriptKind::Status, "TUI confirmation recorded. Starting task."@),
            );
            &&& after.pending_task is None
            &&& same_view(after, app)
            &&& same_postures(after, app)
            &&& same_composer(after, app)
            &&& same_scroll(after, app)
            &&& event_laws::same_backend(after, app)
            &&& after.target == app.target
            &&& after.phase == app.phase
            &&& after.findings == app.findings
            &&& after.task_constraints == app.task_constraints
            &&& after.last_run == app.last_run
            &&& after.evidence == app.evidence
            &&& after.constraint_violations == app.constraint_violations
            &&& dispatch is Some ==> {
                &&& after.transcript == told
                &&& after.worker_active
                &&& after.worker_started_at == Some(now)
                &&& after.active_task_id == dispatch->Some_0.request.task_id
                &&& after.active_receipt == Some(
                    ReceiptView { command: line, phase: "Submitting"@, findings: 0 },
                )
                &&& after.last_receipt == app.last_receipt
                &&& after.request_counter == app.request_counter + 1
            }
            &&& dispatch is None && (app.worker_active || !app.backend_ready) ==> {
                &&& after.worker_active == app.worker_active
                &&& after.active_task_id == app.active_task_id
                &&& event_laws::same_receipts(after, app)
                &&& after.request_counter == app.request_counter
                &&& after.transcript == told.push(
                    item(
                        TranscriptKind::Error,
                        if app.worker_active {
                            "A VulnClaw command is already running."@
                        } else {
                            "The Python backend is not ready."@
                        },
                    ),
                )
            }
            &&& dispatch is None && !app.worker_active && app.backend_ready ==> {
                &&& !after.worker_active
                &&& after.active_task_id is None
                &&& after.worker_started_at is None
                &&& after.active_receipt is None
                &&& after.last_receipt == Some(
                    ReceiptView {
                        command: line,
                        phase: "Failed to submit"@,
                        findings: app.findings.len() as int,
                    },
                )
                &&& after.request_counter == app.request_counter + 1
                &&& after.transcript == told.push(
                    item(
                        TranscriptKind::Error,
                        "Could not submit task to Python backend: "@ + "backend disconnected"@,
                    ),
                )
            }
        }),
{
}

/// Without an armed task a confirmation and a dismissal change nothing.
pub proof fn nothing_armed_nothing_done(app: AppModel, now: Instant)
    requires
        app.pending_task is None,
    ensures
        app.confirm_task(now) == (app, None::<DispatchView>),
        app.dismiss_task() == app,
{
}

/// A dismissal drops the armed task, tells it, and changes nothing else.
pub proof fn dismissals_are_told(app: AppModel)
    requires
        app.pending_task is Some,
    ensures
        app.dismiss_task().pending_task is None,
        app.dismiss_task().transcript == app.transcript.push(
            item(TranscriptKind::Status, "Task command cancelled before execution."@),
        ),
        app.dismiss_task().request_counter == app.request_counter,
        same_view(app.dismiss_task(), app),
        same_postures(app.dismiss_task(), app),
        same_composer(app.dismiss_task(), app),
        same_scroll(app.dismiss_task(), app),
        same_session(app.dismiss_task(), app),
{
}

// ---------------------------------------------------------------------------
// Session scope
// ---------------------------------------------------------------------------

/// `/scope` with arguments asks the backend to change the scope as they say, and with `--clear`
/// to reset it: the request names the operation and hands the arguments on, trimmed and otherwise
/// as they were typed.
pub proof fn scope_commands_ask_for_an_operation(
    app: AppModel,
    gap: Seq<char>,
    arguments: Seq<char>,
)
    requires
        text_laws::blank(gap),
        arguments.len() > 0 ==> gap.len() > 0 && !text::is_white_space(arguments[0]),
        app.typed_command() == seq!['/'] + "scope"@ + gap + arguments,
    ensures
        ({
            let trimmed = text::trimmed(arguments);
            let operation = if trimmed == "--clear"@ {
                "session.scope.reset"@
            } else {
                "session.scope.update"@
            };
            let (after, dispatch) = app.submit();
            let ready = trimmed.len() > 0 && !app.worker_active && app.backend_ready
                && app.backend_control_operations.contains(operation) && app.backend_connected;
            &&& dispatch is Some <==> ready
            &&& dispatch matches Some(sent) ==> {
                &&& sent.purpose == PurposeView::Scope(operation)
                &&& sent.request.protocol_version == 1
                &&& sent.request.kind == "control"@
                &&& sent.request.request_id == app.next_id()
                &&& sent.request.task_id is None
                &&& sent.request.payload.text_at("operation"@) == Some(operation)
                &&& sent.request.payload.get("arguments"@) == Some(
                    if trimmed == "--clear"@ {
                        JsonView::Object(seq![])
                    } else {
                        JsonView::Object(seq![("command_line"@, JsonView::Text(trimmed))])
                    },
                )
                &&& after.transcript == echoed(app.transcript, app.typed_command())
            }
            &&& after.pending_task == app.pending_task
            &&& after.request_counter == (if trimmed.len() > 0 && !app.worker_active
                && app.backend_ready && app.backend_control_operations.contains(operation) {
                app.bumped().request_counter
            } else {
                app.request_counter
            })
            &&& dispatch is None ==> after.transcript == echoed(
                app.transcript,
                app.typed_command(),
            ).push(
                if trimmed.len() == 0 {
                    item(
                        TranscriptKind::Status,
                        "Usage: /scope [--only-host H] [--only-port N] [--only-path P] [--blocked-host H] [--blocked-path P] [--allow-actions A,B] [--block-actions A,B], or /scope --clear."@,
                    )
                } else if app.worker_active {
                    item(
                        TranscriptKind::Error,
                        "Administrative settings cannot change while a task is running."@,
                    )
                } else if !app.backend_ready {
                    item(TranscriptKind::Error, "The Python backend is not ready."@)
                } else if !app.backend_control_operations.contains(operation) {
                    item(
                        TranscriptKind::Error,
                        "The connected backend does not support control operation "@ + operation
                            + "."@,
                    )
                } else {
                    item(
                        TranscriptKind::Error,
                        "Could not send "@ + operation + " to Python backend: "@
                            + "backend disconnected"@,
                    )
                },
            )
        }),
{
    reveal_strlit("scope");
    lemma_local_commands();
    let command = app.typed_command();
    let verb = "scope"@;
    assert(text_laws::solid(verb)) by {
        assert forall|i: int| 0 <= i < verb.len() implies !text::is_white_space(
            #[trigger] verb[i],
        ) by {
            assert(verb[i] == 's' || verb[i] == 'c' || verb[i] == 'o' || verb[i] == 'p' || verb[i]
                == 'e');
        }
    }
    text_laws::slash_commands_are_split(verb, gap, arguments);
    assert(command[1] == 's');
    assert(!is_plain_local(command)) by {
        reveal_strlit("/help");
        reveal_strlit("/clear");
        reveal_strlit("/report");
        reveal_strlit("/config");
    }
    if let Some(sent) = app.submit().1 {
        reveal_strlit("operation");
        reveal_strlit("arguments");
        assert("operation"@[0] != "arguments"@[0]);
        json::lemma_lookup_first(sent.request.payload->Object_0, 0);
        json::lemma_lookup_first(sent.request.payload->Object_0, 1);
    }
}

/// However it is asked for, a change of scope hands on what the arguments are between blank text.
pub proof fn scope_arguments_are_trimmed(
    app: AppModel,
    front: Seq<char>,
    core: Seq<char>,
    back: Seq<char>,
)
    requires
        text_laws::blank(front),
        text_laws::blank(back),
        text_laws::tight(core),
    ensures
        app.request_scope_control(front + core + back) == app.request_scope_control(core),
        core.len() == 0 ==> app.request_scope_control(core).1 is None,
        core.len() > 0 && core != "--clear"@ ==> app.request_scope_control(core)
            == app.request_control(
            "session.scope.update"@,
            JsonView::Object(seq![("command_line"@, JsonView::Text(core))]),
        ),
        core == "--clear"@ ==> app.request_scope_control(core) == app.request_control(
            "session.scope.reset"@,
            JsonView::Object(seq![]),
        ),
{
    text_laws::trimming_finds_the_core(front, core, back);
    text_laws::trimming_finds_the_core(seq![], core, seq![]);
    assert(seq![] + core + seq![] =~= core);
    reveal_strlit("--clear");
}

// ---------------------------------------------------------------------------
// Cancelling
// ---------------------------------------------------------------------------

/// Cancelling asks for the end of the running task by its identifier, if the backend can cancel
/// and is connected, and says why not otherwise. Nothing but the transcript and the numbering
/// changes.
pub proof fn cancelling_names_the_running_task(app: AppModel)
    requires
        app.active_task_id is Some,
    ensures
        ({
            let (after, dispatch) = app.stop_worker();
            &&& dispatch is Some <==> app.backend_supports_cancellation && app.backend_connected
            &&& dispatch matches Some(sent) ==> {
                &&& sent.purpose == PurposeView::CancelTask
                &&& sent.request.protocol_version == 1
                &&& sent.request.kind == "cancel_task"@
                &&& sent.request.request_id == app.next_id()
                &&& sent.request.task_id == app.active_task_id
                &&& sent.request.payload == JsonView::Object(seq![])
                &&& after.transcript == app.transcript
            }
            &&& dispatch is None ==> after.transcript == app.transcript.push(
                item(
                    TranscriptKind::Error,
                    if !app.backend_supports_cancellation {
                        "The connected backend does not support task cancellation."@
                    } else {
                        "Could not cancel task: backend disconnected."@
                    },
                ),
            )
            &&& after.pending_task == app.pending_task
            &&& after.request_counter == (if app.backend_supports_cancellation {
                app.bumped().request_counter
            } else {
                app.request_counter
            })
            &&& same_view(after, app)
            &&& same_postures(after, app)
            &&& same_composer(after, app)
            &&& same_scroll(after, app)
            &&& same_session(after, app)
        }),
{
}

// ---------------------------------------------------------------------------
// Delivery
// ---------------------------------------------------------------------------

/// A request that was delivered: the greeting connects the backend, a change of scope and a
/// cancellation are told, and the receipt of the task tells that it is being cancelled.
pub proof fn deliveries_are_told(app: AppModel, operation: Seq<char>)
    ensures
        ({
            let greeted = app.settle(PurposeView::Initialize, Ok(()));
            &&& greeted.backend_connected
            &&& greeted.transcript == app.transcript.push(
                item(TranscriptKind::Status, "Connecting to the VulnClaw Python backend..."@),
            )
            &&& greeted.backend_ready == app.backend_ready
            &&& greeted.backend_pid == app.backend_pid
            &&& greeted.config_ready == app.config_ready
            &&& greeted.backend_commands == app.backend_commands
            &&& greeted.backend_control_operations == app.backend_control_operations
            &&& greeted.backend_supports_cancellation == app.backend_supports_cancellation
            &&& greeted.skills == app.skills
            &&& event_laws::same_business(greeted, app)
            &&& event_laws::same_receipts(greeted, app)
        }),
        app.settle(PurposeView::StartTask, Ok(())) == app,
        ({
            let scoped = app.settle(PurposeView::Scope(operation), Ok(()));
            &&& scoped.transcript == app.transcript.push(
                item(TranscriptKind::Status, "Session scope change requested."@),
            )
            &&& same_session(scoped, app)
        }),
        ({
            let cancelling = app.settle(PurposeView::CancelTask, Ok(()));
            &&& cancelling.transcript == app.transcript.push(
                item(
                    TranscriptKind::Status,
                    "Cancellation requested; waiting for Python checkpoint."@,
                ),
            )
            &&& cancelling.active_receipt == event_laws::in_phase(
                app.active_receipt,
                "Cancelling"@,
            )
            &&& cancelling.last_receipt == app.last_receipt
            &&& cancelling.worker_started_at == app.worker_started_at
            &&& event_laws::same_backend(cancelling, app)
            &&& event_laws::same_business(cancelling, app)
        }),
{
}

/// A request that was not delivered is told as an error with the reason, and only a task that was
/// not delivered changes anything else: it has ended.
pub proof fn failed_deliveries_are_told(app: AppModel, operation: Seq<char>, reason: Seq<char>)
    ensures
        ({
            let after = app.settle(PurposeView::Initialize, Err(reason));
            &&& after.transcript == app.transcript.push(
                item(
                    TranscriptKind::Error,
                    "Could not initialize Python backend: "@ + reason,
                ),
            )
            &&& same_session(after, app)
        }),
        ({
            let after = app.settle(PurposeView::Scope(operation), Err(reason));
            &&& after.transcript == app.transcript.push(
                item(
                    TranscriptKind::Error,
                    "Could not send "@ + operation + " to Python backend: "@ + reason,
                ),
            )
            &&& same_session(after, app)
        }),
        ({
            let after = app.settle(PurposeView::CancelTask, Err(reason));
            &&& after.transcript == app.transcript.push(
                item(TranscriptKind::Error, "Could not cancel task: "@ + reason),
            )
            &&& same_session(after, app)
        }),
        ({
            let after = app.settle(PurposeView::StartTask, Err(reason));
            &&& after.transcript == app.transcript.push(
                item(
                    TranscriptKind::Error,
                    "Could not submit task to Python backend: "@ + reason,
                ),
            )
            &&& !after.worker_active
            &&& after.active_task_id is None
            &&& after.worker_started_at is None
            &&& after.active_receipt is None
            &&& after.last_receipt == event_laws::closed(
                app.active_receipt,
                app.last_receipt,
                "Failed to submit"@,
                app.findings.len() as int,
            )
            &&& event_laws::same_backend(after, app)
            &&& after.target == app.target
            &&& after.phase == app.phase
            &&& after.findings == app.findings
            &&& after.task_constraints == app.task_constraints
            &&& after.last_run == app.last_run
            &&& after.evidence == app.evidence
            &&& after.constraint_violations == app.constraint_violations
        }),
{
}

/// No delivery touches the view, the postures, the composer, the scrolling, the numbering or the
/// armed task.
pub proof fn deliveries_leave_the_desk(
    app: AppModel,
    purpose: PurposeView,
    outcome: Result<(), Seq<char>>,
)
    ensures
        event_laws::same_desk(app.settle(purpose, outcome), app),
{
}

// ---------------------------------------------------------------------------
// Connecting
// ---------------------------------------------------------------------------

/// A backend process that was started is greeted: the request names this client and its version
/// and hands on what the session is opened with. One that was not is told with the reason.
pub proof fn started_backends_are_greeted(
    app: AppModel,
    reason: Seq<char>,
    bootstrap: JsonView,
)
    ensures
        ({
            let (after, dispatch) = app.connect_backend(Ok(()), bootstrap);
            &&& after == app.bumped()
            &&& dispatch matches Some(sent) && {
                let client = sent.request.payload.get("client"@);
                &&& sent.purpose == PurposeView::Initialize
                &&& sent.request.protocol_version == 1
                &&& sent.request.kind == "initialize"@
                &&& sent.request.request_id == app.next_id()
                &&& sent.request.task_id is None
                &&& client is Some
                &&& client->Some_0.text_at("name"@) == Some("vulnclaw-tui-native"@)
                &&& client->Some_0.text_at("version"@) == Some("0.1.0"@)
                &&& sent.request.payload.get("bootstrap"@) == Some(bootstrap)
            }
        }),
        ({
            let (after, dispatch) = app.connect_backend(Err(reason), bootstrap);
            &&& dispatch is None
            &&& after.transcript == app.transcript.push(
                item(
                    TranscriptKind::Error,
                    "Could not start VulnClaw Python backend: "@ + reason,
                ),
            )
            &&& event_laws::same_desk(after, app)
            &&& same_session(after, app)
        }),
{
    let sent = app.connect_backend(Ok(()), bootstrap).1->Some_0;
    let fields = sent.request.payload->Object_0;
    reveal_strlit("client");
    reveal_strlit("bootstrap");
    reveal_strlit("name");
    reveal_strlit("version");
    assert(fields[0].0 == "client"@ && fields[0].0.len() == 6);
    assert(fields[1].0 == "bootstrap"@ && fields[1].0.len() == 9);
    json::lemma_lookup_first(fields, 0);
    json::lemma_lookup_first(fields, 1);
    let client = fields[0].1->Object_0;
    assert(client[0].0 == "name"@ && client[0].0.len() == 4);
    assert(client[1].0 == "version"@ && client[1].0.len() == 7);
    json::lemma_lookup_first(client, 0);
    json::lemma_lookup_first(client, 1);
}

/// A connected backend is told to shut down, is disconnected and not ready then, and nothing of it
/// is advertised; what it reported stays, and nothing is told.
pub proof fn farewells_disconnect(app: AppModel)
    requires
        app.backend_connected,
        app.request_counter < u64::MAX,
    ensures
        ({
            let (after, request) = app.shutdown_backend();
            &&& request == Some(
                RequestView {
                    protocol_version: 1,
                    kind: "shutdown"@,
                    request_id: app.next_id(),
                    task_id: None,
                    payload: JsonView::Object(seq![]),
                },
            )
            &&& after.request_counter == app.request_counter + 1
            &&& !after.backend_connected
            &&& !after.backend_ready
            &&& after.backend_commands.len() == 0
            &&& after.backend_control_operations.len() == 0
            &&& !after.backend_supports_cancellation
            &&& after.backend_pid == app.backend_pid
            &&& after.config_ready == app.config_ready
            &&& after.skills == app.skills
            &&& after.transcript == app.transcript
            &&& after.pending_task == app.pending_task
            &&& same_view(after, app)
            &&& same_postures(after, app)
            &&& same_composer(after, app)
            &&& same_scroll(after, app)
            &&& event_laws::same_business(after, app)
            &&& event_laws::same_receipts(after, app)
        }),
{
}

/// A backend that is not connected is not told to shut down, and nothing changes.
pub proof fn nobody_to_say_farewell_to(app: AppModel)
    requires
        !app.backend_connected,
    ensures
        app.shutdown_backend() == (app, None::<RequestView>),
{
}

// ---------------------------------------------------------------------------
// Sessions and postures
// ---------------------------------------------------------------------------

/// What became of saving and restoring a session is told with the place or the reason, and
/// nothing else changes.
pub proof fn sessions_are_told(app: AppModel, place: Seq<char>, reason: Seq<char>)
    ensures
        app.save_session(Ok(place)).transcript == app.transcript.push(
            item(TranscriptKind::Status, "Session saved: "@ + place),
        ),
        app.save_session(Err(reason)).transcript == app.transcript.push(
            item(TranscriptKind::Error, "Could not save session: "@ + reason),
        ),
        app.restore_session(Ok(())).transcript == app.transcript.push(
            item(TranscriptKind::Status, "Session restored."@),
        ),
        app.restore_session(Err(reason)).transcript == app.transcript.push(
            item(TranscriptKind::Error, "Could not restore session: "@ + reason),
        ),
{
}

/// Nothing but the transcript changes when a session is saved or restored.
pub proof fn sessions_leave_the_rest(
    app: AppModel,
    saved: Result<Seq<char>, Seq<char>>,
    restored: Result<(), Seq<char>>,
)
    ensures
        event_laws::same_desk(app.save_session(saved), app),
        same_session(app.save_session(saved), app),
        event_laws::same_desk(app.restore_session(restored), app),
        same_session(app.restore_session(restored), app),
{
}

/// The execution mode goes from plan to agent and from anything else to plan. The user is told
/// its name, and nothing else changes.
pub proof fn modes_alternate(app: AppModel)
    ensures
        ({
            let after = app.cycle_mode();
            &&& after.mode == (if app.mode == ExecutionMode::Plan {
                ExecutionMode::Agent
            } else {
                ExecutionMode::Plan
            })
            &&& after.transcript == app.transcript.push(
                item(
                    TranscriptKind::Status,
                    if app.mode == ExecutionMode::Plan {
                        "Execution mode switched to "@ + "Agent"@ + "."@
                    } else {
                        "Execution mode switched to "@ + "Plan"@ + "."@
                    },
                ),
            )
            &&& after.permission == app.permission
            &&& after.pending_task == app.pending_task
            &&& after.request_counter == app.request_counter
            &&& same_view(after, app)
            &&& same_composer(after, app)
            &&& same_scroll(after, app)
            &&& same_session(after, app)
        }),
{
}

/// A mode that is set is the mode afterwards, whatever it was; the user is told its name, and
/// nothing else changes.
pub proof fn modes_can_be_set(app: AppModel, mode: ExecutionMode)
    ensures
        ({
            let after = app.set_mode(mode);
            &&& after.mode == mode
            &&& after.transcript == app.transcript.push(
                item(
                    TranscriptKind::Status,
                    "Execution mode switched to "@ + (match mode {
                        ExecutionMode::Plan => "Plan"@,
                        ExecutionMode::Agent => "Agent"@,
                        ExecutionMode::Yolo => "YOLO"@,
                    }) + "."@,
                ),
            )
            &&& after.permission == app.permission
            &&& after.pending_task == app.pending_task
            &&& after.request_counter == app.request_counter
            &&& same_view(after, app)
            &&& same_composer(after, app)
            &&& same_scroll(after, app)
            &&& same_session(after, app)
        }),
{
}

/// The permission goes from asking to reviewing, from reviewing to full access, and from there to
/// asking. The user is told its name, and nothing else changes.
pub proof fn permissions_go_round(app: AppModel)
    ensures
        ({
            let after = app.cycle_permission();
            &&& after.permission == (match app.permission {
                PermissionMode::Ask => PermissionMode::AutoReview,
                PermissionMode::AutoReview => PermissionMode::FullAccess,
                PermissionMode::FullAccess => PermissionMode::Ask,
            })
            &&& after.transcript == app.transcript.push(
                item(
                    TranscriptKind::Status,
                    "Permission posture switched to "@ + (match app.permission {
                        PermissionMode::Ask => "Auto-review"@,
                        PermissionMode::AutoReview => "Full access"@,
                        PermissionMode::FullAccess => "Ask"@,
                    }) + ". Explicit confirmation still required before a task starts."@,
                ),
            )
            &&& after.mode == app.mode
            &&& after.pending_task == app.pending_task
            &&& after.request_counter == app.request_counter
            &&& same_view(after, app)
            &&& same_composer(after, app)
            &&& same_scroll(after, app)
            &&& same_session(after, app)
        }),
{
}

/// The focus goes from the workspace to the transcript, to the findings and round again, or the
/// other way; nothing else changes.
pub proof fn focus_goes_round(app: AppModel)
    ensures
        app.cycle_active_pane(false) == (AppModel {
            active_pane: match app.active_pane {
                ActivePane::Workspace => ActivePane::Transcript,
                ActivePane::Transcript => ActivePane::Findings,
                ActivePane::Findings => ActivePane::Workspace,
            },
            ..app
        }),
        app.cycle_active_pane(true) == (AppModel {
            active_pane: match app.active_pane {
                ActivePane::Workspace => ActivePane::Findings,
                ActivePane::Transcript => ActivePane::Workspace,
                ActivePane::Findings => ActivePane::Transcript,
            },
            ..app
        }),
{
}

/// The name of a pane is that of what it shows.
pub proof fn panes_are_named(pane: ActivePane)
    ensures
        pane.title() == (match pane {
            ActivePane::Workspace => "Workspace"@,
            ActivePane::Transcript => "Session transcript"@,
            ActivePane::Findings => "Findings inspector"@,
        }),
{
}

/// A session begins as a careful agent with nothing typed, nothing armed, nothing found and
/// nothing running, and with no backend; it runs, shows the reasoning, follows its transcript and
/// greets the user with two lines.
pub proof fn sessions_begin_empty(
    process_id: u32,
    welcome: Seq<char>,
    ready: Seq<char>,
    skills: Seq<SkillView>,
)
    ensures
        ({
            let app = AppModel::fresh(process_id, welcome, ready, skills);
            &&& app.well_formed()
            &&& app.mode == ExecutionMode::Agent
            &&& app.permission == PermissionMode::AutoReview
            &&& app.active_pane == ActivePane::Transcript
            &&& app.input.len() == 0 && app.caret() == 0
            &&& app.command_history.len() == 0
            &&& app.history_index is None && app.history_draft.len() == 0
            &&& app.transcript == seq![
                item(TranscriptKind::System, welcome),
                item(TranscriptKind::Status, ready),
            ]
            &&& app.findings.len() == 0 && app.findings_scroll == 0
            &&& app.transcript_scroll == 0 && app.transcript_follow
            &&& app.palette_selection == 0
            &&& app.show_reasoning && app.running && !app.show_attack_chain
            &&& !app.worker_active && app.active_task_id is None
            &&& app.worker_started_at is None
            &&& app.active_receipt is None && app.last_receipt is None
            &&& !app.backend_connected && !app.backend_ready
            &&& app.backend_pid is None && app.config_ready is None
            &&& app.backend_commands.len() == 0
            &&& app.backend_control_operations.len() == 0
            &&& !app.backend_supports_cancellation
            &&& app.target.len() == 0 && app.phase == "idle"@
            &&& app.task_constraints == JsonView::Object(seq![])
            &&& app.last_run is None && app.evidence.len() == 0
            &&& app.constraint_violations.len() == 0
            &&& app.process_id == process_id && app.request_counter == 0
            &&& app.pending_task is None
            &&& app.skills == skills
            &&& app.terminal_size.x == 0 && app.terminal_size.y == 0
            &&& app.terminal_size.width == 0 && app.terminal_size.height == 0
            &&& app.toast.len() == 0
        }),
{
    text_laws::offsets_count_encoded_bytes(seq![], seq![]);
    assert(Seq::<char>::empty() + Seq::<char>::empty() =~= seq![]);
    assert(text::byte_len(seq![]) == 0);
}

} // verus!
