//! The workbench as a mathematical object: its state and how each operation changes it.
use std::time::Instant;

use vstd::prelude::*;

use crate::app::TranscriptKind;
use crate::command;
use crate::event::{
    AppEventView, BackendInfoView, CapabilitiesView, EventView, FindingView, RuntimeView,
    SnapshotView,
};
use crate::json::JsonView;
use crate::layout;
use crate::layout::{Rect, Screen};
use crate::modes::{ActivePane, ExecutionMode, PermissionMode};
use crate::order;
use crate::protocol;
use crate::protocol::RequestView;
use crate::text;

verus! {

/// One entry of the transcript.
#[verifier::ext_equal]
pub struct ItemView {
    pub kind: TranscriptKind,
    pub text: Seq<char>,
}

/// A command that the palette offers.
#[verifier::ext_equal]
pub struct SlashView {
    pub command: Seq<char>,
    pub description: Seq<char>,
}

/// The account of one task.
#[verifier::ext_equal]
pub struct ReceiptView {
    pub command: Seq<char>,
    pub phase: Seq<char>,
    pub findings: int,
}

/// A node of the skill tree.
#[verifier::ext_equal]
pub struct SkillView {
    pub name: Seq<char>,
    pub children: Seq<SkillView>,
}

/// Why a request is sent.
#[verifier::ext_equal]
pub enum PurposeView {
    Initialize,
    StartTask,
    Scope(Seq<char>),
    CancelTask,
}

/// A request on its way to the backend.
#[verifier::ext_equal]
pub struct DispatchView {
    pub purpose: PurposeView,
    pub request: RequestView,
}

/// The state of the workbench.
#[verifier::ext_equal]
pub struct AppModel {
    pub mode: ExecutionMode,
    pub permission: PermissionMode,
    pub active_pane: ActivePane,
    pub input: Seq<char>,
    pub input_cursor: int,
    pub command_history: Seq<Seq<char>>,
    pub history_index: Option<usize>,
    pub history_draft: Seq<char>,
    pub transcript: Seq<ItemView>,
    pub findings: Seq<FindingView>,
    pub findings_scroll: int,
    pub transcript_scroll: int,
    pub transcript_follow: bool,
    pub palette_selection: int,
    pub show_reasoning: bool,
    pub running: bool,
    pub worker_active: bool,
    pub backend_connected: bool,
    pub backend_ready: bool,
    pub backend_pid: Option<u32>,
    pub config_ready: Option<bool>,
    pub backend_commands: Seq<Seq<char>>,
    pub backend_control_operations: Seq<Seq<char>>,
    pub backend_supports_cancellation: bool,
    pub target: Seq<char>,
    pub phase: Seq<char>,
    pub active_task_id: Option<Seq<char>>,
    pub task_constraints: JsonView,
    pub last_run: Option<JsonView>,
    pub evidence: Seq<JsonView>,
    pub constraint_violations: Seq<Seq<char>>,
    pub process_id: u32,
    pub request_counter: u64,
    pub active_receipt: Option<ReceiptView>,
    pub last_receipt: Option<ReceiptView>,
    pub worker_started_at: Option<Instant>,
    pub show_attack_chain: bool,
    pub pending_task: Option<Seq<char>>,
    pub skills: Seq<SkillView>,
    pub terminal_size: Rect,
    pub toast: Seq<char>,
}

/// The commands that the terminal answers itself, as the palette offers them.
pub open spec fn local_commands() -> Seq<SlashView> {
    seq![
        SlashView { command: "/scope "@, description: "update session scope defaults"@ },
        SlashView { command: "/report"@, description: "show report export guidance"@ },
        SlashView { command: "/config"@, description: "show configuration guidance"@ },
        SlashView { command: "/clear"@, description: "clear the transcript"@ },
        SlashView { command: "/help"@, description: "list available commands"@ },
    ]
}

/// How many commands the history keeps.
pub const MAX_COMMAND_HISTORY: usize = 50;

// ---------------------------------------------------------------------------
// Transcript and receipts
// ---------------------------------------------------------------------------

impl AppModel {
    /// A session that has just begun.
    pub open spec fn fresh(
        process_id: u32,
        welcome: Seq<char>,
        ready: Seq<char>,
        skills: Seq<SkillView>,
    ) -> AppModel {
        AppModel {
            mode: ExecutionMode::Agent,
            permission: PermissionMode::AutoReview,
            active_pane: ActivePane::Transcript,
            input: seq![],
            input_cursor: 0,
            command_history: seq![],
            history_index: None,
            history_draft: seq![],
            transcript: seq![
                ItemView { kind: TranscriptKind::System, text: welcome },
                ItemView { kind: TranscriptKind::Status, text: ready },
            ],
            findings: seq![],
            findings_scroll: 0,
            transcript_scroll: 0,
            transcript_follow: true,
            palette_selection: 0,
            show_reasoning: true,
            running: true,
            worker_active: false,
            backend_connected: false,
            backend_ready: false,
            backend_pid: None,
            config_ready: None,
            backend_commands: seq![],
            backend_control_operations: seq![],
            backend_supports_cancellation: false,
            target: seq![],
            phase: "idle"@,
            active_task_id: None,
            task_constraints: JsonView::Object(seq![]),
            last_run: None,
            evidence: seq![],
            constraint_violations: seq![],
            process_id,
            request_counter: 0,
            active_receipt: None,
            last_receipt: None,
            worker_started_at: None,
            show_attack_chain: false,
            pending_task: None,
            skills,
            terminal_size: Rect { x: 0, y: 0, width: 0, height: 0 },
            toast: seq![],
        }
    }

    /// One more entry in the transcript.
    pub open spec fn push(self, kind: TranscriptKind, text: Seq<char>) -> AppModel {
        AppModel { transcript: self.transcript.push(ItemView { kind, text }), ..self }
    }

    /// One more status line.
    pub open spec fn status(self, text: Seq<char>) -> AppModel {
        self.push(TranscriptKind::Status, text)
    }

    /// One more error line.
    pub open spec fn error(self, text: Seq<char>) -> AppModel {
        self.push(TranscriptKind::Error, text)
    }

    /// The receipt of the running task enters a phase.
    pub open spec fn update_receipt(self, phase: Seq<char>) -> AppModel {
        match self.active_receipt {
            Some(receipt) => AppModel {
                active_receipt: Some(ReceiptView { phase, ..receipt }),
                ..self
            },
            None => self,
        }
    }

    /// The receipt of the running task counts the findings.
    pub open spec fn count_findings(self) -> AppModel {
        match self.active_receipt {
            Some(receipt) => AppModel {
                active_receipt: Some(
                    ReceiptView { findings: self.findings.len() as int, ..receipt },
                ),
                ..self
            },
            None => self,
        }
    }

    /// The running task has ended in the given phase.
    pub open spec fn finish_task(self, phase: Seq<char>) -> AppModel {
        AppModel {
            worker_active: false,
            worker_started_at: None,
            active_task_id: None,
            active_receipt: None,
            last_receipt: match self.active_receipt {
                Some(receipt) => Some(
                    ReceiptView { phase, findings: self.findings.len() as int, ..receipt },
                ),
                None => self.last_receipt,
            },
            ..self
        }
    }
}

// ---------------------------------------------------------------------------
// Postures and panes
// ---------------------------------------------------------------------------

impl AppModel {
    /// The execution mode is switched, and the user told.
    pub open spec fn set_mode(self, mode: ExecutionMode) -> AppModel {
        AppModel { mode, ..self }.status("Execution mode switched to "@ + mode.title() + "."@)
    }

    /// The execution mode is the one that follows.
    pub open spec fn cycle_mode(self) -> AppModel {
        self.set_mode(self.mode.following())
    }

    /// The permission posture is the one that follows, and the user told.
    pub open spec fn cycle_permission(self) -> AppModel {
        let permission = self.permission.following();
        AppModel { permission, ..self }.status(
            "Permission posture switched to "@ + permission.title()
                + ". Explicit confirmation still required before a task starts."@,
        )
    }

    /// The focus is on the next pane, or on the previous one.
    pub open spec fn cycle_active_pane(self, backwards: bool) -> AppModel {
        AppModel {
            active_pane: if backwards {
                self.active_pane.preceding()
            } else {
                self.active_pane.following()
            },
            ..self
        }
    }
}

/// A scroll offset one step down or up, within 16 bits.
pub open spec fn stepped(offset: int, down: bool) -> int {
    if down {
        if offset < u16::MAX {
            offset + 1
        } else {
            u16::MAX as int
        }
    } else {
        if offset > 0 {
            offset - 1
        } else {
            0
        }
    }
}

/// The offset that shows the end of a transcript whose largest useful offset is `max`, or
/// comes as close to it as 16 bits can.
pub open spec fn lowest_offset(max: int) -> int {
    if max < u16::MAX {
        max
    } else {
        u16::MAX as int
    }
}

impl AppModel {
    /// The height of the composer: the confirmation, the palette, or a single line.
    pub open spec fn composer_height(self) -> int {
        if self.pending_task is Some {
            3
        } else if self.palette_visible() {
            7
        } else {
            1
        }
    }

    /// The panes on a screen of the given area.
    pub open spec fn panels(self, area: Rect) -> layout::Panels {
        layout::panel_split(layout::workbench_area(area, self.composer_height()))
    }

    /// The region of the focused pane on a screen of the given area.
    pub open spec fn active_pane_rect(self, area: Rect) -> Rect {
        self.panels(area).region_of(self.active_pane)
    }

    /// The largest useful scroll offset of a transcript that is shown as `lines`.
    pub open spec fn transcript_max_scroll(self, lines: Seq<Seq<char>>) -> int {
        layout::last_offset_of(self.panels(self.terminal_size).transcript, lines)
    }

    /// The rows of a transcript that is shown as `lines` can be counted: its pane shows
    /// nothing, or the lines can be wrapped at its inner width.
    pub open spec fn transcript_countable(self, lines: Seq<Seq<char>>) -> bool {
        ||| layout::workbench_area(self.terminal_size, self.composer_height()).height < 3
        ||| layout::wrappable(lines, layout::columns(self.terminal_size) - 70)
    }

    /// A step within a transcript whose largest useful offset is `max`.
    pub open spec fn scroll_transcript(self, down: bool, max: int) -> AppModel {
        let moved = stepped(self.transcript_scroll, down);
        let offset = if moved > lowest_offset(max) {
            lowest_offset(max)
        } else {
            moved
        };
        AppModel { transcript_scroll: offset, transcript_follow: offset >= max, ..self }
    }

    /// The focused pane scrolls by one row: the findings on their own, else the transcript.
    pub open spec fn scroll_active_pane(self, down: bool, lines: Seq<Seq<char>>) -> AppModel {
        match self.active_pane {
            ActivePane::Findings => AppModel {
                findings_scroll: stepped(self.findings_scroll, down),
                ..self
            },
            _ => self.scroll_transcript(down, self.transcript_max_scroll(lines)),
        }
    }

    /// The transcript keeps to its end, while it follows. Its largest useful offset is `max`.
    pub open spec fn follow_transcript(self, max: int) -> AppModel {
        if self.transcript_follow {
            AppModel { transcript_scroll: lowest_offset(max), ..self }
        } else {
            self
        }
    }
}

// ---------------------------------------------------------------------------
// Copying
// ---------------------------------------------------------------------------

impl AppModel {
    /// The terminal has no known size.
    pub open spec fn size_unknown(self) -> bool {
        self.terminal_size.width == 0 || self.terminal_size.height == 0
    }

    /// What a copy of the focused pane leaves behind before the clipboard has answered.
    pub open spec fn copy_active_pane(self, rendered: Option<Screen>) -> AppModel {
        if self.size_unknown() {
            AppModel { toast: "Copy unavailable: terminal size unknown"@, ..self }
        } else if rendered is None {
            AppModel { toast: "Copy failed: cannot render pane"@, ..self }
        } else {
            self
        }
    }

    /// The text of the focused pane, if there is a rendered screen to copy it from.
    pub open spec fn copied_text(self, rendered: Option<Screen>) -> Option<Seq<char>> {
        match rendered {
            Some(screen) => if self.size_unknown() {
                None
            } else {
                Some(layout::region_text(screen, self.active_pane_rect(self.terminal_size)))
            },
            None => None,
        }
    }

    /// The feedback on what the clipboard did with `text`.
    pub open spec fn finish_copy(self, text: Seq<char>, delivered: bool) -> AppModel {
        AppModel {
            toast: if delivered {
                "Copied "@ + self.active_pane.title() + " to clipboard ("@ + text::decimal(
                    text.len(),
                ) + " chars)"@
            } else {
                "Copy failed: clipboard unavailable"@
            },
            ..self
        }
    }
}

// ---------------------------------------------------------------------------
// The composer
// ---------------------------------------------------------------------------

/// `s` without line breaks.
pub open spec fn without_breaks(s: Seq<char>) -> Seq<char>
    decreases s.len(),
{
    if s.len() == 0 {
        seq![]
    } else if s.last() == '\r' || s.last() == '\n' {
        without_breaks(s.drop_last())
    } else {
        without_breaks(s.drop_last()).push(s.last())
    }
}

/// A history whose latest entry is `command`: a repetition is not kept twice, and the oldest
/// entry makes room.
pub open spec fn remembered(history: Seq<Seq<char>>, command: Seq<char>) -> Seq<Seq<char>> {
    let longer = history.push(command);
    if history.len() > 0 && history.last() == command {
        history
    } else if longer.len() > MAX_COMMAND_HISTORY {
        longer.drop_first()
    } else {
        longer
    }
}

impl AppModel {
    /// The cursor stands between characters of the input, and the history position is an
    /// entry of the history.
    pub open spec fn well_formed(self) -> bool {
        &&& text::on_boundary(self.input, self.input_cursor)
        &&& self.history_index matches Some(index) ==> index < self.command_history.len()
    }

    /// How many characters stand before the cursor.
    pub open spec fn caret(self) -> int {
        text::caret(self.input, self.input_cursor)
    }

    /// The history is no longer navigated.
    pub open spec fn clear_history_navigation(self) -> AppModel {
        AppModel { history_index: None, history_draft: seq![], ..self }
    }

    /// The composer holds `input`, with the cursor behind it.
    pub open spec fn set_input(self, input: Seq<char>) -> AppModel {
        AppModel {
            input,
            input_cursor: text::byte_len(input) as int,
            palette_selection: 0,
            ..self
        }
    }

    /// The composer is empty.
    pub open spec fn clear_composer(self) -> AppModel {
        AppModel { input: seq![], input_cursor: 0, palette_selection: 0, ..self }
            .clear_history_navigation()
    }

    /// `added` stands at the cursor, and the cursor behind it.
    pub open spec fn insert_text(self, added: Seq<char>) -> AppModel {
        let kept = without_breaks(added);
        AppModel {
            input: self.input.take(self.caret()) + kept + self.input.skip(self.caret()),
            input_cursor: self.input_cursor + text::byte_len(kept),
            palette_selection: 0,
            ..self
        }.clear_history_navigation()
    }

    /// The character before the cursor is gone.
    pub open spec fn delete_input(self) -> AppModel {
        let k = self.caret();
        if self.input_cursor == 0 {
            self
        } else {
            AppModel {
                input: self.input.take(k - 1) + self.input.skip(k),
                input_cursor: text::offset_of(self.input, k - 1) as int,
                palette_selection: 0,
                ..self
            }.clear_history_navigation()
        }
    }

    /// The character after the cursor is gone.
    pub open spec fn delete_forward_input(self) -> AppModel {
        let k = self.caret();
        if self.input_cursor >= text::byte_len(self.input) {
            self
        } else {
            AppModel {
                input: self.input.take(k) + self.input.skip(k + 1),
                palette_selection: 0,
                ..self
            }.clear_history_navigation()
        }
    }

    /// The cursor moves by one character, if there is one on that side.
    pub open spec fn move_input_cursor(self, right: bool) -> AppModel {
        let k = self.caret();
        let moved = if right && k < self.input.len() {
            k + 1
        } else if !right && k > 0 {
            k - 1
        } else {
            k
        };
        AppModel {
            input_cursor: text::offset_of(self.input, moved) as int,
            palette_selection: 0,
            ..self
        }
    }

    /// The cursor stands at the beginning, or behind the end.
    pub open spec fn move_input_cursor_to_edge(self, end: bool) -> AppModel {
        AppModel {
            input_cursor: if end {
                text::byte_len(self.input) as int
            } else {
                0
            },
            palette_selection: 0,
            ..self
        }
    }

    /// The history holds `command` as its latest entry and is no longer navigated.
    pub open spec fn record_command(self, command: Seq<char>) -> AppModel {
        AppModel {
            command_history: remembered(self.command_history, command),
            ..self
        }.clear_history_navigation()
    }

    /// The composer shows the next older or newer entry of the history. Behind the newest
    /// stands the draft that was there when the navigation began.
    pub open spec fn recall_history(self, older: bool) -> AppModel {
        if self.command_history.len() == 0 {
            self
        } else if older {
            match self.history_index {
                Some(index) => self.show_entry(
                    if index > 0 {
                        index - 1
                    } else {
                        0
                    },
                ),
                None => AppModel { history_draft: self.input, ..self }.show_entry(
                    self.command_history.len() - 1,
                ),
            }
        } else {
            match self.history_index {
                None => self,
                Some(index) => if index + 1 == self.command_history.len() {
                    AppModel { history_index: None, history_draft: seq![], ..self }.set_input(
                        self.history_draft,
                    )
                } else {
                    self.show_entry(index + 1)
                },
            }
        }
    }

    /// The composer shows an entry of the history.
    pub open spec fn show_entry(self, index: int) -> AppModel {
        AppModel { history_index: Some(index as usize), ..self }.set_input(
            self.command_history[index],
        )
    }
}

// ---------------------------------------------------------------------------
// The palette
// ---------------------------------------------------------------------------

/// The commands of `list` that begin with `query`.
pub open spec fn matching(list: Seq<SlashView>, query: Seq<char>) -> Seq<SlashView>
    decreases list.len(),
{
    if list.len() == 0 {
        seq![]
    } else if text::begins_with(list.last().command, query) {
        matching(list.drop_last(), query).push(list.last())
    } else {
        matching(list.drop_last(), query)
    }
}

/// `s` ends with a space.
pub open spec fn ends_with_space(s: Seq<char>) -> bool {
    s.len() > 0 && s.last() == ' '
}

impl AppModel {
    /// The advertised task verbs, as the palette offers them.
    pub open spec fn task_commands(self) -> Seq<SlashView> {
        self.backend_commands.map_values(
            |verb: Seq<char>|
                SlashView {
                    command: "/"@ + verb + " "@,
                    description: "run a task through the Python backend"@,
                },
        )
    }

    /// The commands that can be typed.
    pub open spec fn offered_commands(self) -> Seq<SlashView> {
        self.task_commands() + local_commands()
    }

    /// The commands that complete what was typed.
    pub open spec fn suggested_commands(self) -> Seq<SlashView> {
        let query = text::lowered(text::trimmed_start(self.input));
        if !command::begins_with_slash(query) {
            seq![]
        } else {
            matching(self.offered_commands(), query)
        }
    }

    /// There is something to complete, and the cursor stands behind it.
    pub open spec fn palette_visible(self) -> bool {
        &&& self.input_cursor == text::byte_len(self.input)
        &&& command::begins_with_slash(text::trimmed_start(self.input))
        &&& self.suggested_commands().len() > 0
    }

    /// The selection moves down or up, around the ends.
    pub open spec fn select_next_command(self, down: bool) -> AppModel {
        let count = self.suggested_commands().len() as int;
        if count == 0 {
            self
        } else if down {
            AppModel { palette_selection: (self.palette_selection + 1) % count, ..self }
        } else {
            AppModel { palette_selection: (self.palette_selection + count - 1) % count, ..self }
        }
    }

    /// The command that is selected in the palette.
    pub open spec fn selected_command(self) -> Option<Seq<char>> {
        let commands = self.suggested_commands();
        if 0 <= self.palette_selection < commands.len() {
            Some(commands[self.palette_selection].command)
        } else {
            None
        }
    }

    /// The selected command, if there is one, is in the composer.
    pub open spec fn accept_selected_command(self) -> AppModel {
        match self.selected_command() {
            Some(command) => self.set_input(command),
            None => self,
        }
    }

    /// The selected command adds something to what was typed.
    pub open spec fn should_complete_selected_command(self) -> bool {
        match self.selected_command() {
            None => false,
            Some(command) => {
                ||| ends_with_space(command) && self.input == text::trimmed_end(command)
                ||| text::trimmed(self.input) != text::trimmed(command) && !ends_with_space(
                    self.input,
                )
            },
        }
    }
}

// ---------------------------------------------------------------------------
// Commands
// ---------------------------------------------------------------------------

/// The usage of each task verb, separated by commas.
pub open spec fn usages(verbs: Seq<Seq<char>>) -> Seq<char>
    decreases verbs.len(),
{
    if verbs.len() == 0 {
        seq![]
    } else if verbs.len() == 1 {
        "/"@ + verbs[0] + " <target>"@
    } else {
        usages(verbs.drop_last()) + ", "@ + ("/"@ + verbs.last() + " <target>"@)
    }
}

/// The answer to a request for help.
pub open spec fn help_text(verbs: Seq<Seq<char>>) -> Seq<char> {
    "Backend tasks: "@ + (if verbs.len() == 0 {
        "none advertised yet"@
    } else {
        usages(verbs)
    })
        + ". Local commands: /scope, /report, /config, /clear, /help. Ctrl+C aborts a running command."@
}

impl AppModel {
    /// The identifier of the next request.
    pub open spec fn next_id(self) -> Seq<char> {
        "rust-"@ + text::decimal(self.process_id as nat) + "-"@ + text::decimal(
            self.bumped().request_counter as nat,
        )
    }

    /// One more request was numbered.
    pub open spec fn bumped(self) -> AppModel {
        AppModel {
            request_counter: if self.request_counter < u64::MAX {
                (self.request_counter + 1) as u64
            } else {
                u64::MAX
            },
            ..self
        }
    }

    /// A task is armed, and waits for its confirmation.
    pub open spec fn request_task(self, verb: Seq<char>, arguments: Seq<char>) -> AppModel {
        let arguments = text::trimmed(arguments);
        if self.mode == ExecutionMode::Plan {
            self.error(
                "Plan mode is read-only. Press Tab to switch to Agent before running a task."@,
            )
        } else if arguments.len() == 0 {
            self.error(
                "/"@ + verb + " requires a target: /"@ + verb
                    + " <target> [--only-port N] [--only-host H] [--blocked-host H]"@,
            )
        } else {
            AppModel { pending_task: Some("/"@ + verb + " "@ + arguments), ..self }.status(
                "/"@ + verb + " armed for "@ + command::first_word(arguments)
                    + ". Press Y to run, or Esc to cancel."@,
            )
        }
    }

    /// A management operation is asked of the backend, if it can take it now.
    pub open spec fn request_control(self, operation: Seq<char>, arguments: JsonView) -> (
        AppModel,
        Option<DispatchView>,
    ) {
        if self.worker_active {
            (
                self.error("Administrative settings cannot change while a task is running."@),
                None,
            )
        } else if !self.backend_ready {
            (self.error("The Python backend is not ready."@), None)
        } else if !self.backend_control_operations.contains(operation) {
            (
                self.error(
                    "The connected backend does not support control operation "@ + operation
                        + "."@,
                ),
                None,
            )
        } else if !self.backend_connected {
            (self.bumped().control_failed(operation, "backend disconnected"@), None)
        } else {
            (
                self.bumped(),
                Some(
                    DispatchView {
                        purpose: PurposeView::Scope(operation),
                        request: RequestView::new(
                            "control"@,
                            self.next_id(),
                            None,
                            JsonView::Object(
                                seq![
                                    ("operation"@, JsonView::Text(operation)),
                                    ("arguments"@, arguments),
                                ],
                            ),
                        ),
                    },
                ),
            )
        }
    }

    /// A management operation did not reach the backend.
    pub open spec fn control_failed(self, operation: Seq<char>, reason: Seq<char>) -> AppModel {
        self.error("Could not send "@ + operation + " to Python backend: "@ + reason)
    }

    /// The session scope is to be changed or reset.
    pub open spec fn request_scope_control(self, arguments: Seq<char>) -> (
        AppModel,
        Option<DispatchView>,
    ) {
        let arguments = text::trimmed(arguments);
        if arguments.len() == 0 {
            (
                self.status(
                    "Usage: /scope [--only-host H] [--only-port N] [--only-path P] [--blocked-host H] [--blocked-path P] [--allow-actions A,B] [--block-actions A,B], or /scope --clear."@,
                ),
                None,
            )
        } else if arguments == "--clear"@ {
            self.request_control("session.scope.reset"@, JsonView::Object(seq![]))
        } else {
            self.request_control(
                "session.scope.update"@,
                JsonView::Object(seq![("command_line"@, JsonView::Text(arguments))]),
            )
        }
    }

    /// What a submitted command does, once it is in the history and the composer is empty.
    pub open spec fn run_command(self, command: Seq<char>) -> (AppModel, Option<DispatchView>) {
        if command == "/help"@ {
            (self.status(help_text(self.backend_commands)), None)
        } else if command == "/clear"@ {
            (
                AppModel {
                    transcript: seq![],
                    transcript_scroll: 0,
                    transcript_follow: true,
                    ..self
                }.status("Transcript cleared. Findings remain available in the inspector."@),
                None,
            )
        } else if command == "/report"@ {
            (
                self.status(
                    "Use vulnclaw report <result.json> [--pdf] to write the report; the TUI shows findings live."@,
                ),
                None,
            )
        } else if command == "/config"@ {
            (
                self.status(
                    "Use vulnclaw config set <key> <value> for llm.provider / llm.api_key / llm.base_url / llm.model."@,
                ),
                None,
            )
        } else {
            match command::slash_parts(command) {
                Some((verb, arguments)) => if verb == "scope"@ {
                    self.request_scope_control(arguments)
                } else if self.backend_commands.contains(verb) {
                    (self.request_task(verb, arguments), None)
                } else {
                    (self.error("Unknown command: "@ + command), None)
                },
                None => (self.error("Unknown command: "@ + command), None),
            }
        }
    }

    /// The command in the composer, without a pasted prompt.
    pub open spec fn typed_command(self) -> Seq<char> {
        command::without_prompt(text::trimmed(self.input))
    }

    /// The command in the composer is recorded, echoed and carried out.
    pub open spec fn submit(self) -> (AppModel, Option<DispatchView>) {
        let command = self.typed_command();
        if command.len() == 0 {
            (self, None)
        } else {
            self.record_command(command).push(
                TranscriptKind::User,
                "> "@ + command,
            ).clear_composer().run_command(command)
        }
    }
}

// ---------------------------------------------------------------------------
// Tasks
// ---------------------------------------------------------------------------

impl AppModel {
    /// The identifier of the next task.
    pub open spec fn next_task_id(self) -> Seq<char> {
        "task-"@ + text::decimal(self.process_id as nat) + "-"@ + text::decimal(
            (self.request_counter + 1) as nat,
        )
    }

    /// A task is submitted at the instant `now`, if the backend can take it.
    pub open spec fn start_task(self, command_line: Seq<char>, now: Instant) -> (
        AppModel,
        Option<DispatchView>,
    ) {
        let submitted = AppModel {
            active_receipt: Some(
                ReceiptView { command: command_line, phase: "Submitting"@, findings: 0 },
            ),
            worker_active: true,
            worker_started_at: Some(now),
            active_task_id: Some(self.next_task_id()),
            ..self.bumped()
        };
        if self.worker_active {
            (self.error("A VulnClaw command is already running."@), None)
        } else if !self.backend_ready {
            (self.error("The Python backend is not ready."@), None)
        } else if !self.backend_connected {
            (submitted.submission_failed("backend disconnected"@), None)
        } else {
            (
                submitted,
                Some(
                    DispatchView {
                        purpose: PurposeView::StartTask,
                        request: RequestView::new(
                            "start_task"@,
                            self.next_id(),
                            Some(self.next_task_id()),
                            JsonView::Object(
                                seq![("command_line"@, JsonView::Text(command_line))],
                            ),
                        ),
                    },
                ),
            )
        }
    }

    /// A task did not reach the backend.
    pub open spec fn submission_failed(self, reason: Seq<char>) -> AppModel {
        self.finish_task("Failed to submit"@).error(
            "Could not submit task to Python backend: "@ + reason,
        )
    }

    /// The armed task is confirmed at the instant `now`.
    pub open spec fn confirm_task(self, now: Instant) -> (AppModel, Option<DispatchView>) {
        match self.pending_task {
            None => (self, None),
            Some(command_line) => AppModel { pending_task: None, ..self }.status(
                "TUI confirmation recorded. Starting task."@,
            ).start_task(command_line, now),
        }
    }

    /// The armed task is dismissed.
    pub open spec fn dismiss_task(self) -> AppModel {
        match self.pending_task {
            None => self,
            Some(_) => AppModel { pending_task: None, ..self }.status(
                "Task command cancelled before execution."@,
            ),
        }
    }

    /// The cancellation of the running task is asked of the backend, if it can cancel.
    pub open spec fn stop_worker(self) -> (AppModel, Option<DispatchView>) {
        match self.active_task_id {
            None => (self, None),
            Some(task_id) => if !self.backend_supports_cancellation {
                (
                    self.error("The connected backend does not support task cancellation."@),
                    None,
                )
            } else if !self.backend_connected {
                (
                    self.bumped().error("Could not cancel task: backend disconnected."@),
                    None,
                )
            } else {
                (
                    self.bumped(),
                    Some(
                        DispatchView {
                            purpose: PurposeView::CancelTask,
                            request: RequestView::new(
                                "cancel_task"@,
                                self.next_id(),
                                Some(task_id),
                                JsonView::Object(seq![]),
                            ),
                        },
                    ),
                )
            },
        }
    }

    /// A request was delivered, or was not for the given reason.
    pub open spec fn settle(
        self,
        purpose: PurposeView,
        outcome: Result<(), Seq<char>>,
    ) -> AppModel {
        match (purpose, outcome) {
            (PurposeView::Initialize, Ok(())) => AppModel {
                backend_connected: true,
                ..self
            }.status("Connecting to the VulnClaw Python backend..."@),
            (PurposeView::Initialize, Err(reason)) => self.error(
                "Could not initialize Python backend: "@ + reason,
            ),
            (PurposeView::StartTask, Ok(())) => self,
            (PurposeView::StartTask, Err(reason)) => self.submission_failed(reason),
            (PurposeView::Scope(_), Ok(())) => self.status("Session scope change requested."@),
            (PurposeView::Scope(operation), Err(reason)) => self.control_failed(operation, reason),
            (PurposeView::CancelTask, Ok(())) => self.update_receipt("Cancelling"@).status(
                "Cancellation requested; waiting for Python checkpoint."@,
            ),
            (PurposeView::CancelTask, Err(reason)) => self.error(
                "Could not cancel task: "@ + reason,
            ),
        }
    }

    /// A backend process was started, or was not for the given reason.
    pub open spec fn connect_backend(
        self,
        spawned: Result<(), Seq<char>>,
        bootstrap: JsonView,
    ) -> (AppModel, Option<DispatchView>) {
        match spawned {
            Err(reason) => (
                self.error("Could not start VulnClaw Python backend: "@ + reason),
                None,
            ),
            Ok(()) => (
                self.bumped(),
                Some(
                    DispatchView {
                        purpose: PurposeView::Initialize,
                        request: RequestView::new(
                            "initialize"@,
                            self.next_id(),
                            None,
                            JsonView::Object(
                                seq![
                                    (
                                        "client"@,
                                        JsonView::Object(
                                            seq![
                                                ("name"@, JsonView::Text("vulnclaw-tui-native"@)),
                                                (
                                                    "version"@,
                                                    JsonView::Text(protocol::CLIENT_VERSION@),
                                                ),
                                            ],
                                        ),
                                    ),
                                    ("bootstrap"@, bootstrap),
                                ],
                            ),
                        ),
                    },
                ),
            ),
        }
    }

    /// The connection to the backend is given up.
    pub open spec fn shutdown_backend(self) -> (AppModel, Option<RequestView>) {
        if !self.backend_connected {
            (self, None)
        } else {
            (
                AppModel {
                    backend_connected: false,
                    backend_ready: false,
                    backend_commands: seq![],
                    backend_control_operations: seq![],
                    backend_supports_cancellation: false,
                    ..self.bumped()
                },
                Some(
                    RequestView::new("shutdown"@, self.next_id(), None, JsonView::Object(seq![])),
                ),
            )
        }
    }

    /// A session was saved at a place, or was not for the given reason.
    pub open spec fn save_session(self, outcome: Result<Seq<char>, Seq<char>>) -> AppModel {
        match outcome {
            Ok(place) => self.status("Session saved: "@ + place),
            Err(reason) => self.error("Could not save session: "@ + reason),
        }
    }

    /// A session was restored, or was not for the given reason.
    pub open spec fn restore_session(self, outcome: Result<(), Seq<char>>) -> AppModel {
        match outcome {
            Ok(()) => self.status("Session restored."@),
            Err(reason) => self.error("Could not restore session: "@ + reason),
        }
    }
}

// ---------------------------------------------------------------------------
// Events
// ---------------------------------------------------------------------------

/// The verbs among the advertised commands.
pub open spec fn verbs_of(commands: Seq<Seq<char>>) -> Seq<Seq<char>>
    decreases commands.len(),
{
    if commands.len() == 0 {
        seq![]
    } else {
        match command::normalized_verb(commands.last()) {
            Some(verb) => verbs_of(commands.drop_last()).push(verb),
            None => verbs_of(commands.drop_last()),
        }
    }
}

/// The operations whose names are not blank.
pub open spec fn named_operations(operations: Seq<Seq<char>>) -> Seq<Seq<char>>
    decreases operations.len(),
{
    if operations.len() == 0 {
        seq![]
    } else if text::trimmed(operations.last()).len() > 0 {
        named_operations(operations.drop_last()).push(operations.last())
    } else {
        named_operations(operations.drop_last())
    }
}

/// The first finding with the given identifier, or the number of findings.
pub open spec fn finding_index(findings: Seq<FindingView>, id: Seq<char>) -> int
    decreases findings.len(),
{
    if findings.len() == 0 || findings[0].id == id {
        0
    } else {
        1 + finding_index(findings.drop_first(), id)
    }
}

/// The skills of the runtime as a tree.
pub open spec fn runtime_skills(names: Seq<Seq<char>>) -> Seq<SkillView> {
    seq![
        SkillView {
            name: "Python skills"@,
            children: names.map_values(
                |name: Seq<char>| SkillView { name, children: seq![] },
            ),
        },
    ]
}

/// A text member, or nothing where there is no such member.
pub open spec fn text_or_empty(value: JsonView, name: Seq<char>) -> Seq<char> {
    match value.text_at(name) {
        Some(content) => content,
        None => seq![],
    }
}

/// The name of the run that a task result tells.
pub open spec fn run_name(result: JsonView) -> Seq<char> {
    match result.get("run"@) {
        Some(run) => text_or_empty(run, "name"@),
        None => seq![],
    }
}

impl AppModel {
    /// The given task is the running one.
    pub open spec fn is_current_task(self, task_id: Seq<char>) -> bool {
        self.active_task_id == Some(task_id)
    }

    /// The state that the backend reports takes the place of what was known.
    pub open spec fn apply_backend_state(self, state: SnapshotView) -> AppModel {
        AppModel {
            target: state.target,
            phase: state.phase,
            findings: state.findings,
            worker_active: state.task.active,
            active_task_id: state.task.task_id,
            task_constraints: state.task_constraints,
            last_run: state.last_run,
            evidence: state.evidence,
            constraint_violations: state.constraint_violations,
            ..self
        }.count_findings()
    }

    /// A finding takes the place of the one with its identifier, or is added and announced.
    pub open spec fn upsert_finding(self, finding: FindingView) -> AppModel {
        let index = finding_index(self.findings, finding.id);
        let updated = if finding.id.len() > 0 && index < self.findings.len() {
            AppModel { findings: self.findings.update(index, finding), ..self }
        } else {
            AppModel { findings: self.findings.push(finding), ..self }.push(
                TranscriptKind::Finding,
                finding.summary(),
            )
        };
        updated.count_findings().update_receipt("Receiving findings"@)
    }

    /// What the backend can do is known. Without authoritative state it gets no tasks.
    pub open spec fn learn_capabilities(self, capabilities: CapabilitiesView) -> AppModel {
        let known = AppModel {
            backend_commands: order::sorted_unique(verbs_of(capabilities.commands)),
            backend_control_operations: order::sorted_unique(
                named_operations(capabilities.control_operations),
            ),
            backend_supports_cancellation: capabilities.cancellation,
            ..self
        };
        if capabilities.authoritative_state {
            known
        } else {
            AppModel { backend_commands: seq![], ..known }.error(
                "Backend does not advertise authoritative state; refusing task commands."@,
            )
        }
    }

    /// The skills of the runtime, where it has any, are the skills of the workbench.
    pub open spec fn learn_skills(self, names: Seq<Seq<char>>) -> AppModel {
        if names.len() > 0 {
            AppModel { skills: runtime_skills(names), ..self }
        } else {
            self
        }
    }

    /// The user is told of a backend that is ready.
    pub open spec fn announce_backend(
        self,
        backend: BackendInfoView,
        runtime: RuntimeView,
    ) -> AppModel {
        let announced = self.status(
            "Python backend ready (pid "@ + text::decimal(backend.pid as nat) + ", VulnClaw "@
                + backend.version + ", "@ + runtime.provider + "/"@ + runtime.model + ")."@,
        );
        if runtime.config_ready {
            announced
        } else {
            announced.error(
                "LLM credentials are not configured. Run `vulnclaw config set` before starting a task."@,
            )
        }
    }

    /// The backend is ready.
    pub open spec fn backend_is_ready(
        self,
        backend: BackendInfoView,
        capabilities: CapabilitiesView,
        runtime: RuntimeView,
        state: SnapshotView,
    ) -> AppModel {
        AppModel {
            backend_ready: true,
            backend_pid: Some(backend.pid),
            config_ready: Some(runtime.config_ready),
            ..self
        }.learn_capabilities(capabilities).apply_backend_state(state).learn_skills(
            runtime.skills,
        ).announce_backend(backend, runtime)
    }

    /// A task of ours has begun at the instant `now`.
    pub open spec fn task_has_started(
        self,
        task: JsonView,
        state: SnapshotView,
        now: Instant,
    ) -> AppModel {
        AppModel { worker_active: true, worker_started_at: Some(now), ..self }.apply_backend_state(
            state,
        ).update_receipt(text_or_empty(task, "command"@) + " running"@).name_command(
            text_or_empty(task, "normalized_command"@),
        )
    }

    /// The receipt of the running task tells the given command line, unless that is empty.
    pub open spec fn name_command(self, line: Seq<char>) -> AppModel {
        match self.active_receipt {
            Some(receipt) => if line.len() > 0 {
                AppModel { active_receipt: Some(ReceiptView { command: line, ..receipt }), ..self }
            } else {
                self
            },
            None => self,
        }
    }

    /// The running task was cancelled.
    pub open spec fn task_was_cancelled(self, state: SnapshotView) -> AppModel {
        self.apply_backend_state(state).finish_task("Cancelled"@).status(
            "VulnClaw task cancelled; backend session remains available."@,
        )
    }

    /// The running task adds a line to the transcript in the given phase.
    pub open spec fn narrate(
        self,
        phase: Seq<char>,
        kind: TranscriptKind,
        line: Seq<char>,
    ) -> AppModel {
        self.update_receipt(phase).push(kind, line)
    }

    /// The running task has completed.
    pub open spec fn task_has_completed(self, result: JsonView, state: SnapshotView) -> AppModel {
        let name = run_name(result);
        self.apply_backend_state(state).finish_task("Completed"@).status(
            if name.len() == 0 {
                "VulnClaw task completed."@
            } else {
                "VulnClaw task completed. Run: "@ + name
            },
        )
    }

    /// The running task has failed.
    pub open spec fn task_has_failed(self, error: JsonView, state: SnapshotView) -> AppModel {
        self.apply_backend_state(state).finish_task("Failed"@).error(
            "VulnClaw task failed: "@ + (match error.text_at("message"@) {
                Some(message) => message,
                None => "task failed"@,
            }),
        )
    }

    /// A management operation was answered.
    pub open spec fn control_has_answered(
        self,
        operation: Seq<char>,
        result: JsonView,
        state: Option<SnapshotView>,
    ) -> AppModel {
        let current = match state {
            Some(snapshot) => self.apply_backend_state(snapshot),
            None => self,
        };
        current.status(
            match result.text_at("message"@) {
                Some(message) => message,
                None => "Backend control "@ + operation + " completed."@,
            },
        )
    }

    /// The backend refused a request; if it was about the running task, that has ended.
    pub open spec fn backend_has_refused(
        self,
        task_id: Option<Seq<char>>,
        code: Seq<char>,
        message: Seq<char>,
    ) -> AppModel {
        let current = if task_id is Some && task_id == self.active_task_id {
            self.finish_task("Rejected"@)
        } else {
            self
        };
        current.error("Backend "@ + code + ": "@ + message)
    }

    /// The backend said goodbye.
    pub open spec fn backend_has_shut_down(self) -> AppModel {
        AppModel {
            backend_ready: false,
            backend_commands: seq![],
            backend_control_operations: seq![],
            ..self
        }
    }

    /// The task that an event is about; `None` for an event of the session.
    pub open spec fn task_of(event: EventView) -> Option<Seq<char>> {
        match event {
            EventView::TaskStarted { task_id, .. } => Some(task_id),
            EventView::Status { task_id, .. } => Some(task_id),
            EventView::Reasoning { task_id, .. } => Some(task_id),
            EventView::Log { task_id, .. } => Some(task_id),
            EventView::ToolCall { task_id, .. } => Some(task_id),
            EventView::ToolResult { task_id, .. } => Some(task_id),
            EventView::Finding { task_id, .. } => Some(task_id),
            EventView::ApprovalRequired { task_id, .. } => Some(task_id),
            EventView::TaskCompleted { task_id, .. } => Some(task_id),
            EventView::TaskCancelled { task_id, .. } => Some(task_id),
            EventView::TaskFailed { task_id, .. } => Some(task_id),
            _ => None,
        }
    }

    /// The event is about the session or about the running task.
    pub open spec fn concerns(self, event: EventView) -> bool {
        match Self::task_of(event) {
            Some(task_id) => self.is_current_task(task_id),
            None => true,
        }
    }

    /// What an event that comes at the instant `now` does, if it is about the session or about
    /// the running task.
    pub open spec fn heed(self, event: EventView, now: Instant) -> AppModel {
        match event {
            EventView::Ready { backend, capabilities, runtime, state, .. } =>
                self.backend_is_ready(backend, capabilities, runtime, state),
            EventView::State { state, .. } => self.apply_backend_state(state),
            EventView::TaskStarted { task, state, .. } => self.task_has_started(task, state, now),
            EventView::Status { status, .. } => self.narrate(
                status,
                TranscriptKind::Status,
                status,
            ),
            EventView::Finding { finding, .. } => self.upsert_finding(finding),
            EventView::Reasoning { text, .. } => self.narrate(
                "Thinking"@,
                TranscriptKind::Reasoning,
                text,
            ),
            EventView::Log { message, .. } => self.narrate(
                "Running"@,
                TranscriptKind::Log,
                message,
            ),
            EventView::ToolCall { tool, arguments, .. } => self.narrate(
                "Using tool"@,
                TranscriptKind::Log,
                "→ tool: "@ + tool + " "@ + command::truncated(arguments, 160),
            ),
            EventView::ToolResult { result, .. } => self.narrate(
                "Running"@,
                TranscriptKind::Log,
                "→ result: "@ + command::truncated(result, 240),
            ),
            EventView::ApprovalRequired { question, .. } => self.status(
                "Approval required: "@ + question,
            ),
            EventView::TaskCompleted { result, state, .. } => self.task_has_completed(
                result,
                state,
            ),
            EventView::TaskCancelled { state, .. } => self.task_was_cancelled(state),
            EventView::TaskFailed { error, state, .. } => self.task_has_failed(error, state),
            EventView::ControlResult { operation, result, state, .. } => self.control_has_answered(
                operation,
                result,
                state,
            ),
            EventView::Error { task_id, code, message, .. } => self.backend_has_refused(
                task_id,
                code,
                message,
            ),
            EventView::ShutdownComplete { .. } => self.backend_has_shut_down(),
        }
    }

    /// What the end of the backend process does.
    pub open spec fn backend_has_exited(self, success: bool) -> AppModel {
        let disconnected = AppModel {
            backend_connected: false,
            backend_ready: false,
            backend_pid: None,
            backend_commands: seq![],
            backend_control_operations: seq![],
            backend_supports_cancellation: false,
            worker_active: false,
            worker_started_at: None,
            active_receipt: None,
            last_receipt: match self.active_receipt {
                Some(receipt) => Some(ReceiptView { phase: "Backend disconnected"@, ..receipt }),
                None => self.last_receipt,
            },
            active_task_id: None,
            ..self
        };
        if !self.running {
            disconnected
        } else if success {
            disconnected.error("Python backend exited."@)
        } else {
            disconnected.error("Python backend exited with a non-zero status."@)
        }
    }

    /// What an event that comes at the instant `now` does. Events of a task that is not the
    /// running one do nothing.
    pub open spec fn apply_event(self, event: AppEventView, now: Instant) -> AppModel {
        match event {
            AppEventView::Backend(reported) => if self.concerns(reported) {
                self.heed(reported, now)
            } else {
                self
            },
            AppEventView::BackendDiagnostic(message) => self.push(
                TranscriptKind::Log,
                "backend: "@ + message,
            ),
            AppEventView::BackendExited(success) => self.backend_has_exited(success),
        }
    }
}

} // verus!
