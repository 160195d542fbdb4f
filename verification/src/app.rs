//! The state of the workbench and the operations on its transcript and its receipts.
use std::time::Instant;

use vstd::prelude::*;

use crate::event;
use crate::event::Finding;
use crate::json;
use crate::json::Json;
use crate::layout::Rect;
use crate::model::{
    AppModel, DispatchView, ItemView, PurposeView, ReceiptView, SkillView, SlashView,
};
use crate::modes::{ActivePane, ExecutionMode, PermissionMode};
use crate::protocol::ClientRequest;
use crate::text;

verus! {

/// Who speaks in an entry of the transcript.
#[derive(Clone, Copy, Debug, PartialEq, Eq, Structural)]
pub enum TranscriptKind {
    User,
    System,
    Status,
    Log,
    Reasoning,
    Error,
    Finding,
}

/// One entry of the transcript.
#[derive(Clone, Debug)]
pub struct TranscriptItem {
    pub kind: TranscriptKind,
    pub text: String,
}

impl View for TranscriptItem {
    type V = ItemView;

    open spec fn view(&self) -> ItemView {
        ItemView { kind: self.kind, text: self.text@ }
    }
}

/// The contents of a list of entries.
pub open spec fn items_view(items: Seq<TranscriptItem>) -> Seq<ItemView> {
    items.map_values(|item: TranscriptItem| item@)
}

/// One more entry adds its content behind the others.
pub proof fn lemma_items_push(items: Seq<TranscriptItem>, item: TranscriptItem)
    ensures
        items_view(items.push(item)) == items_view(items).push(item@),
{
    assert(items_view(items.push(item)) =~= items_view(items).push(item@));
}

/// A command that the palette offers.
#[derive(Clone, Debug)]
pub struct SlashCommand {
    pub command: String,
    pub description: &'static str,
}

impl View for SlashCommand {
    type V = SlashView;

    open spec fn view(&self) -> SlashView {
        SlashView { command: self.command@, description: self.description@ }
    }
}

/// The contents of a list of commands.
pub open spec fn commands_view(commands: Seq<SlashCommand>) -> Seq<SlashView> {
    commands.map_values(|command: SlashCommand| command@)
}

/// The account of one task.
#[derive(Clone, Debug)]
pub struct OperationReceipt {
    pub command: String,
    pub phase: String,
    pub findings: usize,
}

impl View for OperationReceipt {
    type V = ReceiptView;

    open spec fn view(&self) -> ReceiptView {
        ReceiptView {
            command: self.command@,
            phase: self.phase@,
            findings: self.findings as int,
        }
    }
}

/// The content of an optional receipt.
pub open spec fn opt_receipt(receipt: Option<OperationReceipt>) -> Option<ReceiptView> {
    match receipt {
        Some(inner) => Some(inner@),
        None => None,
    }
}

/// A node of the skill tree.
#[derive(Debug)]
pub struct SkillNode {
    pub name: String,
    pub children: Vec<SkillNode>,
}

/// The content of a node of the skill tree.
pub open spec fn skill_view(node: SkillNode) -> SkillView
    decreases node,
{
    SkillView {
        name: node.name@,
        children: Seq::new(
            node.children@.len(),
            |i: int|
                if 0 <= i < node.children@.len() {
                    skill_view(node.children@[i])
                } else {
                    SkillView { name: Seq::empty(), children: Seq::empty() }
                },
        ),
    }
}

impl View for SkillNode {
    type V = SkillView;

    open spec fn view(&self) -> SkillView {
        skill_view(*self)
    }
}

/// The contents of a list of skill nodes.
pub open spec fn skills_view(nodes: Seq<SkillNode>) -> Seq<SkillView> {
    nodes.map_values(|node: SkillNode| node@)
}

/// Why a request is sent.
#[derive(Clone, Debug)]
pub enum Purpose {
    /// The session with the backend begins.
    Initialize,
    /// A task is submitted.
    StartTask,
    /// The session scope is changed by the named operation.
    Scope(String),
    /// The running task is cancelled.
    CancelTask,
}

impl View for Purpose {
    type V = PurposeView;

    open spec fn view(&self) -> PurposeView {
        match *self {
            Purpose::Initialize => PurposeView::Initialize,
            Purpose::StartTask => PurposeView::StartTask,
            Purpose::Scope(operation) => PurposeView::Scope(operation@),
            Purpose::CancelTask => PurposeView::CancelTask,
        }
    }
}

/// A request on its way to the backend. Whether it was delivered is told to
/// [`App::settle`].
#[derive(Clone, Debug)]
pub struct Dispatch {
    pub purpose: Purpose,
    pub request: ClientRequest,
}

impl View for Dispatch {
    type V = DispatchView;

    open spec fn view(&self) -> DispatchView {
        DispatchView { purpose: self.purpose@, request: self.request@ }
    }
}

/// The content of an optional dispatch.
pub open spec fn opt_dispatch(dispatch: Option<Dispatch>) -> Option<DispatchView> {
    match dispatch {
        Some(inner) => Some(inner@),
        None => None,
    }
}

/// The clock value type `std::time::Instant`, carried through without looking inside.
#[verifier::external_type_specification]
#[verifier::external_body]
pub struct ExInstant(std::time::Instant);

/// `std::time::Instant::now` reads the monotonic clock; nothing is claimed of the reading.
pub assume_specification[ std::time::Instant::now ]() -> std::time::Instant;

/// The state of the workbench.
#[derive(Debug)]
pub struct App {
    pub mode: ExecutionMode,
    pub permission: PermissionMode,
    pub active_pane: ActivePane,
    pub input: String,
    pub input_cursor: usize,
    pub command_history: Vec<String>,
    pub history_index: Option<usize>,
    pub history_draft: String,
    pub transcript: Vec<TranscriptItem>,
    pub findings: Vec<Finding>,
    pub findings_scroll: u16,
    pub transcript_scroll: u16,
    /// When true the transcript tracks new output automatically, pinning the view to the
    /// bottom as lines arrive. Scrolling up to read history clears it; scrolling back to
    /// the bottom sets it again.
    pub transcript_follow: bool,
    pub palette_selection: usize,
    pub show_reasoning: bool,
    pub running: bool,
    pub worker_active: bool,
    /// There is a persistent backend process to send requests to.
    pub backend_connected: bool,
    pub backend_ready: bool,
    pub backend_pid: Option<u32>,
    pub config_ready: Option<bool>,
    /// Task verbs advertised by the backend. Local presentation commands such as `/help`
    /// are deliberately separate.
    pub backend_commands: Vec<String>,
    /// Optional management operations advertised by the backend.
    pub backend_control_operations: Vec<String>,
    pub backend_supports_cancellation: bool,
    pub target: String,
    pub phase: String,
    pub active_task_id: Option<String>,
    pub task_constraints: Json,
    pub last_run: Option<Json>,
    pub evidence: Vec<Json>,
    pub constraint_violations: Vec<String>,
    /// The number of this process, which identifiers carry.
    pub process_id: u32,
    /// How many requests were numbered.
    pub request_counter: u64,
    pub active_receipt: Option<OperationReceipt>,
    pub last_receipt: Option<OperationReceipt>,
    /// Monotonic instant the current worker started, for a live elapsed-time readout.
    pub worker_started_at: Option<Instant>,
    pub show_attack_chain: bool,
    pub pending_task: Option<String>,
    pub skills: Vec<SkillNode>,
    /// Last known terminal viewport size, captured each frame.
    pub terminal_size: Rect,
    /// Transient feedback line. Cleared on the next key press.
    pub toast: String,
}

impl View for App {
    type V = AppModel;

    open spec fn view(&self) -> AppModel {
        AppModel {
            mode: self.mode,
            permission: self.permission,
            active_pane: self.active_pane,
            input: self.input@,
            input_cursor: self.input_cursor as int,
            command_history: text::texts(self.command_history@),
            history_index: self.history_index,
            history_draft: self.history_draft@,
            transcript: items_view(self.transcript@),
            findings: event::findings_view(self.findings@),
            findings_scroll: self.findings_scroll as int,
            transcript_scroll: self.transcript_scroll as int,
            transcript_follow: self.transcript_follow,
            palette_selection: self.palette_selection as int,
            show_reasoning: self.show_reasoning,
            running: self.running,
            worker_active: self.worker_active,
            backend_connected: self.backend_connected,
            backend_ready: self.backend_ready,
            backend_pid: self.backend_pid,
            config_ready: self.config_ready,
            backend_commands: text::texts(self.backend_commands@),
            backend_control_operations: text::texts(self.backend_control_operations@),
            backend_supports_cancellation: self.backend_supports_cancellation,
            target: self.target@,
            phase: self.phase@,
            active_task_id: text::opt_text(self.active_task_id),
            task_constraints: self.task_constraints@,
            last_run: json::opt_view(self.last_run),
            evidence: json::views(self.evidence@),
            constraint_violations: text::texts(self.constraint_violations@),
            process_id: self.process_id,
            request_counter: self.request_counter,
            active_receipt: opt_receipt(self.active_receipt),
            last_receipt: opt_receipt(self.last_receipt),
            worker_started_at: self.worker_started_at,
            show_attack_chain: self.show_attack_chain,
            pending_task: text::opt_text(self.pending_task),
            skills: skills_view(self.skills@),
            terminal_size: self.terminal_size,
            toast: self.toast@,
        }
    }
}

impl App {
    /// A session of the process `process_id` that has just begun, greeted with `welcome`
    /// and `ready`. It is not connected to a backend yet.
    pub fn new(process_id: u32, welcome: &str, ready: &str, skills: Vec<SkillNode>) -> (app: Self)
        ensures
            app@ == AppModel::fresh(process_id, welcome@, ready@, skills_view(skills@)),
            app@.well_formed(),
    {
        let mut transcript: Vec<TranscriptItem> = Vec::new();
        transcript.push(TranscriptItem { kind: TranscriptKind::System, text: welcome.to_owned() });
        transcript.push(TranscriptItem { kind: TranscriptKind::Status, text: ready.to_owned() });
        let app = Self {
            mode: ExecutionMode::Agent,
            permission: PermissionMode::AutoReview,
            active_pane: ActivePane::Transcript,
            input: String::new(),
            input_cursor: 0,
            command_history: Vec::new(),
            history_index: None,
            history_draft: String::new(),
            transcript,
            findings: Vec::new(),
            findings_scroll: 0,
            transcript_scroll: 0,
            transcript_follow: true,
            palette_selection: 0,
            show_reasoning: true,
            running: true,
            worker_active: false,
            backend_connected: false,
            backend_ready: false,
            backend_pid: None,
            config_ready: None,
            backend_commands: Vec::new(),
            backend_control_operations: Vec::new(),
            backend_supports_cancellation: false,
            target: String::new(),
            phase: "idle".to_owned(),
            active_task_id: None,
            task_constraints: Json::empty_object(),
            last_run: None,
            evidence: Vec::new(),
            constraint_violations: Vec::new(),
            process_id,
            request_counter: 0,
            active_receipt: None,
            last_receipt: None,
            worker_started_at: None,
            show_attack_chain: false,
            pending_task: None,
            skills,
            terminal_size: Rect::default(),
            toast: String::new(),
        };
        proof {
            let fresh = AppModel::fresh(process_id, welcome@, ready@, skills_view(skills@));
            assert(app@.transcript =~= fresh.transcript);
            assert(app@ =~= fresh);
            text::lemma_caret_of_offset(app@.input, 0);
            assert(app@.input.take(0) =~= app@.input);
        }
        app
    }

    /// Adds an entry to the transcript.
    pub fn push(&mut self, kind: TranscriptKind, text: String)
        ensures
            final(self)@ == old(self)@.push(kind, text@),
    {
        let item = TranscriptItem { kind, text };
        proof {
            lemma_items_push(self.transcript@, item);
        }
        self.transcript.push(item);
    }

    /// Adds a status line to the transcript.
    pub fn status(&mut self, text: &str)
        ensures
            final(self)@ == old(self)@.status(text@),
    {
        self.push(TranscriptKind::Status, text.to_owned());
    }

    /// Adds an error line to the transcript.
    pub fn error(&mut self, text: &str)
        ensures
            final(self)@ == old(self)@.error(text@),
    {
        self.push(TranscriptKind::Error, text.to_owned());
    }

    /// Tells the receipt of the running task its phase.
    pub fn update_receipt(&mut self, phase: &str)
        ensures
            final(self)@ == old(self)@.update_receipt(phase@),
    {
        match self.active_receipt.take() {
            Some(receipt) => {
                self.active_receipt = Some(
                    OperationReceipt {
                        command: receipt.command,
                        phase: phase.to_owned(),
                        findings: receipt.findings,
                    },
                );
            },
            None => {},
        }
    }

    /// Tells the receipt of the running task how many findings there are.
    pub fn count_findings(&mut self)
        ensures
            final(self)@ == old(self)@.count_findings(),
    {
        match self.active_receipt.take() {
            Some(receipt) => {
                self.active_receipt = Some(
                    OperationReceipt {
                        command: receipt.command,
                        phase: receipt.phase,
                        findings: self.findings.len(),
                    },
                );
            },
            None => {},
        }
    }

    /// Ends the running task in the given phase.
    pub fn finish_task(&mut self, phase: &str)
        ensures
            final(self)@ == old(self)@.finish_task(phase@),
    {
        self.worker_active = false;
        self.worker_started_at = None;
        self.active_task_id = None;
        match self.active_receipt.take() {
            Some(receipt) => {
                self.last_receipt = Some(
                    OperationReceipt {
                        command: receipt.command,
                        phase: phase.to_owned(),
                        findings: self.findings.len(),
                    },
                );
            },
            None => {},
        }
    }

    /// Switches the execution mode and says so.
    pub fn set_mode(&mut self, mode: ExecutionMode)
        ensures
            final(self)@ == old(self)@.set_mode(mode),
    {
        self.mode = mode;
        let message = text::glue3("Execution mode switched to ", mode.label(), ".");
        self.status(message.as_str());
    }

    /// Switches to the execution mode that follows.
    pub fn cycle_mode(&mut self)
        ensures
            final(self)@ == old(self)@.cycle_mode(),
    {
        let mode = self.mode.next();
        self.set_mode(mode);
    }

    /// Switches to the permission posture that follows and says so.
    pub fn cycle_permission(&mut self)
        ensures
            final(self)@ == old(self)@.cycle_permission(),
    {
        self.permission = self.permission.next();
        let message = text::glue3(
            "Permission posture switched to ",
            self.permission.label(),
            ". Explicit confirmation still required before a task starts.",
        );
        self.status(message.as_str());
    }

    /// Gives the focus to the next pane, or to the previous one.
    pub fn cycle_active_pane(&mut self, backwards: bool)
        ensures
            final(self)@ == old(self)@.cycle_active_pane(backwards),
    {
        self.active_pane = if backwards {
            self.active_pane.previous()
        } else {
            self.active_pane.next()
        };
    }

    /// The name of the focused pane.
    pub fn active_pane_label(&self) -> (label: &'static str)
        ensures
            label@ == self.active_pane.title(),
    {
        match self.active_pane {
            ActivePane::Workspace => "Workspace",
            ActivePane::Transcript => "Session transcript",
            ActivePane::Findings => "Findings inspector",
        }
    }
}

} // verus!
