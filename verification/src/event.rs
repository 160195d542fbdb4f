//! What the backend reports: its state, its findings and the events of a task.
use vstd::prelude::*;

use crate::json;
use crate::json::{Json, JsonView};
use crate::text;

verus! {

/// The backend process that answered.
#[derive(Clone, Debug)]
pub struct BackendInfo {
    pub pid: u32,
    pub version: String,
    pub _protocol_version: u8,
}

/// The mathematical content of a [`BackendInfo`].
#[verifier::ext_equal]
pub struct BackendInfoView {
    pub pid: u32,
    pub version: Seq<char>,
    pub _protocol_version: u8,
}

impl View for BackendInfo {
    type V = BackendInfoView;

    open spec fn view(&self) -> BackendInfoView {
        BackendInfoView {
            pid: self.pid,
            version: self.version@,
            _protocol_version: self._protocol_version,
        }
    }
}

impl BackendInfoView {
    /// The content of a value that nothing was reported in.
    pub open spec fn blank() -> BackendInfoView {
        BackendInfoView {
            pid: 0,
            version: Seq::empty(),
            _protocol_version: 0,
        }
    }
}

impl Default for BackendInfo {
    fn default() -> (value: Self)
        ensures
            value@ == BackendInfoView::blank(),
    {
        let value = Self {
            pid: 0,
            version: String::new(),
            _protocol_version: 0,
        };
        assert(value@ =~~= BackendInfoView::blank());
        value
    }
}

/// The runtime that the backend configured.
#[derive(Clone, Debug)]
pub struct RuntimeInfo {
    pub config_ready: bool,
    pub provider: String,
    pub model: String,
    pub _mcp_started: u64,
    pub skills: Vec<String>,
}

/// The mathematical content of a [`RuntimeInfo`].
#[verifier::ext_equal]
pub struct RuntimeView {
    pub config_ready: bool,
    pub provider: Seq<char>,
    pub model: Seq<char>,
    pub _mcp_started: u64,
    pub skills: Seq<Seq<char>>,
}

impl View for RuntimeInfo {
    type V = RuntimeView;

    open spec fn view(&self) -> RuntimeView {
        RuntimeView {
            config_ready: self.config_ready,
            provider: self.provider@,
            model: self.model@,
            _mcp_started: self._mcp_started,
            skills: text::texts(self.skills@),
        }
    }
}

impl RuntimeView {
    /// The content of a value that nothing was reported in.
    pub open spec fn blank() -> RuntimeView {
        RuntimeView {
            config_ready: false,
            provider: Seq::empty(),
            model: Seq::empty(),
            _mcp_started: 0,
            skills: Seq::empty(),
        }
    }
}

impl Default for RuntimeInfo {
    fn default() -> (value: Self)
        ensures
            value@ == RuntimeView::blank(),
    {
        let value = Self {
            config_ready: false,
            provider: String::new(),
            model: String::new(),
            _mcp_started: 0,
            skills: Vec::new(),
        };
        assert(value@ =~~= RuntimeView::blank());
        value
    }
}

/// What the backend can do.
#[derive(Clone, Debug)]
pub struct BackendCapabilities {
    pub commands: Vec<String>,
    pub control_operations: Vec<String>,
    pub cancellation: bool,
    pub authoritative_state: bool,
}

/// The mathematical content of a [`BackendCapabilities`].
#[verifier::ext_equal]
pub struct CapabilitiesView {
    pub commands: Seq<Seq<char>>,
    pub control_operations: Seq<Seq<char>>,
    pub cancellation: bool,
    pub authoritative_state: bool,
}

impl View for BackendCapabilities {
    type V = CapabilitiesView;

    open spec fn view(&self) -> CapabilitiesView {
        CapabilitiesView {
            commands: text::texts(self.commands@),
            control_operations: text::texts(self.control_operations@),
            cancellation: self.cancellation,
            authoritative_state: self.authoritative_state,
        }
    }
}

impl CapabilitiesView {
    /// The content of a value that nothing was reported in.
    pub open spec fn blank() -> CapabilitiesView {
        CapabilitiesView {
            commands: Seq::empty(),
            control_operations: Seq::empty(),
            cancellation: false,
            authoritative_state: false,
        }
    }
}

impl Default for BackendCapabilities {
    fn default() -> (value: Self)
        ensures
            value@ == CapabilitiesView::blank(),
    {
        let value = Self {
            commands: Vec::new(),
            control_operations: Vec::new(),
            cancellation: false,
            authoritative_state: false,
        };
        assert(value@ =~~= CapabilitiesView::blank());
        value
    }
}

/// The task that the backend works on.
#[derive(Clone, Debug)]
pub struct BackendTaskState {
    pub active: bool,
    pub task_id: Option<String>,
}

/// The mathematical content of a [`BackendTaskState`].
#[verifier::ext_equal]
pub struct TaskStateView {
    pub active: bool,
    pub task_id: Option<Seq<char>>,
}

impl View for BackendTaskState {
    type V = TaskStateView;

    open spec fn view(&self) -> TaskStateView {
        TaskStateView {
            active: self.active,
            task_id: text::opt_text(self.task_id),
        }
    }
}

impl TaskStateView {
    /// The content of a value that nothing was reported in.
    pub open spec fn blank() -> TaskStateView {
        TaskStateView {
            active: false,
            task_id: None,
        }
    }
}

impl Default for BackendTaskState {
    fn default() -> (value: Self)
        ensures
            value@ == TaskStateView::blank(),
    {
        let value = Self {
            active: false,
            task_id: None,
        };
        assert(value@ =~~= TaskStateView::blank());
        value
    }
}

/// A finding.
#[derive(Clone, Debug)]
pub struct Finding {
    pub id: String,
    pub severity: String,
    pub title: String,
    pub target: String,
    pub line: Option<u64>,
    pub code_location: Option<String>,
    pub chain_depends_on: Vec<String>,
}

/// The mathematical content of a [`Finding`].
#[verifier::ext_equal]
pub struct FindingView {
    pub id: Seq<char>,
    pub severity: Seq<char>,
    pub title: Seq<char>,
    pub target: Seq<char>,
    pub line: Option<u64>,
    pub code_location: Option<Seq<char>>,
    pub chain_depends_on: Seq<Seq<char>>,
}

impl View for Finding {
    type V = FindingView;

    open spec fn view(&self) -> FindingView {
        FindingView {
            id: self.id@,
            severity: self.severity@,
            title: self.title@,
            target: self.target@,
            line: self.line,
            code_location: text::opt_text(self.code_location),
            chain_depends_on: text::texts(self.chain_depends_on@),
        }
    }
}

impl FindingView {
    /// The content of a value that nothing was reported in.
    pub open spec fn blank() -> FindingView {
        FindingView {
            id: Seq::empty(),
            severity: Seq::empty(),
            title: Seq::empty(),
            target: Seq::empty(),
            line: None,
            code_location: None,
            chain_depends_on: Seq::empty(),
        }
    }
}

impl Default for Finding {
    fn default() -> (value: Self)
        ensures
            value@ == FindingView::blank(),
    {
        let value = Self {
            id: String::new(),
            severity: String::new(),
            title: String::new(),
            target: String::new(),
            line: None,
            code_location: None,
            chain_depends_on: Vec::new(),
        };
        assert(value@ =~~= FindingView::blank());
        value
    }
}

/// The contents of a list of findings.
pub open spec fn findings_view(findings: Seq<Finding>) -> Seq<FindingView> {
    findings.map_values(|finding: Finding| finding@)
}

/// The authoritative state of the backend.
#[derive(Clone, Debug)]
pub struct StateSnapshot {
    pub target: String,
    pub phase: String,
    pub task_constraints: Json,
    pub findings: Vec<Finding>,
    pub task: BackendTaskState,
    pub last_run: Option<Json>,
    pub evidence: Vec<Json>,
    pub constraint_violations: Vec<String>,
}

/// The mathematical content of a [`StateSnapshot`].
#[verifier::ext_equal]
pub struct SnapshotView {
    pub target: Seq<char>,
    pub phase: Seq<char>,
    pub task_constraints: JsonView,
    pub findings: Seq<FindingView>,
    pub task: TaskStateView,
    pub last_run: Option<JsonView>,
    pub evidence: Seq<JsonView>,
    pub constraint_violations: Seq<Seq<char>>,
}

impl View for StateSnapshot {
    type V = SnapshotView;

    open spec fn view(&self) -> SnapshotView {
        SnapshotView {
            target: self.target@,
            phase: self.phase@,
            task_constraints: self.task_constraints@,
            findings: findings_view(self.findings@),
            task: self.task@,
            last_run: json::opt_view(self.last_run),
            evidence: json::views(self.evidence@),
            constraint_violations: text::texts(self.constraint_violations@),
        }
    }
}

impl SnapshotView {
    /// The content of a value that nothing was reported in.
    pub open spec fn blank() -> SnapshotView {
        SnapshotView {
            target: Seq::empty(),
            phase: Seq::empty(),
            task_constraints: JsonView::Null,
            findings: Seq::empty(),
            task: TaskStateView::blank(),
            last_run: None,
            evidence: Seq::empty(),
            constraint_violations: Seq::empty(),
        }
    }
}

impl Default for StateSnapshot {
    fn default() -> (value: Self)
        ensures
            value@ == SnapshotView::blank(),
    {
        let value = Self {
            target: String::new(),
            phase: String::new(),
            task_constraints: Json::Null,
            findings: Vec::new(),
            task: BackendTaskState::default(),
            last_run: None,
            evidence: Vec::new(),
            constraint_violations: Vec::new(),
        };
        assert(value@ =~~= SnapshotView::blank());
        value
    }
}

/// The content of an optional snapshot.
pub open spec fn opt_snapshot(state: Option<StateSnapshot>) -> Option<SnapshotView> {
    match state {
        Some(inner) => Some(inner@),
        None => None,
    }
}

/// An event that the backend reports.
#[derive(Clone, Debug)]
pub enum BackendEvent {
    Ready {
        request_id: String,
        backend: BackendInfo,
        capabilities: BackendCapabilities,
        runtime: RuntimeInfo,
        state: StateSnapshot,
    },
    State { request_id: Option<String>, state: StateSnapshot },
    TaskStarted {
        request_id: String,
        task_id: String,
        task: Json,
        state: StateSnapshot,
    },
    Status { task_id: String, status: String },
    Reasoning { task_id: String, text: String },
    Log { task_id: String, message: String },
    ToolCall { task_id: String, tool: String, arguments: String },
    ToolResult { task_id: String, result: String },
    Finding { task_id: String, finding: Finding },
    ApprovalRequired { task_id: String, question: String },
    TaskCompleted {
        request_id: String,
        task_id: String,
        result: Json,
        findings: Vec<Finding>,
        state: StateSnapshot,
    },
    TaskCancelled {
        request_id: String,
        task_id: String,
        state: StateSnapshot,
    },
    TaskFailed {
        request_id: String,
        task_id: String,
        error: Json,
        state: StateSnapshot,
    },
    ControlResult {
        request_id: String,
        operation: String,
        result: Json,
        state: Option<StateSnapshot>,
    },
    Error {
        request_id: Option<String>,
        task_id: Option<String>,
        code: String,
        message: String,
    },
    ShutdownComplete { request_id: String },
}

/// The mathematical content of a [`BackendEvent`].
#[verifier::ext_equal]
pub enum EventView {
    Ready {
        request_id: Seq<char>,
        backend: BackendInfoView,
        capabilities: CapabilitiesView,
        runtime: RuntimeView,
        state: SnapshotView,
    },
    State { request_id: Option<Seq<char>>, state: SnapshotView },
    TaskStarted {
        request_id: Seq<char>,
        task_id: Seq<char>,
        task: JsonView,
        state: SnapshotView,
    },
    Status { task_id: Seq<char>, status: Seq<char> },
    Reasoning { task_id: Seq<char>, text: Seq<char> },
    Log { task_id: Seq<char>, message: Seq<char> },
    ToolCall {
        task_id: Seq<char>,
        tool: Seq<char>,
        arguments: Seq<char>,
    },
    ToolResult { task_id: Seq<char>, result: Seq<char> },
    Finding { task_id: Seq<char>, finding: FindingView },
    ApprovalRequired { task_id: Seq<char>, question: Seq<char> },
    TaskCompleted {
        request_id: Seq<char>,
        task_id: Seq<char>,
        result: JsonView,
        findings: Seq<FindingView>,
        state: SnapshotView,
    },
    TaskCancelled {
        request_id: Seq<char>,
        task_id: Seq<char>,
        state: SnapshotView,
    },
    TaskFailed {
        request_id: Seq<char>,
        task_id: Seq<char>,
        error: JsonView,
        state: SnapshotView,
    },
    ControlResult {
        request_id: Seq<char>,
        operation: Seq<char>,
        result: JsonView,
        state: Option<SnapshotView>,
    },
    Error {
        request_id: Option<Seq<char>>,
        task_id: Option<Seq<char>>,
        code: Seq<char>,
        message: Seq<char>,
    },
    ShutdownComplete { request_id: Seq<char> },
}

impl View for BackendEvent {
    type V = EventView;

    open spec fn view(&self) -> EventView {
        match *self {
            BackendEvent::Ready { request_id, backend, capabilities, runtime, state } =>
                EventView::Ready {
                    request_id: request_id@,
                    backend: backend@,
                    capabilities: capabilities@,
                    runtime: runtime@,
                    state: state@,
                },
            BackendEvent::State { request_id, state } => EventView::State {
                request_id: text::opt_text(request_id),
                state: state@,
            },
            BackendEvent::TaskStarted { request_id, task_id, task, state } =>
                EventView::TaskStarted {
                    request_id: request_id@,
                    task_id: task_id@,
                    task: task@,
                    state: state@,
                },
            BackendEvent::Status { task_id, status } => EventView::Status {
                task_id: task_id@,
                status: status@,
            },
            BackendEvent::Reasoning { task_id, text } => EventView::Reasoning {
                task_id: task_id@,
                text: text@,
            },
            BackendEvent::Log { task_id, message } => EventView::Log {
                task_id: task_id@,
                message: message@,
            },
            BackendEvent::ToolCall { task_id, tool, arguments } => EventView::ToolCall {
                task_id: task_id@,
                tool: tool@,
                arguments: arguments@,
            },
            BackendEvent::ToolResult { task_id, result } => EventView::ToolResult {
                task_id: task_id@,
                result: result@,
            },
            BackendEvent::Finding { task_id, finding } => EventView::Finding {
                task_id: task_id@,
                finding: finding@,
            },
            BackendEvent::ApprovalRequired { task_id, question } => EventView::ApprovalRequired {
                task_id: task_id@,
                question: question@,
            },
            BackendEvent::TaskCompleted { request_id, task_id, result, findings, state } =>
                EventView::TaskCompleted {
                    request_id: request_id@,
                    task_id: task_id@,
                    result: result@,
                    findings: findings_view(findings@),
                    state: state@,
                },
            BackendEvent::TaskCancelled { request_id, task_id, state } => EventView::TaskCancelled {
                request_id: request_id@,
                task_id: task_id@,
                state: state@,
            },
            BackendEvent::TaskFailed { request_id, task_id, error, state } =>
                EventView::TaskFailed {
                    request_id: request_id@,
                    task_id: task_id@,
                    error: error@,
                    state: state@,
                },
            BackendEvent::ControlResult { request_id, operation, result, state } =>
                EventView::ControlResult {
                    request_id: request_id@,
                    operation: operation@,
                    result: result@,
                    state: opt_snapshot(state),
                },
            BackendEvent::Error { request_id, task_id, code, message } => EventView::Error {
                request_id: text::opt_text(request_id),
                task_id: text::opt_text(task_id),
                code: code@,
                message: message@,
            },
            BackendEvent::ShutdownComplete { request_id } => EventView::ShutdownComplete {
                request_id: request_id@,
            },
        }
    }
}

/// An event that reaches the terminal.
#[derive(Clone, Debug)]
pub enum AppEvent {
    /// The backend reported something.
    Backend(BackendEvent),
    /// The backend wrote something that is no event.
    BackendDiagnostic(String),
    /// The backend process ended, successfully or not.
    BackendExited(bool),
}

/// The mathematical content of an [`AppEvent`].
#[verifier::ext_equal]
pub enum AppEventView {
    Backend(EventView),
    BackendDiagnostic(Seq<char>),
    BackendExited(bool),
}

impl View for AppEvent {
    type V = AppEventView;

    open spec fn view(&self) -> AppEventView {
        match *self {
            AppEvent::Backend(event) => AppEventView::Backend(event@),
            AppEvent::BackendDiagnostic(message) => AppEventView::BackendDiagnostic(message@),
            AppEvent::BackendExited(success) => AppEventView::BackendExited(success),
        }
    }
}

// ---------------------------------------------------------------------------
// Summaries
// ---------------------------------------------------------------------------

impl FindingView {
    /// Where the finding is: its line, else its code location, else its target.
    pub open spec fn location(self) -> Seq<char> {
        match (self.line, self.code_location) {
            (Some(line), _) => self.target + ":"@ + text::decimal(line as nat),
            (None, Some(place)) => place,
            (None, None) => self.target,
        }
    }

    /// The finding in one line, under the given severity label.
    pub open spec fn summary_as(self, label: Seq<char>) -> Seq<char> {
        "["@ + label + "] "@ + self.title + " ("@ + self.location() + ")"@
    }

    /// The finding in one line.
    pub open spec fn summary(self) -> Seq<char> {
        self.summary_as(text::upper_case(self.severity))
    }
}

impl Finding {
    /// The finding in one line, under the given severity label.
    pub fn summary_as(&self, label: &str) -> (line: String)
        ensures
            line@ == self@.summary_as(label@),
    {
        let location = match self.line {
            Some(line) => {
                let numeral = text::numeral(line);
                text::glue3(self.target.as_str(), ":", numeral.as_str())
            },
            None => match &self.code_location {
                Some(place) => place.clone(),
                None => self.target.clone(),
            },
        };
        let mut line = text::glue5("[", label, "] ", self.title.as_str(), " (");
        line.append(location.as_str());
        line.append(")");
        line
    }

    /// The finding in one line, with its severity in upper case.
    pub fn summary(&self) -> (line: String)
        ensures
            line@ == self@.summary(),
    {
        let label = text::to_upper_case(self.severity.as_str());
        self.summary_as(label.as_str())
    }
}

} // verus!
