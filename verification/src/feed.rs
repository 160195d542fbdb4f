//! The event feed: what each event changes in the workbench.
use std::time::Instant;

use vstd::prelude::*;

use crate::app;
use crate::app::{App, OperationReceipt, SkillNode, TranscriptKind};
use crate::command;
use crate::event;
use crate::event::{
    AppEvent, BackendCapabilities, BackendEvent, BackendInfo, Finding, RuntimeInfo, StateSnapshot,
};
use crate::json::Json;
use crate::model;
use crate::order;
use crate::text;

verus! {

broadcast use text::lemma_texts_push;

/// The verbs among the advertised commands.
fn collect_verbs(commands: Vec<String>) -> (verbs: Vec<String>)
    ensures
        text::texts(verbs@) == model::verbs_of(text::texts(commands@)),
{
    let mut verbs: Vec<String> = Vec::new();
    let ghost all = text::texts(commands@);
    let mut i: usize = 0;
    assert(all.take(0) =~= seq![]);
    assert(text::texts(verbs@) =~= seq![]);
    while i < commands.len()
        invariant
            all == text::texts(commands@),
            i <= commands@.len(),
            text::texts(verbs@) == model::verbs_of(all.take(i as int)),
        decreases commands@.len() - i,
    {
        proof {
            assert(all.take(i + 1).drop_last() =~= all.take(i as int));
            assert(all.take(i + 1).last() == commands@[i as int]@);
        }
        match command::normalize_backend_command(commands[i].clone()) {
            Some(verb) => {
                verbs.push(verb);
            },
            None => {},
        }
        i += 1;
    }
    assert(all.take(i as int) =~= all);
    verbs
}

/// The operations whose names are not blank.
fn collect_operations(operations: Vec<String>) -> (named: Vec<String>)
    ensures
        text::texts(named@) == model::named_operations(text::texts(operations@)),
{
    let mut named: Vec<String> = Vec::new();
    let ghost all = text::texts(operations@);
    let mut i: usize = 0;
    assert(all.take(0) =~= seq![]);
    assert(text::texts(named@) =~= seq![]);
    while i < operations.len()
        invariant
            all == text::texts(operations@),
            i <= operations@.len(),
            text::texts(named@) == model::named_operations(all.take(i as int)),
        decreases operations@.len() - i,
    {
        proof {
            assert(all.take(i + 1).drop_last() =~= all.take(i as int));
            assert(all.take(i + 1).last() == operations@[i as int]@);
        }
        let bare = text::trim(operations[i].as_str());
        if text::chars_of(bare.as_str()).len() > 0 {
            named.push(operations[i].clone());
        }
        i += 1;
    }
    assert(all.take(i as int) =~= all);
    named
}

/// The skills of the runtime as a tree of one root.
fn skill_tree(names: &Vec<String>) -> (skills: Vec<SkillNode>)
    ensures
        app::skills_view(skills@) == model::runtime_skills(text::texts(names@)),
{
    let mut children: Vec<SkillNode> = Vec::new();
    let mut i: usize = 0;
    while i < names.len()
        invariant
            i <= names@.len(),
            children@.len() == i,
            forall|j: int|
                0 <= j < i ==> (#[trigger] children@[j]).name@ == names@[j]@
                    && children@[j].children@.len() == 0,
        decreases names@.len() - i,
    {
        children.push(SkillNode { name: names[i].clone(), children: Vec::new() });
        i += 1;
    }
    let root = SkillNode { name: "Python skills".to_owned(), children };
    let mut skills: Vec<SkillNode> = Vec::new();
    skills.push(root);
    proof {
        let wanted = model::runtime_skills(text::texts(names@));
        assert forall|j: int| 0 <= j < children@.len() implies root@.children[j]
            == #[trigger] wanted[0].children[j] by {
            assert(skill_leaf(children@[j], names@[j]@)) by {
                lemma_leaf(children@[j]);
            }
        }
        assert(root@.children =~= wanted[0].children);
        assert(app::skills_view(skills@) =~= wanted);
    }
    skills
}

/// `node` is a leaf of the given name.
spec fn skill_leaf(node: SkillNode, name: Seq<char>) -> bool {
    node@ == (model::SkillView { name, children: seq![] })
}

/// A node without children is a leaf.
proof fn lemma_leaf(node: SkillNode)
    requires
        node.children@.len() == 0,
    ensures
        skill_leaf(node, node.name@),
{
    assert(node@.children =~= seq![]);
}

/// The place of the first finding with the given identifier, or the number of findings.
fn find_finding(findings: &Vec<Finding>, id: &str) -> (index: usize)
    ensures
        index == model::finding_index(event::findings_view(findings@), id@),
        index <= findings@.len(),
{
    let ghost all = event::findings_view(findings@);
    let mut i: usize = 0;
    assert(all.skip(0) =~= all);
    while i < findings.len()
        invariant
            all == event::findings_view(findings@),
            i <= findings@.len(),
            model::finding_index(all, id@) == i + model::finding_index(all.skip(i as int), id@),
        decreases findings@.len() - i,
    {
        assert(all.skip(i as int)[0] == findings@[i as int]@);
        assert(all.skip(i as int).drop_first() =~= all.skip(i + 1));
        if text::same_text(findings[i].id.as_str(), id) {
            return i;
        }
        i += 1;
    }
    i
}

/// The text member `name` of `value`, or nothing.
fn text_member(value: &Json, name: &str) -> (content: String)
    ensures
        content@ == model::text_or_empty(value@, name@),
{
    match value.text_at(name) {
        Some(content) => content.to_owned(),
        None => {
            let empty = String::new();
            assert(empty@ =~= seq![]);
            empty
        },
    }
}

/// The name of the run that a task result tells.
fn name_of_run(result: &Json) -> (name: String)
    ensures
        name@ == model::run_name(result@),
{
    match result.get("run") {
        Some(run) => text_member(run, "name"),
        None => {
            let empty = String::new();
            assert(empty@ =~= seq![]);
            empty
        },
    }
}

impl App {
    /// Whether events of the given task concern the running one.
    pub fn is_current_task(&self, task_id: &str) -> (current: bool)
        ensures
            current == self@.is_current_task(task_id@),
    {
        match &self.active_task_id {
            Some(id) => text::same_text(id.as_str(), task_id),
            None => false,
        }
    }

    /// Takes over the state that the backend reports, every field of it.
    pub fn apply_backend_state(&mut self, state: StateSnapshot)
        ensures
            final(self)@ == old(self)@.apply_backend_state(state@),
    {
        self.target = state.target;
        self.phase = state.phase;
        self.findings = state.findings;
        self.worker_active = state.task.active;
        self.active_task_id = state.task.task_id;
        self.task_constraints = state.task_constraints;
        self.last_run = state.last_run;
        self.evidence = state.evidence;
        self.constraint_violations = state.constraint_violations;
        self.count_findings();
    }

    /// Replaces the finding with the same identifier, or adds and announces a new one.
    #[verifier::spinoff_prover]
    pub fn upsert_finding(&mut self, finding: Finding)
        ensures
            final(self)@ == old(self)@.upsert_finding(finding@),
    {
        let summary = finding.summary();
        let known = text::chars_of(finding.id.as_str()).len() > 0;
        let index = find_finding(&self.findings, finding.id.as_str());
        let ghost before = self.findings@;
        if known && index < self.findings.len() {
            self.findings.set(index, finding);
            assert(event::findings_view(self.findings@) =~= event::findings_view(before).update(
                index as int,
                finding@,
            ));
        } else {
            self.findings.push(finding);
            assert(event::findings_view(self.findings@) =~= event::findings_view(before).push(
                finding@,
            ));
            self.push(TranscriptKind::Finding, summary);
        }
        self.count_findings();
        self.update_receipt("Receiving findings");
    }

    /// Learns what the backend can do. Without authoritative state it gets no tasks.
    fn learn_capabilities(&mut self, capabilities: BackendCapabilities)
        ensures
            final(self)@ == old(self)@.learn_capabilities(capabilities@),
    {
        self.backend_commands = order::sort_unique(collect_verbs(capabilities.commands));
        self.backend_control_operations = order::sort_unique(
            collect_operations(capabilities.control_operations),
        );
        self.backend_supports_cancellation = capabilities.cancellation;
        if !capabilities.authoritative_state {
            self.backend_commands.clear();
            assert(text::texts(self.backend_commands@) =~= seq![]);
            self.error(
                "Backend does not advertise authoritative state; refusing task commands.",
            );
        }
    }

    /// Takes over the skills of the runtime, where it has any.
    fn learn_skills(&mut self, names: &Vec<String>)
        ensures
            final(self)@ == old(self)@.learn_skills(text::texts(names@)),
    {
        if names.len() > 0 {
            self.skills = skill_tree(names);
        }
    }

    /// Tells the user of a backend that is ready.
    fn announce_backend(&mut self, backend: &BackendInfo, runtime: &RuntimeInfo)
        ensures
            final(self)@ == old(self)@.announce_backend(backend@, runtime@),
    {
        let pid = text::numeral(backend.pid as u64);
        let whose = text::glue4(
            "Python backend ready (pid ",
            pid.as_str(),
            ", VulnClaw ",
            backend.version.as_str(),
        );
        let message = text::glue5(
            whose.as_str(),
            ", ",
            runtime.provider.as_str(),
            "/",
            runtime.model.as_str(),
        );
        let message = text::glue(message.as_str(), ").");
        self.status(message.as_str());
        if !runtime.config_ready {
            self.error(
                "LLM credentials are not configured. Run `vulnclaw config set` before starting a task.",
            );
        }
    }

    /// Takes over what a backend that is ready tells of itself.
    #[verifier::spinoff_prover]
    fn backend_is_ready(
        &mut self,
        backend: BackendInfo,
        capabilities: BackendCapabilities,
        runtime: RuntimeInfo,
        state: StateSnapshot,
    )
        ensures
            final(self)@ == old(self)@.backend_is_ready(
                backend@,
                capabilities@,
                runtime@,
                state@,
            ),
    {
        self.backend_ready = true;
        self.backend_pid = Some(backend.pid);
        self.config_ready = Some(runtime.config_ready);
        self.learn_capabilities(capabilities);
        self.apply_backend_state(state);
        self.learn_skills(&runtime.skills);
        self.announce_backend(&backend, &runtime);
    }

    /// Takes note that a task of ours has begun at the instant `now`.
    #[verifier::spinoff_prover]
    fn task_has_started(&mut self, task: Json, state: StateSnapshot, now: Instant)
        ensures
            final(self)@ == old(self)@.task_has_started(task@, state@, now),
    {
        self.worker_active = true;
        self.worker_started_at = Some(now);
        self.apply_backend_state(state);
        let command = text_member(&task, "command");
        let phase = text::glue(command.as_str(), " running");
        self.update_receipt(phase.as_str());
        let line = text_member(&task, "normalized_command");
        self.name_command(line);
    }

    /// Tells the receipt of the running task its command line, unless that is empty.
    fn name_command(&mut self, line: String)
        ensures
            final(self)@ == old(self)@.name_command(line@),
    {
        if text::chars_of(line.as_str()).len() > 0 {
            match self.active_receipt.take() {
                Some(receipt) => {
                    self.active_receipt = Some(
                        OperationReceipt {
                            command: line,
                            phase: receipt.phase,
                            findings: receipt.findings,
                        },
                    );
                },
                None => {},
            }
        }
    }

    /// Ends the running task as cancelled.
    #[verifier::spinoff_prover]
    fn task_was_cancelled(&mut self, state: StateSnapshot)
        ensures
            final(self)@ == old(self)@.task_was_cancelled(state@),
    {
        self.apply_backend_state(state);
        self.finish_task("Cancelled");
        self.status("VulnClaw task cancelled; backend session remains available.");
    }

    /// Ends the running task as completed.
    #[verifier::spinoff_prover]
    fn task_has_completed(&mut self, result: Json, state: StateSnapshot)
        ensures
            final(self)@ == old(self)@.task_has_completed(result@, state@),
    {
        self.apply_backend_state(state);
        self.finish_task("Completed");
        let name = name_of_run(&result);
        if text::chars_of(name.as_str()).len() == 0 {
            self.status("VulnClaw task completed.");
        } else {
            let message = text::glue("VulnClaw task completed. Run: ", name.as_str());
            self.status(message.as_str());
        }
    }

    /// Ends the running task as failed.
    #[verifier::spinoff_prover]
    fn task_has_failed(&mut self, error: Json, state: StateSnapshot)
        ensures
            final(self)@ == old(self)@.task_has_failed(error@, state@),
    {
        self.apply_backend_state(state);
        self.finish_task("Failed");
        let message = match error.text_at("message") {
            Some(reason) => text::glue("VulnClaw task failed: ", reason),
            None => text::glue("VulnClaw task failed: ", "task failed"),
        };
        self.error(message.as_str());
    }

    /// Reports what came of a management operation.
    #[verifier::spinoff_prover]
    fn control_has_answered(
        &mut self,
        operation: String,
        result: Json,
        state: Option<StateSnapshot>,
    )
        ensures
            final(self)@ == old(self)@.control_has_answered(
                operation@,
                result@,
                event::opt_snapshot(state),
            ),
    {
        match state {
            Some(snapshot) => {
                self.apply_backend_state(snapshot);
            },
            None => {},
        }
        match result.text_at("message") {
            Some(message) => {
                self.status(message);
            },
            None => {
                let message = text::glue3("Backend control ", operation.as_str(), " completed.");
                self.status(message.as_str());
            },
        }
    }

    /// Reports a request that the backend refused.
    fn backend_has_refused(&mut self, task_id: Option<String>, code: String, message: String)
        ensures
            final(self)@ == old(self)@.backend_has_refused(
                text::opt_text(task_id),
                code@,
                message@,
            ),
    {
        let ours = match &task_id {
            Some(id) => self.is_current_task(id.as_str()),
            None => false,
        };
        if ours {
            self.finish_task("Rejected");
        }
        let report = text::glue4("Backend ", code.as_str(), ": ", message.as_str());
        self.error(report.as_str());
    }

    /// Takes note that the backend process has ended.
    fn backend_has_exited(&mut self, success: bool)
        ensures
            final(self)@ == old(self)@.backend_has_exited(success),
    {
        self.backend_connected = false;
        self.backend_ready = false;
        self.backend_pid = None;
        self.backend_commands.clear();
        self.backend_control_operations.clear();
        self.backend_supports_cancellation = false;
        self.worker_active = false;
        self.worker_started_at = None;
        match self.active_receipt.take() {
            Some(receipt) => {
                self.last_receipt = Some(
                    OperationReceipt {
                        command: receipt.command,
                        phase: "Backend disconnected".to_owned(),
                        findings: receipt.findings,
                    },
                );
            },
            None => {},
        }
        self.active_task_id = None;
        proof {
            assert(text::texts(self.backend_commands@) =~= seq![]);
            assert(text::texts(self.backend_control_operations@) =~= seq![]);
        }
        if self.running {
            if success {
                self.error("Python backend exited.");
            } else {
                self.error("Python backend exited with a non-zero status.");
            }
        }
    }

    /// Takes note that the backend said goodbye.
    fn backend_has_shut_down(&mut self)
        ensures
            final(self)@ == old(self)@.backend_has_shut_down(),
    {
        self.backend_ready = false;
        self.backend_commands.clear();
        self.backend_control_operations.clear();
        proof {
            assert(text::texts(self.backend_commands@) =~= seq![]);
            assert(text::texts(self.backend_control_operations@) =~= seq![]);
        }
    }

    /// Adds a line to the transcript in the given phase of the running task.
    fn narrate(&mut self, phase: &str, kind: TranscriptKind, line: String)
        ensures
            final(self)@ == old(self)@.narrate(phase@, kind, line@),
    {
        self.update_receipt(phase);
        self.push(kind, line);
    }

    /// Whether an event is about the session or about the running task.
    fn concerns(&self, event: &BackendEvent) -> (yes: bool)
        ensures
            yes == self@.concerns(event@),
    {
        match event {
            BackendEvent::TaskStarted { task_id, .. } => self.is_current_task(task_id.as_str()),
            BackendEvent::Status { task_id, .. } => self.is_current_task(task_id.as_str()),
            BackendEvent::Reasoning { task_id, .. } => self.is_current_task(task_id.as_str()),
            BackendEvent::Log { task_id, .. } => self.is_current_task(task_id.as_str()),
            BackendEvent::ToolCall { task_id, .. } => self.is_current_task(task_id.as_str()),
            BackendEvent::ToolResult { task_id, .. } => self.is_current_task(task_id.as_str()),
            BackendEvent::Finding { task_id, .. } => self.is_current_task(task_id.as_str()),
            BackendEvent::ApprovalRequired { task_id, .. } => self.is_current_task(
                task_id.as_str(),
            ),
            BackendEvent::TaskCompleted { task_id, .. } => self.is_current_task(task_id.as_str()),
            BackendEvent::TaskCancelled { task_id, .. } => self.is_current_task(task_id.as_str()),
            BackendEvent::TaskFailed { task_id, .. } => self.is_current_task(task_id.as_str()),
            _ => true,
        }
    }

    /// Carries out an event about the session or about the running task.
    #[verifier::spinoff_prover]
    fn heed(&mut self, event: BackendEvent, now: Instant)
        ensures
            final(self)@ == old(self)@.heed(event@, now),
    {
        match event {
            BackendEvent::Ready { backend, capabilities, runtime, state, .. } => {
                self.backend_is_ready(backend, capabilities, runtime, state);
            },
            BackendEvent::State { state, .. } => {
                self.apply_backend_state(state);
            },
            BackendEvent::TaskStarted { task, state, .. } => {
                self.task_has_started(task, state, now);
            },
            BackendEvent::Status { status, .. } => {
                let phase = status.clone();
                self.narrate(phase.as_str(), TranscriptKind::Status, status);
            },
            BackendEvent::Finding { finding, .. } => {
                self.upsert_finding(finding);
            },
            BackendEvent::Reasoning { text, .. } => {
                self.narrate("Thinking", TranscriptKind::Reasoning, text);
            },
            BackendEvent::Log { message, .. } => {
                self.narrate("Running", TranscriptKind::Log, message);
            },
            BackendEvent::ToolCall { tool, arguments, .. } => {
                let preview = command::truncate_text(arguments.as_str(), 160);
                let line = text::glue4("→ tool: ", tool.as_str(), " ", preview.as_str());
                self.narrate("Using tool", TranscriptKind::Log, line);
            },
            BackendEvent::ToolResult { result, .. } => {
                let preview = command::truncate_text(result.as_str(), 240);
                let line = text::glue("→ result: ", preview.as_str());
                self.narrate("Running", TranscriptKind::Log, line);
            },
            BackendEvent::ApprovalRequired { question, .. } => {
                let message = text::glue("Approval required: ", question.as_str());
                self.status(message.as_str());
            },
            BackendEvent::TaskCompleted { result, state, .. } => {
                self.task_has_completed(result, state);
            },
            BackendEvent::TaskCancelled { state, .. } => {
                self.task_was_cancelled(state);
            },
            BackendEvent::TaskFailed { error, state, .. } => {
                self.task_has_failed(error, state);
            },
            BackendEvent::ControlResult { operation, result, state, .. } => {
                self.control_has_answered(operation, result, state);
            },
            BackendEvent::Error { task_id, code, message, .. } => {
                self.backend_has_refused(task_id, code, message);
            },
            BackendEvent::ShutdownComplete { .. } => {
                self.backend_has_shut_down();
            },
        }
    }

    /// Carries out an event. Events of a task that is not the running one are ignored.
    pub fn apply_event(&mut self, event: AppEvent)
        ensures
            exists|now: Instant|
                final(self)@ == #[trigger] old(self)@.apply_event(event@, now),
    {
        let now = Instant::now();
        self.apply_event_at(event, now);
    }

    /// Carries out an event that comes at the instant `now`. Events of a task that is not the
    /// running one are ignored.
    #[verifier::spinoff_prover]
    pub fn apply_event_at(&mut self, event: AppEvent, now: Instant)
        ensures
            final(self)@ == old(self)@.apply_event(event@, now),
    {
        match event {
            AppEvent::Backend(reported) => {
                if self.concerns(&reported) {
                    self.heed(reported, now);
                }
            },
            AppEvent::BackendDiagnostic(message) => {
                self.push(TranscriptKind::Log, text::glue("backend: ", message.as_str()));
            },
            AppEvent::BackendExited(success) => {
                self.backend_has_exited(success);
            },
        }
    }
}

} // verus!
