//! Commands and tasks: what is asked of the backend, and when.
//!
//! Nothing here talks to the backend. An operation that wants to hands out a
//! [`Dispatch`]; whoever sends it tells [`App::settle`] how that went.
use std::time::Instant;

use vstd::prelude::*;

use crate::app;
use crate::app::{App, Dispatch, OperationReceipt, Purpose, TranscriptKind};
use crate::command;
use crate::json::{Json, JsonView};
use crate::model;
use crate::modes::ExecutionMode;
use crate::protocol::{ClientRequest, TaskInput};
use crate::text;

verus! {

/// The usage of each task verb, separated by commas.
fn list_usages(verbs: &Vec<String>) -> (list: String)
    ensures
        list@ == model::usages(text::texts(verbs@)),
{
    let mut list = String::new();
    let ghost all = text::texts(verbs@);
    let mut i: usize = 0;
    assert(all.take(0) =~= seq![]);
    assert(list@ =~= model::usages(all.take(0)));
    while i < verbs.len()
        invariant
            all == text::texts(verbs@),
            i <= verbs@.len(),
            list@ == model::usages(all.take(i as int)),
        decreases verbs@.len() - i,
    {
        let usage = text::glue3("/", verbs[i].as_str(), " <target>");
        proof {
            assert(all.take(i + 1).drop_last() =~= all.take(i as int));
            assert(all.take(i + 1).last() == verbs@[i as int]@);
        }
        if i == 0 {
            list = usage;
        } else {
            list = text::glue3(list.as_str(), ", ", usage.as_str());
        }
        i += 1;
    }
    assert(all.take(i as int) =~= all);
    list
}

/// The content of the outcome of a delivery.
pub open spec fn delivery_view(outcome: Result<(), String>) -> Result<(), Seq<char>> {
    match outcome {
        Ok(()) => Ok(()),
        Err(reason) => Err(reason@),
    }
}

/// The content of the outcome of saving a session.
pub open spec fn saving_view(outcome: Result<String, String>) -> Result<Seq<char>, Seq<char>> {
    match outcome {
        Ok(place) => Ok(place@),
        Err(reason) => Err(reason@),
    }
}

impl App {
    /// Numbers a request and gives it its identifier.
    pub fn next_request_id(&mut self) -> (id: String)
        ensures
            id@ == old(self)@.next_id(),
            final(self)@ == old(self)@.bumped(),
    {
        if self.request_counter < u64::MAX {
            self.request_counter = self.request_counter + 1;
        }
        let process = text::numeral(self.process_id as u64);
        let number = text::numeral(self.request_counter);
        text::glue4("rust-", process.as_str(), "-", number.as_str())
    }

    /// Carries out the command in the composer.
    pub fn submit(&mut self) -> (dispatch: Option<Dispatch>)
        ensures
            (final(self)@, app::opt_dispatch(dispatch)) == old(self)@.submit(),
            old(self)@.well_formed() ==> final(self)@.well_formed(),
    {
        let typed = text::trim(self.input.as_str());
        let command = command::strip_prompt_prefix(typed.as_str());
        if text::chars_of(command.as_str()).len() == 0 {
            return None;
        }
        self.record_command(command.as_str());
        self.push(TranscriptKind::User, text::glue("> ", command.as_str()));
        self.clear_composer();
        self.run_command(command.as_str())
    }

    /// Carries out a command that was recorded and echoed.
    fn run_command(&mut self, command: &str) -> (dispatch: Option<Dispatch>)
        ensures
            (final(self)@, app::opt_dispatch(dispatch)) == old(self)@.run_command(command@),
            final(self)@.input == old(self)@.input,
            final(self)@.input_cursor == old(self)@.input_cursor,
            final(self)@.history_index == old(self)@.history_index,
            final(self)@.command_history == old(self)@.command_history,
    {
        if text::same_text(command, "/help") {
            self.show_help();
            None
        } else if text::same_text(command, "/clear") {
            self.transcript.clear();
            self.transcript_scroll = 0;
            self.transcript_follow = true;
            assert(self@.transcript =~= seq![]);
            self.status("Transcript cleared. Findings remain available in the inspector.");
            None
        } else if text::same_text(command, "/report") {
            self.status(
                "Use vulnclaw report <result.json> [--pdf] to write the report; the TUI shows findings live.",
            );
            None
        } else if text::same_text(command, "/config") {
            self.status(
                "Use vulnclaw config set <key> <value> for llm.provider / llm.api_key / llm.base_url / llm.model.",
            );
            None
        } else {
            match command::split_slash_command(command) {
                Some((verb, arguments)) => {
                    if text::same_text(verb.as_str(), "scope") {
                        self.request_scope_control(arguments.as_str())
                    } else if text::contains_text(&self.backend_commands, verb.as_str()) {
                        self.request_task(verb.as_str(), arguments.as_str());
                        None
                    } else {
                        self.reject_command(command);
                        None
                    }
                },
                None => {
                    self.reject_command(command);
                    None
                },
            }
        }
    }

    /// Says which commands there are.
    fn show_help(&mut self)
        ensures
            final(self)@ == old(self)@.status(model::help_text(old(self)@.backend_commands)),
    {
        let tasks = if self.backend_commands.len() == 0 {
            "none advertised yet".to_owned()
        } else {
            list_usages(&self.backend_commands)
        };
        let message = text::glue3(
            "Backend tasks: ",
            tasks.as_str(),
            ". Local commands: /scope, /report, /config, /clear, /help. Ctrl+C aborts a running command.",
        );
        self.status(message.as_str());
    }

    /// Says that there is no such command.
    fn reject_command(&mut self, command: &str)
        ensures
            final(self)@ == old(self)@.error("Unknown command: "@ + command@),
    {
        let message = text::glue("Unknown command: ", command);
        self.error(message.as_str());
    }

    /// Arms a task, which then waits for its confirmation.
    pub fn request_task(&mut self, command: &str, arguments: &str)
        ensures
            final(self)@ == old(self)@.request_task(command@, arguments@),
    {
        if self.mode == ExecutionMode::Plan {
            self.error(
                "Plan mode is read-only. Press Tab to switch to Agent before running a task.",
            );
            return;
        }
        let arguments = text::trim(arguments);
        if text::chars_of(arguments.as_str()).len() == 0 {
            let message = text::glue5(
                "/",
                command,
                " requires a target: /",
                command,
                " <target> [--only-port N] [--only-host H] [--blocked-host H]",
            );
            self.error(message.as_str());
            return;
        }
        let target = command::leading_word(arguments.as_str());
        self.pending_task = Some(text::glue4("/", command, " ", arguments.as_str()));
        let message = text::glue5(
            "/",
            command,
            " armed for ",
            target.as_str(),
            ". Press Y to run, or Esc to cancel.",
        );
        self.status(message.as_str());
    }

    /// Asks a management operation of the backend, if it can take it now.
    fn request_control(&mut self, operation: &str, arguments: Json) -> (dispatch: Option<Dispatch>)
        ensures
            (final(self)@, app::opt_dispatch(dispatch)) == old(self)@.request_control(
                operation@,
                arguments@,
            ),
    {
        if self.worker_active {
            self.error("Administrative settings cannot change while a task is running.");
            return None;
        }
        if !self.backend_ready {
            self.error("The Python backend is not ready.");
            return None;
        }
        if !text::contains_text(&self.backend_control_operations, operation) {
            let message = text::glue3(
                "The connected backend does not support control operation ",
                operation,
                ".",
            );
            self.error(message.as_str());
            return None;
        }
        let request_id = self.next_request_id();
        if !self.backend_connected {
            self.control_failed(operation, "backend disconnected");
            return None;
        }
        Some(
            Dispatch {
                purpose: Purpose::Scope(operation.to_owned()),
                request: ClientRequest::control(request_id, operation, arguments),
            },
        )
    }

    /// Says that a management operation did not reach the backend.
    fn control_failed(&mut self, operation: &str, reason: &str)
        ensures
            final(self)@ == old(self)@.control_failed(operation@, reason@),
    {
        let message = text::glue4("Could not send ", operation, " to Python backend: ", reason);
        self.error(message.as_str());
    }

    /// Asks the backend to change or to reset the session scope.
    pub fn request_scope_control(&mut self, arguments: &str) -> (dispatch: Option<Dispatch>)
        ensures
            (final(self)@, app::opt_dispatch(dispatch)) == old(self)@.request_scope_control(
                arguments@,
            ),
    {
        let arguments = text::trim(arguments);
        if text::chars_of(arguments.as_str()).len() == 0 {
            self.status(
                "Usage: /scope [--only-host H] [--only-port N] [--only-path P] [--blocked-host H] [--blocked-path P] [--allow-actions A,B] [--block-actions A,B], or /scope --clear.",
            );
            None
        } else if text::same_text(arguments.as_str(), "--clear") {
            self.request_control("session.scope.reset", Json::empty_object())
        } else {
            let payload = Json::object1("command_line", Json::text(arguments.as_str()));
            self.request_control("session.scope.update", payload)
        }
    }

    /// Submits a task now, if the backend can take it.
    pub fn start_task(&mut self, command_line: String) -> (dispatch: Option<Dispatch>)
        requires
            !old(self).worker_active && old(self).backend_ready ==> old(self).request_counter
                < u64::MAX,
        ensures
            exists|now: Instant|
                (final(self)@, app::opt_dispatch(dispatch)) == #[trigger] old(self)@.start_task(
                    command_line@,
                    now,
                ),
    {
        let now = Instant::now();
        self.start_task_at(command_line, now)
    }

    /// Submits a task at the instant `now`, if the backend can take it.
    pub fn start_task_at(&mut self, command_line: String, now: Instant) -> (dispatch: Option<
        Dispatch,
    >)
        requires
            !old(self).worker_active && old(self).backend_ready ==> old(self).request_counter
                < u64::MAX,
        ensures
            (final(self)@, app::opt_dispatch(dispatch)) == old(self)@.start_task(
                command_line@,
                now,
            ),
    {
        if self.worker_active {
            self.error("A VulnClaw command is already running.");
            return None;
        }
        if !self.backend_ready {
            self.error("The Python backend is not ready.");
            return None;
        }
        let process = text::numeral(self.process_id as u64);
        let number = text::numeral(self.request_counter + 1);
        let task_id = text::glue4("task-", process.as_str(), "-", number.as_str());
        let request_id = self.next_request_id();
        let request = ClientRequest::start_task(
            request_id,
            task_id.clone(),
            TaskInput::CommandLine(command_line.clone()),
        );
        self.active_receipt = Some(
            OperationReceipt {
                command: command_line,
                phase: "Submitting".to_owned(),
                findings: 0,
            },
        );
        self.worker_active = true;
        self.worker_started_at = Some(now);
        self.active_task_id = Some(task_id);
        if !self.backend_connected {
            self.submission_failed("backend disconnected");
            return None;
        }
        Some(Dispatch { purpose: Purpose::StartTask, request })
    }

    /// Says that a task did not reach the backend, and ends it.
    fn submission_failed(&mut self, reason: &str)
        ensures
            final(self)@ == old(self)@.submission_failed(reason@),
    {
        self.finish_task("Failed to submit");
        let message = text::glue("Could not submit task to Python backend: ", reason);
        self.error(message.as_str());
    }

    /// Confirms the armed task and submits it now.
    pub fn confirm_task(&mut self) -> (dispatch: Option<Dispatch>)
        requires
            old(self).pending_task is Some && !old(self).worker_active && old(self).backend_ready
                ==> old(self).request_counter < u64::MAX,
        ensures
            exists|now: Instant|
                (final(self)@, app::opt_dispatch(dispatch)) == #[trigger] old(self)@.confirm_task(
                    now,
                ),
    {
        let now = Instant::now();
        self.confirm_task_at(now)
    }

    /// Confirms the armed task and submits it at the instant `now`.
    pub fn confirm_task_at(&mut self, now: Instant) -> (dispatch: Option<Dispatch>)
        requires
            old(self).pending_task is Some && !old(self).worker_active && old(self).backend_ready
                ==> old(self).request_counter < u64::MAX,
        ensures
            (final(self)@, app::opt_dispatch(dispatch)) == old(self)@.confirm_task(now),
    {
        match self.pending_task.take() {
            None => None,
            Some(command_line) => {
                self.status("TUI confirmation recorded. Starting task.");
                self.start_task_at(command_line, now)
            },
        }
    }

    /// Dismisses the armed task.
    pub fn dismiss_task(&mut self)
        ensures
            final(self)@ == old(self)@.dismiss_task(),
    {
        if self.pending_task.take().is_some() {
            self.status("Task command cancelled before execution.");
        }
    }

    /// Asks the backend to cancel the running task, without ending the backend.
    pub fn stop_worker(&mut self) -> (dispatch: Option<Dispatch>)
        ensures
            (final(self)@, app::opt_dispatch(dispatch)) == old(self)@.stop_worker(),
    {
        let task_id = match &self.active_task_id {
            None => {
                return None;
            },
            Some(id) => id.clone(),
        };
        if !self.backend_supports_cancellation {
            self.error("The connected backend does not support task cancellation.");
            return None;
        }
        let request_id = self.next_request_id();
        if !self.backend_connected {
            self.error("Could not cancel task: backend disconnected.");
            return None;
        }
        Some(
            Dispatch {
                purpose: Purpose::CancelTask,
                request: ClientRequest::cancel_task(request_id, task_id),
            },
        )
    }

    /// Learns whether a request was delivered, and says what follows from it.
    pub fn settle(&mut self, purpose: Purpose, outcome: Result<(), String>)
        ensures
            final(self)@ == old(self)@.settle(purpose@, delivery_view(outcome)),
    {
        match (purpose, outcome) {
            (Purpose::Initialize, Ok(())) => {
                self.backend_connected = true;
                self.status("Connecting to the VulnClaw Python backend...");
            },
            (Purpose::Initialize, Err(reason)) => {
                let message = text::glue("Could not initialize Python backend: ", reason.as_str());
                self.error(message.as_str());
            },
            (Purpose::StartTask, Ok(())) => {},
            (Purpose::StartTask, Err(reason)) => {
                self.submission_failed(reason.as_str());
            },
            (Purpose::Scope(_), Ok(())) => {
                self.status("Session scope change requested.");
            },
            (Purpose::Scope(operation), Err(reason)) => {
                self.control_failed(operation.as_str(), reason.as_str());
            },
            (Purpose::CancelTask, Ok(())) => {
                self.update_receipt("Cancelling");
                self.status("Cancellation requested; waiting for Python checkpoint.");
            },
            (Purpose::CancelTask, Err(reason)) => {
                let message = text::glue("Could not cancel task: ", reason.as_str());
                self.error(message.as_str());
            },
        }
    }

    /// Learns whether a backend process was started, and greets it.
    pub fn connect_backend(&mut self, spawned: Result<(), String>, bootstrap: Json) -> (dispatch:
        Option<Dispatch>)
        ensures
            (final(self)@, app::opt_dispatch(dispatch)) == old(self)@.connect_backend(
                delivery_view(spawned),
                bootstrap@,
            ),
    {
        match spawned {
            Err(reason) => {
                let message = text::glue(
                    "Could not start VulnClaw Python backend: ",
                    reason.as_str(),
                );
                self.error(message.as_str());
                None
            },
            Ok(()) => {
                let request_id = self.next_request_id();
                Some(
                    Dispatch {
                        purpose: Purpose::Initialize,
                        request: ClientRequest::initialize(request_id, bootstrap),
                    },
                )
            },
        }
    }

    /// Gives up the connection to the backend. A request that comes back is the farewell
    /// to send before the process is reaped.
    pub fn shutdown_backend(&mut self) -> (farewell: Option<ClientRequest>)
        ensures
            (
                final(self)@,
                match farewell {
                    Some(request) => Some(request@),
                    None => None,
                },
            ) == old(self)@.shutdown_backend(),
    {
        if !self.backend_connected {
            return None;
        }
        self.backend_connected = false;
        let request_id = self.next_request_id();
        self.backend_ready = false;
        self.backend_commands.clear();
        self.backend_control_operations.clear();
        self.backend_supports_cancellation = false;
        proof {
            assert(text::texts(self.backend_commands@) =~= seq![]);
            assert(text::texts(self.backend_control_operations@) =~= seq![]);
        }
        Some(ClientRequest::shutdown(request_id))
    }

    /// Says where the session was saved, or why it was not.
    pub fn save_session(&mut self, outcome: Result<String, String>)
        ensures
            final(self)@ == old(self)@.save_session(saving_view(outcome)),
    {
        match outcome {
            Ok(place) => {
                let message = text::glue("Session saved: ", place.as_str());
                self.status(message.as_str());
            },
            Err(reason) => {
                let message = text::glue("Could not save session: ", reason.as_str());
                self.error(message.as_str());
            },
        }
    }

    /// Says whether the session was restored.
    pub fn restore_session(&mut self, outcome: Result<(), String>)
        ensures
            final(self)@ == old(self)@.restore_session(delivery_view(outcome)),
    {
        match outcome {
            Ok(()) => {
                self.status("Session restored.");
            },
            Err(reason) => {
                let message = text::glue("Could not restore session: ", reason.as_str());
                self.error(message.as_str());
            },
        }
    }
}

} // verus!
