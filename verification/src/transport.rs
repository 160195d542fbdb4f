//! The decisions of the transport: how the backend is started, what its output means, and
//! when its process is waited for, reported or ended.
use vstd::prelude::*;

use crate::decode;
use crate::event::{AppEvent, AppEventView, BackendEvent, EventView};
use crate::text;

verus! {

/// Pause between two looks at the backend process while it runs, in milliseconds.
pub const WATCH_INTERVAL_MS: u64 = 100;

/// Pause between two looks at a backend process that should end, in milliseconds.
pub const REAP_INTERVAL_MS: u64 = 25;

/// How long a backend may take to end after the farewell, in milliseconds.
pub const SHUTDOWN_GRACE_MS: u64 = 2000;

/// How long a backend may take to end that could not be greeted, in milliseconds.
pub const GREETING_GRACE_MS: u64 = 100;

// ---------------------------------------------------------------------------
// Starting the backend
// ---------------------------------------------------------------------------

/// A program and its arguments.
#[derive(Clone, Debug)]
pub struct Invocation {
    pub program: String,
    pub arguments: Vec<String>,
}

/// The program that runs the backend, with the Python interpreter that the user names.
/// Windows has a launcher in place of the default interpreter.
pub open spec fn backend_program(python: Option<Seq<char>>, windows: bool) -> Seq<char> {
    let interpreter = match python {
        Some(named) => named,
        None => "python"@,
    };
    if windows && interpreter == "python"@ {
        "py"@
    } else {
        interpreter
    }
}

/// The arguments that make the program run the backend.
pub open spec fn backend_arguments(python: Option<Seq<char>>, windows: bool) -> Seq<Seq<char>> {
    let module = seq!["-m"@, "vulnclaw.tui_backend"@];
    if windows && (python is None || python == Some("python"@)) {
        seq!["-3"@] + module
    } else {
        module
    }
}

/// How to start the backend with the Python interpreter that the user names, if any.
pub fn backend_invocation(python: Option<String>, windows: bool) -> (invocation: Invocation)
    ensures
        invocation.program@ == backend_program(text::opt_text(python), windows),
        text::texts(invocation.arguments@) == backend_arguments(text::opt_text(python), windows),
{
    let ghost named = text::opt_text(python);
    let interpreter = match python {
        Some(named) => named,
        None => "python".to_owned(),
    };
    let mut arguments: Vec<String> = Vec::new();
    let launcher = windows && text::same_text(interpreter.as_str(), "python");
    if launcher {
        arguments.push("-3".to_owned());
    }
    arguments.push("-m".to_owned());
    arguments.push("vulnclaw.tui_backend".to_owned());
    assert(text::texts(arguments@) =~= backend_arguments(named, windows));
    if launcher {
        Invocation { program: "py".to_owned(), arguments }
    } else {
        Invocation { program: interpreter, arguments }
    }
}

// ---------------------------------------------------------------------------
// Reading its output
// ---------------------------------------------------------------------------

/// The event that a line stands for which was read with the given outcome: what the backend
/// reports, or a diagnostic that quotes the line.
pub open spec fn labelled(line: Seq<char>, outcome: Result<EventView, Seq<char>>) -> AppEventView {
    match outcome {
        Ok(event) => AppEventView::Backend(event),
        Err(reason) => AppEventView::BackendDiagnostic(
            "invalid backend protocol line ("@ + reason + "): "@ + line,
        ),
    }
}

/// Makes an event of a line that was read with the given outcome.
pub fn label_line(line: &str, outcome: Result<BackendEvent, String>) -> (event: AppEvent)
    ensures
        event@ == labelled(line@, decode::outcome_view(outcome)),
{
    match outcome {
        Ok(event) => AppEvent::Backend(event),
        Err(reason) => AppEvent::BackendDiagnostic(
            text::glue4("invalid backend protocol line (", reason.as_str(), "): ", line),
        ),
    }
}

/// Makes an event of a line that the backend wrote to its output. `refusal` is what the
/// deserializer says of the line where it is no event.
pub fn read_output_line(line: &str, schema: &str, refusal: &str) -> (event: AppEvent)
    ensures
        exists|outcome: Result<EventView, Seq<char>>|
            #[trigger] decode::line_outcome(line@, schema@, refusal@, outcome) && event@
                == labelled(line@, outcome),
{
    let outcome = decode::parse_backend_line(line, schema, refusal);
    label_line(line, outcome)
}

// ---------------------------------------------------------------------------
// Watching its process
// ---------------------------------------------------------------------------

/// What a look at the backend process shows.
#[derive(Clone, Debug)]
pub enum ChildPoll {
    /// It runs.
    Running,
    /// It has ended, successfully or not.
    Exited(bool),
    /// The system does not say, for the given reason.
    Failed(String),
    /// It was taken away to be reaped.
    Absent,
    /// Nobody can look at it any more.
    Unreachable,
}

/// What the watcher of the backend process does next.
#[derive(Clone, Debug)]
pub enum WatchStep {
    /// Looks again after [`WATCH_INTERVAL_MS`].
    Sleep,
    /// Reports an event and stops watching.
    Report(AppEvent),
    /// Stops watching.
    Stop,
}

/// What the watcher does after a look at the process.
pub fn watch_step(poll: ChildPoll) -> (step: WatchStep)
    ensures
        match poll {
            ChildPoll::Running => step is Sleep,
            ChildPoll::Exited(success) => step is Report && step->Report_0@
                == AppEventView::BackendExited(success),
            ChildPoll::Failed(reason) => step is Report && step->Report_0@
                == AppEventView::BackendDiagnostic(
                "could not wait for VulnClaw backend: "@ + reason@,
            ),
            ChildPoll::Absent => step is Stop,
            ChildPoll::Unreachable => step is Stop,
        },
{
    match poll {
        ChildPoll::Running => WatchStep::Sleep,
        ChildPoll::Exited(success) => WatchStep::Report(AppEvent::BackendExited(success)),
        ChildPoll::Failed(reason) => WatchStep::Report(
            AppEvent::BackendDiagnostic(
                text::glue("could not wait for VulnClaw backend: ", reason.as_str()),
            ),
        ),
        ChildPoll::Absent => WatchStep::Stop,
        ChildPoll::Unreachable => WatchStep::Stop,
    }
}

/// What is done next to a backend process that should end.
#[derive(Clone, Copy, Debug, PartialEq, Eq, Structural)]
pub enum ReapStep {
    /// It gets more time: the next look comes after [`REAP_INTERVAL_MS`].
    Sleep,
    /// It is reaped.
    Reap,
    /// It is left alone.
    GiveUp,
}

/// The step that follows a look at a process that should end by a deadline.
pub open spec fn reap_step_of(poll: ChildPoll, overdue: bool) -> ReapStep {
    match poll {
        ChildPoll::Unreachable => ReapStep::GiveUp,
        ChildPoll::Exited(_) => ReapStep::Reap,
        ChildPoll::Absent => ReapStep::Reap,
        _ => if overdue {
            ReapStep::Reap
        } else {
            ReapStep::Sleep
        },
    }
}

/// What is done after a look at a process that should end by a deadline. It gets time until
/// then, and not longer.
pub fn reap_step(poll: &ChildPoll, overdue: bool) -> (step: ReapStep)
    ensures
        step == reap_step_of(*poll, overdue),
{
    match poll {
        ChildPoll::Unreachable => ReapStep::GiveUp,
        ChildPoll::Exited(_) => ReapStep::Reap,
        ChildPoll::Absent => ReapStep::Reap,
        _ => if overdue {
            ReapStep::Reap
        } else {
            ReapStep::Sleep
        },
    }
}

/// Whether a process that is reaped has to be killed first: only if it still runs.
pub fn must_kill(poll: &ChildPoll) -> (kill: bool)
    ensures
        kill == (*poll is Running),
{
    match poll {
        ChildPoll::Running => true,
        _ => false,
    }
}

/// Past the deadline no process that should end is given more time.
pub proof fn no_time_past_the_deadline(poll: ChildPoll)
    ensures
        reap_step_of(poll, true) != ReapStep::Sleep,
{
}

} // verus!
