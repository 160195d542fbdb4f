//! The workbench in detail: what each operation says, asks and leaves behind.
use std::time::{Duration, Instant};

use vulnclaw_tui::app::{App, Dispatch, OperationReceipt, Purpose, SkillNode, TranscriptKind};
use vulnclaw_tui::event::{
    AppEvent, BackendCapabilities, BackendEvent, BackendInfo, BackendTaskState, Finding,
    RuntimeInfo, StateSnapshot,
};
use vulnclaw_tui::json::{parse_json, Json};
use vulnclaw_tui::layout::{Rect, Screen, WRAP_LIMIT};
use vulnclaw_tui::modes::{ActivePane, ExecutionMode, PermissionMode};

fn new_app() -> App {
    App::new(7, "Welcome.", "Ready.", Vec::new())
}

/// A workbench whose backend is connected, ready and advertises `run`.
fn connected_app() -> App {
    let mut app = new_app();
    app.backend_connected = true;
    app.backend_ready = true;
    app.backend_commands = vec!["run".into()];
    app.backend_control_operations =
        vec!["session.scope.reset".into(), "session.scope.update".into()];
    app.backend_supports_cancellation = true;
    app
}

/// A workbench that runs the task `t1`.
fn busy_app() -> App {
    let mut app = connected_app();
    app.worker_active = true;
    app.active_task_id = Some("t1".into());
    app.active_receipt = Some(OperationReceipt {
        command: "/run h".into(),
        phase: "Submitting".into(),
        findings: 0,
    });
    app
}

fn json(document: &str) -> Json {
    parse_json(document).unwrap()
}

fn last(app: &App) -> (TranscriptKind, &str) {
    let item = app.transcript.last().unwrap();
    (item.kind, item.text.as_str())
}

fn run(app: &mut App, command: &str) -> Option<Dispatch> {
    app.clear_composer();
    app.insert_text(command);
    app.submit()
}

fn report(app: &mut App, event: BackendEvent) {
    app.apply_event(AppEvent::Backend(event));
}

fn phase(app: &App) -> &str {
    app.active_receipt.as_ref().unwrap().phase.as_str()
}

fn running_state() -> StateSnapshot {
    StateSnapshot {
        task: BackendTaskState {
            active: true,
            task_id: Some("t1".into()),
        },
        ..Default::default()
    }
}

#[test]
fn a_session_begins_with_a_greeting() {
    let app = App::new(
        7,
        "Welcome.",
        "Ready.",
        vec![SkillNode {
            name: "s".into(),
            children: Vec::new(),
        }],
    );
    assert_eq!(app.mode, ExecutionMode::Agent);
    assert_eq!(app.permission, PermissionMode::AutoReview);
    assert_eq!(app.active_pane, ActivePane::Transcript);
    assert_eq!(app.transcript.len(), 2);
    assert_eq!(app.transcript[0].kind, TranscriptKind::System);
    assert_eq!(app.transcript[0].text, "Welcome.");
    assert_eq!(last(&app), (TranscriptKind::Status, "Ready."));
    assert_eq!(app.phase, "idle");
    assert_eq!(app.task_constraints, json("{}"));
    assert!(app.running && app.transcript_follow && app.show_reasoning);
    assert!(!app.backend_connected && !app.backend_ready && !app.worker_active);
    assert!(app.worker_started_at.is_none());
    assert_eq!(app.skills[0].name, "s");
}

#[test]
fn local_commands_answer_in_the_transcript() {
    let mut app = new_app();
    assert!(run(&mut app, "  /help ").is_none());
    assert_eq!(
        last(&app).1,
        "Backend tasks: none advertised yet. Local commands: /scope, /report, /config, /clear, /help. Ctrl+C aborts a running command."
    );
    app.backend_commands = vec!["run".into(), "scan".into()];
    run(&mut app, "/help");
    assert_eq!(
        last(&app).1,
        "Backend tasks: /run <target>, /scan <target>. Local commands: /scope, /report, /config, /clear, /help. Ctrl+C aborts a running command."
    );
    run(&mut app, "/report");
    assert_eq!(
        last(&app).1,
        "Use vulnclaw report <result.json> [--pdf] to write the report; the TUI shows findings live."
    );
    run(&mut app, "/config");
    assert_eq!(
        last(&app).1,
        "Use vulnclaw config set <key> <value> for llm.provider / llm.api_key / llm.base_url / llm.model."
    );
    app.findings.push(Finding::default());
    app.transcript_scroll = 9;
    app.transcript_follow = false;
    run(&mut app, "/clear");
    assert_eq!(app.transcript.len(), 1);
    assert_eq!(
        last(&app),
        (
            TranscriptKind::Status,
            "Transcript cleared. Findings remain available in the inspector."
        )
    );
    assert_eq!(app.findings.len(), 1);
    assert_eq!(app.transcript_scroll, 0);
    assert!(app.transcript_follow);
}

#[test]
fn commands_are_echoed_recorded_and_cleared_from_the_composer() {
    let mut app = new_app();
    run(&mut app, "You > /nope x");
    let texts: Vec<&str> = app.transcript.iter().map(|item| item.text.as_str()).collect();
    assert_eq!(
        texts,
        ["Welcome.", "Ready.", "> /nope x", "Unknown command: /nope x"]
    );
    assert_eq!(app.transcript[2].kind, TranscriptKind::User);
    assert_eq!(last(&app).0, TranscriptKind::Error);
    assert_eq!(app.command_history, ["/nope x"]);
    assert_eq!((app.input.as_str(), app.input_cursor), ("", 0));
    run(&mut app, "hello");
    assert_eq!(last(&app).1, "Unknown command: hello");
    let before = app.transcript.len();
    run(&mut app, "   ");
    assert_eq!(app.transcript.len(), before);
}

#[test]
fn tasks_are_armed_confirmed_or_dismissed() {
    let mut app = connected_app();
    assert!(run(&mut app, "/run  host --only-port 443 ").is_none());
    assert_eq!(
        app.pending_task.as_deref(),
        Some("/run host --only-port 443")
    );
    assert_eq!(
        last(&app).1,
        "/run armed for host. Press Y to run, or Esc to cancel."
    );
    app.dismiss_task();
    assert_eq!(last(&app).1, "Task command cancelled before execution.");
    let before = app.transcript.len();
    app.dismiss_task();
    assert!(app.confirm_task().is_none());
    assert_eq!(app.transcript.len(), before);

    run(&mut app, "/run");
    assert_eq!(
        last(&app).1,
        "/run requires a target: /run <target> [--only-port N] [--only-host H] [--blocked-host H]"
    );

    run(&mut app, "/run host");
    let dispatch = app.confirm_task().unwrap();
    assert_eq!(last(&app).1, "TUI confirmation recorded. Starting task.");
    assert!(matches!(dispatch.purpose, Purpose::StartTask));
    assert_eq!(dispatch.request.kind, "start_task");
    assert_eq!(dispatch.request.request_id, "rust-7-1");
    assert_eq!(dispatch.request.task_id.as_deref(), Some("task-7-1"));
    assert_eq!(
        dispatch.request.payload,
        json(r#"{"command_line":"/run host"}"#)
    );
    assert!(app.worker_active);
    assert!(app.worker_started_at.is_some());
    assert_eq!(app.active_task_id.as_deref(), Some("task-7-1"));
    assert_eq!(phase(&app), "Submitting");
    assert!(app.pending_task.is_none());
    assert!(app.confirm_task().is_none());

    assert!(app.start_task("/run other".into()).is_none());
    assert_eq!(last(&app).1, "A VulnClaw command is already running.");
    assert_eq!(app.active_task_id.as_deref(), Some("task-7-1"));
}

#[test]
fn tasks_that_cannot_be_submitted_end_at_once() {
    let mut app = connected_app();
    app.backend_ready = false;
    assert!(app.start_task("/run h".into()).is_none());
    assert_eq!(last(&app).1, "The Python backend is not ready.");
    assert!(!app.worker_active);

    let mut app = connected_app();
    app.backend_connected = false;
    assert!(app.start_task("/run h".into()).is_none());
    assert_eq!(
        last(&app),
        (
            TranscriptKind::Error,
            "Could not submit task to Python backend: backend disconnected"
        )
    );
    assert!(!app.worker_active && app.active_task_id.is_none());
    assert_eq!(app.last_receipt.as_ref().unwrap().phase, "Failed to submit");
    assert_eq!(app.request_counter, 1);

    let mut app = connected_app();
    let dispatch = app.start_task("/run h".into()).unwrap();
    app.settle(dispatch.purpose, Err("broken pipe".into()));
    assert_eq!(
        last(&app).1,
        "Could not submit task to Python backend: broken pipe"
    );
    assert!(!app.worker_active && app.worker_started_at.is_none());
    assert_eq!(app.last_receipt.as_ref().unwrap().command, "/run h");

    let mut app = connected_app();
    let dispatch = app.start_task("/run h".into()).unwrap();
    let before = app.transcript.len();
    app.settle(dispatch.purpose, Ok(()));
    assert!(app.worker_active);
    assert_eq!(app.transcript.len(), before);
}

#[test]
fn scope_changes_are_asked_of_the_backend() {
    let mut app = connected_app();
    let update = run(&mut app, "/scope  --only-port 443 ").unwrap();
    assert_eq!(update.request.kind, "control");
    assert_eq!(update.request.task_id, None);
    assert_eq!(
        update.request.payload.text_at("operation"),
        Some("session.scope.update")
    );
    assert_eq!(
        update.request.payload.get("arguments"),
        Some(&json(r#"{"command_line":"--only-port 443"}"#))
    );
    app.settle(update.purpose.clone(), Ok(()));
    assert_eq!(last(&app).1, "Session scope change requested.");
    app.settle(update.purpose, Err("closed".into()));
    assert_eq!(
        last(&app).1,
        "Could not send session.scope.update to Python backend: closed"
    );

    let reset = run(&mut app, "/scope --clear").unwrap();
    assert_eq!(
        reset.request.payload.text_at("operation"),
        Some("session.scope.reset")
    );
    assert_eq!(reset.request.payload.get("arguments"), Some(&json("{}")));
    assert_eq!(reset.request.request_id, "rust-7-2");

    app.backend_control_operations.clear();
    assert!(run(&mut app, "/scope --clear").is_none());
    assert_eq!(
        last(&app).1,
        "The connected backend does not support control operation session.scope.reset."
    );

    let mut app = connected_app();
    app.backend_connected = false;
    assert!(run(&mut app, "/scope --clear").is_none());
    assert_eq!(
        last(&app).1,
        "Could not send session.scope.reset to Python backend: backend disconnected"
    );

    let mut app = busy_app();
    assert!(run(&mut app, "/scope --clear").is_none());
    assert_eq!(
        last(&app).1,
        "Administrative settings cannot change while a task is running."
    );
}

#[test]
fn running_tasks_can_be_cancelled() {
    let mut app = connected_app();
    assert!(app.stop_worker().is_none());
    assert_eq!(app.transcript.len(), 2);

    let mut app = busy_app();
    app.backend_supports_cancellation = false;
    assert!(app.stop_worker().is_none());
    assert_eq!(
        last(&app).1,
        "The connected backend does not support task cancellation."
    );

    let mut app = busy_app();
    app.backend_connected = false;
    assert!(app.stop_worker().is_none());
    assert_eq!(last(&app).1, "Could not cancel task: backend disconnected.");

    let mut app = busy_app();
    let dispatch = app.stop_worker().unwrap();
    assert_eq!(dispatch.request.kind, "cancel_task");
    assert_eq!(dispatch.request.task_id.as_deref(), Some("t1"));
    app.settle(dispatch.purpose.clone(), Err("closed".into()));
    assert_eq!(last(&app).1, "Could not cancel task: closed");
    app.settle(dispatch.purpose, Ok(()));
    assert_eq!(phase(&app), "Cancelling");
    assert_eq!(
        last(&app).1,
        "Cancellation requested; waiting for Python checkpoint."
    );
    assert!(app.worker_active && app.backend_connected);

    report(
        &mut app,
        BackendEvent::TaskCancelled {
            request_id: "r".into(),
            task_id: "t1".into(),
            state: StateSnapshot::default(),
        },
    );
    assert_eq!(
        last(&app).1,
        "VulnClaw task cancelled; backend session remains available."
    );
    assert!(!app.worker_active && app.backend_connected && app.backend_ready);
    assert_eq!(app.last_receipt.as_ref().unwrap().phase, "Cancelled");
}

#[test]
fn the_backend_is_greeted_and_sent_away() {
    let mut app = new_app();
    assert!(app.connect_backend(Err("no python".into()), json("{}")).is_none());
    assert_eq!(
        last(&app).1,
        "Could not start VulnClaw Python backend: no python"
    );
    let hello = app.connect_backend(Ok(()), json(r#"{"k":1}"#)).unwrap();
    assert_eq!(hello.request.kind, "initialize");
    assert_eq!(
        hello.request.payload.get("bootstrap"),
        Some(&json(r#"{"k":1}"#))
    );
    app.settle(hello.purpose.clone(), Err("closed".into()));
    assert_eq!(last(&app).1, "Could not initialize Python backend: closed");
    assert!(!app.backend_connected);
    app.settle(hello.purpose, Ok(()));
    assert_eq!(
        last(&app).1,
        "Connecting to the VulnClaw Python backend..."
    );
    assert!(app.backend_connected);

    let mut app = connected_app();
    let farewell = app.shutdown_backend().unwrap();
    assert_eq!(farewell.kind, "shutdown");
    assert!(!app.backend_connected && !app.backend_ready && !app.backend_supports_cancellation);
    assert!(app.backend_commands.is_empty() && app.backend_control_operations.is_empty());
    assert!(app.shutdown_backend().is_none());
}

#[test]
fn sessions_are_saved_and_restored_with_a_word() {
    let mut app = new_app();
    app.save_session(Ok("/tmp/s.json".into()));
    assert_eq!(last(&app), (TranscriptKind::Status, "Session saved: /tmp/s.json"));
    app.save_session(Err("full".into()));
    assert_eq!(last(&app), (TranscriptKind::Error, "Could not save session: full"));
    app.restore_session(Ok(()));
    assert_eq!(last(&app), (TranscriptKind::Status, "Session restored."));
    app.restore_session(Err("gone".into()));
    assert_eq!(
        last(&app),
        (TranscriptKind::Error, "Could not restore session: gone")
    );
}

fn ready(capabilities: BackendCapabilities, runtime: RuntimeInfo) -> BackendEvent {
    BackendEvent::Ready {
        request_id: "r".into(),
        backend: BackendInfo {
            pid: 42,
            version: "1.2".into(),
            _protocol_version: 1,
        },
        capabilities,
        runtime,
        state: StateSnapshot::default(),
    }
}

#[test]
fn a_ready_backend_tells_what_it_can_do() {
    let mut app = new_app();
    report(
        &mut app,
        ready(
            BackendCapabilities {
                commands: vec!["/scan".into(), "run".into(), "no way".into(), "run".into()],
                control_operations: vec!["b".into(), " ".into(), "a".into(), "b".into()],
                cancellation: true,
                authoritative_state: true,
            },
            RuntimeInfo {
                config_ready: true,
                provider: "p".into(),
                model: "m".into(),
                skills: vec!["x".into(), "y".into()],
                ..Default::default()
            },
        ),
    );
    assert!(app.backend_ready);
    assert_eq!(app.backend_pid, Some(42));
    assert_eq!(app.config_ready, Some(true));
    assert_eq!(app.backend_commands, ["run", "scan"]);
    assert_eq!(app.backend_control_operations, ["a", "b"]);
    assert_eq!(
        last(&app),
        (
            TranscriptKind::Status,
            "Python backend ready (pid 42, VulnClaw 1.2, p/m)."
        )
    );
    assert_eq!(app.skills.len(), 1);
    assert_eq!(app.skills[0].name, "Python skills");
    assert_eq!(app.skills[0].children[1].name, "y");
}

#[test]
fn a_backend_without_authoritative_state_gets_no_tasks() {
    let mut app = App::new(
        7,
        "",
        "",
        vec![SkillNode {
            name: "kept".into(),
            children: Vec::new(),
        }],
    );
    report(
        &mut app,
        ready(
            BackendCapabilities {
                commands: vec!["run".into()],
                ..Default::default()
            },
            RuntimeInfo::default(),
        ),
    );
    assert!(app.backend_commands.is_empty());
    assert_eq!(app.skills[0].name, "kept");
    let texts: Vec<&str> = app.transcript.iter().map(|item| item.text.as_str()).collect();
    assert_eq!(
        &texts[2..],
        [
            "Backend does not advertise authoritative state; refusing task commands.",
            "Python backend ready (pid 42, VulnClaw 1.2, /).",
            "LLM credentials are not configured. Run `vulnclaw config set` before starting a task.",
        ]
    );
    run(&mut app, "/run host");
    assert_eq!(last(&app).1, "Unknown command: /run host");
}

#[test]
fn events_of_the_running_task_are_told() {
    let mut app = busy_app();
    let t1 = || "t1".to_owned();
    report(
        &mut app,
        BackendEvent::TaskStarted {
            request_id: "r".into(),
            task_id: t1(),
            task: json(r#"{"command":"run","normalized_command":"/run host"}"#),
            state: running_state(),
        },
    );
    assert_eq!(phase(&app), "run running");
    assert_eq!(app.active_receipt.as_ref().unwrap().command, "/run host");
    report(
        &mut app,
        BackendEvent::TaskStarted {
            request_id: "r".into(),
            task_id: t1(),
            task: json(r#"{"command":"scan"}"#),
            state: running_state(),
        },
    );
    assert_eq!(phase(&app), "scan running");
    assert_eq!(app.active_receipt.as_ref().unwrap().command, "/run host");
    report(
        &mut app,
        BackendEvent::Status {
            task_id: t1(),
            status: "busy".into(),
        },
    );
    assert_eq!(phase(&app), "busy");
    assert_eq!(last(&app), (TranscriptKind::Status, "busy"));
    report(
        &mut app,
        BackendEvent::Reasoning {
            task_id: t1(),
            text: "hm".into(),
        },
    );
    assert_eq!(phase(&app), "Thinking");
    assert_eq!(last(&app), (TranscriptKind::Reasoning, "hm"));
    report(
        &mut app,
        BackendEvent::ToolCall {
            task_id: t1(),
            tool: "nmap".into(),
            arguments: "x".repeat(161),
        },
    );
    assert_eq!(phase(&app), "Using tool");
    assert_eq!(
        last(&app),
        (
            TranscriptKind::Log,
            format!("→ tool: nmap {}…", "x".repeat(160)).as_str()
        )
    );
    report(
        &mut app,
        BackendEvent::ToolResult {
            task_id: t1(),
            result: "y".repeat(241),
        },
    );
    assert_eq!(phase(&app), "Running");
    assert_eq!(last(&app).1, format!("→ result: {}…", "y".repeat(240)));
    report(
        &mut app,
        BackendEvent::Log {
            task_id: t1(),
            message: "line".into(),
        },
    );
    assert_eq!(last(&app), (TranscriptKind::Log, "line"));
    report(
        &mut app,
        BackendEvent::ApprovalRequired {
            task_id: t1(),
            question: "go on?".into(),
        },
    );
    assert_eq!(
        last(&app),
        (TranscriptKind::Status, "Approval required: go on?")
    );
}

#[test]
fn events_of_other_tasks_are_ignored() {
    let mut app = busy_app();
    let other = || "t2".to_owned();
    let before = format!("{app:?}");
    for event in [
        BackendEvent::Status {
            task_id: other(),
            status: "busy".into(),
        },
        BackendEvent::Log {
            task_id: other(),
            message: "line".into(),
        },
        BackendEvent::Finding {
            task_id: other(),
            finding: Finding::default(),
        },
        BackendEvent::TaskStarted {
            request_id: "r".into(),
            task_id: other(),
            task: json("{}"),
            state: StateSnapshot::default(),
        },
        BackendEvent::TaskCompleted {
            request_id: "r".into(),
            task_id: other(),
            result: json("{}"),
            findings: Vec::new(),
            state: StateSnapshot::default(),
        },
        BackendEvent::TaskFailed {
            request_id: "r".into(),
            task_id: other(),
            error: json("{}"),
            state: StateSnapshot::default(),
        },
    ] {
        report(&mut app, event);
    }
    assert_eq!(format!("{app:?}"), before);
}

#[test]
fn tasks_complete_or_fail_with_a_word() {
    let complete = |result: &str| {
        let mut app = busy_app();
        report(
            &mut app,
            BackendEvent::TaskCompleted {
                request_id: "r".into(),
                task_id: "t1".into(),
                result: json(result),
                findings: Vec::new(),
                state: running_state(),
            },
        );
        assert!(!app.worker_active && app.active_task_id.is_none());
        last(&app).1.to_owned()
    };
    assert_eq!(complete("{}"), "VulnClaw task completed.");
    assert_eq!(complete(r#"{"run":{"name":""}}"#), "VulnClaw task completed.");
    assert_eq!(complete(r#"{"run":{"name":7}}"#), "VulnClaw task completed.");
    assert_eq!(
        complete(r#"{"run":{"name":"night"}}"#),
        "VulnClaw task completed. Run: night"
    );
    let fail = |error: &str| {
        let mut app = busy_app();
        report(
            &mut app,
            BackendEvent::TaskFailed {
                request_id: "r".into(),
                task_id: "t1".into(),
                error: json(error),
                state: running_state(),
            },
        );
        assert_eq!(app.last_receipt.as_ref().unwrap().phase, "Failed");
        last(&app).1.to_owned()
    };
    assert_eq!(fail("{}"), "VulnClaw task failed: task failed");
    assert_eq!(fail(r#"{"message":"oops"}"#), "VulnClaw task failed: oops");
}

#[test]
fn findings_are_added_once_and_replaced_by_identifier() {
    let mut app = busy_app();
    let finding = |id: &str, title: &str| BackendEvent::Finding {
        task_id: "t1".into(),
        finding: Finding {
            id: id.into(),
            severity: "high".into(),
            title: title.into(),
            target: "h".into(),
            ..Default::default()
        },
    };
    report(&mut app, finding("a", "first"));
    assert_eq!(last(&app), (TranscriptKind::Finding, "[HIGH] first (h)"));
    assert_eq!(phase(&app), "Receiving findings");
    let spoken = app.transcript.len();
    report(&mut app, finding("a", "again"));
    assert_eq!(app.findings.len(), 1);
    assert_eq!(app.findings[0].title, "again");
    assert_eq!(app.transcript.len(), spoken);
    report(&mut app, finding("", "nameless"));
    report(&mut app, finding("", "nameless"));
    assert_eq!(app.findings.len(), 3);
    assert_eq!(app.active_receipt.as_ref().unwrap().findings, 3);
}

#[test]
fn control_results_and_refusals_are_told() {
    let mut app = connected_app();
    report(
        &mut app,
        BackendEvent::ControlResult {
            request_id: "r".into(),
            operation: "op".into(),
            result: json("{}"),
            state: None,
        },
    );
    assert_eq!(last(&app).1, "Backend control op completed.");
    report(
        &mut app,
        BackendEvent::ControlResult {
            request_id: "r".into(),
            operation: "op".into(),
            result: json(r#"{"message":"done"}"#),
            state: Some(StateSnapshot {
                target: "h".into(),
                ..Default::default()
            }),
        },
    );
    assert_eq!(last(&app).1, "done");
    assert_eq!(app.target, "h");

    let refusal = |task_id: Option<&str>| BackendEvent::Error {
        request_id: None,
        task_id: task_id.map(str::to_owned),
        code: "busy".into(),
        message: "later".into(),
    };
    let mut app = busy_app();
    report(&mut app, refusal(None));
    report(&mut app, refusal(Some("t2")));
    assert_eq!(last(&app), (TranscriptKind::Error, "Backend busy: later"));
    assert!(app.worker_active);
    report(&mut app, refusal(Some("t1")));
    assert!(!app.worker_active);
    assert_eq!(app.last_receipt.as_ref().unwrap().phase, "Rejected");
    let mut idle = connected_app();
    report(&mut idle, refusal(None));
    assert!(idle.last_receipt.is_none());
}

#[test]
fn the_end_of_the_backend_is_told_while_running() {
    let mut app = busy_app();
    app.apply_event(AppEvent::BackendDiagnostic("warned".into()));
    assert_eq!(last(&app), (TranscriptKind::Log, "backend: warned"));
    report(
        &mut app,
        BackendEvent::ShutdownComplete {
            request_id: "r".into(),
        },
    );
    assert!(!app.backend_ready && app.backend_commands.is_empty());
    assert!(app.backend_supports_cancellation && app.backend_connected);
    app.apply_event(AppEvent::BackendExited(true));
    assert_eq!(last(&app), (TranscriptKind::Error, "Python backend exited."));
    assert!(!app.backend_connected && !app.worker_active && app.active_task_id.is_none());
    let receipt = app.last_receipt.as_ref().unwrap();
    assert_eq!(receipt.phase, "Backend disconnected");

    let mut app = busy_app();
    app.apply_event(AppEvent::BackendExited(false));
    assert_eq!(
        last(&app).1,
        "Python backend exited with a non-zero status."
    );

    let mut app = busy_app();
    app.running = false;
    let before = app.transcript.len();
    app.apply_event(AppEvent::BackendExited(false));
    assert_eq!(app.transcript.len(), before);
}

#[test]
fn one_session_serves_two_tasks_in_turn() {
    let mut app = connected_app();
    for number in 1..=2 {
        run(&mut app, "/run host");
        let dispatch = app.confirm_task().unwrap();
        let task_id = dispatch.request.task_id.clone().unwrap();
        assert_eq!(task_id, format!("task-7-{number}"));
        assert_eq!(dispatch.request.request_id, format!("rust-7-{number}"));
        app.settle(dispatch.purpose, Ok(()));
        report(
            &mut app,
            BackendEvent::TaskCompleted {
                request_id: dispatch.request.request_id,
                task_id,
                result: json("{}"),
                findings: Vec::new(),
                state: StateSnapshot::default(),
            },
        );
        assert!(!app.worker_active);
        assert!(app.backend_connected);
    }
}

#[test]
fn the_composer_edits_by_characters() {
    let mut app = new_app();
    app.insert_text("a\r\né漢\n");
    assert_eq!((app.input.as_str(), app.input_cursor), ("aé漢", 6));
    app.move_input_cursor(false);
    assert_eq!(app.input_cursor, 3);
    app.append_input('😀');
    assert_eq!((app.input.as_str(), app.input_cursor), ("aé😀漢", 7));
    app.delete_input();
    assert_eq!((app.input.as_str(), app.input_cursor), ("aé漢", 3));
    app.delete_forward_input();
    app.delete_forward_input();
    assert_eq!((app.input.as_str(), app.input_cursor), ("aé", 3));
    app.move_input_cursor(true);
    assert_eq!(app.input_cursor, 3);
    app.move_input_cursor_to_edge(false);
    app.delete_input();
    app.move_input_cursor(false);
    assert_eq!((app.input.as_str(), app.input_cursor), ("aé", 0));
    app.move_input_cursor(true);
    app.move_input_cursor(true);
    app.move_input_cursor(false);
    assert_eq!(app.input_cursor, 1);
    app.move_input_cursor_to_edge(true);
    assert_eq!(app.input_cursor, 3);
    app.append_input('\n');
    assert_eq!(app.input, "aé");
    // Where nothing is kept, the cursor may stand anywhere.
    app.input_cursor = 2;
    app.palette_selection = 1;
    app.insert_text("\r\n");
    app.append_input('\r');
    app.insert_text("");
    assert_eq!((app.input.as_str(), app.input_cursor), ("aé", 2));
    assert_eq!(app.palette_selection, 0);
}

#[test]
fn the_history_is_walked_and_bounded() {
    let mut app = new_app();
    app.recall_history(true);
    assert_eq!(app.input, "");
    for n in 0..60 {
        run(&mut app, &format!("c{n}"));
        run(&mut app, &format!("c{n}"));
    }
    assert_eq!(app.command_history.len(), 50);
    assert_eq!(app.command_history[0], "c10");
    app.insert_text("draft");
    app.recall_history(false);
    assert_eq!(app.input, "draft");
    app.recall_history(true);
    app.recall_history(true);
    assert_eq!(app.input, "c58");
    app.recall_history(false);
    assert_eq!((app.input.as_str(), app.input_cursor), ("c59", 3));
    app.recall_history(false);
    assert_eq!(app.input, "draft");
    assert_eq!(app.history_index, None);
    for _ in 0..70 {
        app.recall_history(true);
    }
    assert_eq!(app.input, "c10");
    app.insert_text("x");
    assert_eq!(app.history_index, None);
}

#[test]
fn the_palette_offers_what_completes_the_input() {
    let mut app = new_app();
    app.backend_commands = vec!["recon".into(), "run".into()];
    let offered = |app: &App| -> Vec<String> {
        app.suggested_commands()
            .into_iter()
            .map(|item| item.command)
            .collect()
    };
    assert!(offered(&app).is_empty());
    app.insert_text(" /R");
    assert_eq!(offered(&app), ["/recon ", "/run ", "/report"]);
    assert_eq!(
        app.suggested_commands()[0].description,
        "run a task through the Python backend"
    );
    assert_eq!(
        app.suggested_commands()[2].description,
        "show report export guidance"
    );
    assert!(app.palette_visible());
    app.move_input_cursor(false);
    assert!(!app.palette_visible());
    app.move_input_cursor(true);

    app.select_next_command(false);
    assert_eq!(app.palette_selection, 2);
    app.select_next_command(true);
    assert_eq!(app.palette_selection, 0);
    app.select_next_command(true);
    assert!(app.should_complete_selected_command());
    assert!(app.accept_selected_command());
    assert_eq!((app.input.as_str(), app.palette_selection), ("/run ", 0));
    assert!(!app.should_complete_selected_command());

    app.clear_composer();
    app.insert_text("/run");
    assert!(app.should_complete_selected_command());
    app.clear_composer();
    app.insert_text("/help");
    assert!(!app.should_complete_selected_command());
    app.clear_composer();
    app.insert_text("/");
    assert_eq!(
        offered(&app),
        ["/recon ", "/run ", "/scope ", "/report", "/config", "/clear", "/help"]
    );
    app.clear_composer();
    app.insert_text("/zzz");
    assert!(!app.accept_selected_command());
    assert!(!app.should_complete_selected_command());
    app.select_next_command(true);
    assert_eq!(app.palette_selection, 0);
}

#[test]
fn postures_and_panes_cycle() {
    let mut app = new_app();
    app.cycle_mode();
    assert_eq!(last(&app).1, "Execution mode switched to Plan.");
    app.cycle_mode();
    assert_eq!(app.mode, ExecutionMode::Agent);
    assert_eq!(ExecutionMode::Yolo.next(), ExecutionMode::Plan);
    assert_eq!(ExecutionMode::Yolo.label(), "YOLO");
    app.cycle_permission();
    assert_eq!(
        last(&app).1,
        "Permission posture switched to Full access. Explicit confirmation still required before a task starts."
    );
    app.cycle_permission();
    assert_eq!(app.permission, PermissionMode::Ask);
    assert_eq!(PermissionMode::AutoReview.label(), "Auto-review");
    assert_eq!(PermissionMode::Ask.label(), "Ask");
    app.cycle_active_pane(false);
    assert_eq!(app.active_pane_label(), "Findings inspector");
    app.cycle_active_pane(false);
    assert_eq!(app.active_pane_label(), "Workspace");
    app.cycle_active_pane(true);
    app.cycle_active_pane(true);
    assert_eq!(app.active_pane_label(), "Session transcript");
    assert_eq!(ActivePane::Transcript.previous(), ActivePane::Workspace);
    assert_eq!(ActivePane::Findings.next(), ActivePane::Workspace);
}

#[test]
fn panes_scroll_row_by_row() {
    let mut app = new_app();
    app.terminal_size = Rect::new(0, 0, 120, 30);
    let lines: Vec<String> = (0..47).map(|n| format!("line {n}")).collect();
    assert_eq!(app.transcript_max_scroll(&lines), 23);
    app.autoscroll_transcript(&lines);
    assert_eq!(app.transcript_scroll, 23);
    app.active_pane = ActivePane::Findings;
    app.scroll_active_pane(false, &lines);
    app.scroll_active_pane(true, &lines);
    assert_eq!((app.findings_scroll, app.transcript_scroll), (1, 23));
    app.active_pane = ActivePane::Workspace;
    app.scroll_active_pane(false, &lines);
    assert_eq!((app.findings_scroll, app.transcript_scroll), (1, 22));
    assert!(!app.transcript_follow);
    app.autoscroll_transcript(&lines);
    assert_eq!(app.transcript_scroll, 22);

    app.findings_scroll = u16::MAX;
    app.active_pane = ActivePane::Findings;
    app.scroll_active_pane(true, &lines);
    assert_eq!(app.findings_scroll, u16::MAX);

    app.scroll_transcript(true, 65535);
    assert_eq!(app.transcript_scroll, 23);
    app.transcript_follow = true;
    app.follow_transcript(65535);
    assert_eq!(app.transcript_scroll, 65535);
    // The offset has sixteen bits: it stays as low as they reach.
    app.follow_transcript(65536 + 5);
    assert_eq!(app.transcript_scroll, 65535);
    app.scroll_transcript(true, 65536 + 5);
    assert_eq!(app.transcript_scroll, 65535);
    assert!(!app.transcript_follow);
    app.scroll_transcript(false, 65536 + 5);
    assert_eq!(app.transcript_scroll, 65534);
    app.scroll_transcript(true, 65535);
    assert_eq!(app.transcript_scroll, 65535);
    assert!(app.transcript_follow);
    app.scroll_transcript(false, 65535);
    assert_eq!(app.transcript_scroll, 65534);
    assert!(!app.transcript_follow);
    app.follow_transcript(7);
    assert_eq!(app.transcript_scroll, 65534);
}

#[test]
fn wide_screens_count_what_their_transcript_can_wrap() {
    let mut app = new_app();
    let long = vec!["a".repeat(40000)];
    app.terminal_size = Rect::new(0, 0, WRAP_LIMIT + 70, 30);
    assert_eq!(app.transcript_max_scroll(&long), 0);
    app.terminal_size = Rect::new(0, 0, WRAP_LIMIT + 70, 7);
    // Three rows of text and the border, of which the pane shows three rows.
    assert_eq!(app.transcript_max_scroll(&long), 2);
    app.terminal_size = Rect::new(0, 0, 65535, 6);
    assert_eq!(app.transcript_max_scroll(&long), 0);
    app.autoscroll_transcript(&long);
    assert_eq!(app.transcript_scroll, 0);
}

#[test]
fn the_start_of_a_task_is_kept_until_it_ends() {
    let start = Instant::now();
    let later = start + Duration::from_secs(5);
    let mut app = connected_app();
    app.start_task_at("/run h".into(), start).unwrap();
    assert_eq!(app.worker_started_at, Some(start));
    let task_id = app.active_task_id.clone().unwrap();

    // Neither foreign events, blank submissions, editing, copies nor refused tasks touch it.
    app.apply_event_at(
        AppEvent::Backend(BackendEvent::TaskStarted {
            request_id: "r".into(),
            task_id: "other".into(),
            task: json("{}"),
            state: StateSnapshot::default(),
        }),
        later,
    );
    app.apply_event_at(AppEvent::BackendDiagnostic("warned".into()), later);
    assert!(run(&mut app, "  ").is_none());
    app.insert_text("x");
    app.copy_active_pane(None);
    assert!(app.start_task_at("/run other".into(), later).is_none());
    assert!(run(&mut app, "/scope --clear").is_none());
    assert!(app.stop_worker().is_some());
    assert_eq!(app.worker_started_at, Some(start));

    app.apply_event_at(
        AppEvent::Backend(BackendEvent::TaskStarted {
            request_id: "r".into(),
            task_id: task_id.clone(),
            task: json("{}"),
            state: StateSnapshot {
                task: BackendTaskState {
                    active: true,
                    task_id: Some(task_id.clone()),
                },
                ..Default::default()
            },
        }),
        later,
    );
    assert_eq!(app.worker_started_at, Some(later));
    report(
        &mut app,
        BackendEvent::TaskCancelled {
            request_id: "r".into(),
            task_id,
            state: StateSnapshot::default(),
        },
    );
    assert_eq!(app.worker_started_at, None);

    app.pending_task = Some("/run h".into());
    app.confirm_task_at(start).unwrap();
    assert_eq!(app.worker_started_at, Some(start));
}

#[test]
fn the_composer_takes_room_from_the_panes() {
    let mut app = new_app();
    let area = Rect::new(0, 0, 120, 30);
    app.terminal_size = area;
    assert_eq!(app.active_pane_rect(area).height, 26);
    assert_eq!(app.transcript_panel_rect(), app.active_pane_rect(area));
    app.insert_text("/h");
    assert_eq!(app.active_pane_rect(area).height, 20);
    app.pending_task = Some("/run h".into());
    assert_eq!(app.active_pane_rect(area).height, 24);
}

#[test]
fn copies_are_told_in_a_toast() {
    let mut app = new_app();
    let screen = Screen {
        width: 120,
        height: 30,
        cells: vec!["x".into(); 120 * 30],
    };
    assert!(app.copy_active_pane(Some(&screen)).is_none());
    assert_eq!(app.toast, "Copy unavailable: terminal size unknown");
    app.terminal_size = Rect::new(0, 0, 120, 30);
    assert!(app.copy_active_pane(None).is_none());
    assert_eq!(app.toast, "Copy failed: cannot render pane");
    let copied = app.copy_active_pane(Some(&screen)).unwrap();
    assert_eq!(copied, format!("{}\n", "x".repeat(52)).repeat(26));
    app.finish_copy(&copied, true);
    assert_eq!(
        app.toast,
        "Copied Session transcript to clipboard (1378 chars)"
    );
    app.finish_copy(&copied, false);
    assert_eq!(app.toast, "Copy failed: clipboard unavailable");
}
