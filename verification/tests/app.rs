//! Scenarios of the workbench: the composer, tasks, events and panes.
use ratatui::backend::TestBackend;
use ratatui::layout::{Constraint, Direction, Layout};
use ratatui::widgets::{Block, Borders};
use ratatui::Terminal;
use vulnclaw_tui::app::{App, OperationReceipt, TranscriptKind};
use vulnclaw_tui::command::strip_prompt_prefix;
use vulnclaw_tui::decode::parse_backend_line;
use vulnclaw_tui::event::{AppEvent, BackendEvent, BackendTaskState, Finding, StateSnapshot};
use vulnclaw_tui::json::{parse_json, Json};
use vulnclaw_tui::layout::{extract_rect_text, Rect, Screen};
use vulnclaw_tui::modes::{ActivePane, ExecutionMode, PermissionMode};

fn new_app() -> App {
    App::new(
        7,
        "Welcome to VulnClaw.",
        "Ready for a command.",
        Vec::new(),
    )
}

fn json(document: &str) -> Json {
    parse_json(document).unwrap()
}

/// The transcript as it is shown, one line per entry.
fn shown(app: &App) -> Vec<String> {
    app.transcript.iter().map(|item| item.text.clone()).collect()
}

fn says(app: &App, text: &str) -> bool {
    app.transcript.iter().any(|item| item.text.contains(text))
}

/// The cells of a screen of 120 columns and 28 rows that shows the three panes as titled
/// boxes, where the workbench has them between the header and the composer.
fn rendered() -> Screen {
    let panels = Layout::default()
        .direction(Direction::Horizontal)
        .constraints([
            Constraint::Length(28),
            Constraint::Min(36),
            Constraint::Length(40),
        ])
        .split(ratatui::layout::Rect::new(0, 2, 120, 24));
    let mut term = Terminal::new(TestBackend::new(120, 28)).unwrap();
    term.draw(|frame| {
        for (index, title) in ["Workspace", "Session transcript", "Findings inspector"]
            .into_iter()
            .enumerate()
        {
            frame.render_widget(
                Block::default().borders(Borders::ALL).title(title),
                panels[index],
            );
        }
    })
    .unwrap();
    let buffer = term.backend().buffer();
    Screen {
        width: buffer.area.width,
        height: buffer.area.height,
        cells: buffer.content.iter().map(|cell| cell.symbol().to_owned()).collect(),
    }
}

#[test]
fn strip_prompt_prefix_tolerates_pasted_transcript_prefix() {
    assert_eq!(
        strip_prompt_prefix("You  > /run https://example.com"),
        "/run https://example.com"
    );
    // Doubled prefix (composer prompt + pasted prefix) also resolves.
    assert_eq!(
        strip_prompt_prefix("You  > You  > /run https://example.com"),
        "/run https://example.com"
    );
    // Bare "> " prefix from the transcript echo.
    assert_eq!(strip_prompt_prefix("> /shield scan ."), "/shield scan .");
    // Clean command without a prompt artifact is left untouched.
    assert_eq!(strip_prompt_prefix("/help"), "/help");
}

#[test]
fn composer_suggests_and_completes_slash_commands() {
    let mut app = new_app();
    app.backend_commands = vec!["run".into()];
    app.insert_text("/ru");

    assert!(app.palette_visible());
    assert!(app.accept_selected_command());
    assert_eq!(app.input, "/run ");
}

#[test]
fn task_dispatch_uses_backend_advertised_commands() {
    let mut app = new_app();
    app.backend_commands = vec!["recon".into()];
    app.insert_text("/recon https://lab.example");
    app.submit();

    assert_eq!(
        app.pending_task.as_deref(),
        Some("/recon https://lab.example")
    );

    app.dismiss_task();
    app.insert_text("/run https://lab.example");
    app.submit();
    assert!(app.pending_task.is_none());
    assert!(says(&app, "Unknown command: /run"));
}

#[test]
fn scope_command_routes_to_capability_gated_control() {
    let mut app = new_app();

    app.insert_text("/scope");
    app.submit();
    assert!(says(&app, "Usage: /scope"));

    app.insert_text("/scope --only-port 443");
    app.submit();
    assert!(says(&app, "The Python backend is not ready"));
    assert!(!says(&app, "Unknown command: /scope"));
}

#[test]
fn ready_event_hydrates_backend_capabilities() {
    let mut app = new_app();
    let event = parse_backend_line(
        r#"{"protocol_version":1,"type":"ready","request_id":"r1","backend":{"pid":7,"version":"test","protocol_version":1},"capabilities":{"commands":["scan","run"],"control_operations":["example.inspect"],"cancellation":true,"authoritative_state":true},"runtime":{"config_ready":true,"provider":"test","model":"test","mcp_started":0,"skills":[]},"state":{"target":"","phase":"idle","task_constraints":{},"task":{"active":false,"task_id":null},"last_run":null,"findings":[],"evidence":[],"constraint_violations":[]}}"#,
        r#"{"type":"object"}"#,
        "",
    )
    .unwrap();

    app.apply_event(AppEvent::Backend(event));

    assert_eq!(app.backend_commands, vec!["run", "scan"]);
    assert_eq!(app.backend_control_operations, vec!["example.inspect"]);
    assert!(app.backend_supports_cancellation);
}

#[test]
fn authoritative_state_replaces_and_clears_every_business_field() {
    let mut app = new_app();
    app.target = "stale.test".into();
    app.phase = "stale".into();
    app.worker_active = true;
    app.active_task_id = Some("stale-task".into());
    app.task_constraints = json(r#"{"allowed_hosts": ["stale.test"]}"#);
    app.last_run = Some(json(r#"{"status": "stale"}"#));
    app.evidence = vec![json(r#"{"path": "stale"}"#)];
    app.constraint_violations = vec!["stale violation".into()];

    app.apply_event(AppEvent::Backend(BackendEvent::State {
        request_id: None,
        state: StateSnapshot {
            target: String::new(),
            phase: String::new(),
            task_constraints: json(r#"{"allowed_ports": [443]}"#),
            findings: Vec::new(),
            task: BackendTaskState {
                active: false,
                task_id: None,
            },
            last_run: Some(json(r#"{"status": "completed"}"#)),
            evidence: vec![json(r#"{"path": "fresh"}"#)],
            constraint_violations: vec!["fresh violation".into()],
        },
    }));

    assert!(app.target.is_empty());
    assert!(app.phase.is_empty());
    assert!(!app.worker_active);
    assert!(app.active_task_id.is_none());
    assert_eq!(
        app.task_constraints.get("allowed_ports"),
        Some(&json("[443]"))
    );
    assert_eq!(
        app.last_run.as_ref().unwrap().text_at("status"),
        Some("completed")
    );
    assert_eq!(app.evidence[0].text_at("path"), Some("fresh"));
    assert_eq!(app.constraint_violations, vec!["fresh violation"]);
}

#[test]
fn task_event_summaries_never_override_authoritative_state() {
    let mut app = new_app();
    app.worker_active = true;
    app.active_task_id = Some("t1".into());

    app.apply_event(AppEvent::Backend(BackendEvent::TaskStarted {
        request_id: "r1".into(),
        task_id: "t1".into(),
        task: json(
            r#"{"command": "run", "normalized_command": "/run authoritative.test",
                "target": "summary.test", "resume": true,
                "constraints": {"allowed_hosts": ["summary.test"]}}"#,
        ),
        state: StateSnapshot {
            target: "authoritative.test".into(),
            phase: "recon".into(),
            task_constraints: json(r#"{"allowed_hosts": ["authoritative.test"]}"#),
            findings: Vec::new(),
            task: BackendTaskState {
                active: true,
                task_id: Some("t1".into()),
            },
            last_run: None,
            evidence: Vec::new(),
            constraint_violations: Vec::new(),
        },
    }));

    assert_eq!(app.target, "authoritative.test");
    assert_eq!(
        app.task_constraints.get("allowed_hosts"),
        Some(&json(r#"["authoritative.test"]"#))
    );

    let authoritative_finding = Finding {
        id: "state-finding".into(),
        severity: "high".into(),
        title: "Authoritative".into(),
        target: "authoritative.test".into(),
        ..Default::default()
    };
    let summary_finding = Finding {
        id: "summary-finding".into(),
        ..Default::default()
    };
    app.apply_event(AppEvent::Backend(BackendEvent::TaskCompleted {
        request_id: "r1".into(),
        task_id: "t1".into(),
        result: json("{}"),
        findings: vec![summary_finding],
        state: StateSnapshot {
            target: "authoritative.test".into(),
            phase: "reporting".into(),
            task_constraints: app.task_constraints.clone(),
            findings: vec![authoritative_finding],
            task: BackendTaskState {
                active: false,
                task_id: None,
            },
            last_run: Some(json(r#"{"status": "completed"}"#)),
            evidence: Vec::new(),
            constraint_violations: Vec::new(),
        },
    }));

    assert_eq!(app.findings.len(), 1);
    assert_eq!(app.findings[0].id, "state-finding");
}

#[test]
fn mode_and_permission_cycles_are_independent() {
    let mut app = new_app();
    app.cycle_mode();
    app.cycle_permission();

    // Default posture is Agent; one Tab cycles to the read-only Plan.
    assert_eq!(app.mode, ExecutionMode::Plan);
    assert_eq!(app.permission, PermissionMode::FullAccess);
    assert!(app.pending_task.is_none());
}

#[test]
fn composer_supports_cursor_editing_and_history() {
    let mut app = new_app();
    app.insert_text("/hep");
    app.move_input_cursor(false);
    app.insert_text("l");
    app.submit();
    app.insert_text("draft");
    app.recall_history(true);

    assert_eq!(app.input, "/help");
    app.recall_history(false);
    assert_eq!(app.input, "draft");
}

#[test]
fn plan_mode_blocks_task_before_a_confirmation_can_be_armed() {
    let mut app = new_app();
    app.mode = ExecutionMode::Plan;
    app.backend_commands = vec!["run".into()];
    app.insert_text("/run https://lab.example");
    app.submit();

    assert!(app.pending_task.is_none());
    assert!(!app.worker_active);
    assert!(says(&app, "Plan mode is read-only"));
}

#[test]
fn agent_mode_arms_a_task_and_waits_for_confirmation() {
    let mut app = new_app();
    app.mode = ExecutionMode::Agent;
    app.permission = PermissionMode::FullAccess;

    app.request_task("run", "https://lab.example");

    assert!(app.pending_task.is_some());
    assert!(!app.worker_active);
}

#[test]
fn paste_in_main_input_still_works() {
    let mut app = new_app();
    app.insert_text("hello world");
    assert_eq!(app.input, "hello world");
}

#[test]
fn task_requires_a_target() {
    let mut app = new_app();
    app.mode = ExecutionMode::Agent;

    app.request_task("run", "");

    assert!(app.pending_task.is_none());
    assert!(says(&app, "requires a target"));
}

#[test]
fn streamed_events_update_and_finalize_the_work_receipt() {
    let mut app = new_app();
    app.active_receipt = Some(OperationReceipt {
        command: "/run https://lab.example".into(),
        phase: "Starting".into(),
        findings: 0,
    });
    app.worker_active = true;
    app.active_task_id = Some("t1".into());
    let finding = Finding {
        severity: "high".into(),
        title: "Test finding".into(),
        ..Default::default()
    };
    app.apply_event(AppEvent::Backend(BackendEvent::Finding {
        task_id: "t1".into(),
        finding: finding.clone(),
    }));
    app.apply_event(AppEvent::Backend(BackendEvent::TaskCompleted {
        request_id: "r1".into(),
        task_id: "t1".into(),
        result: json("{}"),
        findings: Vec::new(),
        state: StateSnapshot {
            findings: vec![finding],
            task: BackendTaskState {
                active: false,
                task_id: None,
            },
            ..Default::default()
        },
    }));

    assert!(app.active_receipt.is_none());
    assert_eq!(app.last_receipt.as_ref().unwrap().findings, 1);
    assert_eq!(app.last_receipt.as_ref().unwrap().phase, "Completed");
}

#[test]
fn active_pane_rect_partitions_the_workbench_without_overlap() {
    let mut app = new_app();
    app.terminal_size = Rect::new(0, 0, 120, 28);

    app.active_pane = ActivePane::Workspace;
    let workspace = app.active_pane_rect(app.terminal_size);
    app.active_pane = ActivePane::Transcript;
    let transcript = app.active_pane_rect(app.terminal_size);
    app.active_pane = ActivePane::Findings;
    let findings = app.active_pane_rect(app.terminal_size);

    // The three panes are laid out left-to-right and must not overlap.
    assert_eq!(workspace.x, 0);
    assert!(
        workspace.right() <= transcript.x,
        "workspace right of transcript start"
    );
    assert!(
        transcript.right() <= findings.x,
        "transcript right of findings start"
    );
    assert!(findings.right() <= 120);
    // None of them spans the full screen — each is an independent region.
    assert!(workspace.width < 120);
    assert!(transcript.width < 120);
    assert!(findings.width < 120);
    for rect in [workspace, transcript, findings] {
        assert_eq!((rect.y, rect.height), (2, 24));
    }
}

#[test]
fn copy_active_pane_renders_only_the_focused_region() {
    let mut app = new_app();
    app.terminal_size = Rect::new(0, 0, 120, 28);
    app.active_pane = ActivePane::Transcript;

    // Take the transcript region out of a rendered screen and confirm it contains
    // transcript content but not the findings title (proving the copy is pane-scoped,
    // not whole-screen).
    let rect = app.active_pane_rect(app.terminal_size);
    let screen = rendered();
    let text = extract_rect_text(&screen, rect);

    assert!(text.contains("Session transcript"));
    assert!(
        !text.contains("Findings inspector"),
        "transcript copy must not bleed into the findings pane"
    );
    // The whole box is copied and nothing more: its four corners and twenty-four rows.
    assert!(text.starts_with("┌Session transcript"));
    assert!(text.ends_with("┘\n"));
    assert_eq!(text.lines().count(), 24);
    assert!(text.lines().all(|line| line.chars().count() == 52));
    assert_eq!(app.copy_active_pane(Some(&screen)), Some(text));
}

#[test]
fn transcript_autoscroll_pins_to_bottom_and_tracks_growth() {
    let mut app = new_app();
    // 120x30 -> transcript panel height 26, visible inner rows = 24.
    app.terminal_size = Rect::new(0, 0, 120, 30);
    app.active_pane = ActivePane::Transcript;

    // Short lines never wrap at the ~50-col inner width, so the pin point is
    // purely a function of content length.
    for i in 0..5 {
        app.push(TranscriptKind::Log, format!("line {i}"));
    }
    let lines = shown(&app);
    app.autoscroll_transcript(&lines);
    let small = app.transcript_scroll as usize;
    assert!(app.transcript_follow);
    assert_eq!(small, app.transcript_max_scroll(&lines));

    for i in 5..45 {
        app.push(TranscriptKind::Log, format!("line {i}"));
    }
    let lines = shown(&app);
    app.autoscroll_transcript(&lines);
    let large = app.transcript_scroll as usize;
    assert!(app.transcript_follow);
    assert_eq!(large, app.transcript_max_scroll(&lines));
    // More content => larger bottom offset => the view followed the growth.
    assert!(large > small);
}

#[test]
fn transcript_short_content_has_zero_scroll() {
    let mut app = new_app();
    app.terminal_size = Rect::new(0, 0, 120, 30);
    app.active_pane = ActivePane::Transcript;
    let lines = shown(&app);
    app.autoscroll_transcript(&lines);
    // Only the two welcome lines — they fit, so no scrolling is needed.
    assert_eq!(app.transcript_max_scroll(&lines), 0);
    assert_eq!(app.transcript_scroll, 0);
    assert!(app.transcript_follow);
}

#[test]
fn scrolling_up_pauses_follow_and_bottom_resumes_it() {
    let mut app = new_app();
    app.terminal_size = Rect::new(0, 0, 120, 30);
    app.active_pane = ActivePane::Transcript;
    for i in 0..45 {
        app.push(TranscriptKind::Log, format!("line {i}"));
    }
    let lines = shown(&app);
    app.autoscroll_transcript(&lines);
    let max = app.transcript_max_scroll(&lines) as u16;
    assert!(max > 0);
    assert_eq!(app.transcript_scroll, max);
    assert!(app.transcript_follow);

    // Scroll up once to read history: follow must switch off.
    app.scroll_active_pane(false, &lines);
    assert!(!app.transcript_follow);
    assert_eq!(app.transcript_scroll, max - 1);

    // Scroll back down to the bottom: follow must switch back on.
    for _ in 0..(max as usize + 2) {
        app.scroll_active_pane(true, &lines);
    }
    assert!(app.transcript_follow);
    assert_eq!(app.transcript_scroll, max);
}
