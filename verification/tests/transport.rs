//! The decisions of the transport.
use vulnclaw_tui::event::{AppEvent, BackendEvent};
use vulnclaw_tui::transport::{
    backend_invocation, label_line, must_kill, read_output_line, reap_step, watch_step, ChildPoll,
    ReapStep, WatchStep,
};

#[test]
fn the_backend_is_started_with_the_named_interpreter() {
    let module = ["-m", "vulnclaw.tui_backend"];
    let plain = backend_invocation(None, false);
    assert_eq!(plain.program, "python");
    assert_eq!(plain.arguments, module);
    let named = backend_invocation(Some("/opt/py".into()), true);
    assert_eq!(named.program, "/opt/py");
    assert_eq!(named.arguments, module);
    for python in [None, Some("python".to_owned())] {
        let launcher = backend_invocation(python, true);
        assert_eq!(launcher.program, "py");
        assert_eq!(launcher.arguments, ["-3", "-m", "vulnclaw.tui_backend"]);
    }
}

#[test]
fn output_lines_become_events_or_diagnostics() {
    match read_output_line(
        r#"{"protocol_version":1,"type":"shutdown_complete","request_id":"r"}"#,
        "{}",
        "",
    ) {
        AppEvent::Backend(BackendEvent::ShutdownComplete { request_id }) => {
            assert_eq!(request_id, "r");
        }
        other => panic!("unexpected event: {other:?}"),
    }
    match read_output_line(r#"{"protocol_version":2}"#, "{}", "") {
        AppEvent::BackendDiagnostic(message) => assert_eq!(
            message,
            "invalid backend protocol line (unsupported backend protocol version; expected 1): {\"protocol_version\":2}"
        ),
        other => panic!("unexpected event: {other:?}"),
    }
    match read_output_line(r#"{"protocol_version":1}"#, "{}", "missing field `type`") {
        AppEvent::BackendDiagnostic(message) => assert_eq!(
            message,
            "invalid backend protocol line (missing field `type`): {\"protocol_version\":1}"
        ),
        other => panic!("unexpected event: {other:?}"),
    }
    match label_line("x", Err("why".into())) {
        AppEvent::BackendDiagnostic(message) => {
            assert_eq!(message, "invalid backend protocol line (why): x");
        }
        other => panic!("unexpected event: {other:?}"),
    }
}

#[test]
fn the_watcher_reports_the_end_once() {
    assert!(matches!(watch_step(ChildPoll::Running), WatchStep::Sleep));
    for success in [true, false] {
        match watch_step(ChildPoll::Exited(success)) {
            WatchStep::Report(AppEvent::BackendExited(reported)) => assert_eq!(reported, success),
            other => panic!("unexpected step: {other:?}"),
        }
    }
    match watch_step(ChildPoll::Failed("odd".into())) {
        WatchStep::Report(AppEvent::BackendDiagnostic(message)) => {
            assert_eq!(message, "could not wait for VulnClaw backend: odd");
        }
        other => panic!("unexpected step: {other:?}"),
    }
    assert!(matches!(watch_step(ChildPoll::Absent), WatchStep::Stop));
    assert!(matches!(watch_step(ChildPoll::Unreachable), WatchStep::Stop));
}

#[test]
fn a_process_gets_time_until_its_deadline() {
    assert_eq!(reap_step(&ChildPoll::Running, false), ReapStep::Sleep);
    assert_eq!(reap_step(&ChildPoll::Running, true), ReapStep::Reap);
    assert_eq!(
        reap_step(&ChildPoll::Failed("odd".into()), false),
        ReapStep::Sleep
    );
    assert_eq!(
        reap_step(&ChildPoll::Failed("odd".into()), true),
        ReapStep::Reap
    );
    for overdue in [true, false] {
        assert_eq!(reap_step(&ChildPoll::Exited(true), overdue), ReapStep::Reap);
        assert_eq!(reap_step(&ChildPoll::Absent, overdue), ReapStep::Reap);
        assert_eq!(
            reap_step(&ChildPoll::Unreachable, overdue),
            ReapStep::GiveUp
        );
    }
    assert!(must_kill(&ChildPoll::Running));
    assert!(!must_kill(&ChildPoll::Exited(false)));
    assert!(!must_kill(&ChildPoll::Failed("odd".into())));
}
