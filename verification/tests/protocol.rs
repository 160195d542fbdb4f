//! The wire protocol: requests, the schema, and the lines that the backend writes.
use serde_json::Value;
use vulnclaw_tui::decode::{accept_event, check_version, parse_backend_line, parse_bootstrap};
use vulnclaw_tui::event::{BackendEvent, Finding};
use vulnclaw_tui::json::{parse_json, Json};
use vulnclaw_tui::protocol::{ClientRequest, TaskInput, CLIENT_VERSION, PROTOCOL_VERSION};
use vulnclaw_tui::schema::{report_check, validate_protocol_value, SchemaCheck};

const SCHEMA: &str = r##"{
  "type": "object",
  "required": ["protocol_version", "type"],
  "properties": {
    "protocol_version": {"const": 1},
    "type": {"enum": ["initialize", "start_task", "cancel_task", "get_state", "control",
      "shutdown", "ready", "state", "task_started", "status", "reasoning", "log", "tool_call",
      "tool_result", "finding", "approval_required", "task_completed", "task_cancelled",
      "task_failed", "control_result", "error", "shutdown_complete"]}
  },
  "$defs": {
    "state": {
      "type": "object",
      "required": ["target", "phase", "task_constraints", "task", "last_run", "findings",
        "evidence", "constraint_violations"],
      "properties": {
        "task": {"type": "object", "required": ["active", "task_id"]},
        "findings": {"type": "array", "items": {"$ref": "#/$defs/finding"}}
      }
    },
    "finding": {"type": "object", "required": ["id", "severity", "title", "target"]},
    "request": {"type": "object", "required": ["request_id", "payload"]},
    "task_request": {"type": "object", "required": ["request_id", "task_id", "payload"]}
  },
  "allOf": [
    {"if": {"properties": {"type": {"enum": ["initialize", "get_state", "control", "shutdown"]}}},
     "then": {"$ref": "#/$defs/request"}},
    {"if": {"properties": {"type": {"enum": ["start_task", "cancel_task"]}}},
     "then": {"$ref": "#/$defs/task_request"}},
    {"if": {"properties": {"type": {"const": "ready"}}},
     "then": {
       "required": ["request_id", "backend", "capabilities", "runtime", "state"],
       "properties": {
         "backend": {"required": ["pid", "version", "protocol_version"]},
         "capabilities": {"required": ["commands", "cancellation", "authoritative_state"]},
         "runtime": {"required": ["config_ready", "provider", "model", "mcp_started", "skills"]},
         "state": {"$ref": "#/$defs/state"}
       }
     }},
    {"if": {"properties": {"type": {"const": "state"}}},
     "then": {"required": ["state"], "properties": {"state": {"$ref": "#/$defs/state"}}}},
    {"if": {"properties": {"type": {"enum": ["task_started", "task_completed", "task_cancelled",
       "task_failed"]}}},
     "then": {
       "required": ["request_id", "task_id", "state"],
       "properties": {"state": {"$ref": "#/$defs/state"}}
     }}
  ]
}"##;

const STATE: &str = r#"{"target":"app.test","phase":"reporting","task_constraints":{},"task":{"active":false,"task_id":null},"last_run":null,"findings":[],"evidence":[],"constraint_violations":[]}"#;

fn value(document: &str) -> Value {
    serde_json::from_str(document).unwrap()
}

fn complete_state() -> Value {
    value(STATE)
}

fn json(document: &str) -> Json {
    parse_json(document).unwrap()
}

/// The same value as the other library has it.
fn to_value(value: &Json) -> Value {
    match value {
        Json::Null => Value::Null,
        Json::Bool(b) => Value::Bool(*b),
        Json::Number(n) => serde_json::from_str(&n.text).unwrap(),
        Json::Text(s) => Value::String(s.clone()),
        Json::Array(items) => Value::Array(items.iter().map(to_value).collect()),
        Json::Object(fields) => Value::Object(
            fields
                .iter()
                .map(|(name, member)| (name.clone(), to_value(member)))
                .collect(),
        ),
    }
}

fn wire(request: &ClientRequest) -> Value {
    to_value(&request.to_json())
}

fn state_line(state: Value) -> String {
    let mut line = value(r#"{"protocol_version":1,"type":"state"}"#);
    line["state"] = state;
    line.to_string()
}

#[test]
fn start_request_has_version_and_task_identity() {
    let request = ClientRequest::start_task(
        "r1".into(),
        "t1".into(),
        TaskInput::Description(json(r#"{"command": "run", "target": "host"}"#)),
    );
    let value = wire(&request);
    assert_eq!(value["protocol_version"], PROTOCOL_VERSION);
    assert_eq!(value["type"], "start_task");
    assert_eq!(value["request_id"], "r1");
    assert_eq!(value["task_id"], "t1");
    assert_eq!(value["payload"]["task"]["command"], "run");
    assert_eq!(value["payload"]["task"]["target"], "host");
}

#[test]
fn control_request_and_result_use_the_generic_management_envelope() {
    let request = ClientRequest::control(
        "r-control".into(),
        "example.inspect",
        json(r#"{"detail": true}"#),
    );
    let value = wire(&request);
    assert_eq!(value["type"], "control");
    assert_eq!(value["payload"]["operation"], "example.inspect");

    let event = parse_backend_line(
        r#"{"protocol_version":1,"type":"control_result","request_id":"r-control","operation":"example.inspect","result":{"ok":true}}"#,
        SCHEMA,
        "",
    )
    .unwrap();
    match event {
        BackendEvent::ControlResult {
            operation, result, ..
        } => {
            assert_eq!(operation, "example.inspect");
            assert_eq!(result.get("ok"), Some(&Json::Bool(true)));
        }
        other => panic!("unexpected event: {other:?}"),
    }
}

#[test]
fn completion_deserializes_authoritative_findings() {
    let mut line = value(
        r#"{"protocol_version":1,"type":"task_completed","request_id":"r1","task_id":"t1",
            "findings":[{"id":"f1","severity":"high","title":"SQLi","target":"app.test"}],
            "result":{}}"#,
    );
    line["state"] = complete_state();
    let event = parse_backend_line(&line.to_string(), SCHEMA, "").unwrap();
    match event {
        BackendEvent::TaskCompleted {
            task_id, findings, ..
        } => {
            assert_eq!(task_id, "t1");
            assert_eq!(findings[0].id, "f1");
        }
        other => panic!("unexpected event: {other:?}"),
    }
}

#[test]
fn rejects_every_missing_authoritative_state_field() {
    for field in [
        "target",
        "phase",
        "task_constraints",
        "task",
        "last_run",
        "findings",
        "evidence",
        "constraint_violations",
    ] {
        let mut state = complete_state();
        state.as_object_mut().unwrap().remove(field);
        assert!(
            parse_backend_line(&state_line(state), SCHEMA, "").is_err(),
            "missing state.{field} must be rejected"
        );
    }

    let mut state = complete_state();
    state["task"].as_object_mut().unwrap().remove("task_id");
    assert!(
        parse_backend_line(&state_line(state), SCHEMA, "").is_err(),
        "missing state.task.task_id must be rejected"
    );
}

#[test]
fn rejects_incompatible_backend_protocol() {
    let error = parse_backend_line(
        r#"{"protocol_version":2,"type":"shutdown_complete"}"#,
        SCHEMA,
        "",
    )
    .unwrap_err();
    assert!(error.contains("expected 1"));
}

#[test]
fn every_rust_client_request_follows_the_authoritative_schema() {
    let requests = [
        ClientRequest::initialize("r-init".into(), json("{}")),
        ClientRequest::start_task(
            "r-start".into(),
            "t1".into(),
            TaskInput::Description(json(r#"{"command": "run", "target": "target.test"}"#)),
        ),
        ClientRequest::cancel_task("r-cancel".into(), "t1".into()),
        ClientRequest::get_state("r-state".into()),
        ClientRequest::control("r-control".into(), "example.inspect", json("{}")),
        ClientRequest::shutdown("r-shutdown".into()),
    ];

    for request in requests {
        validate_protocol_value(SCHEMA, &wire(&request).to_string()).unwrap();
    }
}

#[test]
fn rust_accepts_every_server_event_in_the_shared_example_session() {
    const SERVER_EVENT_TYPES: &[&str] = &[
        "ready",
        "state",
        "task_started",
        "status",
        "reasoning",
        "log",
        "tool_call",
        "tool_result",
        "finding",
        "approval_required",
        "task_completed",
        "task_cancelled",
        "task_failed",
        "control_result",
        "error",
        "shutdown_complete",
    ];
    let session = [
        r#"{"protocol_version":1,"type":"initialize","request_id":"r1","payload":{}}"#,
        r#"{"protocol_version":1,"type":"ready","request_id":"r1","backend":{"pid":7,"version":"test","protocol_version":1},"capabilities":{"commands":["run"],"cancellation":true,"authoritative_state":true},"runtime":{"config_ready":true,"provider":"test","model":"test","mcp_started":0,"skills":[]},"state":STATE}"#,
        r#"{"protocol_version":1,"type":"state","request_id":null,"state":STATE}"#,
        r#"{"protocol_version":1,"type":"start_task","request_id":"r2","task_id":"t1","payload":{}}"#,
        r#"{"protocol_version":1,"type":"task_started","request_id":"r2","task_id":"t1","task":{"command":"run"},"state":STATE}"#,
        r#"{"protocol_version":1,"type":"status","task_id":"t1","status":"scanning"}"#,
        r#"{"protocol_version":1,"type":"reasoning","task_id":"t1","text":"hm"}"#,
        r#"{"protocol_version":1,"type":"log","task_id":"t1","message":"line"}"#,
        r#"{"protocol_version":1,"type":"tool_call","task_id":"t1","tool":"nmap","arguments":"-p 443"}"#,
        r#"{"protocol_version":1,"type":"tool_result","task_id":"t1","result":"open"}"#,
        r#"{"protocol_version":1,"type":"finding","task_id":"t1","finding":{"id":"f1","severity":"high","title":"SQLi","target":"app.test","line":12,"code_location":null,"chain_depends_on":["f0"]}}"#,
        r#"{"protocol_version":1,"type":"approval_required","task_id":"t1","question":"go on?"}"#,
        r#"{"protocol_version":1,"type":"task_completed","request_id":"r2","task_id":"t1","result":{},"findings":[],"state":STATE}"#,
        r#"{"protocol_version":1,"type":"task_cancelled","request_id":"r3","task_id":"t2","state":STATE}"#,
        r#"{"protocol_version":1,"type":"task_failed","request_id":"r4","task_id":"t3","error":{"message":"no"},"state":STATE}"#,
        r#"{"protocol_version":1,"type":"control_result","request_id":"r5","operation":"example.inspect","result":{},"state":STATE}"#,
        r#"{"protocol_version":1,"type":"error","code":"busy","message":"later"}"#,
        r#"{"protocol_version":1,"type":"shutdown_complete","request_id":"r6"}"#,
    ];

    let mut seen = 0;
    for line in session {
        let line = line.replace("STATE", STATE);
        let document = value(&line);
        validate_protocol_value(SCHEMA, &line).unwrap();
        if document["type"]
            .as_str()
            .is_some_and(|kind| SERVER_EVENT_TYPES.contains(&kind))
        {
            parse_backend_line(&line, SCHEMA, "").unwrap();
            seen += 1;
        }
    }
    assert_eq!(seen, SERVER_EVENT_TYPES.len());
}

#[test]
fn rejects_schema_invalid_required_event_fields_before_deserializing() {
    let mut ready = value(
        r#"{"protocol_version": 1, "type": "ready", "request_id": "r1",
            "backend": {"pid": 7, "version": "test", "protocol_version": 1},
            "capabilities": {"commands": ["run"], "control_operations": [],
                "cancellation": true, "authoritative_state": true},
            "runtime": {"config_ready": true, "provider": "test", "model": "test",
                "mcp_started": 0, "skills": []}}"#,
    );
    ready["state"] = complete_state();

    for path in [
        &["request_id"][..],
        &["backend", "protocol_version"][..],
        &["runtime", "mcp_started"][..],
        &["capabilities", "commands"][..],
    ] {
        let mut invalid = ready.clone();
        let (field, parents) = path.split_last().unwrap();
        let mut parent = &mut invalid;
        for segment in parents {
            parent = parent.get_mut(*segment).unwrap();
        }
        parent.as_object_mut().unwrap().remove(*field);
        let error = parse_backend_line(&invalid.to_string(), SCHEMA, "").unwrap_err();
        assert!(
            error.contains("protocol schema violation"),
            "{path:?}: {error}"
        );
    }
}

#[test]
fn json_documents_are_read_as_the_parser_reads_them() {
    let document = r#"{"b":[1,-2,2.5,"x\né",null],"a":{"deep":[[true,false]]}}"#;
    assert_eq!(to_value(&json(document)), value(document));
    assert_eq!(json("18446744073709551615").as_u64(), Some(u64::MAX));
    assert_eq!(json("-1").as_u64(), None);
    assert_eq!(json("1.0").as_u64(), None);
    assert_eq!(json(r#"{"n":7}"#).get("n").and_then(Json::as_u64), Some(7));
    assert_eq!(json(r#"{"n":7}"#).get("m"), None);
    assert_eq!(json("[]").get("n"), None);
    assert_eq!(
        parse_json("{").unwrap_err(),
        serde_json::from_str::<Value>("{").unwrap_err().to_string()
    );
}

#[test]
fn nesting_is_limited_as_the_parser_limits_it() {
    let nested = |depth: usize| format!("{}{}", "[".repeat(depth), "]".repeat(depth));
    for depth in [1, 2, 126, 127, 128, 129, 200] {
        let document = nested(depth);
        assert_eq!(
            parse_json(&document).is_ok(),
            serde_json::from_str::<Value>(&document).is_ok(),
            "{depth}"
        );
    }
    assert_eq!(to_value(&json(&nested(127))), value(&nested(127)));
}

#[test]
fn the_last_of_repeated_members_counts() {
    assert_eq!(json(r#"{"a":1,"a":2}"#), json(r#"{"a":2}"#));
}

#[test]
fn every_request_has_its_envelope() {
    assert_eq!(
        wire(&ClientRequest::initialize("r1".into(), json(r#"{"k":1}"#))),
        value(&format!(
            r#"{{"protocol_version":1,"type":"initialize","request_id":"r1","payload":{{"client":{{"name":"vulnclaw-tui-native","version":"{CLIENT_VERSION}"}},"bootstrap":{{"k":1}}}}}}"#
        ))
    );
    assert_eq!(
        wire(&ClientRequest::start_task(
            "r2".into(),
            "t2".into(),
            TaskInput::CommandLine("/run host".into())
        )),
        value(
            r#"{"protocol_version":1,"type":"start_task","request_id":"r2","task_id":"t2","payload":{"command_line":"/run host"}}"#
        )
    );
    assert_eq!(
        wire(&ClientRequest::cancel_task("r3".into(), "t3".into())),
        value(
            r#"{"protocol_version":1,"type":"cancel_task","request_id":"r3","task_id":"t3","payload":{}}"#
        )
    );
    assert_eq!(
        wire(&ClientRequest::get_state("r4".into())),
        value(r#"{"protocol_version":1,"type":"get_state","request_id":"r4","payload":{}}"#)
    );
    assert_eq!(
        wire(&ClientRequest::control("r5".into(), "op", json("[1]"))),
        value(
            r#"{"protocol_version":1,"type":"control","request_id":"r5","payload":{"operation":"op","arguments":[1]}}"#
        )
    );
    assert_eq!(
        wire(&ClientRequest::shutdown("r6".into())),
        value(r#"{"protocol_version":1,"type":"shutdown","request_id":"r6","payload":{}}"#)
    );
}

#[test]
fn each_schema_outcome_has_its_complaint() {
    assert_eq!(report_check(SchemaCheck::Accepted), Ok(()));
    assert_eq!(
        report_check(SchemaCheck::Rejected("no".into())),
        Err("protocol schema violation: no".to_owned())
    );
    assert_eq!(
        report_check(SchemaCheck::Unusable("odd".into())),
        Err("protocol schema cannot be used: odd".to_owned())
    );

    assert_eq!(validate_protocol_value(r#"{"const":1}"#, "1"), Ok(()));
    assert!(validate_protocol_value(r#"{"const":1}"#, "2")
        .unwrap_err()
        .starts_with("protocol schema violation: "));
    assert!(validate_protocol_value(r#"{"const":1}"#, "{")
        .unwrap_err()
        .starts_with("protocol schema violation: "));
    assert!(validate_protocol_value("{", "1")
        .unwrap_err()
        .starts_with("protocol schema cannot be used: "));
    assert!(validate_protocol_value(r#"{"type":"nonsense"}"#, "1")
        .unwrap_err()
        .starts_with("protocol schema cannot be used: "));
}

#[test]
fn lines_that_are_no_events_are_refused() {
    let any = "{}";
    assert_eq!(
        parse_backend_line("not json", any, "").unwrap_err(),
        serde_json::from_str::<Value>("not json")
            .unwrap_err()
            .to_string()
    );
    for line in [
        "[]",
        r#"{"type":"state"}"#,
        r#"{"protocol_version":"1","type":"state"}"#,
        r#"{"protocol_version":1.0,"type":"state"}"#,
    ] {
        assert_eq!(
            parse_backend_line(line, any, "").unwrap_err(),
            "unsupported backend protocol version; expected 1"
        );
        assert!(check_version(&json(line)).is_err());
    }
    for (line, refusal) in [
        (r#"{"protocol_version":1}"#, "missing field `type`"),
        (
            r#"{"protocol_version":1,"type":"shutdown"}"#,
            "unknown variant `shutdown`, expected one of `ready`, `state`, ...",
        ),
        (
            r#"{"protocol_version":1,"type":"shutdown_complete"}"#,
            "missing field `request_id`",
        ),
        (
            r#"{"protocol_version":1,"type":"status","task_id":"t1","status":7}"#,
            "invalid type: integer `7`, expected a string",
        ),
        (
            r#"{"protocol_version":1,"type":"shutdown_complete","request_id":null}"#,
            "invalid type: null, expected a string",
        ),
    ] {
        assert_eq!(
            parse_backend_line(line, any, refusal).unwrap_err(),
            refusal
        );
        assert_eq!(
            accept_event(&json(line), SchemaCheck::Accepted, refusal).unwrap_err(),
            refusal
        );
    }
    let fine = json(r#"{"protocol_version":1,"type":"shutdown_complete","request_id":"r"}"#);
    assert!(matches!(
        accept_event(&fine, SchemaCheck::Accepted, ""),
        Ok(BackendEvent::ShutdownComplete { request_id }) if request_id == "r"
    ));
    assert_eq!(
        accept_event(&fine, SchemaCheck::Rejected("no".into()), "").unwrap_err(),
        "protocol schema violation: no"
    );
}

#[test]
fn optional_members_may_be_missing_or_null() {
    let any = "{}";
    let parse = |line: &str| parse_backend_line(line, any, "").unwrap();
    match parse(r#"{"protocol_version":1,"type":"error","code":"c","message":"m"}"#) {
        BackendEvent::Error {
            request_id,
            task_id,
            code,
            message,
        } => {
            assert_eq!((request_id, task_id), (None, None));
            assert_eq!((code.as_str(), message.as_str()), ("c", "m"));
        }
        other => panic!("unexpected event: {other:?}"),
    }
    match parse(r#"{"protocol_version":1,"type":"error","request_id":"r","task_id":"t","code":"c","message":"m"}"#)
    {
        BackendEvent::Error {
            request_id,
            task_id,
            ..
        } => {
            assert_eq!(request_id.as_deref(), Some("r"));
            assert_eq!(task_id.as_deref(), Some("t"));
        }
        other => panic!("unexpected event: {other:?}"),
    }
    match parse(
        r#"{"protocol_version":1,"type":"finding","task_id":"t","finding":{"id":"f","severity":"low","title":"T","target":"h","line":null}}"#,
    ) {
        BackendEvent::Finding { finding, .. } => {
            assert_eq!(finding.line, None);
            assert_eq!(finding.code_location, None);
            assert!(finding.chain_depends_on.is_empty());
        }
        other => panic!("unexpected event: {other:?}"),
    }
    assert!(parse_backend_line(
        r#"{"protocol_version":1,"type":"finding","task_id":"t","finding":{"id":"f","severity":"low","title":"T","target":"h","chain_depends_on":null}}"#,
        any,
        "",
    )
    .is_err());
}

#[test]
fn records_may_be_written_as_arrays_of_their_members() {
    let finding = |items: &str| {
        parse_backend_line(
            &format!(
                r#"{{"protocol_version":1,"type":"finding","task_id":"t","finding":{items}}}"#
            ),
            "{}",
            "",
        )
    };
    match finding(r#"["f","low","T","h",7,null]"#).unwrap() {
        BackendEvent::Finding { finding, .. } => {
            assert_eq!(finding.id, "f");
            assert_eq!(finding.target, "h");
            assert_eq!(finding.line, Some(7));
            assert!(finding.chain_depends_on.is_empty());
        }
        other => panic!("unexpected event: {other:?}"),
    }
    match finding(r#"["f","low","T","h",null,"a.py",["g"]]"#).unwrap() {
        BackendEvent::Finding { finding, .. } => {
            assert_eq!(finding.code_location.as_deref(), Some("a.py"));
            assert_eq!(finding.chain_depends_on, ["g"]);
        }
        other => panic!("unexpected event: {other:?}"),
    }
    assert!(finding(r#"["f","low","T","h",7]"#).is_err());
    assert!(finding(r#"["f","low","T","h",7,null,[],1]"#).is_err());
    assert!(finding(r#"[7,"low","T","h",7,null]"#).is_err());
    assert!(finding("7").is_err());

    let state = |items: &str| {
        parse_backend_line(
            &format!(r#"{{"protocol_version":1,"type":"state","state":{items}}}"#),
            "{}",
            "",
        )
    };
    match state(r#"["h","idle",{},[],[true,"t1"],null,[1],["v"]]"#).unwrap() {
        BackendEvent::State { state, .. } => {
            assert_eq!(state.target, "h");
            assert!(state.task.active);
            assert_eq!(state.task.task_id.as_deref(), Some("t1"));
            assert!(state.last_run.is_none());
            assert_eq!(state.constraint_violations, ["v"]);
        }
        other => panic!("unexpected event: {other:?}"),
    }
    assert!(state(r#"["h","idle",{},[],[true],null,[1],["v"]]"#).is_err());
    assert!(state(r#"["h","idle",{},[],[true,"t1"],null,[1]]"#).is_err());
}

#[test]
fn bootstrap_settings_are_optional() {
    assert_eq!(parse_bootstrap(None), json("{}"));
    assert_eq!(parse_bootstrap(Some("nonsense".into())), json("{}"));
    assert_eq!(
        parse_bootstrap(Some(r#"{"target":"h"}"#.into())),
        json(r#"{"target":"h"}"#)
    );
}

#[test]
fn findings_are_summed_up_in_one_line() {
    let mut finding = Finding {
        id: "f".into(),
        severity: "straße".into(),
        title: "T".into(),
        target: "host".into(),
        ..Default::default()
    };
    assert_eq!(finding.summary(), "[STRASSE] T (host)");
    assert_eq!(finding.summary_as("low"), "[low] T (host)");
    finding.code_location = Some("src/a.py:9".into());
    assert_eq!(finding.summary_as("low"), "[low] T (src/a.py:9)");
    finding.line = Some(1234567890);
    assert_eq!(finding.summary_as("low"), "[low] T (host:1234567890)");
}
