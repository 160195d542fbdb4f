//! The messages between the terminal and its Python backend.
use vstd::prelude::*;

use crate::json;
use crate::json::{Json, JsonView};
use crate::text;

verus! {

/// The protocol version that both sides speak.
pub const PROTOCOL_VERSION: u8 = 1;

/// The version of this client.
pub const CLIENT_VERSION: &'static str = "0.1.0";

// ---------------------------------------------------------------------------
// Requests
// ---------------------------------------------------------------------------

/// What a task is started with.
#[derive(Clone, Debug)]
pub enum TaskInput {
    /// The command line that the user confirmed.
    CommandLine(String),
    /// A task description.
    Description(Json),
}

/// A request to the backend.
#[derive(Clone, Debug)]
pub struct ClientRequest {
    pub protocol_version: u8,
    pub kind: &'static str,
    pub request_id: String,
    pub task_id: Option<String>,
    pub payload: Json,
}

/// The mathematical content of a [`ClientRequest`].
#[verifier::ext_equal]
pub struct RequestView {
    pub protocol_version: u8,
    pub kind: Seq<char>,
    pub request_id: Seq<char>,
    pub task_id: Option<Seq<char>>,
    pub payload: JsonView,
}

impl View for ClientRequest {
    type V = RequestView;

    open spec fn view(&self) -> RequestView {
        RequestView {
            protocol_version: self.protocol_version,
            kind: self.kind@,
            request_id: self.request_id@,
            task_id: text::opt_text(self.task_id),
            payload: self.payload@,
        }
    }
}

/// The payload that starts a task.
pub open spec fn task_payload(task: TaskInput) -> JsonView {
    match task {
        TaskInput::CommandLine(line) => JsonView::Object(
            seq![("command_line"@, JsonView::Text(line@))],
        ),
        TaskInput::Description(value) => JsonView::Object(seq![("task"@, value@)]),
    }
}

impl RequestView {
    /// A request of the current protocol version.
    pub open spec fn new(
        kind: Seq<char>,
        request_id: Seq<char>,
        task_id: Option<Seq<char>>,
        payload: JsonView,
    ) -> RequestView {
        RequestView { protocol_version: PROTOCOL_VERSION, kind, request_id, task_id, payload }
    }

    /// The request as it goes over the wire.
    pub open spec fn envelope(self) -> JsonView {
        let head = seq![
            ("protocol_version"@, json::number_view(self.protocol_version as u64)),
            ("type"@, JsonView::Text(self.kind)),
            ("request_id"@, JsonView::Text(self.request_id)),
        ];
        let task = match self.task_id {
            Some(id) => seq![("task_id"@, JsonView::Text(id))],
            None => seq![],
        };
        JsonView::Object(head + task + seq![("payload"@, self.payload)])
    }
}

impl ClientRequest {
    /// Opens the session.
    pub fn initialize(request_id: String, bootstrap: Json) -> (request: Self)
        ensures
            request@ == RequestView::new(
                "initialize"@,
                request_id@,
                None,
                JsonView::Object(
                    seq![
                        (
                            "client"@,
                            JsonView::Object(
                                seq![
                                    ("name"@, JsonView::Text("vulnclaw-tui-native"@)),
                                    ("version"@, JsonView::Text(CLIENT_VERSION@)),
                                ],
                            ),
                        ),
                        ("bootstrap"@, bootstrap@),
                    ],
                ),
            ),
    {
        let client = Json::object2(
            "name",
            Json::text("vulnclaw-tui-native"),
            "version",
            Json::text(CLIENT_VERSION),
        );
        Self {
            protocol_version: PROTOCOL_VERSION,
            kind: "initialize",
            request_id,
            task_id: None,
            payload: Json::object2("client", client, "bootstrap", bootstrap),
        }
    }

    /// Starts a task.
    pub fn start_task(request_id: String, task_id: String, task: TaskInput) -> (request: Self)
        ensures
            request@ == RequestView::new(
                "start_task"@,
                request_id@,
                Some(task_id@),
                task_payload(task),
            ),
    {
        let payload = match task {
            TaskInput::CommandLine(line) => Json::object1("command_line", Json::Text(line)),
            TaskInput::Description(value) => Json::object1("task", value),
        };
        Self {
            protocol_version: PROTOCOL_VERSION,
            kind: "start_task",
            request_id,
            task_id: Some(task_id),
            payload,
        }
    }

    /// Asks for the cancellation of a task.
    pub fn cancel_task(request_id: String, task_id: String) -> (request: Self)
        ensures
            request@ == RequestView::new(
                "cancel_task"@,
                request_id@,
                Some(task_id@),
                JsonView::Object(seq![]),
            ),
    {
        Self {
            protocol_version: PROTOCOL_VERSION,
            kind: "cancel_task",
            request_id,
            task_id: Some(task_id),
            payload: Json::empty_object(),
        }
    }

    /// Asks for the current state.
    pub fn get_state(request_id: String) -> (request: Self)
        ensures
            request@ == RequestView::new(
                "get_state"@,
                request_id@,
                None,
                JsonView::Object(seq![]),
            ),
    {
        Self {
            protocol_version: PROTOCOL_VERSION,
            kind: "get_state",
            request_id,
            task_id: None,
            payload: Json::empty_object(),
        }
    }

    /// Asks for a management operation.
    pub fn control(request_id: String, operation: &str, arguments: Json) -> (request: Self)
        ensures
            request@ == RequestView::new(
                "control"@,
                request_id@,
                None,
                JsonView::Object(
                    seq![
                        ("operation"@, JsonView::Text(operation@)),
                        ("arguments"@, arguments@),
                    ],
                ),
            ),
    {
        Self {
            protocol_version: PROTOCOL_VERSION,
            kind: "control",
            request_id,
            task_id: None,
            payload: Json::object2("operation", Json::text(operation), "arguments", arguments),
        }
    }

    /// Ends the session.
    pub fn shutdown(request_id: String) -> (request: Self)
        ensures
            request@ == RequestView::new(
                "shutdown"@,
                request_id@,
                None,
                JsonView::Object(seq![]),
            ),
    {
        Self {
            protocol_version: PROTOCOL_VERSION,
            kind: "shutdown",
            request_id,
            task_id: None,
            payload: Json::empty_object(),
        }
    }

    /// The request as it goes over the wire.
    pub fn to_json(&self) -> (value: Json)
        ensures
            value@ == self@.envelope(),
    {
        let mut fields: Vec<(String, Json)> = Vec::new();
        fields.push(("protocol_version".to_owned(), Json::number(self.protocol_version as u64)));
        fields.push(("type".to_owned(), Json::text(self.kind)));
        fields.push(("request_id".to_owned(), Json::text(self.request_id.as_str())));
        match &self.task_id {
            Some(id) => {
                fields.push(("task_id".to_owned(), Json::text(id.as_str())));
            },
            None => {},
        }
        fields.push(("payload".to_owned(), self.payload.duplicate()));
        proof {
            json::lemma_object_view(fields);
            assert(json::member_views(fields@) =~= self@.envelope()->Object_0);
        }
        Json::Object(fields)
    }
}

/// Every request carries the protocol version, its kind, its identifier and its payload, and
/// names its task exactly if it is about one.
pub proof fn requests_carry_version_and_identity(
    kind: Seq<char>,
    request_id: Seq<char>,
    task_id: Option<Seq<char>>,
    payload: JsonView,
)
    ensures
        ({
            let envelope = RequestView::new(kind, request_id, task_id, payload).envelope();
            &&& envelope.get("protocol_version"@) == Some(
                json::number_view(PROTOCOL_VERSION as u64),
            )
            &&& envelope.text_at("type"@) == Some(kind)
            &&& envelope.text_at("request_id"@) == Some(request_id)
            &&& envelope.text_at("task_id"@) == task_id
            &&& envelope.get("payload"@) == Some(payload)
        }),
{
    reveal_strlit("protocol_version");
    reveal_strlit("type");
    reveal_strlit("request_id");
    reveal_strlit("task_id");
    reveal_strlit("payload");
    assert("task_id"@[0] != "payload"@[0]);
    let fields = RequestView::new(kind, request_id, task_id, payload).envelope()->Object_0;
    assert(fields[0].0 == "protocol_version"@ && fields[0].0.len() == 16);
    assert(fields[1].0 == "type"@ && fields[1].0.len() == 4);
    assert(fields[2].0 == "request_id"@ && fields[2].0.len() == 10);
    assert(fields[3].0.len() == 7);
    assert(fields.last() == ("payload"@, payload));
    json::lemma_lookup_first(fields, 0);
    json::lemma_lookup_first(fields, 1);
    json::lemma_lookup_first(fields, 2);
    json::lemma_lookup_first(fields, 3);
    if task_id is Some {
        json::lemma_lookup_first(fields, 4);
    } else {
        json::lemma_lookup_none(fields, "task_id"@);
    }
}

} // verus!
