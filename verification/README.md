# VulnClaw terminal workbench

The state, the wire protocol and the presentation rules of a terminal workbench that drives
a Python backend over JSON lines.

* `src/` is the verified library. `model.rs` describes the workbench as a mathematical object;
  the operations in `app.rs`, `composer.rs`, `palette.rs`, `panes.rs`, `tasks.rs` and `feed.rs`
  are proved to follow it, and `laws.rs` states what holds of them together. `json.rs`,
  `schema.rs`, `decode.rs`, `event.rs` and `protocol.rs` are the wire protocol; `transport.rs`
  holds the decisions about the backend process; `layout.rs`, `clipboard.rs`, `order.rs`,
  `command.rs` and `text.rs` are what these rest on.
* `app/` runs the backend process, writes to the clipboard and renders offscreen. An operation
  of the library that wants to talk to the backend hands out a request; `app/` sends it and
  tells the library how that went.
* `tests/` runs the library with the real outside crates.

The protocol schema is a JSON text that the caller hands to the library together with each line.
So are the words in which the deserializer refuses a line that is no event: `app/shape.rs` has
the derive that gives them, and the library decides when they are used.
