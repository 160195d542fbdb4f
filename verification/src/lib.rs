//! State, wire protocol and presentation rules of the VulnClaw terminal workbench.
pub mod app;
pub mod clipboard;
pub mod command;
pub mod composer;
pub mod composer_laws;
pub mod decode;
pub mod event;
pub mod event_laws;
pub mod feed;
pub mod json;
pub mod laws;
pub mod layout;
pub mod model;
pub mod modes;
pub mod order;
pub mod palette;
pub mod pane_laws;
pub mod panes;
pub mod protocol;
pub mod schema;
pub mod task_laws;
pub mod tasks;
pub mod text;
pub mod text_laws;
pub mod transport;
pub mod view_laws;
pub mod wire_laws;
