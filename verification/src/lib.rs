//! Core logic of a desktop front-end for a network node: building the argument
//! vectors handed to the external `safe` tool, interpreting its exit status and
//! output, parsing its JSON network listing, driving the Idle/Running lifecycle
//! of the node process, assembling log lines from a tailed file, and keeping
//! the latest status message for display.

pub mod forms;
pub mod json;
pub mod launcher;
pub mod lifecycle;
pub mod networks;
pub mod status;
pub mod tailer;
pub mod text;

pub use status::StatusMessage;
