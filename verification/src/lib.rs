//! Verified core of the Sandstorm monitoring client: argument parsing, the bookkeeping of
//! requests and responses, the logic of the terminal user interface (geometry, focus, lists,
//! text entry, layout), usage history tracking and text layout.

pub mod args;
pub mod handle_requests;
pub mod sandstorm;
pub mod text;
pub mod tui;
