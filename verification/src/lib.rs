//! A modal, keystroke-driven credential manager: the editing state machine
//! and the encrypted store behind it.

pub mod entry;
pub mod laws;
pub mod session;
pub mod store;
pub mod text;
