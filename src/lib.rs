//! A terminal line editor's core: the document buffer with its viewport and
//! cursor, the per-line typing state machine, and the key-to-command mapping.
pub mod buffer;
pub mod command;
pub mod typing;
pub mod prompt;
