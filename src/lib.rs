//! Per-tool state machine for drawing-tablet tools: property updates are
//! accumulated between frame markers and reduced to at most one pointer event
//! per frame, while proximity changes are reported at once.

pub mod events;
pub mod lemmas;
pub mod tablet;
pub mod tool;
