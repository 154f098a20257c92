//! Radio command core: command records and their binary layout, the
//! command-and-status codes of the radio's execution engine, the receive
//! data-entry queue layout, the command processor, and the multimode
//! radio state machine built on top of it.

pub mod commands;
pub mod multimode;
pub mod queue;
pub mod rfc;
pub mod status_codes;
