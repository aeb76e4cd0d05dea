//! What the events of agent connections do to conversation rows.
//!
//! A dispatcher drops the events that no row depends on and hands the others to one worker per
//! connection; the worker turns each into writes to the conversation row and announcements.

pub mod dispatcher;
pub mod events;
pub mod handler;
pub mod laws;
pub mod runs;
pub mod steps;
pub mod worker;
