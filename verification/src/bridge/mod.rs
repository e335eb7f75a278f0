//! The bridge from a workspace inbox to typed attention: its frames, the events in them, and what
//! becomes of each.

pub mod event;
pub mod frame;
pub mod laws;
pub mod signal;
