//! Verified decision logic of a coding-agent runtime.

pub mod atom;
pub mod attention;
pub mod bridge;
pub mod context;
pub mod control_socket;
pub mod image;
pub mod json;
pub mod laws;
pub mod listen;
pub mod poke;
pub mod reading;
pub mod responses;
pub mod snapshot;
pub mod text;
pub mod time;
pub mod usage;
pub mod writing;
