//! Typed pokes: receiver-owned admission of closed signals from attributed sources.

pub mod admission;
pub mod laws;
pub mod policy;
pub mod request;
