//! Requests to the Responses backend: where they go, what they continue, and how their transport
//! fares.

pub mod circuit;
pub mod endpoint;
pub mod laws;
pub mod lineage;
pub mod transport;
