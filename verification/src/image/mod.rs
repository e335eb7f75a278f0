//! Generated images as artifacts: where they are saved, and the provenance that travels with them.

pub mod artifact;
pub mod laws;
pub mod metadata;
