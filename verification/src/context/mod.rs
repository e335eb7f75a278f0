//! The tools with which a model sees and trims its context, and what the context is told of its
//! own rules.

pub mod compaction;
pub mod laws;
pub mod operating_contract;
pub mod status;
pub mod tool;
