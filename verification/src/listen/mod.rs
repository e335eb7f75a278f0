//! The durable attention listener: its inbox, its state, and the decisions of its cycles.

pub mod app_server;
pub mod command;
pub mod cycle;
pub mod documents;
pub mod event;
pub mod inbox;
pub mod laws;
pub mod message_laws;
pub mod path_laws;
pub mod report;
pub mod report_laws;
pub mod state;
pub mod state_file;
pub mod state_text;
