//! A single-host deployment orchestrator: it lays out a project's files on a
//! remote host, compiles an ordered stage list into a failure-aware pipeline
//! script, and builds the remote commands that start, stop, restart, watch and
//! remove that pipeline.
pub mod commands;
pub mod deploy;
pub mod descriptor;
pub mod dirty;
pub mod error;
pub mod launch;
pub mod layout;
pub mod resolve;
pub mod stage_map;
pub mod script;
pub mod execution;
