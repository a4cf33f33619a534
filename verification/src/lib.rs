//! A local plugin-hosting runtime: plugins (packaged interpreted-language
//! programs) are installed from zip packages, validated, persisted in an
//! in-memory store, and executed as child processes whose lifecycle is
//! tracked through a small state machine.
//!
//! The crate holds the verified core: the installation pipeline
//! (name uniqueness, entry-point safety, parameter validation, archive
//! extraction planning), the execution engine (record creation, the
//! Pending/Running/terminal state machine, output capture rules) and the
//! process registry. Fetching bytes, filesystem writes and process
//! spawning are performed by the embedding program, which feeds their
//! outcomes back into the verified functions.

pub mod archive;
pub mod config;
pub mod dto;
pub mod errors;
pub mod execution;
pub mod plugin;
pub mod execution_service;
pub mod executors;
pub mod ids;
pub mod params;
pub mod plugin_service;
pub mod process_manager;
pub mod textspec;
pub mod timefmt;
