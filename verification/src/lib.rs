//! Per-tenant script-runtime scheduling library.
//!
//! The crate models the core of a bot scripting platform: a durable store of
//! scheduled tasks, the per-tenant task-manager cursor that decides when tasks
//! fire, the registry of compiled scripts, and the state machine of a sandboxed
//! script VM with its shutdown handle.  Engine, network and database edges are
//! kept outside; the decision logic here is verified.

pub mod config;
pub mod errors;
pub mod ops;
pub mod runtime;
pub mod script_store;
pub mod task_manager;
pub mod textfmt;
pub mod timers;
pub mod vm;
