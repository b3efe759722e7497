//! A three-stage bounded pipeline (source, transformer, sink) whose
//! scheduling decisions, ordering guarantees and shutdown protocol are
//! stated as contracts and proved.
//!
//! The pipeline itself:
//! - `channel`: the bounded, closable queue between two stages;
//! - `config`, `state`: settings, lifecycle states, errors and replies;
//! - `model`, `trace`, `laws`: the pipeline as a state machine, its
//!   histories, and what holds of every history;
//! - `pipeline`: the orchestrator that the stage drivers consult;
//! - `source`: finite and counting sources of chunks;
//! - `runner`, `progress`, `run_proof`: drivers that work through plain
//!   calls, a single-threaded scheduler, and the proof that it gets on.
//!
//! Beside it, small utilities in the same style, each with its contract:
//! `worker`, `timestamp`, `search`, `threshold`, `window`, `query`, `cli`,
//! `person`, `kinds`, `plane` and `typed_plane`.

pub mod channel;
pub mod config;
pub mod state;
pub mod model;
pub mod trace;
pub mod laws;
pub mod pipeline;
pub mod source;
pub mod runner;
pub mod progress;
pub mod run_proof;
pub mod worker;
pub mod timestamp;
pub mod search;
pub mod threshold;
pub mod window;
pub mod query;
pub mod cli;
pub mod person;
pub mod kinds;
pub mod plane;
pub mod typed_plane;
