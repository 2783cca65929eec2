//! Orchestration core of a multi-agent code-generation pipeline.
//!
//! The crate holds the decisions of the pipeline as verified state machines:
//! the retry policy around a model request, the backend developer's
//! generate / build / probe workflow, the solution architect's planning
//! workflow and the coordinator that runs the agents in order. Every piece
//! of outside work (model calls, terminal, files, processes, HTTP) is an
//! action that a driver performs and answers with an event.

pub mod apis;
pub mod helpers;
pub mod models;
