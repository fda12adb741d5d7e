//! Step-execution engine for driving a remote browser session.
//!
//! The library holds the decisions of the engine: what each step asks of the
//! browser, when a step is retried, which steps of a group run, how a failure
//! is classified, and when the whole session is restarted. The effects
//! themselves (remote commands, sleeping, processes, files) are carried out by
//! the caller, which hands the results back.
use vstd::prelude::*;

pub mod config;
pub mod text;
pub mod outcome;
pub mod action;
pub mod retry;
pub mod group;
pub mod session;
pub mod supervisor;
