//! Command-execution and scheduling engine for a sticky-notes application.
//!
//! The heart of the crate is [`engine::CommandEngine`], the state machine that
//! runs a configured command once or on a cron schedule, folds the process
//! output into a renderable result, and supports cancellation mid-flight.
//! Blocking work (spawning, killing, sleeping, persisting) is left to the
//! caller, which drives the engine through small, fully specified steps.

pub mod config;
pub mod hotkey;
pub mod model;
pub mod paths;
pub mod envblock;
pub mod engine;
pub mod runner;
pub mod schedule;
pub mod text;
pub mod timeutil;
pub mod urlcheck;
