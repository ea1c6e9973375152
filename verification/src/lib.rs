//! An awaitable bridge over a callback-driven device-automation engine.
//!
//! The engine performs long-running operations asynchronously and reports
//! every completion through a single global callback carrying a message kind
//! and a JSON payload. This crate provides the verified core of a bridge over
//! that interface: classification of raw notifications into typed events,
//! correlation of asynchronous replies with the requests that produced them,
//! the connection lifecycle state machine, and the typed task-submission
//! builders that keep a task immutable once it has been handed to the engine.

pub mod connection;
pub mod correlation;
pub mod decode;
pub mod events;
pub mod jsontext;
pub mod msg;
pub mod options;
pub mod resources;
pub mod strutil;
pub mod tasks;
pub mod version;
