//! Decision logic of a small local automation daemon: where the application
//! lives, how the environment is brought to a ready state, how a download task
//! is launched and judged, and how the OS service lifecycle advances.
//!
//! Every effect (spawning a process, reading the file system, talking to the
//! OS service manager) is described here as an action and performed by the
//! caller, which hands the observed outcome back.

pub mod decimal;
pub mod text;
pub mod paths;
pub mod command;
pub mod task;
pub mod http;
pub mod bootstrap;
pub mod service;
pub mod cli;
pub mod logsink;
