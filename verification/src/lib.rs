//! Core decision logic of the rinit service manager: targets, modes,
//! requests and replies exchanged over IPC, the checks and bookkeeping of
//! the control commands, and the daemon's own decisions (signals, reaping,
//! shutdown and request handling).
pub mod bundle;
pub mod cli;
pub mod commands;
pub mod config;
pub mod handler;
pub mod host;
pub mod mode;
pub mod pid1;
pub mod request;
pub mod target;
pub mod sequence;
