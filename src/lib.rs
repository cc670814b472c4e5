//! Process bridge between a host application and an external worker process
//! that speaks a newline-delimited JSON protocol over its standard streams.
//!
//! - `protocol`: framing of commands and decoding of the worker's lines.
//! - `launch`: where the worker script is looked for and how it is run.
//! - `bridge`: the supervisor's state, starting, stopping and sending.
//! - `commands`: the host's commands on top of the bridge.
//! - `config`, `error`: the configuration and the application's errors.
//! - `json`: the JSON values carried through, and serde_json's calls.
//! - `pending`: sent commands awaiting their responses.
pub mod bridge;
pub mod commands;
pub mod config;
pub mod error;
pub mod json;
pub mod launch;
pub mod pending;
pub mod protocol;
