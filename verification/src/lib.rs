//! Library core of the Orion command-line client and MCP server: request
//! planning for the Orion admin and data APIs, configuration handling,
//! response interpretation and the text formatting used by the commands.
use vstd::prelude::*;

pub mod strings;
pub mod text;
pub mod json;
pub mod output;
pub mod config;
pub mod client;
pub mod api;
pub mod stats;
pub mod diff;
pub mod view;
pub mod details;
pub mod watch;
pub mod send;
pub mod bench;
pub mod tools;
pub mod commands;
pub mod table;
pub mod outcomes;
pub mod server;
pub mod trace;

verus! {
} // verus!
