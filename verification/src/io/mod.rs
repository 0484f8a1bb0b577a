//! Command responses shared by the CLI and the RPC daemon.

pub mod output;
