//! A verified core for a terminal-instance control server.
//!
//! The library tracks a registry of managed terminal processes, reconciles
//! it against the live process table on every listing, and answers a
//! line-oriented tool-invocation protocol with a handshake-gated session.
//! All operating-system work (launching processes, reading the process
//! table, driving windows) is done by the caller, which feeds the results
//! back in as plain values; every decision in between is verified.

pub mod alacritty_manager;
pub mod base64;
pub mod json;
pub mod mcp_server;
pub mod neovim_context;
pub mod text;
pub mod types;
