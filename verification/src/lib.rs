//! Core logic of a remote-desktop system: the signaling server's session
//! registry and message handling, and the host agent's protocol decisions.

pub mod session_registry;
pub mod wire;
pub mod protocol;
pub mod json_protocol;
pub mod clock;
pub mod auth;
pub mod relay;
pub mod server;
pub mod input;
pub mod capture;
pub mod host;
pub mod config;
pub mod file_transfer;
