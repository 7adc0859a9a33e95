//! Collaborative terminal sharing: the protocol, session and relay logic
//! shared by the terminal client and the tunnel server.

pub mod client;
pub mod config;
pub mod decimal;
pub mod history;
pub mod protocol;
pub mod relay;
pub mod text;
pub mod session;
