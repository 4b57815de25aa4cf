//! Remote input control: translation of client commands into synthetic input
//! actions, per-connection frame handling, and the static content channel.
pub mod decimal;
pub mod text;
pub mod command;
pub mod backend;
pub mod response;
pub mod session;
pub mod http;
pub mod laws;
