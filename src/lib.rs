//! A client for a process supervisor's console: protocol negotiation, message
//! framing, and the state machine of an interactive console session.
pub mod text;
pub mod protocol;
pub mod negotiate;
pub mod session;
pub mod reader;
pub mod options;
pub mod help;
pub mod status;
pub mod api;
pub mod console;
pub mod commands;
