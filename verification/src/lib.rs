//! A two-party, line-oriented chat session, as two state machines and the
//! text they exchange.
//!
//! The session pipe ([`pipe`]) relays lines between a connection and two
//! queues; the interactive loop ([`ui`]) keeps the message history and the
//! input buffer. Neither touches a socket or a terminal: a driver performs
//! the work that a machine asks for and reports what came of it.

pub mod command;
pub mod endpoint;
pub mod pacing;
pub mod pipe;
pub mod session;
pub mod string_specs;
pub mod text;
pub mod ui;
