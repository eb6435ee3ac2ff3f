//! Connection lifecycle of a desktop client for a push-notification server.
//!
//! The crate holds the decisions of the client: how the streaming endpoint is
//! derived from the configured server, when a receive loop may start, what each
//! received frame causes, and how a loop ends. Network, clock and user
//! interface stay with the caller, which feeds events in and carries effects
//! out.

pub mod text;

pub mod config;
pub mod connector;
pub mod message;
pub mod dispatcher;
pub mod lifecycle;
pub mod shell;
