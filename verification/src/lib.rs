//! A greeting service's decisions, separated from its sockets: what the reply
//! to a named caller says, and when the answer of the address service is
//! allowed into it.
//!
//! The program around this library owns the listener and the outbound
//! request. It hands over what it saw as plain values and sends back what
//! [`handler::handle_request`] returns.

pub mod fetch;
pub mod greeting;
pub mod handler;
pub mod server;
