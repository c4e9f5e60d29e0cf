//! Client side of the theater management protocol: the wire framing, the
//! message types, and the session that carries one logical channel to a
//! remote actor over a single connection.
//!
//! Nothing in this crate touches a socket. The caller moves bytes; the
//! library says what the bytes mean and what to do next.

pub mod bootstrap;
pub mod codec;
pub mod display;
pub mod json;
pub mod protocol;
pub mod repl;
pub mod session;
pub mod setup;
pub mod text;
