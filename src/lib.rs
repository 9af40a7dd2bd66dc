//! A line-oriented text server's protocol core: what each received line
//! means, how one connection's session reacts to what its transport reports,
//! and when the accept loop stops taking connections.
//!
//! The sockets, the line framing and the shutdown channel live with the
//! program that drives these state machines; everything decided here is
//! verified.
pub mod handler;
pub mod listener;
pub mod session;
