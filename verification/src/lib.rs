//! The decisions of a bidirectional TCP echo utility, free of any I/O.
//!
//! A server accepts connections and writes back every chunk that it reads; a
//! client connects, may greet, and writes back every chunk after a wait. Both
//! are held here as state machines: a caller performs the binds, connects,
//! reads, waits and writes that a machine asks for and reports back what
//! happened. What the machines do in every case is stated in their contracts
//! and proved, and `trace` and `fleet` prove what follows for whole
//! connections and for many connections at once.

pub mod client;
pub mod config;
pub mod diagnostic;
pub mod fleet;
pub mod handler;
pub mod listener;
pub mod role;
pub mod session;
pub mod trace;
