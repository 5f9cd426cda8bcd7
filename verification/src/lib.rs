//! A blocking echo server that serves one connection at a time, written as
//! state machines that perform no I/O themselves.
//!
//! The caller owns the sockets. It asks a machine what to do next, does it, and
//! hands the result back; every decision in between is made, and proved, here.
//!
//! - `startup` reads the command line.
//! - `server` is the listen loop: bind, accept, serve, and again.
//! - `connection` is one client: read, write back, until the peer is gone.
//! - `session` is the model that `connection` is proved against, with the laws
//!   of the echo.
//! - `word` turns four bytes in the machine's order into a number and the
//!   number into hexadecimal text.

pub mod connection;
pub mod server;
pub mod session;
pub mod startup;
pub mod word;
