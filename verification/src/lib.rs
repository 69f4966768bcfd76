//! TLS-terminating connection handling for an HTTPS BitTorrent tracker.
//!
//! One worker accepts sockets; each accepted socket gets a [`session::Connection`]
//! that drives a TLS session through handshake and record decryption, collects
//! the decrypted bytes of one request, and hands the finished request to the
//! request parser.  Socket reads and writes are left to the caller: the
//! connection is fed what was read, hands out what is to be written, and says
//! what to do next.

pub mod acceptor;
pub mod assembler;
pub mod config;
pub mod engine;
pub mod framing;
pub mod laws;
pub mod parser;
pub mod session;
pub mod state;
