//! A transparent relay core for frame-oriented connections.
//!
//! The library holds the verified heart of a bidirectional relay that sits
//! between a client connection and one fixed upstream connection: a canonical
//! frame model with its (deliberately lossy) close normalization, the decision
//! logic of the two unidirectional forwarding loops, and the per-session state
//! machine that pairs the two connections. The transport itself — accepting,
//! connecting, reading and writing sockets — is left to the host program,
//! which hands frames in and out as plain values.

pub mod frame;
pub mod pump;
pub mod session;
