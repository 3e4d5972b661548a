//! Core of a local chat-state fan-out service.
//!
//! A single upstream sync stream is turned into a canonical, diff-checked
//! snapshot and broadcast to any number of independent local subscribers,
//! while those subscribers' inbound command lines are decoded and routed to a
//! messaging backend. Everything here is the decision and data logic of that
//! core; the sockets, the network and the backend itself live outside.
#![verifier::loop_isolation(false)]

pub mod bytes;
pub mod channel;
pub mod codec;
pub mod connection;
pub mod commands;
pub mod dispatch;
pub mod driver;
pub mod lines;
pub mod media;
pub mod snapshot;
