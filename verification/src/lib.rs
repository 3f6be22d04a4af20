//! Single-use, in-memory file relay: a sender streams a file to a short-lived
//! ticket on a central server and a single receiver streams it back out.
//! This crate holds the rendezvous and streaming engine: ticket lifecycle,
//! the state machines gating upload/download exclusivity, per-tier admission
//! policy, token minting, SSH-key challenge verification, and the protocol
//! decisions of the HTTP front end.

pub mod compression;
pub mod text;
pub mod token;
pub mod serveropts;
pub mod metadata;
pub mod keymanager;
pub mod chunks;
pub mod appstate;
pub mod front;
pub mod client;
pub mod server;
pub mod laws;
