//! Core of a small multiplayer world-state synchronization library.
//!
//! A server holds the authoritative world state (rooms containing static
//! objects, players and NPCs) and relays updates between clients; each
//! client keeps a local shadow copy that is replaced wholesale or patched
//! field by field as messages arrive.  This crate holds the verified core:
//! the typed world-state store and its mutation rules, the message-envelope
//! protocol, the per-connection dispatch decisions, the client registry,
//! and the configuration rules.  Transport and rendering are unverified
//! collaborators that drive these functions from outside.

pub mod addr;
pub mod framing;
pub mod handlers;
pub mod json;
pub mod laws;
pub mod netloop;
pub mod protocol;
pub mod registry;
pub mod settings;
pub mod wire;
pub mod state;
pub mod text;
