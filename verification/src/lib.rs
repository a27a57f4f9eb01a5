//! Session-state and handshake core of a small authentication gateway.
//!
//! A client first asks to join under a session hash, then confirms the join;
//! from then on the hash is its bearer token. The crate keeps the registries
//! behind that handshake, the check of tokens, the registry of live
//! connections with their fan-out channels, and the rule by which a fresh
//! configuration snapshot replaces the shared one.

pub mod access;
pub mod authenticated;
pub mod broadcast;
pub mod config;
pub mod dash;
pub mod error;
pub mod fanout;
pub mod identity;
pub mod ids;
pub mod live;
pub mod pending;
pub mod sessions;
pub mod state;

pub use crate::identity::Userinfo;
pub use crate::state::AppState;
