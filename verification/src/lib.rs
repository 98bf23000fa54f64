//! Netplay sessions: how a guest joins a room on a netplay server, how a host opens one, and when
//! and with what settings each of them starts the game.
//!
//! A session ([`join::JoinFlow`], [`host::HostFlow`]) is a state machine: it asks for an action,
//! is told what came of it, and asks for the next, until it starts the game or gives up.

pub mod auth;
pub mod error;
pub mod host;
pub mod host_laws;
pub mod join;
pub mod join_laws;
pub mod lobby;
pub mod message;
pub mod reply;
pub mod session;
pub mod settings;
pub mod string_map;
pub mod text;
pub mod url;
pub mod wait;
