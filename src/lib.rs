//! Session orchestration for a lobby autohost: authenticate against the lobby
//! server, open its realtime channel, plan the launch of the game engine, and
//! tear the session down again.
//!
//! Network and process work is not done here. The state machines in this crate
//! hand out each request as a value and are fed the outcome back, so every
//! decision they take is stated and proved over plain values.

pub mod config;
pub mod transport;
pub mod wire;
pub mod session;
pub mod launch;
pub mod lobby;
pub mod laws;
