//! Verified core of a line-based chat relay.
//!
//! Clients connect, give a display name, and from then on every line a client
//! sends is handed to a shared broadcast bus and written to every other
//! client, tagged with the sender's name and the time. This crate holds the
//! decisions of that relay: what a session does with each line it reads and
//! with each event the bus hands it, what the texts look like, and who gets
//! which identity. Sockets, tasks and the bus itself belong to the program
//! that embeds the crate.
//!
//! - `line`: lines as they come off the wire.
//! - `message`: the texts, and the events that carry them over the bus.
//! - `clock`: the timestamps in the texts.
//! - `identity`: what tells one connection from another.
//! - `session`: one client's handshake and relay, step by step.
//! - `manager`: the accept loop's decisions.
//! - `bus`: the contract of the broadcast bus, as a model.
//! - `relay`: all sessions and the bus together, as a model, and what holds
//!   of them.

pub mod bus;
pub mod clock;
pub mod identity;
pub mod line;
pub mod manager;
pub mod message;
pub mod relay;
pub mod session;
