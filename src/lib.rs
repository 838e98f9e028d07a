//! A local relay that re-serves one live FLV stream to media players, with
//! the data handling of the platform clients around it.
//!
//! The I/O (sockets, outbound HTTP, the chat socket) is driven from outside;
//! this crate holds the decisions and the data:
//! - `flv`, `http`, `cell`, `session`, `laws`: which requests are served,
//!   what a client is sent and in which order, the repair of a stream that
//!   lacks the FLV signature, and what holds over any run of a session;
//! - `server`: the relay's client, address and current upstream URL;
//! - `decimal`: integers written in decimal;
//! - `catalog`, `rooms`: category trees and room pages for the frontend;
//! - `danmaku`: the chat gateway's packets;
//! - `resolver`: the decisions inside the platform resolvers.
pub mod flv;
pub mod http;
pub mod cell;
pub mod session;
pub mod laws;
pub mod decimal;
pub mod server;
pub mod catalog;
pub mod rooms;
pub mod danmaku;
pub mod resolver;
