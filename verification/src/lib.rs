//! The rules of a small signaling server, apart from its sockets: who gets which number, who hosts
//! which lobby, and what is passed on to whom.

pub mod connection;
pub mod context;
pub mod exchanges;
pub mod laws;
pub mod lobby_names;
pub mod lobby_regex;
pub mod message;
pub mod port;
pub mod rooms;
pub mod server;
pub mod words;
