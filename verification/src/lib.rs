//! Server-side core of a room-based chat: identifiers, the message store,
//! the member registry, the chat message types, the broadcast channel that
//! fans messages out to every open socket, and the decisions each socket
//! session takes on what it receives.
pub mod model;
pub mod db;
pub mod message;
pub mod channel;
pub mod session;
pub mod repository;
