//! The client side of the connections to the login, character and map
//! servers: connection states, stream framing, and the chat messages that
//! server packets turn into.
pub mod connection;
pub mod event;
pub mod failure;
pub mod items;
pub mod message;
pub mod stream;
