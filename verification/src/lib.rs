//! Ashfall: verified core of a co-op multiplayer layer for Fallout 3 / New Vegas.
pub mod bridge;
pub mod bytes;
pub mod channel;
pub mod constants;
pub mod crc32;
pub mod event;
pub mod form_id;
pub mod id;
pub mod string_cache;
pub mod text;
pub mod transport;
pub mod types;
pub mod client;
pub mod master;
pub mod protocol;
pub mod script;
