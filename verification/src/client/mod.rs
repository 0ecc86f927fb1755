//! The native client: configuration, chat, the bridge command encoding,
//! the entity-id space shared with the server and small UI state.
pub mod chat;
pub mod config;
pub mod dispatch;
pub mod game;
pub mod ipc;
pub mod network;
pub mod registry;
pub mod server_browser;
pub mod sync;
pub mod ui;
pub mod widgets;
pub mod world;
