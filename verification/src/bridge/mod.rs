//! The in-game bridge: engine hooks, opcode interception, the pipe
//! protocol server logic and the command dispatcher.
pub mod commands;
pub mod console;
pub mod events;
pub mod hooks;
pub mod network;
pub mod plugin;
