//! A command palette for a terminal multiplexer: the commands it offers, how
//! they are searched and ranked, how keys move through its views, and what it
//! draws.

pub mod text;
pub mod keys;
pub mod ranking;
pub mod commands;
pub mod state;
pub mod input;
pub mod plugin;
pub mod render;
pub mod laws;
