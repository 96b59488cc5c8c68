//! A small task manager: the rules of an interactive task list, kept apart
//! from the terminal and the database that drive it.

pub mod command;
pub mod config;
pub mod handlers;
pub mod laws;
pub mod number;
pub mod session;
pub mod shell;
pub mod store;
pub mod task;
pub mod text;
pub mod timestamp;
