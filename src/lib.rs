//! Reports which process holds a network port, and plans how to end it.
//!
//! The library decides what to run and what to print; the caller runs the
//! tools and prints the messages.
pub mod cli;
pub mod message;
pub mod port;
pub mod text;
pub mod tool;
