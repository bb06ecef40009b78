//! The bridge from the Discord gateway to the commands.
pub mod discord;
