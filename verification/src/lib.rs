//! The decision logic of dabBot, a Discord music bot: command parsing and
//! routing, the replies of each command, queue pages, radio and Discord.FM
//! catalogues, and the small wire formats the bot exchanges with its sharder.
use vstd::prelude::*;

pub mod bridges;
pub mod command;
pub mod commands;
pub mod config;
pub mod discord_fm;
pub mod error;
pub mod gateway;
pub mod json;
pub mod lavalink;
pub mod lavalink_msgs;
pub mod message;
pub mod model;
pub mod radios;
pub mod sort;
pub mod streams;
pub mod table;
pub mod text;
pub mod utils;
pub mod worker;
