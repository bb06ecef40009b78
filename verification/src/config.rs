//! The bot's configuration, as read from its TOML file.
use vstd::prelude::*;

verus! {

/// An audio node.
pub struct Node {
    pub http_host: String,
    pub websocket_host: String,
    pub password: String,
}

pub struct Config {
    /// The command prefixes, in the order they are tried.
    pub bot_prefixes: Vec<String>,
    pub discord_token: String,
    pub discord_user_id: u64,
    pub lavalink: LavalinkConfig,
    pub postgres_addr: String,
    pub queue: QueueConfig,
    pub owners: Vec<u64>,
    pub owo_token: String,
    pub redis: RedisConfig,
}

pub struct LavalinkConfig {
    pub address: String,
}

pub struct QueueConfig {
    pub address: String,
}

pub struct RedisConfig {
    pub database: i64,
    pub host: String,
    pub password: Option<String>,
    pub port: u16,
}

} // verus!
