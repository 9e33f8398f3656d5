//! Verified core of the MSC 2 agent.

pub mod text;
pub mod help;
pub mod tui;
pub mod error;
pub mod update;
pub mod api;
pub mod health;
pub mod lifecycle;
pub mod clock;
pub mod backups;
pub mod host_reset;
pub mod staging;
pub mod components;
pub mod sessions;
pub mod capabilities;
pub mod geyser;
pub mod commands;
pub mod modpacks;
pub mod display;
pub mod bedrock;
pub mod bedrock_runtime;
pub mod files;
pub mod config_store;
