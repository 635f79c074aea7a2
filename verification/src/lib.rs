//! Verified core of a Discord help-desk bot: the caches that track help
//! requests, the slash-command model, and the decisions taken for each
//! command and component interaction.

pub mod text;
pub mod lru_cache;
pub mod cache;
pub mod config;
pub mod command;
pub mod commands;
pub mod interactions;
pub mod token;
pub mod handler;
