//! Starboard bot core: the decisions of a Discord starboard, its settings
//! commands, and the localisation of its slash commands.

pub mod commands;
pub mod config;
pub mod emoji;
pub mod fmt;
pub mod handler;
pub mod post;
pub mod settings;
pub mod translation;
