//! The commands of the bot's music group.

pub mod commands;
