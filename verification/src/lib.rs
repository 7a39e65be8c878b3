//! Decision logic of a Discord music bot: argument handling, message texts,
//! search menus and the step-by-step plans of each chat command.

pub mod actions;
pub mod arguments;
pub mod commands;
pub mod duration;
pub mod json;
pub mod music;
pub mod text;
pub mod youtube;
