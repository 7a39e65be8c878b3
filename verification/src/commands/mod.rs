//! The bot's chat commands.

pub mod bind_playlist;
pub mod join;
pub mod leave;
pub mod list;
pub mod play;
pub mod pop;
pub mod queue;
pub mod search_for_track;
