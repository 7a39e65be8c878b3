//! The music group's commands.

pub mod leave_voice;
pub mod pop_queue;
pub mod search_for_track;
