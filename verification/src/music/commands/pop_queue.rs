//! `?pop_queue [n]`: skip the current track.

use crate::actions::{effects, Action, Effect};
use crate::arguments::{first_argument, nth_argument};
use crate::text::{decimal, decimal_text, parse_bounded, parse_u32};
use vstd::prelude::*;
use vstd::string::*;

verus! {

/// The number a `?pop_queue` text names: its first argument read as a
/// `u32`, or `None`.
pub open spec fn named_count(message: Seq<char>) -> Option<nat> {
    match nth_argument(message, ' ', 0) {
        Some(a) => parse_bounded(a, u32::MAX as nat),
        None => None,
    }
}

/// What `?pop_queue` does, given the length of the guild's queue (`None`
/// when the bot has no voice call in the guild) and the command's text. The
/// current track is skipped only when the text names no number; the message
/// gives the named number, or 1.
pub fn pop_queue(queue_len: Option<usize>, message: &str) -> (res: Vec<Action>)
    ensures
        effects(res@) == match queue_len {
            None => seq![Effect::Print("Failed to lock Songbird manager"@)],
            Some(n) => if n == 0 {
                seq![
                    Effect::Print("Could not skip current track, queue is empty"@),
                    Effect::Say("Queue is empty, cannot skip"@),
                ]
            } else {
                match named_count(message@) {
                    Some(c) => seq![Effect::Say("Skipping "@ + decimal(c) + " track(s)"@)],
                    None => seq![Effect::SkipTrack, Effect::Say("Skipping "@ + decimal(1) + " track(s)"@)],
                }
            },
        },
{
    match queue_len {
        None => {
            let actions = vec![Action::Print(String::from_str("Failed to lock Songbird manager"))];
            assert(effects(actions@) =~= seq![actions@[0]@]);
            actions
        },
        Some(n) => if n == 0 {
            let actions = vec![
                Action::Print(String::from_str("Could not skip current track, queue is empty")),
                Action::Say(String::from_str("Queue is empty, cannot skip")),
            ];
            assert(effects(actions@) =~= seq![actions@[0]@, actions@[1]@]);
            actions
        } else {
            let count: Option<u32> = match first_argument(message, ' ') {
                Some(a) => parse_u32(a.as_str()),
                None => None,
            };
            let shown: u32 = match count {
                Some(c) => c,
                None => 1,
            };
            let mut say = String::from_str("Skipping ");
            let number = decimal_text(shown as u64);
            say.append(number.as_str());
            say.append(" track(s)");
            match count {
                Some(_) => {
                    let actions = vec![Action::Say(say)];
                    assert(effects(actions@) =~= seq![actions@[0]@]);
                    actions
                },
                None => {
                    let actions = vec![Action::SkipTrack, Action::Say(say)];
                    assert(effects(actions@) =~= seq![actions@[0]@, actions@[1]@]);
                    actions
                },
            }
        },
    }
}

} // verus!
