//! `?pop`: tell the channel that the current track is being skipped.

use crate::actions::{effects, Action, Effect};
use vstd::prelude::*;
use vstd::string::*;

verus! {

/// What `?pop` does, given the length of the guild's track queue, or `None`
/// when the bot has no voice call in the guild. The track itself is not
/// skipped.
pub fn pop(queue_len: Option<usize>) -> (res: Vec<Action>)
    ensures
        effects(res@) == match queue_len {
            None => seq![Effect::Print("Failed to lock Songbird manager"@)],
            Some(n) => if n == 0 {
                seq![Effect::Print("Could not skip current track"@)]
            } else {
                seq![Effect::Say("Skipping current track"@)]
            },
        },
{
    let action = match queue_len {
        None => Action::Print(String::from_str("Failed to lock Songbird manager")),
        Some(n) => if n == 0 {
            Action::Print(String::from_str("Could not skip current track"))
        } else {
            Action::Say(String::from_str("Skipping current track"))
        },
    };
    let res = vec![action];
    assert(effects(res@) =~= seq![res@[0]@]);
    res
}

} // verus!
