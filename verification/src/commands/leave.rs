//! `?leave`: leave the guild's voice call.

use crate::actions::{effects, Action, Effect};
use vstd::prelude::*;
use vstd::string::*;

verus! {

/// What `?leave` does, given whether the bot has a voice call in the guild.
pub fn leave(in_call: bool) -> (res: Vec<Action>)
    ensures
        effects(res@) == if in_call {
            seq![Effect::LeaveCall, Effect::Print("Left channel"@)]
        } else {
            Seq::<Effect>::empty()
        },
{
    if in_call {
        let actions = vec![Action::LeaveCall, Action::Print(String::from_str("Left channel"))];
        assert(effects(actions@) =~= seq![actions@[0]@, actions@[1]@]);
        actions
    } else {
        let actions: Vec<Action> = Vec::new();
        assert(effects(actions@) =~= Seq::<Effect>::empty());
        actions
    }
}

} // verus!
