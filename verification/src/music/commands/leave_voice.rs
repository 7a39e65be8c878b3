//! `?leave_voice`: leave the guild's voice call and drop it.

use crate::actions::{effects, Action, Effect};
use vstd::prelude::*;
use vstd::string::*;

verus! {

/// What `?leave_voice` reports once the guild's call was removed, or the
/// error text of the failed removal.
pub fn leave_voice(removed: Result<(), String>) -> (res: Vec<Action>)
    ensures
        effects(res@) == match removed {
            Ok(()) => seq![Effect::Print("Left and removed"@)],
            Err(why) => seq![Effect::Print("Could not leave and remove: "@ + why@)],
        },
{
    let line = match removed {
        Ok(()) => String::from_str("Left and removed"),
        Err(why) => {
            let mut line = String::from_str("Could not leave and remove: ");
            line.append(why.as_str());
            line
        },
    };
    let actions = vec![Action::Print(line)];
    assert(effects(actions@) =~= seq![actions@[0]@]);
    actions
}

} // verus!
