//! `?join`: connect the bot to the author's voice channel.

use crate::actions::{effects, Action, Effect};
use vstd::prelude::*;
use vstd::string::*;

verus! {

/// Where `?join` stands between two outside steps.
#[derive(Debug, Clone, Copy, PartialEq, Eq)]
pub enum JoinState {
    /// Nothing more to do.
    Finished,
    /// Join the voice channel with this id and tell whether it worked.
    Connect(u64),
    /// Look up the name of the voice channel with this id; hand it back, or
    /// nothing when the lookup fails.
    NameChannel(u64),
}

/// Starts `?join`, given the voice channel the author is in, if any.
pub fn join(voice_channel: Option<u64>) -> (res: (JoinState, Vec<Action>))
    ensures
        match voice_channel {
            None => res.0 is Finished && effects(res.1@) == seq![
                Effect::Reply("Join a voice channel before calling ?join"@),
            ],
            Some(c) => res.0 == JoinState::Connect(c) && res.1@.len() == 0,
        },
{
    match voice_channel {
        None => {
            let actions = vec![
                Action::Reply(String::from_str("Join a voice channel before calling ?join")),
            ];
            assert(effects(actions@) =~= seq![actions@[0]@]);
            (JoinState::Finished, actions)
        },
        Some(c) => (JoinState::Connect(c), Vec::new()),
    }
}

/// After the attempt to join `channel`: on success the call reports failing
/// tracks and the channel's name is looked up; on failure nothing more.
pub fn join_connected(channel: u64, connected: bool) -> (res: (JoinState, Vec<Action>))
    ensures
        if connected {
            res.0 == JoinState::NameChannel(channel) && effects(res.1@) == seq![
                Effect::AttachTrackErrorNotifier,
            ]
        } else {
            res.0 is Finished && res.1@.len() == 0
        },
{
    if connected {
        let actions = vec![Action::AttachTrackErrorNotifier];
        assert(effects(actions@) =~= seq![actions@[0]@]);
        (JoinState::NameChannel(channel), actions)
    } else {
        (JoinState::Finished, Vec::new())
    }
}

/// With the channel's name, if the lookup worked: log it.
pub fn join_named(name: Option<String>) -> (res: Vec<Action>)
    ensures
        effects(res@) == match name {
            Some(n) => seq![Effect::LogJoinedChannel(n@)],
            None => Seq::<Effect>::empty(),
        },
{
    match name {
        Some(n) => {
            let actions = vec![Action::LogJoinedChannel(n)];
            assert(effects(actions@) =~= seq![actions@[0]@]);
            actions
        },
        None => {
            let actions: Vec<Action> = Vec::new();
            assert(effects(actions@) =~= Seq::<Effect>::empty());
            actions
        },
    }
}

} // verus!
