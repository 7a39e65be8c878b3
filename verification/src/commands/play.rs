//! `?play link`: add a track to the guild's call and announce its title.

use crate::actions::{effects, Action, Effect};
use crate::arguments::{first_argument, nth_argument};
use crate::text::{is_web_link, web_link};
use vstd::prelude::*;
use vstd::string::*;

verus! {

/// The key under which the bot keeps its HTTP client.
#[derive(Debug, Clone, Copy, PartialEq, Eq)]
pub struct HttpKey;

/// Where `?play` stands between two outside steps.
#[derive(Debug, PartialEq, Eq)]
pub enum PlayState {
    /// Nothing more to do.
    Finished,
    /// Find out whether the bot has a voice call in the guild.
    CheckCall { url: String },
    /// Fetch the metadata of the track at `url` and hand back its title:
    /// `None` when the fetch fails, `Some(None)` when it has no title.
    FetchTitle { url: String },
}

/// Starts `?play` on the command's text: its first argument is the link.
pub fn play(message: &str) -> (res: (PlayState, Vec<Action>))
    ensures
        match nth_argument(message@, ' ', 0) {
            None => res.0 is Finished && effects(res.1@) == seq![
                Effect::Say("You must provide a URL to a playable track"@),
            ],
            Some(url) => res.1@.len() == 0 && (res.0 matches PlayState::CheckCall { url: u } && u@
                == url),
        },
{
    match first_argument(message, ' ') {
        None => {
            let actions = vec![
                Action::Say(String::from_str("You must provide a URL to a playable track")),
            ];
            assert(effects(actions@) =~= seq![actions@[0]@]);
            (PlayState::Finished, actions)
        },
        Some(url) => (PlayState::CheckCall { url }, Vec::new()),
    }
}

/// With it known whether the bot is in a voice call of the guild: without a
/// call, or for a text that is no web link, a message to the channel;
/// otherwise the track is queued and its title fetched.
pub fn play_in_call(url: String, in_call: bool) -> (res: (PlayState, Vec<Action>))
    ensures
        if !in_call {
            res.0 is Finished && effects(res.1@) == seq![
                Effect::Say("Could not play track, are you in a voice channel?"@),
            ]
        } else if !is_web_link(url@) {
            res.0 is Finished && effects(res.1@) == seq![
                Effect::Say("Please include a link starting with http"@),
            ]
        } else {
            effects(res.1@) == seq![Effect::EnqueueTrack(url@)] && (
            res.0 matches PlayState::FetchTitle { url: u } && u@ == url@)
        },
{
    if !in_call {
        let actions = vec![
            Action::Say(String::from_str("Could not play track, are you in a voice channel?")),
        ];
        assert(effects(actions@) =~= seq![actions@[0]@]);
        return (PlayState::Finished, actions);
    }
    if !web_link(url.as_str()) {
        let actions = vec![Action::Say(String::from_str("Please include a link starting with http"))];
        assert(effects(actions@) =~= seq![actions@[0]@]);
        return (PlayState::Finished, actions);
    }
    let actions = vec![Action::EnqueueTrack(url.clone())];
    assert(effects(actions@) =~= seq![actions@[0]@]);
    (PlayState::FetchTitle { url }, actions)
}

/// With the metadata fetched: the title (or `audio` when the track has
/// none) is announced; a failed fetch is only logged.
pub fn play_title(title: Option<Option<String>>) -> (res: Vec<Action>)
    ensures
        effects(res@) == match title {
            Some(t) => {
                let shown = match t {
                    Some(s) => s@,
                    None => "audio"@,
                };
                seq![
                    Effect::Say("Playing "@ + shown),
                    Effect::Print("Enqueueing audio - "@ + shown),
                ]
            },
            None => seq![Effect::Print("Playing audio - UNKNOWN TITLE"@)],
        },
{
    match title {
        Some(t) => {
            let shown = match t {
                Some(s) => s,
                None => String::from_str("audio"),
            };
            let mut say = String::from_str("Playing ");
            say.append(shown.as_str());
            let mut print = String::from_str("Enqueueing audio - ");
            print.append(shown.as_str());
            let actions = vec![Action::Say(say), Action::Print(print)];
            assert(effects(actions@) =~= seq![actions@[0]@, actions@[1]@]);
            actions
        },
        None => {
            let actions = vec![Action::Print(String::from_str("Playing audio - UNKNOWN TITLE"))];
            assert(effects(actions@) =~= seq![actions@[0]@]);
            actions
        },
    }
}

} // verus!
