//! `?queue link`: add a titled track to the guild's queue; announce it when
//! it starts playing.

use crate::actions::{effects, Action, Effect};
use crate::arguments::{first_argument, nth_argument};
use crate::text::{is_web_link, web_link};
use vstd::prelude::*;
use vstd::string::*;

verus! {

/// The key under which each queued track keeps its title.
#[derive(Debug, Clone, Copy, PartialEq, Eq)]
pub struct TrackTitle;

/// The key under which the bot keeps its HTTP client.
#[derive(Debug, Clone, Copy, PartialEq, Eq)]
pub struct HttpKey;

/// Where `?queue` stands between two outside steps.
#[derive(Debug, PartialEq, Eq)]
pub enum QueueState {
    /// Nothing more to do.
    Finished,
    /// Find out whether the bot has a voice call in the guild.
    CheckCall { url: String },
    /// Fetch the metadata of the track at `url` and hand back its title
    /// (`None` when the fetch fails, `Some(None)` when it has no title),
    /// then the length of the guild's queue.
    FetchTitle { url: String },
    /// Run `?queue` again on the same text.
    Restart,
}

/// The warning given when `?queue` comes before `?join`.
pub open spec fn join_first_warning() -> Seq<char> {
    "**Warning: Calling ?queue before ?join implicitly calls ?join for you, this can lead to unexpected behaviour**"@
}

/// Starts `?queue` on the command's text: its first argument is the link.
pub fn queue(message: &str) -> (res: (QueueState, Vec<Action>))
    ensures
        match nth_argument(message@, ' ', 0) {
            None => res.0 is Finished && effects(res.1@) == seq![
                Effect::Say("You must provide a URL to a playable track"@),
            ],
            Some(url) => res.1@.len() == 0 && (res.0 matches QueueState::CheckCall { url: u } && u@
                == url),
        },
{
    match first_argument(message, ' ') {
        None => {
            let actions = vec![
                Action::Say(String::from_str("You must provide a URL to a playable track")),
            ];
            assert(effects(actions@) =~= seq![actions@[0]@]);
            (QueueState::Finished, actions)
        },
        Some(url) => (QueueState::CheckCall { url }, Vec::new()),
    }
}

/// With it known whether the bot is in a voice call of the guild: without a
/// call, a warning, `?join` and a fresh start; for a text that is no web
/// link, a message to the channel; otherwise the title is fetched.
pub fn queue_in_call(url: String, in_call: bool) -> (res: (QueueState, Vec<Action>))
    ensures
        if !in_call {
            res.0 is Restart && effects(res.1@) == seq![
                Effect::Say(join_first_warning()),
                Effect::JoinAuthorChannel,
            ]
        } else if !is_web_link(url@) {
            res.0 is Finished && effects(res.1@) == seq![
                Effect::Say("Please include a link in the form: \"http(s)://[website]\""@),
            ]
        } else {
            res.1@.len() == 0 && (res.0 matches QueueState::FetchTitle { url: u } && u@ == url@)
        },
{
    if !in_call {
        let actions = vec![
            Action::Say(
                String::from_str(
                    "**Warning: Calling ?queue before ?join implicitly calls ?join for you, this can lead to unexpected behaviour**",
                ),
            ),
            Action::JoinAuthorChannel,
        ];
        assert(effects(actions@) =~= seq![actions@[0]@, actions@[1]@]);
        return (QueueState::Restart, actions);
    }
    if !web_link(url.as_str()) {
        let actions = vec![
            Action::Say(
                String::from_str("Please include a link in the form: \"http(s)://[website]\""),
            ),
        ];
        assert(effects(actions@) =~= seq![actions@[0]@]);
        return (QueueState::Finished, actions);
    }
    (QueueState::FetchTitle { url }, Vec::new())
}

/// The title a queued track gets: its own, `track` when it has none, and
/// `Next Track` when its metadata could not be fetched.
pub open spec fn queued_title(title: Option<Option<Seq<char>>>) -> Seq<char> {
    match title {
        Some(Some(t)) => t,
        Some(None) => "track"@,
        None => "Next Track"@,
    }
}

/// The texts of an optional optional title.
pub open spec fn title_view(title: Option<Option<String>>) -> Option<Option<Seq<char>>> {
    match title {
        Some(Some(t)) => Some(Some(t@)),
        Some(None) => Some(None),
        None => None,
    }
}

/// With the title fetched and the queue's length read: announce the track
/// when others are queued before it, log it, and queue it under its title.
pub fn queue_title(url: String, title: Option<Option<String>>, queue_len: usize) -> (res: Vec<
    Action,
>)
    ensures
        effects(res@) == ({
            let t = queued_title(title_view(title));
            let enqueue = Effect::EnqueueTitledTrack(url@, t);
            match title {
                Some(_) => if queue_len > 0 {
                    seq![
                        Effect::Say("Added to queue: \""@ + t + "\""@),
                        Effect::Print("Enqueueing audio - "@ + t),
                        enqueue,
                    ]
                } else {
                    seq![Effect::Print("Enqueueing audio - "@ + t), enqueue]
                },
                None => seq![
                    Effect::Print("Enqueueing audio - Could not fetch metadata"@),
                    enqueue,
                ],
            }
        }),
{
    match title {
        Some(t) => {
            let shown = match t {
                Some(s) => s,
                None => String::from_str("track"),
            };
            let mut print = String::from_str("Enqueueing audio - ");
            print.append(shown.as_str());
            if queue_len > 0 {
                let mut say = String::from_str("Added to queue: \"");
                say.append(shown.as_str());
                say.append("\"");
                let actions = vec![
                    Action::Say(say),
                    Action::Print(print),
                    Action::EnqueueTitledTrack(url, shown),
                ];
                assert(effects(actions@) =~= seq![actions@[0]@, actions@[1]@, actions@[2]@]);
                actions
            } else {
                let actions = vec![Action::Print(print), Action::EnqueueTitledTrack(url, shown)];
                assert(effects(actions@) =~= seq![actions@[0]@, actions@[1]@]);
                actions
            }
        },
        None => {
            let actions = vec![
                Action::Print(String::from_str("Enqueueing audio - Could not fetch metadata")),
                Action::EnqueueTitledTrack(url, String::from_str("Next Track")),
            ];
            assert(effects(actions@) =~= seq![actions@[0]@, actions@[1]@]);
            actions
        },
    }
}

/// What the announcer of a queued track titled `title` does when a track
/// event comes: for each track of the event (in order) that is now playing,
/// a log line and a message naming the title.
pub open spec fn now_playing_effects(title: Seq<char>, playing: Seq<bool>) -> Seq<Effect>
    decreases playing.len(),
{
    if playing.len() == 0 {
        Seq::empty()
    } else {
        let rest = now_playing_effects(title, playing.drop_last());
        if playing.last() {
            rest + seq![
                Effect::Print("Playing new song"@),
                Effect::Say("Now playing \""@ + title + "\""@),
            ]
        } else {
            rest
        }
    }
}

/// The announcer of a queued track: `playing` tells, for each track of the
/// event, whether its play mode is `Play`.
pub fn now_playing(title: &str, playing: &Vec<bool>) -> (res: Vec<Action>)
    ensures
        effects(res@) == now_playing_effects(title@, playing@),
        res@.len() == 2 * set_count(playing@),
        forall|j: int|
            0 <= j < res@.len() ==> (#[trigger] res@[j])@ == if j % 2 == 0 {
                Effect::Print("Playing new song"@)
            } else {
                Effect::Say("Now playing \""@ + title@ + "\""@)
            },
{
    let mut res: Vec<Action> = Vec::new();
    let mut i: usize = 0;
    while i < playing.len()
        invariant
            i <= playing@.len(),
            effects(res@) == now_playing_effects(title@, playing@.take(i as int)),
        decreases playing@.len() - i,
    {
        let ghost before = res@;
        assert(playing@.take(i + 1).drop_last() =~= playing@.take(i as int));
        assert(playing@.take(i + 1).last() == playing@[i as int]);
        if playing[i] {
            let mut say = String::from_str("Now playing \"");
            say.append(title);
            say.append("\"");
            res.push(Action::Print(String::from_str("Playing new song")));
            res.push(Action::Say(say));
            assert(effects(res@) =~= effects(before) + seq![res@[before.len() as int]@, res@[before.len() as int + 1]@]);
        }
        i = i + 1;
    }
    assert(playing@.take(playing@.len() as int) =~= playing@);
    proof {
        lemma_announcer_names_whole_title(title@, playing@);
        assert forall|j: int| 0 <= j < res@.len() implies (#[trigger] res@[j])@ == if j % 2 == 0 {
            Effect::Print("Playing new song"@)
        } else {
            Effect::Say("Now playing \""@ + title@ + "\""@)
        } by {
            assert(effects(res@)[j] == res@[j]@);
        }
    }
    res
}

/// How many of the flags are set.
pub open spec fn set_count(flags: Seq<bool>) -> nat
    decreases flags.len(),
{
    if flags.len() == 0 {
        0
    } else {
        set_count(flags.drop_last()) + if flags.last() {
            1nat
        } else {
            0nat
        }
    }
}

/// Every track that starts playing is announced under its whole stored
/// title, whatever its length: the announcer gives two effects for each
/// playing track of the event and none for the others, the log line
/// `Playing new song` followed by the message `Now playing "title"`.
pub proof fn lemma_announcer_names_whole_title(title: Seq<char>, playing: Seq<bool>)
    ensures
        now_playing_effects(title, playing).len() == 2 * set_count(playing),
        forall|j: int|
            0 <= j < now_playing_effects(title, playing).len() ==> #[trigger] now_playing_effects(
                title,
                playing,
            )[j] == if j % 2 == 0 {
                Effect::Print("Playing new song"@)
            } else {
                Effect::Say("Now playing \""@ + title + "\""@)
            },
    decreases playing.len(),
{
    if playing.len() > 0 {
        let rest = now_playing_effects(title, playing.drop_last());
        lemma_announcer_names_whole_title(title, playing.drop_last());
        let all = now_playing_effects(title, playing);
        if playing.last() {
            assert forall|j: int| 0 <= j < all.len() implies #[trigger] all[j] == if j % 2 == 0 {
                Effect::Print("Playing new song"@)
            } else {
                Effect::Say("Now playing \""@ + title + "\""@)
            } by {
                if j < rest.len() {
                    assert(all[j] == rest[j]);
                } else if j == rest.len() {
                    assert(j % 2 == 0);
                } else {
                    assert(j == rest.len() + 1);
                    assert(j % 2 == 1);
                }
            }
        }
    }
}

} // verus!
