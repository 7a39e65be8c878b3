//! The first form of `?search term`: look up videos for the whole text and
//! gather each result's title, channel and id, and the first result's link.

use crate::actions::{effects, Action, Effect};
use crate::json::{get_text_at, text_at, JsonValue};
use crate::youtube::{
    get_items, items_of, search_request_url, search_url, video_id, watch_link, watch_link_text,
};
use vstd::prelude::*;
use vstd::string::*;

verus! {

/// How many videos the search asks for.
pub const MAX_RESULTS: u32 = 5;

/// Where this search stands between two outside steps.
#[derive(Debug, PartialEq, Eq)]
pub enum SearchState {
    /// Nothing more to do.
    Finished,
    /// Read the API key (`YT_API_KEY`) from the environment.
    NeedApiKey { term: String },
    /// Fetch `url` and hand back the answer's JSON.
    Searching { term: String, url: String },
}

/// One search result as offered to the author.
#[derive(Debug, PartialEq, Eq)]
pub struct TrackChoice {
    pub title: String,
    pub channel: String,
    pub id: String,
}

/// Starts the search on the command's whole text; an empty text ends it
/// with an error line.
pub fn search_for_track(message: &str) -> (res: (SearchState, Vec<Action>))
    ensures
        if message@.len() == 0 {
            res.0 is Finished && effects(res.1@) == seq![
                Effect::PrintErr("Error parsing args as a search query"@),
            ]
        } else {
            res.1@.len() == 0 && (res.0 matches SearchState::NeedApiKey { term } && term@
                == message@)
        },
{
    if message.unicode_len() == 0 {
        let actions = vec![
            Action::PrintErr(String::from_str("Error parsing args as a search query")),
        ];
        assert(effects(actions@) =~= seq![actions@[0]@]);
        return (SearchState::Finished, actions);
    }
    (SearchState::NeedApiKey { term: String::from_str(message) }, Vec::new())
}

/// With the API key at hand, the search request for `term`.
pub fn search_with_key(term: String, key: &str) -> (res: SearchState)
    ensures
        res matches SearchState::Searching { term: t, url } && t@ == term@ && url@ == search_url(
            MAX_RESULTS as nat,
            term@,
            key@,
        ),
{
    let url = search_request_url(MAX_RESULTS, term.as_str(), key);
    SearchState::Searching { term, url }
}

/// The title, channel and video id of a search result.
pub open spec fn result_choice(item: JsonValue) -> Option<(Seq<char>, Seq<char>, Seq<char>)> {
    match video_id(item) {
        Some(id) => match text_at(item, "snippet"@, "channelTitle"@) {
            Some(channel) => match text_at(item, "snippet"@, "title"@) {
                Some(title) => Some((title, channel, id)),
                None => None,
            },
            None => None,
        },
        None => None,
    }
}

/// What the search reads from its answer: the link of the first result and
/// the choices, one for each result in order. `None` when the answer has no
/// results or one of them lacks an id, channel or title (where the command
/// stops with a panic).
pub open spec fn search_outcome(response: JsonValue) -> Option<
    (Seq<char>, Seq<(Seq<char>, Seq<char>, Seq<char>)>),
> {
    match items_of(response) {
        Some(items) => if items.len() > 0 && forall|i: int|
            0 <= i < items.len() ==> (#[trigger] result_choice(items[i])) is Some {
            Some(
                (
                    watch_link(video_id(items[0]).unwrap()),
                    Seq::new(items.len(), |i: int| result_choice(items[i]).unwrap()),
                ),
            )
        } else {
            None
        },
        None => None,
    }
}

/// The texts of a choice.
pub open spec fn choice_texts(c: TrackChoice) -> (Seq<char>, Seq<char>, Seq<char>) {
    (c.title@, c.channel@, c.id@)
}

/// With the answer at hand, the first result's link and the choices.
pub fn search_results(response: &JsonValue) -> (res: Option<(String, Vec<TrackChoice>)>)
    ensures
        match search_outcome(*response) {
            Some(o) => res matches Some((link, choices)) && link@ == o.0 && choices@.map_values(
                |c: TrackChoice| choice_texts(c),
            ) == o.1,
            None => res is None,
        },
        res matches Some((_, choices)) ==> items_of(*response) is Some && choices@.len()
            == items_of(*response).unwrap().len(),
{
    let items = match get_items(response) {
        Some(items) => items,
        None => return None,
    };
    if items.len() == 0 {
        return None;
    }
    let mut choices: Vec<TrackChoice> = Vec::new();
    let mut i: usize = 0;
    while i < items.len()
        invariant
            0 < items@.len(),
            i <= items@.len(),
            items_of(*response) == Some(items@),
            choices@.len() == i,
            forall|k: int| 0 <= k < i ==> (#[trigger] result_choice(items@[k])) is Some,
            forall|k: int|
                0 <= k < i ==> choice_texts(#[trigger] choices@[k]) == result_choice(
                    items@[k],
                ).unwrap(),
        decreases items@.len() - i,
    {
        let item = &items[i];
        let id = match get_text_at(item, "id", "videoId") {
            Some(id) => id,
            None => {
                assert(result_choice(items@[i as int]) is None);
                return None;
            },
        };
        let channel = match get_text_at(item, "snippet", "channelTitle") {
            Some(c) => c,
            None => {
                assert(result_choice(items@[i as int]) is None);
                return None;
            },
        };
        let title = match get_text_at(item, "snippet", "title") {
            Some(t) => t,
            None => {
                assert(result_choice(items@[i as int]) is None);
                return None;
            },
        };
        choices.push(
            TrackChoice {
                title: String::from_str(title),
                channel: String::from_str(channel),
                id: String::from_str(id),
            },
        );
        i = i + 1;
    }
    let link = watch_link_text(choices[0].id.as_str());
    assert(choices@.map_values(|c: TrackChoice| choice_texts(c)) =~= Seq::new(
        items@.len(),
        |k: int| result_choice(items@[k]).unwrap(),
    ));
    Some((link, choices))
}

/// The search offers every result of its answer, none left out: there is one
/// choice per item of the answer, in order, choice `i` holding item `i`'s
/// title, channel and video id, and the link is that of the first item's
/// video. It reads an outcome exactly when the answer lists at least one item
/// and every item has an id, a channel and a title.
pub proof fn lemma_search_offers_every_result(response: JsonValue)
    ensures
        search_outcome(response) is Some <==> (items_of(response) is Some && items_of(
            response,
        ).unwrap().len() > 0 && forall|i: int|
            0 <= i < items_of(response).unwrap().len() ==> {
                let item = #[trigger] items_of(response).unwrap()[i];
                &&& text_at(item, "id"@, "videoId"@) is Some
                &&& text_at(item, "snippet"@, "channelTitle"@) is Some
                &&& text_at(item, "snippet"@, "title"@) is Some
            }),
        search_outcome(response) is Some ==> {
            let items = items_of(response).unwrap();
            let (link, choices) = search_outcome(response).unwrap();
            &&& choices.len() == items.len()
            &&& link == "https://www.youtube.com/watch?v="@ + text_at(
                items[0],
                "id"@,
                "videoId"@,
            ).unwrap()
            &&& forall|i: int|
                0 <= i < items.len() ==> #[trigger] choices[i] == (
                    text_at(items[i], "snippet"@, "title"@).unwrap(),
                    text_at(items[i], "snippet"@, "channelTitle"@).unwrap(),
                    text_at(items[i], "id"@, "videoId"@).unwrap(),
                )
        },
{
    if items_of(response) is Some {
        let items = items_of(response).unwrap();
        if forall|i: int|
            0 <= i < items.len() ==> {
                let item = #[trigger] items[i];
                &&& text_at(item, "id"@, "videoId"@) is Some
                &&& text_at(item, "snippet"@, "channelTitle"@) is Some
                &&& text_at(item, "snippet"@, "title"@) is Some
            } {
            assert forall|i: int| 0 <= i < items.len() implies (#[trigger] result_choice(
                items[i],
            )) is Some by {
                let item = items[i];
                assert(text_at(item, "id"@, "videoId"@) is Some);
            }
        }
        if search_outcome(response) is Some {
            assert forall|i: int| 0 <= i < items.len() implies {
                let item = #[trigger] items[i];
                &&& text_at(item, "id"@, "videoId"@) is Some
                &&& text_at(item, "snippet"@, "channelTitle"@) is Some
                &&& text_at(item, "snippet"@, "title"@) is Some
            } by {
                assert(result_choice(items[i]) is Some);
            }
            assert(result_choice(items[0]) is Some);
        }
    }
}

} // verus!
