//! `?search term, n`: look up videos, show a numbered menu of them, and queue
//! the one the author picks by answering with its number.

use crate::actions::{effects, Action, Effect};
use crate::arguments::{serenity_arguments, split_arguments};
use crate::json::JsonValue;
use crate::text::{decimal, has_prefix, texts, lemma_parse_decimal, parse_bounded, parse_u32, parse_usize};
use crate::youtube::{
    details_request_url, details_url, hms_answer, hms_entry, hms_item, items_of, menu_entries,
    menu_entry, read_menu, read_result_ids, result_ids,
    search_request_url, search_url, watch_link, watch_link_text,
};
use vstd::prelude::*;
use vstd::string::*;

verus! {

/// How many videos a search asks for when the command names no number.
pub const MAX_RESULTS: u32 = 5;

/// Where a search stands between two outside steps.
#[derive(Debug, PartialEq, Eq)]
pub enum SearchState {
    /// Nothing more to do.
    Finished,
    /// Read the API key (`YT_API_KEY`) from the environment.
    NeedApiKey { term: String, max_results: u32 },
    /// Fetch `url` and hand back the answer's JSON.
    Searching { term: String, key: String, url: String },
    /// Fetch `url`, the details of the videos `choices`, and hand back the
    /// answer's JSON.
    FetchingDetails { term: String, choices: Vec<String>, url: String },
    /// Wait up to 30 seconds for the author's next message and hand back its
    /// text, or nothing when none came.
    AwaitingChoice { term: String, choices: Vec<String> },
}

/// The number of results a search asks for: the second argument when it
/// reads as a `u32`, else `MAX_RESULTS`.
pub open spec fn wanted_results(args: Seq<Seq<char>>) -> nat {
    if args.len() > 1 {
        match parse_bounded(args[1], u32::MAX as nat) {
            Some(n) => n,
            None => MAX_RESULTS as nat,
        }
    } else {
        MAX_RESULTS as nat
    }
}

/// A search asks for exactly the number of results the command names: when
/// the second argument reads as a `u32` `n`, whatever its size, the search
/// asks for `n` results; the text of every `u32` reads as itself, so the
/// command `term,n` asks for `n`. Without a second argument, or with one that
/// reads as no `u32`, it asks for `MAX_RESULTS`.
pub proof fn lemma_search_asks_for_named_count(args: Seq<Seq<char>>, n: nat)
    requires
        n <= u32::MAX,
    ensures
        args.len() > 1 && parse_bounded(args[1], u32::MAX as nat) == Some(n) ==> wanted_results(
            args,
        ) == n,
        args.len() > 1 && args[1] == decimal(n) ==> wanted_results(args) == n,
        args.len() <= 1 ==> wanted_results(args) == MAX_RESULTS,
        args.len() > 1 && parse_bounded(args[1], u32::MAX as nat) is None ==> wanted_results(args)
            == MAX_RESULTS,
{
    lemma_parse_decimal(n, u32::MAX as nat);
}

/// Starts `?search` on the command's text, whose arguments are split at
/// commas: the first is the search term, the second the number of results.
/// `None` when the text holds no argument at all (where the command stops
/// with a panic); an empty term ends the command with an error line.
pub fn search_for_track(message: &str) -> (res: Option<(SearchState, Vec<Action>)>)
    ensures
        ({
            let args = serenity_arguments(message@, ',');
            if args.len() == 0 {
                res is None
            } else if args[0].len() == 0 {
                res matches Some((state, actions)) && state is Finished && effects(actions@)
                    == seq![Effect::PrintErr("Error parsing a search query"@)]
            } else {
                res matches Some((state, actions)) && actions@.len() == 0 && (
                state matches SearchState::NeedApiKey { term, max_results } && term@ == args[0]
                    && max_results == wanted_results(args))
            }
        }),
        ({
            let args = serenity_arguments(message@, ',');
            res matches Some((SearchState::NeedApiKey { max_results, .. }, _)) ==> max_results == (
            if args.len() > 1 && parse_bounded(args[1], u32::MAX as nat) is Some {
                parse_bounded(args[1], u32::MAX as nat).unwrap()
            } else {
                MAX_RESULTS as nat
            })
        }),
{
    let mut args = split_arguments(message, ',');
    let ghost all = texts(args@);
    if args.len() == 0 {
        return None;
    }
    let max_results = if args.len() > 1 {
        match parse_u32(args[1].as_str()) {
            Some(n) => n,
            None => MAX_RESULTS,
        }
    } else {
        MAX_RESULTS
    };
    assert(all[0] == args@[0]@);
    let term = args.swap_remove(0);
    if term.unicode_len() == 0 {
        let actions = vec![Action::PrintErr(String::from_str("Error parsing a search query"))];
        assert(effects(actions@) =~= seq![actions@[0]@]);
        return Some((SearchState::Finished, actions));
    }
    Some((SearchState::NeedApiKey { term, max_results }, Vec::new()))
}

/// With the API key at hand, the search request for `term`.
pub fn search_with_key(term: String, max_results: u32, key: String) -> (res: SearchState)
    ensures
        res matches SearchState::Searching { term: t, key: k, url } && t@ == term@ && k@ == key@
            && url@ == search_url(max_results as nat, term@, key@),
{
    let url = search_request_url(max_results, term.as_str(), key.as_str());
    SearchState::Searching { term, key, url }
}

/// With the search answer at hand, the request for the details of the
/// videos found. `None` when the answer lists no items or an item has no
/// video id (where the command stops with a panic).
pub fn search_results(term: String, key: &str, response: &JsonValue) -> (res: Option<SearchState>)
    ensures
        match result_ids(*response) {
            Some(ids) => res matches Some(SearchState::FetchingDetails { term: t, choices, url })
                && t@ == term@ && texts(choices@) == ids && url@ == details_url(ids, key@),
            None => res is None,
        },
{
    match read_result_ids(response) {
        Some(choices) => {
            let url = details_request_url(&choices, key);
            Some(SearchState::FetchingDetails { term, choices, url })
        },
        None => None,
    }
}

/// The title of the menu.
pub open spec fn menu_title() -> Seq<char> {
    "Choose song"@
}

/// With the details answer at hand, the menu to show; then wait for the
/// author's choice. `None` when an entry cannot be read (where the command
/// stops with a panic). When every item has a title, a channel and a length
/// `PT{h}H{m}M{s}S`, the menu shows one entry per item, in order, entry `i`
/// reading `i+1. title (60h+m:ss)` over `Uploaded by channel`.
pub fn search_menu(term: String, choices: Vec<String>, response: &JsonValue) -> (res: Option<
    (SearchState, Vec<Action>),
>)
    ensures
        match menu_entries(*response) {
            Some(entries) => res matches Some((state, actions)) && effects(actions@) == seq![
                Effect::ShowMenu(menu_title(), entries),
            ] && (state matches SearchState::AwaitingChoice { term: t, choices: c } && t@ == term@
                && c@ == choices@),
            None => res is None,
        },
        hms_answer(*response) ==> res is Some,
        res is Some ==> forall|i: int, h: u32, m: u32, s: u32|
            0 <= i < menu_entries(*response).unwrap().len() && #[trigger] hms_item(
                items_of(*response).unwrap()[i],
                h,
                m,
                s,
            ) ==> menu_entries(*response).unwrap()[i] == hms_entry(
                i,
                items_of(*response).unwrap()[i],
                h,
                m,
                s,
            ),
{
    match read_menu(response) {
        Some(fields) => {
            let actions = vec![Action::ShowMenu(String::from_str("Choose song"), fields)];
            assert(effects(actions@) =~= seq![actions@[0]@]);
            Some((SearchState::AwaitingChoice { term, choices }, actions))
        },
        None => None,
    }
}

/// The number an answer picks: the answer read as a `usize`, or 0 when it
/// does not read as one.
pub open spec fn picked_number(answer: Seq<char>) -> nat {
    match parse_bounded(answer, usize::MAX as nat) {
        Some(n) => n,
        None => 0,
    }
}

/// The choice an answer picks out of `count` offered: the number `n` when
/// `1 <= n < count` (so the last entry of the menu can never be picked),
/// counted from 1.
pub open spec fn picked_choice(count: nat, answer: Seq<char>) -> Option<int> {
    let n = picked_number(answer);
    if 1 <= n < count {
        Some(n - 1)
    } else {
        None
    }
}

/// The line printed when a video is chosen.
pub open spec fn chosen_line(term: Seq<char>, id: Seq<char>) -> Seq<char> {
    "Video ID chosen for query |"@ + term + "| is: "@ + id + " - passing on "@ + watch_link(id)
        + " to track queue"@
}

/// What the search does with the author's answer, `None` when no answer
/// came in time: an answer deletes the menu, and when it picks one of the
/// choices, prints the choice and queues its link.
pub fn search_choice(term: &str, choices: &Vec<String>, answer: Option<String>) -> (res: Vec<
    Action,
>)
    ensures
        effects(res@) == match answer {
            None => seq![Effect::Reply("Timed Out"@)],
            Some(a) => match picked_choice(choices@.len(), a@) {
                Some(i) => seq![
                    Effect::DeleteMenu,
                    Effect::Print(chosen_line(term@, choices@[i]@)),
                    Effect::QueueLink(watch_link(choices@[i]@)),
                ],
                None => seq![Effect::DeleteMenu],
            },
        },
{
    match answer {
        None => {
            let res = vec![Action::Reply(String::from_str("Timed Out"))];
            assert(effects(res@) =~= seq![res@[0]@]);
            res
        },
        Some(a) => {
            let selection: usize = match parse_usize(a.as_str()) {
                Some(n) => n,
                None => 0,
            };
            if 1 <= selection && selection < choices.len() {
                let id = choices[selection - 1].as_str();
                let link = watch_link_text(id);
                let mut line = String::from_str("Video ID chosen for query |");
                line.append(term);
                line.append("| is: ");
                line.append(id);
                line.append(" - passing on ");
                line.append(link.as_str());
                line.append(" to track queue");
                let res = vec![Action::DeleteMenu, Action::Print(line), Action::QueueLink(link)];
                assert(effects(res@) =~= seq![res@[0]@, res@[1]@, res@[2]@]);
                res
            } else {
                let res = vec![Action::DeleteMenu];
                assert(effects(res@) =~= seq![res@[0]@]);
                res
            }
        },
    }
}


/// A menu entry is picked by answering with the number it shows: when the
/// details answer lists the offered videos in order, the heading of entry
/// `j` begins with `j + 1` and a period, and the answer `j + 1` picks the
/// offered video `j`, for every entry but the one numbered with the count of
/// offered videos (the last, which no answer picks).
pub proof fn lemma_answer_picks_numbered_entry(
    response: JsonValue,
    offered: Seq<Seq<char>>,
    j: int,
)
    requires
        menu_entries(response) is Some,
        0 <= j < menu_entries(response).unwrap().len(),
        j + 1 < offered.len(),
        offered.len() <= usize::MAX,
    ensures
        has_prefix(menu_entries(response).unwrap()[j].0, decimal((j + 1) as nat) + ". "@),
        picked_choice(offered.len(), decimal((j + 1) as nat)) == Some(j),
        picked_choice(offered.len(), decimal(offered.len())) is None,
{
    let items = items_of(response).unwrap();
    assert(menu_entry(j, items[j]) is Some);
    let heading = menu_entries(response).unwrap()[j].0;
    let label = decimal((j + 1) as nat) + ". "@;
    assert(heading.subrange(0, label.len() as int) =~= label);
    lemma_parse_decimal((j + 1) as nat, usize::MAX as nat);
    lemma_parse_decimal(offered.len(), usize::MAX as nat);
}

} // verus!
