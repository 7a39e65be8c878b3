//! The YouTube Data API as the bot uses it: the addresses it requests and
//! what it reads from the answers.

use crate::actions::{field_texts, MenuField};
use crate::duration::{hms_text, length_of, length_text, read_length, two_digits, write_length};
use crate::json::{get_text_at, text_at, JsonValue};
use crate::text::{decimal, decimal_text, has_prefix, is_web_link, texts};
use vstd::prelude::*;
use vstd::string::*;

verus! {

/// The search address for `term`, asking for at most `max_results` videos.
pub open spec fn search_url(max_results: nat, term: Seq<char>, key: Seq<char>) -> Seq<char> {
    "https://youtube.googleapis.com/youtube/v3/search?part=snippet&type=video&maxResults="@
        + decimal(max_results) + "&q="@ + term + "&key="@ + key
}

/// The search address for `term`, asking for at most `max_results` videos.
/// The term is put in as it is, without escaping.
pub fn search_request_url(max_results: u32, term: &str, key: &str) -> (res: String)
    ensures
        res@ == search_url(max_results as nat, term@, key@),
{
    let mut url = String::from_str(
        "https://youtube.googleapis.com/youtube/v3/search?part=snippet&type=video&maxResults=",
    );
    let n = decimal_text(max_results as u64);
    url.append(n.as_str());
    url.append("&q=");
    url.append(term);
    url.append("&key=");
    url.append(key);
    url
}

/// The texts of `ids` joined by commas, as `join(",")` does.
pub open spec fn joined(ids: Seq<Seq<char>>) -> Seq<char>
    decreases ids.len(),
{
    if ids.len() == 0 {
        Seq::empty()
    } else if ids.len() == 1 {
        ids[0]
    } else {
        joined(ids.drop_last()) + ","@ + ids.last()
    }
}

/// The address that asks for the title, channel and length of each video.
pub open spec fn details_url(ids: Seq<Seq<char>>, key: Seq<char>) -> Seq<char> {
    "https://youtube.googleapis.com/youtube/v3/videos?part=snippet,contentDetails&id="@
        + joined(ids) + "&key="@ + key
}

/// The address that asks for the details of the videos `ids`.
pub fn details_request_url(ids: &Vec<String>, key: &str) -> (res: String)
    ensures
        res@ == details_url(texts(ids@), key@),
{
    let ghost all = texts(ids@);
    let mut url = String::from_str(
        "https://youtube.googleapis.com/youtube/v3/videos?part=snippet,contentDetails&id=",
    );
    let ghost head = url@;
    let mut i: usize = 0;
    while i < ids.len()
        invariant
            i <= ids@.len(),
            all == texts(ids@),
            url@ == head + joined(all.subrange(0, i as int)),
        decreases ids@.len() - i,
    {
        let ghost before = all.subrange(0, i as int);
        let ghost after = all.subrange(0, i + 1);
        assert(after.drop_last() =~= before);
        assert(after.last() == ids@[i as int]@);
        if i > 0 {
            url.append(",");
        } else {
            assert(before =~= Seq::<Seq<char>>::empty());
        }
        url.append(ids[i].as_str());
        assert(url@ =~= head + joined(after));
        i = i + 1;
    }
    assert(all.subrange(0, ids@.len() as int) =~= all);
    url.append("&key=");
    url.append(key);
    url
}

/// The address of the video `id` on YouTube.
pub open spec fn watch_link(id: Seq<char>) -> Seq<char> {
    "https://www.youtube.com/watch?v="@ + id
}

/// The address of the video `id` on YouTube.
pub fn watch_link_text(id: &str) -> (res: String)
    ensures
        res@ == watch_link(id@),
{
    let mut link = String::from_str("https://www.youtube.com/watch?v=");
    link.append(id);
    link
}

/// `response["items"].as_array()`.
pub open spec fn items_of(response: JsonValue) -> Option<Seq<JsonValue>> {
    match response.field("items"@) {
        Some(items) => items.elements(),
        None => None,
    }
}

/// `item["id"]["videoId"].as_str()`.
pub open spec fn video_id(item: JsonValue) -> Option<Seq<char>> {
    text_at(item, "id"@, "videoId"@)
}

/// The video ids of a search answer, in order; `None` when the answer has
/// no list of items or an item has no video id.
pub open spec fn result_ids(response: JsonValue) -> Option<Seq<Seq<char>>> {
    match items_of(response) {
        Some(items) => if forall|i: int| 0 <= i < items.len() ==> (#[trigger] video_id(items[i])) is Some {
            Some(Seq::new(items.len(), |i: int| video_id(items[i]).unwrap()))
        } else {
            None
        },
        None => None,
    }
}

/// The items of an answer, `response["items"].as_array()`.
pub fn get_items(response: &JsonValue) -> (res: Option<&Vec<JsonValue>>)
    ensures
        match items_of(*response) {
            Some(items) => res is Some && res->0@ == items,
            None => res is None,
        },
{
    match response.get_field("items") {
        Some(items) => items.as_elements(),
        None => None,
    }
}

/// The video ids of a search answer.
pub fn read_result_ids(response: &JsonValue) -> (res: Option<Vec<String>>)
    ensures
        match result_ids(*response) {
            Some(ids) => res is Some && texts(res->0@) == ids,
            None => res is None,
        },
{
    let items = match get_items(response) {
        Some(items) => items,
        None => return None,
    };
    let mut ids: Vec<String> = Vec::new();
    let mut i: usize = 0;
    while i < items.len()
        invariant
            i <= items@.len(),
            items_of(*response) == Some(items@),
            ids@.len() == i,
            forall|k: int| 0 <= k < i ==> (#[trigger] video_id(items@[k])) is Some,
            forall|k: int| 0 <= k < i ==> (#[trigger] ids@[k])@ == video_id(items@[k]).unwrap(),
        decreases items@.len() - i,
    {
        match get_text_at(&items[i], "id", "videoId") {
            Some(id) => ids.push(String::from_str(id)),
            None => {
                assert(video_id(items@[i as int]) is None);
                return None;
            },
        }
        i = i + 1;
    }
    assert(texts(ids@) =~= Seq::new(
        items@.len(),
        |k: int| video_id(items@[k]).unwrap(),
    ));
    Some(ids)
}

/// The menu entry of the `index`-th video of a details answer (counting
/// from 0): its heading `N. title (m:ss)` with `N` the index plus one, and the
/// line `Uploaded by channel`. `None` when the item lacks a length, title or
/// channel, or its length cannot be read.
pub open spec fn menu_entry(index: int, item: JsonValue) -> Option<(Seq<char>, Seq<char>)> {
    match text_at(item, "contentDetails"@, "duration"@) {
        Some(d) => match length_of(d) {
            Some(l) => match text_at(item, "snippet"@, "title"@) {
                Some(title) => match text_at(item, "snippet"@, "channelTitle"@) {
                    Some(channel) => Some(
                        (
                            decimal((index + 1) as nat) + ". "@ + title + " ("@ + length_text(
                                l.0 as nat,
                                l.1 as nat,
                            ) + ")"@,
                            "Uploaded by "@ + channel,
                        ),
                    ),
                    None => None,
                },
                None => None,
            },
            None => None,
        },
        None => None,
    }
}

/// The menu entries of a details answer, in order; `None` when the answer
/// has no list of items or one of its items gives no entry.
pub open spec fn menu_entries(response: JsonValue) -> Option<Seq<(Seq<char>, Seq<char>)>> {
    match items_of(response) {
        Some(items) => if forall|i: int| 0 <= i < items.len() ==> (#[trigger] menu_entry(i, items[i])) is Some {
            Some(Seq::new(items.len(), |i: int| menu_entry(i, items[i]).unwrap()))
        } else {
            None
        },
        None => None,
    }
}


/// `item` has a title and a channel, and its length reads
/// `PT{h}H{m}M{s}S` with `60 * h + m` fitting in a `u32`.
pub open spec fn hms_item(item: JsonValue, h: u32, m: u32, s: u32) -> bool {
    &&& text_at(item, "snippet"@, "title"@) is Some
    &&& text_at(item, "snippet"@, "channelTitle"@) is Some
    &&& text_at(item, "contentDetails"@, "duration"@) == Some(hms_text(h as nat, m as nat, s as nat))
    &&& 60 * h + m <= u32::MAX
}

/// The menu entry of the `index`-th video when it is an `hms_item`:
/// `N. title (M:SS)` with `N = index + 1`, `M = 60 * h + m` and the seconds
/// padded to two digits, and `Uploaded by channel`.
pub open spec fn hms_entry(index: int, item: JsonValue, h: u32, m: u32, s: u32) -> (
    Seq<char>,
    Seq<char>,
) {
    (
        decimal((index + 1) as nat) + ". "@ + text_at(item, "snippet"@, "title"@).unwrap() + " ("@
            + decimal((60 * h + m) as nat) + ":"@ + two_digits(decimal(s as nat)) + ")"@,
        "Uploaded by "@ + text_at(item, "snippet"@, "channelTitle"@).unwrap(),
    )
}

/// Every item of a details answer has a title, a channel and a length of
/// the form `PT{h}H{m}M{s}S`.
pub open spec fn hms_answer(response: JsonValue) -> bool {
    match items_of(response) {
        Some(items) => forall|i: int|
            #![trigger items[i]]
            0 <= i < items.len() ==> exists|h: u32, m: u32, s: u32| #[trigger] hms_item(items[i], h, m, s),
        None => false,
    }
}

/// The menu entry of the `index`-th video of a details answer.
pub fn read_menu_entry(index: usize, item: &JsonValue) -> (res: Option<MenuField>)
    requires
        index < usize::MAX,
    ensures
        match menu_entry(index as int, *item) {
            Some(e) => res is Some && res->0.name@ == e.0 && res->0.value@ == e.1,
            None => res is None,
        },
        forall|h: u32, m: u32, s: u32|
            #[trigger] hms_item(*item, h, m, s) ==> res is Some && (res->0.name@, res->0.value@)
                == hms_entry(index as int, *item, h, m, s),
{
    let d = match get_text_at(item, "contentDetails", "duration") {
        Some(d) => d,
        None => return None,
    };
    let (minutes, seconds) = match read_length(d) {
        Some(l) => l,
        None => return None,
    };
    let title = match get_text_at(item, "snippet", "title") {
        Some(t) => t,
        None => return None,
    };
    let channel = match get_text_at(item, "snippet", "channelTitle") {
        Some(c) => c,
        None => return None,
    };
    let mut name = decimal_text((index + 1) as u64);
    name.append(". ");
    name.append(title);
    name.append(" (");
    let length = write_length(minutes, seconds);
    name.append(length.as_str());
    name.append(")");
    let mut value = String::from_str("Uploaded by ");
    value.append(channel);
    Some(MenuField { name, value })
}

/// The menu entries of a details answer.
pub fn read_menu(response: &JsonValue) -> (res: Option<Vec<MenuField>>)
    ensures
        match menu_entries(*response) {
            Some(entries) => res is Some && field_texts(res->0@) == entries,
            None => res is None,
        },
        hms_answer(*response) ==> res is Some,
        res is Some ==> items_of(*response) is Some && res->0@.len() == items_of(
            *response,
        ).unwrap().len(),
        res is Some ==> forall|i: int, h: u32, m: u32, s: u32|
            0 <= i < res->0@.len() && #[trigger] hms_item(items_of(*response).unwrap()[i], h, m, s)
                ==> field_texts(res->0@)[i] == hms_entry(i, items_of(*response).unwrap()[i], h, m, s),
{
    let items = match get_items(response) {
        Some(items) => items,
        None => return None,
    };
    let mut fields: Vec<MenuField> = Vec::new();
    let mut i: usize = 0;
    while i < items.len()
        invariant
            i <= items@.len(),
            items_of(*response) == Some(items@),
            fields@.len() == i,
            forall|k: int| 0 <= k < i ==> (#[trigger] menu_entry(k, items@[k])) is Some,
            forall|k: int|
                0 <= k < i ==> (#[trigger] field_texts(fields@)[k]) == menu_entry(
                    k,
                    items@[k],
                ).unwrap(),
            forall|k: int, h: u32, m: u32, s: u32|
                0 <= k < i && #[trigger] hms_item(items@[k], h, m, s) ==> field_texts(fields@)[k]
                    == hms_entry(k, items@[k], h, m, s),
        decreases items@.len() - i,
    {
        match read_menu_entry(i, &items[i]) {
            Some(f) => {
                let ghost before = fields@;
                fields.push(f);
                assert forall|k: int| 0 <= k < i + 1 implies (#[trigger] field_texts(fields@)[k])
                    == menu_entry(k, items@[k]).unwrap() by {
                    if k < i {
                        assert(fields@[k] == before[k]);
                        assert(field_texts(before)[k] == menu_entry(k, items@[k]).unwrap());
                    }
                }
                assert forall|k: int, h: u32, m: u32, s: u32|
                    0 <= k < i + 1 && #[trigger] hms_item(items@[k], h, m, s) implies field_texts(
                    fields@,
                )[k] == hms_entry(k, items@[k], h, m, s) by {
                    if k < i {
                        assert(fields@[k] == before[k]);
                        assert(field_texts(before)[k] == hms_entry(k, items@[k], h, m, s));
                    }
                }
            },
            None => {
                assert(menu_entry(i as int, items@[i as int]) is None);
                assert(!hms_answer(*response)) by {
                    if hms_answer(*response) {
                        let (h, m, s) = choose|h: u32, m: u32, s: u32|
                            #[trigger] hms_item(items@[i as int], h, m, s);
                        assert(hms_item(items@[i as int], h, m, s));
                    }
                }
                return None;
            },
        }
        i = i + 1;
    }
    assert(field_texts(fields@) =~= Seq::new(
        items@.len(),
        |k: int| menu_entry(k, items@[k]).unwrap(),
    ));
    Some(fields)
}


/// The menu shows every video of the details answer, none left out and none
/// added: one entry per item, in order. Entry `i` is headed by its number
/// `i + 1`, a period, the video's title and its length in brackets, and its
/// line names the video's channel.
pub proof fn lemma_menu_shows_every_item(response: JsonValue)
    requires
        menu_entries(response) is Some,
    ensures
        items_of(response) is Some,
        menu_entries(response).unwrap().len() == items_of(response).unwrap().len(),
        forall|i: int|
            0 <= i < items_of(response).unwrap().len() ==> {
                let item = #[trigger] items_of(response).unwrap()[i];
                let entry = menu_entries(response).unwrap()[i];
                &&& text_at(item, "snippet"@, "title"@) is Some
                &&& text_at(item, "snippet"@, "channelTitle"@) is Some
                &&& has_prefix(
                    entry.0,
                    decimal((i + 1) as nat) + ". "@ + text_at(item, "snippet"@, "title"@).unwrap()
                        + " ("@,
                )
                &&& entry.0.last() == ')'
                &&& entry.1 == "Uploaded by "@ + text_at(item, "snippet"@, "channelTitle"@).unwrap()
            },
{
    reveal_strlit(")");
    let items = items_of(response).unwrap();
    assert forall|i: int| 0 <= i < items.len() implies {
        let item = #[trigger] items[i];
        let entry = menu_entries(response).unwrap()[i];
        &&& text_at(item, "snippet"@, "title"@) is Some
        &&& text_at(item, "snippet"@, "channelTitle"@) is Some
        &&& has_prefix(
            entry.0,
            decimal((i + 1) as nat) + ". "@ + text_at(item, "snippet"@, "title"@).unwrap() + " ("@,
        )
        &&& entry.0.last() == ')'
        &&& entry.1 == "Uploaded by "@ + text_at(item, "snippet"@, "channelTitle"@).unwrap()
    } by {
        assert(menu_entry(i, items[i]) is Some);
        let item = items[i];
        let entry = menu_entries(response).unwrap()[i];
        let head = decimal((i + 1) as nat) + ". "@ + text_at(item, "snippet"@, "title"@).unwrap()
            + " ("@;
        assert(entry.0.subrange(0, head.len() as int) =~= head);
    }
}

/// Every video address the search hands on is a web link, so `?queue`
/// accepts it as one.
pub proof fn lemma_watch_link_is_web_link(id: Seq<char>)
    ensures
        is_web_link(watch_link(id)),
{
    reveal_strlit("https://www.youtube.com/watch?v=");
    reveal_strlit("http");
    let link = watch_link(id);
    assert(link.subrange(0, 4) =~= "http"@);
}

} // verus!
