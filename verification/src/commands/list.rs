//! `?list`: show the first tracks of the guild's queue.

use crate::actions::{effects, Action, Effect};
use crate::text::{
    char_count, contains_text, decimal, decimal_text, has_prefix, lemma_char_count_absent,
    lemma_char_count_concat, lemma_decimal_has_no_line_break, texts,
};
use vstd::prelude::*;
use vstd::string::*;

verus! {

/// How many tracks the listing shows at most.
pub const LISTED_TRACKS: usize = 5;

/// Where `?list` stands between two outside steps.
#[derive(Debug, Clone, Copy, PartialEq, Eq)]
pub enum ListState {
    /// Nothing more to do.
    Finished,
    /// Read the stored titles of the first `n` tracks of the queue, in order,
    /// and hand them back.
    ReadTitles(usize),
}

/// Starts `?list`, given the length of the guild's track queue, or `None`
/// when the bot has no voice call in the guild.
pub fn list(queue_len: Option<usize>) -> (res: (ListState, Vec<Action>))
    ensures
        match queue_len {
            None => res.0 is Finished && effects(res.1@) == seq![
                Effect::Print("Failed to lock Songbird manager"@),
            ],
            Some(n) => if n == 0 {
                res.0 is Finished && effects(res.1@) == seq![Effect::Print("Queue is empty"@)]
            } else {
                res.0 == ListState::ReadTitles(if n < LISTED_TRACKS { n } else { LISTED_TRACKS })
                    && res.1@.len() == 0
            },
        },
{
    match queue_len {
        None => {
            let actions = vec![Action::Print(String::from_str("Failed to lock Songbird manager"))];
            assert(effects(actions@) =~= seq![actions@[0]@]);
            (ListState::Finished, actions)
        },
        Some(n) => if n == 0 {
            let actions = vec![Action::Print(String::from_str("Queue is empty"))];
            assert(effects(actions@) =~= seq![actions@[0]@]);
            (ListState::Finished, actions)
        } else {
            let shown = if n < LISTED_TRACKS { n } else { LISTED_TRACKS };
            (ListState::ReadTitles(shown), Vec::new())
        },
    }
}

/// The line for the track at position `n` (counting from 0) with `title`.
pub open spec fn track_line(n: nat, title: Seq<char>) -> Seq<char> {
    decimal(n) + ". \""@ + title + "\"\n"@
}

/// The lines for `titles`, numbered from 0.
pub open spec fn track_lines(titles: Seq<Seq<char>>) -> Seq<char>
    decreases titles.len(),
{
    if titles.len() == 0 {
        Seq::empty()
    } else {
        track_lines(titles.drop_last()) + track_line((titles.len() - 1) as nat, titles.last())
    }
}

/// The listing of a queue whose tracks carry `titles`: a heading line, then
/// one numbered line for each of the first `LISTED_TRACKS` tracks.
pub open spec fn listing(titles: Seq<Seq<char>>) -> Seq<char> {
    let shown = if titles.len() < LISTED_TRACKS { titles.len() as int } else { LISTED_TRACKS as int };
    "Current track queue:\n"@ + track_lines(titles.take(shown))
}

/// With the titles of the first tracks at hand, the listing sent to the
/// channel.
pub fn list_titles(titles: &Vec<String>) -> (res: Vec<Action>)
    ensures
        effects(res@) == seq![Effect::Say(listing(texts(titles@)))],
{
    let ghost all = texts(titles@);
    let shown = if titles.len() < LISTED_TRACKS { titles.len() } else { LISTED_TRACKS };
    let mut text = String::from_str("Current track queue:\n");
    let ghost head = text@;
    let mut i: usize = 0;
    while i < shown
        invariant
            i <= shown,
            shown <= titles@.len(),
            shown <= LISTED_TRACKS,
            all == texts(titles@),
            text@ == head + track_lines(all.take(i as int)),
        decreases shown - i,
    {
        let ghost before = all.take(i as int);
        let ghost after = all.take(i + 1);
        assert(after.drop_last() =~= before);
        assert(after.last() == titles@[i as int]@);
        let number = decimal_text(i as u64);
        text.append(number.as_str());
        text.append(". \"");
        text.append(titles[i].as_str());
        text.append("\"\n");
        assert(text@ =~= head + track_lines(after));
        i = i + 1;
    }
    let res = vec![Action::Say(text)];
    assert(effects(res@) =~= seq![res@[0]@]);
    res
}


/// The listing of a queue shows only its first `LISTED_TRACKS` tracks: it is
/// the same for any two queues that agree on those.
pub proof fn lemma_listing_shows_first_tracks(a: Seq<Seq<char>>, b: Seq<Seq<char>>)
    requires
        a.len() >= LISTED_TRACKS,
        b.len() >= LISTED_TRACKS,
        a.take(LISTED_TRACKS as int) == b.take(LISTED_TRACKS as int),
    ensures
        listing(a) == listing(b),
{
}

/// The lines for the first `j` titles begin the lines for all of them.
proof fn lemma_track_lines_prefix(ts: Seq<Seq<char>>, j: int)
    requires
        0 <= j <= ts.len(),
    ensures
        has_prefix(track_lines(ts), track_lines(ts.take(j))),
    decreases ts.len(),
{
    let p = track_lines(ts.take(j));
    if j == ts.len() {
        assert(ts.take(j) =~= ts);
        assert(track_lines(ts).subrange(0, p.len() as int) =~= p);
    } else {
        let d = ts.drop_last();
        lemma_track_lines_prefix(d, j);
        assert(d.take(j) =~= ts.take(j));
        assert(track_lines(ts).subrange(0, p.len() as int) =~= track_lines(d).subrange(
            0,
            p.len() as int,
        ));
    }
}

/// Each track line holds exactly one line break when its title holds none.
proof fn lemma_track_line_breaks(n: nat, title: Seq<char>)
    requires
        !title.contains('\n'),
    ensures
        char_count(track_line(n, title), '\n') == 1,
{
    reveal_strlit(". \"");
    reveal_strlit("\"\n");
    let open_quote = ". \""@;
    let close = "\"\n"@;
    lemma_decimal_has_no_line_break(n);
    lemma_char_count_absent(decimal(n), '\n');
    assert(!open_quote.contains('\n')) by {
        assert forall|j: int| 0 <= j < open_quote.len() implies open_quote[j] != '\n' by {
            assert(j == 0 || j == 1 || j == 2);
        }
    }
    lemma_char_count_absent(open_quote, '\n');
    lemma_char_count_absent(title, '\n');
    assert(close.drop_last().drop_last() =~= Seq::<char>::empty());
    assert(char_count(close.drop_last().drop_last(), '\n') == 0);
    assert(close.drop_last().last() == '"');
    assert(char_count(close.drop_last(), '\n') == 0);
    assert(close.last() == '\n');
    assert(char_count(close, '\n') == 1);
    lemma_char_count_concat(decimal(n), open_quote, '\n');
    lemma_char_count_concat(decimal(n) + open_quote, title, '\n');
    lemma_char_count_concat(decimal(n) + open_quote + title, close, '\n');
}

/// The lines for titles without line breaks hold one line break per title.
proof fn lemma_track_lines_breaks(ts: Seq<Seq<char>>)
    requires
        forall|i: int| 0 <= i < ts.len() ==> !(#[trigger] ts[i]).contains('\n'),
    ensures
        char_count(track_lines(ts), '\n') == ts.len(),
    decreases ts.len(),
{
    if ts.len() > 0 {
        let d = ts.drop_last();
        assert forall|i: int| 0 <= i < d.len() implies !(#[trigger] d[i]).contains('\n') by {
            assert(d[i] == ts[i]);
        }
        lemma_track_lines_breaks(d);
        assert(ts.last() == ts[ts.len() - 1]);
        lemma_track_line_breaks((ts.len() - 1) as nat, ts.last());
        lemma_char_count_concat(
            track_lines(d),
            track_line((ts.len() - 1) as nat, ts.last()),
            '\n',
        );
    }
}

/// The line of the `i`-th shown track occurs in the listing.
proof fn lemma_listing_line(titles: Seq<Seq<char>>, i: int)
    requires
        0 <= i < titles.len(),
        i < LISTED_TRACKS,
    ensures
        contains_text(listing(titles), decimal(i as nat) + ". \""@ + titles[i] + "\"\n"@),
{
    let shown = if LISTED_TRACKS <= titles.len() { LISTED_TRACKS as int } else { titles.len() as int };
    let ts = titles.take(shown);
    let heading = "Current track queue:\n"@;
    let all = track_lines(ts);
    assert(listing(titles) == heading + all);
    let line = decimal(i as nat) + ". \""@ + titles[i] + "\"\n"@;
    lemma_track_lines_prefix(ts, i + 1);
    let before = track_lines(ts.take(i));
    assert(ts.take(i + 1).drop_last() =~= ts.take(i));
    assert(ts.take(i + 1).last() == titles[i]);
    assert(track_lines(ts.take(i + 1)) == before + line);
    let b = before.len() as int;
    let l = line.len() as int;
    assert(all.subrange(0, b + l) == before + line);
    assert(all.subrange(b, b + l) =~= (before + line).subrange(b, b + l));
    assert((before + line).subrange(b, b + l) =~= line);
    let k: int = heading.len() + b;
    assert(listing(titles).subrange(k, k + l) =~= all.subrange(b, b + l));
}

/// The heading of the listing is one line.
proof fn lemma_heading_breaks()
    ensures
        char_count("Current track queue:\n"@, '\n') == 1,
{
    let heading = "Current track queue:\n"@;
    reveal_strlit("Current track queue:\n");
    assert(!heading.drop_last().contains('\n')) by {
        assert forall|j: int| 0 <= j < heading.drop_last().len() implies heading.drop_last()[j]
            != '\n' by {
            assert(heading.drop_last()[j] == heading[j]);
        }
    }
    lemma_char_count_absent(heading.drop_last(), '\n');
}

/// The listing has a line for each shown track: for each of the first
/// `LISTED_TRACKS` titles (all of them in a shorter queue), the line
/// `i. "title"` with its line break, `i` counting from 0, occurs in the
/// listing. When none of those titles holds a line break, the listing holds
/// exactly one line more than tracks shown: its heading.
pub proof fn lemma_listing_has_line_per_shown_track(titles: Seq<Seq<char>>)
    ensures
        forall|i: int|
            0 <= i < titles.len() && i < LISTED_TRACKS ==> contains_text(
                listing(titles),
                decimal(i as nat) + ". \""@ + #[trigger] titles[i] + "\"\n"@,
            ),
        (forall|i: int|
            0 <= i < titles.len() && i < LISTED_TRACKS ==> !(#[trigger] titles[i]).contains('\n'))
            ==> char_count(listing(titles), '\n') == (if titles.len() < LISTED_TRACKS {
            titles.len()
        } else {
            LISTED_TRACKS as nat
        }) + 1,
{
    assert forall|i: int| 0 <= i < titles.len() && i < LISTED_TRACKS implies contains_text(
        listing(titles),
        decimal(i as nat) + ". \""@ + #[trigger] titles[i] + "\"\n"@,
    ) by {
        lemma_listing_line(titles, i);
    }
    if forall|i: int|
        0 <= i < titles.len() && i < LISTED_TRACKS ==> !(#[trigger] titles[i]).contains('\n') {
        let shown = if LISTED_TRACKS <= titles.len() { LISTED_TRACKS as int } else { titles.len() as int };
        let ts = titles.take(shown);
        assert forall|i: int| 0 <= i < ts.len() implies !(#[trigger] ts[i]).contains('\n') by {
            assert(ts[i] == titles[i]);
        }
        lemma_track_lines_breaks(ts);
        lemma_heading_breaks();
        lemma_char_count_concat("Current track queue:\n"@, track_lines(ts), '\n');
    }
}

} // verus!
