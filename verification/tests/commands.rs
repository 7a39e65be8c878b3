use music_bot::actions::Action;
use music_bot::commands::bind_playlist::bind_playlist;
use music_bot::commands::join::{join, join_connected, join_named, JoinState};
use music_bot::commands::leave::leave;
use music_bot::commands::list::{list, list_titles, ListState, LISTED_TRACKS};
use music_bot::commands::play::{play, play_in_call, play_title, PlayState};
use music_bot::commands::pop::pop;
use music_bot::commands::queue::{now_playing, queue, queue_in_call, queue_title, QueueState};
use music_bot::commands::search_for_track as first_search;
use music_bot::json::{JsonMember, JsonValue};
use music_bot::music::commands::leave_voice::leave_voice;
use music_bot::music::commands::pop_queue::pop_queue;

fn say(t: &str) -> Action {
    Action::Say(t.to_string())
}

fn print(t: &str) -> Action {
    Action::Print(t.to_string())
}

fn strings(v: &[&str]) -> Vec<String> {
    v.iter().map(|x| x.to_string()).collect()
}

#[test]
fn pop_reports() {
    assert_eq!(pop(None), vec![print("Failed to lock Songbird manager")]);
    assert_eq!(pop(Some(0)), vec![print("Could not skip current track")]);
    assert_eq!(pop(Some(3)), vec![say("Skipping current track")]);
}

#[test]
fn list_steps() {
    assert_eq!(list(None), (ListState::Finished, vec![print("Failed to lock Songbird manager")]));
    assert_eq!(list(Some(0)), (ListState::Finished, vec![print("Queue is empty")]));
    assert_eq!(list(Some(2)), (ListState::ReadTitles(2), vec![]));
    assert_eq!(list(Some(9)), (ListState::ReadTitles(LISTED_TRACKS), vec![]));
    assert_eq!(
        list_titles(&strings(&["a", "b"])),
        vec![say("Current track queue:\n0. \"a\"\n1. \"b\"\n")]
    );
    assert_eq!(list_titles(&vec![]), vec![say("Current track queue:\n")]);
}

#[test]
fn listing_shows_only_the_first_five() {
    let six = strings(&["t0", "t1", "t2", "t3", "t4", "t5"]);
    let five = strings(&["t0", "t1", "t2", "t3", "t4"]);
    assert_eq!(list_titles(&six), list_titles(&five));
    assert_eq!(
        list_titles(&five),
        vec![say("Current track queue:\n0. \"t0\"\n1. \"t1\"\n2. \"t2\"\n3. \"t3\"\n4. \"t4\"\n")]
    );
}

#[test]
fn play_steps() {
    assert_eq!(play(""), (PlayState::Finished, vec![say("You must provide a URL to a playable track")]));
    assert_eq!(
        play("https://x.y/z extra"),
        (PlayState::CheckCall { url: "https://x.y/z".to_string() }, vec![])
    );
    assert_eq!(
        play_in_call("https://x".to_string(), false),
        (PlayState::Finished, vec![say("Could not play track, are you in a voice channel?")])
    );
    assert_eq!(
        play_in_call("lofi".to_string(), true),
        (PlayState::Finished, vec![say("Please include a link starting with http")])
    );
    assert_eq!(
        play_in_call("https://x".to_string(), true),
        (
            PlayState::FetchTitle { url: "https://x".to_string() },
            vec![Action::EnqueueTrack("https://x".to_string())]
        )
    );
    assert_eq!(
        play_title(Some(Some("Song".to_string()))),
        vec![say("Playing Song"), print("Enqueueing audio - Song")]
    );
    assert_eq!(
        play_title(Some(None)),
        vec![say("Playing audio"), print("Enqueueing audio - audio")]
    );
    assert_eq!(play_title(None), vec![print("Playing audio - UNKNOWN TITLE")]);
}

#[test]
fn queue_steps() {
    assert_eq!(queue(""), (QueueState::Finished, vec![say("You must provide a URL to a playable track")]));
    assert_eq!(queue("http://a"), (QueueState::CheckCall { url: "http://a".to_string() }, vec![]));
    assert_eq!(
        queue_in_call("http://a".to_string(), false),
        (
            QueueState::Restart,
            vec![
                say("**Warning: Calling ?queue before ?join implicitly calls ?join for you, this can lead to unexpected behaviour**"),
                Action::JoinAuthorChannel,
            ]
        )
    );
    assert_eq!(
        queue_in_call("a".to_string(), true),
        (QueueState::Finished, vec![say("Please include a link in the form: \"http(s)://[website]\"")])
    );
    assert_eq!(
        queue_in_call("http://a".to_string(), true),
        (QueueState::FetchTitle { url: "http://a".to_string() }, vec![])
    );
}

#[test]
fn queued_titles() {
    let url = "http://a".to_string();
    assert_eq!(
        queue_title(url.clone(), Some(Some("Song".to_string())), 2),
        vec![
            say("Added to queue: \"Song\""),
            print("Enqueueing audio - Song"),
            Action::EnqueueTitledTrack(url.clone(), "Song".to_string()),
        ]
    );
    assert_eq!(
        queue_title(url.clone(), Some(None), 0),
        vec![
            print("Enqueueing audio - track"),
            Action::EnqueueTitledTrack(url.clone(), "track".to_string()),
        ]
    );
    assert_eq!(
        queue_title(url.clone(), None, 4),
        vec![
            print("Enqueueing audio - Could not fetch metadata"),
            Action::EnqueueTitledTrack(url.clone(), "Next Track".to_string()),
        ]
    );
}

#[test]
fn now_playing_announcements() {
    assert_eq!(now_playing("Song", &vec![]), vec![]);
    assert_eq!(now_playing("Song", &vec![false]), vec![]);
    assert_eq!(
        now_playing("Song", &vec![true, false, true]),
        vec![
            print("Playing new song"),
            say("Now playing \"Song\""),
            print("Playing new song"),
            say("Now playing \"Song\""),
        ]
    );
}

#[test]
fn join_steps() {
    assert_eq!(
        join(None),
        (JoinState::Finished, vec![Action::Reply("Join a voice channel before calling ?join".to_string())])
    );
    assert_eq!(join(Some(77)), (JoinState::Connect(77), vec![]));
    assert_eq!(join_connected(77, false), (JoinState::Finished, vec![]));
    assert_eq!(
        join_connected(77, true),
        (JoinState::NameChannel(77), vec![Action::AttachTrackErrorNotifier])
    );
    assert_eq!(
        join_named(Some("General".to_string())),
        vec![Action::LogJoinedChannel("General".to_string())]
    );
    assert_eq!(join_named(None), vec![]);
}

#[test]
fn leave_steps() {
    assert_eq!(leave(true), vec![Action::LeaveCall, print("Left channel")]);
    assert_eq!(leave(false), vec![]);
    assert_eq!(leave_voice(Ok(())), vec![print("Left and removed")]);
    assert_eq!(
        leave_voice(Err("not connected".to_string())),
        vec![print("Could not leave and remove: not connected")]
    );
}

#[test]
fn pop_queue_skips_only_without_a_number() {
    assert_eq!(pop_queue(None, ""), vec![print("Failed to lock Songbird manager")]);
    assert_eq!(
        pop_queue(Some(0), "2"),
        vec![print("Could not skip current track, queue is empty"), say("Queue is empty, cannot skip")]
    );
    assert_eq!(pop_queue(Some(3), ""), vec![Action::SkipTrack, say("Skipping 1 track(s)")]);
    assert_eq!(pop_queue(Some(3), "four"), vec![Action::SkipTrack, say("Skipping 1 track(s)")]);
    assert_eq!(pop_queue(Some(3), "4"), vec![say("Skipping 4 track(s)")]);
    assert_eq!(pop_queue(Some(3), "12 extra"), vec![say("Skipping 12 track(s)")]);
}

#[test]
fn bind_playlist_ids() {
    let channels = "https://www.googleapis.com/youtube/v3/channels?part=contentDetails".to_string();
    assert_eq!(
        bind_playlist(""),
        ("PLSVx1ksr-QK3hDUzO3s1zUNgcq4akDOA8".to_string(), channels.clone())
    );
    assert_eq!(bind_playlist("PLabc more"), ("PLabc".to_string(), channels));
}

fn s(t: &str) -> JsonValue {
    JsonValue::Str(t.to_string())
}

fn obj(members: Vec<(&str, JsonValue)>) -> JsonValue {
    JsonValue::Object(
        members.into_iter().map(|(k, v)| JsonMember { key: k.to_string(), value: v }).collect(),
    )
}

fn result(id: &str, title: &str, channel: &str) -> JsonValue {
    obj(vec![
        ("id", obj(vec![("videoId", s(id))])),
        ("snippet", obj(vec![("title", s(title)), ("channelTitle", s(channel))])),
    ])
}

#[test]
fn first_search_form() {
    assert_eq!(
        first_search::search_for_track(""),
        (
            first_search::SearchState::Finished,
            vec![Action::PrintErr("Error parsing args as a search query".to_string())]
        )
    );
    assert_eq!(
        first_search::search_for_track("lofi beats"),
        (first_search::SearchState::NeedApiKey { term: "lofi beats".to_string() }, vec![])
    );
    assert_eq!(
        first_search::search_with_key("lofi".to_string(), "K"),
        first_search::SearchState::Searching {
            term: "lofi".to_string(),
            url: "https://youtube.googleapis.com/youtube/v3/search?part=snippet&type=video&maxResults=5&q=lofi&key=K"
                .to_string(),
        }
    );
    let answer = obj(vec![(
        "items",
        JsonValue::Array(vec![result("v1", "T1", "C1"), result("v2", "T2", "C2")]),
    )]);
    let (link, choices) = first_search::search_results(&answer).unwrap();
    assert_eq!(link, "https://www.youtube.com/watch?v=v1");
    assert_eq!(
        choices,
        vec![
            first_search::TrackChoice {
                title: "T1".to_string(),
                channel: "C1".to_string(),
                id: "v1".to_string()
            },
            first_search::TrackChoice {
                title: "T2".to_string(),
                channel: "C2".to_string(),
                id: "v2".to_string()
            },
        ]
    );
    let empty = obj(vec![("items", JsonValue::Array(vec![]))]);
    assert_eq!(first_search::search_results(&empty), None);
    let partial = obj(vec![("items", JsonValue::Array(vec![obj(vec![("id", obj(vec![("videoId", s("v"))]))])]))]);
    assert_eq!(first_search::search_results(&partial), None);
}
