use music_bot::actions::{Action, MenuField};
use music_bot::json::{get_text_at, JsonMember, JsonValue};
use music_bot::music::commands::search_for_track::{
    search_choice, search_for_track, search_menu, search_results, search_with_key, SearchState,
    MAX_RESULTS,
};
use music_bot::youtube::{
    details_request_url, read_menu, read_result_ids, search_request_url, watch_link_text,
};

fn s(t: &str) -> JsonValue {
    JsonValue::Str(t.to_string())
}

fn obj(members: Vec<(&str, JsonValue)>) -> JsonValue {
    JsonValue::Object(
        members.into_iter().map(|(k, v)| JsonMember { key: k.to_string(), value: v }).collect(),
    )
}

fn search_item(id: &str) -> JsonValue {
    obj(vec![
        ("kind", s("youtube#searchResult")),
        ("id", obj(vec![("kind", s("youtube#video")), ("videoId", s(id))])),
    ])
}

fn details_item(title: &str, channel: &str, duration: &str) -> JsonValue {
    obj(vec![
        ("snippet", obj(vec![("title", s(title)), ("channelTitle", s(channel))])),
        ("contentDetails", obj(vec![("duration", s(duration))])),
    ])
}

fn answer(items: Vec<JsonValue>) -> JsonValue {
    obj(vec![("items", JsonValue::Array(items))])
}

fn strings(v: &[&str]) -> Vec<String> {
    v.iter().map(|x| x.to_string()).collect()
}

#[test]
fn json_lookups() {
    let v = obj(vec![("a", s("x")), ("a", s("y")), ("n", JsonValue::Number("3".to_string()))]);
    assert_eq!(v.get_field("a"), Some(&s("x")));
    assert_eq!(v.get_field("b"), None);
    assert_eq!(v.get_field("n").unwrap().as_text(), None);
    assert_eq!(s("q").get_field("a"), None);
    let arr = JsonValue::Array(vec![s("p"), JsonValue::Null]);
    assert_eq!(arr.get_element(0), Some(&s("p")));
    assert_eq!(arr.get_element(2), None);
    assert_eq!(v.get_element(0), None);
    assert_eq!(arr.as_elements().map(|e| e.len()), Some(2));
    assert_eq!(JsonValue::Bool(true).as_elements(), None);
    let item = search_item("abc");
    assert_eq!(get_text_at(&item, "id", "videoId"), Some("abc"));
    assert_eq!(get_text_at(&item, "id", "channelId"), None);
    assert_eq!(get_text_at(&item, "snippet", "title"), None);
}

#[test]
fn addresses() {
    assert_eq!(
        search_request_url(5, "lofi beats", "KEY"),
        "https://youtube.googleapis.com/youtube/v3/search?part=snippet&type=video&maxResults=5&q=lofi beats&key=KEY"
    );
    assert_eq!(
        details_request_url(&strings(&["a", "b", "c"]), "K"),
        "https://youtube.googleapis.com/youtube/v3/videos?part=snippet,contentDetails&id=a,b,c&key=K"
    );
    assert_eq!(
        details_request_url(&strings(&["only"]), "K"),
        "https://youtube.googleapis.com/youtube/v3/videos?part=snippet,contentDetails&id=only&key=K"
    );
    assert_eq!(
        details_request_url(&Vec::new(), "K"),
        "https://youtube.googleapis.com/youtube/v3/videos?part=snippet,contentDetails&id=&key=K"
    );
    assert_eq!(watch_link_text("dQw4w9WgXcQ"), "https://www.youtube.com/watch?v=dQw4w9WgXcQ");
}

#[test]
fn result_ids_in_order() {
    let a = answer(vec![search_item("x1"), search_item("x2")]);
    assert_eq!(read_result_ids(&a), Some(strings(&["x1", "x2"])));
    assert_eq!(read_result_ids(&answer(vec![])), Some(vec![]));
    let broken = answer(vec![search_item("x1"), obj(vec![("id", obj(vec![]))])]);
    assert_eq!(read_result_ids(&broken), None);
    assert_eq!(read_result_ids(&obj(vec![])), None);
    assert_eq!(read_result_ids(&obj(vec![("items", s("no list"))])), None);
}

#[test]
fn menu_entries_are_numbered_from_one() {
    let a = answer(vec![
        details_item("Song A", "Chan A", "PT4M13S"),
        details_item("Song B", "Chan B", "PT1H0M5S"),
    ]);
    let menu = read_menu(&a).unwrap();
    assert_eq!(
        menu,
        vec![
            MenuField { name: "1. Song A (4:13)".to_string(), value: "Uploaded by Chan A".to_string() },
            MenuField { name: "2. Song B (60:05)".to_string(), value: "Uploaded by Chan B".to_string() },
        ]
    );
    let bad_length = answer(vec![details_item("Song", "Chan", "four minutes")]);
    assert_eq!(read_menu(&bad_length), None);
    let no_title = answer(vec![obj(vec![
        ("snippet", obj(vec![("channelTitle", s("C"))])),
        ("contentDetails", obj(vec![("duration", s("PT1S"))])),
    ])]);
    assert_eq!(read_menu(&no_title), None);
}

#[test]
fn search_start() {
    assert_eq!(search_for_track(""), None);
    let (state, actions) = search_for_track("lofi").unwrap();
    assert!(actions.is_empty());
    assert_eq!(state, SearchState::NeedApiKey { term: "lofi".to_string(), max_results: MAX_RESULTS });
    let (state, _) = search_for_track("lofi,3").unwrap();
    assert_eq!(state, SearchState::NeedApiKey { term: "lofi".to_string(), max_results: 3 });
    let (state, _) = search_for_track("lofi, 3").unwrap();
    assert_eq!(state, SearchState::NeedApiKey { term: "lofi".to_string(), max_results: 5 });
    let (state, _) = search_for_track("lofi,many").unwrap();
    assert_eq!(state, SearchState::NeedApiKey { term: "lofi".to_string(), max_results: 5 });
}

#[test]
fn search_flow() {
    let state = search_with_key("lofi".to_string(), 2, "K".to_string());
    assert_eq!(
        state,
        SearchState::Searching {
            term: "lofi".to_string(),
            key: "K".to_string(),
            url: search_request_url(2, "lofi", "K"),
        }
    );
    let found = answer(vec![search_item("v1"), search_item("v2")]);
    let state = search_results("lofi".to_string(), "K", &found).unwrap();
    assert_eq!(
        state,
        SearchState::FetchingDetails {
            term: "lofi".to_string(),
            choices: strings(&["v1", "v2"]),
            url: details_request_url(&strings(&["v1", "v2"]), "K"),
        }
    );
    assert_eq!(search_results("lofi".to_string(), "K", &obj(vec![])), None);
    let details = answer(vec![details_item("A", "CA", "PT3M"), details_item("B", "CB", "PT2S")]);
    let (state, actions) = search_menu("lofi".to_string(), strings(&["v1", "v2"]), &details).unwrap();
    assert_eq!(
        state,
        SearchState::AwaitingChoice { term: "lofi".to_string(), choices: strings(&["v1", "v2"]) }
    );
    assert_eq!(actions, vec![Action::ShowMenu("Choose song".to_string(), read_menu(&details).unwrap())]);
    assert_eq!(search_menu("lofi".to_string(), vec![], &obj(vec![])), None);
}

#[test]
fn answers_to_the_menu() {
    let choices = strings(&["v1", "v2", "v3"]);
    assert_eq!(search_choice("q", &choices, None), vec![Action::Reply("Timed Out".to_string())]);
    assert_eq!(
        search_choice("q", &choices, Some("2".to_string())),
        vec![
            Action::DeleteMenu,
            Action::Print(
                "Video ID chosen for query |q| is: v2 - passing on https://www.youtube.com/watch?v=v2 to track queue"
                    .to_string()
            ),
            Action::QueueLink("https://www.youtube.com/watch?v=v2".to_string()),
        ]
    );
    assert_eq!(search_choice("q", &choices, Some("3".to_string())), vec![Action::DeleteMenu]);
    assert_eq!(search_choice("q", &choices, Some("0".to_string())), vec![Action::DeleteMenu]);
    assert_eq!(search_choice("q", &choices, Some("two".to_string())), vec![Action::DeleteMenu]);
    assert_eq!(search_choice("q", &choices, Some(" 1".to_string())), vec![Action::DeleteMenu]);
}

#[test]
fn answering_with_an_entry_number_picks_its_video() {
    let details = answer(vec![
        details_item("A", "CA", "PT1M"),
        details_item("B", "CB", "PT2M"),
        details_item("C", "CC", "PT3M"),
    ]);
    let choices = strings(&["v1", "v2", "v3"]);
    let menu = read_menu(&details).unwrap();
    for (j, field) in menu.iter().enumerate() {
        let number = field.name.split('.').next().unwrap().to_string();
        assert_eq!(number, (j + 1).to_string());
        let actions = search_choice("q", &choices, Some(number));
        if j + 1 < choices.len() {
            assert_eq!(actions[2], Action::QueueLink(watch_link_text(&choices[j])));
        } else {
            assert_eq!(actions, vec![Action::DeleteMenu]);
        }
    }
}

#[test]
fn chosen_links_are_web_links() {
    assert!(music_bot::text::web_link(&watch_link_text("abc")));
    assert!(music_bot::text::web_link(&watch_link_text("")));
}

#[test]
fn menu_of_hour_minute_second_lengths() {
    let details = answer(vec![
        details_item("A", "CA", "PT1H2M3S"),
        details_item("B", "CB", "PT0H10M0S"),
        details_item("C", "CC", "PT2H0M45S"),
    ]);
    let (_, actions) = search_menu("q".to_string(), strings(&["a", "b", "c"]), &details).unwrap();
    assert_eq!(
        actions,
        vec![Action::ShowMenu(
            "Choose song".to_string(),
            vec![
                MenuField { name: "1. A (62:03)".to_string(), value: "Uploaded by CA".to_string() },
                MenuField { name: "2. B (10:00)".to_string(), value: "Uploaded by CB".to_string() },
                MenuField { name: "3. C (120:45)".to_string(), value: "Uploaded by CC".to_string() },
            ]
        )]
    );
}
