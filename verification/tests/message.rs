use reciprocity::emote::EmoteAction;
use reciprocity::message::{
    decimal_string, truncate, two_digit_string, Board, MainMessage, MessageError, Reacted,
    SearchMessage,
};
use reciprocity::player::{Playback, PlayerState};
use reciprocity::queue::{Info, Track};

fn titled(title: &str, length: u64) -> Track {
    Track {
        track: format!("handle-{}", title),
        info: Some(Info {
            is_seekable: true,
            is_stream: false,
            identifier: "id".to_string(),
            author: "author".to_string(),
            length,
            position: 0,
            title: title.to_string(),
            uri: "uri".to_string(),
        }),
    }
}

fn untitled() -> Track {
    Track { track: "handle".to_string(), info: None }
}

fn signs(actions: &[EmoteAction]) -> Vec<String> {
    actions.iter().map(|a| a.unicode().to_string()).collect()
}

#[test]
fn numbers_in_decimal() {
    assert_eq!(decimal_string(0), "0");
    assert_eq!(decimal_string(7), "7");
    assert_eq!(decimal_string(10), "10");
    assert_eq!(decimal_string(1234567890), "1234567890");
    assert_eq!(decimal_string(u64::MAX), "18446744073709551615");
    assert_eq!(two_digit_string(0), "00");
    assert_eq!(two_digit_string(9), "09");
    assert_eq!(two_digit_string(10), "10");
    assert_eq!(two_digit_string(123), "123");
}

#[test]
fn durations_as_minutes_and_seconds() {
    assert_eq!(MainMessage::duration_fmt(0), "00:00");
    assert_eq!(MainMessage::duration_fmt(59), "00:59");
    assert_eq!(MainMessage::duration_fmt(60), "01:00");
    assert_eq!(MainMessage::duration_fmt(754), "12:34");
    assert_eq!(MainMessage::duration_fmt(3599), "59:59");
    assert_eq!(MainMessage::duration_fmt(3600), "01:00:00");
    assert_eq!(MainMessage::duration_fmt(3661), "01:01:01");
    assert_eq!(MainMessage::duration_fmt(360_000), "100:00:00");
}

#[test]
fn texts_are_cut_by_characters() {
    assert_eq!(truncate("hello", 10), "hello");
    assert_eq!(truncate("hello", 5), "hello");
    assert_eq!(truncate("hello", 3), "hel");
    assert_eq!(truncate("hello", 0), "");
    assert_eq!(truncate("日本語のタイトル", 3), "日本語");
    assert_eq!(truncate("", 3), "");
}

#[test]
fn search_message_lists_the_tracks_in_a_code_block() {
    let tracks = vec![titled("First", 1), untitled(), titled("Third", 3)];
    assert_eq!(
        SearchMessage::content(&tracks, "query", "requester"),
        "```cs\n[query] requester\r\n1: First\r\n2: Missing Name\r\n3: Third\r\n\n```"
    );
}

#[test]
fn search_message_without_tracks() {
    assert_eq!(SearchMessage::content(&vec![], "q", "n"), "```cs\n[q] n\r\n\n```");
}

#[test]
fn search_message_cuts_names_and_titles_and_lists_ten_tracks() {
    let long_title = "t".repeat(45);
    let tracks: Vec<Track> = (0..12).map(|_| titled(&long_title, 1)).collect();
    let mut expected = String::from("```cs\n[find me] 0123456789abcdef\r\n");
    for i in 1..=10 {
        expected.push_str(&format!("{}: {}\r\n", i, "t".repeat(40)));
    }
    expected.push_str("\n```");
    assert_eq!(SearchMessage::content(&tracks, "find me", "0123456789abcdefXYZ"), expected);
}

#[test]
fn search_message_offers_a_number_for_each_track_but_the_last() {
    assert_eq!(SearchMessage::emotes(0), vec![EmoteAction::Delete]);
    assert_eq!(SearchMessage::emotes(1), vec![EmoteAction::Delete]);
    assert_eq!(
        SearchMessage::emotes(3),
        vec![EmoteAction::Number(1), EmoteAction::Number(2), EmoteAction::Delete]
    );
    let eleven = SearchMessage::emotes(11);
    assert_eq!(eleven.len(), 11);
    assert_eq!(eleven[9], EmoteAction::Number(10));
    assert_eq!(eleven[10], EmoteAction::Delete);
    assert_eq!(SearchMessage::emotes(50), eleven);
}

#[test]
fn a_number_picks_the_track_at_its_place() {
    let tracks = vec![titled("a", 1), titled("b", 1)];
    assert_eq!(SearchMessage::chosen(&tracks, EmoteAction::Number(1)), Some(titled("a", 1)));
    assert_eq!(SearchMessage::chosen(&tracks, EmoteAction::Number(2)), Some(titled("b", 1)));
    assert_eq!(SearchMessage::chosen(&tracks, EmoteAction::Number(0)), None);
    assert_eq!(SearchMessage::chosen(&tracks, EmoteAction::Number(3)), None);
    assert_eq!(SearchMessage::chosen(&tracks, EmoteAction::Delete), None);
}

#[test]
fn board_offers_its_reactions_in_order() {
    assert_eq!(
        MainMessage::emotes(),
        vec![
            EmoteAction::Prev,
            EmoteAction::PlayPause,
            EmoteAction::Next,
            EmoteAction::LoopOne,
            EmoteAction::LoopAll,
            EmoteAction::Join,
            EmoteAction::Leave,
        ]
    );
}

#[test]
fn board_notices_a_missing_reaction() {
    let all = signs(&MainMessage::emotes());
    assert!(!MainMessage::missing_reaction(&all));
    let mut more = all.clone();
    more.push("👍".to_string());
    more.reverse();
    assert!(!MainMessage::missing_reaction(&more));
    for i in 0..all.len() {
        let mut fewer = all.clone();
        fewer.remove(i);
        assert!(MainMessage::missing_reaction(&fewer));
    }
    assert!(MainMessage::missing_reaction(&vec![]));
}

#[test]
fn board_reacts_to_reactions() {
    assert_eq!(MainMessage::on_reaction(true, Some(true), "⏭"), Reacted::Ignore);
    assert_eq!(
        MainMessage::on_reaction(true, Some(false), "⏭"),
        Reacted::Act(Some(EmoteAction::Next))
    );
    assert_eq!(MainMessage::on_reaction(true, Some(false), "👍"), Reacted::Act(None));
    assert_eq!(MainMessage::on_reaction(true, None, "⏭"), Reacted::CheckEmotes);
    assert_eq!(MainMessage::on_reaction(false, Some(false), "⏭"), Reacted::Ignore);
    assert_eq!(MainMessage::on_reaction(false, Some(true), "⏭"), Reacted::CheckEmotes);
    assert_eq!(MainMessage::on_reaction(false, None, "⏭"), Reacted::CheckEmotes);
}

#[test]
fn board_without_players() {
    assert_eq!(MainMessage::content(&vec![], 0), "```cs\r\n[No active Player]```");
}

#[test]
fn board_passes_over_players_of_unknown_owners() {
    let players = vec![Board { name: None, state: PlayerState::new(1) }];
    assert_eq!(MainMessage::content(&players, 0), "```cs\r\n[No active Player]```");
}

#[test]
fn board_of_an_idle_player() {
    let players = vec![Board { name: Some("DJ".to_string()), state: PlayerState::new(1) }];
    assert_eq!(MainMessage::content(&players, 0), "```cs\r\n[DJ] No Song in Playlist\r\n\r\n```");
}

#[test]
fn board_of_a_busy_player() {
    let mut p = reciprocity::player::Player::new(1, 2, 3);
    p.enqueue(
        vec![titled("Now", 185_000), titled("Next", 1), untitled(), titled("Hidden", 1)],
        1_000,
    )
    .unwrap();
    p.playback(Playback::OneLoop);
    let players = vec![
        Board { name: None, state: PlayerState::new(9) },
        Board { name: Some("DJ".to_string()), state: p.state().duplicate() },
    ];
    assert_eq!(
        MainMessage::content(&players, 63_500),
        "```cs\r\n[DJ] 🔂\r\nNow [01:02/03:05]\r\n[1] Next\r\n[2] No Track Name\r\n\r\n```"
    );
}

#[test]
fn board_of_a_player_whose_track_is_unknown() {
    let mut p = reciprocity::player::Player::new(1, 2, 3);
    p.enqueue(vec![untitled()], 0).unwrap();
    let players = vec![Board { name: Some("DJ".to_string()), state: p.state().duplicate() }];
    assert_eq!(
        MainMessage::content(&players, 5_000),
        "```cs\r\n[DJ] \r\nNo Track Name [00:05/--:--]\r\n\r\n```"
    );
}

#[test]
fn search_message_collects_only_what_it_offers() {
    assert!(SearchMessage::offers(3, "1️⃣"));
    assert!(SearchMessage::offers(3, "2️⃣"));
    assert!(!SearchMessage::offers(3, "3️⃣"));
    assert!(SearchMessage::offers(3, "❌"));
    assert!(!SearchMessage::offers(3, "⏭"));
    assert!(!SearchMessage::offers(3, ""));
    assert!(SearchMessage::offers(0, "❌"));
    assert!(!SearchMessage::offers(0, "1️⃣"));
    assert!(SearchMessage::offers(20, "🔟"));
}

#[test]
fn search_gives_the_track_that_was_picked_or_times_out() {
    let tracks = vec![titled("a", 1), titled("b", 1), titled("c", 1)];
    assert_eq!(SearchMessage::search(&tracks, Some("2️⃣")), Ok(titled("b", 1)));
    assert_eq!(SearchMessage::search(&tracks, Some("1️⃣")), Ok(titled("a", 1)));
    assert_eq!(SearchMessage::search(&tracks, Some("4️⃣")), Err(MessageError::Timeout));
    assert_eq!(SearchMessage::search(&tracks, Some("0️⃣")), Err(MessageError::Timeout));
    assert_eq!(SearchMessage::search(&tracks, Some("❌")), Err(MessageError::Timeout));
    assert_eq!(SearchMessage::search(&tracks, Some("junk")), Err(MessageError::Timeout));
    assert_eq!(SearchMessage::search(&tracks, None), Err(MessageError::Timeout));
}

#[test]
fn message_errors_in_words() {
    assert_eq!(
        MessageError::SerenityError("http 500".to_string()).message(),
        "Serenity Error occurred: http 500"
    );
    assert_eq!(MessageError::NoBot(42).message(), "Could not find Bot for Guild: 42");
    assert_eq!(MessageError::NoShard(7).message(), "Could not find Shard for Bot: 7");
    assert_eq!(MessageError::Timeout.message(), "Message Timeout");
    assert_eq!(MessageError::UnexpectedEnd.message(), "Unexpectedly ended");
}
