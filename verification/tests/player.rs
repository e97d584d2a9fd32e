use reciprocity::player::{
    joined, provider_result, Disconnect, Found, Outcome, PlayState, Playback, Player, PlayerError,
    PlayerState, Playing, ProviderCall, ProviderError,
};
use reciprocity::queue::{Track, TrackQueue};

fn song(name: &str) -> Track {
    Track { track: name.to_string(), info: None }
}

fn list(q: &TrackQueue) -> Vec<String> {
    q.to_vec().into_iter().map(|t| t.track).collect()
}

fn player() -> Player {
    Player::new(7, 11, 13)
}

fn playing(player: &Player) -> Option<String> {
    player.state().current.as_ref().map(|p| p.track.track.clone())
}

fn songs(from: usize, count: usize) -> Vec<Track> {
    (from..from + count).map(|i| song(&format!("s{}", i))).collect()
}

/// A player with `current` playing and 100 tracks in its playlist.
fn player_with_full_playlist() -> Player {
    let mut p = player();
    p.enqueue(vec![song("current")], 0).unwrap();
    p.enqueue(songs(0, 100), 0).unwrap();
    assert_eq!(p.state().playlist.len(), 100);
    p
}

#[test]
fn new_player_is_empty_and_plays_normally() {
    let p = player();
    assert_eq!(p.get_bot(), 7);
    assert_eq!(p.get_channel(), 11);
    assert_eq!(p.get_guild(), 13);
    let s = p.state();
    assert!(s.current.is_none());
    assert!(s.playlist.is_empty());
    assert!(s.history.is_empty());
    assert_eq!(s.play_state, PlayState::Play);
    assert_eq!(s.playback, Playback::Normal);
}

#[test]
fn enqueue_on_an_empty_player_starts_the_first_track() {
    let mut p = player();
    let out = p.enqueue(vec![song("a"), song("b")], 500).unwrap();
    assert_eq!(out, Outcome { published: 1, call: Some(ProviderCall::Play(song("a"))) });
    assert_eq!(
        p.state().current,
        Some(Playing { elapsed: 0, since: 500, track: song("a") })
    );
    assert_eq!(list(&p.state().playlist), vec!["b"]);
    assert!(p.state().history.is_empty());
    assert_eq!(p.state().play_state, PlayState::Play);
}

#[test]
fn enqueue_while_playing_only_publishes() {
    let mut p = player();
    p.enqueue(vec![song("a")], 0).unwrap();
    let out = p.enqueue(vec![song("b"), song("c")], 9).unwrap();
    assert_eq!(out, Outcome { published: 1, call: None });
    assert_eq!(playing(&p), Some("a".to_string()));
    assert_eq!(list(&p.state().playlist), vec!["b", "c"]);
}

#[test]
fn enqueue_of_nothing_while_playing_publishes() {
    let mut p = player();
    p.enqueue(vec![song("a")], 0).unwrap();
    assert_eq!(p.enqueue(vec![], 1), Ok(Outcome { published: 1, call: None }));
}

#[test]
fn enqueue_of_nothing_on_an_empty_player_stops() {
    let mut p = player();
    assert_eq!(
        p.enqueue(vec![], 1),
        Ok(Outcome { published: 0, call: Some(ProviderCall::Stop) })
    );
    assert!(p.state().current.is_none());
}

#[test]
fn enqueue_into_a_full_playlist_fails_and_changes_nothing() {
    let mut p = player_with_full_playlist();
    let before = list(&p.state().playlist);
    let r = p.enqueue(vec![song("x"), song("y"), song("z")], 5);
    assert_eq!(r, Err(PlayerError::PlaylistFull(song("x"))));
    assert_eq!(list(&p.state().playlist), before);
    assert_eq!(playing(&p), Some("current".to_string()));
    assert!(p.state().history.is_empty());
}

#[test]
fn enqueue_drops_what_does_not_fit_after_the_first_track() {
    let mut p = player();
    p.enqueue(vec![song("current")], 0).unwrap();
    p.enqueue(songs(0, 98), 0).unwrap();
    let out = p.enqueue(vec![song("x"), song("y"), song("z"), song("w")], 0);
    assert_eq!(out, Ok(Outcome { published: 1, call: None }));
    let playlist = list(&p.state().playlist);
    assert_eq!(playlist.len(), 100);
    assert_eq!(playlist[97], "s97");
    assert_eq!(playlist[98], "x");
    assert_eq!(playlist[99], "y");
}

#[test]
fn skip_zero_is_a_noop() {
    let mut p = player();
    p.enqueue(vec![song("a"), song("b")], 0).unwrap();
    let out = p.skip(0);
    assert_eq!(out, Outcome { published: 0, call: None });
    assert_eq!(playing(&p), Some("a".to_string()));
    assert_eq!(list(&p.state().playlist), vec!["b"]);
    assert!(p.state().history.is_empty());
}

#[test]
fn back_skip_zero_is_a_noop() {
    let mut p = player();
    p.enqueue(vec![song("a"), song("b")], 0).unwrap();
    p.skip(1);
    p.track_end(1);
    let out = p.back_skip(0, 2);
    assert_eq!(out, Outcome { published: 0, call: None });
    assert_eq!(playing(&p), Some("b".to_string()));
    assert_eq!(list(&p.state().history), vec!["a"]);
    assert!(p.state().playlist.is_empty());
}

#[test]
fn skip_one_moves_the_current_track_to_the_history_and_stops() {
    let mut p = player();
    p.enqueue(vec![song("a")], 0).unwrap();
    let out = p.skip(1);
    assert_eq!(out, Outcome { published: 1, call: Some(ProviderCall::Stop) });
    assert!(p.state().current.is_none());
    assert_eq!(list(&p.state().history), vec!["a"]);
    let end = p.track_end(10);
    assert_eq!(end, Outcome { published: 0, call: Some(ProviderCall::Stop) });
    assert!(p.state().current.is_none());
    assert_eq!(list(&p.state().history), vec!["a"]);
}

#[test]
fn skip_three_puts_two_queued_tracks_away_too() {
    let mut p = player();
    p.enqueue(vec![song("a"), song("b"), song("c"), song("d")], 0).unwrap();
    let out = p.skip(3);
    assert_eq!(out, Outcome { published: 1, call: Some(ProviderCall::Stop) });
    assert!(p.state().current.is_none());
    assert_eq!(list(&p.state().history), vec!["c", "b", "a"]);
    assert_eq!(list(&p.state().playlist), vec!["d"]);
    let next = p.track_end(3);
    assert_eq!(next, Outcome { published: 1, call: Some(ProviderCall::Play(song("d"))) });
}

#[test]
fn skip_past_the_end_of_the_playlist_stops_early() {
    let mut p = player();
    p.enqueue(vec![song("a"), song("b")], 0).unwrap();
    let out = p.skip(usize::MAX);
    assert_eq!(out, Outcome { published: 1, call: Some(ProviderCall::Stop) });
    assert_eq!(list(&p.state().history), vec!["b", "a"]);
    assert!(p.state().playlist.is_empty());
}

#[test]
fn skip_without_a_track_changes_nothing_but_stops() {
    let mut p = player();
    let out = p.skip(2);
    assert_eq!(out, Outcome { published: 0, call: Some(ProviderCall::Stop) });
    assert!(p.state().history.is_empty());
}

#[test]
fn skip_while_all_tracks_loop_rotates_the_playlist() {
    let mut p = player();
    p.enqueue(vec![song("a"), song("b"), song("c")], 0).unwrap();
    p.playback(Playback::AllLoop);
    let out = p.skip(2);
    assert_eq!(out, Outcome { published: 1, call: Some(ProviderCall::Stop) });
    assert!(p.state().current.is_none());
    assert_eq!(list(&p.state().playlist), vec!["c", "a", "b"]);
    assert!(p.state().history.is_empty());
}

#[test]
fn history_drops_its_oldest_track_when_full() {
    let mut p = player();
    p.enqueue(songs(0, 100), 0).unwrap();
    p.skip(100);
    assert_eq!(p.state().history.len(), 100);
    assert_eq!(p.state().history.get(0), Some(&song("s99")));
    assert_eq!(p.state().history.get(99), Some(&song("s0")));
    p.enqueue(vec![song("late")], 0).unwrap();
    p.skip(1);
    assert_eq!(p.state().history.len(), 100);
    assert_eq!(p.state().history.get(0), Some(&song("late")));
    assert_eq!(p.state().history.get(99), Some(&song("s1")));
}

#[test]
fn back_skip_restarts_the_current_track_from_the_playlist() {
    let mut p = player();
    p.enqueue(vec![song("a"), song("b"), song("c")], 0).unwrap();
    p.skip(1);
    p.track_end(1);
    assert_eq!(playing(&p), Some("b".to_string()));
    let out = p.back_skip(1, 2);
    assert_eq!(out, Outcome { published: 1, call: Some(ProviderCall::Stop) });
    assert!(p.state().current.is_none());
    assert_eq!(list(&p.state().playlist), vec!["a", "b", "c"]);
    assert!(p.state().history.is_empty());
    let next = p.track_end(3);
    assert_eq!(next.call, Some(ProviderCall::Play(song("a"))));
}

#[test]
fn back_skip_without_a_current_track_plays_at_once() {
    let mut p = player();
    p.enqueue(vec![song("a"), song("b")], 0).unwrap();
    p.skip(2);
    assert_eq!(list(&p.state().history), vec!["b", "a"]);
    let out = p.back_skip(5, 77);
    assert_eq!(out, Outcome { published: 2, call: Some(ProviderCall::Play(song("a"))) });
    assert_eq!(
        p.state().current,
        Some(Playing { elapsed: 0, since: 77, track: song("a") })
    );
    assert_eq!(list(&p.state().playlist), vec!["b"]);
    assert!(p.state().history.is_empty());
}

#[test]
fn back_skip_on_an_empty_player_only_stops() {
    let mut p = player();
    let out = p.back_skip(3, 1);
    assert_eq!(out, Outcome { published: 0, call: Some(ProviderCall::Stop) });
}

#[test]
fn back_skip_into_a_full_playlist_drops_its_last_track() {
    let mut p = player_with_full_playlist();
    let out = p.back_skip(1, 0);
    assert_eq!(out, Outcome { published: 1, call: Some(ProviderCall::Stop) });
    assert_eq!(p.state().playlist.len(), 100);
    assert_eq!(p.state().playlist.get(0), Some(&song("current")));
    assert_eq!(p.state().playlist.get(1), Some(&song("s0")));
    assert_eq!(p.state().playlist.get(99), Some(&song("s98")));
}

#[test]
fn play_next_in_normal_mode_moves_on() {
    let mut p = player();
    p.enqueue(vec![song("a"), song("b")], 0).unwrap();
    let out = p.play_next(40);
    assert_eq!(out, Outcome { published: 1, call: Some(ProviderCall::Play(song("b"))) });
    assert_eq!(
        p.state().current,
        Some(Playing { elapsed: 0, since: 40, track: song("b") })
    );
    assert_eq!(list(&p.state().history), vec!["a"]);
}

#[test]
fn play_next_while_all_tracks_loop_requeues_the_track() {
    let mut p = player();
    p.enqueue(vec![song("a"), song("b")], 0).unwrap();
    p.playback(Playback::AllLoop);
    let out = p.play_next(1);
    assert_eq!(out.call, Some(ProviderCall::Play(song("b"))));
    assert_eq!(list(&p.state().playlist), vec!["a"]);
    assert!(p.state().history.is_empty());
    let again = p.play_next(2);
    assert_eq!(again.call, Some(ProviderCall::Play(song("a"))));
    assert_eq!(list(&p.state().playlist), vec!["b"]);
}

#[test]
fn play_next_while_one_track_loops_restarts_it() {
    let mut p = player();
    p.enqueue(vec![song("a"), song("b")], 0).unwrap();
    p.update(5000, 10);
    p.playback(Playback::OneLoop);
    let out = p.play_next(99);
    assert_eq!(out, Outcome { published: 1, call: Some(ProviderCall::Play(song("a"))) });
    assert_eq!(
        p.state().current,
        Some(Playing { elapsed: 0, since: 99, track: song("a") })
    );
    assert_eq!(list(&p.state().playlist), vec!["b"]);
    assert!(p.state().history.is_empty());
}

#[test]
fn play_next_resumes_a_paused_player_when_it_takes_a_track() {
    let mut p = player();
    p.pause(Ok(())).unwrap();
    assert_eq!(p.state().play_state, PlayState::Pause);
    p.enqueue(vec![song("a")], 0).unwrap();
    assert_eq!(p.state().play_state, PlayState::Play);
}

#[test]
fn resume_and_pause_follow_the_provider() {
    let mut p = player();
    assert_eq!(p.pause(Ok(())), Ok(Outcome { published: 1, call: None }));
    assert_eq!(p.state().play_state, PlayState::Pause);
    assert_eq!(
        p.resume(Err(ProviderError::Other("no".to_string()))),
        Err(PlayerError::Lavalink(ProviderError::Other("no".to_string())))
    );
    assert_eq!(p.state().play_state, PlayState::Pause);
    assert_eq!(p.resume(Ok(())), Ok(Outcome { published: 1, call: None }));
    assert_eq!(p.state().play_state, PlayState::Play);
    assert_eq!(
        p.pause(Err(ProviderError::ConnectionClosed)),
        Err(PlayerError::Lavalink(ProviderError::ConnectionClosed))
    );
    assert_eq!(p.state().play_state, PlayState::Play);
}

#[test]
fn dynamic_pause_resume_toggles() {
    let mut p = player();
    assert_eq!(p.pause_resume_call(), ProviderCall::Pause);
    assert_eq!(p.dynamic_pause_resume(Ok(())), Ok(Outcome { published: 1, call: None }));
    assert_eq!(p.state().play_state, PlayState::Pause);
    assert_eq!(p.pause_resume_call(), ProviderCall::Resume);
    assert_eq!(p.dynamic_pause_resume(Ok(())), Ok(Outcome { published: 1, call: None }));
    assert_eq!(p.state().play_state, PlayState::Play);
    assert!(p.dynamic_pause_resume(Err(ProviderError::ConnectionClosed)).is_err());
    assert_eq!(p.state().play_state, PlayState::Play);
}

#[test]
fn asking_for_the_same_mode_twice_returns_to_normal() {
    let mut p = player();
    assert_eq!(p.playback(Playback::AllLoop), Outcome { published: 1, call: None });
    assert_eq!(p.state().playback, Playback::AllLoop);
    assert_eq!(p.playback(Playback::AllLoop), Outcome { published: 1, call: None });
    assert_eq!(p.state().playback, Playback::Normal);
    p.playback(Playback::OneLoop);
    p.playback(Playback::OneLoop);
    assert_eq!(p.state().playback, Playback::Normal);
    p.playback(Playback::Normal);
    p.playback(Playback::Normal);
    assert_eq!(p.state().playback, Playback::Normal);
}

#[test]
fn asking_for_another_mode_switches_to_it() {
    let mut p = player();
    p.playback(Playback::AllLoop);
    p.playback(Playback::OneLoop);
    assert_eq!(p.state().playback, Playback::OneLoop);
}

#[test]
fn jump_needs_a_current_track() {
    let mut p = player();
    assert_eq!(p.jump(1500), Err(PlayerError::NoCurrentSong));
    p.enqueue(vec![song("a")], 0).unwrap();
    assert_eq!(p.jump(1500), Ok(ProviderCall::Seek(1500)));
}

#[test]
fn clear_queue_publishes_only_if_it_held_a_track() {
    let mut p = player();
    assert_eq!(p.clear_queue(), Outcome { published: 0, call: None });
    p.enqueue(vec![song("a"), song("b"), song("c")], 0).unwrap();
    assert_eq!(p.clear_queue(), Outcome { published: 1, call: None });
    assert!(p.state().playlist.is_empty());
    assert_eq!(playing(&p), Some("a".to_string()));
    assert_eq!(p.clear_queue(), Outcome { published: 0, call: None });
}

#[test]
fn update_replaces_the_position_of_the_current_track() {
    let mut p = player();
    assert_eq!(p.update(100, 5), Outcome { published: 0, call: None });
    p.enqueue(vec![song("a")], 0).unwrap();
    assert_eq!(p.update(2500, 60), Outcome { published: 1, call: None });
    assert_eq!(
        p.state().current,
        Some(Playing { elapsed: 2500, since: 60, track: song("a") })
    );
    assert_eq!(p.update(2500, 60), Outcome { published: 1, call: None });
}

#[test]
fn track_start_changes_nothing() {
    let mut p = player();
    p.enqueue(vec![song("a"), song("b")], 3).unwrap();
    p.track_start();
    assert_eq!(playing(&p), Some("a".to_string()));
    assert_eq!(list(&p.state().playlist), vec!["b"]);
}

#[test]
fn elapsed_time_is_derived_from_the_capture() {
    let p = Playing { elapsed: 1500, since: 10_000, track: song("a") };
    assert_eq!(p.elapsed_at(10_000), 1500);
    assert_eq!(p.elapsed_at(12_250), 3750);
    assert_eq!(p.elapsed_at(9_000), 1500);
    let late = Playing { elapsed: u64::MAX - 5, since: 0, track: song("a") };
    assert_eq!(late.elapsed_at(100), u64::MAX);
    assert_eq!(p.duplicate(), p);
}

#[test]
fn bounds_hold_after_many_commands() {
    let mut p = player();
    for round in 0..40usize {
        let _ = p.enqueue(songs(round * 7, 7), round as u64);
        p.skip(round % 5);
        p.back_skip(round % 3, round as u64);
        if round % 4 == 0 {
            p.playback(Playback::AllLoop);
        }
        p.track_end(round as u64);
        assert!(p.state().playlist.len() <= 100);
        assert!(p.state().history.len() <= 100);
    }
    let _ = p.enqueue(songs(0, 300), 0);
    assert!(p.state().playlist.len() <= 100);
    p.skip(500);
    assert!(p.state().history.len() <= 100);
    p.back_skip(500, 0);
    assert!(p.state().playlist.len() <= 100);
}

#[test]
fn snapshot_copy_is_independent() {
    let mut p = player();
    p.enqueue(vec![song("a"), song("b")], 4).unwrap();
    let copy: PlayerState = p.state().duplicate();
    p.skip(2);
    assert_eq!(copy.current, Some(Playing { elapsed: 0, since: 4, track: song("a") }));
    assert_eq!(list(&copy.playlist), vec!["b"]);
    assert!(copy.history.is_empty());
    assert_eq!(copy.bot, 7);
    assert_eq!(copy.play_state, PlayState::Play);
    assert_eq!(copy.playback, Playback::Normal);
}

#[test]
fn play_state_knows_whether_it_is_paused() {
    assert!(!PlayState::Play.is_paused());
    assert!(PlayState::Pause.is_paused());
    assert_eq!(PlayState::Play.label(), "");
    assert_eq!(PlayState::Pause.label(), "Paused ");
}

#[test]
fn playback_labels() {
    assert_eq!(Playback::Normal.label(), "");
    assert_eq!(Playback::AllLoop.label(), "🔁");
    assert_eq!(Playback::OneLoop.label(), "🔂");
}

#[test]
fn only_a_closed_provider_connection_is_fatal() {
    let closed = PlayerError::Lavalink(ProviderError::ConnectionClosed);
    let other = PlayerError::Lavalink(ProviderError::Other("timeout".to_string()));
    assert!(closed.is_fatal());
    assert!(closed.is_lavalink_error());
    assert!(!other.is_fatal());
    assert!(other.is_lavalink_error());
    for e in [
        PlayerError::SongbirdJoin("x".to_string()),
        PlayerError::SongbirdLeave("x".to_string()),
        PlayerError::NotInAVoiceChannel,
        PlayerError::PlaylistFull(song("a")),
        PlayerError::SearchFailed("x".to_string()),
        PlayerError::NoCurrentSong,
    ] {
        assert!(!e.is_fatal());
        assert!(!e.is_lavalink_error());
    }
}

#[test]
fn errors_in_words() {
    assert_eq!(
        PlayerError::Lavalink(ProviderError::ConnectionClosed).message(),
        "LavalinkError occurred: ConnectionClosed"
    );
    assert_eq!(
        PlayerError::Lavalink(ProviderError::Other("boom".to_string())).message(),
        "LavalinkError occurred: boom"
    );
    assert_eq!(
        PlayerError::SongbirdJoin("denied".to_string()).message(),
        "Error joining Channel: denied"
    );
    assert_eq!(
        PlayerError::SongbirdLeave("denied".to_string()).message(),
        "Error leaving Channel: denied"
    );
    assert_eq!(PlayerError::NotInAVoiceChannel.message(), "Not in a Voice Channel");
    assert_eq!(
        PlayerError::PlaylistFull(song("a")).message(),
        "Playlist is full: CapacityError: insufficient capacity"
    );
    assert_eq!(
        PlayerError::SearchFailed("LOAD_FAILED".to_string()).message(),
        "Search failed: LOAD_FAILED"
    );
    assert_eq!(PlayerError::NoCurrentSong.message(), "There is no current song");
}

#[test]
fn provider_failures_become_player_errors() {
    assert_eq!(provider_result(Ok(())), Ok(()));
    assert_eq!(
        provider_result(Err(ProviderError::ConnectionClosed)),
        Err(PlayerError::Lavalink(ProviderError::ConnectionClosed))
    );
    assert_eq!(joined(Ok(())), Ok(()));
    assert_eq!(
        joined(Err("no".to_string())),
        Err(PlayerError::SongbirdJoin("no".to_string()))
    );
}

#[test]
fn search_hands_the_tracks_on_unless_loading_failed() {
    let found = Found { load_type: "SEARCH_RESULT".to_string(), tracks: vec![song("a"), song("b")] };
    assert_eq!(Player::search(Ok(found)), Ok(vec![song("a"), song("b")]));
    let failed = Found { load_type: "LOAD_FAILED".to_string(), tracks: vec![song("a")] };
    assert_eq!(
        Player::search(Ok(failed)),
        Err(PlayerError::SearchFailed("LOAD_FAILED".to_string()))
    );
    assert_eq!(
        Player::search(Err(ProviderError::Other("down".to_string()))),
        Err(PlayerError::Lavalink(ProviderError::Other("down".to_string())))
    );
    let none = Found { load_type: "NO_MATCHES".to_string(), tracks: vec![] };
    assert_eq!(Player::search(Ok(none)), Ok(vec![]));
}

#[test]
fn disconnect_goes_step_by_step() {
    assert_eq!(
        player().disconnect(false),
        Disconnect::Finished(Err(PlayerError::NotInAVoiceChannel))
    );
    assert_eq!(player().disconnect(true), Disconnect::LeaveChannel(13));
    assert_eq!(Disconnect::left(13, Ok(())), Disconnect::DestroySession(13));
    assert_eq!(
        Disconnect::left(13, Err("stuck".to_string())),
        Disconnect::Finished(Err(PlayerError::SongbirdLeave("stuck".to_string())))
    );
    assert_eq!(Disconnect::destroyed(Ok(())), Disconnect::Finished(Ok(())));
    assert_eq!(
        Disconnect::destroyed(Err(ProviderError::ConnectionClosed)),
        Disconnect::Finished(Err(PlayerError::Lavalink(ProviderError::ConnectionClosed)))
    );
}
