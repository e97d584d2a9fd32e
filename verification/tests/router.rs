use reciprocity::player::{
    Outcome, PlayState, Playback, Player, PlayerError, Playing, ProviderCall, ProviderError,
};
use reciprocity::queue::Track;
use reciprocity::router::{PlayerRequest, ProviderReport, RouteError, Router};

fn song(name: &str) -> Track {
    Track { track: name.to_string(), info: None }
}

fn router() -> Router {
    let mut r = Router::new(vec![1, 2]);
    assert!(r.insert(Player::new(100, 10, 1)).is_ok());
    assert!(r.insert(Player::new(200, 20, 1)).is_ok());
    assert!(r.insert(Player::new(300, 10, 2)).is_ok());
    r
}

fn current(r: &Router, guild: u64, channel: u64) -> Option<String> {
    r.get_player(guild, channel)
        .unwrap()
        .state()
        .current
        .as_ref()
        .map(|p| p.track.track.clone())
}

#[test]
fn router_knows_its_guilds() {
    let r = Router::new(vec![1, 2]);
    assert!(r.knows_guild(1));
    assert!(r.knows_guild(2));
    assert!(!r.knows_guild(3));
    assert!(!Router::new(vec![]).knows_guild(1));
}

#[test]
fn router_finds_players_by_guild_and_channel() {
    let r = router();
    assert!(r.has_player(1, 10));
    assert!(r.has_player(1, 20));
    assert!(r.has_player(2, 10));
    assert!(!r.has_player(2, 20));
    assert!(!r.has_player(3, 10));
    assert_eq!(r.get_player(1, 20).map(|p| p.get_bot()), Some(200));
    assert_eq!(r.get_player(2, 10).map(|p| p.get_bot()), Some(300));
    assert!(r.get_player(2, 20).is_none());
}

#[test]
fn router_holds_one_player_per_channel() {
    let mut r = router();
    let second = Player::new(999, 10, 1);
    let back = r.insert(second);
    assert_eq!(back.err().map(|p| p.get_bot()), Some(999));
    assert_eq!(r.get_player(1, 10).map(|p| p.get_bot()), Some(100));
}

#[test]
fn router_refuses_players_of_unknown_guilds() {
    let mut r = router();
    assert!(r.insert(Player::new(1, 10, 3)).is_err());
    assert!(!r.has_player(3, 10));
}

#[test]
fn router_removes_a_player_and_keeps_the_others() {
    let mut r = router();
    let out = r.remove(1, 10);
    assert_eq!(out.map(|p| p.get_bot()), Some(100));
    assert!(!r.has_player(1, 10));
    assert!(r.has_player(1, 20));
    assert!(r.has_player(2, 10));
    assert!(r.remove(1, 10).is_none());
    assert!(r.insert(Player::new(101, 10, 1)).is_ok());
    assert_eq!(r.get_player(1, 10).map(|p| p.get_bot()), Some(101));
}

#[test]
fn request_for_an_unknown_guild_or_channel_fails() {
    let mut r = router();
    assert_eq!(r.request(3, 10, PlayerRequest::Skip(1), 0), Err(RouteError::UnknownGuild));
    assert_eq!(r.request(2, 20, PlayerRequest::Skip(1), 0), Err(RouteError::NoPlayer));
    assert_eq!(
        r.provider_done(2, 20, &ProviderCall::Stop, Ok(())),
        Err(RouteError::NoPlayer)
    );
}

#[test]
fn request_reaches_the_player_of_the_channel_only() {
    let mut r = router();
    let out = r.request(1, 20, PlayerRequest::Enqueue(vec![song("a"), song("b")]), 5);
    assert_eq!(out, Ok(Outcome { published: 1, call: Some(ProviderCall::Play(song("a"))) }));
    assert_eq!(current(&r, 1, 20), Some("a".to_string()));
    assert_eq!(current(&r, 1, 10), None);
    assert_eq!(current(&r, 2, 10), None);
    assert_eq!(r.get_player(1, 20).unwrap().state().playlist.len(), 1);
}

#[test]
fn requests_are_carried_out_by_the_player() {
    let mut r = router();
    r.request(1, 10, PlayerRequest::Enqueue(vec![song("a"), song("b"), song("c")]), 0).unwrap();
    assert_eq!(
        r.request(1, 10, PlayerRequest::Skip(1), 1),
        Ok(Outcome { published: 1, call: Some(ProviderCall::Stop) })
    );
    assert_eq!(
        r.request(1, 10, PlayerRequest::BackSkip(1), 2),
        Ok(Outcome { published: 2, call: Some(ProviderCall::Play(song("a"))) })
    );
    assert_eq!(
        r.request(1, 10, PlayerRequest::Jump(1234), 3),
        Ok(Outcome { published: 0, call: Some(ProviderCall::Seek(1234)) })
    );
    assert_eq!(
        r.request(1, 10, PlayerRequest::Playback(Playback::OneLoop), 4),
        Ok(Outcome { published: 1, call: None })
    );
    assert_eq!(r.get_player(1, 10).unwrap().state().playback, Playback::OneLoop);
    assert_eq!(r.request(1, 10, PlayerRequest::Skip(0), 5), Ok(Outcome { published: 0, call: None }));
}

#[test]
fn player_errors_come_back_through_the_router() {
    let mut r = router();
    assert_eq!(
        r.request(1, 10, PlayerRequest::Jump(5), 0),
        Err(RouteError::Player(PlayerError::NoCurrentSong))
    );
    let hundred: Vec<Track> = (0..101).map(|i| song(&format!("s{}", i))).collect();
    r.request(1, 10, PlayerRequest::Enqueue(hundred), 0).unwrap();
    assert_eq!(r.get_player(1, 10).unwrap().state().playlist.len(), 99);
    r.request(1, 10, PlayerRequest::Enqueue(vec![song("fill")]), 0).unwrap();
    assert_eq!(
        r.request(1, 10, PlayerRequest::Enqueue(vec![song("x"), song("y"), song("z")]), 0),
        Err(RouteError::Player(PlayerError::PlaylistFull(song("x"))))
    );
    assert_eq!(r.get_player(1, 10).unwrap().state().playlist.len(), 100);
}

#[test]
fn pause_and_resume_take_effect_when_the_provider_has_answered() {
    let mut r = router();
    let out = r.request(1, 10, PlayerRequest::PauseResume, 0);
    assert_eq!(out, Ok(Outcome { published: 0, call: Some(ProviderCall::Pause) }));
    assert_eq!(r.get_player(1, 10).unwrap().state().play_state, PlayState::Play);
    assert_eq!(
        r.provider_done(1, 10, &ProviderCall::Pause, Err(ProviderError::Other("x".to_string()))),
        Err(RouteError::Player(PlayerError::Lavalink(ProviderError::Other("x".to_string()))))
    );
    assert_eq!(r.get_player(1, 10).unwrap().state().play_state, PlayState::Play);
    assert_eq!(
        r.provider_done(1, 10, &ProviderCall::Pause, Ok(())),
        Ok(Outcome { published: 1, call: None })
    );
    assert_eq!(r.get_player(1, 10).unwrap().state().play_state, PlayState::Pause);
    assert_eq!(
        r.request(1, 10, PlayerRequest::PauseResume, 0),
        Ok(Outcome { published: 0, call: Some(ProviderCall::Resume) })
    );
    assert_eq!(
        r.provider_done(1, 10, &ProviderCall::Resume, Ok(())),
        Ok(Outcome { published: 1, call: None })
    );
    assert_eq!(r.get_player(1, 10).unwrap().state().play_state, PlayState::Play);
    assert_eq!(r.get_player(1, 20).unwrap().state().play_state, PlayState::Play);
}

#[test]
fn other_provider_answers_change_nothing() {
    let mut r = router();
    assert_eq!(
        r.provider_done(1, 10, &ProviderCall::Stop, Ok(())),
        Ok(Outcome { published: 0, call: None })
    );
    assert_eq!(
        r.provider_done(1, 10, &ProviderCall::Seek(3), Err(ProviderError::ConnectionClosed)),
        Err(RouteError::Player(PlayerError::Lavalink(ProviderError::ConnectionClosed)))
    );
    assert_eq!(r.get_player(1, 10).unwrap().state().play_state, PlayState::Play);
}

#[test]
fn provider_reports_reach_the_player() {
    let mut r = router();
    r.request(1, 10, PlayerRequest::Enqueue(vec![song("a"), song("b")]), 0).unwrap();
    assert_eq!(
        r.report(1, 10, ProviderReport::Position(4_000), 50),
        Ok(Outcome { published: 1, call: None })
    );
    assert_eq!(
        r.get_player(1, 10).unwrap().state().current,
        Some(Playing { elapsed: 4_000, since: 50, track: song("a") })
    );
    assert_eq!(
        r.report(1, 10, ProviderReport::TrackStart, 60),
        Ok(Outcome { published: 0, call: None })
    );
    assert_eq!(
        r.report(1, 10, ProviderReport::TrackEnd, 70),
        Ok(Outcome { published: 1, call: Some(ProviderCall::Play(song("b"))) })
    );
    assert_eq!(
        r.report(1, 10, ProviderReport::TrackEnd, 80),
        Ok(Outcome { published: 1, call: Some(ProviderCall::Stop) })
    );
    assert_eq!(
        r.report(1, 10, ProviderReport::TrackEnd, 90),
        Ok(Outcome { published: 0, call: Some(ProviderCall::Stop) })
    );
    assert_eq!(
        r.report(1, 20, ProviderReport::Position(1), 0),
        Ok(Outcome { published: 0, call: None })
    );
    assert_eq!(r.report(2, 20, ProviderReport::TrackEnd, 0), Err(RouteError::NoPlayer));
}

#[test]
fn clearing_the_queue_through_the_router() {
    let mut r = router();
    assert_eq!(
        r.request(1, 10, PlayerRequest::ClearQueue, 0),
        Ok(Outcome { published: 0, call: None })
    );
    r.request(1, 10, PlayerRequest::Enqueue(vec![song("a"), song("b")]), 0).unwrap();
    assert_eq!(
        r.request(1, 10, PlayerRequest::ClearQueue, 0),
        Ok(Outcome { published: 1, call: None })
    );
    assert!(r.get_player(1, 10).unwrap().state().playlist.is_empty());
}
