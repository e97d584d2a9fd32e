use reciprocity::messages::{
    apply_patch, duplicate_tracks, generate_patch, same_tracks, BotInfo, Patch, PlayMode,
    PlayerControl, PlayerState, Track, User,
};

fn shown(title: &str, pos: u64) -> Track {
    Track { len: 200_000, pos, title: title.to_string(), uri: format!("https://tracks/{}", title) }
}

fn bot() -> BotInfo {
    BotInfo { name: "bot".to_string(), avatar: "https://avatar".to_string() }
}

fn state_a() -> PlayerState {
    PlayerState {
        bot: bot(),
        paused: false,
        mode: PlayMode::Normal,
        current: Some(shown("a", 0)),
        history: vec![],
        queue: vec![shown("b", 0), shown("c", 0)],
    }
}

fn state_b() -> PlayerState {
    PlayerState {
        bot: bot(),
        paused: true,
        mode: PlayMode::Normal,
        current: Some(shown("b", 0)),
        history: vec![shown("a", 0)],
        queue: vec![shown("c", 0)],
    }
}

fn empty_patch() -> Patch {
    Patch { bot: None, paused: None, mode: None, current: None, history: None, queue: None }
}

#[test]
fn patch_holds_exactly_the_fields_that_differ() {
    let patch = generate_patch(&state_a(), &state_b());
    assert_eq!(
        patch,
        Patch {
            bot: None,
            paused: Some(true),
            mode: None,
            current: Some(Some(shown("b", 0))),
            history: Some(vec![shown("a", 0)]),
            queue: Some(vec![shown("c", 0)]),
        }
    );
}

#[test]
fn applying_a_patch_gives_the_new_snapshot() {
    let a = state_a();
    let b = state_b();
    assert_eq!(apply_patch(&generate_patch(&a, &b), &a), b);
    assert_eq!(apply_patch(&generate_patch(&b, &a), &b), a);
}

#[test]
fn patch_round_trip_over_single_field_changes() {
    let a = state_a();
    let mut variants = vec![];
    let mut v = state_a();
    v.bot.name = "other".to_string();
    variants.push(v);
    let mut v = state_a();
    v.paused = true;
    variants.push(v);
    let mut v = state_a();
    v.mode = PlayMode::LoopOne;
    variants.push(v);
    let mut v = state_a();
    v.current = None;
    variants.push(v);
    let mut v = state_a();
    v.current = Some(shown("a", 1));
    variants.push(v);
    let mut v = state_a();
    v.history.push(shown("z", 3));
    variants.push(v);
    let mut v = state_a();
    v.queue.clear();
    variants.push(v);
    for b in variants {
        let patch = generate_patch(&a, &b);
        assert_ne!(patch, empty_patch());
        assert_eq!(apply_patch(&patch, &a), b);
        assert_eq!(apply_patch(&generate_patch(&b, &a), &b), a);
    }
}

#[test]
fn patch_between_equal_snapshots_is_empty() {
    assert_eq!(generate_patch(&state_a(), &state_a()), empty_patch());
    assert_eq!(apply_patch(&empty_patch(), &state_b()), state_b());
}

#[test]
fn snapshots_compare_by_structure() {
    assert!(state_a().same(&state_a()));
    assert!(!state_a().same(&state_b()));
    let mut moved = state_a();
    moved.current = Some(shown("a", 1));
    assert!(!state_a().same(&moved));
    let mut swapped = state_a();
    swapped.queue.swap(0, 1);
    assert!(!state_a().same(&swapped));
    assert_eq!(state_a().duplicate(), state_a());
}

#[test]
fn track_lists_compare_in_order() {
    let ab = vec![shown("a", 0), shown("b", 0)];
    let ba = vec![shown("b", 0), shown("a", 0)];
    assert!(same_tracks(&ab, &ab.clone()));
    assert!(!same_tracks(&ab, &ba));
    assert!(!same_tracks(&ab, &vec![shown("a", 0)]));
    assert!(same_tracks(&vec![], &vec![]));
    assert_eq!(duplicate_tracks(&ab), ab);
    assert!(shown("a", 0).same(&shown("a", 0)));
    assert!(!shown("a", 0).same(&shown("a", 9)));
    assert_eq!(shown("a", 4).duplicate(), shown("a", 4));
    assert!(bot().same(&bot().duplicate()));
}

#[test]
fn copies_of_messages_are_equal() {
    let user = User { id: "42".to_string(), username: "somebody".to_string() };
    assert_eq!(user.duplicate(), user);
    for con in [
        PlayerControl::Resume,
        PlayerControl::Pause,
        PlayerControl::Skip(3),
        PlayerControl::BackSkip(2),
        PlayerControl::SetTime(1500),
        PlayerControl::PlayMode(PlayMode::LoopAll),
        PlayerControl::Enqueue("a song".to_string()),
        PlayerControl::Leave,
        PlayerControl::Join,
    ] {
        assert_eq!(con.duplicate(), con);
    }
}
