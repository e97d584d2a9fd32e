//! From the state of a player to the snapshot that a client is shown.
//!
//! A track of which the provider told nothing cannot be shown, and is left
//! out. The position of the current track is worked out for the moment at
//! which the snapshot is taken.

use crate::messages::{track_views, BotInfo, BotInfoView, PlayMode, PlayerStateView, TrackView};
use crate::player::{elapsed_at, Model, PlayState, Playback, PlayerState, Playing};
use crate::queue::{Track, TrackQueue};
use vstd::prelude::*;

verus! {

/// A track as a client is shown it, where the provider told of it.
pub open spec fn shown_track(t: Track) -> Option<TrackView> {
    match t.info {
        Some(info) => Some(
            TrackView { len: info.length, pos: info.position, title: info.title@, uri: info.uri@ },
        ),
        None => None,
    }
}

/// The current track as a client is shown it at `now`, where the provider
/// told of it: its position is how far it has played by then.
pub open spec fn shown_current(p: Playing, now: u64) -> Option<TrackView> {
    match p.track.info {
        Some(info) => Some(
            TrackView {
                len: info.length,
                pos: elapsed_at(p.elapsed, p.since, now),
                title: info.title@,
                uri: info.uri@,
            },
        ),
        None => None,
    }
}

/// The tracks of a sequence that can be shown, in order.
pub open spec fn shown_tracks(s: Seq<Track>) -> Seq<TrackView>
    decreases s.len(),
{
    if s.len() == 0 {
        Seq::empty()
    } else {
        match shown_track(s.last()) {
            Some(v) => shown_tracks(s.drop_last()).push(v),
            None => shown_tracks(s.drop_last()),
        }
    }
}

/// The mode of a player under the name that a client knows it by.
pub open spec fn shown_mode(p: Playback) -> PlayMode {
    match p {
        Playback::Normal => PlayMode::Normal,
        Playback::AllLoop => PlayMode::LoopAll,
        Playback::OneLoop => PlayMode::LoopOne,
    }
}

/// The snapshot of a player in state `m`, owned by `bot`, taken at `now`.
pub open spec fn shown_state(bot: BotInfoView, m: Model, now: u64) -> PlayerStateView {
    PlayerStateView {
        bot,
        paused: m.play_state == PlayState::Pause,
        mode: shown_mode(m.playback),
        current: match m.current {
            Some(p) => shown_current(p, now),
            None => None,
        },
        history: shown_tracks(m.history),
        queue: shown_tracks(m.playlist),
    }
}

/// Makes a track fit to show, if the provider told of it.
pub fn parse_track(t: &Track) -> (r: Option<crate::messages::Track>)
    ensures
        crate::messages::opt_track_view(r) == shown_track(*t),
{
    match &t.info {
        None => None,
        Some(info) => Some(
            crate::messages::Track {
                len: info.length,
                pos: info.position,
                title: info.title.clone(),
                uri: info.uri.clone(),
            },
        ),
    }
}

/// Makes the current track fit to show at `now`, if the provider told of it.
pub fn parse_cur_track(playing: &Playing, now: u64) -> (r: Option<crate::messages::Track>)
    ensures
        crate::messages::opt_track_view(r) == shown_current(*playing, now),
{
    match &playing.track.info {
        None => None,
        Some(info) => Some(
            crate::messages::Track {
                len: info.length,
                pos: playing.elapsed_at(now),
                title: info.title.clone(),
                uri: info.uri.clone(),
            },
        ),
    }
}

/// The mode of a player that a client's name for it stands for.
pub open spec fn parsed_mode(pm: PlayMode) -> Playback {
    match pm {
        PlayMode::Normal => Playback::Normal,
        PlayMode::LoopAll => Playback::AllLoop,
        PlayMode::LoopOne => Playback::OneLoop,
    }
}

/// The mode of a player that a client's name for it stands for.
pub fn parse_mode(pm: PlayMode) -> (r: Playback)
    ensures
        r == parsed_mode(pm),
{
    match pm {
        PlayMode::Normal => Playback::Normal,
        PlayMode::LoopAll => Playback::AllLoop,
        PlayMode::LoopOne => Playback::OneLoop,
    }
}

impl PlayMode {
    /// The name that a client knows a mode by.
    pub fn from(p: Playback) -> (r: PlayMode)
        ensures
            r == shown_mode(p),
    {
        match p {
            Playback::Normal => PlayMode::Normal,
            Playback::AllLoop => PlayMode::LoopAll,
            Playback::OneLoop => PlayMode::LoopOne,
        }
    }
}

/// The two names of a mode stand for each other: each of the two
/// mappings undoes the other.
pub proof fn lemma_mode_names_agree(p: Playback, pm: PlayMode)
    ensures
        parsed_mode(shown_mode(p)) == p,
        shown_mode(parsed_mode(pm)) == pm,
{
}

/// No more tracks are shown than there are.
pub proof fn lemma_shown_tracks_len(s: Seq<Track>)
    ensures
        shown_tracks(s).len() <= s.len(),
    decreases s.len(),
{
    if s.len() > 0 {
        lemma_shown_tracks_len(s.drop_last());
    }
}

/// The tracks of a queue that can be shown, in order.
pub fn parse_tracks(queue: &TrackQueue) -> (r: Vec<crate::messages::Track>)
    ensures
        track_views(r@) == shown_tracks(queue@),
{
    let n = queue.len();
    let mut r: Vec<crate::messages::Track> = Vec::new();
    let mut i: usize = 0;
    assert(queue@.subrange(0, 0) =~= Seq::<Track>::empty());
    assert(track_views(r@) =~= Seq::<TrackView>::empty());
    while i < n
        invariant
            i <= n,
            n == queue@.len(),
            track_views(r@) == shown_tracks(queue@.subrange(0, i as int)),
        decreases n - i,
    {
        let ghost before = r@;
        assert(queue@.subrange(0, i + 1).drop_last() =~= queue@.subrange(0, i as int));
        assert(queue@.subrange(0, i + 1).last() == queue@[i as int]);
        match queue.get(i) {
            Some(track) => match parse_track(track) {
                Some(shown) => {
                    r.push(shown);
                    assert(track_views(r@) =~= track_views(before).push(shown@));
                },
                None => {},
            },
            None => {},
        }
        i += 1;
    }
    assert(queue@.subrange(0, n as int) =~= queue@);
    r
}

/// Takes the snapshot of a player, owned by `bot`, at `now`.
pub fn gen_player_state(bot: BotInfo, ps: &PlayerState, now: u64) -> (r:
    crate::messages::PlayerState)
    ensures
        r@ == shown_state(bot@, ps@, now),
{
    let current = match &ps.current {
        Some(playing) => parse_cur_track(playing, now),
        None => None,
    };
    let history = parse_tracks(&ps.history);
    let playlist = parse_tracks(&ps.playlist);
    crate::messages::PlayerState {
        bot,
        paused: ps.play_state.is_paused(),
        mode: PlayMode::from(ps.playback),
        current,
        history,
        queue: playlist,
    }
}

} // verus!
