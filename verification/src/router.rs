//! The router: which player serves which voice channel, and the way from a
//! request for a channel to the player that carries it out.
//!
//! A player is addressed by its guild and its channel. The router knows a
//! fixed set of guilds; for each channel of one of them it holds at most one
//! player.

use crate::player::{
    Model, Outcome, Playback, Player, PlayerError, PlayState, ProviderCall, ProviderError,
};
use crate::queue::Track;
use vstd::prelude::*;

verus! {

/// What a client can ask of a player.
#[derive(Debug, PartialEq, Eq)]
pub enum PlayerRequest {
    /// Pause a player that plays, resume one that is paused.
    PauseResume,
    Skip(usize),
    BackSkip(usize),
    /// Jump to a position in milliseconds.
    Jump(u64),
    Playback(Playback),
    Enqueue(Vec<Track>),
    ClearQueue,
}

/// What the playback provider tells of a player.
#[derive(Clone, Copy, Debug, PartialEq, Eq)]
pub enum ProviderReport {
    /// The position of the current track, in milliseconds.
    Position(u64),
    TrackEnd,
    TrackStart,
}

/// Why a request was not carried out.
#[derive(Debug, PartialEq, Eq)]
pub enum RouteError {
    /// The router does not serve the guild.
    UnknownGuild,
    /// No player exists for the channel.
    NoPlayer,
    /// The player refused, or the provider failed.
    Player(PlayerError),
}

/// The state of a player after a request at `now`.
pub open spec fn requested(m: Model, request: PlayerRequest, now: u64) -> Model {
    match request {
        PlayerRequest::PauseResume => m,
        PlayerRequest::Skip(count) => m.skip(count as nat),
        PlayerRequest::BackSkip(count) => m.back_skip(count as nat, now),
        PlayerRequest::Jump(_) => m,
        PlayerRequest::Playback(mode) => m.toggled(mode),
        PlayerRequest::Enqueue(tracks) => m.enqueue(tracks@, now),
        PlayerRequest::ClearQueue => Model { playlist: Seq::empty(), ..m },
    }
}

/// The state of a player after a report of the provider at `now`.
pub open spec fn reported(m: Model, report: ProviderReport, now: u64) -> Model {
    match report {
        ProviderReport::Position(position) => m.positioned(position, now),
        ProviderReport::TrackEnd => m.play_next(now),
        ProviderReport::TrackStart => m,
    }
}

/// What a report of the provider at `now` leaves to do.
pub open spec fn report_outcome(m: Model, report: ProviderReport, now: u64) -> Outcome {
    match report {
        ProviderReport::Position(_) => Outcome {
            published: if m.current is Some {
                1
            } else {
                0
            },
            call: None,
        },
        ProviderReport::TrackEnd => m.play_next_outcome(now),
        ProviderReport::TrackStart => Outcome { published: 0, call: None },
    }
}

/// The state of a player after the provider answered a call: a call to
/// resume or to pause that succeeded takes effect, and nothing else does.
pub open spec fn answered(m: Model, call: ProviderCall, answer: Result<(), ProviderError>) -> Model {
    match (call, answer) {
        (ProviderCall::Resume, Ok(())) => Model { play_state: PlayState::Play, ..m },
        (ProviderCall::Pause, Ok(())) => Model { play_state: PlayState::Pause, ..m },
        _ => m,
    }
}

/// Whether the player at `index` of a list serves the channel.
pub open spec fn serves(players: Seq<Player>, index: int, guild: u64, channel: u64) -> bool {
    0 <= index < players.len() && players[index].guild() == guild && players[index].channel()
        == channel
}

/// No two players of a list serve the same channel.
pub open spec fn distinct(players: Seq<Player>) -> bool {
    forall|i: int, j: int, guild: u64, channel: u64|
        serves(players, i, guild, channel) && serves(players, j, guild, channel) ==> i == j
}

/// The state of the player of a list that serves the channel, if there is
/// one.
pub open spec fn player_of(players: Seq<Player>, guild: u64, channel: u64) -> Option<Model> {
    if exists|i: int| serves(players, i, guild, channel) {
        Some(players[choose|i: int| serves(players, i, guild, channel)]@)
    } else {
        None
    }
}

/// Whether two lists hold the same players but for one channel.
pub open spec fn same_players_but(a: Seq<Player>, b: Seq<Player>, guild: u64, channel: u64) -> bool {
    forall|g: u64, c: u64| !(g == guild && c == channel) ==> player_of(a, g, c) == player_of(b, g, c)
}

/// In a list without two players for one channel, the player at a place is
/// the player of the channel that it serves.
proof fn lemma_player_at(players: Seq<Player>, index: int)
    requires
        distinct(players),
        0 <= index < players.len(),
    ensures
        player_of(players, players[index].guild(), players[index].channel()) == Some(
            players[index]@,
        ),
{
    let guild = players[index].guild();
    let channel = players[index].channel();
    assert(serves(players, index, guild, channel));
    let chosen = choose|i: int| serves(players, i, guild, channel);
    assert(serves(players, chosen, guild, channel));
}

/// A change of one player in its place, which leaves the channel that it
/// serves as it is, changes nothing else.
proof fn lemma_changed_in_place(after: Seq<Player>, before: Seq<Player>, index: int)
    requires
        distinct(before),
        0 <= index < before.len(),
        after.len() == before.len(),
        forall|j: int| 0 <= j < after.len() && j != index ==> after[j] == before[j],
        after[index].guild() == before[index].guild(),
        after[index].channel() == before[index].channel(),
    ensures
        distinct(after),
        same_players_but(after, before, after[index].guild(), after[index].channel()),
        player_of(after, after[index].guild(), after[index].channel()) == Some(after[index]@),
{
    assert forall|i: int, g: u64, c: u64| serves(after, i, g, c) == serves(before, i, g, c) by {}
    assert(distinct(after)) by {
        assert forall|i: int, j: int, g: u64, c: u64|
            serves(after, i, g, c) && serves(after, j, g, c) implies i == j by {
            assert(serves(before, i, g, c) && serves(before, j, g, c));
        }
    }
    lemma_player_at(after, index);
    let guild = after[index].guild();
    let channel = after[index].channel();
    assert forall|g: u64, c: u64| !(g == guild && c == channel) implies player_of(after, g, c)
        == player_of(before, g, c) by {
        if exists|i: int| serves(before, i, g, c) {
            let i = choose|i: int| serves(before, i, g, c);
            assert(serves(after, i, g, c));
            assert(i != index);
            lemma_player_at(before, i);
            lemma_player_at(after, i);
        } else {
            assert forall|i: int| !serves(after, i, g, c) by {
                assert(serves(after, i, g, c) == serves(before, i, g, c));
            }
        }
    }
}

/// One more player, for a channel that had none, changes nothing else.
proof fn lemma_pushed(before: Seq<Player>, player: Player)
    requires
        distinct(before),
        player_of(before, player.guild(), player.channel()) is None,
    ensures
        distinct(before.push(player)),
        same_players_but(before.push(player), before, player.guild(), player.channel()),
        player_of(before.push(player), player.guild(), player.channel()) == Some(player@),
{
    let after = before.push(player);
    let last = before.len() as int;
    let guild = player.guild();
    let channel = player.channel();
    assert forall|i: int| !serves(before, i, guild, channel) by {
        if serves(before, i, guild, channel) {
            lemma_player_at(before, i);
        }
    }
    assert forall|i: int, g: u64, c: u64| serves(before, i, g, c) implies serves(after, i, g, c) by {}
    assert(distinct(after)) by {
        assert forall|i: int, j: int, g: u64, c: u64|
            serves(after, i, g, c) && serves(after, j, g, c) implies i == j by {
            if i < last && j < last {
                assert(serves(before, i, g, c) && serves(before, j, g, c));
            } else if i < last {
                assert(serves(before, i, guild, channel));
            } else if j < last {
                assert(serves(before, j, guild, channel));
            }
        }
    }
    lemma_player_at(after, last);
    assert forall|g: u64, c: u64| !(g == guild && c == channel) implies player_of(after, g, c)
        == player_of(before, g, c) by {
        if exists|i: int| serves(after, i, g, c) {
            let i = choose|i: int| serves(after, i, g, c);
            assert(i != last);
            assert(serves(before, i, g, c));
            lemma_player_at(before, i);
            lemma_player_at(after, i);
        } else {
            assert forall|i: int| !serves(before, i, g, c) by {
                if serves(before, i, g, c) {
                    assert(serves(after, i, g, c));
                }
            }
        }
    }
}

/// One player less changes nothing else.
proof fn lemma_removed(before: Seq<Player>, at: int)
    requires
        distinct(before),
        0 <= at < before.len(),
    ensures
        distinct(before.remove(at)),
        same_players_but(before.remove(at), before, before[at].guild(), before[at].channel()),
        player_of(before.remove(at), before[at].guild(), before[at].channel()) is None,
{
    let after = before.remove(at);
    let guild = before[at].guild();
    let channel = before[at].channel();
    assert forall|i: int, g: u64, c: u64| serves(after, i, g, c) implies (if i < at {
        serves(before, i, g, c)
    } else {
        serves(before, i + 1, g, c)
    }) by {}
    assert forall|i: int, g: u64, c: u64| serves(before, i, g, c) && i != at implies (if i < at {
        serves(after, i, g, c)
    } else {
        serves(after, i - 1, g, c)
    }) by {}
    assert(distinct(after)) by {
        assert forall|i: int, j: int, g: u64, c: u64|
            serves(after, i, g, c) && serves(after, j, g, c) implies i == j by {
            let bi = if i < at {
                i
            } else {
                i + 1
            };
            let bj = if j < at {
                j
            } else {
                j + 1
            };
            assert(serves(before, bi, g, c) && serves(before, bj, g, c));
        }
    }
    assert forall|i: int| !serves(after, i, guild, channel) by {
        if serves(after, i, guild, channel) {
            let bi = if i < at {
                i
            } else {
                i + 1
            };
            assert(serves(before, bi, guild, channel));
            assert(serves(before, at, guild, channel));
        }
    }
    assert forall|g: u64, c: u64| !(g == guild && c == channel) implies player_of(after, g, c)
        == player_of(before, g, c) by {
        if exists|i: int| serves(before, i, g, c) {
            let bi = choose|i: int| serves(before, i, g, c);
            assert(bi != at);
            let i = if bi < at {
                bi
            } else {
                bi - 1
            };
            assert(serves(after, i, g, c));
            lemma_player_at(before, bi);
            lemma_player_at(after, i);
        } else {
            assert forall|i: int| !serves(after, i, g, c) by {
                if serves(after, i, g, c) {
                    let bi = if i < at {
                        i
                    } else {
                        i + 1
                    };
                    assert(serves(before, bi, g, c));
                }
            }
        }
    }
}

/// The place of the player of a channel in a list.
fn find(players: &Vec<Player>, guild: u64, channel: u64) -> (r: Option<usize>)
    requires
        distinct(players@),
    ensures
        match r {
            Some(index) => serves(players@, index as int, guild, channel) && player_of(
                players@,
                guild,
                channel,
            ) == Some(players@[index as int]@),
            None => player_of(players@, guild, channel) is None,
        },
{
    let mut i: usize = 0;
    while i < players.len()
        invariant
            distinct(players@),
            i <= players.len(),
            forall|j: int| 0 <= j < i ==> !serves(players@, j, guild, channel),
        decreases players.len() - i,
    {
        if players[i].get_guild() == guild && players[i].get_channel() == channel {
            proof {
                lemma_player_at(players@, i as int);
            }
            return Some(i);
        }
        i += 1;
    }
    None
}

/// The players of a set of guilds, at most one for each voice channel.
pub struct Router {
    guilds: Vec<u64>,
    players: Vec<Player>,
}

impl Router {
    #[verifier::type_invariant]
    spec fn one_player_per_channel(self) -> bool {
        distinct(self.players@)
    }

    /// Whether the router serves a guild.
    pub closed spec fn knows(&self, guild: u64) -> bool {
        self.guilds@.contains(guild)
    }

    /// The state of the player of a channel, if there is one.
    pub closed spec fn player(&self, guild: u64, channel: u64) -> Option<Model> {
        player_of(self.players@, guild, channel)
    }

    /// Whether two routers serve the same guilds and hold the same players
    /// but for one channel.
    pub open spec fn same_but(&self, other: &Router, guild: u64, channel: u64) -> bool {
        &&& forall|g: u64| self.knows(g) == other.knows(g)
        &&& forall|g: u64, c: u64|
            !(g == guild && c == channel) ==> self.player(g, c) == other.player(g, c)
    }

    /// A router for a set of guilds, without players.
    pub fn new(guilds: Vec<u64>) -> (r: Router)
        ensures
            forall|g: u64| r.knows(g) == guilds@.contains(g),
            forall|g: u64, c: u64| r.player(g, c) is None,
    {
        let players: Vec<Player> = Vec::new();
        assert(distinct(players@));
        assert forall|g: u64, c: u64| player_of(players@, g, c) is None by {}
        Router { guilds, players }
    }

    /// Whether the router serves a guild.
    pub fn knows_guild(&self, guild: u64) -> (r: bool)
        ensures
            r == self.knows(guild),
    {
        let mut i: usize = 0;
        while i < self.guilds.len()
            invariant
                i <= self.guilds.len(),
                forall|j: int| 0 <= j < i ==> self.guilds@[j] != guild,
            decreases self.guilds.len() - i,
        {
            if self.guilds[i] == guild {
                return true;
            }
            i += 1;
        }
        false
    }

    /// Whether a player exists for a channel.
    pub fn has_player(&self, guild: u64, channel: u64) -> (r: bool)
        ensures
            r == (self.player(guild, channel) is Some),
    {
        proof {
            use_type_invariant(self);
        }
        find(&self.players, guild, channel).is_some()
    }

    /// The player of a channel.
    pub fn get_player(&self, guild: u64, channel: u64) -> (r: Option<&Player>)
        ensures
            match r {
                Some(p) => self.player(guild, channel) == Some(p@) && p.guild() == guild
                    && p.channel() == channel,
                None => self.player(guild, channel) is None,
            },
    {
        proof {
            use_type_invariant(self);
        }
        match find(&self.players, guild, channel) {
            Some(index) => Some(&self.players[index]),
            None => None,
        }
    }

    /// Takes a player in, for the channel that it serves. A player of a
    /// guild that the router does not serve, or for a channel that has a
    /// player already, is handed back.
    pub fn insert(&mut self, player: Player) -> (r: Result<(), Player>)
        ensures
            final(self).same_but(old(self), player.guild(), player.channel()),
            r is Ok <==> old(self).knows(player.guild()) && old(self).player(
                player.guild(),
                player.channel(),
            ) is None,
            r is Ok ==> final(self).player(player.guild(), player.channel()) == Some(player@),
            r matches Err(back) ==> back == player && final(self).player(
                player.guild(),
                player.channel(),
            ) == old(self).player(player.guild(), player.channel()),
    {
        proof {
            use_type_invariant(&*self);
        }
        let guild = player.get_guild();
        let channel = player.get_channel();
        if !self.knows_guild(guild) {
            return Err(player);
        }
        if find(&self.players, guild, channel).is_some() {
            return Err(player);
        }
        let mut players: Vec<Player> = Vec::new();
        assert(distinct(players@));
        core::mem::swap(&mut self.players, &mut players);
        proof {
            lemma_pushed(players@, player);
        }
        players.push(player);
        self.players = players;
        Ok(())
    }

    /// Takes the player of a channel out.
    pub fn remove(&mut self, guild: u64, channel: u64) -> (r: Option<Player>)
        ensures
            final(self).same_but(old(self), guild, channel),
            final(self).player(guild, channel) is None,
            match r {
                Some(p) => old(self).player(guild, channel) == Some(p@) && p.guild() == guild
                    && p.channel() == channel,
                None => old(self).player(guild, channel) is None,
            },
    {
        proof {
            use_type_invariant(&*self);
        }
        match find(&self.players, guild, channel) {
            None => None,
            Some(index) => {
                let mut players: Vec<Player> = Vec::new();
                assert(distinct(players@));
                core::mem::swap(&mut self.players, &mut players);
                proof {
                    lemma_removed(players@, index as int);
                }
                let player = players.remove(index);
                self.players = players;
                Some(player)
            },
        }
    }

    /// Hands a request to the player of a channel at `now`. A guild that
    /// the router does not serve and a channel without a player are errors,
    /// and so is a jump without a current track or a batch that the playlist
    /// refuses; none of them changes anything. A request to pause or resume
    /// only names the call to make: the player changes when the provider has
    /// answered, in `provider_done`.
    pub fn request(&mut self, guild: u64, channel: u64, request: PlayerRequest, now: u64) -> (r:
        Result<Outcome, RouteError>)
        ensures
            final(self).same_but(old(self), guild, channel),
            r == request_outcome(
                old(self).knows(guild),
                old(self).player(guild, channel),
                request,
                now,
            ),
            final(self).player(guild, channel) == match old(self).player(guild, channel) {
                Some(m) => if old(self).knows(guild) {
                    Some(requested(m, request, now))
                } else {
                    Some(m)
                },
                None => None,
            },
    {
        proof {
            use_type_invariant(&*self);
        }
        if !self.knows_guild(guild) {
            return Err(RouteError::UnknownGuild);
        }
        let index = match find(&self.players, guild, channel) {
            Some(index) => index,
            None => {
                return Err(RouteError::NoPlayer);
            },
        };
        let mut players: Vec<Player> = Vec::new();
        assert(distinct(players@));
        core::mem::swap(&mut self.players, &mut players);
        let ghost before = players@;
        let r = match request {
            PlayerRequest::PauseResume => Ok(
                Outcome { published: 0, call: Some(players[index].pause_resume_call()) },
            ),
            PlayerRequest::Skip(count) => Ok(players[index].skip(count)),
            PlayerRequest::BackSkip(count) => Ok(players[index].back_skip(count, now)),
            PlayerRequest::Jump(position) => match players[index].jump(position) {
                Ok(call) => Ok(Outcome { published: 0, call: Some(call) }),
                Err(e) => Err(RouteError::Player(e)),
            },
            PlayerRequest::Playback(mode) => Ok(players[index].playback(mode)),
            PlayerRequest::Enqueue(tracks) => match players[index].enqueue(tracks, now) {
                Ok(outcome) => Ok(outcome),
                Err(e) => Err(RouteError::Player(e)),
            },
            PlayerRequest::ClearQueue => Ok(players[index].clear_queue()),
        };
        proof {
            lemma_changed_in_place(players@, before, index as int);
        }
        self.players = players;
        r
    }

    /// Takes in a report of the provider for the player of a channel at
    /// `now`: a position replaces that of the current track, the end of a
    /// track makes the player go on to its next one, and the start of a
    /// track changes nothing. Without a player for the channel nothing
    /// changes.
    pub fn report(&mut self, guild: u64, channel: u64, report: ProviderReport, now: u64) -> (r:
        Result<Outcome, RouteError>)
        ensures
            final(self).same_but(old(self), guild, channel),
            match old(self).player(guild, channel) {
                Some(m) => final(self).player(guild, channel) == Some(reported(m, report, now))
                    && r == Ok::<Outcome, RouteError>(report_outcome(m, report, now)),
                None => final(self).player(guild, channel) is None && r == Err::<
                    Outcome,
                    RouteError,
                >(RouteError::NoPlayer),
            },
    {
        proof {
            use_type_invariant(&*self);
        }
        let index = match find(&self.players, guild, channel) {
            Some(index) => index,
            None => {
                return Err(RouteError::NoPlayer);
            },
        };
        let mut players: Vec<Player> = Vec::new();
        assert(distinct(players@));
        core::mem::swap(&mut self.players, &mut players);
        let ghost before = players@;
        let outcome = match report {
            ProviderReport::Position(position) => players[index].update(position, now),
            ProviderReport::TrackEnd => players[index].track_end(now),
            ProviderReport::TrackStart => {
                players[index].track_start();
                Outcome { published: 0, call: None }
            },
        };
        proof {
            lemma_changed_in_place(players@, before, index as int);
        }
        self.players = players;
        Ok(outcome)
    }

    /// Takes in the provider's answer to a call that was made for the
    /// player of a channel. A failure is handed on as the player's error. A
    /// call to resume or to pause that succeeded takes effect now, and one
    /// snapshot is published; after any other call nothing is left to do.
    pub fn provider_done(
        &mut self,
        guild: u64,
        channel: u64,
        call: &ProviderCall,
        answer: Result<(), ProviderError>,
    ) -> (r: Result<Outcome, RouteError>)
        ensures
            final(self).same_but(old(self), guild, channel),
            final(self).player(guild, channel) == match old(self).player(guild, channel) {
                Some(m) => Some(answered(m, *call, answer)),
                None => None,
            },
            r == match old(self).player(guild, channel) {
                None => Err::<Outcome, RouteError>(RouteError::NoPlayer),
                Some(_) => match answer {
                    Err(e) => Err(RouteError::Player(PlayerError::Lavalink(e))),
                    Ok(()) => Ok(
                        Outcome {
                            published: if *call is Resume || *call is Pause {
                                1
                            } else {
                                0
                            },
                            call: None,
                        },
                    ),
                },
            },
    {
        proof {
            use_type_invariant(&*self);
        }
        let index = match find(&self.players, guild, channel) {
            Some(index) => index,
            None => {
                return Err(RouteError::NoPlayer);
            },
        };
        let mut players: Vec<Player> = Vec::new();
        assert(distinct(players@));
        core::mem::swap(&mut self.players, &mut players);
        let ghost before = players@;
        let done = match call {
            ProviderCall::Resume => players[index].resume(answer),
            ProviderCall::Pause => players[index].pause(answer),
            _ => match answer {
                Ok(()) => Ok(Outcome { published: 0, call: None }),
                Err(e) => Err(PlayerError::Lavalink(e)),
            },
        };
        proof {
            lemma_changed_in_place(players@, before, index as int);
        }
        self.players = players;
        match done {
            Ok(outcome) => Ok(outcome),
            Err(e) => Err(RouteError::Player(e)),
        }
    }
}

/// What a request at `now` leaves to its caller, for a guild that the
/// router serves or not and a channel with a player in state `m` or none.
pub open spec fn request_outcome(
    guild_known: bool,
    player: Option<Model>,
    request: PlayerRequest,
    now: u64,
) -> Result<Outcome, RouteError> {
    if !guild_known {
        Err(RouteError::UnknownGuild)
    } else {
        match player {
            None => Err(RouteError::NoPlayer),
            Some(m) => match request {
                PlayerRequest::PauseResume => Ok(
                    Outcome {
                        published: 0,
                        call: Some(
                            if m.play_state == PlayState::Play {
                                ProviderCall::Pause
                            } else {
                                ProviderCall::Resume
                            },
                        ),
                    },
                ),
                PlayerRequest::Skip(count) => Ok(m.skip_outcome(count as nat)),
                PlayerRequest::BackSkip(count) => Ok(m.back_skip_outcome(count as nat, now)),
                PlayerRequest::Jump(position) => if m.current is Some {
                    Ok(Outcome { published: 0, call: Some(ProviderCall::Seek(position)) })
                } else {
                    Err(RouteError::Player(PlayerError::NoCurrentSong))
                },
                PlayerRequest::Playback(_) => Ok(Outcome { published: 1, call: None }),
                PlayerRequest::Enqueue(tracks) => match m.enqueue_outcome(tracks@, now) {
                    Ok(outcome) => Ok(outcome),
                    Err(e) => Err(RouteError::Player(e)),
                },
                PlayerRequest::ClearQueue => Ok(
                    Outcome {
                        published: if m.playlist.len() > 0 {
                            1
                        } else {
                            0
                        },
                        call: None,
                    },
                ),
            },
        }
    }
}

} // verus!
