//! The player: one playback unit with its current track, its playlist and
//! its history.
//!
//! A player never talks to the playback provider itself. Each command
//! changes the state and says, in its `Outcome`, how many snapshots to
//! publish and which call the provider is owed. Commands that follow a
//! provider call take the result of that call as an argument. Time comes in
//! as a number of milliseconds on a clock of the caller's choosing.
//!
//! The contracts speak of `Model`, the mathematical view of a player's
//! state, and of the functions on it that say what each command does.

use crate::queue::{pushed_back, pushed_front, Track, TrackQueue, MUSIC_QUEUE_LIMIT};
use vstd::prelude::*;
use vstd::string::StringExecFns;

verus! {

/// Whether a player plays or is paused.
#[derive(Copy, Clone, Debug, Eq, PartialEq, Structural)]
pub enum PlayState {
    Play,
    Pause,
}

impl PlayState {
    /// Whether the player is paused.
    pub fn is_paused(&self) -> (r: bool)
        ensures
            r == (*self == PlayState::Pause),
    {
        match self {
            PlayState::Play => false,
            PlayState::Pause => true,
        }
    }

    /// The text shown for a play state: nothing while playing.
    pub fn label(&self) -> (r: String)
        ensures
            r@ == match *self {
                PlayState::Play => ""@,
                PlayState::Pause => "Paused "@,
            },
    {
        match self {
            PlayState::Play => String::from_str(""),
            PlayState::Pause => String::from_str("Paused "),
        }
    }
}

/// How a player goes on when a track ends.
#[derive(Eq, PartialEq, Clone, Copy, Debug, Structural)]
pub enum Playback {
    /// The track that ended goes to the history.
    Normal,
    /// The track that ended goes to the back of the playlist.
    AllLoop,
    /// The track that ended is played again.
    OneLoop,
}

impl Playback {
    /// The sign shown for a mode: nothing for the normal one.
    pub fn label(&self) -> (r: String)
        ensures
            r@ == match *self {
                Playback::Normal => ""@,
                Playback::AllLoop => "🔁"@,
                Playback::OneLoop => "🔂"@,
            },
    {
        match self {
            Playback::Normal => String::from_str(""),
            Playback::AllLoop => String::from_str("🔁"),
            Playback::OneLoop => String::from_str("🔂"),
        }
    }
}

/// A failure of the playback provider.
#[derive(Clone, Debug, PartialEq, Eq)]
pub enum ProviderError {
    /// The connection to the provider is closed: the player cannot go on.
    ConnectionClosed,
    /// Any other failure, by its description.
    Other(String),
}

/// Why a player could not do what it was asked.
#[derive(Clone, Debug, PartialEq, Eq)]
pub enum PlayerError {
    Lavalink(ProviderError),
    SongbirdJoin(String),
    SongbirdLeave(String),
    NotInAVoiceChannel,
    /// The track that found no room.
    PlaylistFull(Track),
    SearchFailed(String),
    NoCurrentSong,
}

impl PlayerError {
    /// Whether the playback provider failed.
    pub fn is_lavalink_error(&self) -> (r: bool)
        ensures
            r == (*self is Lavalink),
    {
        match self {
            PlayerError::Lavalink(_) => true,
            _ => false,
        }
    }

    /// Whether the player has to be torn down: only when the connection to
    /// the provider is closed.
    pub fn is_fatal(&self) -> (r: bool)
        ensures
            r == (*self == PlayerError::Lavalink(ProviderError::ConnectionClosed)),
    {
        match self {
            PlayerError::Lavalink(ProviderError::ConnectionClosed) => true,
            _ => false,
        }
    }

    /// The error in words.
    pub open spec fn message_text(&self) -> Seq<char> {
        match *self {
            PlayerError::Lavalink(ProviderError::ConnectionClosed) =>
                "LavalinkError occurred: ConnectionClosed"@,
            PlayerError::Lavalink(ProviderError::Other(why)) => "LavalinkError occurred: "@ + why@,
            PlayerError::SongbirdJoin(why) => "Error joining Channel: "@ + why@,
            PlayerError::SongbirdLeave(why) => "Error leaving Channel: "@ + why@,
            PlayerError::NotInAVoiceChannel => "Not in a Voice Channel"@,
            PlayerError::PlaylistFull(_) =>
                "Playlist is full: CapacityError: insufficient capacity"@,
            PlayerError::SearchFailed(why) => "Search failed: "@ + why@,
            PlayerError::NoCurrentSong => "There is no current song"@,
        }
    }

    /// The error in words.
    pub fn message(&self) -> (r: String)
        ensures
            r@ == self.message_text(),
    {
        match self {
            PlayerError::Lavalink(ProviderError::ConnectionClosed) => String::from_str(
                "LavalinkError occurred: ConnectionClosed",
            ),
            PlayerError::Lavalink(ProviderError::Other(why)) => String::from_str(
                "LavalinkError occurred: ",
            ).concat(why.as_str()),
            PlayerError::SongbirdJoin(why) => String::from_str("Error joining Channel: ").concat(
                why.as_str(),
            ),
            PlayerError::SongbirdLeave(why) => String::from_str("Error leaving Channel: ").concat(
                why.as_str(),
            ),
            PlayerError::NotInAVoiceChannel => String::from_str("Not in a Voice Channel"),
            PlayerError::PlaylistFull(_) => String::from_str(
                "Playlist is full: CapacityError: insufficient capacity",
            ),
            PlayerError::SearchFailed(why) => String::from_str("Search failed: ").concat(
                why.as_str(),
            ),
            PlayerError::NoCurrentSong => String::from_str("There is no current song"),
        }
    }
}

/// The result of a provider call, as a command hands it on: a failure is a
/// `PlayerError::Lavalink` of the same failure.
pub fn provider_result(outcome: Result<(), ProviderError>) -> (r: Result<(), PlayerError>)
    ensures
        r == match outcome {
            Ok(()) => Ok::<(), PlayerError>(()),
            Err(e) => Err(PlayerError::Lavalink(e)),
        },
{
    match outcome {
        Ok(()) => Ok(()),
        Err(e) => Err(PlayerError::Lavalink(e)),
    }
}

/// The track that plays, with how far it had played at a moment in time:
/// `elapsed` milliseconds at the timestamp `since`.
#[derive(Clone, Debug, PartialEq, Eq)]
pub struct Playing {
    pub elapsed: u64,
    pub since: u64,
    pub track: Track,
}

/// How far a track has played at `now`: what had elapsed at the capture plus
/// the time since, where a clock that ran backwards counts as no time, and
/// the sum stops at the largest number.
pub open spec fn elapsed_at(elapsed: u64, since: u64, now: u64) -> u64 {
    let passed = if now >= since {
        now - since
    } else {
        0
    };
    if elapsed + passed > u64::MAX {
        u64::MAX
    } else {
        (elapsed + passed) as u64
    }
}

impl Playing {
    /// How far the track has played at `now`.
    pub fn elapsed_at(&self, now: u64) -> (r: u64)
        ensures
            r == elapsed_at(self.elapsed, self.since, now),
    {
        self.elapsed.saturating_add(now.saturating_sub(self.since))
    }

    /// An equal copy.
    pub fn duplicate(&self) -> (r: Playing)
        ensures
            r == *self,
    {
        Playing { elapsed: self.elapsed, since: self.since, track: self.track.duplicate() }
    }
}

/// A call that the playback provider is owed.
#[derive(Clone, Debug, PartialEq, Eq)]
pub enum ProviderCall {
    Stop,
    Play(Track),
    Resume,
    Pause,
    /// Seek to a position in milliseconds.
    Seek(u64),
}

/// What a command leaves to its caller: the number of snapshots to publish,
/// and the provider call to make, if any.
#[derive(Clone, Debug, PartialEq, Eq)]
pub struct Outcome {
    pub published: usize,
    pub call: Option<ProviderCall>,
}

/// The state of a player, and the snapshot that is published of it.
pub struct PlayerState {
    /// The identity that owns the player.
    pub bot: u64,
    pub current: Option<Playing>,
    pub playlist: TrackQueue,
    pub history: TrackQueue,
    pub play_state: PlayState,
    pub playback: Playback,
}

/// The mathematical view of a player's state.
pub struct Model {
    pub bot: u64,
    pub current: Option<Playing>,
    pub playlist: Seq<Track>,
    pub history: Seq<Track>,
    pub play_state: PlayState,
    pub playback: Playback,
}

impl View for PlayerState {
    type V = Model;

    open spec fn view(&self) -> Model {
        Model {
            bot: self.bot,
            current: self.current,
            playlist: self.playlist@,
            history: self.history@,
            play_state: self.play_state,
            playback: self.playback,
        }
    }
}

impl PlayerState {
    /// The state of a player that has not played anything yet.
    pub fn new(bot: u64) -> (r: PlayerState)
        ensures
            r@ == Model::fresh(bot),
    {
        PlayerState {
            bot,
            current: None,
            playlist: TrackQueue::new(),
            history: TrackQueue::new(),
            play_state: PlayState::Play,
            playback: Playback::Normal,
        }
    }

    /// A copy of the state, to publish.
    pub fn duplicate(&self) -> (r: PlayerState)
        ensures
            r@ == self@,
    {
        PlayerState {
            bot: self.bot,
            current: match &self.current {
                Some(p) => Some(p.duplicate()),
                None => None,
            },
            playlist: self.playlist.duplicate(),
            history: self.history.duplicate(),
            play_state: self.play_state,
            playback: self.playback,
        }
    }
}

impl Model {
    /// The state of a player that has not played anything yet.
    pub open spec fn fresh(bot: u64) -> Model {
        Model {
            bot,
            current: None,
            playlist: Seq::empty(),
            history: Seq::empty(),
            play_state: PlayState::Play,
            playback: Playback::Normal,
        }
    }

    /// Neither the playlist nor the history holds more than the limit.
    pub open spec fn bounded(self) -> bool {
        self.playlist.len() <= MUSIC_QUEUE_LIMIT && self.history.len() <= MUSIC_QUEUE_LIMIT
    }

    /// The state with a track put away that has played or was skipped: to
    /// the back of the playlist when all tracks loop, else to the front of
    /// the history.
    pub open spec fn retire(self, track: Track) -> Model {
        if self.playback == Playback::AllLoop {
            Model { playlist: pushed_back(self.playlist, track), ..self }
        } else {
            Model { history: pushed_front(self.history, track), ..self }
        }
    }

    /// The state after the track at the front of the playlist is put away.
    pub open spec fn skip_one(self) -> Model {
        (Model { playlist: self.playlist.drop_first(), ..self }).retire(self.playlist.first())
    }

    /// The state after up to `count` tracks at the front of the playlist are
    /// put away, one after the other, for as long as there is one.
    pub open spec fn skip_queued(self, count: nat) -> Model
        decreases count,
    {
        if count == 0 || self.playlist.len() == 0 {
            self
        } else {
            self.skip_one().skip_queued((count - 1) as nat)
        }
    }

    /// The state with the current track, if any, put away.
    pub open spec fn retire_current(self) -> Model {
        match self.current {
            Some(playing) => (Model { current: None, ..self }).retire(playing.track),
            None => self,
        }
    }

    /// The state after a skip over `count` tracks: the current track is put
    /// away, and up to `count - 1` tracks of the playlist after it.
    pub open spec fn skip(self, count: nat) -> Model {
        if count == 0 {
            self
        } else {
            self.retire_current().skip_queued((count - 1) as nat)
        }
    }

    /// Whether a skip over `count` tracks moves any track.
    pub open spec fn skip_moves(self, count: nat) -> bool {
        count > 0 && (self.current is Some || (count > 1 && self.playlist.len() > 0))
    }

    /// The state after the track at the front of the history is put back in
    /// front of the playlist.
    pub open spec fn restore_one(self) -> Model {
        Model {
            history: self.history.drop_first(),
            playlist: pushed_front(self.playlist, self.history.first()),
            ..self
        }
    }

    /// The state after up to `count` tracks of the history are put back in
    /// front of the playlist, the most recent first, for as long as there is
    /// one.
    pub open spec fn restore(self, count: nat) -> Model
        decreases count,
    {
        if count == 0 || self.history.len() == 0 {
            self
        } else {
            self.restore_one().restore((count - 1) as nat)
        }
    }

    /// The state with the current track, if any, put back in front of the
    /// playlist.
    pub open spec fn requeue_current(self) -> Model {
        match self.current {
            Some(playing) => Model {
                current: None,
                playlist: pushed_front(self.playlist, playing.track),
                ..self
            },
            None => self,
        }
    }

    /// The state after the reshuffle of a skip back over `count` tracks: the
    /// current track goes back in front of the playlist, and up to `count`
    /// tracks of the history in front of it.
    pub open spec fn back_skip_shuffle(self, count: nat) -> Model {
        if count == 0 {
            self
        } else {
            self.requeue_current().restore(count)
        }
    }

    /// Whether the reshuffle of a skip back over `count` tracks moves any
    /// track.
    pub open spec fn back_skip_moves(self, count: nat) -> bool {
        count > 0 && (self.current is Some || self.history.len() > 0)
    }

    /// The state after the current track has ended, before the next one is
    /// taken: the track is put away, or, where it loops, set back to its
    /// start at `now`.
    pub open spec fn finish_current(self, now: u64) -> Model {
        match self.current {
            Some(playing) => if self.playback == Playback::OneLoop {
                Model {
                    current: Some(Playing { elapsed: 0, since: now, track: playing.track }),
                    ..self
                }
            } else {
                self.retire_current()
            },
            None => self,
        }
    }

    /// The state with the track at the front of the playlist made the
    /// current one, from its start at `now`, and playing, where no track is
    /// current and the playlist has one.
    pub open spec fn take_next(self, now: u64) -> Model {
        if self.current is None && self.playlist.len() > 0 {
            Model {
                current: Some(Playing { elapsed: 0, since: now, track: self.playlist.first() }),
                playlist: self.playlist.drop_first(),
                play_state: PlayState::Play,
                ..self
            }
        } else {
            self
        }
    }

    /// The state after the player went on to its next track at `now`.
    pub open spec fn play_next(self, now: u64) -> Model {
        self.finish_current(now).take_next(now)
    }

    /// Whether going on to the next track changes anything: a track was
    /// current, or the playlist had one to take.
    pub open spec fn play_next_changes(self) -> bool {
        self.current is Some || self.playlist.len() > 0
    }

    /// The call that the provider is owed for the state as it is: to play
    /// the current track, or to stop where there is none.
    pub open spec fn call(self) -> ProviderCall {
        match self.current {
            Some(playing) => ProviderCall::Play(playing.track),
            None => ProviderCall::Stop,
        }
    }

    /// The playlist after a batch is put at its back: what fits the limit
    /// goes in, in order, and the rest is dropped.
    pub open spec fn enqueued(self, tracks: Seq<Track>) -> Model {
        let room = MUSIC_QUEUE_LIMIT - self.playlist.len();
        let taken = if tracks.len() <= room {
            tracks
        } else {
            tracks.subrange(0, room)
        };
        Model { playlist: self.playlist + taken, ..self }
    }

    /// Whether a batch is refused: it has a first track, and the playlist
    /// has no room for it.
    pub open spec fn refuses(self, tracks: Seq<Track>) -> bool {
        tracks.len() > 0 && self.playlist.len() >= MUSIC_QUEUE_LIMIT
    }

    /// The mode after a request for `mode`: the mode asked for, or the
    /// normal one where the mode asked for is already on.
    pub open spec fn toggled(self, mode: Playback) -> Model {
        Model {
            playback: if self.playback != mode {
                mode
            } else {
                Playback::Normal
            },
            ..self
        }
    }

    /// The state after the provider reported the position of the current
    /// track at `now`.
    pub open spec fn positioned(self, position: u64, now: u64) -> Model {
        match self.current {
            Some(playing) => Model {
                current: Some(Playing { elapsed: position, since: now, track: playing.track }),
                ..self
            },
            None => self,
        }
    }

    /// The state after a batch is enqueued at `now`: unchanged where the
    /// batch is refused; else the playlist is filled, and the player goes on
    /// to its next track if none is current.
    pub open spec fn enqueue(self, tracks: Seq<Track>, now: u64) -> Model {
        if self.refuses(tracks) {
            self
        } else if self.current is None {
            self.enqueued(tracks).play_next(now)
        } else {
            self.enqueued(tracks)
        }
    }

    /// The state after a skip back over `count` tracks at `now`: the
    /// reshuffle, and after it the step to the next track if no track was
    /// current.
    pub open spec fn back_skip(self, count: nat, now: u64) -> Model {
        if count == 0 || self.current is Some {
            self.back_skip_shuffle(count)
        } else {
            self.back_skip_shuffle(count).play_next(now)
        }
    }

    /// What a skip over `count` tracks leaves to its caller: a snapshot to
    /// publish if a track moved, and the call to stop unless the skip is over
    /// no track.
    pub open spec fn skip_outcome(self, count: nat) -> Outcome {
        Outcome {
            published: if self.skip_moves(count) {
                1
            } else {
                0
            },
            call: if count == 0 {
                None
            } else {
                Some(ProviderCall::Stop)
            },
        }
    }

    /// What the step to the next track leaves to its caller: a snapshot to
    /// publish if anything changed, and the call for the state reached.
    pub open spec fn play_next_outcome(self, now: u64) -> Outcome {
        Outcome {
            published: if self.play_next_changes() {
                1
            } else {
                0
            },
            call: Some(self.play_next(now).call()),
        }
    }

    /// What a skip back over `count` tracks at `now` leaves to its caller.
    pub open spec fn back_skip_outcome(self, count: nat, now: u64) -> Outcome {
        if count == 0 {
            Outcome { published: 0, call: None }
        } else if self.current is Some {
            Outcome { published: 1, call: Some(ProviderCall::Stop) }
        } else {
            let next = self.back_skip_shuffle(count).play_next_outcome(now);
            Outcome {
                published: if self.back_skip_moves(count) {
                    (next.published + 1) as usize
                } else {
                    next.published
                },
                call: next.call,
            }
        }
    }

    /// What enqueueing a batch at `now` leaves to its caller, or the error
    /// that refuses the batch.
    pub open spec fn enqueue_outcome(self, tracks: Seq<Track>, now: u64) -> Result<
        Outcome,
        PlayerError,
    > {
        if self.refuses(tracks) {
            Err(PlayerError::PlaylistFull(tracks[0]))
        } else if self.current is None {
            Ok(self.enqueued(tracks).play_next_outcome(now))
        } else {
            Ok(Outcome { published: 1, call: None })
        }
    }

    /// The state after one command.
    pub open spec fn after(self, command: Command) -> Model {
        match command {
            Command::Enqueue(tracks, now) => self.enqueue(tracks, now),
            Command::Skip(count) => self.skip(count),
            Command::BackSkip(count, now) => self.back_skip(count, now),
            Command::TrackEnd(now) => self.play_next(now),
            Command::ClearQueue => Model { playlist: Seq::empty(), ..self },
            Command::Playback(mode) => self.toggled(mode),
            Command::Update(position, now) => self.positioned(position, now),
            Command::Resumed => Model { play_state: PlayState::Play, ..self },
            Command::Paused => Model { play_state: PlayState::Pause, ..self },
        }
    }

    /// The state after a run of commands, the first one first.
    pub open spec fn after_all(self, commands: Seq<Command>) -> Model
        decreases commands.len(),
    {
        if commands.len() == 0 {
            self
        } else {
            self.after(commands.first()).after_all(commands.drop_first())
        }
    }
}

/// Anything that changes a player: a command of a client, with the time at
/// which it arrives where the time matters, or a report of the provider.
pub enum Command {
    Enqueue(Seq<Track>, u64),
    Skip(nat),
    BackSkip(nat, u64),
    TrackEnd(u64),
    ClearQueue,
    Playback(Playback),
    Update(u64, u64),
    Resumed,
    Paused,
}

/// Putting a track away keeps the playlist and the history within the limit.
pub proof fn lemma_retire_bounded(m: Model, track: Track)
    requires
        m.bounded(),
    ensures
        m.retire(track).bounded(),
{
}

/// Putting tracks of the playlist away keeps both within the limit.
pub proof fn lemma_skip_queued_bounded(m: Model, count: nat)
    requires
        m.bounded(),
    ensures
        m.skip_queued(count).bounded(),
    decreases count,
{
    if count > 0 && m.playlist.len() > 0 {
        lemma_skip_queued_bounded(m.skip_one(), (count - 1) as nat);
    }
}

/// Putting tracks of the history back keeps both within the limit.
pub proof fn lemma_restore_bounded(m: Model, count: nat)
    requires
        m.bounded(),
    ensures
        m.restore(count).bounded(),
    decreases count,
{
    if count > 0 && m.history.len() > 0 {
        lemma_restore_bounded(m.restore_one(), (count - 1) as nat);
    }
}

/// Whatever the commands and reports, and in whatever order they come, the
/// playlist and the history never hold more than the limit.
pub proof fn lemma_commands_keep_bounds(m: Model, commands: Seq<Command>)
    requires
        m.bounded(),
    ensures
        m.after_all(commands).bounded(),
    decreases commands.len(),
{
    if commands.len() > 0 {
        let next = m.after(commands.first());
        assert(next.bounded()) by {
            match commands.first() {
                Command::Enqueue(tracks, now) => {},
                Command::Skip(count) => {
                    if count > 0 {
                        lemma_skip_queued_bounded(m.retire_current(), (count - 1) as nat);
                    }
                },
                Command::BackSkip(count, now) => {
                    lemma_restore_bounded(m.requeue_current(), count);
                },
                _ => {},
            }
        }
        lemma_commands_keep_bounds(next, commands.drop_first());
    }
}

/// The provider is never left playing a track that is not current: after a
/// skip, and after a skip back from a current track, no track is current and
/// the call is to stop; after a step to the next track the call is to play
/// the current track, or to stop where there is none.
pub proof fn lemma_call_matches_current(m: Model, count: nat, now: u64)
    requires
        count > 0,
    ensures
        m.skip(count).current is None,
        m.skip_outcome(count).call == Some(ProviderCall::Stop),
        m.current is Some ==> m.back_skip(count, now).current is None && m.back_skip_outcome(
            count,
            now,
        ).call == Some(ProviderCall::Stop),
        m.current is None ==> m.back_skip_outcome(count, now).call == Some(
            m.back_skip(count, now).call(),
        ),
        m.play_next_outcome(now).call == Some(m.play_next(now).call()),
        m.play_next(now).call() is Stop <==> m.play_next(now).current is None,
{
    lemma_skip_queued_keeps_current(m.retire_current(), (count - 1) as nat);
    lemma_restore_keeps_current(m.requeue_current(), count);
}

/// Putting tracks of the playlist away leaves the current track alone.
pub proof fn lemma_skip_queued_keeps_current(m: Model, count: nat)
    ensures
        m.skip_queued(count).current == m.current,
    decreases count,
{
    if count > 0 && m.playlist.len() > 0 {
        lemma_skip_queued_keeps_current(m.skip_one(), (count - 1) as nat);
    }
}

/// Putting tracks of the history back leaves the current track alone.
pub proof fn lemma_restore_keeps_current(m: Model, count: nat)
    ensures
        m.restore(count).current == m.current,
    decreases count,
{
    if count > 0 && m.history.len() > 0 {
        lemma_restore_keeps_current(m.restore_one(), (count - 1) as nat);
    }
}

/// A sequence cut to the limit: its first tracks, up to as many as a
/// playlist or a history can hold.
pub open spec fn within_limit(s: Seq<Track>) -> Seq<Track> {
    if s.len() <= MUSIC_QUEUE_LIMIT {
        s
    } else {
        s.subrange(0, MUSIC_QUEUE_LIMIT as int)
    }
}

/// The first `count` tracks of a sequence, the last of them first.
pub open spec fn reversed_front(s: Seq<Track>, count: nat) -> Seq<Track>
    decreases count,
{
    if count == 0 || s.len() == 0 {
        Seq::empty()
    } else {
        reversed_front(s.drop_first(), (count - 1) as nat).push(s.first())
    }
}

/// Unless all tracks loop, the history after `count` tracks of the playlist
/// were put away holds those tracks, the one put away last first, in front
/// of what it held before, cut to the limit.
pub proof fn lemma_skip_queued_history(m: Model, count: nat)
    requires
        m.bounded(),
        m.playback != Playback::AllLoop,
    ensures
        m.skip_queued(count).history == within_limit(reversed_front(m.playlist, count) + m.history),
    decreases count,
{
    if count > 0 && m.playlist.len() > 0 {
        let next = m.skip_one();
        lemma_skip_queued_history(next, (count - 1) as nat);
        let front = reversed_front(next.playlist, (count - 1) as nat);
        let first = m.playlist.first();
        assert(next.history == within_limit(seq![first] + m.history));
        assert(reversed_front(m.playlist, count) + m.history =~= front + (seq![first] + m.history));
        assert(within_limit(front + within_limit(seq![first] + m.history)) =~= within_limit(
            front + (seq![first] + m.history),
        ));
    } else {
        assert(reversed_front(m.playlist, count) + m.history =~= m.history);
    }
}

/// While all tracks loop, putting `count` tracks of the playlist away turns
/// the playlist by that many places and changes nothing else.
pub proof fn lemma_skip_queued_turns_loop(m: Model, count: nat)
    requires
        m.bounded(),
        m.playback == Playback::AllLoop,
        count <= m.playlist.len(),
    ensures
        m.skip_queued(count) == (Model {
            playlist: m.playlist.subrange(count as int, m.playlist.len() as int)
                + m.playlist.subrange(0, count as int),
            ..m
        }),
    decreases count,
{
    let len = m.playlist.len() as int;
    if count > 0 && m.playlist.len() > 0 {
        let next = m.skip_one();
        assert(next.playlist =~= m.playlist.subrange(1, len).push(m.playlist[0]));
        assert(next.playlist.len() == len);
        lemma_skip_queued_turns_loop(next, (count - 1) as nat);
        assert(next.playlist.subrange(count - 1, len) + next.playlist.subrange(0, count - 1)
            =~= m.playlist.subrange(count as int, len) + m.playlist.subrange(0, count as int));
    } else {
        assert(m.playlist.subrange(0, len) + m.playlist.subrange(0, 0) =~= m.playlist);
    }
}

/// Putting `count` tracks of the history back takes exactly those off its
/// front, or all of them where it holds fewer, and puts them in front of the
/// playlist, the one put back last first, cut to the limit; nothing else
/// changes.
pub proof fn lemma_restore_moves_front(m: Model, count: nat)
    requires
        m.bounded(),
    ensures
        m.restore(count) == (Model {
            history: if count <= m.history.len() {
                m.history.subrange(count as int, m.history.len() as int)
            } else {
                Seq::empty()
            },
            playlist: within_limit(reversed_front(m.history, count) + m.playlist),
            ..m
        }),
    decreases count,
{
    let len = m.history.len() as int;
    if count > 0 && m.history.len() > 0 {
        let next = m.restore_one();
        lemma_restore_moves_front(next, (count - 1) as nat);
        let front = reversed_front(next.history, (count - 1) as nat);
        let first = m.history.first();
        assert(next.playlist == within_limit(seq![first] + m.playlist));
        assert(reversed_front(m.history, count) + m.playlist =~= front + (seq![first]
            + m.playlist));
        assert(within_limit(front + within_limit(seq![first] + m.playlist)) =~= within_limit(
            front + (seq![first] + m.playlist),
        ));
        if count <= m.history.len() {
            assert(next.history.subrange(count - 1, next.history.len() as int)
                =~= m.history.subrange(count as int, len));
        }
        assert(m.restore(count).history =~= if count <= m.history.len() {
            m.history.subrange(count as int, len)
        } else {
            Seq::empty()
        });
    } else {
        assert(reversed_front(m.history, count) + m.playlist =~= m.playlist);
        assert(m.history.subrange(0, len) =~= m.history);
        assert(m.history.len() == 0 ==> m.history =~= Seq::empty());
    }
}

/// A batch that is not refused fills the playlist with its tracks, in
/// order, up to the limit.
pub proof fn lemma_enqueued_fills(m: Model, tracks: Seq<Track>)
    requires
        m.bounded(),
    ensures
        m.enqueued(tracks).playlist == within_limit(m.playlist + tracks),
        m.enqueued(tracks).bounded(),
{
    let room = MUSIC_QUEUE_LIMIT - m.playlist.len();
    if tracks.len() > room {
        assert(m.playlist + tracks.subrange(0, room) =~= (m.playlist + tracks).subrange(
            0,
            MUSIC_QUEUE_LIMIT as int,
        ));
    }
}

/// A skip over no track and a skip back over no track change nothing.
pub proof fn lemma_skip_none_is_noop(m: Model, now: u64)
    ensures
        m.skip(0) == m,
        !m.skip_moves(0),
        m.back_skip(0, now) == m,
        !m.back_skip_moves(0),
{
}

/// Asking for the same mode twice in a row leaves the normal mode on,
/// unless the mode was on before the first request: then the first request
/// turns it off and the second turns it on again.
pub proof fn lemma_mode_twice_is_normal(m: Model, mode: Playback)
    requires
        m.playback != mode || mode == Playback::Normal,
    ensures
        m.toggled(mode).toggled(mode).playback == Playback::Normal,
        m.toggled(mode).toggled(mode) == (Model { playback: Playback::Normal, ..m }),
{
}

/// A batch for a full playlist is refused whatever it holds, and a refused
/// batch changes nothing.
pub proof fn lemma_full_playlist_refuses(m: Model, tracks: Seq<Track>, now: u64)
    requires
        m.playlist.len() == MUSIC_QUEUE_LIMIT,
        tracks.len() > 0,
    ensures
        m.refuses(tracks),
        m.enqueue(tracks, now) == m,
{
}

/// Unless all tracks loop, putting `count` tracks of the playlist away
/// takes exactly those off its front, or all of them where it holds fewer,
/// and changes nothing else but the history.
pub proof fn lemma_skip_queued_takes_front(m: Model, count: nat)
    requires
        m.bounded(),
        m.playback != Playback::AllLoop,
    ensures
        m.skip_queued(count).current == m.current,
        m.skip_queued(count).playback == m.playback,
        m.skip_queued(count).play_state == m.play_state,
        m.skip_queued(count).bot == m.bot,
        count <= m.playlist.len() ==> m.skip_queued(count).playlist == m.playlist.subrange(
            count as int,
            m.playlist.len() as int,
        ),
        count > m.playlist.len() ==> m.skip_queued(count).playlist.len() == 0,
    decreases count,
{
    if count > 0 && m.playlist.len() > 0 {
        let next = m.skip_one();
        lemma_skip_queued_takes_front(next, (count - 1) as nat);
        if count <= m.playlist.len() {
            assert(next.playlist.subrange(count - 1, next.playlist.len() as int)
                =~= m.playlist.subrange(count as int, m.playlist.len() as int));
        }
    } else {
        assert(m.playlist.subrange(0, m.playlist.len() as int) =~= m.playlist);
    }
}

/// The player of one voice channel.
pub struct Player {
    channel: u64,
    guild: u64,
    player_state: PlayerState,
}

impl View for Player {
    type V = Model;

    closed spec fn view(&self) -> Model {
        self.player_state@
    }
}

impl Player {
    /// The channel that the player serves.
    pub closed spec fn channel(&self) -> u64 {
        self.channel
    }

    /// The guild that the player's channel belongs to.
    pub closed spec fn guild(&self) -> u64 {
        self.guild
    }

    /// A player for a channel of a guild, owned by `bot`, that has not
    /// played anything yet.
    pub fn new(bot: u64, channel: u64, guild: u64) -> (r: Player)
        ensures
            r@ == Model::fresh(bot),
            r.channel() == channel,
            r.guild() == guild,
    {
        Player { channel, guild, player_state: PlayerState::new(bot) }
    }

    /// The channel that the player serves.
    pub fn get_channel(&self) -> (r: u64)
        ensures
            r == self.channel(),
    {
        self.channel
    }

    /// The guild that the player's channel belongs to.
    pub fn get_guild(&self) -> (r: u64)
        ensures
            r == self.guild(),
    {
        self.guild
    }

    /// The identity that owns the player.
    pub fn get_bot(&self) -> (r: u64)
        ensures
            r == self@.bot,
    {
        self.player_state.bot
    }

    /// The state of the player.
    pub fn state(&self) -> (r: &PlayerState)
        ensures
            r@ == self@,
            self@.bounded(),
    {
        let _ = self.player_state.playlist.len();
        let _ = self.player_state.history.len();
        &self.player_state
    }

    /// Takes in the result of a call to the provider to resume. After a
    /// call that succeeded the player plays, and one snapshot is published;
    /// after one that failed nothing changes.
    pub fn resume(&mut self, provider: Result<(), ProviderError>) -> (r: Result<
        Outcome,
        PlayerError,
    >)
        ensures
            final(self).channel() == old(self).channel(),
            final(self).guild() == old(self).guild(),
            match provider {
                Ok(()) => r == Ok::<Outcome, PlayerError>(Outcome { published: 1, call: None })
                    && final(self)@ == (Model { play_state: PlayState::Play, ..old(self)@ }),
                Err(e) => r == Err::<Outcome, PlayerError>(PlayerError::Lavalink(e)) && final(self)@ == old(self)@,
            },
    {
        match provider {
            Ok(()) => {
                self.player_state.play_state = PlayState::Play;
                Ok(Outcome { published: 1, call: None })
            },
            Err(e) => Err(PlayerError::Lavalink(e)),
        }
    }

    /// Takes in the result of a call to the provider to pause. After a call
    /// that succeeded the player is paused, and one snapshot is published;
    /// after one that failed nothing changes.
    pub fn pause(&mut self, provider: Result<(), ProviderError>) -> (r: Result<
        Outcome,
        PlayerError,
    >)
        ensures
            final(self).channel() == old(self).channel(),
            final(self).guild() == old(self).guild(),
            match provider {
                Ok(()) => r == Ok::<Outcome, PlayerError>(Outcome { published: 1, call: None })
                    && final(self)@ == (Model { play_state: PlayState::Pause, ..old(self)@ }),
                Err(e) => r == Err::<Outcome, PlayerError>(PlayerError::Lavalink(e)) && final(self)@ == old(self)@,
            },
    {
        match provider {
            Ok(()) => {
                self.player_state.play_state = PlayState::Pause;
                Ok(Outcome { published: 1, call: None })
            },
            Err(e) => Err(PlayerError::Lavalink(e)),
        }
    }

    /// The call that toggles between playing and paused: to pause while
    /// playing, to resume while paused.
    pub fn pause_resume_call(&self) -> (r: ProviderCall)
        ensures
            r == match self@.play_state {
                PlayState::Play => ProviderCall::Pause,
                PlayState::Pause => ProviderCall::Resume,
            },
    {
        match self.player_state.play_state {
            PlayState::Play => ProviderCall::Pause,
            PlayState::Pause => ProviderCall::Resume,
        }
    }

    /// Takes in the result of the call that `pause_resume_call` named: a
    /// player that plays is paused, one that is paused resumes.
    pub fn dynamic_pause_resume(&mut self, provider: Result<(), ProviderError>) -> (r: Result<
        Outcome,
        PlayerError,
    >)
        ensures
            final(self).channel() == old(self).channel(),
            final(self).guild() == old(self).guild(),
            match provider {
                Ok(()) => r == Ok::<Outcome, PlayerError>(Outcome { published: 1, call: None })
                    && final(self)@ == (Model {
                    play_state: match old(self)@.play_state {
                        PlayState::Play => PlayState::Pause,
                        PlayState::Pause => PlayState::Play,
                    },
                    ..old(self)@
                }),
                Err(e) => r == Err::<Outcome, PlayerError>(PlayerError::Lavalink(e)) && final(self)@ == old(self)@,
            },
    {
        match self.player_state.play_state {
            PlayState::Play => self.pause(provider),
            PlayState::Pause => self.resume(provider),
        }
    }

    /// Puts a track away that has played or was skipped.
    fn retire(&mut self, track: Track)
        ensures
            final(self)@ == old(self)@.retire(track),
            final(self).channel() == old(self).channel(),
            final(self).guild() == old(self).guild(),
    {
        match self.player_state.playback {
            Playback::AllLoop => self.push_to_playlist_back(track),
            _ => self.push_to_history_front(track),
        }
    }

    /// Puts a track in front of the history; a full history drops its
    /// oldest track.
    fn push_to_history_front(&mut self, track: Track)
        ensures
            final(self)@ == (Model {
                history: pushed_front(old(self)@.history, track),
                ..old(self)@
            }),
            final(self).channel() == old(self).channel(),
            final(self).guild() == old(self).guild(),
    {
        self.player_state.history.force_push_front(track);
    }

    /// Puts a track at the back of the playlist; a full playlist drops the
    /// track at its back.
    fn push_to_playlist_back(&mut self, track: Track)
        ensures
            final(self)@ == (Model {
                playlist: pushed_back(old(self)@.playlist, track),
                ..old(self)@
            }),
            final(self).channel() == old(self).channel(),
            final(self).guild() == old(self).guild(),
    {
        self.player_state.playlist.force_push_back(track);
    }

    /// Puts a track in front of the playlist; a full playlist drops the
    /// track at its back.
    fn push_to_playlist_front(&mut self, track: Track)
        ensures
            final(self)@ == (Model {
                playlist: pushed_front(old(self)@.playlist, track),
                ..old(self)@
            }),
            final(self).channel() == old(self).channel(),
            final(self).guild() == old(self).guild(),
    {
        self.player_state.playlist.force_push_front(track);
    }

    /// Skips over `i` tracks. A skip over none does nothing. Any other puts
    /// the current track away, and after it up to `i - 1` tracks from the
    /// front of the playlist; then the provider is told to stop, which makes
    /// it report the end of the track. A snapshot is published if a track
    /// moved.
    pub fn skip(&mut self, i: usize) -> (out: Outcome)
        ensures
            out == old(self)@.skip_outcome(i as nat),
            final(self)@ == old(self)@.skip(i as nat),
            final(self)@.bounded(),
            final(self).channel() == old(self).channel(),
            final(self).guild() == old(self).guild(),
            out.published == if old(self)@.skip_moves(i as nat) {
                1usize
            } else {
                0usize
            },
            out.call == if i == 0 {
                None
            } else {
                Some(ProviderCall::Stop)
            },
            i == 0 ==> final(self)@ == old(self)@ && out == (Outcome { published: 0, call: None }),
    {
        if i == 0 {
            let _ = self.state();
            return Outcome { published: 0, call: None };
        }
        let mut changed = false;
        if let Some(playing) = self.player_state.current.take() {
            self.retire(playing.track);
            changed = true;
        }
        let ghost start = self@;
        let mut k: usize = 0;
        while k < i - 1
            invariant
                0 < i,
                k <= i - 1,
                self.channel() == old(self).channel(),
                self.guild() == old(self).guild(),
                start == old(self)@.retire_current(),
                self@.skip_queued((i - 1 - k) as nat) == start.skip_queued((i - 1) as nat),
                changed == (old(self)@.current is Some || k > 0),
                k == 0 ==> self@ == start,
                k > 0 ==> start.playlist.len() > 0,
            ensures
                self@ == start.skip_queued((i - 1) as nat),
                self.channel() == old(self).channel(),
                self.guild() == old(self).guild(),
                changed == (old(self)@.current is Some || (i > 1 && start.playlist.len() > 0)),
            decreases i - 1 - k,
        {
            match self.player_state.playlist.pop_front() {
                Some(track) => {
                    self.retire(track);
                    changed = true;
                    k += 1;
                },
                None => {
                    break ;
                },
            }
        }
        let _ = self.state();
        Outcome {
            published: if changed {
                1
            } else {
                0
            },
            call: Some(ProviderCall::Stop),
        }
    }
    /// Goes on to the next track at `now`. The current track is put away,
    /// or set back to its start where it loops; then, if no track is
    /// current, the one at the front of the playlist becomes current and the
    /// player plays. One snapshot is published if anything changed. The
    /// provider is told to play the current track, or to stop where there is
    /// none.
    pub fn play_next(&mut self, now: u64) -> (out: Outcome)
        ensures
            out == old(self)@.play_next_outcome(now),
            final(self)@ == old(self)@.play_next(now),
            final(self)@.bounded(),
            final(self).channel() == old(self).channel(),
            final(self).guild() == old(self).guild(),
            out.published == if old(self)@.play_next_changes() {
                1usize
            } else {
                0usize
            },
            out.call == Some(final(self)@.call()),
    {
        let mut changed = false;
        match self.player_state.playback {
            Playback::OneLoop => {
                if let Some(playing) = self.player_state.current.take() {
                    self.player_state.current = Some(
                        Playing { elapsed: 0, since: now, track: playing.track },
                    );
                    changed = true;
                }
            },
            _ => {
                if let Some(playing) = self.player_state.current.take() {
                    self.retire(playing.track);
                    changed = true;
                }
            },
        }
        if self.player_state.current.is_none() {
            if let Some(track) = self.player_state.playlist.pop_front() {
                self.player_state.current = Some(Playing { elapsed: 0, since: now, track });
                self.player_state.play_state = PlayState::Play;
                changed = true;
            }
        }
        let _ = self.state();
        let call = match &self.player_state.current {
            None => ProviderCall::Stop,
            Some(playing) => ProviderCall::Play(playing.track.duplicate()),
        };
        Outcome {
            published: if changed {
                1
            } else {
                0
            },
            call: Some(call),
        }
    }

    /// Skips back over `i` tracks at `now`. A skip over none does nothing.
    /// Any other puts the current track back in front of the playlist, and
    /// up to `i` tracks of the history in front of it; a snapshot is
    /// published if a track moved. If a track was current, the provider is
    /// told to stop, which makes it report the end of the track; otherwise
    /// the player goes on to its next track at once.
    pub fn back_skip(&mut self, i: usize, now: u64) -> (out: Outcome)
        ensures
            final(self)@.bounded(),
            final(self).channel() == old(self).channel(),
            final(self).guild() == old(self).guild(),
            out == old(self)@.back_skip_outcome(i as nat, now),
            final(self)@ == old(self)@.back_skip(i as nat, now),
            i == 0 ==> final(self)@ == old(self)@ && out == (Outcome { published: 0, call: None }),
            i > 0 && old(self)@.current is Some ==> {
                &&& final(self)@ == old(self)@.back_skip_shuffle(i as nat)
                &&& out == (Outcome { published: 1, call: Some(ProviderCall::Stop) })
            },
            i > 0 && old(self)@.current is None ==> {
                let shuffled = old(self)@.back_skip_shuffle(i as nat);
                &&& final(self)@ == shuffled.play_next(now)
                &&& out.call == Some(final(self)@.call())
                &&& out.published == (if old(self)@.back_skip_moves(i as nat) {
                    1usize
                } else {
                    0usize
                }) + (if shuffled.play_next_changes() {
                    1usize
                } else {
                    0usize
                })
            },
    {
        if i == 0 {
            let _ = self.state();
            return Outcome { published: 0, call: None };
        }
        let mut changed = false;
        let mut current_was_some = false;
        if let Some(playing) = self.player_state.current.take() {
            self.push_to_playlist_front(playing.track);
            changed = true;
            current_was_some = true;
        }
        let ghost start = self@;
        let mut k: usize = 0;
        while k < i
            invariant
                0 < i,
                k <= i,
                self.channel() == old(self).channel(),
                self.guild() == old(self).guild(),
                start == old(self)@.requeue_current(),
                self@.restore((i - k) as nat) == start.restore(i as nat),
                changed == (old(self)@.current is Some || k > 0),
                k == 0 ==> self@ == start,
                k > 0 ==> start.history.len() > 0,
            ensures
                self@ == start.restore(i as nat),
                self.channel() == old(self).channel(),
                self.guild() == old(self).guild(),
                changed == (old(self)@.current is Some || start.history.len() > 0),
            decreases i - k,
        {
            match self.player_state.history.pop_front() {
                Some(track) => {
                    self.push_to_playlist_front(track);
                    changed = true;
                    k += 1;
                },
                None => {
                    break ;
                },
            }
        }
        if current_was_some {
            let _ = self.state();
            Outcome { published: 1, call: Some(ProviderCall::Stop) }
        } else {
            let next = self.play_next(now);
            Outcome {
                published: if changed {
                    next.published + 1
                } else {
                    next.published
                },
                call: next.call,
            }
        }
    }

    /// Puts a batch of tracks at the back of the playlist at `now`. A batch
    /// whose first track finds the playlist full is refused as a whole, and
    /// nothing changes. Otherwise the tracks go in, in order, for as long as
    /// there is room, and the rest is dropped. Then, if no track is current,
    /// the player goes on to its next track; else one snapshot is published.
    pub fn enqueue(&mut self, tracks: Vec<Track>, now: u64) -> (r: Result<Outcome, PlayerError>)
        ensures
            final(self)@.bounded(),
            final(self).channel() == old(self).channel(),
            final(self).guild() == old(self).guild(),
            r == old(self)@.enqueue_outcome(tracks@, now),
            final(self)@ == old(self)@.enqueue(tracks@, now),
            r is Err <==> old(self)@.refuses(tracks@),
            old(self)@.refuses(tracks@) ==> final(self)@ == old(self)@ && r == Err::<
                Outcome,
                PlayerError,
            >(PlayerError::PlaylistFull(tracks@[0])),
            !old(self)@.refuses(tracks@) ==> {
                let filled = old(self)@.enqueued(tracks@);
                if old(self)@.current is None {
                    &&& final(self)@ == filled.play_next(now)
                    &&& r == Ok::<Outcome, PlayerError>(
                        Outcome {
                            published: if filled.play_next_changes() {
                                1usize
                            } else {
                                0usize
                            },
                            call: Some(final(self)@.call()),
                        },
                    )
                } else {
                    &&& final(self)@ == filled
                    &&& r == Ok::<Outcome, PlayerError>(Outcome { published: 1, call: None })
                }
            },
    {
        let _ = self.state();
        if tracks.len() > 0 && self.player_state.playlist.is_full() {
            return Err(PlayerError::PlaylistFull(tracks[0].duplicate()));
        }
        let ghost before = self@;
        let room = MUSIC_QUEUE_LIMIT - self.player_state.playlist.len();
        let mut i: usize = 0;
        while i < tracks.len() && i < room
            invariant
                i <= tracks.len(),
                i <= room,
                room == MUSIC_QUEUE_LIMIT - before.playlist.len(),
                before.playlist.len() <= MUSIC_QUEUE_LIMIT,
                self.channel() == old(self).channel(),
                self.guild() == old(self).guild(),
                self@ == (Model {
                    playlist: before.playlist + tracks@.subrange(0, i as int),
                    ..before
                }),
            decreases tracks.len() - i,
        {
            let _ = self.player_state.playlist.push_back(tracks[i].duplicate());
            assert(tracks@.subrange(0, i + 1) =~= tracks@.subrange(0, i as int).push(
                tracks@[i as int],
            ));
            assert(before.playlist + tracks@.subrange(0, i + 1) =~= (before.playlist
                + tracks@.subrange(0, i as int)).push(tracks@[i as int]));
            i += 1;
        }
        assert(tracks@.len() <= room ==> tracks@.subrange(0, i as int) =~= tracks@);
        if self.player_state.current.is_none() {
            Ok(self.play_next(now))
        } else {
            let _ = self.state();
            Ok(Outcome { published: 1, call: None })
        }
    }

    /// Asks for a jump to a position, in milliseconds, in the current track.
    /// Without a current track there is nothing to jump in.
    pub fn jump(&self, pos: u64) -> (r: Result<ProviderCall, PlayerError>)
        ensures
            r == if self@.current is Some {
                Ok::<ProviderCall, PlayerError>(ProviderCall::Seek(pos))
            } else {
                Err::<ProviderCall, PlayerError>(PlayerError::NoCurrentSong)
            },
    {
        if self.player_state.current.is_some() {
            Ok(ProviderCall::Seek(pos))
        } else {
            Err(PlayerError::NoCurrentSong)
        }
    }

    /// Empties the playlist. A snapshot is published if it held a track.
    pub fn clear_queue(&mut self) -> (out: Outcome)
        ensures
            final(self)@ == (Model { playlist: Seq::empty(), ..old(self)@ }),
            final(self).channel() == old(self).channel(),
            final(self).guild() == old(self).guild(),
            out.call is None,
            out.published == if old(self)@.playlist.len() > 0 {
                1usize
            } else {
                0usize
            },
    {
        if !self.player_state.playlist.is_empty() {
            self.player_state.playlist.clear();
            Outcome { published: 1, call: None }
        } else {
            assert(self@.playlist =~= Seq::empty());
            Outcome { published: 0, call: None }
        }
    }

    /// Asks for a mode: the mode is taken on, unless it is on already, in
    /// which case the normal mode is. One snapshot is published either way.
    pub fn playback(&mut self, playback: Playback) -> (out: Outcome)
        ensures
            final(self)@ == old(self)@.toggled(playback),
            final(self).channel() == old(self).channel(),
            final(self).guild() == old(self).guild(),
            out == (Outcome { published: 1, call: None }),
    {
        if self.player_state.playback != playback {
            self.player_state.playback = playback;
        } else {
            self.player_state.playback = Playback::Normal;
        }
        Outcome { published: 1, call: None }
    }

    /// Takes in the provider's report of the position, in milliseconds, of
    /// the current track at `now`. With a current track its position is
    /// replaced and one snapshot is published, whatever the position was
    /// before.
    pub fn update(&mut self, position: u64, now: u64) -> (out: Outcome)
        ensures
            final(self)@ == old(self)@.positioned(position, now),
            final(self).channel() == old(self).channel(),
            final(self).guild() == old(self).guild(),
            out.call is None,
            out.published == if old(self)@.current is Some {
                1usize
            } else {
                0usize
            },
    {
        if let Some(playing) = self.player_state.current.take() {
            self.player_state.current = Some(
                Playing { elapsed: position, since: now, track: playing.track },
            );
            Outcome { published: 1, call: None }
        } else {
            Outcome { published: 0, call: None }
        }
    }

    /// Takes in the provider's report that the track ended at `now`: the
    /// player goes on to its next track.
    pub fn track_end(&mut self, now: u64) -> (out: Outcome)
        ensures
            out == old(self)@.play_next_outcome(now),
            final(self)@ == old(self)@.play_next(now),
            final(self)@.bounded(),
            final(self).channel() == old(self).channel(),
            final(self).guild() == old(self).guild(),
            out.published == if old(self)@.play_next_changes() {
                1usize
            } else {
                0usize
            },
            out.call == Some(final(self)@.call()),
    {
        self.play_next(now)
    }

    /// Takes in the provider's report that a track started. Nothing
    /// follows from it.
    pub fn track_start(&mut self)
        ensures
            *final(self) == *old(self),
    {
    }

    /// Takes in what the provider's search gave: the tracks found, unless
    /// the provider failed or reports that loading failed.
    pub fn search(found: Result<Found, ProviderError>) -> (r: Result<Vec<Track>, PlayerError>)
        ensures
            match found {
                Err(e) => r == Err::<Vec<Track>, PlayerError>(PlayerError::Lavalink(e)),
                Ok(f) => if f.load_type@ == "LOAD_FAILED"@ {
                    r == Err::<Vec<Track>, PlayerError>(PlayerError::SearchFailed(f.load_type))
                } else {
                    r == Ok::<Vec<Track>, PlayerError>(f.tracks)
                },
            },
    {
        match found {
            Err(e) => Err(PlayerError::Lavalink(e)),
            Ok(f) => {
                if f.load_type == String::from_str("LOAD_FAILED") {
                    Err(PlayerError::SearchFailed(f.load_type))
                } else {
                    Ok(f.tracks)
                }
            },
        }
    }

    /// Begins to take the player out of its channel; its playlist and its
    /// history are gone with it. A player that is in no voice channel cannot
    /// leave one; any other leaves its channel first.
    pub fn disconnect(self, in_voice_channel: bool) -> (r: Disconnect)
        ensures
            r == if in_voice_channel {
                Disconnect::LeaveChannel(self.guild())
            } else {
                Disconnect::Finished(Err(PlayerError::NotInAVoiceChannel))
            },
    {
        if in_voice_channel {
            Disconnect::LeaveChannel(self.guild)
        } else {
            Disconnect::Finished(Err(PlayerError::NotInAVoiceChannel))
        }
    }
}

/// What the provider's search gave: how loading went, and the tracks.
#[derive(Debug, PartialEq, Eq)]
pub struct Found {
    pub load_type: String,
    pub tracks: Vec<Track>,
}

/// A step on the way out of a voice channel.
#[derive(Debug, PartialEq, Eq)]
pub enum Disconnect {
    /// Leave the voice channel of the guild, then call `Disconnect::left`.
    LeaveChannel(u64),
    /// End the provider's session for the guild, then call
    /// `Disconnect::destroyed`.
    DestroySession(u64),
    /// Nothing is left to do.
    Finished(Result<(), PlayerError>),
}

impl Disconnect {
    /// Takes in how leaving the voice channel of a guild went: after a
    /// failure nothing more is done; else the provider's session is ended.
    pub fn left(guild: u64, outcome: Result<(), String>) -> (r: Disconnect)
        ensures
            r == match outcome {
                Ok(()) => Disconnect::DestroySession(guild),
                Err(why) => Disconnect::Finished(Err(PlayerError::SongbirdLeave(why))),
            },
    {
        match outcome {
            Ok(()) => Disconnect::DestroySession(guild),
            Err(why) => Disconnect::Finished(Err(PlayerError::SongbirdLeave(why))),
        }
    }

    /// Takes in how ending the provider's session went, which ends the way
    /// out.
    pub fn destroyed(outcome: Result<(), ProviderError>) -> (r: Disconnect)
        ensures
            r == Disconnect::Finished(
                match outcome {
                    Ok(()) => Ok(()),
                    Err(e) => Err(PlayerError::Lavalink(e)),
                },
            ),
    {
        Disconnect::Finished(provider_result(outcome))
    }
}

/// How bringing a player into a channel goes on from joining the voice
/// channel: after a failure to join there is no player; else the provider's
/// session is opened next.
pub fn joined(outcome: Result<(), String>) -> (r: Result<(), PlayerError>)
    ensures
        r == match outcome {
            Ok(()) => Ok::<(), PlayerError>(()),
            Err(why) => Err(PlayerError::SongbirdJoin(why)),
        },
{
    match outcome {
        Ok(()) => Ok(()),
        Err(why) => Err(PlayerError::SongbirdJoin(why)),
    }
}

} // verus!
