//! The messages exchanged with a companion client, and the snapshot of a
//! player as a client sees it.
//!
//! Every type has a mathematical view; the contracts of the session logic
//! and of the patch functions speak of those views.

use vstd::prelude::*;

verus! {

/// A track as shown to a client. Durations are in milliseconds.
#[derive(Clone, Debug, PartialEq, Eq)]
pub struct Track {
    pub len: u64,
    pub pos: u64,
    pub title: String,
    pub uri: String,
}

/// What a track as shown to a client holds.
pub struct TrackView {
    pub len: u64,
    pub pos: u64,
    pub title: Seq<char>,
    pub uri: Seq<char>,
}

impl View for Track {
    type V = TrackView;

    open spec fn view(&self) -> TrackView {
        TrackView { len: self.len, pos: self.pos, title: self.title@, uri: self.uri@ }
    }
}

/// The views of a sequence of tracks, in order.
pub open spec fn track_views(s: Seq<Track>) -> Seq<TrackView> {
    Seq::new(s.len(), |i: int| s[i]@)
}

impl Track {
    /// A copy with the same view.
    pub fn duplicate(&self) -> (r: Track)
        ensures
            r@ == self@,
    {
        Track { len: self.len, pos: self.pos, title: self.title.clone(), uri: self.uri.clone() }
    }

    /// Whether two tracks agree in every field.
    pub fn same(&self, other: &Track) -> (b: bool)
        ensures
            b == (self@ == other@),
    {
        self.len == other.len && self.pos == other.pos && self.title == other.title && self.uri
            == other.uri
    }
}

/// A copy of a list of tracks.
pub fn duplicate_tracks(v: &Vec<Track>) -> (r: Vec<Track>)
    ensures
        track_views(r@) == track_views(v@),
{
    let mut r: Vec<Track> = Vec::new();
    let mut i: usize = 0;
    while i < v.len()
        invariant
            i <= v.len(),
            r.len() == i,
            forall|j: int| 0 <= j < i ==> r[j]@ == v[j]@,
        decreases v.len() - i,
    {
        r.push(v[i].duplicate());
        i += 1;
    }
    assert(track_views(r@) =~= track_views(v@));
    r
}

/// Whether two lists hold the same tracks in the same order.
pub fn same_tracks(a: &Vec<Track>, b: &Vec<Track>) -> (r: bool)
    ensures
        r == (track_views(a@) == track_views(b@)),
{
    if a.len() != b.len() {
        assert(track_views(a@).len() != track_views(b@).len());
        return false;
    }
    let mut i: usize = 0;
    while i < a.len()
        invariant
            i <= a.len(),
            a.len() == b.len(),
            forall|j: int| 0 <= j < i ==> a[j]@ == b[j]@,
        decreases a.len() - i,
    {
        if !a[i].same(&b[i]) {
            assert(track_views(a@)[i as int] == a[i as int]@);
            assert(track_views(b@)[i as int] == b[i as int]@);
            return false;
        }
        i += 1;
    }
    assert(track_views(a@) =~= track_views(b@));
    true
}

/// How a player goes on when a track ends.
#[derive(Clone, Copy, Debug, PartialEq, Eq, Structural)]
pub enum PlayMode {
    Normal,
    LoopAll,
    LoopOne,
}

/// The identity that owns a player, as shown to a client.
#[derive(Clone, Debug, PartialEq, Eq)]
pub struct BotInfo {
    pub name: String,
    pub avatar: String,
}

/// What the identity that owns a player holds.
pub struct BotInfoView {
    pub name: Seq<char>,
    pub avatar: Seq<char>,
}

impl View for BotInfo {
    type V = BotInfoView;

    open spec fn view(&self) -> BotInfoView {
        BotInfoView { name: self.name@, avatar: self.avatar@ }
    }
}

impl BotInfo {
    /// A copy with the same view.
    pub fn duplicate(&self) -> (r: BotInfo)
        ensures
            r@ == self@,
    {
        BotInfo { name: self.name.clone(), avatar: self.avatar.clone() }
    }

    /// Whether two identities agree in every field.
    pub fn same(&self, other: &BotInfo) -> (b: bool)
        ensures
            b == (self@ == other@),
    {
        self.name == other.name && self.avatar == other.avatar
    }
}

/// The view of an optional track.
pub open spec fn opt_track_view(t: Option<Track>) -> Option<TrackView> {
    match t {
        Some(t) => Some(t@),
        None => None,
    }
}

/// A copy of an optional track.
pub fn duplicate_opt_track(t: &Option<Track>) -> (r: Option<Track>)
    ensures
        opt_track_view(r) == opt_track_view(*t),
{
    match t {
        Some(t) => Some(t.duplicate()),
        None => None,
    }
}

/// Whether two optional tracks are both absent or agree in every field.
pub fn same_opt_track(a: &Option<Track>, b: &Option<Track>) -> (r: bool)
    ensures
        r == (opt_track_view(*a) == opt_track_view(*b)),
{
    match (a, b) {
        (Some(x), Some(y)) => x.same(y),
        (None, None) => true,
        _ => false,
    }
}

/// A snapshot of one player: everything a client needs to draw it.
#[derive(Clone, Debug, PartialEq, Eq)]
pub struct PlayerState {
    pub bot: BotInfo,
    pub paused: bool,
    pub mode: PlayMode,
    pub current: Option<Track>,
    pub history: Vec<Track>,
    pub queue: Vec<Track>,
}

/// What a snapshot holds.
pub struct PlayerStateView {
    pub bot: BotInfoView,
    pub paused: bool,
    pub mode: PlayMode,
    pub current: Option<TrackView>,
    pub history: Seq<TrackView>,
    pub queue: Seq<TrackView>,
}

impl View for PlayerState {
    type V = PlayerStateView;

    open spec fn view(&self) -> PlayerStateView {
        PlayerStateView {
            bot: self.bot@,
            paused: self.paused,
            mode: self.mode,
            current: opt_track_view(self.current),
            history: track_views(self.history@),
            queue: track_views(self.queue@),
        }
    }
}

impl PlayerState {
    /// A copy with the same view.
    pub fn duplicate(&self) -> (r: PlayerState)
        ensures
            r@ == self@,
    {
        PlayerState {
            bot: self.bot.duplicate(),
            paused: self.paused,
            mode: self.mode,
            current: duplicate_opt_track(&self.current),
            history: duplicate_tracks(&self.history),
            queue: duplicate_tracks(&self.queue),
        }
    }

    /// Structural equality of two snapshots.
    pub fn same(&self, other: &PlayerState) -> (b: bool)
        ensures
            b == (self@ == other@),
    {
        self.bot.same(&other.bot) && self.paused == other.paused && self.mode == other.mode
            && same_opt_track(&self.current, &other.current) && same_tracks(
            &self.history,
            &other.history,
        ) && same_tracks(&self.queue, &other.queue)
    }
}

/// A field-level delta between two snapshots: a field is present exactly
/// where the newer snapshot differs from the older one, and then holds the
/// newer value.
#[derive(Clone, Debug, PartialEq, Eq)]
pub struct Patch {
    pub bot: Option<BotInfo>,
    pub paused: Option<bool>,
    pub mode: Option<PlayMode>,
    pub current: Option<Option<Track>>,
    pub history: Option<Vec<Track>>,
    pub queue: Option<Vec<Track>>,
}

/// What a patch holds.
pub struct PatchView {
    pub bot: Option<BotInfoView>,
    pub paused: Option<bool>,
    pub mode: Option<PlayMode>,
    pub current: Option<Option<TrackView>>,
    pub history: Option<Seq<TrackView>>,
    pub queue: Option<Seq<TrackView>>,
}

impl View for Patch {
    type V = PatchView;

    open spec fn view(&self) -> PatchView {
        PatchView {
            bot: match self.bot {
                Some(b) => Some(b@),
                None => None,
            },
            paused: self.paused,
            mode: self.mode,
            current: match self.current {
                Some(c) => Some(opt_track_view(c)),
                None => None,
            },
            history: match self.history {
                Some(h) => Some(track_views(h@)),
                None => None,
            },
            queue: match self.queue {
                Some(q) => Some(track_views(q@)),
                None => None,
            },
        }
    }
}

/// The new value of a field where it changed, nothing where it did not.
pub open spec fn changed<T>(old_value: T, new_value: T) -> Option<T> {
    if old_value == new_value {
        None
    } else {
        Some(new_value)
    }
}

/// The value of a field after a patch: the patched value where the patch
/// has one, the old value otherwise.
pub open spec fn patched<T>(delta: Option<T>, old_value: T) -> T {
    match delta {
        Some(v) => v,
        None => old_value,
    }
}

/// The patch that leads from snapshot `a` to snapshot `b`.
pub open spec fn diff(a: PlayerStateView, b: PlayerStateView) -> PatchView {
    PatchView {
        bot: changed(a.bot, b.bot),
        paused: changed(a.paused, b.paused),
        mode: changed(a.mode, b.mode),
        current: changed(a.current, b.current),
        history: changed(a.history, b.history),
        queue: changed(a.queue, b.queue),
    }
}

/// The snapshot that a patch makes of snapshot `a`.
pub open spec fn apply(p: PatchView, a: PlayerStateView) -> PlayerStateView {
    PlayerStateView {
        bot: patched(p.bot, a.bot),
        paused: patched(p.paused, a.paused),
        mode: patched(p.mode, a.mode),
        current: patched(p.current, a.current),
        history: patched(p.history, a.history),
        queue: patched(p.queue, a.queue),
    }
}

/// Whether a patch changes nothing.
pub open spec fn is_empty_patch(p: PatchView) -> bool {
    p.bot is None && p.paused is None && p.mode is None && p.current is None && p.history is None
        && p.queue is None
}

/// The number of fields that a patch carries.
pub open spec fn patch_size(p: PatchView) -> nat {
    let one = |present: bool| if present { 1nat } else { 0nat };
    one(p.bot is Some) + one(p.paused is Some) + one(p.mode is Some) + one(p.current is Some)
        + one(p.history is Some) + one(p.queue is Some)
}

/// Applying the patch from `a` to `b` to `a` gives `b`.
pub proof fn lemma_patch_round_trip(a: PlayerStateView, b: PlayerStateView)
    ensures
        apply(diff(a, b), a) == b,
{
}

/// The patch between two snapshots is empty exactly when they are equal.
pub proof fn lemma_patch_empty_iff_equal(a: PlayerStateView, b: PlayerStateView)
    ensures
        is_empty_patch(diff(a, b)) <==> a == b,
{
}

/// An empty patch leaves a snapshot as it is.
pub proof fn lemma_empty_patch_is_identity(p: PatchView, a: PlayerStateView)
    requires
        is_empty_patch(p),
    ensures
        apply(p, a) == a,
{
}

/// The generated patch is minimal: any patch that leads from `a` to `b`
/// carries every field that the generated one carries.
pub proof fn lemma_patch_minimal(a: PlayerStateView, b: PlayerStateView, p: PatchView)
    requires
        apply(p, a) == b,
    ensures
        diff(a, b).bot is Some ==> p.bot is Some,
        diff(a, b).paused is Some ==> p.paused is Some,
        diff(a, b).mode is Some ==> p.mode is Some,
        diff(a, b).current is Some ==> p.current is Some,
        diff(a, b).history is Some ==> p.history is Some,
        diff(a, b).queue is Some ==> p.queue is Some,
        patch_size(diff(a, b)) <= patch_size(p),
{
}

/// Computes the patch that leads from `a` to `b`.
pub fn generate_patch(a: &PlayerState, b: &PlayerState) -> (p: Patch)
    ensures
        p@ == diff(a@, b@),
{
    Patch {
        bot: if a.bot.same(&b.bot) {
            None
        } else {
            Some(b.bot.duplicate())
        },
        paused: if a.paused == b.paused {
            None
        } else {
            Some(b.paused)
        },
        mode: if a.mode == b.mode {
            None
        } else {
            Some(b.mode)
        },
        current: if same_opt_track(&a.current, &b.current) {
            None
        } else {
            Some(duplicate_opt_track(&b.current))
        },
        history: if same_tracks(&a.history, &b.history) {
            None
        } else {
            Some(duplicate_tracks(&b.history))
        },
        queue: if same_tracks(&a.queue, &b.queue) {
            None
        } else {
            Some(duplicate_tracks(&b.queue))
        },
    }
}

/// Applies a patch to snapshot `a`.
pub fn apply_patch(p: &Patch, a: &PlayerState) -> (r: PlayerState)
    ensures
        r@ == apply(p@, a@),
{
    PlayerState {
        bot: match &p.bot {
            Some(b) => b.duplicate(),
            None => a.bot.duplicate(),
        },
        paused: match p.paused {
            Some(v) => v,
            None => a.paused,
        },
        mode: match p.mode {
            Some(v) => v,
            None => a.mode,
        },
        current: match &p.current {
            Some(c) => duplicate_opt_track(c),
            None => duplicate_opt_track(&a.current),
        },
        history: match &p.history {
            Some(h) => duplicate_tracks(h),
            None => duplicate_tracks(&a.history),
        },
        queue: match &p.queue {
            Some(q) => duplicate_tracks(q),
            None => duplicate_tracks(&a.queue),
        },
    }
}

/// The identity that a connection has authenticated as.
#[derive(Clone, Debug, PartialEq, Eq)]
pub struct User {
    pub id: String,
    pub username: String,
}

impl User {
    /// An equal copy.
    pub fn duplicate(&self) -> (r: User)
        ensures
            r == *self,
    {
        User { id: self.id.clone(), username: self.username.clone() }
    }
}

/// The credential that a client hands in to authenticate.
#[derive(Clone, Debug, PartialEq, Eq)]
pub struct Auth {
    pub code: String,
}

/// The voice channel that the authenticated user is in.
#[derive(Clone, Debug, PartialEq, Eq)]
pub struct VoiceState {
    pub channel_id: u64,
    pub channel_name: String,
}

/// A command of a client to the player of the channel it is in.
/// `SetTime` holds a position in milliseconds.
#[derive(Clone, Debug, PartialEq, Eq)]
pub enum PlayerControl {
    Resume,
    Pause,
    Skip(usize),
    BackSkip(usize),
    SetTime(u64),
    PlayMode(PlayMode),
    Enqueue(String),
    Leave,
    Join,
}

impl PlayerControl {
    /// An equal copy.
    pub fn duplicate(&self) -> (r: PlayerControl)
        ensures
            r == *self,
    {
        match self {
            PlayerControl::Resume => PlayerControl::Resume,
            PlayerControl::Pause => PlayerControl::Pause,
            PlayerControl::Skip(n) => PlayerControl::Skip(*n),
            PlayerControl::BackSkip(n) => PlayerControl::BackSkip(*n),
            PlayerControl::SetTime(t) => PlayerControl::SetTime(*t),
            PlayerControl::PlayMode(m) => PlayerControl::PlayMode(*m),
            PlayerControl::Enqueue(q) => PlayerControl::Enqueue(q.clone()),
            PlayerControl::Leave => PlayerControl::Leave,
            PlayerControl::Join => PlayerControl::Join,
        }
    }
}

/// The answer to one command, with the command and its correlation id.
#[derive(Debug, PartialEq, Eq)]
pub struct PlayerControlResult {
    pub uuid: String,
    pub req: PlayerControl,
    pub res: Result<(), String>,
}

/// What a client is told of a frame that the server could not use.
#[derive(Clone, Debug, PartialEq, Eq)]
pub enum Unexpected {
    /// The raw bytes of a frame that did not parse, and why.
    ParseError(Vec<u8>, String),
    /// A description of a message that a client may not send.
    MessageType(String),
}

/// What a client is told of the player it watches.
#[derive(Clone, Debug, PartialEq, Eq)]
pub enum State {
    FullState(PlayerState),
    UpdateState(Patch),
    EmptyState,
}

/// What a client is told of its authentication.
#[derive(Clone, Debug, PartialEq, Eq)]
pub enum AuthMessage {
    /// The identity and the credential to refresh it with.
    AuthSuccess(User, String),
    AuthError,
    AuthStatus(bool),
}

/// What a client asks of the server.
#[derive(Clone, Debug, PartialEq, Eq)]
pub enum ClientRequest {
    Authenticate(Auth),
    AuthStatus,
    /// A correlation id and the command.
    Control(String, PlayerControl),
    End,
}

/// One frame, in either direction.
#[derive(Debug, PartialEq, Eq)]
pub enum Message {
    ClientRequest(ClientRequest),
    Auth(AuthMessage),
    UserVoiceState(Option<VoiceState>),
    /// `None` while no player exists for the channel.
    PlayerState(Option<State>),
    ClientControlResult(PlayerControlResult),
    Unexpected(Unexpected),
}

} // verus!
