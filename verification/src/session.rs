//! The life of one companion connection, as functions from a state and an
//! event to the next state and what to do.
//!
//! A connection runs up to three loops: the receive loop, the watcher, which
//! follows the voice channel of the authenticated user, and the pusher, which
//! streams the state of the player of that channel. Whoever drives a loop
//! reads the socket, sleeps and spawns tasks; what to answer, whom to cancel
//! and what to start is decided here.

use crate::messages::{
    apply, diff, generate_patch, lemma_patch_round_trip, Auth, AuthMessage, ClientRequest, Message,
    PatchView, PlayerControl, PlayerControlResult, PlayerState, PlayerStateView, State, Unexpected,
    User, VoiceState,
};
use crate::queue::Track;
use crate::router::{PlayerRequest, RouteError, Router};
use crate::snapshot::{parse_mode, parsed_mode};
use vstd::prelude::*;
use vstd::string::StrSliceExecFns;
use vstd::string::StringExecFns;

verus! {

/// Seconds between two looks at the user's voice channel.
pub const VOICE_POLL_SECS: u64 = 1;

/// Seconds between two looks for a player that does not exist yet.
pub const PLAYER_POLL_SECS: u64 = 5;

/// A player is addressed by its guild and its voice channel.
pub type Target = (u64, u64);

/// Whether two looks at a user found the same voice channel, or both none.
pub fn same_target(a: &Option<Target>, b: &Option<Target>) -> (r: bool)
    ensures
        r == (*a == *b),
{
    match (a, b) {
        (Some(x), Some(y)) => x.0 == y.0 && x.1 == y.1,
        (None, None) => true,
        _ => false,
    }
}

// ----------------------------------------------------------------------
// The pusher
// ----------------------------------------------------------------------
/// What a pusher does after a step.
#[derive(Clone, Copy, Debug, PartialEq, Eq, Structural)]
pub enum Wait {
    /// Look for the player again at once.
    Retry,
    /// Look for the player again after `PLAYER_POLL_SECS`.
    Poll,
    /// Wait for the next change of the player.
    Change,
    /// End the task.
    Finished,
}

/// One step of a pusher: a message to send first, if any, and how to go on.
#[derive(Debug, PartialEq, Eq)]
pub struct PushStep {
    pub send: Option<Message>,
    pub next: Wait,
}

/// What came of looking for the player of the pusher's channel.
#[derive(Debug, PartialEq, Eq)]
pub enum Resolution {
    /// No player exists for the channel.
    NoPlayer,
    /// A player exists, but its owning identity is unknown.
    NoBot,
    /// A player was found and was gone when its state was read.
    NoWatch,
    /// The player's snapshot, taken on subscribing to it.
    Ready(PlayerState),
}

/// What a subscription to a player reports.
#[derive(Debug, PartialEq, Eq)]
pub enum Change {
    /// The player was torn down.
    Closed,
    /// The player's latest snapshot.
    Updated(PlayerState),
}

/// The loop that streams one player's state to one connection: a full
/// snapshot first, then only patches against what was sent last.
#[derive(Debug, PartialEq, Eq)]
pub struct Pusher {
    pub guild: u64,
    pub channel: u64,
    /// The snapshot that the client holds, while the pusher is bound to a
    /// player.
    pub last_sent: Option<PlayerState>,
}

/// The view of an optional snapshot.
pub open spec fn opt_state_view(s: Option<PlayerState>) -> Option<PlayerStateView> {
    match s {
        Some(s) => Some(s@),
        None => None,
    }
}

/// A message that carries the full snapshot `s`.
pub open spec fn is_full_state(m: Option<Message>, s: PlayerStateView) -> bool {
    m matches Some(Message::PlayerState(Some(State::FullState(sent)))) && sent@ == s
}

/// A message that carries the patch `p`.
pub open spec fn is_update(m: Option<Message>, p: PatchView) -> bool {
    m matches Some(Message::PlayerState(Some(State::UpdateState(sent)))) && sent@ == p
}

impl Pusher {
    /// Starts a pusher for a channel. Without a router entry for the guild
    /// there is nothing to push, and the task ends. If no player exists yet,
    /// the client is told so once; either way the pusher then looks for the
    /// player.
    pub fn start(guild: u64, channel: u64, guild_known: bool, has_player: bool) -> (r: (
        Option<Pusher>,
        PushStep,
    ))
        ensures
            !guild_known ==> r.0 is None && r.1.send is None && r.1.next == Wait::Finished,
            guild_known ==> r.0 == Some(Pusher { guild, channel, last_sent: None }) && r.1.next
                == Wait::Retry,
            guild_known && has_player ==> r.1.send is None,
            guild_known && !has_player ==> r.1.send == Some(Message::PlayerState(None)),
    {
        if !guild_known {
            return (None, PushStep { send: None, next: Wait::Finished });
        }
        let send = if has_player {
            None
        } else {
            Some(Message::PlayerState(None))
        };
        (Some(Pusher { guild, channel, last_sent: None }), PushStep { send, next: Wait::Retry })
    }

    /// Takes in what a look for the player gave. A missing player is polled
    /// for; a player that cannot be read yet is looked up again at once; a
    /// player that was found binds the pusher: its snapshot is sent in full
    /// and remembered.
    pub fn on_resolution(&mut self, found: Resolution) -> (step: PushStep)
        ensures
            final(self).guild == old(self).guild,
            final(self).channel == old(self).channel,
            found is NoPlayer ==> step.send is None && step.next == Wait::Poll && *final(self)
                == *old(self),
            found is NoBot || found is NoWatch ==> step.send is None && step.next == Wait::Retry
                && *final(self) == *old(self),
            found matches Resolution::Ready(s) ==> is_full_state(step.send, s@) && step.next
                == Wait::Change && opt_state_view(final(self).last_sent) == Some(s@),
    {
        match found {
            Resolution::NoPlayer => PushStep { send: None, next: Wait::Poll },
            Resolution::NoBot => PushStep { send: None, next: Wait::Retry },
            Resolution::NoWatch => PushStep { send: None, next: Wait::Retry },
            Resolution::Ready(snapshot) => {
                let copy = snapshot.duplicate();
                self.last_sent = Some(snapshot);
                PushStep {
                    send: Some(Message::PlayerState(Some(State::FullState(copy)))),
                    next: Wait::Change,
                }
            },
        }
    }

    /// Takes in a report of the subscription. When the player is gone the
    /// client is told that there is no state, and the pusher looks for a
    /// player again. A snapshot equal to the one sent last is passed over.
    /// Any other is sent as the patch against the one sent last, or in full
    /// if nothing was sent yet, and takes its place.
    pub fn on_change(&mut self, change: Change) -> (step: PushStep)
        ensures
            final(self).guild == old(self).guild,
            final(self).channel == old(self).channel,
            change is Closed ==> final(self).last_sent is None && step.send == Some(
                Message::PlayerState(Some(State::EmptyState)),
            ) && step.next == Wait::Retry,
            change matches Change::Updated(s) ==> step.next == Wait::Change && opt_state_view(
                final(self).last_sent,
            ) == Some(s@),
            change matches Change::Updated(s) ==> match old(self).last_sent {
                None => is_full_state(step.send, s@),
                Some(last) => if last@ == s@ {
                    step.send is None
                } else {
                    &&& is_update(step.send, diff(last@, s@))
                    &&& apply(diff(last@, s@), last@) == s@
                },
            },
    {
        match change {
            Change::Closed => {
                self.last_sent = None;
                PushStep {
                    send: Some(Message::PlayerState(Some(State::EmptyState))),
                    next: Wait::Retry,
                }
            },
            Change::Updated(snapshot) => {
                let send = match &self.last_sent {
                    None => Some(
                        Message::PlayerState(Some(State::FullState(snapshot.duplicate()))),
                    ),
                    Some(last) => {
                        if snapshot.same(last) {
                            None
                        } else {
                            proof {
                                lemma_patch_round_trip(last@, snapshot@);
                            }
                            let patch = generate_patch(last, &snapshot);
                            Some(Message::PlayerState(Some(State::UpdateState(patch))))
                        }
                    },
                };
                self.last_sent = Some(snapshot);
                PushStep { send, next: Wait::Change }
            },
        }
    }
}

// ----------------------------------------------------------------------
// Effects and background tasks
// ----------------------------------------------------------------------
/// Something for the connection's driver to do, in the order given.
#[derive(Debug, PartialEq, Eq)]
pub enum Effect {
    /// Send a message to the client.
    Send(Message),
    /// Tell the client which voice channel the user is in.
    SendVoiceState(Option<Target>),
    /// Cancel the watcher task.
    AbortWatcher,
    /// Cancel the pusher task.
    AbortPusher,
    /// Start a watcher task for the user.
    SpawnWatcher(User),
    /// Start a pusher task for the guild and channel.
    SpawnPusher(u64, u64),
}

/// Which background tasks of a connection are live.
pub struct Tasks {
    pub watcher: bool,
    pub pusher: bool,
}

/// The tasks that are live after one effect, or nothing where the effect
/// starts a task whose predecessor is still live.
pub open spec fn after_effect(e: Effect, t: Tasks) -> Option<Tasks> {
    match e {
        Effect::AbortWatcher => Some(Tasks { watcher: false, pusher: t.pusher }),
        Effect::AbortPusher => Some(Tasks { watcher: t.watcher, pusher: false }),
        Effect::SpawnWatcher(_) => if t.watcher {
            None
        } else {
            Some(Tasks { watcher: true, pusher: t.pusher })
        },
        Effect::SpawnPusher(_, _) => if t.pusher {
            None
        } else {
            Some(Tasks { watcher: t.watcher, pusher: true })
        },
        _ => Some(t),
    }
}

/// The tasks that are live after a run of effects, or nothing where the run
/// would ever have two watchers or two pushers live at once.
pub open spec fn after_effects(effects: Seq<Effect>, start: Tasks) -> Option<Tasks>
    decreases effects.len(),
{
    if effects.len() == 0 {
        Some(start)
    } else {
        match after_effects(effects.drop_last(), start) {
            Some(t) => after_effect(effects.last(), t),
            None => None,
        }
    }
}

/// One more effect at the end of a run acts on what the run left.
pub proof fn lemma_after_effects_push(effects: Seq<Effect>, e: Effect, start: Tasks)
    ensures
        after_effects(effects.push(e), start) == match after_effects(effects, start) {
            Some(t) => after_effect(e, t),
            None => None,
        },
{
    assert(effects.push(e).drop_last() =~= effects);
}

/// Two runs of effects, one after the other, act as one run: the second
/// starts from the tasks that the first left.
pub proof fn lemma_after_effects_chain(first: Seq<Effect>, second: Seq<Effect>, start: Tasks)
    ensures
        after_effects(first + second, start) == match after_effects(first, start) {
            Some(t) => after_effects(second, t),
            None => None,
        },
    decreases second.len(),
{
    if second.len() == 0 {
        assert(first + second =~= first);
    } else {
        lemma_after_effects_chain(first, second.drop_last(), start);
        assert((first + second).drop_last() =~= first + second.drop_last());
        assert((first + second).last() == second.last());
    }
}

// ----------------------------------------------------------------------
// The receive loop
// ----------------------------------------------------------------------
/// What the transport handed to the receive loop.
#[derive(Debug, PartialEq, Eq)]
pub enum Inbound {
    /// The stream ended or a read failed.
    Failed,
    /// A binary frame: its bytes, and the message they parse to or why they
    /// do not parse.
    Binary(Vec<u8>, Result<Message, String>),
    /// A close frame.
    Close,
    /// Any other frame.
    Other,
}

/// What the receive loop does with a frame.
#[derive(Debug, PartialEq, Eq)]
pub enum Received {
    /// Go on with the next frame.
    Ignore,
    /// Answer, and go on with the next frame.
    Respond(Message),
    /// Exchange the credential, then call `Session::auth_token`.
    Authenticate(Auth),
    /// Answer with `Session::send_auth_status`.
    AuthStatus,
    /// Handle the command, by its correlation id, on a task of its own.
    Control(String, PlayerControl),
    /// Leave the loop and tear the session down.
    Stop,
}

impl Message {
    /// The name of the kind of a message.
    pub fn describe(&self) -> (r: String)
        ensures
            r@ == match *self {
                Message::ClientRequest(_) => "ClientRequest"@,
                Message::Auth(_) => "Auth"@,
                Message::UserVoiceState(_) => "UserVoiceState"@,
                Message::PlayerState(_) => "PlayerState"@,
                Message::ClientControlResult(_) => "ClientControlResult"@,
                Message::Unexpected(_) => "Unexpected"@,
            },
    {
        match self {
            Message::ClientRequest(_) => String::from_str("ClientRequest"),
            Message::Auth(_) => String::from_str("Auth"),
            Message::UserVoiceState(_) => String::from_str("UserVoiceState"),
            Message::PlayerState(_) => String::from_str("PlayerState"),
            Message::ClientControlResult(_) => String::from_str("ClientControlResult"),
            Message::Unexpected(_) => String::from_str("Unexpected"),
        }
    }
}

/// Decides what to do with one frame. Only a failed read, a close frame and
/// an end request stop the loop. A frame that does not parse is reported back
/// with its bytes; a message that is no client request is reported back by
/// the name of its kind; frames that are not binary are passed over.
pub fn receive(frame: Inbound) -> (r: Received)
    ensures
        r is Stop <==> (frame is Failed || frame is Close || frame matches Inbound::Binary(
            _,
            Ok(Message::ClientRequest(ClientRequest::End)),
        )),
        match frame {
            Inbound::Failed => r is Stop,
            Inbound::Close => r is Stop,
            Inbound::Other => r is Ignore,
            Inbound::Binary(raw, Err(why)) => r == Received::Respond(
                Message::Unexpected(Unexpected::ParseError(raw, why)),
            ),
            Inbound::Binary(_, Ok(Message::ClientRequest(req))) => match req {
                ClientRequest::Authenticate(a) => r == Received::Authenticate(a),
                ClientRequest::AuthStatus => r is AuthStatus,
                ClientRequest::Control(uuid, con) => r == Received::Control(uuid, con),
                ClientRequest::End => r is Stop,
            },
            Inbound::Binary(_, Ok(other)) => r matches Received::Respond(
                Message::Unexpected(Unexpected::MessageType(text)),
            ) && text@ == match other {
                Message::Auth(_) => "Auth"@,
                Message::UserVoiceState(_) => "UserVoiceState"@,
                Message::PlayerState(_) => "PlayerState"@,
                Message::ClientControlResult(_) => "ClientControlResult"@,
                _ => "Unexpected"@,
            },
        },
{
    match frame {
        Inbound::Failed => Received::Stop,
        Inbound::Close => Received::Stop,
        Inbound::Other => Received::Ignore,
        Inbound::Binary(raw, parsed) => match parsed {
            Err(why) => Received::Respond(Message::Unexpected(Unexpected::ParseError(raw, why))),
            Ok(Message::ClientRequest(req)) => match req {
                ClientRequest::Authenticate(a) => Received::Authenticate(a),
                ClientRequest::AuthStatus => Received::AuthStatus,
                ClientRequest::Control(uuid, con) => Received::Control(uuid, con),
                ClientRequest::End => Received::Stop,
            },
            Ok(other) => Received::Respond(
                Message::Unexpected(Unexpected::MessageType(other.describe())),
            ),
        },
    }
}

// ----------------------------------------------------------------------
// The session
// ----------------------------------------------------------------------
/// What one connection knows: who it is, which player it watches, and which
/// of its background tasks are live.
#[derive(Debug, PartialEq, Eq)]
pub struct Session {
    /// The authenticated identity and its access credential.
    pub user: Option<(User, String)>,
    /// The voice channel that the user was last seen in.
    pub voice_state: Option<Target>,
    pub watcher_live: bool,
    pub pusher_live: bool,
}

/// Where a session stands. While a credential is exchanged the session
/// stays where it was.
#[derive(Clone, Copy, Debug, PartialEq, Eq)]
pub enum Phase {
    Unauthenticated,
    /// Authenticated, and watching the voice channel given, if any.
    Authenticated(Option<Target>),
}

/// How an authentication goes on after the credential exchange.
#[derive(Debug, PartialEq, Eq)]
pub enum TokenStep {
    /// The exchange failed: answer, and stay as before.
    Rejected(Message),
    /// Look up the identity behind the access credential, then call
    /// `Session::auth_user`.
    FetchUser { access_token: String, refresh_token: String },
}

impl Session {
    /// Which background tasks of the session are live.
    pub open spec fn tasks(&self) -> Tasks {
        Tasks { watcher: self.watcher_live, pusher: self.pusher_live }
    }

    /// A fresh session: nobody authenticated, nothing watched, no task live.
    pub fn new() -> (r: Session)
        ensures
            r.user is None,
            r.voice_state is None,
            !r.watcher_live,
            !r.pusher_live,
    {
        Session { user: None, voice_state: None, watcher_live: false, pusher_live: false }
    }

    /// Takes in the outcome of the credential exchange: an access and a
    /// refresh credential, or a failure, which is answered with an auth
    /// error.
    pub fn auth_token(exchange: Result<(String, String), String>) -> (r: TokenStep)
        ensures
            match exchange {
                Ok((access, refresh)) => r == (TokenStep::FetchUser {
                    access_token: access,
                    refresh_token: refresh,
                }),
                Err(_) => r == TokenStep::Rejected(Message::Auth(AuthMessage::AuthError)),
            },
    {
        match exchange {
            Ok((access, refresh)) => TokenStep::FetchUser {
                access_token: access,
                refresh_token: refresh,
            },
            Err(_) => TokenStep::Rejected(Message::Auth(AuthMessage::AuthError)),
        }
    }

    /// Takes in the outcome of the identity lookup. On failure the client
    /// gets an auth error and the session stays as it was. On success the
    /// identity is stored and confirmed to the client. Then the background
    /// tasks of an earlier identity are cancelled, the watcher after the
    /// client was told that the user is in no channel, and a new watcher is
    /// started.
    pub fn auth_user(
        &mut self,
        access_token: String,
        refresh_token: String,
        lookup: Result<User, String>,
    ) -> (effects: Vec<Effect>)
        ensures
            after_effects(effects@, old(self).tasks()) == Some(final(self).tasks()),
            lookup is Err ==> *final(self) == *old(self) && effects@ == seq![
                Effect::Send(Message::Auth(AuthMessage::AuthError)),
            ],
            lookup matches Ok(user) ==> {
                &&& final(self).user == Some((user, access_token))
                &&& final(self).watcher_live
                &&& !final(self).pusher_live
                &&& final(self).voice_state == if old(self).watcher_live {
                    None
                } else {
                    old(self).voice_state
                }
                &&& effects@ == seq![
                    Effect::Send(Message::Auth(AuthMessage::AuthSuccess(user, refresh_token))),
                ] + (if old(self).watcher_live {
                    seq![Effect::SendVoiceState(None), Effect::AbortWatcher]
                } else {
                    Seq::<Effect>::empty()
                }) + (if old(self).pusher_live {
                    seq![Effect::AbortPusher]
                } else {
                    Seq::<Effect>::empty()
                }) + seq![Effect::SpawnWatcher(user)]
            },
    {
        let ghost start = self.tasks();
        let mut effects: Vec<Effect> = Vec::new();
        match lookup {
            Err(_) => {
                effects.push(Effect::Send(Message::Auth(AuthMessage::AuthError)));
                proof {
                    lemma_after_effects_push(
                        Seq::empty(),
                        Effect::Send(Message::Auth(AuthMessage::AuthError)),
                        start,
                    );
                    assert(effects@ =~= seq![Effect::Send(Message::Auth(AuthMessage::AuthError))]);
                }
            },
            Ok(user) => {
                let first = Effect::Send(
                    Message::Auth(AuthMessage::AuthSuccess(user.duplicate(), refresh_token)),
                );
                let last = Effect::SpawnWatcher(user.duplicate());
                self.user = Some((user, access_token));
                proof {
                    lemma_after_effects_push(effects@, first, start);
                }
                effects.push(first);
                if self.watcher_live {
                    self.voice_state = None;
                    proof {
                        lemma_after_effects_push(effects@, Effect::SendVoiceState(None), start);
                    }
                    effects.push(Effect::SendVoiceState(None));
                    proof {
                        lemma_after_effects_push(effects@, Effect::AbortWatcher, start);
                    }
                    effects.push(Effect::AbortWatcher);
                }
                if self.pusher_live {
                    proof {
                        lemma_after_effects_push(effects@, Effect::AbortPusher, start);
                    }
                    effects.push(Effect::AbortPusher);
                    self.pusher_live = false;
                }
                proof {
                    lemma_after_effects_push(effects@, last, start);
                }
                effects.push(last);
                self.watcher_live = true;
                assert(effects@ =~= seq![first] + (if old(self).watcher_live {
                    seq![Effect::SendVoiceState(None), Effect::AbortWatcher]
                } else {
                    Seq::<Effect>::empty()
                }) + (if old(self).pusher_live {
                    seq![Effect::AbortPusher]
                } else {
                    Seq::<Effect>::empty()
                }) + seq![last]);
            },
        }
        effects
    }

    /// Where the session stands: nobody is authenticated, or somebody is and
    /// is watched in the voice channel given, if in any.
    pub fn phase(&self) -> (r: Phase)
        ensures
            r == match self.user {
                None => Phase::Unauthenticated,
                Some(_) => Phase::Authenticated(self.voice_state),
            },
    {
        match &self.user {
            None => Phase::Unauthenticated,
            Some(_) => Phase::Authenticated(self.voice_state),
        }
    }

    /// The answer to a question for the authentication status.
    pub fn send_auth_status(&self) -> (r: Message)
        ensures
            r == Message::Auth(AuthMessage::AuthStatus(self.user is Some)),
    {
        Message::Auth(AuthMessage::AuthStatus(self.user.is_some()))
    }

    /// Ends the session: every live background task is cancelled, the
    /// watcher first.
    pub fn teardown(&mut self) -> (effects: Vec<Effect>)
        ensures
            after_effects(effects@, old(self).tasks()) == Some(final(self).tasks()),
            !final(self).watcher_live,
            !final(self).pusher_live,
            final(self).user == old(self).user,
            final(self).voice_state == old(self).voice_state,
            effects@ == (if old(self).watcher_live {
                seq![Effect::AbortWatcher]
            } else {
                Seq::<Effect>::empty()
            }) + (if old(self).pusher_live {
                seq![Effect::AbortPusher]
            } else {
                Seq::<Effect>::empty()
            }),
    {
        let ghost start = self.tasks();
        let mut effects: Vec<Effect> = Vec::new();
        if self.watcher_live {
            proof {
                lemma_after_effects_push(effects@, Effect::AbortWatcher, start);
            }
            effects.push(Effect::AbortWatcher);
            self.watcher_live = false;
        }
        if self.pusher_live {
            proof {
                lemma_after_effects_push(effects@, Effect::AbortPusher, start);
            }
            effects.push(Effect::AbortPusher);
            self.pusher_live = false;
        }
        assert(effects@ =~= (if old(self).watcher_live {
            seq![Effect::AbortWatcher]
        } else {
            Seq::<Effect>::empty()
        }) + (if old(self).pusher_live {
            seq![Effect::AbortPusher]
        } else {
            Seq::<Effect>::empty()
        }));
        effects
    }
}

// ----------------------------------------------------------------------
// The watcher
// ----------------------------------------------------------------------
/// The value of a decimal digit.
pub open spec fn digit_value(c: char) -> Option<nat> {
    if c == '0' {
        Some(0)
    } else if c == '1' {
        Some(1)
    } else if c == '2' {
        Some(2)
    } else if c == '3' {
        Some(3)
    } else if c == '4' {
        Some(4)
    } else if c == '5' {
        Some(5)
    } else if c == '6' {
        Some(6)
    } else if c == '7' {
        Some(7)
    } else if c == '8' {
        Some(8)
    } else if c == '9' {
        Some(9)
    } else {
        None
    }
}

/// The number that a text of decimal digits stands for. The empty text and
/// a text with anything but digits in it stand for none.
pub open spec fn decimal_value(s: Seq<char>) -> Option<nat>
    decreases s.len(),
{
    if s.len() == 0 {
        None
    } else if s.len() == 1 {
        digit_value(s[0])
    } else {
        match (decimal_value(s.drop_last()), digit_value(s.last())) {
            (Some(v), Some(d)) => Some(10 * v + d),
            _ => None,
        }
    }
}

/// The number that a user id stands for, where it stands for one: decimal
/// digits, after a plus sign or without one, for a number that fits 64 bits.
pub open spec fn parsed_user_id(text: Seq<char>) -> Option<u64> {
    let digits = if text.len() > 0 && text[0] == '+' {
        text.drop_first()
    } else {
        text
    };
    match decimal_value(digits) {
        Some(v) => if v <= u64::MAX {
            Some(v as u64)
        } else {
            None
        },
        None => None,
    }
}

/// A text of digits stands for no less than any of its beginnings.
proof fn lemma_decimal_value_grows(s: Seq<char>, len: int)
    requires
        1 <= len <= s.len(),
        decimal_value(s) is Some,
    ensures
        decimal_value(s.subrange(0, len)) matches Some(v) && v <= decimal_value(s)->Some_0,
    decreases s.len(),
{
    if len == s.len() {
        assert(s.subrange(0, len) =~= s);
    } else {
        assert(s.drop_last().subrange(0, len) =~= s.subrange(0, len));
        lemma_decimal_value_grows(s.drop_last(), len);
    }
}

/// The value of a character as a decimal digit.
fn digit_of(c: char) -> (r: Option<u64>)
    ensures
        match digit_value(c) {
            Some(d) => r == Some(d as u64) && d <= 9,
            None => r is None,
        },
{
    if c == '0' {
        Some(0)
    } else if c == '1' {
        Some(1)
    } else if c == '2' {
        Some(2)
    } else if c == '3' {
        Some(3)
    } else if c == '4' {
        Some(4)
    } else if c == '5' {
        Some(5)
    } else if c == '6' {
        Some(6)
    } else if c == '7' {
        Some(7)
    } else if c == '8' {
        Some(8)
    } else if c == '9' {
        Some(9)
    } else {
        None
    }
}

/// Reads a user id as a number.
pub fn parse_user_id(text: &str) -> (r: Option<u64>)
    ensures
        r == parsed_user_id(text@),
{
    let len = text.unicode_len();
    let start: usize = if len > 0 && text.get_char(0) == '+' {
        1
    } else {
        0
    };
    let ghost digits = if text@.len() > 0 && text@[0] == '+' {
        text@.drop_first()
    } else {
        text@
    };
    assert(digits =~= text@.subrange(start as int, len as int));
    if start == len {
        return None;
    }
    let mut value: u64 = 0;
    let mut i: usize = start;
    while i < len
        invariant
            start <= i <= len,
            start < len,
            len == text@.len(),
            digits == text@.subrange(start as int, len as int),
            digits == if text@.len() > 0 && text@[0] == '+' {
                text@.drop_first()
            } else {
                text@
            },
            i == start ==> value == 0,
            i > start ==> decimal_value(digits.subrange(0, i - start)) == Some(value as nat),
        decreases len - i,
    {
        let ghost upto = digits.subrange(0, i - start + 1);
        assert(upto.last() == text@[i as int]);
        assert(upto.drop_last() =~= digits.subrange(0, i - start));
        let d = match digit_of(text.get_char(i)) {
            Some(d) => d,
            None => {
                proof {
                    assert(decimal_value(upto) is None);
                    if decimal_value(digits) is Some {
                        lemma_decimal_value_grows(digits, i - start + 1);
                    }
                }
                return None;
            },
        };
        let next = match value.checked_mul(10) {
            Some(tens) => tens.checked_add(d),
            None => None,
        };
        match next {
            Some(n) => {
                value = n;
            },
            None => {
                proof {
                    assert(decimal_value(upto) == Some((10 * value + d) as nat));
                    if decimal_value(digits) is Some {
                        lemma_decimal_value_grows(digits, i - start + 1);
                    }
                }
                return None;
            },
        }
        i += 1;
    }
    assert(digits.subrange(0, len - start) =~= digits);
    Some(value)
}

/// The loop that follows the voice channel of the authenticated user.
#[derive(Debug, PartialEq, Eq)]
pub struct Watcher {
    pub user_id: u64,
    /// The channel that the user was in at the last look.
    pub last_check: Option<Target>,
}

/// One round of a watcher: what to do, and how long to sleep before the
/// next look.
#[derive(Debug, PartialEq, Eq)]
pub struct WatchStep {
    pub effects: Vec<Effect>,
    pub sleep_secs: u64,
}

impl Watcher {
    /// Starts a watcher for a user whose id was read as `user_id`. Without a
    /// number there is nobody to watch, and nothing happens. Otherwise a
    /// pusher that is live is cancelled: it belongs to an earlier watcher.
    pub fn start_with(session: &mut Session, user_id: Option<u64>) -> (r: (
        Option<Watcher>,
        Vec<Effect>,
    ))
        ensures
            after_effects(r.1@, old(session).tasks()) == Some(final(session).tasks()),
            final(session).user == old(session).user,
            final(session).voice_state == old(session).voice_state,
            final(session).watcher_live == old(session).watcher_live,
            match user_id {
                None => r.0 is None && r.1@.len() == 0 && *final(session) == *old(session),
                Some(id) => {
                    &&& r.0 == Some(Watcher { user_id: id, last_check: None })
                    &&& !final(session).pusher_live
                    &&& r.1@ == if old(session).pusher_live {
                        seq![Effect::AbortPusher]
                    } else {
                        Seq::<Effect>::empty()
                    }
                },
            },
    {
        let ghost start = session.tasks();
        let mut effects: Vec<Effect> = Vec::new();
        match user_id {
            None => (None, effects),
            Some(id) => {
                if session.pusher_live {
                    proof {
                        lemma_after_effects_push(effects@, Effect::AbortPusher, start);
                    }
                    effects.push(Effect::AbortPusher);
                    session.pusher_live = false;
                    assert(effects@ =~= seq![Effect::AbortPusher]);
                }
                (Some(Watcher { user_id: id, last_check: None }), effects)
            },
        }
    }

    /// Starts a watcher for an authenticated user, whose id is read as a
    /// decimal number.
    pub fn start(session: &mut Session, user: &User) -> (r: (Option<Watcher>, Vec<Effect>))
        ensures
            after_effects(r.1@, old(session).tasks()) == Some(final(session).tasks()),
            final(session).user == old(session).user,
            final(session).voice_state == old(session).voice_state,
            final(session).watcher_live == old(session).watcher_live,
            match parsed_user_id(user.id@) {
                None => r.0 is None && r.1@.len() == 0 && *final(session) == *old(session),
                Some(id) => {
                    &&& r.0 == Some(Watcher { user_id: id, last_check: None })
                    &&& !final(session).pusher_live
                    &&& r.1@ == if old(session).pusher_live {
                        seq![Effect::AbortPusher]
                    } else {
                        Seq::<Effect>::empty()
                    }
                },
            },
    {
        let id = parse_user_id(user.id.as_str());
        Watcher::start_with(session, id)
    }

    /// Takes in one look at the user's voice channel. While the channel is
    /// the one seen last, nothing happens. When it changed, a live pusher is
    /// cancelled, the new channel is recorded and the client is told of it
    /// once; if the user is in a channel now, a pusher is started for it.
    /// Every round ends with a sleep of `VOICE_POLL_SECS`.
    pub fn poll(&mut self, session: &mut Session, seen: Option<Target>) -> (step: WatchStep)
        ensures
            step.sleep_secs == VOICE_POLL_SECS,
            after_effects(step.effects@, old(session).tasks()) == Some(final(session).tasks()),
            final(self).user_id == old(self).user_id,
            final(self).last_check == seen,
            final(session).user == old(session).user,
            final(session).watcher_live == old(session).watcher_live,
            seen == old(self).last_check ==> step.effects@.len() == 0 && *final(session) == *old(session),
            seen != old(self).last_check ==> {
                &&& final(session).voice_state == seen
                &&& final(session).pusher_live == (seen is Some)
                &&& step.effects@ == (if old(session).pusher_live {
                    seq![Effect::AbortPusher]
                } else {
                    Seq::<Effect>::empty()
                }) + (match seen {
                    None => seq![Effect::SendVoiceState(None)],
                    Some(target) => seq![
                        Effect::SendVoiceState(seen),
                        Effect::SpawnPusher(target.0, target.1),
                    ],
                })
            },
    {
        let ghost start = session.tasks();
        let mut effects: Vec<Effect> = Vec::new();
        if same_target(&seen, &self.last_check) {
            return WatchStep { effects, sleep_secs: VOICE_POLL_SECS };
        }
        if session.pusher_live {
            proof {
                lemma_after_effects_push(effects@, Effect::AbortPusher, start);
            }
            effects.push(Effect::AbortPusher);
            session.pusher_live = false;
        }
        self.last_check = seen;
        session.voice_state = seen;
        proof {
            lemma_after_effects_push(effects@, Effect::SendVoiceState(seen), start);
        }
        effects.push(Effect::SendVoiceState(seen));
        match seen {
            None => {},
            Some(target) => {
                proof {
                    lemma_after_effects_push(
                        effects@,
                        Effect::SpawnPusher(target.0, target.1),
                        start,
                    );
                }
                effects.push(Effect::SpawnPusher(target.0, target.1));
                session.pusher_live = true;
            },
        }
        assert(effects@ =~= (if old(session).pusher_live {
            seq![Effect::AbortPusher]
        } else {
            Seq::<Effect>::empty()
        }) + (match seen {
            None => seq![Effect::SendVoiceState(None)],
            Some(target) => seq![
                Effect::SendVoiceState(seen),
                Effect::SpawnPusher(target.0, target.1),
            ],
        }));
        WatchStep { effects, sleep_secs: VOICE_POLL_SECS }
    }
}

// ----------------------------------------------------------------------
// The voice state notice
// ----------------------------------------------------------------------
/// What is known of a voice channel: its id, its name where it is a channel
/// of a guild, and the text that stands for it otherwise.
#[derive(Debug, PartialEq, Eq)]
pub struct ChannelInfo {
    pub id: u64,
    pub guild_name: Option<String>,
    pub display: String,
}

/// How a voice state notice goes on.
#[derive(Debug, PartialEq, Eq)]
pub enum VoiceStep {
    /// Send the notice.
    Respond(Message),
    /// Look up an identity that serves the guild, and through it the
    /// channel; then call `voice_state_found`.
    Lookup(u64, u64),
}

/// Begins a voice state notice. That the user is in no channel is told at
/// once; a channel has to be looked up first.
pub fn send_voice_state(voice: Option<Target>) -> (r: VoiceStep)
    ensures
        r == match voice {
            None => VoiceStep::Respond(Message::UserVoiceState(None)),
            Some(target) => VoiceStep::Lookup(target.0, target.1),
        },
{
    match voice {
        None => VoiceStep::Respond(Message::UserVoiceState(None)),
        Some(target) => VoiceStep::Lookup(target.0, target.1),
    }
}

/// Ends a voice state notice. Without an identity for the guild, or without
/// the channel, nothing is sent. Otherwise the notice names the channel by
/// its name in the guild, or by its display text where it has none.
pub fn voice_state_found(bot_found: bool, channel: Option<ChannelInfo>) -> (r: Option<Message>)
    ensures
        !bot_found || channel is None ==> r is None,
        bot_found ==> match channel {
            None => true,
            Some(info) => r == Some(
                Message::UserVoiceState(
                    Some(
                        VoiceState {
                            channel_id: info.id,
                            channel_name: match info.guild_name {
                                Some(name) => name,
                                None => info.display,
                            },
                        },
                    ),
                ),
            ),
        },
{
    if !bot_found {
        return None;
    }
    match channel {
        None => None,
        Some(info) => {
            let name = match info.guild_name {
                Some(name) => name,
                None => info.display,
            };
            Some(
                Message::UserVoiceState(Some(VoiceState { channel_id: info.id, channel_name: name })),
            )
        },
    }
}

// ----------------------------------------------------------------------
// Control commands
// ----------------------------------------------------------------------
/// How a command of a client goes on.
#[derive(Debug, PartialEq, Eq)]
pub enum ControlPlan {
    /// Answer at once.
    Respond(Message),
    /// Hand the request to the router, for the guild and channel given.
    Request(u64, u64, PlayerRequest),
    /// Search the provider for the text, hand what it found to
    /// `enqueue_found`, and the request that comes of it to the router.
    Search(u64, u64, String),
    /// Take the player out of the channel.
    Leave(u64, u64),
    /// Bring a player into the channel.
    Join(u64, u64),
}

/// The request that a command stands for, where it stands for one: resume
/// and pause both toggle, and the rest carry their arguments over.
pub open spec fn request_for(con: PlayerControl) -> Option<PlayerRequest> {
    match con {
        PlayerControl::Resume => Some(PlayerRequest::PauseResume),
        PlayerControl::Pause => Some(PlayerRequest::PauseResume),
        PlayerControl::Skip(n) => Some(PlayerRequest::Skip(n)),
        PlayerControl::BackSkip(n) => Some(PlayerRequest::BackSkip(n)),
        PlayerControl::SetTime(position) => Some(PlayerRequest::Jump(position)),
        PlayerControl::PlayMode(mode) => Some(PlayerRequest::Playback(parsed_mode(mode))),
        _ => None,
    }
}

/// An answer to a command that fails with the text `why`.
pub open spec fn is_refusal(m: Message, uuid: String, con: PlayerControl, why: Seq<char>) -> bool {
    m matches Message::ClientControlResult(result) && result.uuid == uuid && result.req == con
        && (result.res matches Err(text) && text@ == why)
}

/// The answer to a command: the command and its correlation id, with what
/// came of it.
pub fn control_result(uuid: String, con: PlayerControl, outcome: Result<(), String>) -> (r:
    Message)
    ensures
        r == Message::ClientControlResult(PlayerControlResult { uuid, req: con, res: outcome }),
{
    Message::ClientControlResult(PlayerControlResult { uuid, req: con, res: outcome })
}

/// The answer to a command that was handed on: success, or the error in
/// words.
pub fn control_outcome(uuid: String, con: PlayerControl, done: Result<(), RouteError>) -> (r:
    Message)
    ensures
        r matches Message::ClientControlResult(result) && result.uuid == uuid && result.req == con
            && match done {
            Ok(()) => result.res is Ok,
            Err(e) => result.res matches Err(text) && text@ == e.message_text(),
        },
{
    let outcome = match done {
        Ok(()) => Ok(()),
        Err(e) => Err(e.message()),
    };
    control_result(uuid, con, outcome)
}

impl RouteError {
    /// The error in words, as a client is told it.
    pub open spec fn message_text(&self) -> Seq<char> {
        match *self {
            RouteError::UnknownGuild => "Internal Error"@,
            RouteError::NoPlayer => "No Player in Channel"@,
            RouteError::Player(e) => e.message_text(),
        }
    }

    /// The error in words, as a client is told it.
    pub fn message(&self) -> (r: String)
        ensures
            r@ == self.message_text(),
    {
        match self {
            RouteError::UnknownGuild => String::from_str("Internal Error"),
            RouteError::NoPlayer => String::from_str("No Player in Channel"),
            RouteError::Player(e) => e.message(),
        }
    }
}

/// The request that comes of a search for a track to enqueue: the first
/// track found and no other, or no track where none was found. A search
/// that failed fails the command.
pub fn enqueue_found(found: Result<Vec<Track>, String>) -> (r: Result<PlayerRequest, String>)
    ensures
        match found {
            Err(why) => r == Err::<PlayerRequest, String>(why),
            Ok(tracks) => r matches Ok(PlayerRequest::Enqueue(first)) && first@ == if tracks@.len()
                > 0 {
                seq![tracks@[0]]
            } else {
                Seq::<Track>::empty()
            },
        },
{
    match found {
        Err(why) => Err(why),
        Ok(tracks) => {
            let mut first = tracks;
            first.truncate(1);
            assert(first@ =~= if tracks@.len() > 0 {
                seq![tracks@[0]]
            } else {
                Seq::<Track>::empty()
            });
            Ok(PlayerRequest::Enqueue(first))
        },
    }
}

impl Session {
    /// Decides how a command goes on. A user who is in no voice channel has
    /// no player to command; a guild that the router does not serve is an
    /// error of the server. Both are answered at once, under the command's
    /// correlation id. Any other command is handed on for the user's guild
    /// and channel.
    pub fn handle_control_req(&self, router: &Router, uuid: &String, con: &PlayerControl) -> (r:
        ControlPlan)
        ensures
            match self.voice_state {
                None => r matches ControlPlan::Respond(m) && is_refusal(
                    m,
                    *uuid,
                    *con,
                    "No Bot in Channel"@,
                ),
                Some(target) => if !router.knows(target.0) {
                    r matches ControlPlan::Respond(m) && is_refusal(
                        m,
                        *uuid,
                        *con,
                        "Internal Error"@,
                    )
                } else {
                    match *con {
                        PlayerControl::Enqueue(query) => r == ControlPlan::Search(
                            target.0,
                            target.1,
                            query,
                        ),
                        PlayerControl::Leave => r == ControlPlan::Leave(target.0, target.1),
                        PlayerControl::Join => r == ControlPlan::Join(target.0, target.1),
                        _ => request_for(*con) matches Some(request) && r == ControlPlan::Request(
                            target.0,
                            target.1,
                            request,
                        ),
                    }
                },
            },
    {
        let (guild, channel) = match self.voice_state {
            None => {
                return ControlPlan::Respond(
                    control_result(
                        uuid.clone(),
                        con.duplicate(),
                        Err(String::from_str("No Bot in Channel")),
                    ),
                );
            },
            Some(target) => target,
        };
        if !router.knows_guild(guild) {
            return ControlPlan::Respond(
                control_result(
                    uuid.clone(),
                    con.duplicate(),
                    Err(String::from_str("Internal Error")),
                ),
            );
        }
        match con {
            PlayerControl::Resume => ControlPlan::Request(
                guild,
                channel,
                PlayerRequest::PauseResume,
            ),
            PlayerControl::Pause => ControlPlan::Request(guild, channel, PlayerRequest::PauseResume),
            PlayerControl::Skip(n) => ControlPlan::Request(guild, channel, PlayerRequest::Skip(*n)),
            PlayerControl::BackSkip(n) => ControlPlan::Request(
                guild,
                channel,
                PlayerRequest::BackSkip(*n),
            ),
            PlayerControl::SetTime(position) => ControlPlan::Request(
                guild,
                channel,
                PlayerRequest::Jump(*position),
            ),
            PlayerControl::PlayMode(mode) => ControlPlan::Request(
                guild,
                channel,
                PlayerRequest::Playback(parse_mode(*mode)),
            ),
            PlayerControl::Enqueue(query) => ControlPlan::Search(guild, channel, query.clone()),
            PlayerControl::Leave => ControlPlan::Leave(guild, channel),
            PlayerControl::Join => ControlPlan::Join(guild, channel),
        }
    }
}

} // verus!
