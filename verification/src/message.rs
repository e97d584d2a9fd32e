//! The texts of the two messages that a guild is shown: the list of tracks
//! that a search found, and the board of all players.

use crate::emote::{emote_of, same_text, EmoteAction};
use crate::player::{elapsed_at, Model, PlayerState};
use crate::queue::Track;
use serenity::utils::MessageBuilder;
use vstd::prelude::*;
use vstd::string::StringExecFns;
use vstd::string::StrSliceExecFns;

verus! {

/// The number of characters of a title that a message shows.
pub const SEARCH_TITLE_LIMIT: usize = 40;

/// The number of characters of a requester's name that a message shows.
pub const REQUESTER_NAME_LIMIT: usize = 16;

/// The number of tracks that a search message lists.
pub const SEARCH_LIST_LIMIT: usize = 10;

/// The character for a digit.
pub open spec fn digit(d: nat) -> char {
    if d == 0 {
        '0'
    } else if d == 1 {
        '1'
    } else if d == 2 {
        '2'
    } else if d == 3 {
        '3'
    } else if d == 4 {
        '4'
    } else if d == 5 {
        '5'
    } else if d == 6 {
        '6'
    } else if d == 7 {
        '7'
    } else if d == 8 {
        '8'
    } else {
        '9'
    }
}

/// A number in decimal digits, without leading zeros.
pub open spec fn decimal(n: nat) -> Seq<char>
    decreases n,
{
    if n < 10 {
        seq![digit(n)]
    } else {
        decimal(n / 10).push(digit(n % 10))
    }
}

/// A number in decimal digits, with a leading zero where it has one digit.
pub open spec fn two_digits(n: nat) -> Seq<char> {
    if n < 10 {
        seq!['0', digit(n)]
    } else {
        decimal(n)
    }
}

/// A duration of `secs` seconds as minutes and seconds, with the hours in
/// front where there are any.
pub open spec fn duration_text(secs: nat) -> Seq<char> {
    let seconds = secs % 60;
    let minutes = (secs / 60) % 60;
    let hours = (secs / 60) / 60;
    if hours > 0 {
        two_digits(hours) + seq![':'] + two_digits(minutes) + seq![':'] + two_digits(seconds)
    } else {
        two_digits(minutes) + seq![':'] + two_digits(seconds)
    }
}

/// A text cut to its first `limit` characters.
pub open spec fn truncated(s: Seq<char>, limit: nat) -> Seq<char> {
    if s.len() <= limit {
        s
    } else {
        s.subrange(0, limit as int)
    }
}

fn digit_str(d: u64) -> (r: &'static str)
    requires
        d < 10,
    ensures
        r@ == seq![digit(d as nat)],
{
    proof {
        reveal_strlit("0");
        reveal_strlit("1");
        reveal_strlit("2");
        reveal_strlit("3");
        reveal_strlit("4");
        reveal_strlit("5");
        reveal_strlit("6");
        reveal_strlit("7");
        reveal_strlit("8");
        reveal_strlit("9");
    }
    let r = if d == 0 {
        "0"
    } else if d == 1 {
        "1"
    } else if d == 2 {
        "2"
    } else if d == 3 {
        "3"
    } else if d == 4 {
        "4"
    } else if d == 5 {
        "5"
    } else if d == 6 {
        "6"
    } else if d == 7 {
        "7"
    } else if d == 8 {
        "8"
    } else {
        "9"
    };
    assert(r@ =~= seq![digit(d as nat)]);
    r
}

/// Writes a number in decimal digits.
pub fn decimal_string(n: u64) -> (r: String)
    ensures
        r@ == decimal(n as nat),
    decreases n,
{
    if n < 10 {
        String::from_str(digit_str(n))
    } else {
        let mut r = decimal_string(n / 10);
        r.append(digit_str(n % 10));
        assert(r@ =~= decimal((n / 10) as nat).push(digit((n % 10) as nat)));
        r
    }
}

/// Writes a number in at least two decimal digits.
pub fn two_digit_string(n: u64) -> (r: String)
    ensures
        r@ == two_digits(n as nat),
{
    if n < 10 {
        proof {
            reveal_strlit("0");
        }
        let mut r = String::from_str("0");
        r.append(digit_str(n));
        assert(r@ =~= seq!['0', digit(n as nat)]);
        r
    } else {
        decimal_string(n)
    }
}

/// Cuts a text to its first `limit` characters.
pub fn truncate(s: &str, limit: usize) -> (r: String)
    ensures
        r@ == truncated(s@, limit as nat),
{
    if s.unicode_len() <= limit {
        String::from_str(s)
    } else {
        String::from_str(s.substring_char(0, limit))
    }
}

/// `MessageBuilder::push_codeblock` of the `serenity` crate on a fresh
/// builder, built: the content between a line that opens a code block in the
/// language given and a line that closes it.
#[verifier::external_body]
fn push_codeblock(content: String, language: &str) -> (r: String)
    ensures
        r@ == "```"@ + language@ + "\n"@ + content@ + "\n```"@,
{
    MessageBuilder::new().push_codeblock(content, Some(language)).build()
}

/// The title of a track, or `missing` where the provider told nothing of
/// the track.
pub open spec fn title_or(t: Track, missing: Seq<char>) -> Seq<char> {
    match t.info {
        Some(info) => info.title@,
        None => missing,
    }
}

/// The line of a search message for the track at place `index`, counted
/// from zero.
pub open spec fn search_line(tracks: Seq<Track>, index: int) -> Seq<char> {
    decimal((index + 1) as nat) + ": "@ + truncated(
        title_or(tracks[index], "Missing Name"@),
        SEARCH_TITLE_LIMIT as nat,
    ) + "\r\n"@
}

/// The lines of a search message for the first `count` tracks.
pub open spec fn search_lines(tracks: Seq<Track>, count: nat) -> Seq<char>
    decreases count,
{
    if count == 0 {
        Seq::empty()
    } else {
        search_lines(tracks, (count - 1) as nat) + search_line(tracks, count - 1)
    }
}

/// The text of a search message: a head line with the query and the
/// requester's name, and a numbered line for each of the first tracks, up to
/// `SEARCH_LIST_LIMIT`, all in a code block.
pub open spec fn search_text(tracks: Seq<Track>, query: Seq<char>, requester: Seq<char>) -> Seq<
    char,
> {
    let count = if tracks.len() <= SEARCH_LIST_LIMIT {
        tracks.len()
    } else {
        SEARCH_LIST_LIMIT as nat
    };
    "```"@ + "cs"@ + "\n"@ + ("["@ + query + "] "@ + truncated(
        requester,
        REQUESTER_NAME_LIMIT as nat,
    ) + "\r\n"@ + search_lines(tracks, count)) + "\n```"@
}

/// Why a message could not be shown or gave no answer.
#[derive(Clone, Debug, PartialEq, Eq)]
pub enum MessageError {
    /// The chat service failed, by the description of its failure.
    SerenityError(String),
    /// No bot serves the guild.
    NoBot(u64),
    /// The bot has no connection to the chat service.
    NoShard(u64),
    Timeout,
    UnexpectedEnd,
}

impl MessageError {
    /// The error in words.
    pub open spec fn message_text(&self) -> Seq<char> {
        match *self {
            MessageError::SerenityError(why) => "Serenity Error occurred: "@ + why@,
            MessageError::NoBot(guild) => "Could not find Bot for Guild: "@ + decimal(
                guild as nat,
            ),
            MessageError::NoShard(bot) => "Could not find Shard for Bot: "@ + decimal(bot as nat),
            MessageError::Timeout => "Message Timeout"@,
            MessageError::UnexpectedEnd => "Unexpectedly ended"@,
        }
    }

    /// The error in words.
    pub fn message(&self) -> (r: String)
        ensures
            r@ == self.message_text(),
    {
        match self {
            MessageError::SerenityError(why) => String::from_str(
                "Serenity Error occurred: ",
            ).concat(why.as_str()),
            MessageError::NoBot(guild) => String::from_str("Could not find Bot for Guild: ").concat(
                decimal_string(*guild).as_str(),
            ),
            MessageError::NoShard(bot) => String::from_str("Could not find Shard for Bot: ").concat(
                decimal_string(*bot).as_str(),
            ),
            MessageError::Timeout => String::from_str("Message Timeout"),
            MessageError::UnexpectedEnd => String::from_str("Unexpectedly ended"),
        }
    }
}

/// The message that lists what a search found.
pub struct SearchMessage;

impl SearchMessage {
    /// The text of the message for the tracks that a search for `query`
    /// found on behalf of `requester`.
    pub fn content(tracks: &Vec<Track>, query: &str, requester: &str) -> (r: String)
        ensures
            r@ == search_text(tracks@, query@, requester@),
    {
        let mut content = String::from_str("[");
        content.append(query);
        content.append("] ");
        content.append(truncate(requester, REQUESTER_NAME_LIMIT).as_str());
        content.append("\r\n");
        let ghost head = content@;
        let count = if tracks.len() <= SEARCH_LIST_LIMIT {
            tracks.len()
        } else {
            SEARCH_LIST_LIMIT
        };
        let mut i: usize = 0;
        assert(content@ =~= head + search_lines(tracks@, 0));
        while i < count
            invariant
                i <= count,
                count <= tracks.len(),
                count <= SEARCH_LIST_LIMIT,
                content@ == head + search_lines(tracks@, i as nat),
            decreases count - i,
        {
            let ghost before = content@;
            content.append(decimal_string((i + 1) as u64).as_str());
            content.append(": ");
            match &tracks[i].info {
                Some(info) => {
                    content.append(truncate(info.title.as_str(), SEARCH_TITLE_LIMIT).as_str());
                },
                None => {
                    content.append(truncate("Missing Name", SEARCH_TITLE_LIMIT).as_str());
                },
            }
            content.append("\r\n");
            assert(content@ =~= before + search_line(tracks@, i as int));
            assert(before + search_line(tracks@, i as int) =~= head + (search_lines(
                tracks@,
                i as nat,
            ) + search_line(tracks@, i as int)));
            i += 1;
        }
        push_codeblock(content, "cs")
    }

    /// The reactions that the message offers: a number for each track but
    /// the last, up to ten, and one to delete the message.
    pub fn emotes(track_count: usize) -> (r: Vec<EmoteAction>)
        ensures
            r@ == search_emotes(track_count as nat),
    {
        let mut r: Vec<EmoteAction> = Vec::new();
        let mut n: usize = 1;
        while n < track_count && n <= 10
            invariant
                1 <= n <= 11,
                n == 1 || n <= track_count,
                r@ == Seq::new((n - 1) as nat, |i: int| EmoteAction::Number((i + 1) as usize)),
            decreases 11 - n,
        {
            r.push(EmoteAction::Number(n));
            n += 1;
            assert(r@ =~= Seq::new((n - 1) as nat, |i: int| EmoteAction::Number((i + 1) as usize)));
        }
        let ghost numbers = Seq::new((n - 1) as nat, |i: int| EmoteAction::Number((i + 1) as usize));
        assert(n - 1 == if track_count == 0 {
            0int
        } else if track_count - 1 <= 10 {
            track_count - 1
        } else {
            10int
        });
        r.push(EmoteAction::Delete);
        assert(r@ =~= numbers.push(EmoteAction::Delete));
        r
    }

    /// Whether the message offers a reaction with the sign given: only
    /// such reactions are collected.
    pub fn offers(track_count: usize, sign: &str) -> (r: bool)
        ensures
            r == exists|i: int|
                0 <= i < search_emotes(track_count as nat).len() && (#[trigger] search_emotes(
                    track_count as nat,
                )[i]).glyph() == sign@,
    {
        let emotes = SearchMessage::emotes(track_count);
        let mut i: usize = 0;
        while i < emotes.len()
            invariant
                i <= emotes.len(),
                emotes@ == search_emotes(track_count as nat),
                forall|k: int|
                    0 <= k < i ==> (#[trigger] search_emotes(track_count as nat)[k]).glyph()
                        != sign@,
            decreases emotes.len() - i,
        {
            if same_text(emotes[i].unicode(), sign) {
                return true;
            }
            i += 1;
        }
        false
    }

    /// Takes in the reaction that was collected, by its sign, or that none
    /// came in time. The search gives the track that the reaction picks; a
    /// reaction that picks none, and none at all, is a timeout.
    pub fn search(tracks: &Vec<Track>, reaction: Option<&str>) -> (r: Result<Track, MessageError>)
        ensures
            r == match reaction {
                Some(sign) => match emote_of(sign@) {
                    Some(EmoteAction::Number(n)) => if 1 <= n <= tracks@.len() {
                        Ok::<Track, MessageError>(tracks@[n - 1])
                    } else {
                        Err::<Track, MessageError>(MessageError::Timeout)
                    },
                    _ => Err::<Track, MessageError>(MessageError::Timeout),
                },
                None => Err::<Track, MessageError>(MessageError::Timeout),
            },
    {
        let action = match reaction {
            Some(sign) => match EmoteAction::try_from(sign) {
                Ok(action) => action,
                Err(_) => {
                    return Err(MessageError::Timeout);
                },
            },
            None => {
                return Err(MessageError::Timeout);
            },
        };
        match SearchMessage::chosen(tracks, action) {
            Some(track) => Ok(track),
            None => Err(MessageError::Timeout),
        }
    }

    /// The track that a reaction picks: the one at the place of a number,
    /// counted from one; no other reaction picks a track.
    pub fn chosen(tracks: &Vec<Track>, action: EmoteAction) -> (r: Option<Track>)
        ensures
            r == match action {
                EmoteAction::Number(n) => if 1 <= n <= tracks@.len() {
                    Some(tracks@[n - 1])
                } else {
                    None
                },
                _ => None,
            },
    {
        match action {
            EmoteAction::Number(n) => {
                if 1 <= n && n <= tracks.len() {
                    Some(tracks[n - 1].duplicate())
                } else {
                    None
                }
            },
            _ => None,
        }
    }
}

/// The reactions that a search message offers for `track_count` tracks.
pub open spec fn search_emotes(track_count: nat) -> Seq<EmoteAction> {
    let numbers = if track_count == 0 {
        0
    } else if track_count - 1 <= 10 {
        track_count - 1
    } else {
        10
    };
    Seq::new(numbers as nat, |i: int| EmoteAction::Number((i + 1) as usize)).push(
        EmoteAction::Delete,
    )
}

/// One player on the board: the name that its owner goes by in the guild,
/// where the owner is known there, and its state.
pub struct Board {
    pub name: Option<String>,
    pub state: PlayerState,
}

/// The line of the board for the current track of a player at `now`: its
/// title, how far it has played and how long it is.
pub open spec fn current_line(m: Model, now: u64) -> Seq<char> {
    match m.current {
        Some(playing) => truncated(
            title_or(playing.track, "No Track Name"@),
            SEARCH_TITLE_LIMIT as nat,
        ) + " ["@ + duration_text((elapsed_at(playing.elapsed, playing.since, now) / 1000) as nat)
            + "/"@ + (match playing.track.info {
            Some(info) => duration_text((info.length / 1000) as nat),
            None => "--:--"@,
        }) + "]\r\n"@,
        None => Seq::empty(),
    }
}

/// The line of the board for the track at place `index` of a playlist.
pub open spec fn queued_line(playlist: Seq<Track>, index: int) -> Seq<char> {
    "["@ + decimal((index + 1) as nat) + "] "@ + truncated(
        title_or(playlist[index], "No Track Name"@),
        SEARCH_TITLE_LIMIT as nat,
    ) + "\r\n"@
}

/// The lines of the board for the first two tracks of a playlist.
pub open spec fn queued_lines(playlist: Seq<Track>) -> Seq<char> {
    if playlist.len() == 0 {
        Seq::empty()
    } else if playlist.len() == 1 {
        queued_line(playlist, 0)
    } else {
        queued_line(playlist, 0) + queued_line(playlist, 1)
    }
}

/// The line of the board that names a player: the name that its owner
/// goes by, and either its mode or that it has nothing to play.
pub open spec fn head_line(name: Seq<char>, m: Model) -> Seq<char> {
    "["@ + name + "]"@ + (if m.current is None && m.playlist.len() == 0 {
        " No Song in Playlist\r\n"@
    } else {
        " "@ + (match m.playback {
            crate::player::Playback::Normal => ""@,
            crate::player::Playback::AllLoop => "🔁"@,
            crate::player::Playback::OneLoop => "🔂"@,
        }) + "\r\n"@
    })
}

/// The part of the board for one player under the name `name` at `now`:
/// its head line, its current track, the first two tracks of its playlist,
/// and an empty line.
pub open spec fn board_block(name: Seq<char>, m: Model, now: u64) -> Seq<char> {
    head_line(name, m) + current_line(m, now) + queued_lines(m.playlist) + "\r\n"@
}

/// The parts of the board for the first `count` players; a player whose
/// owner is not known in the guild has none.
pub open spec fn board_blocks(players: Seq<Board>, count: nat, now: u64) -> Seq<char>
    decreases count,
{
    if count == 0 {
        Seq::empty()
    } else {
        let player = players[count - 1];
        board_blocks(players, (count - 1) as nat, now) + (match player.name {
            Some(name) => board_block(name@, player.state@, now),
            None => Seq::empty(),
        })
    }
}

/// Whether the owner of any of the first `count` players is known.
pub open spec fn any_active(players: Seq<Board>, count: nat) -> bool {
    exists|i: int| 0 <= i < count && (#[trigger] players[i]).name is Some
}

/// The text of the board at `now`.
pub open spec fn board_text(players: Seq<Board>, now: u64) -> Seq<char> {
    "```cs\r\n"@ + board_blocks(players, players.len(), now) + (if any_active(
        players,
        players.len(),
    ) {
        Seq::empty()
    } else {
        "[No active Player]"@
    }) + "```"@
}

/// Whether any of the first players is active, one player at a time.
proof fn lemma_any_active_step(players: Seq<Board>, count: nat)
    requires
        count < players.len(),
    ensures
        any_active(players, count + 1) == (any_active(players, count) || players[count as int].name
            is Some),
{
    if any_active(players, count + 1) {
        let w = choose|w: int| 0 <= w < count + 1 && (#[trigger] players[w]).name is Some;
        if w < count {
            assert(any_active(players, count));
        }
    }
    if any_active(players, count) {
        let w = choose|w: int| 0 <= w < count && (#[trigger] players[w]).name is Some;
        assert(0 <= w < count + 1 && players[w].name is Some);
    }
    if players[count as int].name is Some {
        assert(0 <= count < count + 1 && players[count as int].name is Some);
    }
}

/// Writes the title of a track, cut to the limit, or `missing` where the
/// provider told nothing of the track.
fn append_title(msg: &mut String, track: &Track, missing: &str)
    ensures
        final(msg)@ == old(msg)@ + truncated(title_or(*track, missing@), SEARCH_TITLE_LIMIT as nat),
{
    match &track.info {
        Some(info) => {
            msg.append(truncate(info.title.as_str(), SEARCH_TITLE_LIMIT).as_str());
        },
        None => {
            msg.append(truncate(missing, SEARCH_TITLE_LIMIT).as_str());
        },
    }
}

/// Writes the line for the current track of a player at `now`.
fn append_current_line(msg: &mut String, state: &PlayerState, now: u64)
    ensures
        final(msg)@ == old(msg)@ + current_line(state@, now),
{
    if let Some(playing) = &state.current {
        append_title(msg, &playing.track, "No Track Name");
        msg.append(" [");
        msg.append(MainMessage::duration_fmt(playing.elapsed_at(now) / 1000).as_str());
        msg.append("/");
        match &playing.track.info {
            Some(info) => {
                msg.append(MainMessage::duration_fmt(info.length / 1000).as_str());
            },
            None => {
                msg.append("--:--");
            },
        }
        msg.append("]\r\n");
        assert(msg@ =~= old(msg)@ + current_line(state@, now));
    } else {
        assert(msg@ =~= old(msg)@ + current_line(state@, now));
    }
}

/// Writes the line for the track at place `index` of a playlist.
fn append_queued_line(msg: &mut String, state: &PlayerState, index: usize)
    requires
        index < state@.playlist.len(),
    ensures
        final(msg)@ == old(msg)@ + queued_line(state@.playlist, index as int),
{
    msg.append("[");
    let _ = state.playlist.len();
    msg.append(decimal_string((index + 1) as u64).as_str());
    msg.append("] ");
    match state.playlist.get(index) {
        Some(track) => {
            append_title(msg, track, "No Track Name");
        },
        None => {},
    }
    msg.append("\r\n");
    assert(msg@ =~= old(msg)@ + queued_line(state@.playlist, index as int));
}

/// Writes the line that names a player.
fn append_head_line(msg: &mut String, name: &str, state: &PlayerState)
    ensures
        final(msg)@ == old(msg)@ + head_line(name@, state@),
{
    msg.append("[");
    msg.append(name);
    msg.append("]");
    if state.current.is_none() && state.playlist.is_empty() {
        msg.append(" No Song in Playlist\r\n");
    } else {
        msg.append(" ");
        msg.append(state.playback.label().as_str());
        msg.append("\r\n");
    }
    assert(msg@ =~= old(msg)@ + head_line(name@, state@));
}

/// Writes the lines for the first two tracks of a playlist.
fn append_queued_lines(msg: &mut String, state: &PlayerState)
    ensures
        final(msg)@ == old(msg)@ + queued_lines(state@.playlist),
{
    let count = state.playlist.len();
    if count > 0 {
        append_queued_line(msg, state, 0);
    }
    if count > 1 {
        append_queued_line(msg, state, 1);
    }
    assert(msg@ =~= old(msg)@ + queued_lines(state@.playlist));
}

/// Writes the part of the board for one player.
fn append_block(msg: &mut String, name: &str, state: &PlayerState, now: u64)
    ensures
        final(msg)@ == old(msg)@ + board_block(name@, state@, now),
{
    let ghost head = head_line(name@, state@);
    let ghost current = current_line(state@, now);
    let ghost queued = queued_lines(state@.playlist);
    append_head_line(msg, name, state);
    append_current_line(msg, state, now);
    assert(msg@ =~= old(msg)@ + (head + current));
    append_queued_lines(msg, state);
    assert(msg@ =~= old(msg)@ + (head + current + queued));
    msg.append("\r\n");
    assert(msg@ =~= old(msg)@ + (head + current + queued + "\r\n"@));
}

/// The message that shows all players of a guild.
pub struct MainMessage;

impl MainMessage {
    /// The reactions that the message offers, in order.
    pub fn emotes() -> (r: Vec<EmoteAction>)
        ensures
            r@ == main_emotes(),
    {
        let mut r: Vec<EmoteAction> = Vec::new();
        r.push(EmoteAction::Prev);
        r.push(EmoteAction::PlayPause);
        r.push(EmoteAction::Next);
        r.push(EmoteAction::LoopOne);
        r.push(EmoteAction::LoopAll);
        r.push(EmoteAction::Join);
        r.push(EmoteAction::Leave);
        assert(r@ =~= main_emotes());
        r
    }

    /// Whether the message lacks one of its reactions, given the signs of
    /// the reactions that it has.
    pub fn missing_reaction(present: &Vec<String>) -> (r: bool)
        ensures
            r == exists|i: int|
                0 <= i < main_emotes().len() && !has_sign(present@, (#[trigger] main_emotes()[i])),
    {
        let emotes = MainMessage::emotes();
        let mut i: usize = 0;
        while i < emotes.len()
            invariant
                i <= emotes.len(),
                emotes@ == main_emotes(),
                forall|k: int| 0 <= k < i ==> has_sign(present@, (#[trigger] main_emotes()[k])),
            decreases emotes.len() - i,
        {
            let sign = emotes[i].unicode();
            let mut found = false;
            let mut j: usize = 0;
            while j < present.len()
                invariant
                    j <= present.len(),
                    sign@ == emotes@[i as int].glyph(),
                    i < emotes.len(),
                    found == exists|k: int| 0 <= k < j && (#[trigger] present@[k])@ == sign@,
                decreases present.len() - j,
            {
                if same_text(present[j].as_str(), sign) {
                    found = true;
                }
                j += 1;
            }
            if !found {
                return true;
            }
            i += 1;
        }
        false
    }

    /// Writes a duration of `secs` seconds as minutes and seconds, with the
    /// hours in front where there are any.
    pub fn duration_fmt(secs: u64) -> (r: String)
        ensures
            r@ == duration_text(secs as nat),
    {
        let seconds = secs % 60;
        let minutes = (secs / 60) % 60;
        let hours = (secs / 60) / 60;
        let mut msg = String::from_str("");
        proof {
            reveal_strlit("");
            reveal_strlit(":");
        }
        if hours > 0 {
            msg.append(two_digit_string(hours).as_str());
            msg.append(":");
        }
        msg.append(two_digit_string(minutes).as_str());
        msg.append(":");
        msg.append(two_digit_string(seconds).as_str());
        assert(msg@ =~= duration_text(secs as nat));
        msg
    }

    /// The text of the board for the players of a guild at `now`.
    pub fn content(players: &Vec<Board>, now: u64) -> (r: String)
        ensures
            r@ == board_text(players@, now),
    {
        let mut msg = String::from_str("```cs\r\n");
        let ghost head = msg@;
        let mut active = false;
        let mut i: usize = 0;
        assert(msg@ =~= head + board_blocks(players@, 0, now));
        while i < players.len()
            invariant
                i <= players.len(),
                msg@ == head + board_blocks(players@, i as nat, now),
                active == any_active(players@, i as nat),
            decreases players.len() - i,
        {
            let ghost before = msg@;
            match &players[i].name {
                None => {},
                Some(name) => {
                    active = true;
                    append_block(&mut msg, name.as_str(), &players[i].state, now);
                },
            }
            proof {
                lemma_any_active_step(players@, i as nat);
            }
            assert(msg@ =~= head + board_blocks(players@, (i + 1) as nat, now));
            i += 1;
        }
        if !active {
            msg.append("[No active Player]");
        }
        msg.append("```");
        assert(msg@ =~= board_text(players@, now));
        msg
    }

    /// Decides what follows from a reaction that was added to the message
    /// or taken from it. A reaction that one of the bots added is passed
    /// over. One that anybody else added is taken off again, and is handed
    /// on as the action that its sign stands for, where it stands for one.
    /// A reaction of an unknown user, and one that was taken off by a bot or
    /// by an unknown user, make the message check its reactions; one that
    /// anybody else took off is passed over.
    pub fn on_reaction(added: bool, user_is_bot: Option<bool>, sign: &str) -> (r: Reacted)
        ensures
            r == match (added, user_is_bot) {
                (true, Some(true)) => Reacted::Ignore,
                (true, Some(false)) => Reacted::Act(emote_of(sign@)),
                (false, Some(false)) => Reacted::Ignore,
                _ => Reacted::CheckEmotes,
            },
    {
        match (added, user_is_bot) {
            (true, Some(true)) => Reacted::Ignore,
            (true, Some(false)) => Reacted::Act(
                match EmoteAction::try_from(sign) {
                    Ok(action) => Some(action),
                    Err(_) => None,
                },
            ),
            (false, Some(false)) => Reacted::Ignore,
            _ => Reacted::CheckEmotes,
        }
    }
}

/// What follows from a reaction to the board.
#[derive(Clone, Copy, Debug, PartialEq, Eq)]
pub enum Reacted {
    /// Nothing.
    Ignore,
    /// Take the reaction off, and hand the action on where there is one.
    Act(Option<EmoteAction>),
    /// Check that the message has all its reactions.
    CheckEmotes,
}

/// The reactions that the board offers, in order.
pub open spec fn main_emotes() -> Seq<EmoteAction> {
    seq![
        EmoteAction::Prev,
        EmoteAction::PlayPause,
        EmoteAction::Next,
        EmoteAction::LoopOne,
        EmoteAction::LoopAll,
        EmoteAction::Join,
        EmoteAction::Leave,
    ]
}

/// Whether the sign of an action is among the signs given.
pub open spec fn has_sign(present: Seq<String>, action: EmoteAction) -> bool {
    exists|k: int| 0 <= k < present.len() && (#[trigger] present[k])@ == action.glyph()
}

} // verus!
