//! Tracks, and the bounded queue that holds them.
//!
//! The queue is a ring buffer of the `arraydeque` crate with room for
//! `MUSIC_QUEUE_LIMIT` tracks. The buffer is reached through a handful of
//! small functions whose contracts are taken on trust, among them that the
//! functions which change the buffer do not panic; `TrackQueue`, on top of
//! them, is verified and never holds more than the limit.

use arraydeque::ArrayDeque;
use vstd::prelude::*;

verus! {

/// The number of tracks that a playlist or a history can hold.
pub const MUSIC_QUEUE_LIMIT: usize = 100;

/// What the playback provider tells of a track. Durations are in
/// milliseconds.
#[derive(Clone, Debug, PartialEq, Eq)]
pub struct Info {
    pub is_seekable: bool,
    pub is_stream: bool,
    pub identifier: String,
    pub author: String,
    pub length: u64,
    pub position: u64,
    pub title: String,
    pub uri: String,
}

/// A playable item: the provider's handle for it, and what is known of it.
#[derive(Clone, Debug, PartialEq, Eq)]
pub struct Track {
    pub track: String,
    pub info: Option<Info>,
}

impl Info {
    /// An equal copy.
    pub fn duplicate(&self) -> (r: Info)
        ensures
            r == *self,
    {
        Info {
            is_seekable: self.is_seekable,
            is_stream: self.is_stream,
            identifier: self.identifier.clone(),
            author: self.author.clone(),
            length: self.length,
            position: self.position,
            title: self.title.clone(),
            uri: self.uri.clone(),
        }
    }
}

impl Track {
    /// An equal copy.
    pub fn duplicate(&self) -> (r: Track)
        ensures
            r == *self,
    {
        Track {
            track: self.track.clone(),
            info: match &self.info {
                Some(info) => Some(info.duplicate()),
                None => None,
            },
        }
    }
}

/// A ring buffer of the `arraydeque` crate for `MUSIC_QUEUE_LIMIT` tracks.
/// Verus sees nothing inside it; `deque_tracks` names what it holds.
#[verifier::external_body]
pub struct TrackDeque {
    inner: ArrayDeque<[Track; 100]>,
}

/// The tracks in a ring buffer, from its front to its back.
pub uninterp spec fn deque_tracks(d: TrackDeque) -> Seq<Track>;

/// `ArrayDeque::new`: a buffer that holds nothing.
#[verifier::external_body]
fn deque_new() -> (d: TrackDeque)
    ensures
        deque_tracks(d) == Seq::<Track>::empty(),
{
    TrackDeque { inner: ArrayDeque::new() }
}

/// `ArrayDeque::len`: the number of tracks held.
#[verifier::external_body]
fn deque_len(d: &TrackDeque) -> (n: usize)
    ensures
        n == deque_tracks(*d).len(),
{
    d.inner.len()
}

/// `ArrayDeque::is_full`: whether the length is the capacity, which for a
/// buffer over an array of 100 items is 100.
#[verifier::external_body]
fn deque_is_full(d: &TrackDeque) -> (full: bool)
    ensures
        full == (deque_tracks(*d).len() == 100),
{
    d.inner.is_full()
}

/// `ArrayDeque::get`: the track at an index counted from the front, or
/// nothing where the index is not below the length.
#[verifier::external_body]
fn deque_get(d: &TrackDeque, index: usize) -> (r: Option<&Track>)
    ensures
        index < deque_tracks(*d).len() ==> r == Some(&deque_tracks(*d)[index as int]),
        index >= deque_tracks(*d).len() ==> r is None,
{
    d.inner.get(index)
}

/// `ArrayDeque::push_back` of a saturating buffer: a buffer that is not
/// full takes the track at its back; a full one stays as it is and hands the
/// track back. The call does not panic.
#[verifier::external_body]
fn deque_push_back(d: &mut TrackDeque, track: Track) -> (r: Result<(), Track>)
    ensures
        deque_tracks(*old(d)).len() != 100 ==> r is Ok && deque_tracks(*final(d)) == deque_tracks(
            *old(d),
        ).push(track),
        deque_tracks(*old(d)).len() == 100 ==> (r matches Err(refused) && refused == track) && deque_tracks(
            *final(d),
        ) == deque_tracks(*old(d)),
    no_unwind
{
    match d.inner.push_back(track) {
        Ok(()) => Ok(()),
        Err(e) => Err(e.element),
    }
}

/// `ArrayDeque::push_front` of a saturating buffer: a buffer that is not
/// full takes the track at its front; a full one stays as it is and hands
/// the track back. The call does not panic.
#[verifier::external_body]
fn deque_push_front(d: &mut TrackDeque, track: Track) -> (r: Result<(), Track>)
    ensures
        deque_tracks(*old(d)).len() != 100 ==> r is Ok && deque_tracks(*final(d)) == seq![track]
            + deque_tracks(*old(d)),
        deque_tracks(*old(d)).len() == 100 ==> (r matches Err(refused) && refused == track) && deque_tracks(
            *final(d),
        ) == deque_tracks(*old(d)),
    no_unwind
{
    match d.inner.push_front(track) {
        Ok(()) => Ok(()),
        Err(e) => Err(e.element),
    }
}

/// `ArrayDeque::pop_front`: takes the track at the front out, if there is
/// one. The call does not panic.
#[verifier::external_body]
fn deque_pop_front(d: &mut TrackDeque) -> (r: Option<Track>)
    ensures
        deque_tracks(*old(d)).len() == 0 ==> r is None && deque_tracks(*final(d)) == deque_tracks(
            *old(d),
        ),
        deque_tracks(*old(d)).len() > 0 ==> r == Some(deque_tracks(*old(d)).first())
            && deque_tracks(*final(d)) == deque_tracks(*old(d)).drop_first(),
    no_unwind
{
    d.inner.pop_front()
}

/// `ArrayDeque::pop_back`: takes the track at the back out, if there is
/// one. The call does not panic.
#[verifier::external_body]
fn deque_pop_back(d: &mut TrackDeque) -> (r: Option<Track>)
    ensures
        deque_tracks(*old(d)).len() == 0 ==> r is None && deque_tracks(*final(d)) == deque_tracks(
            *old(d),
        ),
        deque_tracks(*old(d)).len() > 0 ==> r == Some(deque_tracks(*old(d)).last())
            && deque_tracks(*final(d)) == deque_tracks(*old(d)).drop_last(),
    no_unwind
{
    d.inner.pop_back()
}

/// `ArrayDeque::clear`: takes every track out. The call does not panic.
#[verifier::external_body]
fn deque_clear(d: &mut TrackDeque)
    ensures
        deque_tracks(*final(d)) == Seq::<Track>::empty(),
    no_unwind
{
    d.inner.clear()
}

/// A queue of at most `MUSIC_QUEUE_LIMIT` tracks, open at both ends. Its
/// view is the sequence of its tracks from front to back.
pub struct TrackQueue {
    ring: TrackDeque,
}

impl View for TrackQueue {
    type V = Seq<Track>;

    closed spec fn view(&self) -> Seq<Track> {
        deque_tracks(self.ring)
    }
}

/// A sequence with `track` put in front. A full sequence first loses the
/// track at its back.
pub open spec fn pushed_front(s: Seq<Track>, track: Track) -> Seq<Track> {
    if s.len() >= MUSIC_QUEUE_LIMIT {
        seq![track] + s.drop_last()
    } else {
        seq![track] + s
    }
}

/// A sequence with `track` put at the back. A full sequence first loses the
/// track at its back.
pub open spec fn pushed_back(s: Seq<Track>, track: Track) -> Seq<Track> {
    if s.len() >= MUSIC_QUEUE_LIMIT {
        s.drop_last().push(track)
    } else {
        s.push(track)
    }
}

impl TrackQueue {
    #[verifier::type_invariant]
    spec fn bounded(self) -> bool {
        deque_tracks(self.ring).len() <= MUSIC_QUEUE_LIMIT
    }

    /// An empty queue.
    pub fn new() -> (q: TrackQueue)
        ensures
            q@ == Seq::<Track>::empty(),
    {
        TrackQueue { ring: deque_new() }
    }

    /// The number of tracks, which never exceeds the limit.
    pub fn len(&self) -> (n: usize)
        ensures
            n == self@.len(),
            n <= MUSIC_QUEUE_LIMIT,
    {
        proof {
            use_type_invariant(self);
        }
        deque_len(&self.ring)
    }

    /// Whether the queue holds no track.
    pub fn is_empty(&self) -> (r: bool)
        ensures
            r == (self@.len() == 0),
    {
        deque_len(&self.ring) == 0
    }

    /// Whether the queue holds as many tracks as it can.
    pub fn is_full(&self) -> (r: bool)
        ensures
            r == (self@.len() == MUSIC_QUEUE_LIMIT),
            self@.len() <= MUSIC_QUEUE_LIMIT,
    {
        proof {
            use_type_invariant(self);
        }
        deque_is_full(&self.ring)
    }

    /// The track at `index`, counted from the front.
    pub fn get(&self, index: usize) -> (r: Option<&Track>)
        ensures
            index < self@.len() ==> r == Some(&self@[index as int]),
            index >= self@.len() ==> r is None,
    {
        deque_get(&self.ring, index)
    }

    /// Puts a track at the back. A full queue refuses it, stays as it is
    /// and hands the track back.
    pub fn push_back(&mut self, track: Track) -> (r: Result<(), Track>)
        ensures
            old(self)@.len() < MUSIC_QUEUE_LIMIT ==> r is Ok && final(self)@ == old(self)@.push(
                track,
            ),
            old(self)@.len() >= MUSIC_QUEUE_LIMIT ==> (r matches Err(refused) && refused == track) && final(self)@
                == old(self)@,
            final(self)@.len() <= MUSIC_QUEUE_LIMIT,
    {
        proof {
            use_type_invariant(&*self);
        }
        deque_push_back(&mut self.ring, track)
    }

    /// Puts a track at the front. A full queue refuses it, stays as it is
    /// and hands the track back.
    pub fn push_front(&mut self, track: Track) -> (r: Result<(), Track>)
        ensures
            old(self)@.len() < MUSIC_QUEUE_LIMIT ==> r is Ok && final(self)@ == seq![track] + old(self)@,
            old(self)@.len() >= MUSIC_QUEUE_LIMIT ==> (r matches Err(refused) && refused == track) && final(self)@
                == old(self)@,
            final(self)@.len() <= MUSIC_QUEUE_LIMIT,
    {
        proof {
            use_type_invariant(&*self);
        }
        deque_push_front(&mut self.ring, track)
    }

    /// Takes the track at the front out.
    pub fn pop_front(&mut self) -> (r: Option<Track>)
        ensures
            old(self)@.len() == 0 ==> r is None && final(self)@ == old(self)@,
            old(self)@.len() > 0 ==> r == Some(old(self)@.first()) && final(self)@ == old(self)@.drop_first(),
            final(self)@.len() <= MUSIC_QUEUE_LIMIT,
    {
        proof {
            use_type_invariant(&*self);
        }
        deque_pop_front(&mut self.ring)
    }

    /// Takes the track at the back out.
    pub fn pop_back(&mut self) -> (r: Option<Track>)
        ensures
            old(self)@.len() == 0 ==> r is None && final(self)@ == old(self)@,
            old(self)@.len() > 0 ==> r == Some(old(self)@.last()) && final(self)@ == old(self)@.drop_last(),
            final(self)@.len() <= MUSIC_QUEUE_LIMIT,
    {
        proof {
            use_type_invariant(&*self);
        }
        deque_pop_back(&mut self.ring)
    }

    /// Takes every track out.
    pub fn clear(&mut self)
        ensures
            final(self)@ == Seq::<Track>::empty(),
    {
        deque_clear(&mut self.ring)
    }

    /// Puts a track at the front; a full queue makes room by dropping the
    /// track at its back.
    pub fn force_push_front(&mut self, track: Track)
        ensures
            final(self)@ == pushed_front(old(self)@, track),
            final(self)@.len() <= MUSIC_QUEUE_LIMIT,
    {
        if self.is_full() {
            let _ = self.pop_back();
        }
        let _ = self.push_front(track);
    }

    /// Puts a track at the back; a full queue makes room by dropping the
    /// track at its back.
    pub fn force_push_back(&mut self, track: Track)
        ensures
            final(self)@ == pushed_back(old(self)@, track),
            final(self)@.len() <= MUSIC_QUEUE_LIMIT,
    {
        if self.is_full() {
            let _ = self.pop_back();
        }
        let _ = self.push_back(track);
    }

    /// The tracks from front to back, copied.
    pub fn to_vec(&self) -> (v: Vec<Track>)
        ensures
            v@ == self@,
    {
        let n = self.len();
        let mut v: Vec<Track> = Vec::new();
        let mut i: usize = 0;
        while i < n
            invariant
                i <= n,
                n == self@.len(),
                v@ == self@.subrange(0, i as int),
            decreases n - i,
        {
            match self.get(i) {
                Some(track) => {
                    v.push(track.duplicate());
                },
                None => {},
            }
            assert(self@.subrange(0, i + 1) =~= self@.subrange(0, i as int).push(self@[i as int]));
            i += 1;
        }
        assert(self@.subrange(0, n as int) =~= self@);
        v
    }

    /// A copy of the queue.
    pub fn duplicate(&self) -> (q: TrackQueue)
        ensures
            q@ == self@,
    {
        let n = self.len();
        let mut q = TrackQueue::new();
        let mut i: usize = 0;
        while i < n
            invariant
                i <= n,
                n == self@.len(),
                n <= MUSIC_QUEUE_LIMIT,
                q@ == self@.subrange(0, i as int),
            decreases n - i,
        {
            match self.get(i) {
                Some(track) => {
                    let _ = q.push_back(track.duplicate());
                },
                None => {},
            }
            assert(self@.subrange(0, i + 1) =~= self@.subrange(0, i as int).push(self@[i as int]));
            i += 1;
        }
        assert(self@.subrange(0, n as int) =~= self@);
        q
    }
}

} // verus!
