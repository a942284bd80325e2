//! Shared playback state: whether synthesized speech is playing, which
//! utterance is current, and whether an interrupt was asked for it.

use vstd::prelude::*;

use crate::clock::now_millis;

verus! {

/// What a [`StateManager`] holds, as plain values.
pub struct PlaybackView {
    pub playing: bool,
    pub current_id: u64,
    pub last_start: u64,
    pub interrupt_requested: bool,
}

/// The id that a playback started at `now` receives after `current`: the
/// clock reading when it is ahead of every id handed out so far, else the
/// next integer, so that ids never repeat nor go back.
pub open spec fn next_utterance_id(current: u64, now: u64) -> u64 {
    if now > current {
        now
    } else if current < u64::MAX {
        (current + 1) as u64
    } else {
        current
    }
}

/// The state after a playback starts at `now`.
pub open spec fn started(v: PlaybackView, now: u64) -> PlaybackView {
    PlaybackView {
        playing: true,
        current_id: next_utterance_id(v.current_id, now),
        last_start: now,
        interrupt_requested: false,
    }
}

/// The state after an interrupt is asked for: flagged if something plays,
/// else unchanged.
pub open spec fn interrupted(v: PlaybackView) -> PlaybackView {
    if v.playing {
        PlaybackView { interrupt_requested: true, ..v }
    } else {
        v
    }
}

/// Whether utterance `id` is to be interrupted in state `v`.
pub open spec fn interrupt_pending(v: PlaybackView, id: u64) -> bool {
    v.current_id == id && v.interrupt_requested
}

/// An interrupt asked for one utterance never reaches the next: after a
/// start (utterance A), an interrupt request and another start (utterance
/// B), neither A nor B is to be interrupted, and B becomes so only through
/// a new request. Ids run out at `u64::MAX`, where A and B would coincide.
pub proof fn lemma_interrupt_not_stale(v: PlaybackView, t1: u64, t2: u64)
    requires
        next_utterance_id(v.current_id, t1) < u64::MAX,
    ensures
        ({
            let a = started(v, t1);
            let c = started(interrupted(a), t2);
            &&& c.current_id != a.current_id
            &&& !interrupt_pending(c, a.current_id)
            &&& !interrupt_pending(c, c.current_id)
            &&& interrupt_pending(interrupted(c), c.current_id)
        }),
{
}

/// Tracks the utterance being spoken and interrupt requests aimed at it.
pub struct StateManager {
    is_tts_playing: bool,
    current_tts_id: u64,
    last_tts_start: u64,
    interrupt_requested: bool,
}

impl View for StateManager {
    type V = PlaybackView;

    closed spec fn view(&self) -> PlaybackView {
        PlaybackView {
            playing: self.is_tts_playing,
            current_id: self.current_tts_id,
            last_start: self.last_tts_start,
            interrupt_requested: self.interrupt_requested,
        }
    }
}

impl StateManager {
    /// Nothing playing, no utterance yet, no interrupt pending.
    pub fn new() -> (r: Self)
        ensures
            r@ == (PlaybackView {
                playing: false,
                current_id: 0,
                last_start: 0,
                interrupt_requested: false,
            }),
    {
        StateManager {
            is_tts_playing: false,
            current_tts_id: 0,
            last_tts_start: 0,
            interrupt_requested: false,
        }
    }

    /// Marks speech as playing at time `now` (milliseconds) and returns the
    /// new utterance's id; any earlier interrupt request is dropped.
    pub fn start_tts_at(&mut self, now: u64) -> (r: u64)
        ensures
            r == next_utterance_id(old(self)@.current_id, now),
            final(self)@ == started(old(self)@, now),
    {
        let id: u64 = if now > self.current_tts_id {
            now
        } else if self.current_tts_id < u64::MAX {
            self.current_tts_id + 1
        } else {
            self.current_tts_id
        };
        self.current_tts_id = id;
        self.last_tts_start = now;
        self.is_tts_playing = true;
        self.interrupt_requested = false;
        id
    }

    /// Marks speech as playing from the current clock reading and returns the
    /// new utterance's id.
    pub fn start_tts(&mut self) -> (r: u64)
        ensures
            final(self)@.playing,
            final(self)@.current_id == r,
            !final(self)@.interrupt_requested,
            r == next_utterance_id(old(self)@.current_id, final(self)@.last_start),
            final(self)@.last_start <= i64::MAX as u64,
            old(self)@.current_id < u64::MAX ==> r > old(self)@.current_id,
            old(self)@.current_id < i64::MAX as u64 ==> r <= i64::MAX as u64,
    {
        let now = now_millis();
        self.start_tts_at(now)
    }

    /// Marks speech as stopped, but only if `tts_id` is still the current
    /// utterance; a stop for an older one changes nothing.
    pub fn stop_tts(&mut self, tts_id: u64)
        ensures
            old(self)@.current_id == tts_id ==> final(self)@ == (PlaybackView {
                playing: false,
                interrupt_requested: false,
                ..old(self)@
            }),
            old(self)@.current_id != tts_id ==> final(self)@ == old(self)@,
    {
        if self.current_tts_id == tts_id {
            self.is_tts_playing = false;
            self.interrupt_requested = false;
        }
    }

    /// Whether speech is playing.
    pub fn is_tts_playing(&self) -> (r: bool)
        ensures
            r == self@.playing,
    {
        self.is_tts_playing
    }

    /// Asks the current utterance to stop. Returns `false`, changing nothing,
    /// when nothing is playing.
    pub fn request_interrupt(&mut self) -> (r: bool)
        ensures
            r == old(self)@.playing,
            final(self)@ == interrupted(old(self)@),
    {
        if self.is_tts_playing() {
            self.interrupt_requested = true;
            true
        } else {
            false
        }
    }

    /// Whether an interrupt is pending for utterance `tts_id`: it must still
    /// be the current one.
    pub fn should_interrupt(&self, tts_id: u64) -> (r: bool)
        ensures
            r == interrupt_pending(self@, tts_id),
    {
        self.current_tts_id == tts_id && self.interrupt_requested
    }

    /// Drops any pending interrupt request.
    pub fn clear_interrupt(&mut self)
        ensures
            final(self)@ == (PlaybackView { interrupt_requested: false, ..old(self)@ }),
    {
        self.interrupt_requested = false;
    }
}

} // verus!
