//! Deduplication of recognised instructions and the wake-word window.

use vstd::prelude::*;

use crate::clock::now_millis;
use crate::text::{owned, str_eq, trim_of, trimmed};

verus! {

/// The same instruction again within this many milliseconds is dropped.
pub const INSTRUCTION_DEDUP_MS: u64 = 3000;

/// A wake-word detection counts as recent for this many milliseconds.
pub const WAKE_WINDOW_MS: u64 = 10000;

/// Whether `text` at `now` repeats the last accepted instruction: the same
/// text, less than the dedup window after it (or at a clock reading before
/// it).
pub open spec fn is_repeat(last: Option<(Seq<char>, u64)>, text: Seq<char>, now: u64) -> bool {
    match last {
        None => false,
        Some((t, at)) => t == text && (now < at || now - at < INSTRUCTION_DEDUP_MS),
    }
}

/// Whether an instruction `text` (already trimmed) at `now` is passed on.
pub open spec fn instruction_passes(last: Option<(Seq<char>, u64)>, text: Seq<char>, now: u64) -> bool {
    text.len() > 0 && !is_repeat(last, text, now)
}

/// Remembers the last accepted instruction and drops repeats of it.
pub struct InstructionFilter {
    last: Option<(String, u64)>,
}

impl InstructionFilter {
    /// The last accepted instruction and when it was accepted.
    pub closed spec fn last_seen(&self) -> Option<(Seq<char>, u64)> {
        match self.last {
            None => None,
            Some((t, at)) => Some((t@, at)),
        }
    }

    /// A filter that has accepted nothing.
    pub fn new() -> (r: Self)
        ensures
            r.last_seen().is_none(),
    {
        InstructionFilter { last: None }
    }

    /// Decides on an instruction `text` (already trimmed) at `now`: an empty
    /// text or a repeat is dropped; anything else is accepted and recorded.
    pub fn accept_at(&mut self, text: &str, now: u64) -> (r: bool)
        ensures
            r == instruction_passes(old(self).last_seen(), text@, now),
            r ==> final(self).last_seen() == Some((text@, now)),
            !r ==> final(self).last_seen() == old(self).last_seen(),
    {
        if text.unicode_len() == 0 {
            return false;
        }
        let repeat = match &self.last {
            None => false,
            Some((t, at)) => str_eq(t.as_str(), text) && (now < *at || now - *at < INSTRUCTION_DEDUP_MS),
        };
        if repeat {
            return false;
        }
        self.last = Some((owned(text), now));
        true
    }

    /// Handles one recognised text at `now`: trims it and returns the
    /// trimmed text if it is to be emitted as an instruction.
    pub fn on_text_at(&mut self, raw: &str, now: u64) -> (r: Option<String>)
        ensures
            r.is_some() == instruction_passes(old(self).last_seen(), trim_of(raw@), now),
            r matches Some(t) ==> t@ == trim_of(raw@) && final(self).last_seen() == Some(
                (trim_of(raw@), now),
            ),
            r.is_none() ==> final(self).last_seen() == old(self).last_seen(),
    {
        let t = trimmed(raw);
        if self.accept_at(t.as_str(), now) {
            Some(t)
        } else {
            None
        }
    }

    /// Handles one recognised text at the current time.
    pub fn on_text(&mut self, raw: &str) -> (r: Option<String>)
        ensures
            r matches Some(t) ==> t@ == trim_of(raw@),
            trim_of(raw@).len() == 0 ==> r.is_none(),
            r.is_none() ==> final(self).last_seen() == old(self).last_seen(),
            trim_of(raw@).len() > 0 && !(old(self).last_seen() matches Some(p) && p.0 == trim_of(
                raw@,
            )) ==> (r matches Some(t) && t@ == trim_of(raw@)),
            r is Some ==> (final(self).last_seen() matches Some(p) && p.0 == trim_of(raw@)),
    {
        let now = now_millis();
        self.on_text_at(raw, now)
    }
}

/// Whether a wake word heard at `woken` still counts at `now`.
pub open spec fn wake_active(woken: Option<u64>, now: u64) -> bool {
    match woken {
        None => false,
        Some(t) => now >= t && now - t < WAKE_WINDOW_MS,
    }
}

/// The "recently woken" flag: set on a wake-word detection, it lapses after
/// the wake window unless consumed sooner.
pub struct WakeState {
    woken_at: Option<u64>,
}

impl WakeState {
    /// When the last unconsumed wake word was heard.
    pub closed spec fn woken(&self) -> Option<u64> {
        self.woken_at
    }

    /// Not woken.
    pub fn new() -> (r: Self)
        ensures
            r.woken().is_none(),
    {
        WakeState { woken_at: None }
    }

    /// Records a wake word heard at `now`.
    pub fn on_wake(&mut self, now: u64)
        ensures
            final(self).woken() == Some(now),
    {
        self.woken_at = Some(now);
    }

    /// Whether the device counts as recently woken at `now`.
    pub fn is_woken(&self, now: u64) -> (r: bool)
        ensures
            r == wake_active(self.woken(), now),
    {
        match self.woken_at {
            None => false,
            Some(t) => now >= t && now - t < WAKE_WINDOW_MS,
        }
    }

    /// Uses up the flag: returns whether it was active at `now` and clears it.
    pub fn consume(&mut self, now: u64) -> (r: bool)
        ensures
            r == wake_active(old(self).woken(), now),
            final(self).woken().is_none(),
    {
        let r = self.is_woken(now);
        self.woken_at = None;
        r
    }
}

} // verus!
