//! Detection of spoken interrupt keywords, with debounce.

use vstd::prelude::*;

use crate::clock::now_millis;
use crate::state::{interrupted, StateManager};
use crate::text::{contains_seq, lower_of, str_contains, to_lower, trim_of, trimmed};

verus! {

/// What the interrupt detector reports.
#[derive(Debug)]
pub enum InterruptMonitorEvent {
    Started,
    InterruptDetected(String),
}

/// Repeats closer than this, in milliseconds, are suppressed.
pub const INTERRUPT_DEBOUNCE_MS: u64 = 2000;

/// Whether a detection at `now` passes the debounce after the last accepted
/// one at `last`: there was none, or more than the debounce window passed.
pub open spec fn debounce_allows(last: Option<u64>, now: u64) -> bool {
    match last {
        None => true,
        Some(t) => now >= t && now - t > INTERRUPT_DEBOUNCE_MS,
    }
}

/// Whether some keyword of `words` occurs in `text`.
pub open spec fn mentions_any(text: Seq<char>, words: Seq<Seq<char>>) -> bool {
    exists|j: int| 0 <= j < words.len() && contains_seq(text, #[trigger] words[j])
}

/// The index of the first text of `texts` that mentions a keyword, if any.
pub open spec fn first_mention(texts: Seq<Seq<char>>, words: Seq<Seq<char>>) -> Option<int>
    decreases texts.len(),
{
    if texts.len() == 0 {
        None
    } else if mentions_any(texts[0], words) {
        Some(0)
    } else {
        match first_mention(texts.drop_first(), words) {
            Some(i) => Some(i + 1),
            None => None,
        }
    }
}

proof fn lemma_first_mention_in_range(texts: Seq<Seq<char>>, words: Seq<Seq<char>>)
    ensures
        first_mention(texts, words) matches Some(i) ==> 0 <= i < texts.len(),
    decreases texts.len(),
{
    if texts.len() > 0 {
        lemma_first_mention_in_range(texts.drop_first(), words);
    }
}

/// Whether `events` is the single detection of `text`.
pub open spec fn reports_one(events: Seq<InterruptMonitorEvent>, text: Seq<char>) -> bool {
    &&& events.len() == 1
    &&& events[0] matches InterruptMonitorEvent::InterruptDetected(t)
    &&& t@ == text
}

/// The strings of `v` as character sequences.
pub open spec fn texts_of(v: Seq<String>) -> Seq<Seq<char>> {
    Seq::new(v.len(), |i: int| v[i]@)
}

/// The recognised texts as the detector compares them: trimmed, then lower
/// case.
pub open spec fn normalized_texts(v: Seq<String>) -> Seq<Seq<char>> {
    Seq::new(v.len(), |i: int| lower_of(trim_of(v[i]@)))
}

/// The keywords in lower case.
pub open spec fn lowered_words(v: Seq<String>) -> Seq<Seq<char>> {
    Seq::new(v.len(), |i: int| lower_of(v[i]@))
}

/// Watches recognition results for interrupt keywords and suppresses
/// repeats that come within the debounce window.
pub struct InterruptMonitor {
    last_interrupt: Option<u64>,
}

impl InterruptMonitor {
    /// The time of the last accepted detection.
    pub closed spec fn last(&self) -> Option<u64> {
        self.last_interrupt
    }

    /// A detector that has accepted nothing yet.
    pub fn new() -> (r: Self)
        ensures
            r.last().is_none(),
    {
        InterruptMonitor { last_interrupt: None }
    }

    /// Forgets the last detection, as when the watcher stops.
    pub fn stop(&mut self)
        ensures
            final(self).last().is_none(),
    {
        self.last_interrupt = None;
    }

    /// Whether `text` mentions one of `words`.
    pub fn mentions(text: &str, words: &Vec<String>) -> (r: bool)
        ensures
            r == mentions_any(text@, texts_of(words@)),
    {
        let mut j: usize = 0;
        while j < words.len()
            invariant
                j <= words@.len(),
                forall|k: int| 0 <= k < j ==> !contains_seq(text@, #[trigger] texts_of(words@)[k]),
            decreases words@.len() - j,
        {
            if str_contains(text, words[j].as_str()) {
                assert(contains_seq(text@, texts_of(words@)[j as int]));
                return true;
            }
            j += 1;
        }
        false
    }

    /// Applies the debounce to a detection at `now`: accepts and records it,
    /// or suppresses it.
    pub fn debounce(&mut self, now: u64) -> (r: bool)
        ensures
            r == debounce_allows(old(self).last(), now),
            r ==> final(self).last() == Some(now),
            !r ==> final(self).last() == old(self).last(),
    {
        let allowed = match self.last_interrupt {
            None => true,
            Some(t) => now >= t && now - t > INTERRUPT_DEBOUNCE_MS,
        };
        if allowed {
            self.last_interrupt = Some(now);
        }
        allowed
    }

    /// Scans the recognised texts of one log record, already trimmed and in
    /// lower case, against keywords in lower case, at time `now`. The first
    /// text that mentions a keyword is reported if the debounce lets it
    /// through; the texts after it fall in the same instant and are
    /// suppressed.
    pub fn scan(&mut self, texts: Vec<String>, words: &Vec<String>, now: u64) -> (r: Vec<
        InterruptMonitorEvent,
    >)
        ensures
            match first_mention(texts_of(texts@), texts_of(words@)) {
                Some(i) => if debounce_allows(old(self).last(), now) {
                    final(self).last() == Some(now) && reports_one(r@, texts@[i]@)
                } else {
                    final(self).last() == old(self).last() && r@.len() == 0
                },
                None => final(self).last() == old(self).last() && r@.len() == 0,
            },
    {
        let mut out: Vec<InterruptMonitorEvent> = Vec::new();
        let ghost all = texts_of(texts@);
        let ghost orig = texts@;
        let mut pool = texts;
        let ghost w = texts_of(words@);
        let mut i: usize = 0;
        let n = pool.len();
        proof {
            lemma_first_mention_in_range(all, w);
            assert(all.skip(0) =~= all);
        }
        while i < n
            invariant
                n == pool@.len(),
                pool@ == orig,
                texts@ == orig,
                all == texts_of(pool@),
                first_mention(all, w) matches Some(k) ==> 0 <= k < all.len(),
                w == texts_of(words@),
                i <= n,
                first_mention(all, w) == (match first_mention(all.skip(i as int), w) {
                    Some(k) => Some(k + i),
                    None => None,
                }),
                out@.len() == 0,
                self.last() == old(self).last(),
            decreases n - i,
        {
            assert(all.skip(i as int)[0] == all[i as int]);
            assert(all.skip(i as int).drop_first() =~= all.skip(i + 1));
            if Self::mentions(pool[i].as_str(), words) {
                let accepted = self.debounce(now);
                if accepted {
                    let t = pool.remove(i);
                    out.push(InterruptMonitorEvent::InterruptDetected(t));
                }
                return out;
            }
            i += 1;
        }
        out
    }

    /// Handles the recognised texts of one log record at time `now`: each is
    /// trimmed and put in lower case, the keywords too, then compared as
    /// [`InterruptMonitor::scan`] does.
    pub fn on_results_at(&mut self, texts: &Vec<String>, words: &Vec<String>, now: u64) -> (r: Vec<
        InterruptMonitorEvent,
    >)
        ensures
            match first_mention(normalized_texts(texts@), lowered_words(words@)) {
                Some(i) => if debounce_allows(old(self).last(), now) {
                    final(self).last() == Some(now) && reports_one(r@, normalized_texts(texts@)[i])
                } else {
                    final(self).last() == old(self).last() && r@.len() == 0
                },
                None => final(self).last() == old(self).last() && r@.len() == 0,
            },
    {
        let mut norm: Vec<String> = Vec::new();
        let mut i: usize = 0;
        while i < texts.len()
            invariant
                i <= texts@.len(),
                norm@.len() == i,
                forall|k: int| 0 <= k < i ==> #[trigger] norm@[k]@ == lower_of(trim_of(texts@[k]@)),
            decreases texts@.len() - i,
        {
            let t = trimmed(texts[i].as_str());
            norm.push(to_lower(t.as_str()));
            i += 1;
        }
        let mut lw: Vec<String> = Vec::new();
        let mut j: usize = 0;
        while j < words.len()
            invariant
                j <= words@.len(),
                lw@.len() == j,
                forall|k: int| 0 <= k < j ==> #[trigger] lw@[k]@ == lower_of(words@[k]@),
            decreases words@.len() - j,
        {
            lw.push(to_lower(words[j].as_str()));
            j += 1;
        }
        assert(texts_of(norm@) =~= normalized_texts(texts@));
        assert(texts_of(lw@) =~= lowered_words(words@));
        proof {
            lemma_first_mention_in_range(normalized_texts(texts@), lowered_words(words@));
        }
        self.scan(norm, &lw, now)
    }

    /// Handles the recognised texts of one log record at the current time.
    pub fn on_results(&mut self, texts: &Vec<String>, words: &Vec<String>) -> (r: Vec<
        InterruptMonitorEvent,
    >)
        ensures
            r@.len() <= 1,
            first_mention(normalized_texts(texts@), lowered_words(words@)) is None ==> r@.len()
                == 0 && final(self).last() == old(self).last(),
            first_mention(normalized_texts(texts@), lowered_words(words@)) is Some && old(
                self,
            ).last() is None ==> r@.len() == 1,
            r@.len() == 1 ==> (first_mention(normalized_texts(texts@), lowered_words(words@)) matches Some(i)
                && reports_one(r@, normalized_texts(texts@)[i]) && final(self).last() is Some),
            r@.len() == 0 ==> final(self).last() == old(self).last(),
    {
        let now = now_millis();
        self.on_results_at(texts, words, now)
    }

    /// Handles one log record at time `now` and, when an interrupt is
    /// detected, asks the playing utterance (if any) to stop.
    pub fn detect_and_interrupt(
        &mut self,
        state: &mut StateManager,
        texts: &Vec<String>,
        words: &Vec<String>,
        now: u64,
    ) -> (r: Vec<InterruptMonitorEvent>)
        ensures
            r@.len() <= 1,
            r@.len() == 1 <==> (first_mention(normalized_texts(texts@), lowered_words(words@)) is Some
                && debounce_allows(old(self).last(), now)),
            final(state)@ == (if r@.len() == 1 {
                interrupted(old(state)@)
            } else {
                old(state)@
            }),
    {
        let events = self.on_results_at(texts, words, now);
        if events.len() == 1 {
            let _ = state.request_interrupt();
        }
        events
    }
}

} // verus!
