//! Display buffer: the most recent chord events, bounded in count and time.
//!
//! Entries are kept oldest to newest, at most `MAX_KEYS` of them, with
//! non-decreasing timestamps. An entry is visible for
//! `KEY_DISPLAY_DURATION_MS` and then fades for `FADE_OUT_DURATION_MS`;
//! once its age reaches that total lifetime it is purged.

use vstd::prelude::*;

use crate::tracker::{ChordEvent, EventModel};

verus! {

/// Most entries the buffer holds; pushing past this drops from the head.
pub const MAX_KEYS: usize = 15;

/// How long an entry stays fully opaque, in milliseconds.
pub const KEY_DISPLAY_DURATION_MS: u64 = 4000;

/// How long an entry then fades to nothing, in milliseconds.
pub const FADE_OUT_DURATION_MS: u64 = 800;

/// Total visible lifetime of an entry, in milliseconds.
pub const DISPLAY_LIFETIME_MS: u64 = KEY_DISPLAY_DURATION_MS + FADE_OUT_DURATION_MS;

/// Age of a timestamp at clock reading `now`; clamps to zero if the clock
/// reads earlier than the timestamp, so a clock regression never ages or
/// purges an entry early.
pub open spec fn age_of(now: u64, ts: u64) -> u64 {
    if now >= ts {
        (now - ts) as u64
    } else {
        0
    }
}

/// Saturating age computation; see `age_of`.
pub fn age_ms(now: u64, ts: u64) -> (r: u64)
    ensures
        r == age_of(now, ts),
{
    if now >= ts {
        now - ts
    } else {
        0
    }
}

/// The model sequence of a sequence of stored events.
pub open spec fn models(s: Seq<ChordEvent>) -> Seq<EventModel> {
    s.map_values(|e: ChordEvent| e@)
}

/// What pushing one event does to the buffer contents: append, and drop the
/// oldest entry if the buffer was full.
pub open spec fn buf_push(s: Seq<EventModel>, e: EventModel) -> Seq<EventModel> {
    if s.len() < MAX_KEYS {
        s.push(e)
    } else {
        s.drop_first().push(e)
    }
}

/// The entries still within their display lifetime at `now`, in order.
pub open spec fn purged(s: Seq<EventModel>, now: u64) -> Seq<EventModel> {
    s.filter(|e: EventModel| age_of(now, e.timestamp_ms) < DISPLAY_LIFETIME_MS)
}

/// One step of the `purged` filter, for reasoning about prefixes.
proof fn lemma_purged_step(s: Seq<EventModel>, now: u64, i: int)
    requires
        0 <= i < s.len(),
    ensures
        purged(s.take(i + 1), now) == (if age_of(now, s[i].timestamp_ms) < DISPLAY_LIFETIME_MS {
            purged(s.take(i), now).push(s[i])
        } else {
            purged(s.take(i), now)
        }),
{
    reveal(Seq::filter);
    assert(s.take(i + 1).drop_last() =~= s.take(i));
    assert(s.take(i + 1).last() == s[i]);
}

/// A bounded, time-ordered queue of chord events.
pub struct DisplayBuffer {
    entries: Vec<ChordEvent>,
}

impl View for DisplayBuffer {
    type V = Seq<EventModel>;

    closed spec fn view(&self) -> Seq<EventModel> {
        models(self.entries@)
    }
}

impl DisplayBuffer {
    /// At most `MAX_KEYS` entries; timestamps non-decreasing; texts non-empty.
    pub open spec fn wf(self) -> bool {
        &&& self@.len() <= MAX_KEYS
        &&& forall|i: int, j: int|
            0 <= i <= j < self@.len() ==> self@[i].timestamp_ms <= self@[j].timestamp_ms
        &&& forall|i: int| 0 <= i < self@.len() ==> self@[i].text.len() > 0
    }

    pub fn new() -> (r: DisplayBuffer)
        ensures
            r.wf(),
            r@ == Seq::<EventModel>::empty(),
    {
        let r = DisplayBuffer { entries: Vec::new() };
        proof {
            assert(r@ =~= Seq::<EventModel>::empty());
        }
        r
    }

    pub fn len(&self) -> (r: usize)
        ensures
            r == self@.len(),
    {
        self.entries.len()
    }

    /// The text and timestamp of the entry at `i`, oldest first.
    pub fn entry(&self, i: usize) -> (r: (String, u64))
        requires
            i < self@.len(),
        ensures
            r.0@ == self@[i as int].text,
            r.1 == self@[i as int].timestamp_ms,
    {
        let e = &self.entries[i];
        (e.text.clone(), e.timestamp_ms)
    }

    /// Append an event; if the buffer is full, the oldest entry leaves.
    ///
    /// The event may not be older than anything already displayed: the clock
    /// driving the pipeline is monotonic.
    pub fn push(&mut self, event: ChordEvent)
        requires
            old(self).wf(),
            event@.text.len() > 0,
            forall|i: int|
                0 <= i < old(self)@.len() ==> old(self)@[i].timestamp_ms <= event.timestamp_ms,
        ensures
            final(self).wf(),
            final(self)@ == buf_push(old(self)@, event@),
    {
        let ghost ev = event@;
        self.entries.push(event);
        proof {
            assert(self@ =~= old(self)@.push(ev));
        }
        if self.entries.len() > MAX_KEYS {
            let ghost mid = self@;
            self.entries.remove(0);
            proof {
                assert(self@ =~= mid.drop_first());
                assert(self@ =~= old(self)@.drop_first().push(ev));
            }
        }
    }

    /// Drop every entry whose age at `now` has reached the display lifetime;
    /// the rest stay, in order. Idempotent.
    pub fn purge(&mut self, now: u64)
        requires
            old(self).wf(),
        ensures
            final(self).wf(),
            final(self)@ == purged(old(self)@, now),
    {
        let ghost s = old(self)@;
        let mut kept: Vec<ChordEvent> = Vec::new();
        let n = self.entries.len();
        let mut i: usize = 0;
        while i < n
            invariant
                old(self).wf(),
                self.entries == old(self).entries,
                n == self.entries@.len(),
                s == models(self.entries@),
                i <= n,
                models(kept@) == purged(s.take(i as int), now),
                models(kept@).len() <= i,
                forall|a: int, b: int|
                    0 <= a <= b < models(kept@).len() ==> models(kept@)[a].timestamp_ms <= models(
                        kept@,
                    )[b].timestamp_ms,
                forall|a: int| 0 <= a < models(kept@).len() ==> models(kept@)[a].text.len() > 0,
                i > 0 ==> forall|a: int|
                    0 <= a < models(kept@).len() ==> models(kept@)[a].timestamp_ms <= s[i
                        - 1].timestamp_ms,
            decreases n - i,
        {
            let e = &self.entries[i];
            proof {
                lemma_purged_step(s, now, i as int);
            }
            if age_ms(now, e.timestamp_ms) < DISPLAY_LIFETIME_MS {
                let ghost km = models(kept@);
                kept.push(ChordEvent { text: e.text.clone(), timestamp_ms: e.timestamp_ms });
                proof {
                    assert(models(kept@) =~= km.push(s[i as int]));
                }
            }
            i = i + 1;
        }
        proof {
            assert(s.take(n as int) =~= s);
        }
        self.entries = kept;
    }

    /// The visible entries at `now`, oldest first, each with its age.
    pub fn snapshot(&self, now: u64) -> (r: Vec<(String, u64)>)
        requires
            self.wf(),
        ensures
            r@.len() == purged(self@, now).len(),
            forall|a: int|
                0 <= a < r@.len() ==> r@[a].0@ == purged(self@, now)[a].text && r@[a].1 == age_of(
                    now,
                    purged(self@, now)[a].timestamp_ms,
                ),
    {
        let ghost s = self@;
        let mut r: Vec<(String, u64)> = Vec::new();
        let n = self.entries.len();
        let mut i: usize = 0;
        while i < n
            invariant
                self.wf(),
                n == self.entries@.len(),
                s == models(self.entries@),
                i <= n,
                r@.len() == purged(s.take(i as int), now).len(),
                forall|a: int|
                    0 <= a < r@.len() ==> r@[a].0@ == purged(s.take(i as int), now)[a].text && r@[
                        a].1 == age_of(now, purged(s.take(i as int), now)[a].timestamp_ms),
            decreases n - i,
        {
            let e = &self.entries[i];
            proof {
                lemma_purged_step(s, now, i as int);
            }
            let age = age_ms(now, e.timestamp_ms);
            if age < DISPLAY_LIFETIME_MS {
                r.push((e.text.clone(), age));
            }
            i = i + 1;
        }
        proof {
            assert(s.take(n as int) =~= s);
        }
        r
    }
}

} // verus!
