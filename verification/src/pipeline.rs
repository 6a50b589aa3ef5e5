//! The whole interpretation pipeline: a chord tracker feeding a display
//! buffer. The input hook hands key transitions in; the renderer purges and
//! polls snapshots. Both sides see one state value, which the caller may put
//! behind whatever lock its threading needs.

use vstd::prelude::*;

use crate::buffer::{buf_push, purged, age_of, DisplayBuffer, MAX_KEYS};
use crate::keys::{is_modifier, modifier_kind_of, Key};
use crate::tracker::{
    down_event, mods_after_down, mods_after_up, tap_event, up_emits, ChordTracker, Modifiers,
};

verus! {

/// Chord tracker and display buffer, driven by one monotonic clock.
pub struct KeyPipeline {
    pub tracker: ChordTracker,
    pub buffer: DisplayBuffer,
}

impl KeyPipeline {
    pub open spec fn wf(self) -> bool {
        &&& self.tracker.wf()
        &&& self.buffer.wf()
    }

    /// `now` does not read earlier than anything already displayed; the
    /// driving clock is monotonic.
    pub open spec fn clock_valid(self, now: u64) -> bool {
        forall|i: int| 0 <= i < self.buffer@.len() ==> self.buffer@[i].timestamp_ms <= now
    }

    pub fn new() -> (r: KeyPipeline)
        ensures
            r.wf(),
            r.tracker.mods == Modifiers::idle(),
            r.buffer@.len() == 0,
    {
        KeyPipeline { tracker: ChordTracker::new(), buffer: DisplayBuffer::new() }
    }

    /// Feed a key-down observed at `now`: updates modifier state, and for a
    /// non-modifier key appends its chord event to the buffer.
    pub fn key_down(&mut self, key: &Key, now: u64)
        requires
            old(self).wf(),
            old(self).clock_valid(now),
        ensures
            final(self).wf(),
            final(self).tracker.mods == mods_after_down(old(self).tracker.mods, *key),
            is_modifier(*key) ==> final(self).buffer@ == old(self).buffer@,
            !is_modifier(*key) ==> final(self).buffer@ == buf_push(
                old(self).buffer@,
                down_event(old(self).tracker.mods, *key, now),
            ),
            final(self).clock_valid(now),
    {
        let emitted = self.tracker.on_key_down(key, now);
        match emitted {
            Some(e) => {
                self.buffer.push(e);
            },
            None => {},
        }
    }

    /// Feed a key-up observed at `now`: releases a modifier's state, and for
    /// a modifier that was never consumed appends its standalone-tap event.
    /// A non-modifier key-up changes nothing at all.
    pub fn key_up(&mut self, key: &Key, now: u64)
        requires
            old(self).wf(),
            old(self).clock_valid(now),
        ensures
            final(self).wf(),
            final(self).tracker.mods == mods_after_up(old(self).tracker.mods, *key),
            (match modifier_kind_of(*key) {
                Some(kind) => {
                    if up_emits(old(self).tracker.mods, *key) {
                        final(self).buffer@ == buf_push(old(self).buffer@, tap_event(kind, now))
                    } else {
                        final(self).buffer@ == old(self).buffer@
                    }
                },
                None => *final(self) == *old(self),
            }),
            final(self).clock_valid(now),
    {
        let emitted = self.tracker.on_key_up(key, now);
        match emitted {
            Some(e) => {
                self.buffer.push(e);
            },
            None => {},
        }
    }

    /// Drop entries past their display lifetime at `now`.
    pub fn purge(&mut self, now: u64)
        requires
            old(self).wf(),
        ensures
            final(self).wf(),
            final(self).tracker == old(self).tracker,
            final(self).buffer@ == purged(old(self).buffer@, now),
    {
        self.buffer.purge(now);
    }

    /// The visible entries at `now`, oldest first, each with its age.
    pub fn snapshot(&self, now: u64) -> (r: Vec<(String, u64)>)
        requires
            self.wf(),
        ensures
            r@.len() == purged(self.buffer@, now).len(),
            forall|a: int|
                0 <= a < r@.len() ==> r@[a].0@ == purged(self.buffer@, now)[a].text && r@[a].1
                    == age_of(now, purged(self.buffer@, now)[a].timestamp_ms),
    {
        self.buffer.snapshot(now)
    }

    /// How many entries the buffer holds; never more than `MAX_KEYS`.
    pub fn len(&self) -> (r: usize)
        requires
            self.wf(),
        ensures
            r == self.buffer@.len(),
            r <= MAX_KEYS,
    {
        self.buffer.len()
    }

    /// The text and timestamp of the buffered entry at `i`, oldest first.
    pub fn entry(&self, i: usize) -> (r: (String, u64))
        requires
            i < self.buffer@.len(),
        ensures
            r.0@ == self.buffer@[i as int].text,
            r.1 == self.buffer@[i as int].timestamp_ms,
    {
        self.buffer.entry(i)
    }
}

} // verus!
