//! Chord tracker: interprets raw key-down/key-up events.
//!
//! It keeps per-kind modifier state and emits `ChordEvent`s: one for every
//! non-modifier key-down, prefixed by the held modifiers in the canonical
//! order Ctrl, Shift, Alt, Win; and one for a modifier released without
//! having been consumed (a standalone tap).
//!
//! A kind is `held` while any of its physical variants is depressed: pressing
//! both Shift keys keeps the kind held until both are released. `consumed`
//! marks that a non-modifier key went down while the kind was held; it is
//! cleared together with held when the last depressed variant goes up, and
//! only that final release can emit a standalone tap.

use vstd::prelude::*;
use vstd::string::StringExecFns;

use crate::keys::{
    is_modifier, key_modifier_variant, key_to_string, kind_label, label_of,
    lemma_kind_label_nonempty, lemma_label_nonempty, modifier_kind_of, modifier_label,
    modifier_variant_of, Key, ModifierKind, ModifierSide,
};

verus! {

/// Modifier state: which physical variant of each kind is depressed, and a
/// per-kind `consumed` flag.
///
/// The exposed state per kind is the single boolean `held`, true while some
/// variant is depressed. `consumed` is true once a non-modifier key-down
/// happened while the kind was held, and is cleared together with held when
/// the last depressed variant is released. For the Alt kind, `alt_left` is
/// the plain Alt key and `alt_right` is AltGr.
#[derive(Clone, Copy, Debug, PartialEq, Eq, Structural)]
pub struct Modifiers {
    pub ctrl_left: bool,
    pub ctrl_right: bool,
    pub shift_left: bool,
    pub shift_right: bool,
    pub alt_left: bool,
    pub alt_right: bool,
    pub meta_left: bool,
    pub meta_right: bool,
    pub ctrl_used: bool,
    pub shift_used: bool,
    pub alt_used: bool,
    pub meta_used: bool,
}

impl Modifiers {
    /// Is this physical variant of the kind depressed?
    pub open spec fn variant_down(self, kind: ModifierKind, side: ModifierSide) -> bool {
        match (kind, side) {
            (ModifierKind::Ctrl, ModifierSide::Left) => self.ctrl_left,
            (ModifierKind::Ctrl, ModifierSide::Right) => self.ctrl_right,
            (ModifierKind::Shift, ModifierSide::Left) => self.shift_left,
            (ModifierKind::Shift, ModifierSide::Right) => self.shift_right,
            (ModifierKind::Alt, ModifierSide::Left) => self.alt_left,
            (ModifierKind::Alt, ModifierSide::Right) => self.alt_right,
            (ModifierKind::Meta, ModifierSide::Left) => self.meta_left,
            (ModifierKind::Meta, ModifierSide::Right) => self.meta_right,
        }
    }

    /// A kind is held while any of its variants is depressed.
    pub open spec fn held(self, kind: ModifierKind) -> bool {
        self.variant_down(kind, ModifierSide::Left) || self.variant_down(
            kind,
            ModifierSide::Right,
        )
    }

    pub open spec fn consumed(self, kind: ModifierKind) -> bool {
        match kind {
            ModifierKind::Ctrl => self.ctrl_used,
            ModifierKind::Shift => self.shift_used,
            ModifierKind::Alt => self.alt_used,
            ModifierKind::Meta => self.meta_used,
        }
    }

    /// A consumed modifier is always still held.
    pub open spec fn wf(self) -> bool {
        &&& self.ctrl_used ==> self.held(ModifierKind::Ctrl)
        &&& self.shift_used ==> self.held(ModifierKind::Shift)
        &&& self.alt_used ==> self.held(ModifierKind::Alt)
        &&& self.meta_used ==> self.held(ModifierKind::Meta)
    }

    /// The state with nothing depressed and nothing consumed.
    pub open spec fn idle() -> Modifiers {
        Modifiers {
            ctrl_left: false,
            ctrl_right: false,
            shift_left: false,
            shift_right: false,
            alt_left: false,
            alt_right: false,
            meta_left: false,
            meta_right: false,
            ctrl_used: false,
            shift_used: false,
            alt_used: false,
            meta_used: false,
        }
    }

    /// State after this physical variant goes down: it becomes depressed
    /// (again, harmlessly, under auto-repeat).
    pub open spec fn with_variant(self, kind: ModifierKind, side: ModifierSide) -> Modifiers {
        match (kind, side) {
            (ModifierKind::Ctrl, ModifierSide::Left) => Modifiers { ctrl_left: true, ..self },
            (ModifierKind::Ctrl, ModifierSide::Right) => Modifiers { ctrl_right: true, ..self },
            (ModifierKind::Shift, ModifierSide::Left) => Modifiers { shift_left: true, ..self },
            (ModifierKind::Shift, ModifierSide::Right) => Modifiers { shift_right: true, ..self },
            (ModifierKind::Alt, ModifierSide::Left) => Modifiers { alt_left: true, ..self },
            (ModifierKind::Alt, ModifierSide::Right) => Modifiers { alt_right: true, ..self },
            (ModifierKind::Meta, ModifierSide::Left) => Modifiers { meta_left: true, ..self },
            (ModifierKind::Meta, ModifierSide::Right) => Modifiers { meta_right: true, ..self },
        }
    }

    /// The state with this physical variant no longer depressed, and nothing
    /// else changed.
    pub open spec fn without_variant(self, kind: ModifierKind, side: ModifierSide) -> Modifiers {
        match (kind, side) {
            (ModifierKind::Ctrl, ModifierSide::Left) => Modifiers { ctrl_left: false, ..self },
            (ModifierKind::Ctrl, ModifierSide::Right) => Modifiers { ctrl_right: false, ..self },
            (ModifierKind::Shift, ModifierSide::Left) => Modifiers { shift_left: false, ..self },
            (ModifierKind::Shift, ModifierSide::Right) => Modifiers { shift_right: false, ..self },
            (ModifierKind::Alt, ModifierSide::Left) => Modifiers { alt_left: false, ..self },
            (ModifierKind::Alt, ModifierSide::Right) => Modifiers { alt_right: false, ..self },
            (ModifierKind::Meta, ModifierSide::Left) => Modifiers { meta_left: false, ..self },
            (ModifierKind::Meta, ModifierSide::Right) => Modifiers { meta_right: false, ..self },
        }
    }

    /// The state with the kind's consumed flag cleared.
    pub open spec fn without_consumed(self, kind: ModifierKind) -> Modifiers {
        match kind {
            ModifierKind::Ctrl => Modifiers { ctrl_used: false, ..self },
            ModifierKind::Shift => Modifiers { shift_used: false, ..self },
            ModifierKind::Alt => Modifiers { alt_used: false, ..self },
            ModifierKind::Meta => Modifiers { meta_used: false, ..self },
        }
    }

    /// State after a non-modifier key-down: every held kind becomes consumed.
    pub open spec fn consume_held(self) -> Modifiers {
        Modifiers {
            ctrl_used: self.ctrl_used || self.held(ModifierKind::Ctrl),
            shift_used: self.shift_used || self.held(ModifierKind::Shift),
            alt_used: self.alt_used || self.held(ModifierKind::Alt),
            meta_used: self.meta_used || self.held(ModifierKind::Meta),
            ..self
        }
    }

    /// State after this physical variant goes up: the variant is released,
    /// and only when that leaves no variant of the kind depressed do held and
    /// consumed clear together.
    pub open spec fn release(self, kind: ModifierKind, side: ModifierSide) -> Modifiers {
        let m = self.without_variant(kind, side);
        if m.held(kind) {
            m
        } else {
            m.without_consumed(kind)
        }
    }

    pub fn new() -> (r: Modifiers)
        ensures
            r == Modifiers::idle(),
    {
        Modifiers {
            ctrl_left: false,
            ctrl_right: false,
            shift_left: false,
            shift_right: false,
            alt_left: false,
            alt_right: false,
            meta_left: false,
            meta_right: false,
            ctrl_used: false,
            shift_used: false,
            alt_used: false,
            meta_used: false,
        }
    }

    /// Is the kind held, that is, is some variant of it depressed?
    pub fn is_held(&self, kind: ModifierKind) -> (r: bool)
        ensures
            r == self.held(kind),
    {
        match kind {
            ModifierKind::Ctrl => self.ctrl_left || self.ctrl_right,
            ModifierKind::Shift => self.shift_left || self.shift_right,
            ModifierKind::Alt => self.alt_left || self.alt_right,
            ModifierKind::Meta => self.meta_left || self.meta_right,
        }
    }

    /// Has the kind been consumed while held?
    pub fn is_consumed(&self, kind: ModifierKind) -> (r: bool)
        ensures
            r == self.consumed(kind),
    {
        match kind {
            ModifierKind::Ctrl => self.ctrl_used,
            ModifierKind::Shift => self.shift_used,
            ModifierKind::Alt => self.alt_used,
            ModifierKind::Meta => self.meta_used,
        }
    }

    fn clear_variant(&mut self, kind: ModifierKind, side: ModifierSide)
        ensures
            *final(self) == old(self).without_variant(kind, side),
    {
        match (kind, side) {
            (ModifierKind::Ctrl, ModifierSide::Left) => {
                self.ctrl_left = false;
            },
            (ModifierKind::Ctrl, ModifierSide::Right) => {
                self.ctrl_right = false;
            },
            (ModifierKind::Shift, ModifierSide::Left) => {
                self.shift_left = false;
            },
            (ModifierKind::Shift, ModifierSide::Right) => {
                self.shift_right = false;
            },
            (ModifierKind::Alt, ModifierSide::Left) => {
                self.alt_left = false;
            },
            (ModifierKind::Alt, ModifierSide::Right) => {
                self.alt_right = false;
            },
            (ModifierKind::Meta, ModifierSide::Left) => {
                self.meta_left = false;
            },
            (ModifierKind::Meta, ModifierSide::Right) => {
                self.meta_right = false;
            },
        }
    }

    fn clear_consumed(&mut self, kind: ModifierKind)
        ensures
            *final(self) == old(self).without_consumed(kind),
    {
        match kind {
            ModifierKind::Ctrl => {
                self.ctrl_used = false;
            },
            ModifierKind::Shift => {
                self.shift_used = false;
            },
            ModifierKind::Alt => {
                self.alt_used = false;
            },
            ModifierKind::Meta => {
                self.meta_used = false;
            },
        }
    }

    /// The held modifier labels in canonical order, joined by `" + "`;
    /// empty when nothing is held.
    pub fn format(&self) -> (r: String)
        ensures
            r@ == mods_label(*self),
    {
        let mut s = String::new();
        if self.ctrl_left || self.ctrl_right {
            append_label(&mut s, "Ctrl");
        }
        if self.shift_left || self.shift_right {
            append_label(&mut s, "Shift");
        }
        if self.alt_left || self.alt_right {
            append_label(&mut s, "Alt");
        }
        if self.meta_left || self.meta_right {
            append_label(&mut s, "Win");
        }
        s
    }
}

impl Default for Modifiers {
    fn default() -> (r: Modifiers)
        ensures
            r == Modifiers::idle(),
    {
        Modifiers::new()
    }
}

/// Join one more label onto a (possibly empty) prefix with `" + "`.
pub open spec fn join_label(acc: Seq<char>, label: Seq<char>) -> Seq<char> {
    if acc.len() == 0 {
        label
    } else {
        acc + " + "@ + label
    }
}

/// The text of the held modifiers of `m`, in the canonical order
/// Ctrl, Shift, Alt, Win.
pub open spec fn mods_label(m: Modifiers) -> Seq<char> {
    let s0 = Seq::<char>::empty();
    let s1 = if m.held(ModifierKind::Ctrl) {
        join_label(s0, "Ctrl"@)
    } else {
        s0
    };
    let s2 = if m.held(ModifierKind::Shift) {
        join_label(s1, "Shift"@)
    } else {
        s1
    };
    let s3 = if m.held(ModifierKind::Alt) {
        join_label(s2, "Alt"@)
    } else {
        s2
    };
    if m.held(ModifierKind::Meta) {
        join_label(s3, "Win"@)
    } else {
        s3
    }
}

/// The chord text for a key label pressed under modifier state `m`:
/// the held modifiers, then the key's own label.
pub open spec fn chord_label(m: Modifiers, key_label: Seq<char>) -> Seq<char> {
    join_label(mods_label(m), key_label)
}

/// Joining keeps at least the new label's characters.
pub proof fn lemma_join_label_len(acc: Seq<char>, label: Seq<char>)
    ensures
        join_label(acc, label).len() >= label.len(),
{
}

fn append_label(s: &mut String, label: &str)
    ensures
        final(s)@ == join_label(old(s)@, label@),
{
    if s.as_str().is_empty() {
        s.append(label);
        assert(s@ =~= label@);
    } else {
        s.append(" + ");
        s.append(label);
        assert(s@ =~= old(s)@ + " + "@ + label@);
    }
}

/// An emitted event as the contracts see it: its text and its timestamp.
pub struct EventModel {
    pub text: Seq<char>,
    pub timestamp_ms: u64,
}

/// An emitted chord or standalone-tap event. `text` is never empty;
/// `timestamp_ms` is the clock reading of the originating key transition.
#[derive(Clone, Debug)]
pub struct ChordEvent {
    pub text: String,
    pub timestamp_ms: u64,
}

impl View for ChordEvent {
    type V = EventModel;

    open spec fn view(&self) -> EventModel {
        EventModel { text: self.text@, timestamp_ms: self.timestamp_ms }
    }
}

/// The event a non-modifier key-down at `now` emits under state `m`.
pub open spec fn down_event(m: Modifiers, key: Key, now: u64) -> EventModel {
    EventModel { text: chord_label(m, label_of(key)), timestamp_ms: now }
}

/// The event a standalone tap of `kind` released at `now` emits.
pub open spec fn tap_event(kind: ModifierKind, now: u64) -> EventModel {
    EventModel { text: kind_label(kind), timestamp_ms: now }
}

/// Modifier state after a key-down.
pub open spec fn mods_after_down(m: Modifiers, key: Key) -> Modifiers {
    match modifier_variant_of(key) {
        Some(p) => m.with_variant(p.0, p.1),
        None => m.consume_held(),
    }
}

/// Modifier state after a key-up.
pub open spec fn mods_after_up(m: Modifiers, key: Key) -> Modifiers {
    match modifier_variant_of(key) {
        Some(p) => m.release(p.0, p.1),
        None => m,
    }
}

/// A key-down emits exactly when the key is not a modifier.
pub open spec fn down_emits(key: Key) -> bool {
    !is_modifier(key)
}

/// A key-up emits exactly when it releases the last depressed variant of a
/// kind that was never consumed while held: a standalone tap.
pub open spec fn up_emits(m: Modifiers, key: Key) -> bool {
    match modifier_variant_of(key) {
        Some(p) => m.held(p.0) && !m.without_variant(p.0, p.1).held(p.0) && !m.consumed(p.0),
        None => false,
    }
}

/// Every transition preserves the modifier-state invariant.
pub proof fn lemma_transitions_preserve_wf(m: Modifiers, key: Key)
    requires
        m.wf(),
    ensures
        mods_after_down(m, key).wf(),
        mods_after_up(m, key).wf(),
{
}

/// The stateful interpreter: consumes key transitions, emits chord events.
pub struct ChordTracker {
    pub mods: Modifiers,
}

impl ChordTracker {
    pub open spec fn wf(self) -> bool {
        self.mods.wf()
    }

    pub fn new() -> (r: ChordTracker)
        ensures
            r.mods == Modifiers::idle(),
            r.wf(),
    {
        ChordTracker { mods: Modifiers::new() }
    }

    /// Consume a key-down at clock reading `now`.
    ///
    /// A modifier key-down is silent and marks its physical variant
    /// depressed. A non-modifier key-down consumes every held modifier and
    /// emits a chord event whose text lists the previously held modifiers
    /// before the key's label.
    pub fn on_key_down(&mut self, key: &Key, now: u64) -> (r: Option<ChordEvent>)
        requires
            old(self).wf(),
        ensures
            final(self).wf(),
            final(self).mods == mods_after_down(old(self).mods, *key),
            r is Some <==> down_emits(*key),
            !is_modifier(*key) ==> (r matches Some(e) && e@ == down_event(
                old(self).mods,
                *key,
                now,
            ) && e.text@.len() > 0),
    {
        match key_modifier_variant(key) {
            Some((kind, side)) => {
                match (kind, side) {
                    (ModifierKind::Ctrl, ModifierSide::Left) => {
                        self.mods.ctrl_left = true;
                    },
                    (ModifierKind::Ctrl, ModifierSide::Right) => {
                        self.mods.ctrl_right = true;
                    },
                    (ModifierKind::Shift, ModifierSide::Left) => {
                        self.mods.shift_left = true;
                    },
                    (ModifierKind::Shift, ModifierSide::Right) => {
                        self.mods.shift_right = true;
                    },
                    (ModifierKind::Alt, ModifierSide::Left) => {
                        self.mods.alt_left = true;
                    },
                    (ModifierKind::Alt, ModifierSide::Right) => {
                        self.mods.alt_right = true;
                    },
                    (ModifierKind::Meta, ModifierSide::Left) => {
                        self.mods.meta_left = true;
                    },
                    (ModifierKind::Meta, ModifierSide::Right) => {
                        self.mods.meta_right = true;
                    },
                }
                None
            },
            None => {
                let mut text = self.mods.format();
                if self.mods.ctrl_left || self.mods.ctrl_right {
                    self.mods.ctrl_used = true;
                }
                if self.mods.shift_left || self.mods.shift_right {
                    self.mods.shift_used = true;
                }
                if self.mods.alt_left || self.mods.alt_right {
                    self.mods.alt_used = true;
                }
                if self.mods.meta_left || self.mods.meta_right {
                    self.mods.meta_used = true;
                }
                let label = key_to_string(key);
                append_label(&mut text, label.as_str());
                proof {
                    lemma_label_nonempty(*key);
                    lemma_join_label_len(mods_label(old(self).mods), label_of(*key));
                }
                Some(ChordEvent { text, timestamp_ms: now })
            },
        }
    }

    /// Consume a key-up at clock reading `now`.
    ///
    /// A non-modifier key-up is silent and changes nothing. A modifier key-up
    /// releases its physical variant; while the other variant of the kind is
    /// still depressed nothing else changes. Releasing the last depressed
    /// variant clears held and consumed together and emits a standalone-tap
    /// event exactly when the kind had not been consumed.
    pub fn on_key_up(&mut self, key: &Key, now: u64) -> (r: Option<ChordEvent>)
        requires
            old(self).wf(),
        ensures
            final(self).wf(),
            final(self).mods == mods_after_up(old(self).mods, *key),
            r is Some <==> up_emits(old(self).mods, *key),
            !is_modifier(*key) ==> *final(self) == *old(self),
            (match modifier_kind_of(*key) {
                Some(kind) => up_emits(old(self).mods, *key) ==> (r matches Some(e) && e@
                    == tap_event(kind, now) && e.text@.len() > 0),
                None => r is None,
            }),
    {
        match key_modifier_variant(key) {
            Some((kind, side)) => {
                let was_consumed = self.mods.is_consumed(kind);
                let was_held = self.mods.is_held(kind);
                self.mods.clear_variant(kind, side);
                let still_held = self.mods.is_held(kind);
                if !still_held {
                    self.mods.clear_consumed(kind);
                }
                if was_held && !still_held && !was_consumed {
                    proof {
                        lemma_kind_label_nonempty(kind);
                    }
                    Some(ChordEvent { text: modifier_label(kind), timestamp_ms: now })
                } else {
                    None
                }
            },
            None => None,
        }
    }
}

} // verus!
