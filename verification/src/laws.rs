//! Laws of the pipeline, stated over the spec-level transition functions that
//! the executable contracts are written against: what a whole run of events
//! guarantees, beyond what each single call says.

use vstd::prelude::*;

use crate::buffer::{age_of, buf_push, purged, DISPLAY_LIFETIME_MS, MAX_KEYS};
use crate::keys::{is_modifier, modifier_kind_of, modifier_variant_of, Key, ModifierKind, ModifierSide};
use crate::tracker::{
    chord_label, down_event, mods_after_down, mods_after_up, up_emits, EventModel, Modifiers,
};

verus! {

/// One raw input transition: a key going down (`down` true) or up.
pub struct KeyTransition {
    pub key: Key,
    pub down: bool,
}

/// Modifier state after one transition.
pub open spec fn mods_step(m: Modifiers, t: KeyTransition) -> Modifiers {
    if t.down {
        mods_after_down(m, t.key)
    } else {
        mods_after_up(m, t.key)
    }
}

/// Modifier state after a whole run of transitions, oldest first.
pub open spec fn mods_run(m: Modifiers, ts: Seq<KeyTransition>) -> Modifiers
    decreases ts.len(),
{
    if ts.len() == 0 {
        m
    } else {
        mods_run(mods_step(m, ts[0]), ts.drop_first())
    }
}

/// Modifier state after a run of key-downs only.
pub open spec fn mods_after_downs(m: Modifiers, keys: Seq<Key>) -> Modifiers
    decreases keys.len(),
{
    if keys.len() == 0 {
        m
    } else {
        mods_after_downs(mods_after_down(m, keys[0]), keys.drop_first())
    }
}

/// Some key of kind `k` goes down somewhere in `keys`.
pub open spec fn down_of_kind(keys: Seq<Key>, k: ModifierKind) -> bool {
    exists|i: int| 0 <= i < keys.len() && modifier_kind_of(keys[i]) == Some(k)
}

/// The transition presses or releases a key of kind `k`.
pub open spec fn touches_kind(t: KeyTransition, k: ModifierKind) -> bool {
    modifier_kind_of(t.key) == Some(k)
}

/// The transition is a non-modifier key going down.
pub open spec fn nonmod_down(t: KeyTransition) -> bool {
    t.down && !is_modifier(t.key)
}

/// Some non-modifier key goes down somewhere in `ts`.
pub open spec fn any_nonmod_down(ts: Seq<KeyTransition>) -> bool {
    exists|i: int| 0 <= i < ts.len() && nonmod_down(ts[i])
}

proof fn lemma_down_of_kind_unfold(keys: Seq<Key>, k: ModifierKind)
    requires
        keys.len() > 0,
    ensures
        down_of_kind(keys, k) == (modifier_kind_of(keys[0]) == Some(k) || down_of_kind(
            keys.drop_first(),
            k,
        )),
{
    if down_of_kind(keys, k) {
        let i = choose|i: int| 0 <= i < keys.len() && modifier_kind_of(keys[i]) == Some(k);
        if i > 0 {
            assert(keys.drop_first()[i - 1] == keys[i]);
        }
    }
    if down_of_kind(keys.drop_first(), k) {
        let i = choose|i: int|
            0 <= i < keys.drop_first().len() && modifier_kind_of(keys.drop_first()[i]) == Some(k);
        assert(keys[i + 1] == keys.drop_first()[i]);
    }
}

proof fn lemma_any_nonmod_down_unfold(ts: Seq<KeyTransition>)
    requires
        ts.len() > 0,
    ensures
        any_nonmod_down(ts) == (nonmod_down(ts[0]) || any_nonmod_down(ts.drop_first())),
{
    if any_nonmod_down(ts) {
        let i = choose|i: int| 0 <= i < ts.len() && nonmod_down(ts[i]);
        if i > 0 {
            assert(ts.drop_first()[i - 1] == ts[i]);
        }
    }
    if any_nonmod_down(ts.drop_first()) {
        let i = choose|i: int| 0 <= i < ts.drop_first().len() && nonmod_down(ts.drop_first()[i]);
        assert(ts[i + 1] == ts.drop_first()[i]);
    }
}

/// A run of modifier key-downs makes held exactly the kinds pressed (on top
/// of what was already held) and leaves every consumed flag alone.
pub proof fn lemma_modifier_downs_state(m: Modifiers, keys: Seq<Key>)
    requires
        forall|i: int| 0 <= i < keys.len() ==> is_modifier(keys[i]),
    ensures
        forall|k: ModifierKind| #[trigger]
            mods_after_downs(m, keys).held(k) == (m.held(k) || down_of_kind(keys, k)),
        forall|k: ModifierKind| #[trigger]
            mods_after_downs(m, keys).consumed(k) == m.consumed(k),
    decreases keys.len(),
{
    if keys.len() > 0 {
        assert(is_modifier(keys[0]));
        let m1 = mods_after_down(m, keys[0]);
        assert forall|i: int|
            0 <= i < keys.drop_first().len() implies is_modifier(#[trigger] keys.drop_first()[i]) by {
            assert(keys.drop_first()[i] == keys[i + 1]);
        }
        lemma_modifier_downs_state(m1, keys.drop_first());
        assert(mods_after_downs(m, keys) == mods_after_downs(m1, keys.drop_first()));
        assert forall|k: ModifierKind| #[trigger]
            mods_after_downs(m, keys).held(k) == (m.held(k) || down_of_kind(keys, k)) by {
            lemma_down_of_kind_unfold(keys, k);
            assert(m1.held(k) == (m.held(k) || modifier_kind_of(keys[0]) == Some(k)));
        }
    }
}

/// Chord ordering idempotence: pressing the same set of modifier kinds in
/// any order makes the same kinds held, hence the same chord text for the
/// next non-modifier key.
pub proof fn lemma_chord_order_idempotent(
    m: Modifiers,
    keys1: Seq<Key>,
    keys2: Seq<Key>,
    key_label: Seq<char>,
)
    requires
        forall|i: int| 0 <= i < keys1.len() ==> is_modifier(keys1[i]),
        forall|i: int| 0 <= i < keys2.len() ==> is_modifier(keys2[i]),
        forall|k: ModifierKind| down_of_kind(keys1, k) == down_of_kind(keys2, k),
    ensures
        forall|k: ModifierKind| #[trigger]
            mods_after_downs(m, keys1).held(k) == mods_after_downs(m, keys2).held(k),
        chord_label(mods_after_downs(m, keys1), key_label) == chord_label(
            mods_after_downs(m, keys2),
            key_label,
        ),
{
    lemma_modifier_downs_state(m, keys1);
    lemma_modifier_downs_state(m, keys2);
    let m1 = mods_after_downs(m, keys1);
    let m2 = mods_after_downs(m, keys2);
    assert(m1.held(ModifierKind::Ctrl) == m2.held(ModifierKind::Ctrl));
    assert(m1.held(ModifierKind::Shift) == m2.held(ModifierKind::Shift));
    assert(m1.held(ModifierKind::Alt) == m2.held(ModifierKind::Alt));
    assert(m1.held(ModifierKind::Meta) == m2.held(ModifierKind::Meta));
}

/// While a kind stays held through a run that never touches it, its
/// depressed variants do not change (so it remains held), and it ends
/// consumed exactly when it started consumed or some non-modifier key went
/// down during the run.
pub proof fn lemma_held_consumed_run(m: Modifiers, ts: Seq<KeyTransition>, k: ModifierKind)
    requires
        m.held(k),
        forall|i: int| 0 <= i < ts.len() ==> !touches_kind(ts[i], k),
    ensures
        mods_run(m, ts).variant_down(k, ModifierSide::Left) == m.variant_down(
            k,
            ModifierSide::Left,
        ),
        mods_run(m, ts).variant_down(k, ModifierSide::Right) == m.variant_down(
            k,
            ModifierSide::Right,
        ),
        mods_run(m, ts).held(k),
        mods_run(m, ts).consumed(k) == (m.consumed(k) || any_nonmod_down(ts)),
    decreases ts.len(),
{
    if ts.len() > 0 {
        let m1 = mods_step(m, ts[0]);
        lemma_held_consumed_run(m1, ts.drop_first(), k);
        lemma_any_nonmod_down_unfold(ts);
    }
}

/// Standalone suppression: press a modifier whose kind is idle, run any
/// events that do not touch its kind, then release the same key. The release
/// emits a standalone tap exactly when no non-modifier key went down in
/// between.
pub proof fn lemma_standalone_suppression(
    m: Modifiers,
    key: Key,
    kind: ModifierKind,
    between: Seq<KeyTransition>,
)
    requires
        m.wf(),
        modifier_kind_of(key) == Some(kind),
        !m.held(kind),
        forall|i: int| 0 <= i < between.len() ==> !touches_kind(between[i], kind),
    ensures
        up_emits(mods_run(mods_after_down(m, key), between), key) == !any_nonmod_down(between),
{
    let m1 = mods_after_down(m, key);
    assert(m1.held(kind));
    assert(!m1.consumed(kind));
    lemma_held_consumed_run(m1, between, kind);
}

/// Buffer contents after a run of repeated key-downs of one non-modifier key
/// at the given clock readings, paired with the modifier state carried along.
pub open spec fn state_after_repeats(
    m: Modifiers,
    buf: Seq<EventModel>,
    key: Key,
    times: Seq<u64>,
) -> (Modifiers, Seq<EventModel>)
    decreases times.len(),
{
    if times.len() == 0 {
        (m, buf)
    } else {
        state_after_repeats(
            mods_after_down(m, key),
            buf_push(buf, down_event(m, key, times[0])),
            key,
            times.drop_first(),
        )
    }
}

/// Auto-repeat fidelity: N consecutive key-downs of one non-modifier key add
/// one buffer entry each, up to the cap, where the count stays at the cap.
pub proof fn lemma_auto_repeat_fidelity(
    m: Modifiers,
    buf: Seq<EventModel>,
    key: Key,
    times: Seq<u64>,
)
    requires
        buf.len() <= MAX_KEYS,
    ensures
        state_after_repeats(m, buf, key, times).1.len() == (if buf.len() + times.len() <= MAX_KEYS {
            buf.len() + times.len()
        } else {
            MAX_KEYS as nat
        }),
    decreases times.len(),
{
    if times.len() > 0 {
        lemma_auto_repeat_fidelity(
            mods_after_down(m, key),
            buf_push(buf, down_event(m, key, times[0])),
            key,
            times.drop_first(),
        );
    }
}

/// After a purge at `now`, every remaining entry's age is strictly below the
/// display lifetime (so in particular at most 4800 ms).
pub proof fn lemma_purge_ages(s: Seq<EventModel>, now: u64)
    ensures
        forall|i: int|
            0 <= i < purged(s, now).len() ==> age_of(now, #[trigger] purged(s, now)[i].timestamp_ms)
                < DISPLAY_LIFETIME_MS,
{
    broadcast use vstd::seq_lib::group_filter_ensures;

}

proof fn lemma_purged_all_live(s: Seq<EventModel>, now: u64)
    requires
        forall|i: int|
            0 <= i < s.len() ==> age_of(now, #[trigger] s[i].timestamp_ms) < DISPLAY_LIFETIME_MS,
    ensures
        purged(s, now) == s,
    decreases s.len(),
{
    reveal(Seq::filter);
    if s.len() > 0 {
        lemma_purged_all_live(s.drop_last(), now);
        assert(purged(s, now) =~= s);
    }
}

/// Purging is idempotent: a second purge at the same clock reading removes
/// nothing more.
pub proof fn lemma_purge_idempotent(s: Seq<EventModel>, now: u64)
    ensures
        purged(purged(s, now), now) == purged(s, now),
{
    lemma_purge_ages(s, now);
    lemma_purged_all_live(purged(s, now), now);
}

} // verus!
