//! Key namer: physical key identifiers and their display labels.
//!
//! `Key` covers the keys the overlay names directly; anything else arrives as
//! `Key::Other` carrying a caller-supplied description (the boundary that
//! receives OS events fills it with a stable debug rendering of the raw key).
//! Left/right modifier variants collapse to a single `ModifierKind`.

use vstd::prelude::*;

verus! {

/// The four modifier families; left/right physical variants collapse to one
/// kind, and AltGr counts as Alt.
#[derive(Clone, Copy, Debug, PartialEq, Eq, Structural)]
pub enum ModifierKind {
    Ctrl,
    Shift,
    Alt,
    Meta,
}

/// A physical key. `Other` carries a non-normative description of a key this
/// library does not name itself; its label falls back to that text.
#[derive(Clone, Debug)]
pub enum Key {
    Alt,
    AltGr,
    Backspace,
    CapsLock,
    ControlLeft,
    ControlRight,
    Delete,
    DownArrow,
    End,
    Escape,
    F1,
    F2,
    F3,
    F4,
    F5,
    F6,
    F7,
    F8,
    F9,
    F10,
    F11,
    F12,
    Home,
    Insert,
    KeyA,
    KeyB,
    KeyC,
    KeyD,
    KeyE,
    KeyF,
    KeyG,
    KeyH,
    KeyI,
    KeyJ,
    KeyK,
    KeyL,
    KeyM,
    KeyN,
    KeyO,
    KeyP,
    KeyQ,
    KeyR,
    KeyS,
    KeyT,
    KeyU,
    KeyV,
    KeyW,
    KeyX,
    KeyY,
    KeyZ,
    LeftArrow,
    MetaLeft,
    MetaRight,
    Num0,
    Num1,
    Num2,
    Num3,
    Num4,
    Num5,
    Num6,
    Num7,
    Num8,
    Num9,
    PageDown,
    PageUp,
    Pause,
    PrintScreen,
    Return,
    RightArrow,
    ScrollLock,
    ShiftLeft,
    ShiftRight,
    Space,
    Tab,
    UpArrow,
    Other(String),
}

/// The two physical variants of a modifier kind. For the Alt kind, the plain
/// Alt key counts as the left variant and AltGr as the right one.
#[derive(Clone, Copy, Debug, PartialEq, Eq, Structural)]
pub enum ModifierSide {
    Left,
    Right,
}

/// The modifier kind and physical variant a key is, if it is a modifier key
/// at all.
pub open spec fn modifier_variant_of(key: Key) -> Option<(ModifierKind, ModifierSide)> {
    match key {
        Key::ControlLeft => Some((ModifierKind::Ctrl, ModifierSide::Left)),
        Key::ControlRight => Some((ModifierKind::Ctrl, ModifierSide::Right)),
        Key::ShiftLeft => Some((ModifierKind::Shift, ModifierSide::Left)),
        Key::ShiftRight => Some((ModifierKind::Shift, ModifierSide::Right)),
        Key::Alt => Some((ModifierKind::Alt, ModifierSide::Left)),
        Key::AltGr => Some((ModifierKind::Alt, ModifierSide::Right)),
        Key::MetaLeft => Some((ModifierKind::Meta, ModifierSide::Left)),
        Key::MetaRight => Some((ModifierKind::Meta, ModifierSide::Right)),
        _ => None,
    }
}

/// The modifier kind a key belongs to, if it is a modifier key at all.
pub open spec fn modifier_kind_of(key: Key) -> Option<ModifierKind> {
    match modifier_variant_of(key) {
        Some(p) => Some(p.0),
        None => None,
    }
}

pub open spec fn is_modifier(key: Key) -> bool {
    modifier_kind_of(key) is Some
}

/// Display label of a modifier kind, as it appears in chord text and in
/// standalone-tap events.
pub open spec fn kind_label(kind: ModifierKind) -> Seq<char> {
    match kind {
        ModifierKind::Ctrl => "Ctrl"@,
        ModifierKind::Shift => "Shift"@,
        ModifierKind::Alt => "Alt"@,
        ModifierKind::Meta => "Win"@,
    }
}

/// Display label of a key. Left/right modifier variants share one label;
/// AltGr keeps its own name when surfaced as a key (as opposed to the
/// modifier-kind label, which is `Alt`). Unnamed keys fall back to their
/// carried description, or to a fixed placeholder if that is empty.
pub open spec fn label_of(key: Key) -> Seq<char> {
    match key {
        Key::Alt => "Alt"@,
        Key::AltGr => "AltGr"@,
        Key::Backspace => "Backspace"@,
        Key::CapsLock => "CapsLock"@,
        Key::ControlLeft | Key::ControlRight => "Ctrl"@,
        Key::Delete => "Delete"@,
        Key::DownArrow => "Down"@,
        Key::End => "End"@,
        Key::Escape => "Esc"@,
        Key::F1 => "F1"@,
        Key::F2 => "F2"@,
        Key::F3 => "F3"@,
        Key::F4 => "F4"@,
        Key::F5 => "F5"@,
        Key::F6 => "F6"@,
        Key::F7 => "F7"@,
        Key::F8 => "F8"@,
        Key::F9 => "F9"@,
        Key::F10 => "F10"@,
        Key::F11 => "F11"@,
        Key::F12 => "F12"@,
        Key::Home => "Home"@,
        Key::Insert => "Insert"@,
        Key::KeyA => "A"@,
        Key::KeyB => "B"@,
        Key::KeyC => "C"@,
        Key::KeyD => "D"@,
        Key::KeyE => "E"@,
        Key::KeyF => "F"@,
        Key::KeyG => "G"@,
        Key::KeyH => "H"@,
        Key::KeyI => "I"@,
        Key::KeyJ => "J"@,
        Key::KeyK => "K"@,
        Key::KeyL => "L"@,
        Key::KeyM => "M"@,
        Key::KeyN => "N"@,
        Key::KeyO => "O"@,
        Key::KeyP => "P"@,
        Key::KeyQ => "Q"@,
        Key::KeyR => "R"@,
        Key::KeyS => "S"@,
        Key::KeyT => "T"@,
        Key::KeyU => "U"@,
        Key::KeyV => "V"@,
        Key::KeyW => "W"@,
        Key::KeyX => "X"@,
        Key::KeyY => "Y"@,
        Key::KeyZ => "Z"@,
        Key::LeftArrow => "Left"@,
        Key::MetaLeft | Key::MetaRight => "Win"@,
        Key::Num0 => "0"@,
        Key::Num1 => "1"@,
        Key::Num2 => "2"@,
        Key::Num3 => "3"@,
        Key::Num4 => "4"@,
        Key::Num5 => "5"@,
        Key::Num6 => "6"@,
        Key::Num7 => "7"@,
        Key::Num8 => "8"@,
        Key::Num9 => "9"@,
        Key::PageDown => "PgDn"@,
        Key::PageUp => "PgUp"@,
        Key::Pause => "Pause"@,
        Key::PrintScreen => "PrtSc"@,
        Key::Return => "Enter"@,
        Key::RightArrow => "Right"@,
        Key::ScrollLock => "ScrollLock"@,
        Key::ShiftLeft | Key::ShiftRight => "Shift"@,
        Key::Space => "Space"@,
        Key::Tab => "Tab"@,
        Key::UpArrow => "Up"@,
        Key::Other(s) => if s@.len() == 0 {
            "Unknown"@
        } else {
            s@
        },
    }
}

/// Classify a key: the modifier kind and variant it is, or `None`.
pub fn key_modifier_variant(key: &Key) -> (r: Option<(ModifierKind, ModifierSide)>)
    ensures
        r == modifier_variant_of(*key),
{
    match key {
        Key::ControlLeft => Some((ModifierKind::Ctrl, ModifierSide::Left)),
        Key::ControlRight => Some((ModifierKind::Ctrl, ModifierSide::Right)),
        Key::ShiftLeft => Some((ModifierKind::Shift, ModifierSide::Left)),
        Key::ShiftRight => Some((ModifierKind::Shift, ModifierSide::Right)),
        Key::Alt => Some((ModifierKind::Alt, ModifierSide::Left)),
        Key::AltGr => Some((ModifierKind::Alt, ModifierSide::Right)),
        Key::MetaLeft => Some((ModifierKind::Meta, ModifierSide::Left)),
        Key::MetaRight => Some((ModifierKind::Meta, ModifierSide::Right)),
        _ => None,
    }
}

/// Classify a key: the modifier kind it belongs to, or `None`.
pub fn key_modifier(key: &Key) -> (r: Option<ModifierKind>)
    ensures
        r == modifier_kind_of(*key),
{
    match key_modifier_variant(key) {
        Some(p) => Some(p.0),
        None => None,
    }
}

/// Display label of a modifier kind.
pub fn modifier_label(kind: ModifierKind) -> (r: String)
    ensures
        r@ == kind_label(kind),
        r@.len() > 0,
{
    proof {
        lemma_kind_label_nonempty(kind);
    }
    match kind {
        ModifierKind::Ctrl => "Ctrl".to_owned(),
        ModifierKind::Shift => "Shift".to_owned(),
        ModifierKind::Alt => "Alt".to_owned(),
        ModifierKind::Meta => "Win".to_owned(),
    }
}

/// Display label of a key; total, and never empty.
pub fn key_to_string(key: &Key) -> (r: String)
    ensures
        r@ == label_of(*key),
        r@.len() > 0,
{
    proof {
        lemma_label_nonempty(*key);
    }
    match key {
        Key::Alt => "Alt".to_owned(),
        Key::AltGr => "AltGr".to_owned(),
        Key::Backspace => "Backspace".to_owned(),
        Key::CapsLock => "CapsLock".to_owned(),
        Key::ControlLeft | Key::ControlRight => "Ctrl".to_owned(),
        Key::Delete => "Delete".to_owned(),
        Key::DownArrow => "Down".to_owned(),
        Key::End => "End".to_owned(),
        Key::Escape => "Esc".to_owned(),
        Key::F1 => "F1".to_owned(),
        Key::F2 => "F2".to_owned(),
        Key::F3 => "F3".to_owned(),
        Key::F4 => "F4".to_owned(),
        Key::F5 => "F5".to_owned(),
        Key::F6 => "F6".to_owned(),
        Key::F7 => "F7".to_owned(),
        Key::F8 => "F8".to_owned(),
        Key::F9 => "F9".to_owned(),
        Key::F10 => "F10".to_owned(),
        Key::F11 => "F11".to_owned(),
        Key::F12 => "F12".to_owned(),
        Key::Home => "Home".to_owned(),
        Key::Insert => "Insert".to_owned(),
        Key::KeyA => "A".to_owned(),
        Key::KeyB => "B".to_owned(),
        Key::KeyC => "C".to_owned(),
        Key::KeyD => "D".to_owned(),
        Key::KeyE => "E".to_owned(),
        Key::KeyF => "F".to_owned(),
        Key::KeyG => "G".to_owned(),
        Key::KeyH => "H".to_owned(),
        Key::KeyI => "I".to_owned(),
        Key::KeyJ => "J".to_owned(),
        Key::KeyK => "K".to_owned(),
        Key::KeyL => "L".to_owned(),
        Key::KeyM => "M".to_owned(),
        Key::KeyN => "N".to_owned(),
        Key::KeyO => "O".to_owned(),
        Key::KeyP => "P".to_owned(),
        Key::KeyQ => "Q".to_owned(),
        Key::KeyR => "R".to_owned(),
        Key::KeyS => "S".to_owned(),
        Key::KeyT => "T".to_owned(),
        Key::KeyU => "U".to_owned(),
        Key::KeyV => "V".to_owned(),
        Key::KeyW => "W".to_owned(),
        Key::KeyX => "X".to_owned(),
        Key::KeyY => "Y".to_owned(),
        Key::KeyZ => "Z".to_owned(),
        Key::LeftArrow => "Left".to_owned(),
        Key::MetaLeft | Key::MetaRight => "Win".to_owned(),
        Key::Num0 => "0".to_owned(),
        Key::Num1 => "1".to_owned(),
        Key::Num2 => "2".to_owned(),
        Key::Num3 => "3".to_owned(),
        Key::Num4 => "4".to_owned(),
        Key::Num5 => "5".to_owned(),
        Key::Num6 => "6".to_owned(),
        Key::Num7 => "7".to_owned(),
        Key::Num8 => "8".to_owned(),
        Key::Num9 => "9".to_owned(),
        Key::PageDown => "PgDn".to_owned(),
        Key::PageUp => "PgUp".to_owned(),
        Key::Pause => "Pause".to_owned(),
        Key::PrintScreen => "PrtSc".to_owned(),
        Key::Return => "Enter".to_owned(),
        Key::RightArrow => "Right".to_owned(),
        Key::ScrollLock => "ScrollLock".to_owned(),
        Key::ShiftLeft | Key::ShiftRight => "Shift".to_owned(),
        Key::Space => "Space".to_owned(),
        Key::Tab => "Tab".to_owned(),
        Key::UpArrow => "Up".to_owned(),
        Key::Other(s) => {
            if s.as_str().is_empty() {
                "Unknown".to_owned()
            } else {
                s.clone()
            }
        },
    }
}

/// A modifier kind's label is never empty.
pub proof fn lemma_kind_label_nonempty(kind: ModifierKind)
    ensures
        kind_label(kind).len() > 0,
{
    reveal_strlit("Ctrl");
    reveal_strlit("Shift");
    reveal_strlit("Alt");
    reveal_strlit("Win");
}

/// A key's label is never empty: every named key has a fixed label, and the
/// fallback for unnamed keys replaces an empty description.
pub proof fn lemma_label_nonempty(key: Key)
    ensures
        label_of(key).len() > 0,
{
    reveal_strlit("Alt");
    reveal_strlit("AltGr");
    reveal_strlit("Backspace");
    reveal_strlit("CapsLock");
    reveal_strlit("Ctrl");
    reveal_strlit("Delete");
    reveal_strlit("Down");
    reveal_strlit("End");
    reveal_strlit("Esc");
    reveal_strlit("F1");
    reveal_strlit("F2");
    reveal_strlit("F3");
    reveal_strlit("F4");
    reveal_strlit("F5");
    reveal_strlit("F6");
    reveal_strlit("F7");
    reveal_strlit("F8");
    reveal_strlit("F9");
    reveal_strlit("F10");
    reveal_strlit("F11");
    reveal_strlit("F12");
    reveal_strlit("Home");
    reveal_strlit("Insert");
    reveal_strlit("A");
    reveal_strlit("B");
    reveal_strlit("C");
    reveal_strlit("D");
    reveal_strlit("E");
    reveal_strlit("F");
    reveal_strlit("G");
    reveal_strlit("H");
    reveal_strlit("I");
    reveal_strlit("J");
    reveal_strlit("K");
    reveal_strlit("L");
    reveal_strlit("M");
    reveal_strlit("N");
    reveal_strlit("O");
    reveal_strlit("P");
    reveal_strlit("Q");
    reveal_strlit("R");
    reveal_strlit("S");
    reveal_strlit("T");
    reveal_strlit("U");
    reveal_strlit("V");
    reveal_strlit("W");
    reveal_strlit("X");
    reveal_strlit("Y");
    reveal_strlit("Z");
    reveal_strlit("Left");
    reveal_strlit("Win");
    reveal_strlit("0");
    reveal_strlit("1");
    reveal_strlit("2");
    reveal_strlit("3");
    reveal_strlit("4");
    reveal_strlit("5");
    reveal_strlit("6");
    reveal_strlit("7");
    reveal_strlit("8");
    reveal_strlit("9");
    reveal_strlit("PgDn");
    reveal_strlit("PgUp");
    reveal_strlit("Pause");
    reveal_strlit("PrtSc");
    reveal_strlit("Enter");
    reveal_strlit("Right");
    reveal_strlit("ScrollLock");
    reveal_strlit("Shift");
    reveal_strlit("Space");
    reveal_strlit("Tab");
    reveal_strlit("Up");
    reveal_strlit("Unknown");
}

} // verus!
