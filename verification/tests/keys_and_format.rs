use keycast::keys::{
    key_modifier, key_modifier_variant, key_to_string, modifier_label, Key, ModifierKind,
    ModifierSide,
};
use keycast::tracker::Modifiers;

#[test]
fn letter_and_digit_labels() {
    assert_eq!(key_to_string(&Key::KeyA), "A");
    assert_eq!(key_to_string(&Key::KeyZ), "Z");
    assert_eq!(key_to_string(&Key::Num0), "0");
    assert_eq!(key_to_string(&Key::Num9), "9");
}

#[test]
fn named_key_labels() {
    assert_eq!(key_to_string(&Key::Return), "Enter");
    assert_eq!(key_to_string(&Key::Escape), "Esc");
    assert_eq!(key_to_string(&Key::PageUp), "PgUp");
    assert_eq!(key_to_string(&Key::PageDown), "PgDn");
    assert_eq!(key_to_string(&Key::PrintScreen), "PrtSc");
    assert_eq!(key_to_string(&Key::UpArrow), "Up");
    assert_eq!(key_to_string(&Key::DownArrow), "Down");
    assert_eq!(key_to_string(&Key::LeftArrow), "Left");
    assert_eq!(key_to_string(&Key::RightArrow), "Right");
    assert_eq!(key_to_string(&Key::Space), "Space");
    assert_eq!(key_to_string(&Key::Tab), "Tab");
    assert_eq!(key_to_string(&Key::Backspace), "Backspace");
    assert_eq!(key_to_string(&Key::CapsLock), "CapsLock");
    assert_eq!(key_to_string(&Key::ScrollLock), "ScrollLock");
    assert_eq!(key_to_string(&Key::Pause), "Pause");
    assert_eq!(key_to_string(&Key::Insert), "Insert");
    assert_eq!(key_to_string(&Key::Delete), "Delete");
    assert_eq!(key_to_string(&Key::Home), "Home");
    assert_eq!(key_to_string(&Key::End), "End");
    assert_eq!(key_to_string(&Key::F1), "F1");
    assert_eq!(key_to_string(&Key::F12), "F12");
}

#[test]
fn modifier_variants_fold_in_labels() {
    assert_eq!(key_to_string(&Key::ControlLeft), "Ctrl");
    assert_eq!(key_to_string(&Key::ControlRight), "Ctrl");
    assert_eq!(key_to_string(&Key::ShiftLeft), "Shift");
    assert_eq!(key_to_string(&Key::ShiftRight), "Shift");
    assert_eq!(key_to_string(&Key::MetaLeft), "Win");
    assert_eq!(key_to_string(&Key::MetaRight), "Win");
    assert_eq!(key_to_string(&Key::Alt), "Alt");
    // AltGr keeps its own key name even though it counts as the Alt kind.
    assert_eq!(key_to_string(&Key::AltGr), "AltGr");
}

#[test]
fn fallback_labels_are_never_empty() {
    assert_eq!(key_to_string(&Key::Other("NumLock".to_string())), "NumLock");
    let blank = key_to_string(&Key::Other(String::new()));
    assert!(!blank.is_empty());
}

#[test]
fn modifier_classification() {
    assert_eq!(key_modifier(&Key::ControlLeft), Some(ModifierKind::Ctrl));
    assert_eq!(key_modifier(&Key::ControlRight), Some(ModifierKind::Ctrl));
    assert_eq!(key_modifier(&Key::ShiftLeft), Some(ModifierKind::Shift));
    assert_eq!(key_modifier(&Key::ShiftRight), Some(ModifierKind::Shift));
    assert_eq!(key_modifier(&Key::Alt), Some(ModifierKind::Alt));
    assert_eq!(key_modifier(&Key::AltGr), Some(ModifierKind::Alt));
    assert_eq!(key_modifier(&Key::MetaLeft), Some(ModifierKind::Meta));
    assert_eq!(key_modifier(&Key::MetaRight), Some(ModifierKind::Meta));
    assert_eq!(key_modifier(&Key::KeyA), None);
    assert_eq!(key_modifier(&Key::Space), None);
    assert_eq!(key_modifier(&Key::Other("Fn".to_string())), None);
}

#[test]
fn modifier_variant_classification() {
    assert_eq!(
        key_modifier_variant(&Key::ShiftLeft),
        Some((ModifierKind::Shift, ModifierSide::Left))
    );
    assert_eq!(
        key_modifier_variant(&Key::ShiftRight),
        Some((ModifierKind::Shift, ModifierSide::Right))
    );
    assert_eq!(
        key_modifier_variant(&Key::Alt),
        Some((ModifierKind::Alt, ModifierSide::Left))
    );
    assert_eq!(
        key_modifier_variant(&Key::AltGr),
        Some((ModifierKind::Alt, ModifierSide::Right))
    );
    assert_eq!(key_modifier_variant(&Key::KeyA), None);
}

#[test]
fn modifier_kind_labels() {
    assert_eq!(modifier_label(ModifierKind::Ctrl), "Ctrl");
    assert_eq!(modifier_label(ModifierKind::Shift), "Shift");
    assert_eq!(modifier_label(ModifierKind::Alt), "Alt");
    assert_eq!(modifier_label(ModifierKind::Meta), "Win");
}

#[test]
fn format_empty_when_nothing_held() {
    let m = Modifiers::new();
    assert_eq!(m.format(), "");
}

#[test]
fn format_single_modifiers() {
    let mut m = Modifiers::new();
    m.ctrl_left = true;
    assert_eq!(m.format(), "Ctrl");

    let mut m = Modifiers::new();
    m.meta_right = true;
    assert_eq!(m.format(), "Win");
}

#[test]
fn format_joins_in_canonical_order() {
    let mut m = Modifiers::new();
    m.shift_left = true;
    m.ctrl_right = true;
    assert_eq!(m.format(), "Ctrl + Shift");

    m.alt_left = true;
    m.meta_left = true;
    assert_eq!(m.format(), "Ctrl + Shift + Alt + Win");

    let mut m = Modifiers::new();
    m.alt_right = true;
    m.meta_left = true;
    assert_eq!(m.format(), "Alt + Win");
}

#[test]
fn format_keeps_kind_while_either_variant_is_down() {
    // Both Shift variants depressed, then one released: the kind stays held.
    let mut m = Modifiers::new();
    m.shift_left = true;
    m.shift_right = true;
    assert_eq!(m.format(), "Shift");
    m.shift_left = false;
    assert_eq!(m.format(), "Shift");
    m.shift_right = false;
    assert_eq!(m.format(), "");
}

#[test]
fn default_modifiers_are_idle() {
    let m = Modifiers::default();
    for kind in [
        ModifierKind::Ctrl,
        ModifierKind::Shift,
        ModifierKind::Alt,
        ModifierKind::Meta,
    ] {
        assert!(!m.is_held(kind));
        assert!(!m.is_consumed(kind));
    }
}
