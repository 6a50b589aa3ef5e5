use keycast::keys::Key;
use keycast::pipeline::KeyPipeline;

fn entries(p: &KeyPipeline) -> Vec<(String, u64)> {
    let mut v = Vec::new();
    let mut i = 0;
    while i < p.len() {
        v.push(p.entry(i));
        i += 1;
    }
    v
}

#[test]
fn simple_letter_tap() {
    let mut p = KeyPipeline::new();
    p.key_down(&Key::KeyA, 0);
    p.key_up(&Key::KeyA, 50);
    assert_eq!(entries(&p), vec![("A".to_string(), 0)]);
}

#[test]
fn modifier_combination() {
    let mut p = KeyPipeline::new();
    p.key_down(&Key::ControlLeft, 0);
    p.key_down(&Key::ShiftLeft, 10);
    p.key_down(&Key::KeyA, 20);
    p.key_up(&Key::KeyA, 30);
    p.key_up(&Key::ShiftLeft, 40);
    p.key_up(&Key::ControlLeft, 50);
    assert_eq!(entries(&p), vec![("Ctrl + Shift + A".to_string(), 20)]);
}

#[test]
fn standalone_modifier_tap() {
    let mut p = KeyPipeline::new();
    p.key_down(&Key::ShiftLeft, 0);
    p.key_up(&Key::ShiftLeft, 100);
    assert_eq!(entries(&p), vec![("Shift".to_string(), 100)]);
}

#[test]
fn order_independence() {
    let mut a = KeyPipeline::new();
    a.key_down(&Key::ShiftLeft, 0);
    a.key_down(&Key::ControlLeft, 5);
    a.key_down(&Key::KeyB, 10);
    a.key_up(&Key::KeyB, 11);
    a.key_up(&Key::ControlLeft, 12);
    a.key_up(&Key::ShiftLeft, 13);

    let mut b = KeyPipeline::new();
    b.key_down(&Key::ControlLeft, 0);
    b.key_down(&Key::ShiftLeft, 5);
    b.key_down(&Key::KeyB, 10);
    b.key_up(&Key::KeyB, 11);
    b.key_up(&Key::ShiftLeft, 12);
    b.key_up(&Key::ControlLeft, 13);

    assert_eq!(entries(&a), vec![("Ctrl + Shift + B".to_string(), 10)]);
    assert_eq!(entries(&b), vec![("Ctrl + Shift + B".to_string(), 10)]);
}

#[test]
fn cap_enforcement() {
    let mut p = KeyPipeline::new();
    for t in 0..17u64 {
        p.key_down(&Key::KeyA, t);
    }
    assert_eq!(p.len(), 15);
    let got = entries(&p);
    for (i, (text, ts)) in got.iter().enumerate() {
        assert_eq!(text, "A");
        assert_eq!(*ts, 2 + i as u64);
    }
}

#[test]
fn time_based_purge() {
    let mut p = KeyPipeline::new();
    p.key_down(&Key::KeyA, 0);
    p.purge(4800);
    assert_eq!(p.len(), 0);

    let mut q = KeyPipeline::new();
    q.key_down(&Key::KeyA, 0);
    q.purge(4799);
    assert_eq!(q.len(), 1);
}

#[test]
fn non_modifier_up_is_silent() {
    let mut p = KeyPipeline::new();
    p.key_down(&Key::KeyA, 0);
    let before = entries(&p);
    p.key_up(&Key::KeyA, 5);
    p.key_up(&Key::KeyB, 6);
    p.key_up(&Key::Space, 7);
    assert_eq!(entries(&p), before);
}

#[test]
fn auto_repeat_fidelity() {
    let mut p = KeyPipeline::new();
    for t in 0..5u64 {
        p.key_down(&Key::KeyQ, t * 30);
    }
    assert_eq!(p.len(), 5);
    for (i, (text, ts)) in entries(&p).iter().enumerate() {
        assert_eq!(text, "Q");
        assert_eq!(*ts, i as u64 * 30);
    }
}

#[test]
fn standalone_suppression() {
    // A non-modifier down between the modifier's down and up suppresses
    // the standalone tap.
    let mut p = KeyPipeline::new();
    p.key_down(&Key::ControlLeft, 0);
    p.key_down(&Key::KeyC, 10);
    p.key_up(&Key::KeyC, 20);
    p.key_up(&Key::ControlLeft, 500);
    assert_eq!(entries(&p), vec![("Ctrl + C".to_string(), 10)]);

    // Without one, the up emits exactly one tap event.
    let mut q = KeyPipeline::new();
    q.key_down(&Key::ControlLeft, 0);
    q.key_up(&Key::ControlLeft, 30);
    assert_eq!(entries(&q), vec![("Ctrl".to_string(), 30)]);
}

#[test]
fn modifier_after_key_is_not_retroactive() {
    let mut p = KeyPipeline::new();
    p.key_down(&Key::KeyA, 0);
    p.key_down(&Key::ControlLeft, 1);
    p.key_down(&Key::KeyB, 2);
    assert_eq!(
        entries(&p),
        vec![("A".to_string(), 0), ("Ctrl + B".to_string(), 2)]
    );
}

#[test]
fn left_right_variants_fold() {
    let mut p = KeyPipeline::new();
    p.key_down(&Key::ShiftRight, 0);
    p.key_down(&Key::KeyA, 5);
    assert_eq!(entries(&p), vec![("Shift + A".to_string(), 5)]);

    let mut q = KeyPipeline::new();
    q.key_down(&Key::MetaRight, 0);
    q.key_down(&Key::ControlRight, 1);
    q.key_down(&Key::Tab, 2);
    assert_eq!(entries(&q), vec![("Ctrl + Win + Tab".to_string(), 2)]);
}

#[test]
fn altgr_standalone_tap_reads_alt() {
    let mut p = KeyPipeline::new();
    p.key_down(&Key::AltGr, 0);
    p.key_up(&Key::AltGr, 40);
    assert_eq!(entries(&p), vec![("Alt".to_string(), 40)]);
}

#[test]
fn consumed_modifier_never_taps() {
    // Consumption sticks even when the combination partner went up long ago.
    let mut p = KeyPipeline::new();
    p.key_down(&Key::AltGr, 0);
    p.key_down(&Key::F5, 10);
    p.key_up(&Key::F5, 20);
    p.key_up(&Key::AltGr, 4000);
    assert_eq!(entries(&p), vec![("Alt + F5".to_string(), 10)]);
}

#[test]
fn all_four_modifiers_in_canonical_order() {
    let mut p = KeyPipeline::new();
    p.key_down(&Key::MetaLeft, 0);
    p.key_down(&Key::Alt, 1);
    p.key_down(&Key::ShiftLeft, 2);
    p.key_down(&Key::ControlLeft, 3);
    p.key_down(&Key::Delete, 4);
    assert_eq!(
        entries(&p),
        vec![("Ctrl + Shift + Alt + Win + Delete".to_string(), 4)]
    );
}

#[test]
fn kind_stays_held_until_both_variants_released() {
    // Both Shift variants down, one released: a chord pressed now still
    // carries "Shift", and no spurious tap is emitted for the first up.
    let mut p = KeyPipeline::new();
    p.key_down(&Key::ShiftLeft, 0);
    p.key_down(&Key::ShiftRight, 5);
    p.key_up(&Key::ShiftLeft, 10);
    p.key_down(&Key::KeyA, 15);
    p.key_up(&Key::ShiftRight, 20);
    assert_eq!(entries(&p), vec![("Shift + A".to_string(), 15)]);
}

#[test]
fn both_variant_tap_emits_once_on_final_release() {
    let mut p = KeyPipeline::new();
    p.key_down(&Key::ShiftLeft, 0);
    p.key_down(&Key::ShiftRight, 5);
    p.key_up(&Key::ShiftLeft, 10);
    assert_eq!(p.len(), 0);
    p.key_up(&Key::ShiftRight, 20);
    assert_eq!(entries(&p), vec![("Shift".to_string(), 20)]);
}

#[test]
fn modifier_auto_repeat_still_taps() {
    // Platforms may auto-repeat a held modifier's key-down; the repeat is
    // idempotent and the release still counts as a standalone tap.
    let mut p = KeyPipeline::new();
    p.key_down(&Key::ControlLeft, 0);
    p.key_down(&Key::ControlLeft, 1);
    p.key_up(&Key::ControlLeft, 10);
    assert_eq!(entries(&p), vec![("Ctrl".to_string(), 10)]);
}

#[test]
fn stray_modifier_up_is_silent() {
    // A key-up of a variant that was never depressed releases nothing and
    // emits nothing.
    let mut p = KeyPipeline::new();
    p.key_up(&Key::ControlLeft, 0);
    assert_eq!(p.len(), 0);

    let mut q = KeyPipeline::new();
    q.key_down(&Key::ShiftRight, 0);
    q.key_up(&Key::ShiftLeft, 5);
    assert_eq!(q.len(), 0);
    q.key_down(&Key::KeyB, 10);
    assert_eq!(entries(&q), vec![("Shift + B".to_string(), 10)]);
}

#[test]
fn buffer_timestamps_non_decreasing() {
    let mut p = KeyPipeline::new();
    let seq = [
        (Key::ControlLeft, true, 0),
        (Key::KeyA, true, 3),
        (Key::KeyA, false, 4),
        (Key::ControlLeft, false, 9),
        (Key::ShiftLeft, true, 10),
        (Key::ShiftLeft, false, 12),
        (Key::KeyZ, true, 20),
    ];
    for (key, down, t) in seq.iter() {
        if *down {
            p.key_down(key, *t);
        } else {
            p.key_up(key, *t);
        }
    }
    let got = entries(&p);
    assert!(p.len() <= 15);
    for w in got.windows(2) {
        assert!(w[0].1 <= w[1].1);
    }
}
