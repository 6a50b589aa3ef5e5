use keycast::buffer::{age_ms, DisplayBuffer, MAX_KEYS};
use keycast::fade::{alpha_255, scale_permille};
use keycast::tracker::ChordEvent;

fn ev(text: &str, ts: u64) -> ChordEvent {
    ChordEvent {
        text: text.to_string(),
        timestamp_ms: ts,
    }
}

#[test]
fn push_keeps_order_and_cap() {
    let mut b = DisplayBuffer::new();
    for t in 0..20u64 {
        b.push(ev("K", t));
        assert!(b.len() <= MAX_KEYS);
    }
    assert_eq!(b.len(), 15);
    for i in 0..15 {
        let (text, ts) = b.entry(i);
        assert_eq!(text, "K");
        assert_eq!(ts, 5 + i as u64);
    }
}

#[test]
fn purge_removes_only_expired() {
    let mut b = DisplayBuffer::new();
    b.push(ev("old", 0));
    b.push(ev("mid", 101));
    b.push(ev("new", 1000));
    b.purge(4900);
    // ages at 4900: 4900, 4799, 3900; only the first has reached 4800.
    assert_eq!(b.len(), 2);
    assert_eq!(b.entry(0).0, "mid");
    assert_eq!(b.entry(1).0, "new");
}

#[test]
fn purge_is_idempotent() {
    let mut b = DisplayBuffer::new();
    b.push(ev("a", 0));
    b.push(ev("b", 2000));
    b.purge(5000);
    assert_eq!(b.len(), 1);
    b.purge(5000);
    assert_eq!(b.len(), 1);
    assert_eq!(b.entry(0).0, "b");
}

#[test]
fn clock_regression_never_purges() {
    let mut b = DisplayBuffer::new();
    b.push(ev("a", 1000));
    // The clock reads earlier than the entry: its age clamps to zero.
    b.purge(0);
    assert_eq!(b.len(), 1);
    assert_eq!(age_ms(0, 1000), 0);
    assert_eq!(age_ms(1500, 1000), 500);
}

#[test]
fn snapshot_reports_ages_in_order() {
    let mut b = DisplayBuffer::new();
    b.push(ev("a", 0));
    b.push(ev("b", 300));
    b.push(ev("c", 900));
    let snap = b.snapshot(1000);
    assert_eq!(
        snap,
        vec![
            ("a".to_string(), 1000),
            ("b".to_string(), 700),
            ("c".to_string(), 100)
        ]
    );
}

#[test]
fn snapshot_skips_expired_entries() {
    let mut b = DisplayBuffer::new();
    b.push(ev("gone", 0));
    b.push(ev("fading", 1000));
    let snap = b.snapshot(5000);
    assert_eq!(snap, vec![("fading".to_string(), 4000)]);
}

#[test]
fn alpha_is_full_then_fades_linearly() {
    assert_eq!(alpha_255(0), 255);
    assert_eq!(alpha_255(4000), 255);
    // (4800 - 4400) * 255 / 800 = 127
    assert_eq!(alpha_255(4400), 127);
    // (4800 - 4401) * 255 / 800 = 127 (integer division)
    assert_eq!(alpha_255(4401), 127);
    // (4800 - 4001) * 255 / 800 = 254
    assert_eq!(alpha_255(4001), 254);
    assert_eq!(alpha_255(4799), 0);
    assert_eq!(alpha_255(4800), 0);
    assert_eq!(alpha_255(100_000), 0);
}

#[test]
fn scale_pops_in_then_settles() {
    assert_eq!(scale_permille(0), 1200);
    assert_eq!(scale_permille(50), 1100);
    assert_eq!(scale_permille(99), 1002);
    assert_eq!(scale_permille(100), 1000);
    assert_eq!(scale_permille(4000), 1000);
}
