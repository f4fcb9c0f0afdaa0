use std::cell::Cell;

use raw_decode::layout::DecodeError;
use raw_decode::skb_drop::{
    build_reasons, decimal_string, strip_reason_prefixes, EnumEntry, SkbDropEvent,
    SkbDropEventFactory,
};

fn entry(name: &str, value: i32) -> EnumEntry {
    EnumEntry { name: name.to_string(), value }
}

fn kernel_members() -> Vec<EnumEntry> {
    vec![
        entry("SKB_NOT_DROPPED_YET", 0),
        entry("SKB_CONSUMED", 1),
        entry("SKB_DROP_REASON_NOT_SPECIFIED", 2),
        entry("SKB_DROP_REASON_NO_SOCKET", 3),
        entry("SKB_DROP_REASON_SUBSYS_MASK", -65536),
    ]
}

#[test]
fn unavailable_metadata_gives_decimal() {
    let mut f = SkbDropEventFactory::new();
    let builds = Cell::new(0u32);
    let ev = f
        .from_raw(&5u32.to_le_bytes(), || {
            builds.set(builds.get() + 1);
            None
        })
        .unwrap();
    assert_eq!(ev.drop_reason, "5");
    for code in [0u32, 77, u32::MAX] {
        let ev = f
            .from_raw(&code.to_le_bytes(), || {
                builds.set(builds.get() + 1);
                Some(kernel_members())
            })
            .unwrap();
        assert_eq!(ev.drop_reason, code.to_string());
    }
    assert_eq!(builds.get(), 1);
    assert!(f.reasons_built());
}

#[test]
fn available_metadata_builds_once() {
    let mut f = SkbDropEventFactory::new();
    assert!(!f.reasons_built());
    let builds = Cell::new(0u32);
    for _ in 0..5 {
        let ev = f
            .from_raw(&3u32.to_le_bytes(), || {
                builds.set(builds.get() + 1);
                Some(kernel_members())
            })
            .unwrap();
        assert_eq!(ev.drop_reason, "NO_SOCKET");
    }
    assert_eq!(builds.get(), 1);
    let ev = f.from_raw(&1u32.to_le_bytes(), || None).unwrap();
    assert_eq!(ev.drop_reason, "CONSUMED");
    let ev = f.from_raw(&9u32.to_le_bytes(), || None).unwrap();
    assert_eq!(ev.drop_reason, "9");
}

#[test]
fn wrong_size_does_not_build() {
    let mut f = SkbDropEventFactory::new();
    let builds = Cell::new(0u32);
    let r = f.from_raw(&[1u8, 2, 3], || {
        builds.set(builds.get() + 1);
        None
    });
    assert_eq!(r, Err(DecodeError::SizeMismatch { expected: 4, actual: 3 }));
    let r = f.from_raw(&[0u8; 8], || None);
    assert_eq!(r, Err(DecodeError::SizeMismatch { expected: 4, actual: 8 }));
    assert_eq!(builds.get(), 0);
    assert!(!f.reasons_built());
}

#[test]
fn negative_members_left_out() {
    let t = build_reasons(&kernel_members());
    assert_eq!(t.len(), 4);
    assert!(!t.contains_key(&(-65536i32 as u32)));
    assert_eq!(t.get(&2).map(String::as_str), Some("NOT_SPECIFIED"));
    assert_eq!(t.get(&0).map(String::as_str), Some("NOT_DROPPED_YET"));
}

#[test]
fn later_member_replaces_earlier() {
    let t = build_reasons(&vec![entry("SKB_DROP_REASON_A", 4), entry("SKB_DROP_REASON_B", 4)]);
    assert_eq!(t.len(), 1);
    assert_eq!(t.get(&4).map(String::as_str), Some("B"));
}

#[test]
fn prefix_stripping() {
    assert_eq!(strip_reason_prefixes("SKB_DROP_REASON_NO_SOCKET"), "NO_SOCKET");
    assert_eq!(strip_reason_prefixes("SKB_CONSUMED"), "CONSUMED");
    assert_eq!(strip_reason_prefixes("DROP_REASON_TCP_CSUM"), "TCP_CSUM");
    assert_eq!(strip_reason_prefixes("NOT_PREFIXED"), "NOT_PREFIXED");
    assert_eq!(strip_reason_prefixes("SKB_SKB_X"), "X");
    assert_eq!(strip_reason_prefixes("DROP_REASON_SKB_X"), "SKB_X");
    assert_eq!(strip_reason_prefixes(""), "");
}

#[test]
fn parse_drop_reasons_directly() {
    let mut f = SkbDropEventFactory::default();
    f.parse_drop_reasons(None);
    assert!(f.reasons_built());
    assert_eq!(f.drop_reason_name(2), "2");
    f.parse_drop_reasons(Some(kernel_members()));
    assert_eq!(f.drop_reason_name(2), "NOT_SPECIFIED");
}

#[test]
fn unbuilt_lookup_is_decimal() {
    let f = SkbDropEventFactory::new();
    assert_eq!(f.drop_reason_name(42), "42");
}

#[test]
fn decimal_forms() {
    assert_eq!(decimal_string(0), "0");
    assert_eq!(decimal_string(7), "7");
    assert_eq!(decimal_string(10), "10");
    assert_eq!(decimal_string(1_234_567_890), "1234567890");
    assert_eq!(decimal_string(u32::MAX), "4294967295");
}

#[test]
fn event_text() {
    let ev = SkbDropEvent { drop_reason: "NO_SOCKET".to_string() };
    assert_eq!(ev.event_fmt(), "drop (NO_SOCKET)");
}
