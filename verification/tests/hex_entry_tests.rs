use epaint::hex_entry::{read_hex, HexEntry, HexEntryBuilder, HexKey, KeyOutcome};

#[test]
fn text_is_zero_padded_upper_case_hex() {
    assert_eq!(HexEntry::new(1, 0xab).entry_text(), "0xAB");
    assert_eq!(HexEntry::new(2, 0x1f).entry_text(), "0x001F");
    assert_eq!(HexEntry::new(4, 0).entry_text(), "0x00000000");
    assert_eq!(HexEntry::new(8, u64::MAX).entry_text(), "0xFFFFFFFFFFFFFFFF");
}

#[test]
fn text_is_read_in_hex() {
    assert_eq!(read_hex("0x1F", 0xff), Some(0x1f));
    assert_eq!(read_hex("1f", 0xff), Some(0x1f));
    assert_eq!(read_hex("+ff", 0xff), Some(0xff));
    assert_eq!(read_hex("ax10", 0xff), Some(0x10));
    assert_eq!(read_hex("100", 0xff), None);
    assert_eq!(read_hex("0x", 0xff), None);
    assert_eq!(read_hex("0xg", 0xff), None);
    assert_eq!(read_hex("-1", 0xff), None);
    assert_eq!(read_hex("ffffffffffffffff", u64::MAX), Some(u64::MAX));
    assert_eq!(read_hex("10000000000000000", u64::MAX), None);
    let mut entry = HexEntry::new(2, 5);
    assert!(entry.set_value_from_text("0xBEEF"));
    assert_eq!(entry.value(), 0xbeef);
    assert!(!entry.set_value_from_text("nonsense"));
    assert_eq!(entry.value(), 0xbeef);
    let shown = entry.entry_text();
    assert_eq!(read_hex(&shown, entry.max_value()), Some(entry.value()));
}

#[test]
fn arrows_step_faster_each_time() {
    let mut entry = HexEntryBuilder::new(1).initial_value(10).editable(true).build();
    assert!(entry.incr_value());
    assert_eq!(entry.value(), 11);
    assert!(entry.incr_value());
    assert_eq!(entry.value(), 13);
    assert!(entry.incr_value());
    assert_eq!(entry.value(), 16);
    assert!(entry.decr_value());
    assert_eq!(entry.value(), 12);
    entry.reset_current_step();
    assert!(entry.decr_value());
    assert_eq!(entry.value(), 11);
}

#[test]
fn steps_stop_at_the_ends() {
    let mut entry = HexEntry::new(1, 0xfe);
    assert!(entry.incr_value());
    assert_eq!(entry.value(), 0xff);
    assert!(!entry.incr_value());
    assert_eq!(entry.value(), 0xff);
    let mut entry = HexEntry::new(1, 1);
    entry.bump_current_step();
    entry.bump_current_step();
    assert!(entry.decr_value());
    assert_eq!(entry.value(), 0);
    assert!(!entry.decr_value());
    assert_eq!(entry.value(), 0);
}

#[test]
fn step_is_limited() {
    let mut entry = HexEntry::new(1, 0);
    for _ in 0..100 {
        entry.bump_current_step();
    }
    // the largest step for a byte is 0xff / 32 = 7
    let before = entry.value();
    entry.incr_value();
    assert_eq!(entry.value() - before, 7);
}

#[test]
fn keys() {
    let mut entry = HexEntry::new(1, 0x10);
    assert_eq!(
        entry.key_pressed(HexKey::Return, "0x20"),
        KeyOutcome { stop: true, value_changed: true, reset_text: false }
    );
    assert_eq!(entry.value(), 0x20);
    assert_eq!(
        entry.key_pressed(HexKey::Tab, "zz"),
        KeyOutcome { stop: false, value_changed: false, reset_text: true }
    );
    assert_eq!(
        entry.key_pressed(HexKey::IsoLeftTab, ""),
        KeyOutcome { stop: false, value_changed: false, reset_text: true }
    );
    assert_eq!(
        entry.key_pressed(HexKey::Up, ""),
        KeyOutcome { stop: true, value_changed: true, reset_text: false }
    );
    assert_eq!(entry.value(), 0x21);
    assert_eq!(
        entry.key_pressed(HexKey::Editing, ""),
        KeyOutcome { stop: false, value_changed: false, reset_text: false }
    );
    assert_eq!(
        entry.key_pressed(HexKey::Other, ""),
        KeyOutcome { stop: true, value_changed: false, reset_text: false }
    );
    assert!(entry.key_released(HexKey::Down));
    assert!(!entry.key_released(HexKey::Return));
    assert_eq!(HexEntryBuilder::new(2).width_chars(), 6);
}

#[test]
fn written_text_reads_back() {
    for (bytes, value, max) in [(1u64, 0xabu64, 0xffu64), (2, 0x1f, 0xffff), (4, 0, 0xffff_ffff), (8, u64::MAX, u64::MAX)] {
        let entry = HexEntry::new(bytes, value);
        assert_eq!(read_hex(&entry.entry_text(), max), Some(value));
        let mut other = HexEntry::new(bytes, 0);
        assert!(other.set_value_from_text(&entry.entry_text()));
        assert_eq!(other.value(), value);
    }
}
