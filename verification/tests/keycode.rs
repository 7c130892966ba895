use mousebridge::keycode::keys;
use mousebridge::keycode::{KeyCode, PAGE_CONSUMER, PAGE_KEYBOARD};

#[test]
fn modifiers_map_to_distinct_consecutive_bits() {
    let bits: Vec<u8> = keys::modifiers()
        .iter()
        .map(|k| k.modifier_bit().expect("is a modifier"))
        .collect();
    assert_eq!(bits, vec![0x01, 0x02, 0x04, 0x08, 0x10, 0x20, 0x40, 0x80]);
}

#[test]
fn non_modifiers_have_no_modifier_bit() {
    for key in [
        keys::a(),
        keys::enter(),
        keys::space(),
        keys::f1(),
        keys::caps_lock(),
        keys::media_play_pause(),
    ] {
        assert!(!key.is_modifier(), "{} claimed to be a modifier", key.to_string());
        assert_eq!(key.modifier_bit(), None);
    }
}

#[test]
fn caps_lock_is_not_a_modifier() {
    assert!(!keys::caps_lock().is_modifier());
}

#[test]
fn consumer_page_keys_are_never_modifiers() {
    assert!(keys::mute().usage == keys::left_alt().usage);
    assert!(!keys::mute().is_modifier());
    assert!(keys::left_alt().is_modifier());
    assert_ne!(keys::mute(), keys::left_alt());
}

#[test]
fn names_are_assigned_correctly_at_range_boundaries() {
    assert_eq!(keys::a().name(), "A");
    assert_eq!(KeyCode::keyboard(0x1D).name(), "Z");
    assert_eq!(KeyCode::keyboard(0x1E).name(), "1");
    assert_eq!(KeyCode::keyboard(0x27).name(), "0");
    assert_eq!(keys::f1().name(), "F1");
    assert_eq!(KeyCode::keyboard(0x45).name(), "F12");
}

#[test]
fn unknown_usages_render_diagnosably() {
    let odd = KeyCode::keyboard(0xFFF);
    assert_eq!(odd.name(), "Unknown");
    assert_eq!(odd.to_string(), "HID(0x07:0x0fff)");
}

#[test]
fn pages_are_the_hid_pages() {
    assert_eq!(PAGE_KEYBOARD, 0x07);
    assert_eq!(PAGE_CONSUMER, 0x0C);
    assert_eq!(KeyCode::consumer(0xE9), keys::volume_up());
    assert_eq!(KeyCode::new(0x07, 0x04), keys::a());
}

#[test]
fn named_keys_render_by_name_and_wide_usages_in_full() {
    assert_eq!(keys::left_meta().to_string(), "LeftMeta");
    assert_eq!(KeyCode::new(0x1234, 0xBCDE).to_string(), "HID(0x1234:0xbcde)");
    assert_eq!(KeyCode::new(0, 0).to_string(), "HID(0x00:0x0000)");
}
