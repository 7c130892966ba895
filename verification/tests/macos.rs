use mousebridge::keycode::{keys, KeyCode, PAGE_CONSUMER};
use mousebridge::macos::convert::{
    button_from_number, button_to_number, modifier_transitions, modifiers_from_flags,
};
use mousebridge::macos::keymap::{from_hid, table, to_hid};
use mousebridge::event::InputEvent;
use mousebridge::modifiers::{Modifiers, MouseButton};
use mousebridge::state::InputStateTracker;

const NX_LEFT_CTRL: u64 = 0x0000_0001;
const NX_LEFT_SHIFT: u64 = 0x0000_0002;
const NX_RIGHT_SHIFT: u64 = 0x0000_0004;
const NX_LEFT_CMD: u64 = 0x0000_0008;
const NX_RIGHT_CMD: u64 = 0x0000_0010;
const NX_LEFT_ALT: u64 = 0x0000_0020;
const NX_RIGHT_ALT: u64 = 0x0000_0040;
const NX_RIGHT_CTRL: u64 = 0x0000_2000;

#[test]
fn mouse_buttons_round_trip() {
    for button in MouseButton::all() {
        let n = button_to_number(button);
        assert_eq!(button_from_number(n), Some(button));
    }
}

#[test]
fn unknown_button_numbers_are_dropped() {
    assert_eq!(button_from_number(5), None);
    assert_eq!(button_from_number(-1), None);
    assert_eq!(button_from_number(99), None);
}

#[test]
fn device_flags_distinguish_left_from_right() {
    assert_eq!(modifiers_from_flags(NX_LEFT_SHIFT), Modifiers::left_shift());
    assert_eq!(modifiers_from_flags(NX_RIGHT_SHIFT), Modifiers::right_shift());
    assert_ne!(modifiers_from_flags(NX_LEFT_CTRL), modifiers_from_flags(NX_RIGHT_CTRL));
}

#[test]
fn all_eight_device_flags_are_recognised() {
    let all = NX_LEFT_CTRL
        | NX_LEFT_SHIFT
        | NX_RIGHT_SHIFT
        | NX_LEFT_CMD
        | NX_RIGHT_CMD
        | NX_LEFT_ALT
        | NX_RIGHT_ALT
        | NX_RIGHT_CTRL;
    assert_eq!(modifiers_from_flags(all).bits(), 0xFF);
}

#[test]
fn unrelated_flag_bits_are_ignored() {
    let noise = 0x0001_0000 | 0x0002_0000 | 0x0080_0000;
    assert_eq!(modifiers_from_flags(noise), Modifiers::none());
}

#[test]
fn a_single_modifier_press_and_release_is_derived_correctly() {
    let press = modifier_transitions(Modifiers::none(), Modifiers::left_shift());
    assert_eq!(press.as_slice(), &[(keys::left_shift(), true)]);

    let release = modifier_transitions(Modifiers::left_shift(), Modifiers::none());
    assert_eq!(release.as_slice(), &[(keys::left_shift(), false)]);
}

#[test]
fn an_unchanged_state_produces_nothing() {
    assert!(modifier_transitions(Modifiers::left_ctrl(), Modifiers::left_ctrl()).is_empty());
    assert!(modifier_transitions(Modifiers::none(), Modifiers::none()).is_empty());
}

#[test]
fn releases_are_emitted_before_presses() {
    let events = modifier_transitions(Modifiers::left_shift(), Modifiers::right_shift());
    assert_eq!(
        events.as_slice(),
        &[(keys::left_shift(), false), (keys::right_shift(), true)]
    );
}

#[test]
fn several_modifiers_changing_at_once_are_all_reported() {
    let before = Modifiers::left_ctrl().union(Modifiers::left_alt());
    let after = Modifiers::left_shift().union(Modifiers::left_meta());
    let events = modifier_transitions(before, after);
    assert_eq!(events.len(), 4);
    assert_eq!(events.as_slice().iter().filter(|(_, d)| !d).count(), 2);
    assert_eq!(events.as_slice().iter().filter(|(_, d)| *d).count(), 2);
}

#[test]
fn transitions_applied_to_a_tracker_reproduce_the_target_state() {
    let mut tracker = InputStateTracker::new();
    let mut current = Modifiers::none();
    for target in [
        Modifiers::left_shift(),
        Modifiers::left_shift().union(Modifiers::left_meta()),
        Modifiers::right_alt(),
        Modifiers::none(),
    ] {
        for (key, pressed) in modifier_transitions(current, target).as_slice() {
            tracker.apply(&InputEvent::Key {
                key,
                pressed,
                repeat: false,
            });
        }
        assert_eq!(tracker.modifiers(), target);
        current = target;
    }
}

#[test]
fn the_table_has_no_duplicate_virtual_keys() {
    let mut seen: Vec<u16> = table().iter().map(|(vk, _)| *vk).collect();
    let before = seen.len();
    seen.sort_unstable();
    seen.dedup();
    assert_eq!(seen.len(), before, "duplicate virtual key code in the table");
}

#[test]
fn the_table_has_no_duplicate_hid_usages() {
    let mut seen: Vec<(u16, u16)> = table().iter().map(|(_, k)| (k.page, k.usage)).collect();
    let before = seen.len();
    seen.sort_unstable();
    seen.dedup();
    assert_eq!(seen.len(), before, "duplicate HID usage in the table");
}

#[test]
fn every_entry_round_trips_in_both_directions() {
    let entries = table();
    assert_eq!(entries.len(), 119);
    for (vk, key) in entries {
        assert_eq!(to_hid(vk), Some(key), "vk {vk:#04x} did not map forward");
        assert_eq!(from_hid(key), Some(vk), "{} did not map back", key.to_string());
    }
}

#[test]
fn modifiers_map_to_the_correct_sides() {
    assert_eq!(to_hid(0x37), Some(keys::left_meta()));
    assert_eq!(to_hid(0x36), Some(keys::right_meta()));
    assert_eq!(to_hid(0x38), Some(keys::left_shift()));
    assert_eq!(to_hid(0x3C), Some(keys::right_shift()));
    assert_eq!(to_hid(0x3A), Some(keys::left_alt()));
    assert_eq!(to_hid(0x3D), Some(keys::right_alt()));
    assert_eq!(to_hid(0x3B), Some(keys::left_ctrl()));
    assert_eq!(to_hid(0x3E), Some(keys::right_ctrl()));
}

#[test]
fn caps_lock_maps_to_a_key_not_a_modifier() {
    let caps = to_hid(0x39).expect("Caps Lock is mapped");
    assert_eq!(caps, keys::caps_lock());
    assert!(!caps.is_modifier(), "Caps Lock must not be a held modifier");
}

#[test]
fn the_fn_key_is_dropped_rather_than_invented() {
    assert_eq!(to_hid(0x3F), None);
}

#[test]
fn unmapped_virtual_keys_return_none() {
    assert_eq!(to_hid(0xFFFF), None);
    assert_eq!(to_hid(0x42), None, "gap in the table must stay a gap");
}

#[test]
fn keymap_media_keys_land_on_the_consumer_page() {
    let mute = to_hid(0x4A).expect("mute is mapped");
    assert_eq!(mute, keys::mute());
    assert_eq!(mute.page, PAGE_CONSUMER);
    assert!(!mute.is_modifier());
    assert_ne!(mute, keys::left_alt());
}

#[test]
fn letters_map_through_position_not_alphabetical_order() {
    assert_eq!(to_hid(0x00), Some(keys::a()));
    assert_eq!(to_hid(0x06), Some(keys::z()), "0x06 is Z, not G");
    assert_eq!(to_hid(0x08), Some(keys::c()));
    assert_eq!(to_hid(0x0C), Some(keys::q()));
}

#[test]
fn a_key_absent_from_this_layout_maps_back_to_none() {
    let nonexistent = KeyCode::keyboard(0xFF);
    assert_eq!(from_hid(nonexistent), None);
}

use mousebridge::event::ScrollDelta;
use mousebridge::macos::tap::{interpret_tap_event, TapEvent, INJECTION_MARKER};

#[test]
fn the_tap_ignores_its_own_synthetic_events() {
    let t = interpret_tap_event(
        INJECTION_MARKER,
        &TapEvent::Key {
            virtual_key: 0x00,
            pressed: true,
            repeat: false,
        },
        Modifiers::none(),
    );
    assert!(t.events.is_empty());
    assert!(!t.unmapped_key);
    assert_eq!(t.modifiers, Modifiers::none());
}

#[test]
fn the_tap_reads_keys_buttons_motion_and_scrolling() {
    let key = interpret_tap_event(
        0,
        &TapEvent::Key {
            virtual_key: 0x00,
            pressed: true,
            repeat: true,
        },
        Modifiers::none(),
    );
    assert_eq!(
        key.events,
        vec![InputEvent::Key {
            key: keys::a(),
            pressed: true,
            repeat: true
        }]
    );

    let unknown = interpret_tap_event(
        0,
        &TapEvent::Key {
            virtual_key: 70_000,
            pressed: true,
            repeat: false,
        },
        Modifiers::none(),
    );
    assert!(unknown.events.is_empty() && unknown.unmapped_key);

    let button = interpret_tap_event(
        0,
        &TapEvent::Button {
            number: 1,
            pressed: false,
        },
        Modifiers::none(),
    );
    assert_eq!(
        button.events,
        vec![InputEvent::MouseButton {
            button: MouseButton::Right,
            pressed: false
        }]
    );

    let still = interpret_tap_event(
        0,
        &TapEvent::Motion {
            dx_bits: 0.0f64.to_bits(),
            dy_bits: (-0.0f64).to_bits(),
        },
        Modifiers::none(),
    );
    assert!(still.events.is_empty(), "zero-delta moves carry nothing");

    let zero_scroll = ScrollDelta {
        x_bits: 0.0f32.to_bits(),
        y_bits: 0.0f32.to_bits(),
        precise: true,
    };
    assert!(interpret_tap_event(0, &TapEvent::Scroll { delta: zero_scroll }, Modifiers::none())
        .events
        .is_empty());
}

#[test]
fn the_tap_derives_modifier_transitions_from_flags() {
    let left_shift = 0x0002u64;
    let right_shift = 0x0004u64;
    let pressed = interpret_tap_event(
        0,
        &TapEvent::FlagsChanged { flags: left_shift },
        Modifiers::none(),
    );
    assert_eq!(pressed.modifiers, Modifiers::left_shift());
    assert_eq!(
        pressed.events,
        vec![InputEvent::Key {
            key: keys::left_shift(),
            pressed: true,
            repeat: false
        }]
    );

    let swapped = interpret_tap_event(
        0,
        &TapEvent::FlagsChanged { flags: right_shift },
        pressed.modifiers,
    );
    assert_eq!(
        swapped.events,
        vec![
            InputEvent::Key {
                key: keys::left_shift(),
                pressed: false,
                repeat: false
            },
            InputEvent::Key {
                key: keys::right_shift(),
                pressed: true,
                repeat: false
            }
        ],
        "the release comes first"
    );
}

use mousebridge::macos::post::{
    button_event, event_flags, motion_event, PostedEvent, FLAG_ALTERNATE, FLAG_COMMAND,
    FLAG_CONTROL, FLAG_SHIFT,
};
use mousebridge::modifiers::MouseButtons;

#[test]
fn synthetic_events_carry_the_held_modifiers_as_flags() {
    assert_eq!(event_flags(Modifiers::none()), 0);
    assert_eq!(event_flags(Modifiers::right_ctrl()), FLAG_CONTROL);
    assert_eq!(
        event_flags(Modifiers::left_meta().union(Modifiers::right_shift())),
        FLAG_COMMAND | FLAG_SHIFT
    );
    assert_eq!(
        event_flags(Modifiers::left_alt().union(Modifiers::right_alt())),
        FLAG_ALTERNATE
    );
}

#[test]
fn motion_is_posted_as_a_drag_of_the_held_button() {
    let none = MouseButtons::none();
    assert_eq!(motion_event(none), PostedEvent::MouseMoved);
    assert_eq!(
        motion_event(none.with(MouseButton::Right).with(MouseButton::Left)),
        PostedEvent::LeftMouseDragged
    );
    assert_eq!(
        motion_event(none.with(MouseButton::Right)),
        PostedEvent::RightMouseDragged
    );
    assert_eq!(
        motion_event(none.with(MouseButton::Back)),
        PostedEvent::OtherMouseDragged
    );
    assert_eq!(button_event(MouseButton::Forward, true), PostedEvent::OtherMouseDown);
    assert_eq!(button_event(MouseButton::Left, false), PostedEvent::LeftMouseUp);
}
