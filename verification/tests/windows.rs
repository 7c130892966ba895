use mousebridge::keycode::{keys, KeyCode, PAGE_CONSUMER, PAGE_KEYBOARD};
use mousebridge::modifiers::{Modifiers, MouseButton};
use mousebridge::windows::convert::{
    button_from_message, messages, needs_shell_shortcut_guard, wheel_notches, ShellShortcutGuard,
};
use mousebridge::windows::keymap::{from_hid, table, to_hid};

const XBUTTON1: u16 = 0x0001;
const XBUTTON2: u16 = 0x0002;

#[test]
fn standard_buttons_map_in_both_directions() {
    assert_eq!(
        button_from_message(messages::LBUTTONDOWN, 0),
        Some((MouseButton::Left, true))
    );
    assert_eq!(
        button_from_message(messages::RBUTTONUP, 0),
        Some((MouseButton::Right, false))
    );
    assert_eq!(
        button_from_message(messages::MBUTTONDOWN, 0),
        Some((MouseButton::Middle, true))
    );
}

#[test]
fn thumb_buttons_are_distinguished_by_the_high_word() {
    assert_eq!(
        button_from_message(messages::XBUTTONDOWN, u32::from(XBUTTON1) << 16),
        Some((MouseButton::Back, true))
    );
    assert_eq!(
        button_from_message(messages::XBUTTONUP, u32::from(XBUTTON2) << 16),
        Some((MouseButton::Forward, false))
    );
    assert_eq!(button_from_message(messages::XBUTTONDOWN, 0x0009 << 16), None);
}

#[test]
fn non_button_messages_are_ignored() {
    assert_eq!(button_from_message(messages::MOUSEMOVE, 0), None);
    assert_eq!(button_from_message(messages::MOUSEWHEEL, 0), None);
}

#[test]
fn a_lone_meta_or_alt_release_needs_a_guard() {
    assert!(needs_shell_shortcut_guard(keys::left_meta(), false));
    assert!(needs_shell_shortcut_guard(keys::right_meta(), false));
    assert!(needs_shell_shortcut_guard(keys::left_alt(), false));
    assert!(needs_shell_shortcut_guard(keys::right_alt(), false));
}

#[test]
fn no_guard_is_needed_once_something_else_was_typed() {
    assert!(!needs_shell_shortcut_guard(keys::left_meta(), true));
    assert!(!needs_shell_shortcut_guard(keys::left_alt(), true));
}

#[test]
fn the_guard_opens_its_window_when_a_chord_starts() {
    let mut guard = ShellShortcutGuard::new();
    guard.on_key(keys::a(), true, Modifiers::none());
    assert!(!guard.needs_guard(keys::left_meta()), "no modifier held yet");

    guard.on_key(keys::left_meta(), true, Modifiers::left_meta());
    assert!(
        guard.needs_guard(keys::left_meta()),
        "a fresh chord must arm the guard even after earlier typing"
    );
}

#[test]
fn typing_during_a_chord_closes_the_window() {
    let mut guard = ShellShortcutGuard::new();
    guard.on_key(keys::left_meta(), true, Modifiers::left_meta());
    assert!(guard.needs_guard(keys::left_meta()));
    guard.on_key(keys::a(), true, Modifiers::left_meta());
    assert!(!guard.needs_guard(keys::left_meta()));
}

#[test]
fn a_mouse_click_also_closes_the_window() {
    let mut guard = ShellShortcutGuard::new();
    guard.on_key(keys::left_alt(), true, Modifiers::left_alt());
    assert!(guard.needs_guard(keys::left_alt()));
    guard.on_button();
    assert!(!guard.needs_guard(keys::left_alt()));
}

#[test]
fn a_second_modifier_does_not_reopen_the_window() {
    let mut guard = ShellShortcutGuard::new();
    guard.on_key(keys::left_alt(), true, Modifiers::left_alt());
    guard.on_key(keys::a(), true, Modifiers::left_alt());
    guard.on_key(
        keys::left_ctrl(),
        true,
        Modifiers::left_alt().union(Modifiers::left_ctrl()),
    );
    assert!(!guard.needs_guard(keys::left_alt()), "window was reopened");
}

#[test]
fn the_boundary_crossing_case_is_guarded() {
    let mut guard = ShellShortcutGuard::new();
    guard.on_key(keys::left_meta(), true, Modifiers::left_meta());
    assert!(guard.needs_guard(keys::left_meta()));
}

#[test]
fn reset_clears_the_history() {
    let mut guard = ShellShortcutGuard::new();
    guard.on_key(keys::a(), true, Modifiers::none());
    guard.reset();
    guard.on_key(keys::left_meta(), true, Modifiers::left_meta());
    assert!(guard.needs_guard(keys::left_meta()));
}

#[test]
fn other_modifiers_need_no_guard() {
    assert!(!needs_shell_shortcut_guard(keys::left_ctrl(), false));
    assert!(!needs_shell_shortcut_guard(keys::left_shift(), false));
    assert!(!needs_shell_shortcut_guard(keys::a(), false));
}

#[test]
fn scan_code_and_extended_flag_together_are_unique() {
    let mut seen: Vec<(u16, bool)> = table().iter().map(|(s, e, _)| (*s, *e)).collect();
    let before = seen.len();
    seen.sort_unstable();
    seen.dedup();
    assert_eq!(seen.len(), before, "duplicate (scan code, extended) pair");
}

#[test]
fn hid_usages_are_unique() {
    let mut seen: Vec<(u16, u16)> = table().iter().map(|(_, _, k)| (k.page, k.usage)).collect();
    let before = seen.len();
    seen.sort_unstable();
    seen.dedup();
    assert_eq!(seen.len(), before, "duplicate HID usage");
}

#[test]
fn every_entry_round_trips() {
    let entries = table();
    assert_eq!(entries.len(), 111);
    for (sc, ext, key) in entries {
        assert_eq!(to_hid(sc, ext), Some(key), "{sc:#04x} ext={ext}");
        assert_eq!(from_hid(key), Some((sc, ext)), "{}", key.to_string());
    }
}

#[test]
fn the_extended_bit_separates_reused_scan_codes() {
    assert_eq!(to_hid(0x1D, false), Some(keys::left_ctrl()));
    assert_eq!(to_hid(0x1D, true), Some(keys::right_ctrl()));
    assert_eq!(to_hid(0x38, false), Some(keys::left_alt()));
    assert_eq!(to_hid(0x38, true), Some(keys::right_alt()));

    let enter = to_hid(0x1C, false).expect("Enter");
    let keypad_enter = to_hid(0x1C, true).expect("Keypad Enter");
    assert_ne!(enter, keypad_enter);

    let home = to_hid(0x47, true).expect("Home");
    let keypad_7 = to_hid(0x47, false).expect("Keypad 7");
    assert_ne!(home, keypad_7);
}

#[test]
fn altgr_is_right_alt_not_a_separate_key() {
    assert_eq!(to_hid(0x38, true), Some(keys::right_alt()));
}

#[test]
fn media_keys_land_on_the_consumer_page() {
    let vol_up = to_hid(0x30, true).expect("volume up");
    assert_eq!(vol_up, keys::volume_up());
    assert_eq!(vol_up.page, PAGE_CONSUMER);
    assert_eq!(to_hid(0x30, false).map(|k| k.page), Some(PAGE_KEYBOARD));
}

#[test]
fn unmapped_codes_return_none() {
    assert_eq!(to_hid(0x00, false), None);
    assert_eq!(to_hid(0xFFFF, true), None);
    assert_eq!(from_hid(KeyCode::keyboard(0xFE)), None);
}

#[test]
fn the_windows_and_macos_tables_agree_on_shared_keys() {
    for key in [
        keys::a(),
        keys::z(),
        keys::q(),
        keys::enter(),
        keys::escape(),
        keys::tab(),
        keys::space(),
        keys::caps_lock(),
        keys::f1(),
        keys::left_ctrl(),
        keys::left_shift(),
        keys::left_alt(),
        keys::left_meta(),
        keys::right_ctrl(),
        keys::right_shift(),
        keys::right_alt(),
        keys::right_meta(),
        keys::mute(),
        keys::volume_up(),
        keys::media_play_pause(),
    ] {
        assert!(
            from_hid(key).is_some(),
            "{} is reachable on macOS but missing from the Windows table",
            key.to_string()
        );
    }
}

#[test]
fn wheel_notches_are_read_as_signed_high_words() {
    let up = (120u32 << 16) | 0x1234;
    let down = ((-120i16 as u16) as u32) << 16;
    assert_eq!(wheel_notches(messages::MOUSEWHEEL, up), Some((false, 120)));
    assert_eq!(wheel_notches(messages::MOUSEWHEEL, down), Some((false, -120)));
    assert_eq!(wheel_notches(messages::MOUSEHWHEEL, down), Some((true, -120)));
    assert_eq!(wheel_notches(messages::LBUTTONDOWN, up), None);
}

use mousebridge::windows::hook::{
    is_synthetic, interpret_key_hook, interpret_mouse_hook, quiet_event_suppressed, KeyHookOutcome,
    MouseHookOutcome,
    INJECTION_MARKER, LLKHF_EXTENDED, LLKHF_INJECTED, LLMHF_INJECTED,
};

#[test]
fn synthetic_events_are_never_captured() {
    assert!(is_synthetic(LLKHF_INJECTED, LLKHF_INJECTED, 0));
    assert!(is_synthetic(0, LLMHF_INJECTED, INJECTION_MARKER));
    assert!(!is_synthetic(LLKHF_EXTENDED, LLKHF_INJECTED, 0));
    assert_eq!(
        interpret_key_hook(messages::KEYDOWN, 0x1E, LLKHF_INJECTED, 0),
        KeyHookOutcome::Pass
    );
    assert_eq!(
        interpret_mouse_hook(messages::LBUTTONDOWN, 0, 0, INJECTION_MARKER, 0, 0, None),
        MouseHookOutcome::Pass
    );
}

#[test]
fn key_hook_events_map_through_scan_codes() {
    assert_eq!(
        interpret_key_hook(messages::KEYDOWN, 0x1E, 0, 0),
        KeyHookOutcome::Key {
            key: keys::a(),
            pressed: true
        }
    );
    assert_eq!(
        interpret_key_hook(messages::SYSKEYUP, 0x1E, 0, 0),
        KeyHookOutcome::Key {
            key: keys::a(),
            pressed: false
        }
    );
    assert_eq!(
        interpret_key_hook(messages::KEYDOWN, 0x38, LLKHF_EXTENDED, 0),
        KeyHookOutcome::Key {
            key: keys::right_alt(),
            pressed: true
        }
    );
    assert_eq!(
        interpret_key_hook(messages::KEYDOWN, 0, 0, 0),
        KeyHookOutcome::MissingScanCode
    );
    assert_eq!(
        interpret_key_hook(messages::KEYDOWN, 0x1_0000, 0, 0),
        KeyHookOutcome::MissingScanCode
    );
    assert_eq!(
        interpret_key_hook(messages::MOUSEMOVE, 0x1E, 0, 0),
        KeyHookOutcome::Pass
    );
}

#[test]
fn mouse_hook_motion_is_measured_from_the_previous_position() {
    assert_eq!(
        interpret_mouse_hook(messages::MOUSEMOVE, 0, 0, 0, 100, 50, None),
        MouseHookOutcome::Baseline
    );
    assert_eq!(
        interpret_mouse_hook(messages::MOUSEMOVE, 0, 0, 0, 100, 50, Some((90, 60))),
        MouseHookOutcome::Motion { dx: 10, dy: -10 }
    );
    assert_eq!(
        interpret_mouse_hook(messages::MOUSEMOVE, 0, 0, 0, i32::MAX, 0, Some((i32::MIN, 0))),
        MouseHookOutcome::Motion {
            dx: i64::from(i32::MAX) - i64::from(i32::MIN),
            dy: 0
        }
    );
    assert_eq!(
        interpret_mouse_hook(messages::MOUSEHWHEEL, 0, 0, 0, 0, 0, None),
        MouseHookOutcome::Wheel
    );
    assert_eq!(
        interpret_mouse_hook(messages::XBUTTONUP, 0x0002 << 16, 0, 0, 0, 0, None),
        MouseHookOutcome::Button {
            button: MouseButton::Forward,
            pressed: false
        }
    );
}

use mousebridge::windows::send::{
    button_input, key_input_flags, noname_input_flags, plan_key_injection, KeyInjection,
    KEYEVENTF_EXTENDEDKEY, KEYEVENTF_KEYUP, KEYEVENTF_SCANCODE, MOUSEEVENTF_LEFTDOWN,
    MOUSEEVENTF_XUP,
};

#[test]
fn synthetic_input_is_described_by_scan_code_and_flags() {
    assert_eq!(button_input(MouseButton::Left, true), (MOUSEEVENTF_LEFTDOWN, 0));
    assert_eq!(button_input(MouseButton::Forward, false), (MOUSEEVENTF_XUP, 2));
    assert_eq!(key_input_flags(false, true), KEYEVENTF_SCANCODE);
    assert_eq!(
        key_input_flags(true, false),
        KEYEVENTF_SCANCODE | KEYEVENTF_EXTENDEDKEY | KEYEVENTF_KEYUP
    );
    assert_eq!(noname_input_flags(true), 0);
    assert_eq!(noname_input_flags(false), KEYEVENTF_KEYUP);
}

#[test]
fn a_lone_windows_key_release_is_planned_behind_a_guard() {
    let mut guard = ShellShortcutGuard::new();
    let down = plan_key_injection(&mut guard, keys::left_meta(), true, Modifiers::left_meta())
        .expect("mapped");
    assert!(!down.guard_first);
    let up = plan_key_injection(&mut guard, keys::left_meta(), false, Modifiers::none())
        .expect("mapped");
    assert!(up.guard_first, "a lone release must be guarded");
    assert_eq!(up.flags & KEYEVENTF_KEYUP, KEYEVENTF_KEYUP);

    let mut guard = ShellShortcutGuard::new();
    plan_key_injection(&mut guard, keys::left_meta(), true, Modifiers::left_meta());
    plan_key_injection(&mut guard, keys::a(), true, Modifiers::left_meta());
    let up = plan_key_injection(&mut guard, keys::left_meta(), false, Modifiers::none())
        .expect("mapped");
    assert!(!up.guard_first, "a chord needs no guard");

    let a = plan_key_injection(&mut ShellShortcutGuard::new(), keys::a(), true, Modifiers::none());
    assert_eq!(
        a,
        Some(KeyInjection {
            scan_code: 0x1E,
            extended: false,
            flags: KEYEVENTF_SCANCODE,
            guard_first: false
        })
    );
}

#[test]
fn quiet_moves_are_swallowed_only_while_remote() {
    assert_eq!(quiet_event_suppressed(&MouseHookOutcome::Baseline, true), Some(true));
    assert_eq!(quiet_event_suppressed(&MouseHookOutcome::Baseline, false), Some(false));
    assert_eq!(
        quiet_event_suppressed(&MouseHookOutcome::Motion { dx: 0, dy: 0 }, true),
        Some(true)
    );
    assert_eq!(
        quiet_event_suppressed(&MouseHookOutcome::Motion { dx: 1, dy: 0 }, true),
        None
    );
    assert_eq!(quiet_event_suppressed(&MouseHookOutcome::Pass, true), Some(false));
    assert_eq!(quiet_event_suppressed(&MouseHookOutcome::Wheel, true), None);
}
