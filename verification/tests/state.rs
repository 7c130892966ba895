use mousebridge::event::{HeldInput, InputEvent, ScrollDelta};
use mousebridge::keycode::{keys, KeyCode};
use mousebridge::modifiers::{Modifiers, MouseButton, MouseButtons};
use mousebridge::state::{ApplyOutcome, InputStateTracker, MAX_HELD_KEYS};

fn press(key: KeyCode) -> InputEvent {
    InputEvent::Key {
        key,
        pressed: true,
        repeat: false,
    }
}

fn release(key: KeyCode) -> InputEvent {
    InputEvent::Key {
        key,
        pressed: false,
        repeat: false,
    }
}

fn enter(held: HeldInput, x: f64, y: f64) -> InputEvent {
    InputEvent::Enter {
        screen: 0,
        x_bits: x.to_bits(),
        y_bits: y.to_bits(),
        held,
    }
}

#[test]
fn tracks_a_simple_press_and_release() {
    let mut t = InputStateTracker::new();
    assert!(t.is_clean());
    assert_eq!(t.apply(&press(keys::a())), ApplyOutcome::Changed);
    assert!(!t.is_clean());
    assert_eq!(t.keys(), &[keys::a()]);
    assert_eq!(t.apply(&release(keys::a())), ApplyOutcome::Changed);
    assert!(t.is_clean());
}

#[test]
fn modifiers_are_tracked_separately_from_keys() {
    let mut t = InputStateTracker::new();
    t.apply(&press(keys::left_shift()));
    t.apply(&press(keys::a()));
    assert_eq!(t.modifiers(), Modifiers::left_shift());
    assert_eq!(t.keys(), &[keys::a()], "a modifier must not occupy a key slot");
}

#[test]
fn auto_repeat_does_not_double_count() {
    let mut t = InputStateTracker::new();
    t.apply(&press(keys::a()));
    for _ in 0..50 {
        let repeat = InputEvent::Key {
            key: keys::a(),
            pressed: true,
            repeat: true,
        };
        assert_eq!(t.apply(&repeat), ApplyOutcome::Redundant);
    }
    t.apply(&release(keys::a()));
    assert!(t.is_clean(), "key survived its release");
}

#[test]
fn a_repeat_without_a_preceding_press_is_still_tracked() {
    let mut t = InputStateTracker::new();
    let repeat = InputEvent::Key {
        key: keys::a(),
        pressed: true,
        repeat: true,
    };
    assert_eq!(t.apply(&repeat), ApplyOutcome::Changed);
    assert_eq!(t.keys(), &[keys::a()]);
}

#[test]
fn releasing_something_never_pressed_is_not_an_error() {
    let mut t = InputStateTracker::new();
    assert_eq!(t.apply(&release(keys::a())), ApplyOutcome::Redundant);
    assert_eq!(
        t.apply(&InputEvent::MouseButton {
            button: MouseButton::Left,
            pressed: false
        }),
        ApplyOutcome::Redundant
    );
    assert!(t.is_clean());
}

#[test]
fn release_events_clear_everything_they_report() {
    let mut t = InputStateTracker::new();
    t.apply(&press(keys::left_ctrl()));
    t.apply(&press(keys::right_shift()));
    t.apply(&press(keys::a()));
    t.apply(&press(keys::q()));
    t.apply(&InputEvent::MouseButton {
        button: MouseButton::Left,
        pressed: true,
    });

    let events = t.release_events();
    let mut replay = t.clone();
    for e in &events {
        replay.apply(e);
    }
    assert!(replay.is_clean(), "left holding {:?}", replay.keys());
}

#[test]
fn release_order_is_buttons_then_keys_then_modifiers() {
    let mut t = InputStateTracker::new();
    t.apply(&press(keys::left_shift()));
    t.apply(&press(keys::a()));
    t.apply(&InputEvent::MouseButton {
        button: MouseButton::Left,
        pressed: true,
    });

    let events = t.release_events();
    assert!(matches!(events[0], InputEvent::MouseButton { .. }));
    assert!(
        matches!(events[1], InputEvent::Key { key, .. } if key == keys::a()),
        "ordinary keys must precede modifiers"
    );
    assert!(matches!(events[2], InputEvent::Key { key, .. } if key == keys::left_shift()));
}

#[test]
fn release_all_clears_and_is_idempotent() {
    let mut t = InputStateTracker::new();
    t.apply(&press(keys::left_meta()));
    t.apply(&press(keys::q()));
    assert_eq!(t.apply(&InputEvent::ReleaseAll), ApplyOutcome::Changed);
    assert!(t.is_clean());
    assert_eq!(t.apply(&InputEvent::ReleaseAll), ApplyOutcome::Redundant);
    assert!(t.is_clean());
}

#[test]
fn leave_also_clears() {
    let mut t = InputStateTracker::new();
    t.apply(&press(keys::left_ctrl()));
    t.apply(&InputEvent::Leave);
    assert!(t.is_clean());
}

#[test]
fn enter_adopts_the_peers_held_state() {
    let mut t = InputStateTracker::new();
    t.apply(&enter(
        HeldInput {
            keys: vec![keys::a()],
            modifiers: Modifiers::left_shift(),
            buttons: MouseButtons::none().with(MouseButton::Left),
        },
        0.0,
        0.5,
    ));
    assert_eq!(t.keys(), &[keys::a()]);
    assert_eq!(t.modifiers(), Modifiers::left_shift());
    assert!(t.buttons().contains(MouseButton::Left));
}

#[test]
fn enter_with_a_modifier_in_the_key_list_still_lands_in_the_modifier_set() {
    let mut t = InputStateTracker::new();
    t.apply(&enter(
        HeldInput {
            keys: vec![keys::left_alt()],
            modifiers: Modifiers::none(),
            buttons: MouseButtons::none(),
        },
        0.0,
        0.0,
    ));
    assert!(t.keys().is_empty());
    assert_eq!(t.modifiers(), Modifiers::left_alt());
}

#[test]
fn a_peer_reporting_duplicate_keys_does_not_create_a_stuck_key() {
    let mut t = InputStateTracker::new();
    t.apply(&enter(
        HeldInput {
            keys: vec![keys::a(), keys::a(), keys::a()],
            modifiers: Modifiers::none(),
            buttons: MouseButtons::none(),
        },
        0.0,
        0.0,
    ));
    assert_eq!(t.keys(), &[keys::a()]);
    t.apply(&release(keys::a()));
    assert!(t.is_clean());
}

#[test]
fn a_peer_exceeding_capacity_is_truncated_not_overflowed() {
    let many: Vec<KeyCode> = (0..100).map(|i| KeyCode::keyboard(0x04 + i)).collect();
    let mut t = InputStateTracker::new();
    t.apply(&enter(
        HeldInput {
            keys: many,
            modifiers: Modifiers::none(),
            buttons: MouseButtons::none(),
        },
        0.0,
        0.0,
    ));
    assert_eq!(t.keys().len(), MAX_HELD_KEYS);
}

#[test]
fn press_and_release_events_are_inverses() {
    let mut source = InputStateTracker::new();
    source.apply(&press(keys::left_meta()));
    source.apply(&press(keys::c()));
    source.apply(&InputEvent::MouseButton {
        button: MouseButton::Right,
        pressed: true,
    });

    let mut target = InputStateTracker::new();
    for e in source.press_events() {
        target.apply(&e);
    }
    assert_eq!(target.keys(), source.keys());
    assert_eq!(target.modifiers(), source.modifiers());
    assert_eq!(target.buttons(), source.buttons());

    for e in target.release_events() {
        target.apply(&e);
    }
    assert!(target.is_clean());
}

#[test]
fn capacity_overflow_is_reported_not_swallowed() {
    let mut t = InputStateTracker::new();
    for i in 0..MAX_HELD_KEYS {
        let key = KeyCode::keyboard(0x04 + u16::try_from(i).expect("small"));
        assert_eq!(t.apply(&press(key)), ApplyOutcome::Changed);
    }
    let overflow = KeyCode::keyboard(0x400);
    assert_eq!(t.apply(&press(overflow)), ApplyOutcome::CapacityExceeded);
    assert_eq!(t.keys().len(), MAX_HELD_KEYS);
}

#[test]
fn motion_never_touches_tracked_state() {
    let mut t = InputStateTracker::new();
    t.apply(&press(keys::a()));
    let before = t.keys().to_vec();
    for e in [
        InputEvent::MouseMove {
            dx_bits: 5.0f64.to_bits(),
            dy_bits: (-2.0f64).to_bits(),
        },
        InputEvent::MouseMoveTo {
            x_bits: 10.0f64.to_bits(),
            y_bits: 10.0f64.to_bits(),
        },
        InputEvent::MouseWheel {
            delta: ScrollDelta {
                x_bits: 0.0f32.to_bits(),
                y_bits: 1.0f32.to_bits(),
                precise: false,
            },
        },
    ] {
        assert_eq!(t.apply(&e), ApplyOutcome::Irrelevant);
    }
    assert_eq!(t.keys(), before.as_slice());
}

#[test]
fn key_removal_preserves_press_order() {
    let mut t = InputStateTracker::new();
    for k in [keys::a(), keys::c(), keys::q(), keys::v()] {
        t.apply(&press(k));
    }
    t.apply(&release(keys::c()));
    assert_eq!(t.keys(), &[keys::a(), keys::q(), keys::v()]);
}

#[test]
fn held_input_emptiness() {
    assert!(HeldInput::default().is_empty());
    assert!(!HeldInput {
        keys: vec![keys::a()],
        ..Default::default()
    }
    .is_empty());
    assert!(!HeldInput {
        buttons: MouseButtons::none().with(MouseButton::Left),
        ..Default::default()
    }
    .is_empty());
}

#[test]
fn a_snapshot_carries_everything_held() {
    let mut t = InputStateTracker::new();
    t.apply(&press(keys::left_shift()));
    t.apply(&press(keys::z()));
    t.apply(&InputEvent::MouseButton { button: MouseButton::Back, pressed: true });
    let held = t.held();
    assert_eq!(held.keys, vec![keys::z()]);
    assert_eq!(held.modifiers, Modifiers::left_shift());
    assert!(held.buttons.contains(MouseButton::Back));
    t.clear();
    assert!(t.is_clean());
}

#[test]
fn only_motion_is_droppable() {
    assert!(InputEvent::MouseMove { dx_bits: 1.0f64.to_bits(), dy_bits: 0 }.is_droppable());
    assert!(InputEvent::MouseMoveTo { x_bits: 5.0f64.to_bits(), y_bits: 5.0f64.to_bits() }
        .is_droppable());
    assert!(!InputEvent::MouseButton { button: MouseButton::Left, pressed: true }.is_droppable());
    assert!(!InputEvent::Key { key: keys::a(), pressed: false, repeat: false }.is_droppable());
    assert!(!InputEvent::ReleaseAll.is_droppable());
    assert!(!InputEvent::MouseWheel {
        delta: mousebridge::event::ScrollDelta {
            x_bits: 0.0f32.to_bits(),
            y_bits: 3.0f32.to_bits(),
            precise: false,
        },
    }
    .is_droppable());
}

#[test]
fn rendering_a_key_event_never_reveals_the_key() {
    let a = InputEvent::Key { key: keys::a(), pressed: true, repeat: true };
    let z = InputEvent::Key { key: keys::z(), pressed: true, repeat: true };
    assert_eq!(a.describe(), Some("KeyDown(repeat)".to_owned()));
    assert_eq!(a.describe(), z.describe());
    assert_eq!(
        InputEvent::Key { key: keys::a(), pressed: false, repeat: false }.describe(),
        Some("KeyUp".to_owned())
    );
    assert_eq!(
        InputEvent::MouseButton { button: MouseButton::Back, pressed: true }.describe(),
        Some("MouseDown(Back)".to_owned())
    );
    assert_eq!(InputEvent::ReleaseAll.describe(), Some("ReleaseAll".to_owned()));
    assert_eq!(InputEvent::Leave.describe(), Some("Leave".to_owned()));
    assert_eq!(
        InputEvent::MouseMove { dx_bits: 1.0f64.to_bits(), dy_bits: 0 }.describe(),
        None
    );
}

#[test]
fn display_never_reveals_which_key_was_pressed() {
    let rendered = InputEvent::Key {
        key: keys::a(),
        pressed: true,
        repeat: false,
    }
    .describe()
    .expect("a key event is rendered by the library");
    assert_eq!(rendered, "KeyDown");
    assert!(!rendered.contains('A'));
}
