use mousebridge::event::{HeldInput, InputEvent, ScrollDelta};
use mousebridge::keycode::keys;
use mousebridge::modifiers::MouseButton;
use mousebridge::routing::{
    offers_to_queue, route_event, to_input_event, to_input_message, Destination, Disposition,
    InputMessage, QueueOutcome, ReceiveState, RouterStats,
};

fn lines(x: f32, y: f32) -> ScrollDelta {
    ScrollDelta {
        x_bits: x.to_bits(),
        y_bits: y.to_bits(),
        precise: false,
    }
}

fn precise(x: f32, y: f32) -> ScrollDelta {
    ScrollDelta {
        x_bits: x.to_bits(),
        y_bits: y.to_bits(),
        precise: true,
    }
}

fn key(pressed: bool) -> InputEvent {
    InputEvent::Key {
        key: keys::left_ctrl(),
        pressed,
        repeat: false,
    }
}

#[test]
fn events_and_messages_round_trip() {
    let events = vec![
        InputEvent::MouseButton {
            button: MouseButton::Middle,
            pressed: true,
        },
        InputEvent::MouseWheel {
            delta: lines(0.0, 3.0),
        },
        key(true),
        InputEvent::ReleaseAll,
    ];
    for event in events {
        let message = to_input_message(&event).expect("convertible");
        assert_eq!(to_input_event(&message), event);
    }
}

#[test]
fn leave_is_carried_as_a_release() {
    assert_eq!(
        to_input_message(&InputEvent::Leave),
        Some(InputMessage::ReleaseAll)
    );
}

#[test]
fn motion_and_entering_have_no_input_message() {
    assert_eq!(
        to_input_message(&InputEvent::MouseMove {
            dx_bits: 1.0f64.to_bits(),
            dy_bits: 0.0f64.to_bits(),
        }),
        None
    );
    assert_eq!(
        to_input_message(&InputEvent::Enter {
            screen: 0,
            x_bits: 0.5f64.to_bits(),
            y_bits: 0.5f64.to_bits(),
            held: HeldInput::empty(),
        }),
        None
    );
}

#[test]
fn a_receiver_can_always_be_returned_to_clean() {
    let mut state = ReceiveState::new();
    state.observe(&InputEvent::Key {
        key: keys::left_ctrl(),
        pressed: true,
        repeat: false,
    });
    state.observe(&InputEvent::MouseButton {
        button: MouseButton::Left,
        pressed: true,
    });
    assert!(!state.is_clean());

    let releases = state.release_all();
    assert_eq!(releases.len(), 2);
    assert!(state.is_clean());

    assert!(state.release_all().is_empty());
    assert!(state.is_clean());
}

#[test]
fn zero_events_are_recognised_as_noops() {
    assert!(InputEvent::MouseMove {
        dx_bits: 0.0f64.to_bits(),
        dy_bits: 0.0f64.to_bits()
    }
    .is_noop());
    assert!(InputEvent::MouseWheel {
        delta: lines(0.0, 0.0)
    }
    .is_noop());
    assert!(!InputEvent::MouseMove {
        dx_bits: 0.0f64.to_bits(),
        dy_bits: 0.5f64.to_bits()
    }
    .is_noop());
    assert!(!InputEvent::MouseMoveTo {
        x_bits: 0.0f64.to_bits(),
        y_bits: 0.0f64.to_bits()
    }
    .is_noop());
}

#[test]
fn non_finite_values_are_rejected() {
    assert!(!InputEvent::MouseMove {
        dx_bits: f64::NAN.to_bits(),
        dy_bits: 0.0f64.to_bits()
    }
    .is_finite());
    assert!(!InputEvent::MouseMoveTo {
        x_bits: f64::INFINITY.to_bits(),
        y_bits: 0.0f64.to_bits()
    }
    .is_finite());
    assert!(!InputEvent::MouseWheel {
        delta: precise(f32::NAN, 0.0)
    }
    .is_finite());
    assert!(!InputEvent::Enter {
        screen: 0,
        x_bits: f64::NAN.to_bits(),
        y_bits: 0.5f64.to_bits(),
        held: HeldInput::empty(),
    }
    .is_finite());
    assert!(InputEvent::ReleaseAll.is_finite());
}

#[test]
fn local_input_neither_queues_nor_counts() {
    let stats = RouterStats { dropped_motion: 1, forwarded: 2, lost_transitions: 3 };
    let key = InputEvent::ReleaseAll;
    assert!(!offers_to_queue(Destination::Local));
    assert!(offers_to_queue(Destination::Remote));
    assert_eq!(
        route_event(Destination::Local, stats, &key, Some(QueueOutcome::Full)),
        (stats, Disposition::PassThrough)
    );
    assert_eq!(
        route_event(Destination::Remote, stats, &key, Some(QueueOutcome::Full)),
        (RouterStats { lost_transitions: 4, ..stats }, Disposition::Suppress)
    );
    assert_eq!(
        route_event(Destination::Remote, stats, &key, Some(QueueOutcome::Queued)),
        (RouterStats { forwarded: 3, ..stats }, Disposition::Suppress)
    );
    assert_eq!(
        route_event(Destination::Remote, stats, &key, Some(QueueOutcome::Closed)),
        (stats, Disposition::Suppress)
    );
}
