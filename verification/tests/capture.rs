use mousebridge::capture::{CaptureStats, InputSink, VirtualCapture};
use mousebridge::engine::{record_note, LOG_CAPACITY};
use mousebridge::error::InputError;
use mousebridge::event::InputEvent;
use mousebridge::inject::{inject_all, release_tracked, InputInject, Validated};
use mousebridge::keycode::keys;
use mousebridge::modifiers::MouseButton;
use mousebridge::routing::Disposition;
use mousebridge::state::InputStateTracker;

#[derive(Default)]
struct RecordingInjector {
    events: Vec<InputEvent>,
    fail_on: Option<usize>,
    released: usize,
}

impl InputInject for RecordingInjector {
    fn inject(&mut self, event: &InputEvent) -> Result<(), InputError> {
        let index = self.events.len();
        self.events.push(event.clone());
        if self.fail_on == Some(index) {
            return Err(InputError::OsCall {
                api: "test",
                detail: "injected failure".to_owned(),
            });
        }
        Ok(())
    }
    fn release_all(&mut self) -> Result<(), InputError> {
        self.released += 1;
        Ok(())
    }
}

fn move_to(x: f64, y: f64) -> InputEvent {
    InputEvent::MouseMoveTo {
        x_bits: x.to_bits(),
        y_bits: y.to_bits(),
    }
}

#[test]
fn non_finite_events_never_reach_the_inner_injector() {
    let mut injector = Validated::new(RecordingInjector::default());
    let bad = move_to(f64::NAN, 0.0);
    assert!(matches!(
        injector.inject(&bad),
        Err(InputError::Malformed { .. })
    ));
    assert_eq!(injector.rejected_count(), 1);
    assert!(
        injector.into_inner().events.is_empty(),
        "a NaN reached the platform layer"
    );
}

#[test]
fn valid_events_pass_through_unchanged() {
    let mut injector = Validated::new(RecordingInjector::default());
    let good = move_to(12.0, 34.0);
    injector.inject(&good).expect("accepted");
    assert_eq!(injector.rejected_count(), 0);
    assert_eq!(injector.into_inner().events, vec![good]);
}

#[test]
fn a_failure_mid_sequence_does_not_abandon_the_rest() {
    let mut injector = RecordingInjector {
        fail_on: Some(1),
        ..Default::default()
    };
    let events = vec![
        InputEvent::Key {
            key: keys::a(),
            pressed: false,
            repeat: false,
        },
        InputEvent::Key {
            key: keys::left_shift(),
            pressed: false,
            repeat: false,
        },
        InputEvent::Key {
            key: keys::left_ctrl(),
            pressed: false,
            repeat: false,
        },
    ];
    let result = inject_all(&mut injector, &events);
    assert!(result.is_err(), "the failure must still be reported");
    assert_eq!(
        injector.events.len(),
        3,
        "the sequence was abandoned after the failure"
    );
}

#[test]
fn release_tracked_clears_state_even_when_injection_fails() {
    let mut injector = RecordingInjector {
        fail_on: Some(0),
        ..Default::default()
    };
    let mut tracker = InputStateTracker::new();
    tracker.apply(&InputEvent::MouseButton {
        button: MouseButton::Left,
        pressed: true,
    });
    tracker.apply(&InputEvent::Key {
        key: keys::left_ctrl(),
        pressed: true,
        repeat: false,
    });

    assert!(release_tracked(&mut injector, &mut tracker).is_err());
    assert!(tracker.is_clean(), "tracker kept stale held state");
    assert_eq!(injector.events.len(), 2, "both releases were attempted");
}

#[test]
fn release_tracked_on_a_clean_tracker_is_a_no_op() {
    let mut injector = RecordingInjector::default();
    let mut tracker = InputStateTracker::new();
    release_tracked(&mut injector, &mut tracker).expect("no-op succeeds");
    assert!(injector.events.is_empty());
    assert_eq!(injector.released, 0);
}

struct FixedSink(Disposition);

impl InputSink for FixedSink {
    fn on_event(&self, _event: &InputEvent) -> Disposition {
        self.0
    }
}

fn key_a() -> InputEvent {
    InputEvent::Key {
        key: keys::a(),
        pressed: true,
        repeat: false,
    }
}

#[test]
fn capture_refuses_to_emit_before_it_starts() {
    let mut capture: VirtualCapture<FixedSink> = VirtualCapture::new();
    assert_eq!(capture.emit(&key_a()), Err(InputError::NotRunning));
    assert!(!capture.is_running());
}

#[test]
fn a_denied_permission_prevents_starting() {
    let mut capture: VirtualCapture<FixedSink> =
        VirtualCapture::denying_permission("Input Monitoring");
    let err = capture
        .start(FixedSink(Disposition::PassThrough))
        .expect_err("must refuse");
    assert!(err.needs_user_action());
    assert_eq!(
        err,
        InputError::PermissionDenied {
            operation: "start capture",
            permission: "Input Monitoring",
        }
    );
    assert!(!capture.is_running());
}

#[test]
fn an_os_disable_is_reported_and_recoverable_by_rearming() {
    let mut capture = VirtualCapture::new();
    capture.start(FixedSink(Disposition::PassThrough)).unwrap();
    capture.simulate_os_disable("tap timed out");
    assert!(!capture.is_running());

    let err = capture.emit(&key_a()).expect_err("disabled");
    assert!(err.is_recoverable(), "a disabled tap must be re-armable");
    assert_eq!(
        err,
        InputError::CaptureDisabled {
            reason: "tap timed out"
        }
    );

    capture.rearm().expect("rearm succeeds");
    assert!(capture.is_running());
    assert_eq!(capture.emit(&key_a()), Ok(Disposition::PassThrough));
}

#[test]
fn stopping_capture_stops_delivery() {
    let mut capture = VirtualCapture::new();
    capture.start(FixedSink(Disposition::Suppress)).unwrap();
    capture.stop().unwrap();
    assert!(!capture.is_running());
    assert_eq!(capture.emit(&key_a()), Err(InputError::NotRunning));
    assert_eq!(capture.rearm(), Err(InputError::NotRunning));
}

#[test]
fn every_emitted_event_is_counted_once() {
    let mut suppressing = VirtualCapture::new();
    suppressing.start(FixedSink(Disposition::Suppress)).unwrap();
    suppressing.emit(&key_a()).unwrap();
    suppressing.emit(&key_a()).unwrap();
    assert_eq!(
        suppressing.stats(),
        CaptureStats {
            emitted: 2,
            suppressed: 2,
            passed_through: 0
        }
    );

    let mut passing = VirtualCapture::new();
    passing.start(FixedSink(Disposition::PassThrough)).unwrap();
    passing.emit(&key_a()).unwrap();
    assert_eq!(
        passing.stats(),
        CaptureStats {
            emitted: 1,
            suppressed: 0,
            passed_through: 1
        }
    );
    assert_eq!(CaptureStats::default().emitted, 0);
}

#[test]
fn the_diagnostics_log_keeps_the_newest_first_and_is_capped() {
    let mut log: Vec<String> = Vec::new();
    record_note(&mut log, "first".to_owned());
    record_note(&mut log, "second".to_owned());
    assert_eq!(log, vec!["second".to_owned(), "first".to_owned()]);

    for i in 0..100 {
        record_note(&mut log, format!("note {i}"));
    }
    assert_eq!(log.len(), LOG_CAPACITY);
    assert_eq!(log[0], "note 99");
    assert_eq!(log[LOG_CAPACITY - 1], "note 60");
}

#[test]
fn emit_returns_what_the_sink_decided() {
    let mut capture: VirtualCapture<FixedSink> = VirtualCapture::new();
    capture.start(FixedSink(Disposition::Suppress)).unwrap();
    assert_eq!(capture.emit(&key_a()), Ok(Disposition::Suppress));
    let mut passing: VirtualCapture<FixedSink> = VirtualCapture::new();
    passing.start(FixedSink(Disposition::PassThrough)).unwrap();
    assert_eq!(passing.emit(&key_a()), Ok(Disposition::PassThrough));
    assert_eq!(capture.stats().suppressed, 1);
    assert_eq!(passing.stats().passed_through, 1);
}

#[test]
fn release_tracked_hands_over_the_release_sequence_in_order() {
    let mut injector = RecordingInjector::default();
    let mut tracker = InputStateTracker::new();
    tracker.apply(&InputEvent::Key {
        key: keys::left_shift(),
        pressed: true,
        repeat: false,
    });
    tracker.apply(&key_a());
    let expected = tracker.release_events();
    release_tracked(&mut injector, &mut tracker).expect("all delivered");
    assert_eq!(injector.events, expected);
    assert!(tracker.is_clean());
    assert_eq!(injector.released, 0);
}
