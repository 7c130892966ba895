use mousebridge::error::InputError;

#[test]
fn recoverable_and_user_actionable_are_disjoint() {
    let errors = [
        InputError::PermissionDenied {
            operation: "capture",
            permission: "Accessibility",
        },
        InputError::CaptureDisabled { reason: "timeout" },
        InputError::Blocked {
            blocking_pid: Some(42),
        },
        InputError::NotRunning,
        InputError::Malformed { reason: "NaN" },
    ];
    for e in errors {
        assert!(
            !(e.is_recoverable() && e.needs_user_action()),
            "{} is both auto-recoverable and user-actionable",
            e.to_string()
        );
    }
}

#[test]
fn a_retry_loop_cannot_spin_on_a_permission_error() {
    let e = InputError::PermissionDenied {
        operation: "capture",
        permission: "Input Monitoring",
    };
    assert!(!e.is_recoverable(), "would retry forever without a grant");
    assert!(e.needs_user_action());
}

#[test]
fn messages_name_the_blocking_process_when_known() {
    let known = InputError::Blocked {
        blocking_pid: Some(913),
    };
    assert!(known.to_string().contains("913"));
    let unknown = InputError::Blocked { blocking_pid: None };
    assert!(!unknown.to_string().contains("None"));
}

#[test]
fn every_message_reads_as_intended() {
    assert_eq!(
        InputError::PermissionDenied { operation: "capture", permission: "Accessibility" }.to_string(),
        "capture requires the Accessibility permission"
    );
    assert_eq!(
        InputError::Blocked { blocking_pid: Some(0) }.to_string(),
        "another application is blocking keyboard capture (process 0)"
    );
    assert_eq!(InputError::NotRunning.to_string(), "input capture is not running");
    assert_eq!(
        InputError::OsCall { api: "SendInput", detail: "denied".to_owned() }.to_string(),
        "SendInput failed: denied"
    );
    assert_eq!(
        InputError::Unsupported { what: "input capture" }.to_string(),
        "input capture is not supported on this platform"
    );
    assert!(InputError::NotRunning.is_recoverable());
    assert!(!InputError::Malformed { reason: "NaN" }.is_recoverable());
}
