use mousebridge::config::LogLevel;
use mousebridge::logging::{filter_for, log_directory, LogError};

#[test]
fn log_directory_sits_beside_the_configuration() {
    let dir = log_directory("/Users/x/Library/Application Support/MouseBridge");
    assert!(dir.ends_with("logs"));
    assert!(dir.starts_with("/Users/x/Library/Application Support/MouseBridge"));
    assert_ne!(dir, "/Users/x/Library/Application Support/MouseBridge");
}

#[test]
fn every_level_maps_to_a_valid_filter() {
    for level in [
        LogLevel::Error,
        LogLevel::Warn,
        LogLevel::Info,
        LogLevel::Debug,
        LogLevel::Trace,
    ] {
        let directive = filter_for(level);
        assert!(
            ["error", "warn", "info", "debug", "trace"].contains(&directive),
            "{level:?} produced an unparseable filter: {directive}"
        );
    }
}

#[test]
fn log_directory_joins_one_separator() {
    assert_eq!(log_directory("/tmp/mb"), "/tmp/mb/logs");
    assert_eq!(log_directory("/tmp/mb/"), "/tmp/mb/logs");
    assert_eq!(log_directory(""), "logs");
}

#[test]
fn logging_errors_explain_themselves() {

    assert_eq!(
        LogError::AlreadyInitialised.to_string(),
        "logging was already initialised"
    );
    let e = LogError::Directory {
        path: "/tmp/mb/logs".to_owned(),
        source: std::io::Error::new(std::io::ErrorKind::PermissionDenied, "denied"),
    };
    assert_eq!(e.to_string(), "cannot create log directory /tmp/mb/logs: denied");
}
