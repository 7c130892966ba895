use mousebridge::config::migrate::{
    found_version, next_migration_action, plan_migration, MigrationAction, MigrationError,
    MigrationOutcome, VersionField,
};
use mousebridge::config::{
    validate, LogLevel, LoggingConfig, NetworkConfig, SwitchingConfig, ValidationError,
    CURRENT_VERSION, DEFAULT_PORT,
};

fn sample() -> (NetworkConfig, SwitchingConfig) {
    (NetworkConfig::default(), SwitchingConfig::default())
}

#[test]
fn defaults_are_valid() {
    let (network, switching) = sample();
    assert_eq!(network.port, DEFAULT_PORT);
    assert!(network.discovery_enabled);
    assert!(network.manual_peers.is_empty());
    assert!(switching.enabled);
    assert_eq!(f64::from_bits(switching.edge_overshoot_points_bits), 12.0);
    assert_eq!(switching.cooldown_ms, 200);
    assert_eq!(f64::from_bits(switching.corner_deadzone_points_bits), 8.0);
    assert!(validate(&network, &switching).is_ok());
    assert_eq!(LoggingConfig::default().level, LogLevel::Info);
    assert!(LoggingConfig::default().file_enabled);
}

#[test]
fn validate_rejects_dangerous_hand_edits() {
    let (network, mut switching) = sample();
    switching.edge_overshoot_points_bits = f64::NAN.to_bits();
    let err = validate(&network, &switching).unwrap_err();
    assert_eq!(err.field, "switching.edge_overshoot_points");

    let (network, mut switching) = sample();
    switching.cooldown_ms = 60_000;
    assert_eq!(
        validate(&network, &switching).unwrap_err().field,
        "switching.cooldown_ms"
    );

    let (mut network, switching) = sample();
    network.port = 80;
    assert_eq!(
        validate(&network, &switching).unwrap_err().field,
        "network.port"
    );
}

#[test]
fn zero_cooldown_is_allowed_but_zero_overshoot_too() {
    let (network, mut switching) = sample();
    switching.cooldown_ms = 0;
    switching.edge_overshoot_points_bits = 0.0f64.to_bits();
    assert!(validate(&network, &switching).is_ok());
}

#[test]
fn distances_are_checked_against_their_range() {
    let (_, mut switching) = sample();
    for ok in [0.0f64, -0.0, 0.5, 499.99, 500.0] {
        switching.corner_deadzone_points_bits = ok.to_bits();
        assert!(switching.validate().is_ok(), "{ok} was refused");
    }
    for bad in [-0.5f64, 500.01, f64::INFINITY, f64::NEG_INFINITY, f64::NAN, 1e300] {
        switching.corner_deadzone_points_bits = bad.to_bits();
        assert_eq!(
            switching.validate().unwrap_err().field,
            "switching.corner_deadzone_points",
            "{bad} was accepted"
        );
    }
}

#[test]
fn too_many_manual_peers_are_refused() {
    let mut network = NetworkConfig::default();
    network.manual_peers = (0..64).map(|i| format!("10.0.0.{i}")).collect();
    assert!(network.validate().is_ok());
    network.manual_peers.push("10.0.1.1".to_owned());
    let err = network.validate().unwrap_err();
    assert_eq!(err.field, "network.manual_peers");
    assert_eq!(
        err.to_string(),
        "network.manual_peers is out of range: at most 64 entries"
    );
}

#[test]
fn the_network_is_checked_before_switching() {
    let (mut network, mut switching) = sample();
    network.port = 1023;
    switching.cooldown_ms = 10_001;
    assert_eq!(
        validate(&network, &switching).unwrap_err().field,
        "network.port"
    );
    network.port = 1024;
    assert_eq!(
        validate(&network, &switching).unwrap_err().field,
        "switching.cooldown_ms"
    );
    switching.cooldown_ms = 10_000;
    assert!(validate(&network, &switching).is_ok());
}

#[test]
fn a_validation_error_names_the_field_and_range() {
    let e = ValidationError::new("switching.cooldown_ms", "must be 10000 or below");
    assert_eq!(
        e.to_string(),
        "switching.cooldown_ms is out of range: must be 10000 or below"
    );
}

#[test]
fn log_levels_map_to_their_filter_names() {
    assert_eq!(LogLevel::Error.as_filter_str(), "error");
    assert_eq!(LogLevel::Warn.as_filter_str(), "warn");
    assert_eq!(LogLevel::Info.as_filter_str(), "info");
    assert_eq!(LogLevel::Debug.as_filter_str(), "debug");
    assert_eq!(LogLevel::Trace.as_filter_str(), "trace");
    assert_eq!(LogLevel::default(), LogLevel::Info);
}

/// Runs the step decisions for a document at `found`, returning the step
/// indices run in order, or the error that stopped the chain.
fn run_chain(found: u32, target: u32, steps: usize) -> Result<Vec<usize>, MigrationError> {
    let mut version = found;
    let mut run = Vec::new();
    loop {
        match next_migration_action(version, target, steps) {
            MigrationAction::Finished => return Ok(run),
            MigrationAction::Run {
                index,
                next_version,
            } => {
                run.push(index);
                assert_eq!(next_version, version + 1);
                version = next_version;
            }
            MigrationAction::Missing(e) => return Err(e),
        }
    }
}

#[test]
fn current_version_is_left_alone() {
    assert_eq!(
        plan_migration(VersionField::Integer(1), CURRENT_VERSION),
        Ok(MigrationOutcome::AlreadyCurrent)
    );
}

#[test]
fn missing_version_is_treated_as_one() {
    assert_eq!(found_version(VersionField::Missing), Ok(1));
    assert_eq!(
        plan_migration(VersionField::Missing, CURRENT_VERSION),
        Ok(MigrationOutcome::AlreadyCurrent)
    );
}

#[test]
fn a_newer_document_is_refused_not_downgraded() {
    assert_eq!(
        plan_migration(VersionField::Integer(99), CURRENT_VERSION),
        Err(MigrationError::FromFuture {
            found: 99,
            supported: CURRENT_VERSION,
        })
    );
}

#[test]
fn a_malformed_version_is_refused() {
    assert_eq!(
        plan_migration(VersionField::NotInteger, CURRENT_VERSION),
        Err(MigrationError::BadVersionField)
    );
    assert_eq!(
        plan_migration(VersionField::Integer(-3), CURRENT_VERSION),
        Err(MigrationError::BadVersionField)
    );
    assert_eq!(
        found_version(VersionField::Integer(i64::from(u32::MAX) + 1)),
        Err(MigrationError::BadVersionField)
    );
}

#[test]
fn version_zero_is_not_a_version() {
    assert_eq!(
        plan_migration(VersionField::Integer(0), CURRENT_VERSION),
        Err(MigrationError::BadVersionField)
    );
    let mut d = doc("version = 0\n");
    assert_eq!(
        migrate_doc(&mut d, &[], CURRENT_VERSION),
        Err(MigrationError::BadVersionField)
    );
    assert_eq!(d, doc("version = 0\n"));
}

#[test]
fn the_verdict_on_a_files_text_follows_its_version() {
    assert_eq!(
        version_verdict("version = 99\n[network]\nport = 1\n", 1),
        ParseVerdict::FromFuture {
            found: 99,
            supported: 1
        }
    );
    assert_eq!(version_verdict("version = 1\n", 1), ParseVerdict::Current);
    assert_eq!(version_verdict("[device]\nname = \"Mac\"\n", 1), ParseVerdict::Current);
    assert_eq!(
        version_verdict("version = 1\n", 3),
        ParseVerdict::Upgraded { from: 1 }
    );
    assert_eq!(version_verdict("version = 0\n", 1), ParseVerdict::Unusable);
    assert_eq!(version_verdict("version = \"one\"\n", 1), ParseVerdict::Unusable);
    assert_eq!(version_verdict("this is = = not toml", 1), ParseVerdict::Unusable);
    // A newer file is refused even when the rest of it fails the schema.
    let newer = version_verdict("version = 7\nbogus = true\n", 1);
    assert_eq!(
        load_action(settle_verdict(newer, false)),
        LoadAction::Refuse {
            found: 7,
            supported: 1
        }
    );
    assert_eq!(
        settle_verdict(ParseVerdict::Current, false),
        ParseVerdict::Unusable
    );
    assert_eq!(
        settle_verdict(ParseVerdict::Upgraded { from: 1 }, true),
        ParseVerdict::Upgraded { from: 1 }
    );
}

type Step = fn(&mut toml::Table) -> Result<(), MigrationError>;

fn rename_port(d: &mut toml::Table) -> Result<(), MigrationError> {
    if let Some(v) = d.remove("prt") {
        d.insert("port".to_owned(), v);
    }
    Ok(())
}

fn add_flag(d: &mut toml::Table) -> Result<(), MigrationError> {
    d.insert("discovery_enabled".to_owned(), toml::Value::Boolean(true));
    Ok(())
}

fn doc(text: &str) -> toml::Table {
    text.parse::<toml::Table>().expect("valid toml")
}

/// Runs `steps` on a document as the library's decisions direct, stamping
/// the version after each.
fn migrate_doc(
    d: &mut toml::Table,
    steps: &[Step],
    target: u32,
) -> Result<MigrationOutcome, MigrationError> {
    let field = match d.get("version") {
        None => VersionField::Missing,
        Some(toml::Value::Integer(n)) => VersionField::Integer(*n),
        Some(_) => VersionField::NotInteger,
    };
    let found = match plan_migration(field, target)? {
        MigrationOutcome::AlreadyCurrent => return Ok(MigrationOutcome::AlreadyCurrent),
        MigrationOutcome::Upgraded { from } => from,
    };
    let mut version = found;
    loop {
        match next_migration_action(version, target, steps.len()) {
            MigrationAction::Finished => return Ok(MigrationOutcome::Upgraded { from: found }),
            MigrationAction::Missing(e) => return Err(e),
            MigrationAction::Run {
                index,
                next_version,
            } => {
                steps[index](d)?;
                d.insert(
                    "version".to_owned(),
                    toml::Value::Integer(i64::from(next_version)),
                );
                version = next_version;
            }
        }
    }
}

#[test]
fn steps_chain_in_order_and_stamp_the_version() {
    assert_eq!(
        plan_migration(VersionField::Integer(1), 3),
        Ok(MigrationOutcome::Upgraded { from: 1 })
    );
    assert_eq!(run_chain(1, 3, 2), Ok(vec![0, 1]));
    let mut d = doc("version = 1\nprt = 25470\n");
    let outcome = migrate_doc(&mut d, &[rename_port, add_flag], 3).expect("migrates");
    assert_eq!(outcome, MigrationOutcome::Upgraded { from: 1 });
    assert_eq!(d.get("version").and_then(toml::Value::as_integer), Some(3));
    assert_eq!(d.get("port").and_then(toml::Value::as_integer), Some(25470));
    assert!(d.get("prt").is_none());
    assert_eq!(
        d.get("discovery_enabled").and_then(toml::Value::as_bool),
        Some(true)
    );
}

#[test]
fn a_partial_chain_starts_from_the_documents_own_version() {
    assert_eq!(
        plan_migration(VersionField::Integer(2), 3),
        Ok(MigrationOutcome::Upgraded { from: 2 })
    );
    assert_eq!(run_chain(2, 3, 2), Ok(vec![1]));
    let mut d = doc("version = 2\n");
    let outcome = migrate_doc(&mut d, &[rename_port, add_flag], 3).expect("migrates");
    assert_eq!(outcome, MigrationOutcome::Upgraded { from: 2 });
    // Step 1 must not have run: the document was already past it.
    assert!(d.get("port").is_none());
    assert_eq!(
        d.get("discovery_enabled").and_then(toml::Value::as_bool),
        Some(true)
    );
}

#[test]
fn a_missing_step_is_an_error_not_a_silent_skip() {
    let err = run_chain(1, 5, 0).expect_err("no steps registered");
    assert!(matches!(err, MigrationError::StepFailed { from: 1, .. }));
    assert_eq!(
        err.to_string(),
        "migration from version 1 failed: no migration step registered for version 1"
    );
}

#[test]
fn migration_errors_explain_themselves() {
    assert_eq!(
        MigrationError::FromFuture {
            found: 99,
            supported: 1
        }
        .to_string(),
        "configuration is version 99, but this build understands at most version 1; \
         update MouseBridge or move the file aside"
    );
    assert_eq!(
        MigrationError::BadVersionField.to_string(),
        "configuration `version` must be a positive integer"
    );
}

use mousebridge::config::store::{
    load_action, settle_verdict, version_verdict, LoadAction, LoadOutcome,
    ParseVerdict,
};
use mousebridge::status::StartupNotice;

#[test]
fn a_corrupt_file_is_recovered_from_and_a_newer_one_refused() {
    assert_eq!(load_action(ParseVerdict::Current), LoadAction::UseLoaded);
    assert_eq!(
        load_action(ParseVerdict::Upgraded { from: 1 }),
        LoadAction::SaveMigrated { from: 1 }
    );
    assert_eq!(
        load_action(ParseVerdict::FromFuture {
            found: 99,
            supported: 1
        }),
        LoadAction::Refuse {
            found: 99,
            supported: 1
        }
    );
    assert_eq!(
        load_action(ParseVerdict::Unusable),
        LoadAction::PreserveAndReset
    );
}

#[test]
fn a_recovery_outcome_becomes_a_notice_with_the_backup_path() {
    let outcome = LoadOutcome::Recovered {
        config: 7u32,
        backup: "/tmp/config.toml.corrupt-1".to_owned(),
        reason: "invalid toml".to_owned(),
    };
    assert_eq!(
        StartupNotice::from_outcome(&outcome),
        Some(StartupNotice::Recovered {
            backup_path: "/tmp/config.toml.corrupt-1".to_owned(),
            reason: "invalid toml".to_owned(),
        })
    );
    assert_eq!(*outcome.config(), 7);
    assert_eq!(outcome.into_config(), 7);
}

#[test]
fn ordinary_loads_need_no_notice() {
    assert_eq!(StartupNotice::from_outcome(&LoadOutcome::Loaded(1u8)), None);
    assert_eq!(
        StartupNotice::from_outcome(&LoadOutcome::Created(1u8)),
        Some(StartupNotice::FirstRun)
    );
    assert_eq!(
        StartupNotice::from_outcome(&LoadOutcome::Migrated {
            config: 1u8,
            from_version: 3
        }),
        Some(StartupNotice::Migrated { from_version: 3 })
    );
    assert_eq!(
        LoadOutcome::Migrated {
            config: 5u8,
            from_version: 3
        }
        .into_config(),
        5
    );
}

use mousebridge::config::store::ConfigStore;

#[test]
fn a_store_knows_its_file_and_directory() {
    let store = ConfigStore::with_path("/Users/x/Library/Application Support/MouseBridge/config.toml".to_owned());
    assert_eq!(
        store.path(),
        "/Users/x/Library/Application Support/MouseBridge/config.toml"
    );
    assert_eq!(
        store.directory(),
        "/Users/x/Library/Application Support/MouseBridge"
    );
    assert_eq!(ConfigStore::with_path(String::new()).directory(), ".");
}

#[test]
fn a_directory_is_the_path_without_its_file_name() {
    assert_eq!(
        ConfigStore::with_path("/tmp/a/config.toml".to_owned()).directory(),
        "/tmp/a"
    );
    assert_eq!(ConfigStore::with_path("/".to_owned()).directory(), ".");
    assert_eq!(ConfigStore::with_path("config.toml".to_owned()).directory(), "");
    assert_eq!(ConfigStore::with_path("/config.toml".to_owned()).directory(), "/");
}

#[test]
fn a_recovery_notice_carries_the_backup_path() {
    let outcome = LoadOutcome::Recovered {
        config: (),
        backup: "/tmp/config.toml.corrupt-1".to_owned(),
        reason: "invalid toml".to_owned(),
    };
    match StartupNotice::from_outcome(&outcome) {
        Some(StartupNotice::Recovered {
            backup_path,
            reason,
        }) => {
            assert!(backup_path.contains("corrupt-1"), "user must be told where it went");
            assert_eq!(reason, "invalid toml");
        }
        other => panic!("expected a recovery notice, got {other:?}"),
    }
}
