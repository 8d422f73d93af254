use test_rust_app::checks::{judge_checks, sample_config, CheckObservations, Diagnostics};
use test_rust_app::config::Config;
use test_rust_app::error::RunError;
use test_rust_app::run::{resolve_config, ConfigLoad};

#[test]
fn no_config_file_uses_defaults() {
    let r = resolve_config(ConfigLoad::NotGiven).unwrap();
    assert_eq!(r.config.name, "test-rust-app");
    assert!(r.warning.is_none());
}

#[test]
fn missing_config_file_falls_back_with_warning() {
    let r = resolve_config(ConfigLoad::Unreadable("/no/such.json".to_string())).unwrap();
    assert_eq!(r.config.name, "test-rust-app");
    assert_eq!(r.config.features, vec!["basic".to_string()]);
    assert_eq!(
        r.warning.as_deref(),
        Some("Warning: Could not read config file '/no/such.json', using defaults")
    );
}

#[test]
fn parsed_config_is_kept() {
    let c = Config::new("mine".to_string(), "9.9.9".to_string(), vec!["f".to_string()]);
    let r = resolve_config(ConfigLoad::Parsed(c)).unwrap();
    assert_eq!(r.config.name, "mine");
    assert_eq!(r.config.version, "9.9.9");
    assert_eq!(r.config.features, vec!["f".to_string()]);
    assert!(r.warning.is_none());
}

#[test]
fn malformed_config_is_fatal() {
    match resolve_config(ConfigLoad::Malformed("invalid type: integer `123`".to_string())) {
        Err(RunError::Parse(m)) => assert_eq!(m, "invalid type: integer `123`"),
        other => panic!("unexpected {:?}", other),
    }
}

#[test]
fn diagnostics_levels() {
    let d0 = Diagnostics::from_level(0);
    assert!(!d0.progress && !d0.details);
    let d1 = Diagnostics::from_level(1);
    assert!(d1.progress && !d1.details);
    let d5 = Diagnostics::from_level(5);
    assert!(d5.progress && d5.details);
}

#[test]
fn checks_pass_silently_at_level_zero() {
    let o = CheckObservations { round_trip: Ok(sample_config()), missing_file_refused: true, home_found: false };
    let r = judge_checks(Diagnostics::from_level(0), &o);
    assert!(r.failure.is_none());
    assert!(r.notes.is_empty());
}

#[test]
fn checks_report_details_at_level_two() {
    let o = CheckObservations { round_trip: Ok(sample_config()), missing_file_refused: true, home_found: true };
    let r = judge_checks(Diagnostics::from_level(2), &o);
    assert!(r.failure.is_none());
    assert_eq!(
        r.notes,
        vec![
            "Running basic operations test...".to_string(),
            "✅ Serialization test passed".to_string(),
            "✅ Error handling test passed".to_string(),
            "✅ Environment variable test passed".to_string(),
        ]
    );
    let o2 = CheckObservations { round_trip: Ok(sample_config()), missing_file_refused: false, home_found: false };
    let r2 = judge_checks(Diagnostics::from_level(2), &o2);
    assert_eq!(
        r2.notes,
        vec![
            "Running basic operations test...".to_string(),
            "✅ Serialization test passed".to_string(),
            "⚠️ Error handling test: the missing file was readable".to_string(),
            "⚠️ Environment variable test skipped".to_string(),
        ]
    );
}

#[test]
fn checks_fail_on_serializer_error() {
    let o = CheckObservations { round_trip: Err("boom".to_string()), missing_file_refused: true, home_found: true };
    let r = judge_checks(Diagnostics::from_level(1), &o);
    assert_eq!(r.notes, vec!["Running basic operations test...".to_string()]);
    match r.failure {
        Some(RunError::Parse(m)) => assert_eq!(m, "boom"),
        other => panic!("unexpected {:?}", other),
    }
}

#[test]
fn checks_fail_on_changed_round_trip() {
    let back = Config::new("test".to_string(), "1.0.0".to_string(), vec!["io".to_string(), "test".to_string()]);
    let o = CheckObservations { round_trip: Ok(back), missing_file_refused: true, home_found: true };
    let r = judge_checks(Diagnostics::from_level(2), &o);
    assert_eq!(r.notes, vec!["Running basic operations test...".to_string()]);
    assert!(matches!(r.failure, Some(RunError::Parse(_))));
}

#[test]
fn sample_config_fields() {
    let s = sample_config();
    assert_eq!(s.name, "test");
    assert_eq!(s.version, "1.0.0");
    assert_eq!(s.features, vec!["test".to_string(), "io".to_string()]);
}

#[test]
fn test_basic_operations() {
    let o = CheckObservations { round_trip: Ok(sample_config()), missing_file_refused: true, home_found: true };
    let r = judge_checks(Diagnostics::from_level(0), &o);
    assert!(r.failure.is_none());
}

#[test]
fn readable_missing_file_is_logged_not_fatal() {
    let o = CheckObservations { round_trip: Ok(sample_config()), missing_file_refused: false, home_found: true };
    let quiet = judge_checks(Diagnostics::from_level(1), &o);
    assert!(quiet.failure.is_none());
    assert_eq!(quiet.notes, vec!["Running basic operations test...".to_string()]);
    let loud = judge_checks(Diagnostics::from_level(2), &o);
    assert!(loud.failure.is_none());
    assert!(!loud.notes.contains(&"✅ Error handling test passed".to_string()));
    assert!(loud.notes.contains(&"⚠️ Error handling test: the missing file was readable".to_string()));
}
