use tuigreet::config::schema::Config;
use tuigreet::config::validate::ConfigError;
use tuigreet::output::OutputConfig;

fn output(connector: &str, enabled: bool, primary: bool) -> OutputConfig {
    OutputConfig { connector: connector.to_string(), enabled, primary }
}

fn config_with_outputs(outputs: Vec<OutputConfig>) -> Config {
    let mut config = Config::default();
    config.outputs = outputs;
    config
}

#[test]
fn test_mutual_exclusive_remember_flags() {
    let mut config = Config::default();
    config.remember.username = true;
    config.remember.session = true;
    config.remember.user_session = true;

    assert!(config.remember.session);
    assert!(config.remember.user_session);

    let result = config.validate(false, true, true);
    assert!(
        result.is_ok(),
        "Both remember.session and remember.user_session being true should produce a warning, not an error"
    );

    let warnings = result.unwrap();
    assert!(
        warnings.iter().any(|w| w.contains("remember.session") && w.contains("remember.user_session")),
        "Expected a warning about conflicting remember options, got: {warnings:?}"
    );
}

#[test]
fn test_keybindings_distinctness_in_config() {
    let mut config = Config::default();
    config.keybindings.command = 3;
    config.keybindings.sessions = 3;
    config.keybindings.power = 7;
    let validation_result = config.validate(false, true, true);

    match validation_result {
        Err(ConfigError::DuplicateKeybindings) => {},
        _ => {
            panic!("Expected DuplicateKeybindings error, got: {validation_result:?}");
        },
    }
}

#[test]
fn test_wrapper_validation_empty_string() {
    let mut config = Config::default();
    config.session.session_wrapper = Some(String::new());
    config.session.xsession_wrapper = None;

    let result = config.validate(true, true, true);

    assert!(result.is_err(), "Empty wrapper command should fail validation");
}

#[test]
fn test_outputs_toml_roundtrip() {
    let config = config_with_outputs(vec![output("DP-1", true, true), output("HDMI-A-1", false, false)]);

    assert_eq!(config.outputs.len(), 2);
    assert_eq!(config.outputs[0].connector, "DP-1");
    assert!(config.outputs[0].primary);
    assert!(config.outputs[0].enabled);
    assert_eq!(config.outputs[1].connector, "HDMI-A-1");
    assert!(!config.outputs[1].primary);
    assert!(!config.outputs[1].enabled);

    assert!(config.validate(false, true, true).is_ok());
}

#[test]
fn test_outputs_multiple_primary_is_error() {
    let config = config_with_outputs(vec![output("DP-1", true, true), output("HDMI-A-1", true, true)]);
    let result = config.validate(false, true, true);
    assert!(
        matches!(result, Err(ConfigError::Validation(_))),
        "Multiple primary outputs should be a Validation error, got: {result:?}"
    );
}

#[test]
fn test_outputs_empty_connector_is_error() {
    let config = config_with_outputs(vec![output("", true, false)]);
    let result = config.validate(false, true, true);
    assert!(
        matches!(result, Err(ConfigError::Validation(_))),
        "Empty connector name should be a Validation error, got: {result:?}"
    );
}

#[test]
fn test_outputs_path_separator_in_connector_is_error() {
    for bad in &["../DP-1", "/sys/class/drm/DP-1", "foo/bar"] {
        let config = config_with_outputs(vec![output(bad, true, false)]);
        let result = config.validate(false, true, true);
        assert!(
            matches!(result, Err(ConfigError::Validation(_))),
            "Connector '{bad}' with path separator should be a Validation error, got: {result:?}"
        );
    }
}

#[test]
fn test_outputs_valid_connector_names() {
    for good in &["DP-1", "HDMI-A-1", "DisplayPort-2", "eDP-1", "VGA-1", "DVI-D-1"] {
        let config = config_with_outputs(vec![output(good, true, false)]);
        assert!(
            config.validate(false, true, true).is_ok(),
            "Connector '{good}' should be valid, but validation failed"
        );
    }
}

#[test]
fn test_outputs_all_disabled_is_warning() {
    let config = config_with_outputs(vec![output("DP-1", false, false), output("HDMI-A-1", false, false)]);
    let result = config.validate(false, true, true);
    assert!(result.is_ok(), "All-disabled outputs should not be an error");
    let warnings = result.unwrap();
    assert!(
        warnings.iter().any(|w| w.contains("enabled = false")),
        "Expected a warning about all outputs being disabled, got: {warnings:?}"
    );
}

#[test]
fn test_outputs_single_primary_passes() {
    let config = config_with_outputs(vec![output("DP-1", true, true), output("HDMI-A-1", true, false)]);
    assert!(config.validate(false, true, true).is_ok());
}

#[test]
fn test_terminal_both_set_passes() {
    let mut config = Config::default();
    config.terminal.cols = Some(237);
    config.terminal.rows = Some(52);
    assert_eq!(config.terminal.cols, Some(237));
    assert_eq!(config.terminal.rows, Some(52));
    assert!(config.validate(false, true, true).is_ok());
}

#[test]
fn test_terminal_cols_without_rows_is_error() {
    let mut config = Config::default();
    config.terminal.cols = Some(237);
    let result = config.validate(false, true, true);
    assert!(
        matches!(result, Err(ConfigError::Validation(_))),
        "cols without rows should be a Validation error, got: {result:?}"
    );
}

#[test]
fn test_terminal_rows_without_cols_is_error() {
    let mut config = Config::default();
    config.terminal.rows = Some(52);
    let result = config.validate(false, true, true);
    assert!(
        matches!(result, Err(ConfigError::Validation(_))),
        "rows without cols should be a Validation error, got: {result:?}"
    );
}

#[test]
fn test_terminal_neither_set_passes() {
    let config = Config::default();
    assert!(config.validate(false, true, true).is_ok());
}

#[test]
fn test_terminal_zero_cols_is_error() {
    let mut config = Config::default();
    config.terminal.cols = Some(0);
    config.terminal.rows = Some(52);
    let result = config.validate(false, true, true);
    assert!(
        matches!(result, Err(ConfigError::Validation(_))),
        "cols = 0 should be a Validation error, got: {result:?}"
    );
}

#[test]
fn test_terminal_zero_rows_is_error() {
    let mut config = Config::default();
    config.terminal.cols = Some(237);
    config.terminal.rows = Some(0);
    let result = config.validate(false, true, true);
    assert!(
        matches!(result, Err(ConfigError::Validation(_))),
        "rows = 0 should be a Validation error, got: {result:?}"
    );
}

#[test]
fn test_wrapper_validation_whitespace_only() {
    let mut config = Config::default();
    config.session.session_wrapper = Some("   ".to_string());
    config.session.xsession_wrapper = None;

    let result = config.validate(true, true, true);

    assert!(result.is_err(), "Whitespace-only wrapper command should fail validation");
}

#[test]
fn issue_and_greeting_together_are_refused() {
    let mut config = Config::default();
    config.display.issue = true;
    config.display.greeting = Some("hi".to_string());
    assert!(matches!(config.validate(false, true, true), Err(ConfigError::MutuallyExclusive(_, _))));
}

#[test]
fn user_session_without_username_is_refused() {
    let mut config = Config::default();
    config.remember.user_session = true;
    assert!(matches!(config.validate(false, true, true), Err(ConfigError::Dependency(_))));
}

#[test]
fn inverted_uid_range_is_refused() {
    let mut config = Config::default();
    config.user_menu.min_uid = 5000;
    config.user_menu.max_uid = 1000;
    assert!(matches!(config.validate(false, true, true), Err(ConfigError::InvalidRange(_))));
}

#[test]
fn out_of_range_fkey_is_refused() {
    let mut config = Config::default();
    config.keybindings.background = 13;
    match config.validate(false, true, true) {
        Err(ConfigError::InvalidFKey(name, key)) => {
            assert_eq!(name, "background");
            assert_eq!(key, 13);
        },
        other => panic!("expected InvalidFKey, got {other:?}"),
    }
}

#[test]
fn bad_time_format_is_refused() {
    let mut config = Config::default();
    config.display.time_format = Some("%i %".to_string());
    assert!(matches!(config.validate(false, true, true), Err(ConfigError::InvalidTimeFormat)));
}

#[test]
fn missing_wrapper_executable_names_the_first_word() {
    let mut config = Config::default();
    config.session.session_wrapper = Some("  mywrap --flag ".to_string());
    config.session.xsession_wrapper = None;
    match config.validate(true, false, true) {
        Err(ConfigError::WrapperExecutableNotFound(e)) => assert_eq!(e, "mywrap"),
        other => panic!("expected WrapperExecutableNotFound, got {other:?}"),
    }
    assert!(config.validate(true, true, true).is_ok());
    assert!(config.validate(false, false, false).is_ok());
}

#[test]
fn multiple_primary_message_counts_them() {
    let config = config_with_outputs(vec![
        output("DP-1", true, true),
        output("DP-2", true, true),
        output("DP-3", true, true),
    ]);
    match config.validate(false, true, true) {
        Err(ConfigError::Validation(m)) => assert!(m.contains("but 3 are"), "{m}"),
        other => panic!("expected Validation, got {other:?}"),
    }
}
