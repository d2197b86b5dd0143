use tuigreet::config::env::{load_env_variables, parse_bool, theme_from_spec};
use tuigreet::config::layer::apply_config_layer;
use tuigreet::cli::parse_command_line;
use tuigreet::config::args::extract_cli_config;
use tuigreet::config::parser::{load_config, load_config_file};
use tuigreet::config::schema::{AlignGreeting, Config, SecretMode, WidgetPosition};

fn env(pairs: &[(&str, &str)]) -> Vec<(String, String)> {
    pairs.iter().map(|(k, v)| (k.to_string(), v.to_string())).collect()
}

#[test]
fn test_parse_bool() {
    assert_eq!(parse_bool("true"), Ok(true));
    assert_eq!(parse_bool("TRUE"), Ok(true));
    assert_eq!(parse_bool("1"), Ok(true));
    assert_eq!(parse_bool("yes"), Ok(true));
    assert_eq!(parse_bool("YES"), Ok(true));

    assert_eq!(parse_bool("false"), Ok(false));
    assert_eq!(parse_bool("FALSE"), Ok(false));
    assert_eq!(parse_bool("0"), Ok(false));
    assert_eq!(parse_bool("no"), Ok(false));
    assert_eq!(parse_bool("NO"), Ok(false));

    assert_eq!(parse_bool("invalid"), Err(()));
    assert_eq!(parse_bool(""), Err(()));
}

#[test]
fn test_env_vars_processed_once_with_multiple_theme_components() {
    let vars = env(&[
        ("TUIGREET_THEME", "border=red;text=blue;container=green"),
        ("TUIGREET_SESSIONS_DIRS", "/test:/usr/share"),
        ("TUIGREET_ALIGN_GREETING", "center"),
    ]);

    let config = load_env_variables(&vars);

    assert_eq!(config.theme.border, Some("red".to_string()));
    assert_eq!(config.theme.text, Some("blue".to_string()));
    assert_eq!(config.theme.container, Some("green".to_string()));

    assert_eq!(config.session.sessions_dirs, vec!["/test".to_string(), "/usr/share".to_string()]);
    assert_eq!(config.display.align_greeting, AlignGreeting::Center);
}

#[test]
fn test_cli_only_no_config() {
    let mut config = Config::default();

    let mut cli = Config::default();
    cli.keybindings.sessions = 5;

    apply_config_layer(&mut config, cli);

    assert_eq!(config.keybindings.sessions, 5);
}

#[test]
fn test_config_overrides_defaults() {
    let mut config = Config::default();

    let mut file_config = Config::default();
    file_config.keybindings.command = 3;

    apply_config_layer(&mut config, file_config);

    assert_eq!(config.keybindings.command, 3);
}

#[test]
fn test_user_overrides_system() {
    let mut config = Config::default();
    config.keybindings.command = 5;

    let mut user = Config::default();
    user.keybindings.command = 7;

    apply_config_layer(&mut config, user);

    assert_eq!(config.keybindings.command, 7);
}

#[test]
fn test_env_overrides_user() {
    let mut config = Config::default();
    config.keybindings.power = 10;

    let mut env = Config::default();
    env.keybindings.power = 8;

    apply_config_layer(&mut config, env);

    assert_eq!(config.keybindings.power, 8);
}

#[test]
fn test_cli_overrides_env() {
    let mut config = Config::default();
    config.keybindings.sessions = 3;

    let mut cli = Config::default();
    cli.keybindings.sessions = 9;

    apply_config_layer(&mut config, cli);

    assert_eq!(config.keybindings.sessions, 9);
}

#[test]
fn test_full_priority_chain() {
    let mut config = Config::default();
    assert_eq!(config.keybindings.command, 2);

    let mut system = Config::default();
    system.keybindings.command = 5;
    apply_config_layer(&mut config, system);
    assert_eq!(config.keybindings.command, 5);

    let mut user = Config::default();
    user.keybindings.command = 7;
    apply_config_layer(&mut config, user);
    assert_eq!(config.keybindings.command, 7);

    let mut env = Config::default();
    env.keybindings.command = 9;
    apply_config_layer(&mut config, env);
    assert_eq!(config.keybindings.command, 9);

    let mut cli = Config::default();
    cli.keybindings.command = 11;
    apply_config_layer(&mut config, cli);
    assert_eq!(config.keybindings.command, 11);
}

#[test]
fn test_lower_layer_preserved_when_higher_layer_uses_defaults() {
    let mut config = Config::default();
    config.keybindings.power = 10;
    config.display.show_time = true;
    config.remember.username = true;

    let mut user = Config::default();
    user.display.greeting = Some("hello".to_string());
    apply_config_layer(&mut config, user);

    assert_eq!(config.keybindings.power, 10, "system keybinding must survive");
    assert!(config.display.show_time, "system show_time must survive");
    assert!(config.remember.username, "system remember.username must survive");
    assert_eq!(config.display.greeting, Some("hello".to_string()));
}

#[test]
fn layering_a_default_config_changes_nothing() {
    let mut config = Config::default();
    config.keybindings.power = 7;
    config.session.command = Some("sway".to_string());
    apply_config_layer(&mut config, Config::default());
    assert_eq!(config.keybindings.power, 7);
    assert_eq!(config.session.command, Some("sway".to_string()));
    assert_eq!(config.keybindings.command, 2);
}

#[test]
fn layering_twice_is_layering_once() {
    let mut upper = Config::default();
    upper.layout.width = 100;
    upper.display.greeting = Some("hi".to_string());
    let mut once = Config::default();
    once.keybindings.command = 5;
    let mut twice = once.clone();
    apply_config_layer(&mut once, upper.clone());
    apply_config_layer(&mut twice, upper.clone());
    apply_config_layer(&mut twice, upper);
    assert_eq!(once.layout.width, twice.layout.width);
    assert_eq!(once.display.greeting, twice.display.greeting);
    assert_eq!(once.keybindings.command, twice.keybindings.command);
}

#[test]
fn env_values_that_do_not_parse_keep_defaults() {
    let vars = env(&[
        ("TUIGREET_WIDTH", "wide"),
        ("TUIGREET_KB_COMMAND", "13"),
        ("TUIGREET_TIME", "maybe"),
        ("TUIGREET_MIN_UID", "+500"),
    ]);
    let config = load_env_variables(&vars);
    assert_eq!(config.layout.width, 80);
    assert_eq!(config.keybindings.command, 2);
    assert!(!config.display.show_time);
    assert_eq!(config.user_menu.min_uid, 500);
}

#[test]
fn env_keywords_ignore_case() {
    let vars = env(&[
        ("TUIGREET_SECRET_MODE", "CHARACTERS"),
        ("TUIGREET_TIME_POSITION", "Top"),
        ("TUIGREET_TIME", "Yes"),
    ]);
    let config = load_env_variables(&vars);
    assert_eq!(config.secret.mode, SecretMode::Characters);
    assert_eq!(config.layout.widgets.time_position, WidgetPosition::Top);
    assert!(config.display.show_time);
}

#[test]
fn theme_spec_reads_components() {
    let theme = theme_from_spec("border=magenta;text=cyan;bogus=red;prompt=green");
    assert_eq!(theme.border, Some("magenta".to_string()));
    assert_eq!(theme.text, Some("cyan".to_string()));
    assert_eq!(theme.prompt, Some("green".to_string()));
    assert_eq!(theme.time, None);
}

#[test]
fn merged_sources_follow_priority() {
    let mut system = Config::default();
    system.keybindings.command = 5;
    system.layout.width = 90;
    let mut user = Config::default();
    user.keybindings.command = 7;
    let vars = env(&[("TUIGREET_KB_COMMAND", "9")]);
    let config = load_config(Some(system), Some(user), &vars, None);
    assert_eq!(config.keybindings.command, 9);
    assert_eq!(config.layout.width, 90);

    let none = load_config(None, None, &Vec::new(), None);
    assert_eq!(none.keybindings.command, 2);
    assert_eq!(none.layout.width, 80);
}

#[test]
fn documented_variable_names_are_read() {
    let vars = env(&[
        ("TUIGREET_COMMAND", "sway"),
        ("TUIGREET_MIN_UID", "1500"),
        ("TUIGREET_MAX_UID", "1600"),
        ("TUIGREET_REMEMBER_USERNAME", "true"),
        ("TUIGREET_USE_SETSID", "false"),
        ("TUIGREET_ENVIRONMENTS", "WAYLAND_DISPLAY: DISPLAY:"),
    ]);
    let config = load_env_variables(&vars);
    assert_eq!(config.session.command, Some("sway".to_string()));
    assert_eq!(config.user_menu.min_uid, 1500);
    assert_eq!(config.user_menu.max_uid, 1600);
    assert!(config.remember.username);
    assert!(!config.power.use_setsid);
    assert_eq!(config.session.environments, vec!["WAYLAND_DISPLAY".to_string(), "DISPLAY".to_string()]);
}

#[test]
fn named_config_file_is_layered_under_environment_and_command_line() {
    let mut file = Config::default();
    file.display.show_time = false;
    file.layout.width = 70;
    file.keybindings.command = 5;
    let vars = env(&[("TUIGREET_KB_COMMAND", "6")]);
    let m = parse_command_line(&vec!["--time".to_string()]).expect("parse");
    let config = load_config_file(file, &vars, Some(&m));
    assert!(config.display.show_time);
    assert_eq!(config.layout.width, 70);
    assert_eq!(config.keybindings.command, 6);
}

#[test]
fn rain_settings_are_not_read_from_the_command_line() {
    let m = parse_command_line(&vec!["--background".to_string(), "doom".to_string()]).expect("parse");
    let c = extract_cli_config(&m);
    assert_eq!(c.background.matrix.head_color, None);
    assert_eq!(c.background.matrix.min_length, None);
    assert!(parse_command_line(&vec!["--matrix-colors".to_string(), "a,b,c".to_string()]).is_err());
}
