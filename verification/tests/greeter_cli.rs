use tuigreet::cli::parse_command_line;
use tuigreet::config::args::extract_cli_config;
use tuigreet::config::schema::{AlignGreeting, Config, SecretMode, WidgetPosition};
use tuigreet::greeter::{Greeter, HostFacts, Labels, ParseAction, Remembered};
use tuigreet::types::{AuthStatus, GreetAlign, Mode, SecretDisplay};
use tuigreet::ui::bg_animation::{AnimationSpec, Color};
use tuigreet::ui::sessions::{Session, SessionSource, SessionType};
use tuigreet::ui::layout::{get_widget_position, status_bar_items, time_format, StatusLabels};
use tuigreet::ui::users::Account;

fn args(a: &[&str]) -> Vec<String> {
    a.iter().map(|s| s.to_string()).collect()
}

fn labels() -> Labels {
    Labels {
        title_users: "Users".to_string(),
        title_session: "Sessions".to_string(),
        title_power: "Power".to_string(),
        title_background: "Background".to_string(),
        background_none: "None".to_string(),
        shutdown: "Shut down".to_string(),
        reboot: "Reboot".to_string(),
    }
}

fn parse(greeter: &mut Greeter, a: &[&str]) -> Result<ParseAction, String> {
    greeter.parse_options(&args(a), &HostFacts::default(), &labels())
}

#[test]
fn test_prompt_width() {
    let mut greeter = Greeter::default();
    greeter.prompt = None;

    assert_eq!(greeter.prompt_width(), 0);

    greeter.prompt = Some("Hello:".into());

    assert_eq!(greeter.prompt_width(), 6);
}

#[test]
fn test_set_prompt() {
    let mut greeter = Greeter::default();

    greeter.set_prompt("Hello:");

    assert_eq!(greeter.prompt, Some("Hello: ".into()));

    greeter.set_prompt("Hello World: ");

    assert_eq!(greeter.prompt, Some("Hello World: ".into()));

    greeter.remove_prompt();

    assert_eq!(greeter.prompt, None);
}

#[test]
fn test_command_line_arguments() {
    let table: &[(&[&str], bool, Option<fn(&Greeter)>)] = &[
        (&[], true, None),
        (&["--cmd", "hello"], true, None),
        (
            &[
                "--cmd",
                "uname",
                "--env",
                "A=B",
                "--env",
                "C=D=E",
                "--asterisks",
                "--asterisks-char",
                ".",
                "--issue",
                "--time",
                "--prompt-padding",
                "0",
                "--window-padding",
                "1",
                "--container-padding",
                "12",
                "--user-menu",
            ],
            true,
            Some(|greeter| {
                assert!(
                    matches!(&greeter.session_source, SessionSource::DefaultCommand(cmd, Some(env)) if cmd == "uname" && env.len() == 2)
                );

                if let SessionSource::DefaultCommand(_, Some(env)) = &greeter.session_source {
                    assert_eq!(env[0], "A=B");
                    assert_eq!(env[1], "C=D=E");
                }

                assert!(matches!(&greeter.secret_display, SecretDisplay::Character(c) if c == "."));
                assert_eq!(greeter.prompt_padding(), 0);
                assert_eq!(greeter.window_padding(), 1);
                assert_eq!(greeter.container_padding(), 13);
                assert!(greeter.user_menu);
                assert!(matches!(greeter.xsession_wrapper.as_deref(), Some("startx")));
            }),
        ),
        (
            &["--xsession-wrapper", "mywrapper.sh"],
            true,
            Some(|greeter| {
                assert!(matches!(greeter.xsession_wrapper.as_deref(), Some("mywrapper.sh")));
            }),
        ),
        (
            &["--no-xsession-wrapper"],
            true,
            Some(|greeter| {
                assert!(greeter.xsession_wrapper.is_none());
            }),
        ),
        (&["--remember-session", "--remember-user-session"], false, None),
        (&["--asterisk-char", ""], false, None),
        (&["--remember-user-session"], false, None),
        (&["--min-uid", "10000", "--max-uid", "5000"], false, None),
        (&["--issue", "--greeting", "Hello, world!"], false, None),
        (&["--kb-command", "F2", "--kb-sessions", "F2"], false, None),
        (&["--time-format", "%i %"], false, None),
        (&["--cmd", "cmd", "--env"], false, None),
        (&["--cmd", "cmd", "--env", "A"], false, None),
    ];

    for (opts, valid, check) in table {
        let mut greeter = Greeter::default();

        match valid {
            true => {
                assert!(matches!(parse(&mut greeter, opts), Ok(ParseAction::Run)), "{opts:?} cannot be parsed");

                if let Some(check) = check {
                    check(&greeter);
                }
            },
            false => assert!(parse(&mut greeter, opts).is_err()),
        }
    }
}

#[test]
fn help_and_version_come_first() {
    let mut greeter = Greeter::default();
    assert_eq!(parse(&mut greeter, &["--issue", "--greeting", "x", "--help"]), Ok(ParseAction::Help));
    let mut greeter = Greeter::default();
    assert_eq!(parse(&mut greeter, &["-v"]), Ok(ParseAction::Version));
    assert!(greeter.config.is_some());
}

#[test]
fn refused_command_line_keeps_what_was_read_before_the_problem() {
    let mut greeter = Greeter::default();
    let result = parse(&mut greeter, &["--time", "--user", "joe", "--greeting", "hi", "--cmd", "x", "--env", "NOPE", "--sessions", "/s"]);
    assert_eq!(result, Err("malformed environment variable definition for 'NOPE'".to_string()));
    assert!(greeter.time);
    assert!(greeter.config.is_some());
    assert_eq!(greeter.default_user.as_deref(), Some("joe"));
    assert_eq!(greeter.greeting.as_deref(), Some("hi"));
    assert!(matches!(greeter.session_source, SessionSource::Unselected));
    assert!(greeter.session_paths.is_empty());

    let mut early = Greeter::default();
    let result = parse(&mut early, &["--debug", "--theme", "border=red", "--time", "--issue", "--greeting", "x"]);
    assert_eq!(result, Err("Only one of --issue and --greeting may be used at the same time".to_string()));
    assert!(early.debug);
    assert_eq!(early.theme.border, None);
    assert!(!early.time);

    let mut keys = Greeter::default();
    let result = parse(&mut keys, &["--kb-power", "3", "--background", "doom", "--cmd", "sh"]);
    assert_eq!(result, Err("keybindings must all be distinct".to_string()));
    assert_eq!(keys.kb_power, 3);
    assert!(matches!(&keys.session_source, SessionSource::DefaultCommand(c, None) if c == "sh"));
    assert!(keys.animation.is_none());
}

#[test]
fn error_messages_match_each_problem() {
    let cases: &[(&[&str], &str)] = &[
        (&["--issue", "--greeting", "x"], "Only one of --issue and --greeting may be used at the same time"),
        (&["--asterisks", "--asterisks-char", ""], "--asterisks-char must have at least one character as its value"),
        (&["--time-format", "%i %"], "Invalid strftime format provided in --time-format"),
        (&["--user-menu", "--user-menu-min-uid", "5000", "--user-menu-max-uid", "10"], "Minimum UID ({min_uid}) must not exceed maximum UID ({max_uid})"),
        (&["--remember-user-session"], "--remember-session must be used with --remember"),
        (&["--kb-power", "3"], "keybindings must all be distinct"),
    ];
    for (a, msg) in cases {
        let mut greeter = Greeter::default();
        assert_eq!(parse(&mut greeter, a), Err(msg.to_string()), "{a:?}");
    }
}

#[test]
fn switches_set_greeter_fields() {
    let mut greeter = Greeter::default();
    let r = parse(
        &mut greeter,
        &[
            "--debug", "--title", "--custom-title", "Hi", "--user", "joe", "--remember", "--remember-user-session",
            "--greeting", "hello", "--sessions", "/a:/b", "--xsessions", "/x", "--session-wrapper", "wrap",
            "--power-shutdown", "poweroff", "--power-no-setsid", "--kb-command", "5", "--mock",
            "--greet-align", "left", "--width", "100",
        ],
    );
    assert_eq!(r, Ok(ParseAction::Run));
    assert!(greeter.debug);
    assert_eq!(greeter.logfile, "/tmp/tuigreet.log");
    assert!(greeter.title.enable);
    assert_eq!(greeter.title.custom.as_deref(), Some("Hi"));
    assert_eq!(greeter.default_user.as_deref(), Some("joe"));
    assert!(greeter.remember && greeter.remember_user_session && !greeter.remember_session);
    assert_eq!(greeter.greeting.as_deref(), Some("hello"));
    let paths: Vec<(String, SessionType)> = greeter.session_paths.clone();
    assert_eq!(
        paths,
        vec![
            ("/a".to_string(), SessionType::Wayland),
            ("/b".to_string(), SessionType::Wayland),
            ("/x".to_string(), SessionType::X11)
        ]
    );
    assert_eq!(greeter.session_wrapper.as_deref(), Some("wrap"));
    assert_eq!(greeter.powers.options.len(), 2);
    assert_eq!(greeter.powers.options[0].label, "Shut down");
    assert_eq!(greeter.powers.options[0].command.as_deref(), Some("poweroff"));
    assert_eq!(greeter.powers.options[1].command, None);
    assert!(!greeter.power_setsid);
    assert_eq!(greeter.kb_command, 5);
    assert!(greeter.mock);
    assert_eq!(greeter.greet_align(), GreetAlign::Left);
    assert_eq!(greeter.width(), 100);
    assert_eq!(greeter.backgrounds.options.len(), 2);
    assert_eq!(greeter.backgrounds.selected, 0);
}

#[test]
fn debug_file_argument_and_issue_greeting() {
    let mut greeter = Greeter::default();
    let facts = HostFacts { login_defs: None, issue: Some("Welcome".to_string()), accounts: Vec::new() };
    let r = greeter.parse_options(&args(&["--debug=/var/log/g.log", "--issue"]), &facts, &labels());
    assert_eq!(r, Ok(ParseAction::Run));
    assert_eq!(greeter.logfile, "/var/log/g.log");
    assert_eq!(greeter.greeting.as_deref(), Some("Welcome"));
}

#[test]
fn user_menu_uses_login_defs_and_accounts() {
    let facts = HostFacts {
        login_defs: Some("# comment\nUID_MIN 2000\nUID_MAX\t 3000\n".to_string()),
        issue: None,
        accounts: vec![
            Account { uid: 1000, name: "alice".to_string(), gecos: "Alice".to_string() },
            Account { uid: 2500, name: "bob".to_string(), gecos: "Bob Builder,,,".to_string() },
            Account { uid: 3000, name: "carol".to_string(), gecos: String::new() },
        ],
    };
    let mut greeter = Greeter::default();
    let r = greeter.parse_options(&args(&["--user-menu"]), &facts, &labels());
    assert_eq!(r, Ok(ParseAction::Run));
    assert_eq!(greeter.users.title, "Users");
    assert_eq!(greeter.users.options.len(), 2);
    assert_eq!(greeter.users.options[0].username, "bob");
    assert_eq!(greeter.users.options[0].name.as_deref(), Some("Bob Builder"));
    assert_eq!(greeter.users.options[1].username, "carol");
    assert_eq!(greeter.users.options[1].name, None);
}

#[test]
fn background_from_command_line() {
    let mut greeter = Greeter::default();
    let r = parse(&mut greeter, &["--background", " Fire ", "--doom-height", "8", "--doom-colors", "red, #010203 ,bogus", "--background-fps", "10"]);
    assert_eq!(r, Ok(ParseAction::Run));
    match greeter.animation {
        Some(AnimationSpec::Doom(o)) => {
            assert_eq!(o.height, 8);
            assert_eq!(o.spread, 2);
            assert_eq!(o.top, Color::Red);
            assert_eq!(o.middle, Color::Rgb(1, 2, 3));
            assert_eq!(o.bottom, Color::Rgb(0x9F, 0x27, 0x07));
        },
        None => panic!("expected an animation"),
    }
    assert_eq!(greeter.animation_fps, Some(10));
    assert_eq!(greeter.frame_rate(), 10);
    assert_eq!(greeter.backgrounds.selected, 1);

    let mut plain = Greeter::default();
    assert_eq!(parse(&mut plain, &["--background", "none"]), Ok(ParseAction::Run));
    assert!(plain.animation.is_none());
    assert_eq!(plain.frame_rate(), 2);
}

#[test]
fn extract_cli_config_reads_options() {
    let m = parse_command_line(&args(&["--width", "120", "--asterisks", "--sessions", "/a::/b", "--greet-align", "right", "--kb-power", "300", "--doom-colors", "a,b"])).expect("parse");
    let c = extract_cli_config(&m);
    assert_eq!(c.layout.width, 120);
    assert_eq!(c.secret.mode, SecretMode::Characters);
    assert_eq!(c.session.sessions_dirs, vec!["/a".to_string(), String::new(), "/b".to_string()]);
    assert_eq!(c.display.align_greeting, AlignGreeting::Right);
    assert_eq!(c.keybindings.power, 12);
    assert_eq!(c.background.doom.top_color, None);
}

#[test]
fn unknown_option_is_a_parse_error() {
    assert!(parse_command_line(&args(&["--nope"])).is_err());
    let m = parse_command_line(&args(&["-t"])).expect("parse");
    assert!(m.opt_present("time"));
    assert!(!m.opt_present("no-such-option"));
}

#[test]
fn layout_values_fall_back_to_loaded_config_then_defaults() {
    let mut greeter = Greeter::default();
    assert_eq!(parse(&mut greeter, &[]), Ok(ParseAction::Run));
    assert_eq!(greeter.width(), 80);
    assert_eq!(greeter.window_padding(), 0);
    assert_eq!(greeter.container_padding(), 2);
    assert_eq!(greeter.prompt_padding(), 1);
    assert_eq!(greeter.greet_align(), GreetAlign::Center);
    let mut loaded = Config::default();
    loaded.layout.width = 60;
    loaded.layout.container_padding = Some(4);
    loaded.display.align_greeting = AlignGreeting::Right;
    greeter.loaded_config = Some(loaded);
    assert_eq!(greeter.width(), 60);
    assert_eq!(greeter.container_padding(), 5);
    assert_eq!(greeter.greet_align(), GreetAlign::Right);
}

#[test]
fn apply_config_sets_greeter() {
    let mut greeter = Greeter::default();
    assert_eq!(parse(&mut greeter, &["--no-xsession-wrapper"]), Ok(ParseAction::Run));
    let mut config = Config::default();
    config.general.debug = true;
    config.session.command = Some("sway".to_string());
    config.session.sessions_dirs = vec!["/w".to_string()];
    config.session.xsession_wrapper = Some("xinit".to_string());
    config.secret.mode = SecretMode::Characters;
    config.secret.characters = "#".to_string();
    config.keybindings.power = 11;
    config.background.kind = Some("doom".to_string());
    greeter.apply_config(&config, &HostFacts::default(), &labels());
    assert!(greeter.debug);
    assert!(matches!(&greeter.session_source, SessionSource::DefaultCommand(c, None) if c == "sway"));
    assert_eq!(greeter.session_paths, vec![("/w".to_string(), SessionType::Wayland)]);
    assert_eq!(greeter.xsession_wrapper, None);
    assert!(matches!(&greeter.secret_display, SecretDisplay::Character(c) if c == "#"));
    assert_eq!(greeter.kb_power, 11);
    assert!(greeter.animation.is_some());
    assert_eq!(greeter.animation_fps, Some(30));
    assert_eq!(greeter.backgrounds.selected, 1);
}

#[test]
fn background_selection_switches_animation() {
    let mut greeter = Greeter::default();
    greeter.populate_backgrounds_menu(&labels());
    greeter.backgrounds.selected = 1;
    greeter.apply_background_selection();
    assert!(matches!(greeter.animation, Some(AnimationSpec::Doom(_))));
    assert_eq!(greeter.animation_fps, Some(30));
    greeter.backgrounds.selected = 0;
    greeter.apply_background_selection();
    assert!(greeter.animation.is_none());
    assert_eq!(greeter.animation_fps, None);
    greeter.backgrounds.selected = 7;
    greeter.apply_background_selection();
    assert!(greeter.animation.is_none());
}

#[test]
fn scrub_and_reset_wipe_entries() {
    let mut greeter = Greeter::default();
    greeter.buffer = "secret".to_string();
    greeter.prompt = Some("Password: ".to_string());
    greeter.username.value = "joe".to_string();
    greeter.message = Some("bad".to_string());
    greeter.working = true;
    greeter.reset(true);
    assert_eq!(greeter.mode, Mode::Password);
    assert_eq!(greeter.buffer, "");
    assert_eq!(greeter.prompt, None);
    assert_eq!(greeter.username.value, "joe");
    assert_eq!(greeter.message.as_deref(), Some("bad"));
    assert!(!greeter.working);
    greeter.scrub(true, false);
    assert_eq!(greeter.username.value, "");
    assert_eq!(greeter.message, None);
}

fn session(name: &str, path: &str) -> Session {
    Session {
        slug: None,
        name: name.to_string(),
        command: name.to_lowercase(),
        session_type: SessionType::Wayland,
        path: Some(path.to_string()),
        xdg_desktop_names: None,
    }
}

#[test]
fn prepare_sessions_applies_remembered_choices() {
    let mut greeter = Greeter::default();
    assert_eq!(parse(&mut greeter, &["--remember", "--remember-user-session", "--user", "dflt"]), Ok(ParseAction::Run));
    let sessions = vec![session("Sway", "/s/sway.desktop"), session("Hypr", "/s/hypr.desktop")];
    let rem = Remembered {
        last_username: Some(" joe \n".to_string()),
        last_name: Some("Joe\n".to_string()),
        last_user_command: None,
        last_user_session: Some("/s/hypr.desktop\n".to_string()),
        last_command: None,
        last_session: None,
    };
    greeter.prepare_sessions(sessions, &rem, &labels());
    assert_eq!(greeter.username.value, "joe");
    assert_eq!(greeter.username.mask.as_deref(), Some("Joe"));
    assert_eq!(greeter.sessions.selected, 1);
    assert!(matches!(greeter.session_source, SessionSource::Session(1)));
    assert_eq!(greeter.sessions.title, "Sessions");
}

#[test]
fn prepare_sessions_defaults_and_mock() {
    let mut greeter = Greeter::default();
    assert_eq!(parse(&mut greeter, &["--mock", "--user", "ann"]), Ok(ParseAction::Run));
    greeter.prepare_sessions(Vec::new(), &Remembered::default(), &labels());
    assert_eq!(greeter.sessions.options.len(), 3);
    assert_eq!(greeter.sessions.options[0].name, "Mock Wayland");
    assert!(matches!(greeter.session_source, SessionSource::Session(0)));
    assert_eq!(greeter.username.value, "ann");
    assert_eq!(greeter.username.mask, None);

    let mut cmd = Greeter::default();
    assert_eq!(parse(&mut cmd, &["--remember-session"]), Ok(ParseAction::Run));
    let rem = Remembered { last_command: Some("  fish \n".to_string()), ..Remembered::default() };
    cmd.prepare_sessions(vec![session("Sway", "/s/sway.desktop")], &rem, &labels());
    assert!(matches!(&cmd.session_source, SessionSource::Command(c) if c == "fish"));
}

#[test]
fn start_requests_for_remembered_and_sole_user() {
    let mut greeter = Greeter::default();
    greeter.remember = true;
    greeter.username.value = "joe".to_string();
    greeter.user_menu = true;
    greeter.users.options = vec![tuigreet::ui::users::User { username: "ann".to_string(), name: Some("Ann".to_string()) }];
    let r = greeter.start_requests();
    assert_eq!(r, vec!["joe".to_string(), "ann".to_string()]);
    assert!(greeter.working);
    assert_eq!(greeter.username.value, "ann");
    assert_eq!(greeter.username.mask.as_deref(), Some("Ann"));

    let mut idle = Greeter::default();
    assert!(idle.start_requests().is_empty());
    assert!(!idle.working);
}

#[test]
fn exit_cancels_unless_success() {
    let mut greeter = Greeter::default();
    assert!(!greeter.prepare_exit(AuthStatus::Success));
    assert_eq!(greeter.exit, Some(AuthStatus::Success));
    assert!(greeter.prepare_exit(AuthStatus::Failure));
    assert!(greeter.prepare_exit(AuthStatus::Cancel));
    assert_eq!(greeter.exit, Some(AuthStatus::Cancel));
}

#[test]
fn stored_command_line_is_available() {
    let mut greeter = Greeter::default();
    assert_eq!(parse(&mut greeter, &["--cmd", "sh", "--env", "A=1", "--env", "B=2"]), Ok(ParseAction::Run));
    assert!(greeter.config().opt_present("cmd"));
    assert_eq!(greeter.option("cmd").as_deref(), Some("sh"));
    assert_eq!(greeter.options_multi("env"), Some(vec!["A=1".to_string(), "B=2".to_string()]));
    assert_eq!(greeter.options_multi("theme"), None);
}

#[test]
fn background_settings_pick_the_animation() {
    let mut greeter = Greeter::default();
    let mut config = Config::default();
    config.background.kind = Some("doom".to_string());
    config.background.doom.spread = Some(5);
    config.background.doom.bottom_color = Some("blue".to_string());
    greeter.set_background_from_config(&config.background);
    match greeter.animation {
        Some(AnimationSpec::Doom(o)) => {
            assert_eq!(o.height, 6);
            assert_eq!(o.spread, 5);
            assert_eq!(o.bottom, Color::Blue);
        },
        None => panic!("expected an animation"),
    }
    assert_eq!(greeter.animation_fps, Some(30));

    config.background.kind = Some("rain".to_string());
    greeter.set_background_from_config(&config.background);
    assert!(greeter.animation.is_none());
    assert_eq!(greeter.animation_fps, None);
}

#[test]
fn widget_positions_come_from_the_loaded_config() {
    let mut greeter = Greeter::default();
    assert_eq!(get_widget_position(&greeter, "time"), WidgetPosition::Default);
    let mut loaded = Config::default();
    loaded.layout.widgets.time_position = WidgetPosition::Top;
    loaded.layout.widgets.status_position = WidgetPosition::Hidden;
    greeter.loaded_config = Some(loaded);
    assert_eq!(get_widget_position(&greeter, "time"), WidgetPosition::Top);
    assert_eq!(get_widget_position(&greeter, "status"), WidgetPosition::Hidden);
    assert_eq!(get_widget_position(&greeter, "clock"), WidgetPosition::Default);
}

#[test]
fn apply_config_keeps_command_line_settings() {
    let mut greeter = Greeter::default();
    let r = parse(&mut greeter, &["--time", "--greeting", "hi", "--cmd", "sh", "--kb-power", "9", "--asterisks", "--no-xsession-wrapper"]);
    assert_eq!(r, Ok(ParseAction::Run));
    let mut config = Config::default();
    config.display.show_time = false;
    config.display.greeting = Some("from file".to_string());
    config.session.command = Some("sway".to_string());
    config.keybindings.power = 11;
    config.keybindings.sessions = 7;
    config.general.debug = true;
    greeter.apply_config(&config, &HostFacts::default(), &labels());
    assert!(greeter.time);
    assert_eq!(greeter.greeting.as_deref(), Some("hi"));
    assert!(matches!(&greeter.session_source, SessionSource::DefaultCommand(c, _) if c == "sh"));
    assert_eq!(greeter.kb_power, 9);
    assert_eq!(greeter.kb_sessions, 7);
    assert!(greeter.debug);
    assert!(matches!(&greeter.secret_display, SecretDisplay::Character(c) if c == "*"));
}

#[test]
fn apply_config_does_not_repeat_command_line_sessions() {
    let mut greeter = Greeter::default();
    assert_eq!(parse(&mut greeter, &["--sessions", "/cli", "--no-xsession-wrapper"]), Ok(ParseAction::Run));
    let mut config = Config::default();
    config.session.sessions_dirs = vec!["/cli".to_string()];
    config.session.xsessions_dirs = vec!["/x".to_string()];
    greeter.apply_config(&config, &HostFacts::default(), &labels());
    assert_eq!(
        greeter.session_paths,
        vec![("/cli".to_string(), SessionType::Wayland), ("/x".to_string(), SessionType::X11)]
    );
}

#[test]
fn apply_config_layers_command_line_background() {
    let mut greeter = Greeter::default();
    assert_eq!(parse(&mut greeter, &["--doom-height", "9"]), Ok(ParseAction::Run));
    assert!(greeter.animation.is_none());
    let mut config = Config::default();
    config.background.kind = Some("doom".to_string());
    greeter.apply_config(&config, &HostFacts::default(), &labels());
    match greeter.animation {
        Some(AnimationSpec::Doom(o)) => assert_eq!(o.height, 9),
        None => panic!("expected an animation"),
    }
}

#[test]
fn theme_from_config_and_command_line() {
    let mut greeter = Greeter::default();
    assert_eq!(parse(&mut greeter, &["--theme", "border=red;text=blue"]), Ok(ParseAction::Run));
    assert_eq!(greeter.theme.border.as_deref(), Some("red"));
    assert_eq!(greeter.theme.text.as_deref(), Some("blue"));
    let mut config = Config::default();
    config.theme.border = Some("green".to_string());
    config.theme.time = Some("yellow".to_string());
    greeter.apply_theme_config(&config.theme, Some("border=red"));
    assert_eq!(greeter.theme.border.as_deref(), Some("red"));
    assert_eq!(greeter.theme.time.as_deref(), Some("yellow"));
    assert_eq!(greeter.theme.text, None);
    greeter.apply_theme_config(&config.theme, None);
    assert_eq!(greeter.theme.border.as_deref(), Some("green"));
}

#[test]
fn status_bar_lists_shown_actions() {
    let mut greeter = Greeter::default();
    greeter.session_source = SessionSource::Command("bash".to_string());
    let bar = Config::default().layout.widgets.status_bar;
    let l = StatusLabels {
        reset: "Reset".to_string(),
        command: "Change command".to_string(),
        session: "Choose session".to_string(),
        power: "Power".to_string(),
        background: "Background".to_string(),
        status_session: "SESSION".to_string(),
        status_command: "CMD".to_string(),
        status_caps: "CAPS LOCK".to_string(),
    };
    let s = status_bar_items(&greeter, &bar, &l, true);
    let mut expected = Vec::new();
    if bar.show_reset {
        expected.push(("ESC".to_string(), "Reset".to_string()));
    }
    if bar.show_command {
        expected.push(("F2".to_string(), "Change command".to_string()));
    }
    if bar.show_session {
        expected.push(("F3".to_string(), "Choose session".to_string()));
    }
    if bar.show_power {
        expected.push(("F12".to_string(), "Power".to_string()));
    }
    if bar.show_background {
        expected.push(("F4".to_string(), "Background".to_string()));
    }
    if bar.show_session_status {
        expected.push(("CMD".to_string(), "bash".to_string()));
    }
    assert_eq!(s.left, expected);
    assert_eq!(s.caps, if bar.show_caps_lock { Some("CAPS LOCK".to_string()) } else { None });
    let none = status_bar_items(&Greeter::default(), &bar, &l, false);
    assert_eq!(none.caps, None);
    if bar.show_session_status {
        assert_eq!(none.left.last(), Some(&("CMD".to_string(), "-".to_string())));
    }
}

#[test]
fn time_line_format_falls_back_to_the_locale() {
    let mut greeter = Greeter::default();
    assert_eq!(time_format(&greeter, "%a %d %b"), "%a %d %b");
    greeter.time_format = Some("%H:%M".to_string());
    assert_eq!(time_format(&greeter, "%a %d %b"), "%H:%M");
}
