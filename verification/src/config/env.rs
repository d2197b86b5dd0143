//! Configuration from `TUIGREET_*` environment variables.
//!
//! The caller hands over the process environment as name/value pairs; this
//! module reads the settings out of them. Keyword values are compared without
//! regard to case. Every keyword is ASCII and holds no `k`, and the only
//! character whose lower case is an ASCII letter other than its own ASCII
//! form is the Kelvin sign (lower case `k`), so comparing the ASCII-lower-cased
//! value gives the same answer as comparing `str::to_lowercase` of it.
use vstd::prelude::*;

use crate::config::schema::{
    AlignGreeting, BackgroundConfig, Config, ConfigView, DisplayConfig, DisplayConfigView,
    GeneralConfig, GeneralConfigView, KeybindingsConfig, LayoutConfig, PowerConfig,
    PowerConfigView, RememberConfig, RememberConfigView, SecretConfig, SecretConfigView,
    SecretMode, SessionConfig, SessionConfigView, StatusBarConfig, ThemeConfig, ThemeConfigView,
    UserMenuConfig, WidgetPosition, WidgetsConfig, default_config,
};
use crate::output::TerminalConfig;
use crate::text::{
    chars_of, find, find_char, is_first, lower, lower_eq, parse_unsigned, parse_unsigned_range,
    range_eq, split_trim_nonempty, split_trimmed, string_from_chars, string_of_range, trim,
    trim_bounds,
};

verus! {

/// Environment variables as name/value pairs.
pub open spec fn env_view(env: Seq<(String, String)>) -> Seq<(Seq<char>, Seq<char>)> {
    env.map_values(|p: (String, String)| (p.0@, p.1@))
}

/// Value of the first variable named `name`.
pub open spec fn lookup(env: Seq<(Seq<char>, Seq<char>)>, name: Seq<char>) -> Option<Seq<char>> {
    if exists|i: int| 0 <= i < env.len() && env[i].0 == name {
        let i = choose|i: int|
            0 <= i < env.len() && env[i].0 == name && forall|j: int|
                0 <= j < i ==> env[j].0 != name;
        Some(env[i].1)
    } else {
        None
    }
}

/// Boolean a value denotes: `true`, `1`, `yes` or `false`, `0`, `no`, in any
/// case.
pub open spec fn spec_parse_bool(v: Seq<char>) -> Option<bool> {
    let l = lower(v);
    if l == "true"@ || l == "1"@ || l == "yes"@ {
        Some(true)
    } else if l == "false"@ || l == "0"@ || l == "no"@ {
        Some(false)
    } else {
        None
    }
}

/// Parse a boolean value from string
/// Accepts: "true", "1", "yes" for true; "false", "0", "no" for false
pub fn parse_bool(value: &str) -> (r: Result<bool, ()>)
    ensures
        r == (match spec_parse_bool(value@) {
            Some(b) => Ok::<bool, ()>(b),
            None => Err(()),
        }),
{
    let v = chars_of(value);
    if lower_eq(&v, "true") || lower_eq(&v, "1") || lower_eq(&v, "yes") {
        Ok(true)
    } else if lower_eq(&v, "false") || lower_eq(&v, "0") || lower_eq(&v, "no") {
        Ok(false)
    } else {
        Err(())
    }
}

/// The value of variable `name`, else `def`.
pub open spec fn env_string(env: Seq<(Seq<char>, Seq<char>)>, name: Seq<char>, def: Seq<char>) -> Seq<
    char,
> {
    match lookup(env, name) {
        Some(v) => v,
        None => def,
    }
}

/// The value of variable `name` as a set setting, else `def`.
pub open spec fn env_opt_string(
    env: Seq<(Seq<char>, Seq<char>)>,
    name: Seq<char>,
    def: Option<Seq<char>>,
) -> Option<Seq<char>> {
    match lookup(env, name) {
        Some(v) => Some(v),
        None => def,
    }
}

/// The boolean that variable `name` denotes, else `def`.
pub open spec fn env_bool(env: Seq<(Seq<char>, Seq<char>)>, name: Seq<char>, def: bool) -> bool {
    match lookup(env, name) {
        Some(v) => match spec_parse_bool(v) {
            Some(b) => b,
            None => def,
        },
        None => def,
    }
}

/// A number read from the variable, when it parses and fits under `max`.
pub open spec fn env_number(env: Seq<(Seq<char>, Seq<char>)>, name: Seq<char>, max: nat) -> Option<
    nat,
> {
    match lookup(env, name) {
        Some(v) => parse_unsigned(v, max),
        None => None,
    }
}

/// An F-key number read from the variable, when it lies in `1..=12`.
pub open spec fn env_fkey(env: Seq<(Seq<char>, Seq<char>)>, name: Seq<char>, def: u8) -> u8 {
    match env_number(env, name, 255) {
        Some(n) => if 1 <= n <= 12 {
            n as u8
        } else {
            def
        },
        None => def,
    }
}

/// A status bar flag: the value is `true` in any case.
pub open spec fn env_flag(env: Seq<(Seq<char>, Seq<char>)>, name: Seq<char>, def: bool) -> bool {
    match lookup(env, name) {
        Some(v) => lower(v) == "true"@,
        None => def,
    }
}

/// The non-empty trimmed pieces of the colon-separated variable `name`, else `def`.
pub open spec fn env_list(
    env: Seq<(Seq<char>, Seq<char>)>,
    name: Seq<char>,
    def: Seq<Seq<char>>,
) -> Seq<Seq<char>> {
    match lookup(env, name) {
        Some(v) => split_trim_nonempty(v, ':'),
        None => def,
    }
}

/// The alignment that `TUIGREET_ALIGN_GREETING` names, in any case, else `def`.
pub open spec fn env_align(env: Seq<(Seq<char>, Seq<char>)>, def: AlignGreeting) -> AlignGreeting {
    match lookup(env, "TUIGREET_ALIGN_GREETING"@) {
        Some(v) => if lower(v) == "left"@ {
            AlignGreeting::Left
        } else if lower(v) == "center"@ {
            AlignGreeting::Center
        } else if lower(v) == "right"@ {
            AlignGreeting::Right
        } else {
            def
        },
        None => def,
    }
}

/// The secret mode that `TUIGREET_SECRET_MODE` names, in any case, else `def`.
pub open spec fn env_secret_mode(env: Seq<(Seq<char>, Seq<char>)>, def: SecretMode) -> SecretMode {
    match lookup(env, "TUIGREET_SECRET_MODE"@) {
        Some(v) => if lower(v) == "hidden"@ {
            SecretMode::Hidden
        } else if lower(v) == "character"@ || lower(v) == "characters"@ {
            SecretMode::Characters
        } else {
            def
        },
        None => def,
    }
}

/// The widget position that variable `name` names, in any case, else `def`.
pub open spec fn env_position(
    env: Seq<(Seq<char>, Seq<char>)>,
    name: Seq<char>,
    def: WidgetPosition,
) -> WidgetPosition {
    match lookup(env, name) {
        Some(v) => if lower(v) == "default"@ {
            WidgetPosition::Default
        } else if lower(v) == "top"@ {
            WidgetPosition::Top
        } else if lower(v) == "bottom"@ {
            WidgetPosition::Bottom
        } else if lower(v) == "hidden"@ {
            WidgetPosition::Hidden
        } else {
            def
        },
        None => def,
    }
}

/// The color that one `component=color` part of a theme specification gives
/// the component `key`.
pub open spec fn theme_part(p: Seq<char>, key: Seq<char>) -> Option<Seq<char>> {
    match find(p, '=') {
        Some(j) => if trim(p.subrange(0, j)) == key {
            Some(trim(p.subrange(j + 1, p.len() as int)))
        } else {
            None
        },
        None => None,
    }
}

/// The color of component `key` after the `;`-separated parts of `s` have
/// been applied in order to `acc`: the last part that names `key` wins.
pub open spec fn theme_fold(s: Seq<char>, key: Seq<char>, acc: Option<Seq<char>>) -> Option<
    Seq<char>,
>
    decreases s.len(),
{
    if exists|i: int| is_first(s, ';', i) {
        let i = choose|i: int| is_first(s, ';', i);
        let acc2 = match theme_part(s.subrange(0, i), key) {
            Some(c) => Some(c),
            None => acc,
        };
        theme_fold(s.subrange(i + 1, s.len() as int), key, acc2)
    } else {
        match theme_part(s, key) {
            Some(c) => Some(c),
            None => acc,
        }
    }
}

/// The theme that a `TUIGREET_THEME` value (`border=red;text=blue;...`)
/// describes.
pub open spec fn spec_theme(s: Seq<char>) -> ThemeConfigView {
    ThemeConfigView {
        border: theme_fold(s, "border"@, None),
        text: theme_fold(s, "text"@, None),
        time: theme_fold(s, "time"@, None),
        container: theme_fold(s, "container"@, None),
        title: theme_fold(s, "title"@, None),
        greet: theme_fold(s, "greet"@, None),
        prompt: theme_fold(s, "prompt"@, None),
        input: theme_fold(s, "input"@, None),
        action: theme_fold(s, "action"@, None),
        button: theme_fold(s, "button"@, None),
    }
}

/// A theme component: its own variable, else what `TUIGREET_THEME` says.
pub open spec fn env_theme_component(
    env: Seq<(Seq<char>, Seq<char>)>,
    name: Seq<char>,
    key: Seq<char>,
) -> Option<Seq<char>> {
    match lookup(env, name) {
        Some(v) => Some(v),
        None => match lookup(env, "TUIGREET_THEME"@) {
            Some(t) => theme_fold(t, key, None),
            None => None,
        },
    }
}

/// The configuration that the environment `env` describes; every setting
/// whose variable is unset or invalid keeps its default.
pub open spec fn env_config(env: Seq<(Seq<char>, Seq<char>)>) -> ConfigView {
    let d = default_config();
    ConfigView {
        general: GeneralConfigView {
            debug: env_bool(env, "TUIGREET_DEBUG"@, d.general.debug),
            log_file: env_string(env, "TUIGREET_LOG_FILE"@, d.general.log_file),
        },
        session: SessionConfigView {
            command: env_opt_string(env, "TUIGREET_COMMAND"@, d.session.command),
            sessions_dirs: env_list(env, "TUIGREET_SESSIONS_DIRS"@, d.session.sessions_dirs),
            xsessions_dirs: env_list(env, "TUIGREET_XSESSIONS_DIRS"@, d.session.xsessions_dirs),
            session_wrapper: env_opt_string(
                env,
                "TUIGREET_SESSION_WRAPPER"@,
                d.session.session_wrapper,
            ),
            xsession_wrapper: env_opt_string(
                env,
                "TUIGREET_XSESSION_WRAPPER"@,
                d.session.xsession_wrapper,
            ),
            environments: env_list(env, "TUIGREET_ENVIRONMENTS"@, d.session.environments),
        },
        display: DisplayConfigView {
            show_time: env_bool(env, "TUIGREET_TIME"@, d.display.show_time),
            time_format: env_opt_string(env, "TUIGREET_TIME_FORMAT"@, d.display.time_format),
            greeting: env_opt_string(env, "TUIGREET_GREETING"@, d.display.greeting),
            show_title: env_bool(env, "TUIGREET_TITLE"@, d.display.show_title),
            custom_title: env_opt_string(env, "TUIGREET_CUSTOM_TITLE"@, d.display.custom_title),
            issue: env_bool(env, "TUIGREET_ISSUE"@, d.display.issue),
            align_greeting: env_align(env, d.display.align_greeting),
        },
        remember: RememberConfigView {
            default_user: d.remember.default_user,
            username: env_bool(env, "TUIGREET_REMEMBER_USERNAME"@, d.remember.username),
            session: env_bool(env, "TUIGREET_REMEMBER_SESSION"@, d.remember.session),
            user_session: env_bool(env, "TUIGREET_REMEMBER_USER_SESSION"@, d.remember.user_session),
        },
        user_menu: UserMenuConfig {
            enabled: env_bool(env, "TUIGREET_USER_MENU"@, d.user_menu.enabled),
            min_uid: match env_number(env, "TUIGREET_MIN_UID"@, 0xffff_ffff) {
                Some(n) => n as u32,
                None => d.user_menu.min_uid,
            },
            max_uid: match env_number(env, "TUIGREET_MAX_UID"@, 0xffff_ffff) {
                Some(n) => n as u32,
                None => d.user_menu.max_uid,
            },
        },
        secret: SecretConfigView {
            mode: env_secret_mode(env, d.secret.mode),
            characters: env_string(env, "TUIGREET_SECRET_CHARACTERS"@, d.secret.characters),
        },
        layout: LayoutConfig {
            width: match env_number(env, "TUIGREET_WIDTH"@, 0xffff) {
                Some(n) => n as u16,
                None => d.layout.width,
            },
            window_padding: match env_number(env, "TUIGREET_WINDOW_PADDING"@, 0xffff) {
                Some(n) => Some(n as u16),
                None => d.layout.window_padding,
            },
            container_padding: match env_number(env, "TUIGREET_CONTAINER_PADDING"@, 0xffff) {
                Some(n) => Some(n as u16),
                None => d.layout.container_padding,
            },
            prompt_padding: match env_number(env, "TUIGREET_PROMPT_PADDING"@, 0xffff) {
                Some(n) => Some(n as u16),
                None => d.layout.prompt_padding,
            },
            widgets: WidgetsConfig {
                time_position: env_position(
                    env,
                    "TUIGREET_TIME_POSITION"@,
                    d.layout.widgets.time_position,
                ),
                status_position: env_position(
                    env,
                    "TUIGREET_STATUS_POSITION"@,
                    d.layout.widgets.status_position,
                ),
                status_bar: StatusBarConfig {
                    show_reset: env_flag(
                        env,
                        "TUIGREET_STATUS_SHOW_RESET"@,
                        d.layout.widgets.status_bar.show_reset,
                    ),
                    show_command: env_flag(
                        env,
                        "TUIGREET_STATUS_SHOW_COMMAND"@,
                        d.layout.widgets.status_bar.show_command,
                    ),
                    show_session: env_flag(
                        env,
                        "TUIGREET_STATUS_SHOW_SESSION"@,
                        d.layout.widgets.status_bar.show_session,
                    ),
                    show_power: env_flag(
                        env,
                        "TUIGREET_STATUS_SHOW_POWER"@,
                        d.layout.widgets.status_bar.show_power,
                    ),
                    show_background: env_flag(
                        env,
                        "TUIGREET_STATUS_SHOW_BACKGROUND"@,
                        d.layout.widgets.status_bar.show_background,
                    ),
                    show_session_status: env_flag(
                        env,
                        "TUIGREET_STATUS_SHOW_SESSION_STATUS"@,
                        d.layout.widgets.status_bar.show_session_status,
                    ),
                    show_caps_lock: env_flag(
                        env,
                        "TUIGREET_STATUS_SHOW_CAPS_LOCK"@,
                        d.layout.widgets.status_bar.show_caps_lock,
                    ),
                },
            },
        },
        power: PowerConfigView {
            shutdown: env_opt_string(env, "TUIGREET_POWER_SHUTDOWN"@, d.power.shutdown),
            reboot: env_opt_string(env, "TUIGREET_POWER_REBOOT"@, d.power.reboot),
            use_setsid: env_bool(env, "TUIGREET_USE_SETSID"@, d.power.use_setsid),
        },
        keybindings: KeybindingsConfig {
            command: env_fkey(env, "TUIGREET_KB_COMMAND"@, d.keybindings.command),
            sessions: env_fkey(env, "TUIGREET_KB_SESSIONS"@, d.keybindings.sessions),
            power: env_fkey(env, "TUIGREET_KB_POWER"@, d.keybindings.power),
            background: d.keybindings.background,
        },
        background: d.background,
        theme: ThemeConfigView {
            border: env_theme_component(env, "TUIGREET_THEME_BORDER"@, "border"@),
            text: env_theme_component(env, "TUIGREET_THEME_TEXT"@, "text"@),
            time: env_theme_component(env, "TUIGREET_THEME_TIME"@, "time"@),
            container: env_theme_component(env, "TUIGREET_THEME_CONTAINER"@, "container"@),
            title: env_theme_component(env, "TUIGREET_THEME_TITLE"@, "title"@),
            greet: env_theme_component(env, "TUIGREET_THEME_GREET"@, "greet"@),
            prompt: env_theme_component(env, "TUIGREET_THEME_PROMPT"@, "prompt"@),
            input: env_theme_component(env, "TUIGREET_THEME_INPUT"@, "input"@),
            action: env_theme_component(env, "TUIGREET_THEME_ACTION"@, "action"@),
            button: env_theme_component(env, "TUIGREET_THEME_BUTTON"@, "button"@),
        },
        outputs: d.outputs,
        terminal: d.terminal,
    }
}

/// The value of the first variable named `name`.
pub fn env_lookup(env: &Vec<(String, String)>, name: &str) -> (r: Option<String>)
    ensures
        opt_seq(r) == lookup(env_view(env@), name@),
{
    let ghost e = env_view(env@);
    let mut i: usize = 0;
    while i < env.len()
        invariant
            i <= env@.len(),
            e == env_view(env@),
            forall|j: int| 0 <= j < i ==> e[j].0 != name@,
        decreases env@.len() - i,
    {
        let k = chars_of(env[i].0.as_str());
        let hit = range_eq(&k, 0, k.len(), name);
        assert(k@.subrange(0, k@.len() as int) =~= k@);
        if hit {
            proof {
                assert(e[i as int].0 == name@);
                let c = choose|c: int|
                    0 <= c < e.len() && e[c].0 == name@ && forall|j: int|
                        0 <= j < c ==> e[j].0 != name@;
                assert(c == i);
            }
            return Some(env[i].1.clone());
        }
        i = i + 1;
    }
    None
}

/// The characters of an optional string.
pub open spec fn opt_seq(o: Option<String>) -> Option<Seq<char>> {
    match o {
        Some(s) => Some(s@),
        None => None,
    }
}

fn get_string(env: &Vec<(String, String)>, name: &str, def: String) -> (r: String)
    ensures
        r@ == env_string(env_view(env@), name@, def@),
{
    match env_lookup(env, name) {
        Some(v) => v,
        None => def,
    }
}

fn get_opt_string(env: &Vec<(String, String)>, name: &str, def: Option<String>) -> (r: Option<
    String,
>)
    ensures
        opt_seq(r) == env_opt_string(env_view(env@), name@, opt_seq(def)),
{
    match env_lookup(env, name) {
        Some(v) => Some(v),
        None => def,
    }
}

fn get_bool(env: &Vec<(String, String)>, name: &str, def: bool) -> (r: bool)
    ensures
        r == env_bool(env_view(env@), name@, def),
{
    match env_lookup(env, name) {
        Some(v) => match parse_bool(v.as_str()) {
            Ok(b) => b,
            Err(_) => def,
        },
        None => def,
    }
}

fn get_number(env: &Vec<(String, String)>, name: &str, max: u64) -> (r: Option<u64>)
    ensures
        r == (match env_number(env_view(env@), name@, max as nat) {
            Some(n) => Some(n as u64),
            None => None,
        }),
{
    match env_lookup(env, name) {
        Some(v) => {
            let c = chars_of(v.as_str());
            assert(c@.subrange(0, c@.len() as int) =~= c@);
            parse_unsigned_range(&c, 0, c.len(), max)
        },
        None => None,
    }
}

fn get_fkey(env: &Vec<(String, String)>, name: &str, def: u8) -> (r: u8)
    ensures
        r == env_fkey(env_view(env@), name@, def),
{
    match get_number(env, name, 255) {
        Some(n) => if 1 <= n && n <= 12 {
            n as u8
        } else {
            def
        },
        None => def,
    }
}

fn get_flag(env: &Vec<(String, String)>, name: &str, def: bool) -> (r: bool)
    ensures
        r == env_flag(env_view(env@), name@, def),
{
    match env_lookup(env, name) {
        Some(v) => {
            let c = chars_of(v.as_str());
            lower_eq(&c, "true")
        },
        None => def,
    }
}

fn get_list(env: &Vec<(String, String)>, name: &str, def: Vec<String>) -> (r: Vec<String>)
    ensures
        crate::text::strings_view(r@) == env_list(
            env_view(env@),
            name@,
            crate::text::strings_view(def@),
        ),
{
    match env_lookup(env, name) {
        Some(v) => split_trimmed(v.as_str(), ':'),
        None => def,
    }
}

fn get_position(env: &Vec<(String, String)>, name: &str, def: WidgetPosition) -> (r:
    WidgetPosition)
    ensures
        r == env_position(env_view(env@), name@, def),
{
    match env_lookup(env, name) {
        Some(v) => {
            let c = chars_of(v.as_str());
            if lower_eq(&c, "default") {
                WidgetPosition::Default
            } else if lower_eq(&c, "top") {
                WidgetPosition::Top
            } else if lower_eq(&c, "bottom") {
                WidgetPosition::Bottom
            } else if lower_eq(&c, "hidden") {
                WidgetPosition::Hidden
            } else {
                def
            }
        },
        None => def,
    }
}

/// Apply the `component=color` part `v[start..end]` to `theme`.
#[verifier::rlimit(40)]
fn apply_theme_part(theme: &mut ThemeConfig, v: &Vec<char>, start: usize, end: usize)
    requires
        start <= end <= v@.len(),
    ensures
        ({
            let p = v@.subrange(start as int, end as int);
            let upd = |acc: Option<Seq<char>>, key: Seq<char>|
                match theme_part(p, key) {
                    Some(c) => Some(c),
                    None => acc,
                };
            &&& final(theme)@.border == upd(old(theme)@.border, "border"@)
            &&& final(theme)@.text == upd(old(theme)@.text, "text"@)
            &&& final(theme)@.time == upd(old(theme)@.time, "time"@)
            &&& final(theme)@.container == upd(old(theme)@.container, "container"@)
            &&& final(theme)@.title == upd(old(theme)@.title, "title"@)
            &&& final(theme)@.greet == upd(old(theme)@.greet, "greet"@)
            &&& final(theme)@.prompt == upd(old(theme)@.prompt, "prompt"@)
            &&& final(theme)@.input == upd(old(theme)@.input, "input"@)
            &&& final(theme)@.action == upd(old(theme)@.action, "action"@)
            &&& final(theme)@.button == upd(old(theme)@.button, "button"@)
        }),
{
    let ghost p = v@.subrange(start as int, end as int);
    let eq = match find_char(v, start, end, '=') {
        Some(j) => j,
        None => {
            return;
        },
    };
    let (ka, kb) = trim_bounds(v, start, start + eq);
    let (ca, cb) = trim_bounds(v, start + eq + 1, end);
    proof {
        assert(p.subrange(0, eq as int) =~= v@.subrange(start as int, start + eq));
        assert(p.subrange(eq + 1, p.len() as int) =~= v@.subrange(start + eq + 1, end as int));
    }
    let ghost key = v@.subrange(ka as int, kb as int);
    let ghost color = v@.subrange(ca as int, cb as int);
    let mut color_s: Vec<char> = Vec::new();
    let mut i = ca;
    while i < cb
        invariant
            ca <= i <= cb <= v@.len(),
            color_s@ == v@.subrange(ca as int, i as int),
        decreases cb - i,
    {
        color_s.push(v[i]);
        i = i + 1;
        assert(color_s@ =~= v@.subrange(ca as int, i as int));
    }
    let ghost old_theme = theme@;
    proof {
        reveal_strlit("border");
        reveal_strlit("text");
        reveal_strlit("time");
        reveal_strlit("container");
        reveal_strlit("title");
        reveal_strlit("greet");
        reveal_strlit("prompt");
        reveal_strlit("input");
        reveal_strlit("action");
        reveal_strlit("button");
        assert("text"@[1] != "time"@[1]);
        assert("title"@[0] != "greet"@[0]);
        assert("title"@[0] != "input"@[0]);
        assert("greet"@[0] != "input"@[0]);
        assert("border"@[0] != "prompt"@[0]);
        assert("border"@[0] != "action"@[0]);
        assert("border"@[1] != "button"@[1]);
        assert("prompt"@[0] != "action"@[0]);
        assert("prompt"@[0] != "button"@[0]);
        assert("action"@[0] != "button"@[0]);
        assert("title"@.len() != "text"@.len());
        assert("title"@.len() != "time"@.len());
        assert("title"@ != "border"@);
        assert("title"@ != "container"@);
        assert("title"@ != "text"@);
        assert("title"@ != "time"@);
    }
    assert forall|k: Seq<char>| theme_part(p, k) == (if key == k {
        Some(color)
    } else {
        None
    }) by {
        assert(find(p, '=') == Some(eq as int));
    }
    if range_eq(v, ka, kb, "border") {
        theme.border = Some(string_from_chars(&color_s));
    } else if range_eq(v, ka, kb, "text") {
        theme.text = Some(string_from_chars(&color_s));
    } else if range_eq(v, ka, kb, "time") {
        theme.time = Some(string_from_chars(&color_s));
    } else if range_eq(v, ka, kb, "container") {
        theme.container = Some(string_from_chars(&color_s));
    } else if range_eq(v, ka, kb, "title") {
        theme.title = Some(string_from_chars(&color_s));
    } else if range_eq(v, ka, kb, "greet") {
        theme.greet = Some(string_from_chars(&color_s));
    } else if range_eq(v, ka, kb, "prompt") {
        theme.prompt = Some(string_from_chars(&color_s));
    } else if range_eq(v, ka, kb, "input") {
        theme.input = Some(string_from_chars(&color_s));
    } else if range_eq(v, ka, kb, "action") {
        theme.action = Some(string_from_chars(&color_s));
    } else if range_eq(v, ka, kb, "button") {
        theme.button = Some(string_from_chars(&color_s));
    }
}

/// The theme that a `TUIGREET_THEME` value describes.
pub fn theme_from_spec(value: &str) -> (r: ThemeConfig)
    ensures
        r@ == spec_theme(value@),
{
    let v = chars_of(value);
    let n = v.len();
    let mut theme = ThemeConfig::default();
    let mut start: usize = 0;
    assert(v@.subrange(0, n as int) =~= value@);
    loop
        invariant
            v@ == value@,
            n == v@.len(),
            start <= n,
            ({
                let rest = v@.subrange(start as int, n as int);
                &&& theme_fold(value@, "border"@, None) == theme_fold(rest, "border"@, theme@.border)
                &&& theme_fold(value@, "text"@, None) == theme_fold(rest, "text"@, theme@.text)
                &&& theme_fold(value@, "time"@, None) == theme_fold(rest, "time"@, theme@.time)
                &&& theme_fold(value@, "container"@, None) == theme_fold(
                    rest,
                    "container"@,
                    theme@.container,
                )
                &&& theme_fold(value@, "title"@, None) == theme_fold(rest, "title"@, theme@.title)
                &&& theme_fold(value@, "greet"@, None) == theme_fold(rest, "greet"@, theme@.greet)
                &&& theme_fold(value@, "prompt"@, None) == theme_fold(rest, "prompt"@, theme@.prompt)
                &&& theme_fold(value@, "input"@, None) == theme_fold(rest, "input"@, theme@.input)
                &&& theme_fold(value@, "action"@, None) == theme_fold(rest, "action"@, theme@.action)
                &&& theme_fold(value@, "button"@, None) == theme_fold(rest, "button"@, theme@.button)
            }),
        decreases n - start,
    {
        let ghost rest = v@.subrange(start as int, n as int);
        match find_char(&v, start, n, ';') {
            Some(k) => {
                proof {
                    let i = choose|i: int| is_first(rest, ';', i);
                    assert(is_first(rest, ';', k as int));
                    assert(i == k);
                    assert(rest.subrange(0, k as int) =~= v@.subrange(start as int, start + k));
                    assert(rest.subrange(k + 1, rest.len() as int) =~= v@.subrange(
                        start + k + 1,
                        n as int,
                    ));
                }
                apply_theme_part(&mut theme, &v, start, start + k);
                start = start + k + 1;
            },
            None => {
                proof {
                    assert(!exists|i: int| is_first(rest, ';', i));
                }
                apply_theme_part(&mut theme, &v, start, n);
                return theme;
            },
        }
    }
}

fn get_theme_component(env: &Vec<(String, String)>, name: &str, from_spec: Option<String>) -> (r:
    Option<String>)
    ensures
        opt_seq(r) == (match lookup(env_view(env@), name@) {
            Some(v) => Some(v),
            None => opt_seq(from_spec),
        }),
{
    match env_lookup(env, name) {
        Some(v) => Some(v),
        None => from_spec,
    }
}

fn env_general(env: &Vec<(String, String)>) -> (r: GeneralConfig)
    ensures
        r@ == env_config(env_view(env@)).general,
{
    let d = GeneralConfig::default();
    GeneralConfig {
        debug: get_bool(env, "TUIGREET_DEBUG", d.debug),
        log_file: get_string(env, "TUIGREET_LOG_FILE", d.log_file),
    }
}

fn env_session(env: &Vec<(String, String)>) -> (r: SessionConfig)
    ensures
        r@ == env_config(env_view(env@)).session,
{
    let d = SessionConfig::default();
    SessionConfig {
        command: get_opt_string(env, "TUIGREET_COMMAND", d.command),
        sessions_dirs: get_list(env, "TUIGREET_SESSIONS_DIRS", d.sessions_dirs),
        xsessions_dirs: get_list(env, "TUIGREET_XSESSIONS_DIRS", d.xsessions_dirs),
        session_wrapper: get_opt_string(env, "TUIGREET_SESSION_WRAPPER", d.session_wrapper),
        xsession_wrapper: get_opt_string(env, "TUIGREET_XSESSION_WRAPPER", d.xsession_wrapper),
        environments: get_list(env, "TUIGREET_ENVIRONMENTS", d.environments),
    }
}

fn env_display(env: &Vec<(String, String)>) -> (r: DisplayConfig)
    ensures
        r@ == env_config(env_view(env@)).display,
{
    let d = DisplayConfig::default();
    let align = match env_lookup(env, "TUIGREET_ALIGN_GREETING") {
        Some(v) => {
            let c = chars_of(v.as_str());
            if lower_eq(&c, "left") {
                AlignGreeting::Left
            } else if lower_eq(&c, "center") {
                AlignGreeting::Center
            } else if lower_eq(&c, "right") {
                AlignGreeting::Right
            } else {
                d.align_greeting
            }
        },
        None => d.align_greeting,
    };
    DisplayConfig {
        show_time: get_bool(env, "TUIGREET_TIME", d.show_time),
        time_format: get_opt_string(env, "TUIGREET_TIME_FORMAT", d.time_format),
        greeting: get_opt_string(env, "TUIGREET_GREETING", d.greeting),
        show_title: get_bool(env, "TUIGREET_TITLE", d.show_title),
        custom_title: get_opt_string(env, "TUIGREET_CUSTOM_TITLE", d.custom_title),
        issue: get_bool(env, "TUIGREET_ISSUE", d.issue),
        align_greeting: align,
    }
}

fn env_remember(env: &Vec<(String, String)>) -> (r: RememberConfig)
    ensures
        r@ == env_config(env_view(env@)).remember,
{
    let d = RememberConfig::default();
    RememberConfig {
        default_user: d.default_user,
        username: get_bool(env, "TUIGREET_REMEMBER_USERNAME", d.username),
        session: get_bool(env, "TUIGREET_REMEMBER_SESSION", d.session),
        user_session: get_bool(env, "TUIGREET_REMEMBER_USER_SESSION", d.user_session),
    }
}

fn env_user_menu(env: &Vec<(String, String)>) -> (r: UserMenuConfig)
    ensures
        r == env_config(env_view(env@)).user_menu,
{
    let d = UserMenuConfig::default();
    let min_uid = match get_number(env, "TUIGREET_MIN_UID", 0xffff_ffff) {
        Some(n) => n as u32,
        None => d.min_uid,
    };
    let max_uid = match get_number(env, "TUIGREET_MAX_UID", 0xffff_ffff) {
        Some(n) => n as u32,
        None => d.max_uid,
    };
    UserMenuConfig { enabled: get_bool(env, "TUIGREET_USER_MENU", d.enabled), min_uid, max_uid }
}

fn env_secret(env: &Vec<(String, String)>) -> (r: SecretConfig)
    ensures
        r@ == env_config(env_view(env@)).secret,
{
    let d = SecretConfig::default();
    let mode = match env_lookup(env, "TUIGREET_SECRET_MODE") {
        Some(v) => {
            let c = chars_of(v.as_str());
            if lower_eq(&c, "hidden") {
                SecretMode::Hidden
            } else if lower_eq(&c, "character") || lower_eq(&c, "characters") {
                SecretMode::Characters
            } else {
                d.mode
            }
        },
        None => d.mode,
    };
    SecretConfig {
        mode,
        characters: get_string(env, "TUIGREET_SECRET_CHARACTERS", d.characters),
    }
}

fn env_status_bar(env: &Vec<(String, String)>) -> (r: StatusBarConfig)
    ensures
        r == env_config(env_view(env@)).layout.widgets.status_bar,
{
    let sb = StatusBarConfig::default();
    StatusBarConfig {
        show_reset: get_flag(env, "TUIGREET_STATUS_SHOW_RESET", sb.show_reset),
        show_command: get_flag(env, "TUIGREET_STATUS_SHOW_COMMAND", sb.show_command),
        show_session: get_flag(env, "TUIGREET_STATUS_SHOW_SESSION", sb.show_session),
        show_power: get_flag(env, "TUIGREET_STATUS_SHOW_POWER", sb.show_power),
        show_background: get_flag(env, "TUIGREET_STATUS_SHOW_BACKGROUND", sb.show_background),
        show_session_status: get_flag(
            env,
            "TUIGREET_STATUS_SHOW_SESSION_STATUS",
            sb.show_session_status,
        ),
        show_caps_lock: get_flag(env, "TUIGREET_STATUS_SHOW_CAPS_LOCK", sb.show_caps_lock),
    }
}

fn env_layout(env: &Vec<(String, String)>) -> (r: LayoutConfig)
    ensures
        r == env_config(env_view(env@)).layout,
{
    let d = LayoutConfig::default();
    let width = match get_number(env, "TUIGREET_WIDTH", 0xffff) {
        Some(n) => n as u16,
        None => d.width,
    };
    let window_padding = match get_number(env, "TUIGREET_WINDOW_PADDING", 0xffff) {
        Some(n) => Some(n as u16),
        None => d.window_padding,
    };
    let container_padding = match get_number(env, "TUIGREET_CONTAINER_PADDING", 0xffff) {
        Some(n) => Some(n as u16),
        None => d.container_padding,
    };
    let prompt_padding = match get_number(env, "TUIGREET_PROMPT_PADDING", 0xffff) {
        Some(n) => Some(n as u16),
        None => d.prompt_padding,
    };
    let widgets = WidgetsConfig {
        time_position: get_position(env, "TUIGREET_TIME_POSITION", d.widgets.time_position),
        status_position: get_position(env, "TUIGREET_STATUS_POSITION", d.widgets.status_position),
        status_bar: env_status_bar(env),
    };
    LayoutConfig { width, window_padding, container_padding, prompt_padding, widgets }
}

fn env_power(env: &Vec<(String, String)>) -> (r: PowerConfig)
    ensures
        r@ == env_config(env_view(env@)).power,
{
    let d = PowerConfig::default();
    PowerConfig {
        shutdown: get_opt_string(env, "TUIGREET_POWER_SHUTDOWN", d.shutdown),
        reboot: get_opt_string(env, "TUIGREET_POWER_REBOOT", d.reboot),
        use_setsid: get_bool(env, "TUIGREET_USE_SETSID", d.use_setsid),
    }
}

fn env_keybindings(env: &Vec<(String, String)>) -> (r: KeybindingsConfig)
    ensures
        r == env_config(env_view(env@)).keybindings,
{
    let d = KeybindingsConfig::default();
    KeybindingsConfig {
        command: get_fkey(env, "TUIGREET_KB_COMMAND", d.command),
        sessions: get_fkey(env, "TUIGREET_KB_SESSIONS", d.sessions),
        power: get_fkey(env, "TUIGREET_KB_POWER", d.power),
        background: d.background,
    }
}

fn env_theme(env: &Vec<(String, String)>) -> (r: ThemeConfig)
    ensures
        r@ == env_config(env_view(env@)).theme,
{
    let spec_theme = match env_lookup(env, "TUIGREET_THEME") {
        Some(t) => theme_from_spec(t.as_str()),
        None => ThemeConfig::default(),
    };
    ThemeConfig {
        border: get_theme_component(env, "TUIGREET_THEME_BORDER", spec_theme.border),
        text: get_theme_component(env, "TUIGREET_THEME_TEXT", spec_theme.text),
        time: get_theme_component(env, "TUIGREET_THEME_TIME", spec_theme.time),
        container: get_theme_component(env, "TUIGREET_THEME_CONTAINER", spec_theme.container),
        title: get_theme_component(env, "TUIGREET_THEME_TITLE", spec_theme.title),
        greet: get_theme_component(env, "TUIGREET_THEME_GREET", spec_theme.greet),
        prompt: get_theme_component(env, "TUIGREET_THEME_PROMPT", spec_theme.prompt),
        input: get_theme_component(env, "TUIGREET_THEME_INPUT", spec_theme.input),
        action: get_theme_component(env, "TUIGREET_THEME_ACTION", spec_theme.action),
        button: get_theme_component(env, "TUIGREET_THEME_BUTTON", spec_theme.button),
    }
}

/// Read the configuration that the `TUIGREET_*` variables of `env` describe.
///
/// Settings whose variable is unset, or holds a value that does not parse,
/// keep their defaults.
pub fn load_env_variables(env: &Vec<(String, String)>) -> (r: Config)
    ensures
        r@ == env_config(env_view(env@)),
{
    let d = Config::default();
    Config {
        general: env_general(env),
        session: env_session(env),
        display: env_display(env),
        remember: env_remember(env),
        user_menu: env_user_menu(env),
        secret: env_secret(env),
        layout: env_layout(env),
        power: env_power(env),
        keybindings: env_keybindings(env),
        background: d.background,
        theme: env_theme(env),
        outputs: d.outputs,
        terminal: d.terminal,
    }
}

/// Without any variable set, the environment gives the default
/// configuration.
pub proof fn lemma_empty_environment_is_default()
    ensures
        env_config(Seq::<(Seq<char>, Seq<char>)>::empty()) == default_config(),
{
    let e = Seq::<(Seq<char>, Seq<char>)>::empty();
    assert forall|n: Seq<char>| #[trigger] lookup(e, n) == None::<Seq<char>> by {}
}

/// Each `TUIGREET_*` variable sets its own setting: the value of the
/// variable, read as the setting's kind (a boolean, a text, a number, a
/// status-bar flag, an F-key), becomes the setting's value; without the
/// variable, or with a value that does not read, the setting keeps its
/// default.
pub proof fn lemma_variables_set_their_settings(env: Seq<(Seq<char>, Seq<char>)>)
    ensures
        match lookup(env, "TUIGREET_DEBUG"@) {
            Some(v) => match spec_parse_bool(v) {
                Some(b) => env_config(env).general.debug == b,
                None => env_config(env).general.debug == default_config().general.debug,
            },
            None => env_config(env).general.debug == default_config().general.debug,
        },
        match lookup(env, "TUIGREET_LOG_FILE"@) {
            Some(v) => env_config(env).general.log_file == v,
            None => env_config(env).general.log_file == default_config().general.log_file,
        },
        match lookup(env, "TUIGREET_COMMAND"@) {
            Some(v) => env_config(env).session.command == Some(v),
            None => env_config(env).session.command == default_config().session.command,
        },
        match lookup(env, "TUIGREET_SESSION_WRAPPER"@) {
            Some(v) => env_config(env).session.session_wrapper == Some(v),
            None => env_config(env).session.session_wrapper == default_config().session.session_wrapper,
        },
        match lookup(env, "TUIGREET_XSESSION_WRAPPER"@) {
            Some(v) => env_config(env).session.xsession_wrapper == Some(v),
            None => env_config(env).session.xsession_wrapper == default_config().session.xsession_wrapper,
        },
        match lookup(env, "TUIGREET_TIME"@) {
            Some(v) => match spec_parse_bool(v) {
                Some(b) => env_config(env).display.show_time == b,
                None => env_config(env).display.show_time == default_config().display.show_time,
            },
            None => env_config(env).display.show_time == default_config().display.show_time,
        },
        match lookup(env, "TUIGREET_TIME_FORMAT"@) {
            Some(v) => env_config(env).display.time_format == Some(v),
            None => env_config(env).display.time_format == default_config().display.time_format,
        },
        match lookup(env, "TUIGREET_GREETING"@) {
            Some(v) => env_config(env).display.greeting == Some(v),
            None => env_config(env).display.greeting == default_config().display.greeting,
        },
        match lookup(env, "TUIGREET_TITLE"@) {
            Some(v) => match spec_parse_bool(v) {
                Some(b) => env_config(env).display.show_title == b,
                None => env_config(env).display.show_title == default_config().display.show_title,
            },
            None => env_config(env).display.show_title == default_config().display.show_title,
        },
        match lookup(env, "TUIGREET_CUSTOM_TITLE"@) {
            Some(v) => env_config(env).display.custom_title == Some(v),
            None => env_config(env).display.custom_title == default_config().display.custom_title,
        },
        match lookup(env, "TUIGREET_ISSUE"@) {
            Some(v) => match spec_parse_bool(v) {
                Some(b) => env_config(env).display.issue == b,
                None => env_config(env).display.issue == default_config().display.issue,
            },
            None => env_config(env).display.issue == default_config().display.issue,
        },
        match lookup(env, "TUIGREET_REMEMBER_USERNAME"@) {
            Some(v) => match spec_parse_bool(v) {
                Some(b) => env_config(env).remember.username == b,
                None => env_config(env).remember.username == default_config().remember.username,
            },
            None => env_config(env).remember.username == default_config().remember.username,
        },
        match lookup(env, "TUIGREET_REMEMBER_SESSION"@) {
            Some(v) => match spec_parse_bool(v) {
                Some(b) => env_config(env).remember.session == b,
                None => env_config(env).remember.session == default_config().remember.session,
            },
            None => env_config(env).remember.session == default_config().remember.session,
        },
        match lookup(env, "TUIGREET_REMEMBER_USER_SESSION"@) {
            Some(v) => match spec_parse_bool(v) {
                Some(b) => env_config(env).remember.user_session == b,
                None => env_config(env).remember.user_session == default_config().remember.user_session,
            },
            None => env_config(env).remember.user_session == default_config().remember.user_session,
        },
        match lookup(env, "TUIGREET_USER_MENU"@) {
            Some(v) => match spec_parse_bool(v) {
                Some(b) => env_config(env).user_menu.enabled == b,
                None => env_config(env).user_menu.enabled == default_config().user_menu.enabled,
            },
            None => env_config(env).user_menu.enabled == default_config().user_menu.enabled,
        },
        match lookup(env, "TUIGREET_SECRET_CHARACTERS"@) {
            Some(v) => env_config(env).secret.characters == v,
            None => env_config(env).secret.characters == default_config().secret.characters,
        },
        match lookup(env, "TUIGREET_STATUS_SHOW_RESET"@) {
            Some(v) => env_config(env).layout.widgets.status_bar.show_reset == (lower(v) == "true"@),
            None => env_config(env).layout.widgets.status_bar.show_reset == default_config().layout.widgets.status_bar.show_reset,
        },
        match lookup(env, "TUIGREET_STATUS_SHOW_COMMAND"@) {
            Some(v) => env_config(env).layout.widgets.status_bar.show_command == (lower(v) == "true"@),
            None => env_config(env).layout.widgets.status_bar.show_command == default_config().layout.widgets.status_bar.show_command,
        },
        match lookup(env, "TUIGREET_STATUS_SHOW_SESSION"@) {
            Some(v) => env_config(env).layout.widgets.status_bar.show_session == (lower(v) == "true"@),
            None => env_config(env).layout.widgets.status_bar.show_session == default_config().layout.widgets.status_bar.show_session,
        },
        match lookup(env, "TUIGREET_STATUS_SHOW_POWER"@) {
            Some(v) => env_config(env).layout.widgets.status_bar.show_power == (lower(v) == "true"@),
            None => env_config(env).layout.widgets.status_bar.show_power == default_config().layout.widgets.status_bar.show_power,
        },
        match lookup(env, "TUIGREET_STATUS_SHOW_BACKGROUND"@) {
            Some(v) => env_config(env).layout.widgets.status_bar.show_background == (lower(v) == "true"@),
            None => env_config(env).layout.widgets.status_bar.show_background == default_config().layout.widgets.status_bar.show_background,
        },
        match lookup(env, "TUIGREET_STATUS_SHOW_SESSION_STATUS"@) {
            Some(v) => env_config(env).layout.widgets.status_bar.show_session_status == (lower(v) == "true"@),
            None => env_config(env).layout.widgets.status_bar.show_session_status == default_config().layout.widgets.status_bar.show_session_status,
        },
        match lookup(env, "TUIGREET_STATUS_SHOW_CAPS_LOCK"@) {
            Some(v) => env_config(env).layout.widgets.status_bar.show_caps_lock == (lower(v) == "true"@),
            None => env_config(env).layout.widgets.status_bar.show_caps_lock == default_config().layout.widgets.status_bar.show_caps_lock,
        },
        match lookup(env, "TUIGREET_POWER_SHUTDOWN"@) {
            Some(v) => env_config(env).power.shutdown == Some(v),
            None => env_config(env).power.shutdown == default_config().power.shutdown,
        },
        match lookup(env, "TUIGREET_POWER_REBOOT"@) {
            Some(v) => env_config(env).power.reboot == Some(v),
            None => env_config(env).power.reboot == default_config().power.reboot,
        },
        match lookup(env, "TUIGREET_USE_SETSID"@) {
            Some(v) => match spec_parse_bool(v) {
                Some(b) => env_config(env).power.use_setsid == b,
                None => env_config(env).power.use_setsid == default_config().power.use_setsid,
            },
            None => env_config(env).power.use_setsid == default_config().power.use_setsid,
        },
        match lookup(env, "TUIGREET_KB_COMMAND"@) {
            Some(v) => match parse_unsigned(v, 255) {
                Some(n) => env_config(env).keybindings.command == if 1 <= n <= 12 {
                    n as u8
                } else {
                    default_config().keybindings.command
                },
                None => env_config(env).keybindings.command == default_config().keybindings.command,
            },
            None => env_config(env).keybindings.command == default_config().keybindings.command,
        },
        match lookup(env, "TUIGREET_KB_SESSIONS"@) {
            Some(v) => match parse_unsigned(v, 255) {
                Some(n) => env_config(env).keybindings.sessions == if 1 <= n <= 12 {
                    n as u8
                } else {
                    default_config().keybindings.sessions
                },
                None => env_config(env).keybindings.sessions == default_config().keybindings.sessions,
            },
            None => env_config(env).keybindings.sessions == default_config().keybindings.sessions,
        },
        match lookup(env, "TUIGREET_KB_POWER"@) {
            Some(v) => match parse_unsigned(v, 255) {
                Some(n) => env_config(env).keybindings.power == if 1 <= n <= 12 {
                    n as u8
                } else {
                    default_config().keybindings.power
                },
                None => env_config(env).keybindings.power == default_config().keybindings.power,
            },
            None => env_config(env).keybindings.power == default_config().keybindings.power,
        },
        match lookup(env, "TUIGREET_MIN_UID"@) {
            Some(v) => match parse_unsigned(v, 0xffff_ffff) {
                Some(n) => env_config(env).user_menu.min_uid == n as u32,
                None => env_config(env).user_menu.min_uid == default_config().user_menu.min_uid,
            },
            None => env_config(env).user_menu.min_uid == default_config().user_menu.min_uid,
        },
        match lookup(env, "TUIGREET_MAX_UID"@) {
            Some(v) => match parse_unsigned(v, 0xffff_ffff) {
                Some(n) => env_config(env).user_menu.max_uid == n as u32,
                None => env_config(env).user_menu.max_uid == default_config().user_menu.max_uid,
            },
            None => env_config(env).user_menu.max_uid == default_config().user_menu.max_uid,
        },
        match lookup(env, "TUIGREET_WIDTH"@) {
            Some(v) => match parse_unsigned(v, 0xffff) {
                Some(n) => env_config(env).layout.width == n as u16,
                None => env_config(env).layout.width == default_config().layout.width,
            },
            None => env_config(env).layout.width == default_config().layout.width,
        },
        match lookup(env, "TUIGREET_WINDOW_PADDING"@) {
            Some(v) => match parse_unsigned(v, 0xffff) {
                Some(n) => env_config(env).layout.window_padding == Some(n as u16),
                None => env_config(env).layout.window_padding == default_config().layout.window_padding,
            },
            None => env_config(env).layout.window_padding == default_config().layout.window_padding,
        },
        match lookup(env, "TUIGREET_CONTAINER_PADDING"@) {
            Some(v) => match parse_unsigned(v, 0xffff) {
                Some(n) => env_config(env).layout.container_padding == Some(n as u16),
                None => env_config(env).layout.container_padding == default_config().layout.container_padding,
            },
            None => env_config(env).layout.container_padding == default_config().layout.container_padding,
        },
        match lookup(env, "TUIGREET_PROMPT_PADDING"@) {
            Some(v) => match parse_unsigned(v, 0xffff) {
                Some(n) => env_config(env).layout.prompt_padding == Some(n as u16),
                None => env_config(env).layout.prompt_padding == default_config().layout.prompt_padding,
            },
            None => env_config(env).layout.prompt_padding == default_config().layout.prompt_padding,
        },
{
}

} // verus!
