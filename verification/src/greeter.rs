//! The greeter's state and the decisions that shape it: reading the command
//! line, applying a configuration, choosing the background animation, and
//! the layout values the screen is drawn with.
use vstd::prelude::*;

use crate::cli::{
    CliMatches, OptMatchView, clone_strings, cli_options, getopts_parse, option_specs, parse_args, spec_opt_str,
    spec_opt_strs, spec_present,
};
use crate::config::args::{arg_number, cli_background, cli_background_of, cli_config, extract_cli_config};
use crate::config::layer::{apply_background_layer, apply_theme_layer, copy_background, copy_theme, layer_background, layer_theme};
use crate::config::env::{spec_theme, theme_from_spec};
use crate::config::schema::{
    AlignGreeting, BackgroundConfig, BackgroundConfigView, Config, ConfigView, SecretMode,
    ThemeConfig, ThemeConfigView, default_theme,
};
use crate::config::validate::{strftime_has_error, strftime_invalid};
use crate::info::{
    get_last_user_name, get_last_user_username, get_min_max_uids, is_mock_list, mock_sessions,
    spec_min_max_uids, spec_read_trimmed,
};
use crate::power::{Power, PowerOption};
use crate::text::{
    chars_of, copy_opt, find, find_char, opt_view, parse_unsigned, parse_unsigned_range,
    range_eq, split_map, split_pieces, strings_view, trim, trim_str,
};
use crate::types::{
    AuthStatus, DEFAULT_ASTERISKS_CHARS, DEFAULT_LOG_FILE, DEFAULT_XSESSION_WRAPPER, GreetAlign,
    Mode, SecretDisplay,
};
use crate::ui::background::{Background, options};
use crate::ui::bg_animation::{
    AnimationSpec, Color, Kind, doom, parse_color, spec_kind_from_name, spec_kinds,
    spec_parse_color,
};
use crate::ui::common::{MaskedString, Menu, zeroize_opt_string, zeroize_string};
use crate::ui::sessions::{
    Session, SessionSource, SessionType, SourceView, first_path_index, position_of_path,
};
use crate::ui::users::{Account, User, gecos_name, get_users, uid_in};

verus! {

/// Render rate while an animation runs, when none is configured.
pub const ANIMATION_DEFAULT_FPS: u32 = 30;

/// Base and lowest render rate.
pub const DEFAULT_FPS: u32 = 2;

/// How the container's title is shown.
#[derive(Debug, Clone)]
pub struct TitleOption {
    /// Display the container's title.
    pub enable: bool,
    /// Custom title text.
    pub custom: Option<String>,
}

impl Default for TitleOption {
    fn default() -> (r: Self)
        ensures
            r.enable,
            r.custom.is_none(),
    {
        TitleOption { enable: true, custom: None }
    }
}

/// Texts of the current locale that the greeter puts in its menus.
#[derive(Debug, Clone, Default)]
pub struct Labels {
    pub title_users: String,
    pub title_session: String,
    pub title_power: String,
    pub title_background: String,
    pub background_none: String,
    pub shutdown: String,
    pub reboot: String,
}

/// What the system offers that reading the command line may need: the
/// contents of `login.defs` and the rendered issue file (none when they
/// could not be read), and the user accounts.
#[derive(Debug, Clone, Default)]
pub struct HostFacts {
    pub login_defs: Option<String>,
    pub issue: Option<String>,
    pub accounts: Vec<Account>,
}

/// What the caller does once the command line is read.
#[derive(Debug, Clone, Copy, PartialEq, Eq, Structural)]
pub enum ParseAction {
    /// Start the greeter.
    Run,
    /// Print the usage text and exit.
    Help,
    /// Print the version and exit.
    Version,
}

/// Remembered choices of earlier runs: the contents of the cache files, none
/// for a file that could not be read. The per-user files are those of the
/// remembered username.
#[derive(Debug, Clone, Default)]
pub struct Remembered {
    pub last_username: Option<String>,
    pub last_name: Option<String>,
    pub last_user_command: Option<String>,
    pub last_user_session: Option<String>,
    pub last_command: Option<String>,
    pub last_session: Option<String>,
}

/// Core greeter state: authentication progress, UI state and session
/// selection.
#[derive(Debug)]
pub struct Greeter {
    pub debug: bool,
    pub logfile: String,
    /// The parsed command line.
    pub config: Option<CliMatches>,
    /// The configuration loaded from files, environment and command line.
    pub loaded_config: Option<Config>,
    pub socket: String,
    /// Current mode of the application, which defines the permitted actions.
    pub mode: Mode,
    /// Mode to return to when leaving the current one.
    pub previous_mode: Mode,
    /// Offset of the cursor from its base position in the current mode.
    pub cursor_offset: i16,
    /// Buffer saved while a transient screen uses the buffer.
    pub previous_buffer: Option<String>,
    /// Editing zone of the current mode.
    pub buffer: String,
    /// The selected session and how to resolve it.
    pub session_source: SessionSource,
    /// Directories of session files, with the type of their sessions.
    pub session_paths: Vec<(String, SessionType)>,
    pub sessions: Menu<Session>,
    /// Wrapper command prepended to non-X11 sessions.
    pub session_wrapper: Option<String>,
    /// Wrapper command prepended to X11 sessions.
    pub xsession_wrapper: Option<String>,
    pub user_menu: bool,
    pub users: Menu<User>,
    /// Username to pre-fill.
    pub default_user: Option<String>,
    /// Current username, masked to show the full name when known.
    pub username: MaskedString,
    /// Prompt asking for the current entry.
    pub prompt: Option<String>,
    /// Whether the current entry is hidden.
    pub asking_for_secret: bool,
    pub secret_display: SecretDisplay,
    /// Remember the last logged-in user.
    pub remember: bool,
    /// Remember the last launched session, whoever launched it.
    pub remember_session: bool,
    /// Remember the last launched session of each user.
    pub remember_user_session: bool,
    /// Display the current time.
    pub time: bool,
    pub time_format: Option<String>,
    /// Greeting shown above the prompt.
    pub greeting: Option<String>,
    pub title: TitleOption,
    /// Message of the current transaction.
    pub message: Option<String>,
    pub powers: Menu<Power>,
    /// Prefix power commands with `setsid`.
    pub power_setsid: bool,
    pub kb_command: u8,
    pub kb_sessions: u8,
    pub kb_power: u8,
    pub kb_background: u8,
    /// The background animation drawn behind the UI.
    pub animation: Option<AnimationSpec>,
    /// Render rate of the animation, when one runs.
    pub animation_fps: Option<u32>,
    /// Colors of the UI components, by name.
    pub theme: ThemeConfig,
    /// Skip greetd and fake the authentication locally.
    pub mock: bool,
    pub backgrounds: Menu<Background>,
    /// Waiting for greetd.
    pub working: bool,
    pub done: bool,
    /// Set when the greeter should exit.
    pub exit: Option<AuthStatus>,
}

/// A menu's title, its highlighted index and the number of its entries.
pub open spec fn menu_empty<T>(m: Menu<T>) -> bool {
    m.title@ == Seq::<char>::empty() && m.options@.len() == 0 && m.selected == 0
}

/// The state of a greeter that has not read anything yet.
pub open spec fn is_initial(g: Greeter) -> bool {
    &&& !g.debug
    &&& g.logfile@ == DEFAULT_LOG_FILE@
    &&& g.config.is_none()
    &&& g.loaded_config.is_none()
    &&& g.socket@ == Seq::<char>::empty()
    &&& g.mode == Mode::Username
    &&& g.previous_mode == Mode::Username
    &&& g.cursor_offset == 0
    &&& g.previous_buffer.is_none()
    &&& g.buffer@ == Seq::<char>::empty()
    &&& g.session_source is Unselected
    &&& g.session_paths@.len() == 0
    &&& menu_empty(g.sessions)
    &&& g.session_wrapper.is_none()
    &&& g.xsession_wrapper.is_none()
    &&& !g.user_menu
    &&& menu_empty(g.users)
    &&& g.default_user.is_none()
    &&& g.username.value@ == Seq::<char>::empty()
    &&& g.username.mask.is_none()
    &&& g.prompt.is_none()
    &&& !g.asking_for_secret
    &&& g.secret_display is Hidden
    &&& !g.remember
    &&& !g.remember_session
    &&& !g.remember_user_session
    &&& !g.time
    &&& g.time_format.is_none()
    &&& g.greeting.is_none()
    &&& g.title.enable
    &&& g.title.custom.is_none()
    &&& g.message.is_none()
    &&& menu_empty(g.powers)
    &&& !g.power_setsid
    &&& g.kb_command == 2
    &&& g.kb_sessions == 3
    &&& g.kb_power == 12
    &&& g.kb_background == 4
    &&& g.animation.is_none()
    &&& g.animation_fps.is_none()
    &&& g.theme@ == default_theme()
    &&& !g.mock
    &&& menu_empty(g.backgrounds)
    &&& !g.working
    &&& !g.done
    &&& g.exit.is_none()
}

fn empty_menu<T>() -> (r: Menu<T>)
    ensures
        menu_empty(r),
{
    Menu { title: String::new(), options: Vec::new(), selected: 0 }
}

impl Default for Greeter {
    fn default() -> (r: Self)
        ensures
            is_initial(r),
    {
        Greeter {
            debug: false,
            logfile: String::from_str(DEFAULT_LOG_FILE),
            config: None,
            loaded_config: None,
            socket: String::new(),
            mode: Mode::Username,
            previous_mode: Mode::Username,
            cursor_offset: 0,
            previous_buffer: None,
            buffer: String::new(),
            session_source: SessionSource::Unselected,
            session_paths: Vec::new(),
            sessions: empty_menu(),
            session_wrapper: None,
            xsession_wrapper: None,
            user_menu: false,
            users: empty_menu(),
            default_user: None,
            username: MaskedString { value: String::new(), mask: None },
            prompt: None,
            asking_for_secret: false,
            secret_display: SecretDisplay::Hidden,
            remember: false,
            remember_session: false,
            remember_user_session: false,
            time: false,
            time_format: None,
            greeting: None,
            title: TitleOption::default(),
            message: None,
            powers: empty_menu(),
            power_setsid: false,
            kb_command: 2,
            kb_sessions: 3,
            kb_power: 12,
            kb_background: 4,
            animation: None,
            animation_fps: None,
            theme: ThemeConfig::default(),
            mock: false,
            backgrounds: empty_menu(),
            working: false,
            done: false,
            exit: None,
        }
    }
}

/// A number from option `name` that parses as a `u16`.
pub open spec fn cli_u16(m: Seq<OptMatchView>, name: Seq<char>) -> Option<u16> {
    match arg_number(m, name, 0xffff) {
        Some(n) => Some(n as u16),
        None => None,
    }
}

/// A number from option `name` that parses as a `u32`.
pub open spec fn cli_u32(m: Seq<OptMatchView>, name: Seq<char>) -> Option<u32> {
    match arg_number(m, name, 0xffff_ffff) {
        Some(n) => Some(n as u32),
        None => None,
    }
}

/// An F-key number from option `name`: `def` when the option is absent, 0
/// when its value does not parse as a `u8`.
pub open spec fn cli_key(m: Seq<OptMatchView>, name: Seq<char>, def: u8) -> u8 {
    match spec_opt_str(m, name) {
        None => def,
        Some(v) => match parse_unsigned(v, 0xff) {
            Some(n) => n as u8,
            None => 0,
        },
    }
}

/// The four F-keys the command line selects: command, sessions, power and
/// background.
pub open spec fn cli_keys(m: Seq<OptMatchView>) -> (u8, u8, u8, u8) {
    (
        cli_key(m, "kb-command"@, 2),
        cli_key(m, "kb-sessions"@, 3),
        cli_key(m, "kb-power"@, 12),
        cli_key(m, "kb-background"@, 4),
    )
}

/// Whether the four F-keys differ from each other.
pub open spec fn keys_all_distinct(k: (u8, u8, u8, u8)) -> bool {
    &&& k.0 != k.1
    &&& k.0 != k.2
    &&& k.0 != k.3
    &&& k.1 != k.2
    &&& k.1 != k.3
    &&& k.2 != k.3
}

/// The UID range of the user menu that the command line and `login.defs`
/// select.
pub open spec fn cli_uid_range(m: Seq<OptMatchView>, login_defs: Option<Seq<char>>) -> (u32, u32) {
    spec_min_max_uids(cli_u32(m, "user-menu-min-uid"@), cli_u32(m, "user-menu-max-uid"@), login_defs)
}

/// The first of `envs` that holds no `=`.
pub open spec fn first_bad_env(envs: Seq<Seq<char>>) -> Option<Seq<char>>
    decreases envs.len(),
{
    if envs.len() == 0 {
        None
    } else if find(envs[0], '=').is_none() {
        Some(envs[0])
    } else {
        first_bad_env(envs.drop_first())
    }
}

/// Message for `--issue` together with `--greeting`.
pub open spec fn err_issue_greeting() -> Seq<char> {
    "Only one of --issue and --greeting may be used at the same time"@
}

/// Message for an empty `--asterisks-char`.
pub open spec fn err_empty_asterisks() -> Seq<char> {
    "--asterisks-char must have at least one character as its value"@
}

/// Message for an invalid `--time-format`.
pub open spec fn err_time_format() -> Seq<char> {
    "Invalid strftime format provided in --time-format"@
}

/// Message for a UID range whose minimum exceeds its maximum.
pub open spec fn err_uid_range() -> Seq<char> {
    "Minimum UID ({min_uid}) must not exceed maximum UID ({max_uid})"@
}

/// Message for `--remember-session` together with `--remember-user-session`.
pub open spec fn err_remember_both() -> Seq<char> {
    "Only one of --remember-session and --remember-user-session may be used at the same time"@
}

/// Message for `--remember-user-session` without `--remember`.
pub open spec fn err_remember_user_session() -> Seq<char> {
    "--remember-session must be used with --remember"@
}

/// Message for two menus on one F-key.
pub open spec fn err_keys() -> Seq<char> {
    "keybindings must all be distinct"@
}

/// Message for an `--env` value without `=`.
pub open spec fn err_env(env: Seq<char>) -> Seq<char> {
    "malformed environment variable definition for '"@ + env + "'"@
}

/// The first problem of the command line `m`, in the order the greeter
/// checks them, or none.
pub open spec fn cli_error(m: Seq<OptMatchView>, login_defs: Option<Seq<char>>) -> Option<
    Seq<char>,
> {
    if spec_present(m, "issue"@) && spec_present(m, "greeting"@) {
        Some(err_issue_greeting())
    } else if spec_present(m, "asterisks"@) && (spec_opt_str(m, "asterisks-char"@) matches Some(v)
        && v.len() == 0) {
        Some(err_empty_asterisks())
    } else if spec_opt_str(m, "time-format"@) matches Some(f) && strftime_has_error(f) {
        Some(err_time_format())
    } else if spec_present(m, "user-menu"@) && cli_uid_range(m, login_defs).0 > cli_uid_range(
        m,
        login_defs,
    ).1 {
        Some(err_uid_range())
    } else if spec_present(m, "remember-session"@) && spec_present(m, "remember-user-session"@) {
        Some(err_remember_both())
    } else if spec_present(m, "remember-user-session"@) && !spec_present(m, "remember"@) {
        Some(err_remember_user_session())
    } else if spec_opt_str(m, "cmd"@) is Some && spec_present(m, "env"@) && first_bad_env(
        spec_opt_strs(m, "env"@),
    ) is Some {
        Some(err_env(first_bad_env(spec_opt_strs(m, "env"@))->0))
    } else if !keys_all_distinct(cli_keys(m)) {
        Some(err_keys())
    } else {
        None
    }
}

/// `c` if it names a color, else `fallback`.
pub open spec fn color_or(c: Option<Seq<char>>, fallback: Color) -> Color {
    match c {
        Some(s) => match spec_parse_color(s) {
            Some(x) => x,
            None => fallback,
        },
        None => fallback,
    }
}

/// The animation and render rate that background settings select: the
/// named kind with each setting given or its default, or nothing for a
/// missing or unknown kind.
pub open spec fn background_choice(cfg: BackgroundConfigView) -> (Option<AnimationSpec>, Option<u32>) {
    let d = doom::default_options();
    match cfg.kind {
        Some(k) => match spec_kind_from_name(k) {
            Some(Kind::Doom) => (
                Some(
                    AnimationSpec::Doom(
                        doom::Options {
                            height: match cfg.doom.height {
                                Some(h) => h,
                                None => d.height,
                            },
                            spread: match cfg.doom.spread {
                                Some(s) => s,
                                None => d.spread,
                            },
                            top: color_or(cfg.doom.top_color, d.top),
                            middle: color_or(cfg.doom.middle_color, d.middle),
                            bottom: color_or(cfg.doom.bottom_color, d.bottom),
                        },
                    ),
                ),
                Some(
                    match cfg.fps {
                        Some(f) => f,
                        None => ANIMATION_DEFAULT_FPS,
                    },
                ),
            ),
            None => (None, None),
        },
        None => (None, None),
    }
}

/// `b` is the background menu with title `title`, a "None" entry labelled
/// `none_label` and every registered kind, with the first kind highlighted
/// when an animation runs.
pub open spec fn backgrounds_menu(
    b: Menu<Background>,
    title: Seq<char>,
    none_label: Seq<char>,
    animating: bool,
) -> bool {
    &&& b.title@ == title
    &&& b.options@.len() == spec_kinds().len() + 1
    &&& b.options@[0].kind.is_none()
    &&& b.options@[0].label@ == none_label
    &&& forall|i: int|
        0 <= i < spec_kinds().len() ==> (#[trigger] b.options@[i + 1]).kind == Some(
            spec_kinds()[i].0,
        ) && b.options@[i + 1].label@ == spec_kinds()[i].2
    &&& b.selected == if animating {
        1usize
    } else {
        0usize
    }
}

/// `users` are the accounts with a UID in `min_uid..=max_uid`, each with the
/// full name from its GECOS field.
pub open spec fn users_of(accounts: Seq<Account>, min_uid: u32, max_uid: u32, users: Seq<User>) -> bool {
    let a = accounts.filter(uid_in(min_uid, max_uid));
    &&& users.len() == a.len()
    &&& forall|i: int|
        0 <= i < users.len() ==> (#[trigger] users[i]).username@ == a[i].name@ && opt_view(
            users[i].name,
        ) == gecos_name(a[i].gecos@)
}

/// Session directories of one type.
pub open spec fn typed_dirs(dirs: Seq<Seq<char>>, t: SessionType) -> Seq<(Seq<char>, SessionType)> {
    dirs.map_values(|d: Seq<char>| (d, t))
}

/// The session directories as text, with their session types.
pub open spec fn paths_view(p: Seq<(String, SessionType)>) -> Seq<(Seq<char>, SessionType)> {
    p.map_values(|e: (String, SessionType)| (e.0@, e.1))
}

/// The directories that option `name` lists, split at `:`.
pub open spec fn cli_dirs(m: Seq<OptMatchView>, name: Seq<char>) -> Seq<Seq<char>> {
    match spec_opt_str(m, name) {
        Some(v) => split_map(v, ':', false),
        None => Seq::empty(),
    }
}

/// The fields that the switches of a command line set are those of `a`.
pub open spec fn same_switch_fields(a: Greeter, b: Greeter) -> bool {
    same_display_fields(a, b) && same_user_fields(a, b)
}

/// The session fields are those of `a`.
pub open spec fn same_session_fields(a: Greeter, b: Greeter) -> bool {
    &&& b.session_source == a.session_source
    &&& b.session_paths == a.session_paths
    &&& b.session_wrapper == a.session_wrapper
    &&& b.xsession_wrapper == a.xsession_wrapper
}

/// The power and F-key fields are those of `a`.
pub open spec fn same_control_fields(a: Greeter, b: Greeter) -> bool {
    &&& b.powers == a.powers
    &&& b.power_setsid == a.power_setsid
    &&& b.kb_command == a.kb_command
    &&& b.kb_sessions == a.kb_sessions
    &&& b.kb_power == a.kb_power
    &&& b.kb_background == a.kb_background
    &&& b.theme == a.theme
}

/// The fields that reading the command line leaves alone are those of `a`.
pub open spec fn same_runtime_state(a: Greeter, b: Greeter) -> bool {
    &&& b.loaded_config == a.loaded_config
    &&& b.socket == a.socket
    &&& b.mode == a.mode
    &&& b.previous_mode == a.previous_mode
    &&& b.cursor_offset == a.cursor_offset
    &&& b.previous_buffer == a.previous_buffer
    &&& b.buffer == a.buffer
    &&& b.sessions == a.sessions
    &&& b.username == a.username
    &&& b.prompt == a.prompt
    &&& b.asking_for_secret == a.asking_for_secret
    &&& b.message == a.message
    &&& b.working == a.working
    &&& b.done == a.done
    &&& b.exit == a.exit
}

/// `s` is the secret display that `--asterisks` selects, if it occurred,
/// else `old`.
pub open spec fn cli_secret(m: Seq<OptMatchView>, old: SecretDisplay, s: SecretDisplay) -> bool {
    if spec_present(m, "asterisks"@) {
        s matches SecretDisplay::Character(c) && c@ == match spec_opt_str(m, "asterisks-char"@) {
            Some(v) => v,
            None => DEFAULT_ASTERISKS_CHARS@,
        }
    } else {
        s == old
    }
}

/// `s` is the session source that `--cmd` and `--env` select, if `--cmd`
/// occurred, else `old`.
pub open spec fn cli_source(m: Seq<OptMatchView>, old: SessionSource, s: SessionSource) -> bool {
    match spec_opt_str(m, "cmd"@) {
        Some(c) => s matches SessionSource::DefaultCommand(cmd, envs) && cmd@ == c && (if spec_present(
            m,
            "env"@,
        ) {
            envs matches Some(e) && strings_view(e@) == spec_opt_strs(m, "env"@)
        } else {
            envs.is_none()
        }),
        None => s == old,
    }
}

/// `p` is `old` followed by the shutdown and reboot entries.
pub open spec fn cli_powers(m: Seq<OptMatchView>, labels: Labels, old: Menu<Power>, p: Menu<Power>) -> bool {
    &&& p.title == old.title
    &&& p.selected == old.selected
    &&& p.options@.len() == old.options@.len() + 2
    &&& forall|i: int| 0 <= i < old.options@.len() ==> #[trigger] p.options@[i] == old.options@[i]
    &&& p.options@[old.options@.len() as int].action == PowerOption::Shutdown
    &&& p.options@[old.options@.len() as int].label@ == labels.shutdown@
    &&& opt_view(p.options@[old.options@.len() as int].command) == spec_opt_str(m, "power-shutdown"@)
    &&& p.options@[old.options@.len() as int + 1].action == PowerOption::Reboot
    &&& p.options@[old.options@.len() as int + 1].label@ == labels.reboot@
    &&& opt_view(p.options@[old.options@.len() as int + 1].command) == spec_opt_str(m, "power-reboot"@)
}

/// The display fields are those of `a`.
pub open spec fn same_display_fields(a: Greeter, b: Greeter) -> bool {
    &&& b.mock == a.mock
    &&& b.debug == a.debug
    &&& b.logfile == a.logfile
    &&& b.secret_display == a.secret_display
    &&& b.time == a.time
    &&& b.time_format == a.time_format
    &&& b.title == a.title
}

/// The user fields are those of `a`.
pub open spec fn same_user_fields(a: Greeter, b: Greeter) -> bool {
    &&& b.user_menu == a.user_menu
    &&& b.users == a.users
    &&& b.default_user == a.default_user
    &&& b.remember == a.remember
    &&& b.remember_session == a.remember_session
    &&& b.remember_user_session == a.remember_user_session
    &&& b.greeting == a.greeting
}

/// Reading `--mock` and `--debug`: the settings of `g` they select, from `o`.
pub open spec fn read_log(o: Greeter, g: Greeter, m: Seq<OptMatchView>) -> bool {
    &&& g.mock == spec_present(m, "mock"@)
    &&& g.debug == (spec_present(m, "debug"@) || o.debug)
    &&& g.logfile@ == if spec_present(m, "debug"@) {
        match spec_opt_str(m, "debug"@) {
            Some(f) => f,
            None => DEFAULT_LOG_FILE@,
        }
    } else {
        o.logfile@
    }
}

/// Reading `--asterisks` and `--time`.
pub open spec fn read_secret(o: Greeter, g: Greeter, m: Seq<OptMatchView>) -> bool {
    &&& cli_secret(m, o.secret_display, g.secret_display)
    &&& g.time == spec_present(m, "time"@)
}

/// Reading `--time-format`, `--title`, `--custom-title` and whether
/// `--user-menu` asks for the user menu.
pub open spec fn read_title(o: Greeter, g: Greeter, m: Seq<OptMatchView>) -> bool {
    &&& opt_view(g.time_format) == match spec_opt_str(m, "time-format"@) {
        Some(f) => Some(f),
        None => opt_view(o.time_format),
    }
    &&& g.title.enable == spec_present(m, "title"@)
    &&& opt_view(g.title.custom) == match spec_opt_str(m, "custom-title"@) {
        Some(t) => Some(t),
        None => opt_view(o.title.custom),
    }
    &&& g.user_menu == (spec_present(m, "user-menu"@) || o.user_menu)
}

/// Reading the users of the menu that `--user-menu` asks for.
pub open spec fn read_users(o: Greeter, g: Greeter, m: Seq<OptMatchView>, facts: HostFacts, labels: Labels) -> bool {
    let range = cli_uid_range(m, opt_view(facts.login_defs));
    if spec_present(m, "user-menu"@) {
        &&& g.users.title@ == labels.title_users@
        &&& g.users.selected == 0
        &&& users_of(facts.accounts@, range.0, range.1, g.users.options@)
    } else {
        g.users == o.users
    }
}

/// Reading `--user` and the remember switches.
pub open spec fn read_remember(g: Greeter, m: Seq<OptMatchView>) -> bool {
    &&& opt_view(g.default_user) == spec_opt_str(m, "user"@)
    &&& g.remember == spec_present(m, "remember"@)
    &&& g.remember_session == spec_present(m, "remember-session"@)
    &&& g.remember_user_session == spec_present(m, "remember-user-session"@)
}

/// Reading the session, power and F-key options.
pub open spec fn read_sessions(o: Greeter, g: Greeter, m: Seq<OptMatchView>, labels: Labels) -> bool {
    &&& cli_source(m, o.session_source, g.session_source)
    &&& paths_view(g.session_paths@) == paths_view(o.session_paths@) + typed_dirs(
        cli_dirs(m, "sessions"@),
        SessionType::Wayland,
    ) + typed_dirs(cli_dirs(m, "xsessions"@), SessionType::X11)
    &&& opt_view(g.session_wrapper) == match spec_opt_str(m, "session-wrapper"@) {
        Some(w) => Some(w),
        None => opt_view(o.session_wrapper),
    }
    &&& opt_view(g.xsession_wrapper) == if spec_present(m, "no-xsession-wrapper"@) {
        opt_view(o.xsession_wrapper)
    } else {
        match spec_opt_str(m, "xsession-wrapper"@) {
            Some(w) => Some(w),
            None => Some(DEFAULT_XSESSION_WRAPPER@),
        }
    }
    &&& cli_powers(m, labels, o.powers, g.powers)
    &&& g.power_setsid == !spec_present(m, "power-no-setsid"@)
    &&& (g.kb_command, g.kb_sessions, g.kb_power, g.kb_background) == cli_keys(m)
}

/// The theme that `--theme` describes, else `old`.
pub open spec fn cli_theme(m: Seq<OptMatchView>, old: ThemeConfigView) -> ThemeConfigView {
    match spec_opt_str(m, "theme"@) {
        Some(t) => spec_theme(t),
        None => old,
    }
}

/// Reading the background options.
pub open spec fn read_background(g: Greeter, m: Seq<OptMatchView>, labels: Labels) -> bool {
    let bg = background_choice(cli_config(m).background);
    &&& g.animation == bg.0
    &&& g.animation_fps == bg.1
    &&& backgrounds_menu(g.backgrounds, labels.title_background@, labels.background_none@, bg.0 is Some)
}

/// `g` is `o` after the greeter has read the command line `m` up to step
/// `n`, in the order it reads it: (1) `--mock` and `--debug`, (2) the
/// theme, (3) the secret display and `--time`, (4) the time format, the
/// title and the user-menu switch, (5) the users of the menu, (6) the
/// default user, the remember switches and `--greeting`, (7) the sessions,
/// `--issue`, the power entries and the F-keys, (8) the background. Every
/// setting of a later step is that of `o`; the stored command line is not
/// part of it.
pub open spec fn read_upto(o: Greeter, g: Greeter, m: Seq<OptMatchView>, facts: HostFacts, labels: Labels, n: nat) -> bool {
    &&& if n >= 1 {
        read_log(o, g, m)
    } else {
        g.mock == o.mock && g.debug == o.debug && g.logfile == o.logfile
    }
    &&& if n >= 2 {
        g.theme@ == cli_theme(m, o.theme@)
    } else {
        g.theme == o.theme
    }
    &&& if n >= 3 {
        read_secret(o, g, m)
    } else {
        g.secret_display == o.secret_display && g.time == o.time
    }
    &&& if n >= 4 {
        read_title(o, g, m)
    } else {
        g.time_format == o.time_format && g.title == o.title && g.user_menu == o.user_menu
    }
    &&& if n >= 5 {
        read_users(o, g, m, facts, labels)
    } else {
        g.users == o.users
    }
    &&& if n >= 6 {
        read_remember(g, m)
    } else {
        &&& g.default_user == o.default_user
        &&& g.remember == o.remember
        &&& g.remember_session == o.remember_session
        &&& g.remember_user_session == o.remember_user_session
    }
    &&& if n >= 7 {
        opt_view(g.greeting) == if spec_present(m, "issue"@) {
            opt_view(facts.issue)
        } else {
            spec_opt_str(m, "greeting"@)
        }
    } else if n >= 6 {
        opt_view(g.greeting) == spec_opt_str(m, "greeting"@)
    } else {
        g.greeting == o.greeting
    }
    &&& if n >= 7 {
        read_sessions(o, g, m, labels)
    } else {
        &&& g.session_source == o.session_source
        &&& g.session_paths == o.session_paths
        &&& g.session_wrapper == o.session_wrapper
        &&& g.xsession_wrapper == o.xsession_wrapper
        &&& g.powers == o.powers
        &&& g.power_setsid == o.power_setsid
        &&& g.kb_command == o.kb_command
        &&& g.kb_sessions == o.kb_sessions
        &&& g.kb_power == o.kb_power
        &&& g.kb_background == o.kb_background
    }
    &&& if n >= 8 {
        read_background(g, m, labels)
    } else {
        g.animation == o.animation && g.animation_fps == o.animation_fps && g.backgrounds == o.backgrounds
    }
    &&& same_runtime_state(o, g)
}

/// The step of reading the command line `m` at which the greeter stops:
/// the step after which its first problem is found (see [`read_upto`]), or
/// the last step, when it has none.
pub open spec fn cli_error_stage(m: Seq<OptMatchView>, login_defs: Option<Seq<char>>) -> nat {
    if spec_present(m, "issue"@) && spec_present(m, "greeting"@) {
        1
    } else if spec_present(m, "asterisks"@) && (spec_opt_str(m, "asterisks-char"@) matches Some(v)
        && v.len() == 0) {
        2
    } else if spec_opt_str(m, "time-format"@) matches Some(f) && strftime_has_error(f) {
        3
    } else if spec_present(m, "user-menu"@) && cli_uid_range(m, login_defs).0 > cli_uid_range(
        m,
        login_defs,
    ).1 {
        4
    } else if spec_present(m, "remember-session"@) && spec_present(m, "remember-user-session"@) {
        5
    } else if spec_present(m, "remember-user-session"@) && !spec_present(m, "remember"@) {
        5
    } else if spec_opt_str(m, "cmd"@) is Some && spec_present(m, "env"@) && first_bad_env(
        spec_opt_strs(m, "env"@),
    ) is Some {
        6
    } else if !keys_all_distinct(cli_keys(m)) {
        7
    } else {
        8
    }
}

/// `g` is `o` after reading the valid command line `m`.
pub open spec fn cli_applied(o: Greeter, g: Greeter, m: Seq<OptMatchView>, facts: HostFacts, labels: Labels) -> bool {
    &&& g.config matches Some(c) && c@ == m
    &&& read_upto(o, g, m, facts, labels, 8)
}

/// `r` and `g` are the outcome of reading the parsed command line `m` into
/// the greeter `o`: `--help` and `--version` come first and change nothing
/// but the stored command line; a command line with a problem is refused
/// with the first problem's message, the greeter keeping what it read
/// before it found the problem; otherwise every setting that an option
/// names is taken from it.
pub open spec fn matches_outcome(
    o: Greeter,
    g: Greeter,
    m: Seq<OptMatchView>,
    facts: HostFacts,
    labels: Labels,
    r: Result<ParseAction, String>,
) -> bool {
    &&& g.config matches Some(c) && c@ == m
    &&& if spec_present(m, "help"@) || spec_present(m, "version"@) {
        &&& r == Ok::<ParseAction, String>(
            if spec_present(m, "help"@) {
                ParseAction::Help
            } else {
                ParseAction::Version
            },
        )
        &&& read_upto(o, g, m, facts, labels, 0)
    } else {
        &&& read_upto(o, g, m, facts, labels, cli_error_stage(m, opt_view(facts.login_defs)))
        &&& match cli_error(m, opt_view(facts.login_defs)) {
            Some(e) => r matches Err(x) && x@ == e,
            None => r == Ok::<ParseAction, String>(ParseAction::Run),
        }
    }
}

/// The first of `envs` that holds no `=`.
fn find_bad_env(envs: &Vec<String>) -> (r: Option<usize>)
    ensures
        match r {
            Some(i) => i < envs@.len() && first_bad_env(strings_view(envs@)) == Some(envs@[i as int]@),
            None => first_bad_env(strings_view(envs@)).is_none(),
        },
{
    let ghost all = strings_view(envs@);
    let mut i: usize = 0;
    assert(all.skip(0) =~= all);
    while i < envs.len()
        invariant
            all == strings_view(envs@),
            i <= envs@.len(),
            first_bad_env(all) == first_bad_env(all.skip(i as int)),
        decreases envs@.len() - i,
    {
        let v = chars_of(envs[i].as_str());
        assert(v@.subrange(0, v@.len() as int) =~= v@);
        let has = find_char(&v, 0, v.len(), '=');
        proof {
            assert(all.skip(i as int)[0] == envs@[i as int]@);
            assert(all.skip(i as int).drop_first() =~= all.skip(i + 1));
        }
        if has.is_none() {
            return Some(i);
        }
        i = i + 1;
    }
    proof {
        assert(all.skip(i as int).len() == 0);
    }
    None
}

/// The F-key number of option `name`: `def` when absent, 0 when it does not
/// parse.
fn key_of(m: &CliMatches, name: &str, def: u8) -> (r: u8)
    ensures
        r == cli_key(m@, name@, def),
{
    match m.opt_str(name) {
        None => def,
        Some(v) => {
            let c = chars_of(v.as_str());
            assert(c@.subrange(0, c@.len() as int) =~= c@);
            match parse_unsigned_range(&c, 0, c.len(), 0xff) {
                Some(n) => n as u8,
                None => 0,
            }
        },
    }
}

/// A `u32` from option `name`, when it parses.
fn u32_of(m: &CliMatches, name: &str) -> (r: Option<u32>)
    ensures
        r == cli_u32(m@, name@),
{
    match m.opt_str(name) {
        None => None,
        Some(v) => {
            let c = chars_of(v.as_str());
            assert(c@.subrange(0, c@.len() as int) =~= c@);
            match parse_unsigned_range(&c, 0, c.len(), 0xffff_ffff) {
                Some(n) => Some(n as u32),
                None => None,
            }
        },
    }
}

/// A `u16` from option `name`, when it parses.
fn u16_of(m: &CliMatches, name: &str) -> (r: Option<u16>)
    ensures
        r == cli_u16(m@, name@),
{
    match m.opt_str(name) {
        None => None,
        Some(v) => {
            let c = chars_of(v.as_str());
            assert(c@.subrange(0, c@.len() as int) =~= c@);
            match parse_unsigned_range(&c, 0, c.len(), 0xffff) {
                Some(n) => Some(n as u16),
                None => None,
            }
        },
    }
}

/// The problem with the command line `m`, if any.
fn check_cli(m: &CliMatches, facts: &HostFacts) -> (r: (u8, Option<String>))
    ensures
        r.0 == cli_error_stage(m@, opt_view(facts.login_defs)),
        match r.1 {
            Some(e) => cli_error(m@, opt_view(facts.login_defs)) == Some(e@),
            None => cli_error(m@, opt_view(facts.login_defs)).is_none(),
        },
{
    if m.opt_present("issue") && m.opt_present("greeting") {
        return (1, Some(String::from_str("Only one of --issue and --greeting may be used at the same time")));
    }
    if m.opt_present("asterisks") {
        if let Some(v) = m.opt_str("asterisks-char") {
            if v.unicode_len() == 0 {
                return (2, Some(String::from_str("--asterisks-char must have at least one character as its value")));
            }
        }
    }
    if let Some(f) = m.opt_str("time-format") {
        if strftime_invalid(f.as_str()) {
            return (3, Some(String::from_str("Invalid strftime format provided in --time-format")));
        }
    }
    if m.opt_present("user-menu") {
        let (lo, hi) = get_min_max_uids(
            u32_of(m, "user-menu-min-uid"),
            u32_of(m, "user-menu-max-uid"),
            &facts.login_defs,
        );
        if lo > hi {
            return (4, Some(String::from_str("Minimum UID ({min_uid}) must not exceed maximum UID ({max_uid})")));
        }
    }
    if m.opt_present("remember-session") && m.opt_present("remember-user-session") {
        return (5, Some(String::from_str("Only one of --remember-session and --remember-user-session may be used at the same time")));
    }
    if m.opt_present("remember-user-session") && !m.opt_present("remember") {
        return (5, Some(String::from_str("--remember-session must be used with --remember")));
    }
    if m.opt_str("cmd").is_some() && m.opt_present("env") {
        let envs = m.opt_strs("env");
        if let Some(i) = find_bad_env(&envs) {
            let mut e = String::from_str("malformed environment variable definition for '");
            e.append(envs[i].as_str());
            e.append("'");
            return (6, Some(e));
        }
    }
    let k0 = key_of(m, "kb-command", 2);
    let k1 = key_of(m, "kb-sessions", 3);
    let k2 = key_of(m, "kb-power", 12);
    let k3 = key_of(m, "kb-background", 4);
    if k0 == k1 || k0 == k2 || k0 == k3 || k1 == k2 || k1 == k3 || k2 == k3 {
        return (7, Some(String::from_str("keybindings must all be distinct")));
    }
    (8, None)
}

/// `c` if it names a color, else `fallback`.
fn color_or_default(c: &Option<String>, fallback: Color) -> (r: Color)
    ensures
        r == color_or(opt_view(*c), fallback),
{
    match c {
        Some(s) => match parse_color(s.as_str()) {
            Some(x) => x,
            None => fallback,
        },
        None => fallback,
    }
}

/// Session directories of type `t`, appended to `paths`.
fn push_dirs(paths: &mut Vec<(String, SessionType)>, dirs: Vec<String>, t: SessionType)
    ensures
        paths_view(final(paths)@) == paths_view(old(paths)@) + typed_dirs(strings_view(dirs@), t),
{
    let ghost start = paths_view(paths@);
    let mut i: usize = 0;
    while i < dirs.len()
        invariant
            i <= dirs@.len(),
            paths_view(paths@) == start + typed_dirs(strings_view(dirs@.take(i as int)), t),
        decreases dirs@.len() - i,
    {
        let ghost before = paths_view(paths@);
        paths.push((dirs[i].clone(), t));
        proof {
            assert(paths_view(paths@) =~= before.push((dirs@[i as int]@, t)));
            assert(strings_view(dirs@.take(i + 1)) =~= strings_view(dirs@.take(i as int)).push(
                dirs@[i as int]@,
            ));
            assert(typed_dirs(strings_view(dirs@.take(i + 1)), t) =~= typed_dirs(
                strings_view(dirs@.take(i as int)),
                t,
            ).push((dirs@[i as int]@, t)));
        }
        i = i + 1;
    }
    assert(dirs@.take(dirs@.len() as int) =~= dirs@);
}


/// The display switches of `m`: `--mock`, the log file, the secret
/// display, `--time`, `--time-format`, `--title` and `--custom-title`.
fn display_of(m: &CliMatches) -> (r: (bool, Option<String>, Option<SecretDisplay>, bool, Option<String>, bool, Option<String>))
    ensures
        r.0 == spec_present(m@, "mock"@),
        r.1 is Some <==> spec_present(m@, "debug"@),
        r.1 matches Some(f) ==> f@ == match spec_opt_str(m@, "debug"@) {
            Some(x) => x,
            None => DEFAULT_LOG_FILE@,
        },
        r.2 is Some <==> spec_present(m@, "asterisks"@),
        r.2 matches Some(s) ==> cli_secret(m@, s, s),
        r.3 == spec_present(m@, "time"@),
        opt_view(r.4) == spec_opt_str(m@, "time-format"@),
        r.5 == spec_present(m@, "title"@),
        opt_view(r.6) == spec_opt_str(m@, "custom-title"@),
{
    (
        m.opt_present("mock"),
        log_of(m),
        secret_of(m),
        m.opt_present("time"),
        m.opt_str("time-format"),
        m.opt_present("title"),
        m.opt_str("custom-title"),
    )
}

/// The log file that `--debug` selects, when it occurred.
fn log_of(m: &CliMatches) -> (r: Option<String>)
    ensures
        r is Some <==> spec_present(m@, "debug"@),
        r matches Some(f) ==> f@ == match spec_opt_str(m@, "debug"@) {
            Some(x) => x,
            None => DEFAULT_LOG_FILE@,
        },
{
    if m.opt_present("debug") {
        match m.opt_str("debug") {
            Some(file) => Some(file),
            None => Some(String::from_str(DEFAULT_LOG_FILE)),
        }
    } else {
        None
    }
}

/// The secret display that `--asterisks` selects, when it occurred.
fn secret_of(m: &CliMatches) -> (r: Option<SecretDisplay>)
    ensures
        r is Some <==> spec_present(m@, "asterisks"@),
        r matches Some(s) ==> cli_secret(m@, s, s),
{
    if m.opt_present("asterisks") {
        let asterisk = match m.opt_str("asterisks-char") {
            Some(v) => v,
            None => String::from_str(DEFAULT_ASTERISKS_CHARS),
        };
        Some(SecretDisplay::Character(asterisk))
    } else {
        None
    }
}

/// The user menu that `--user-menu` asks for, when it occurred.
fn users_menu_of(m: &CliMatches, facts: &HostFacts, labels: &Labels) -> (r: Option<Menu<User>>)
    ensures
        r is Some <==> spec_present(m@, "user-menu"@),
        r matches Some(u) ==> {
            let range = cli_uid_range(m@, opt_view(facts.login_defs));
            &&& u.title@ == labels.title_users@
            &&& u.selected == 0
            &&& users_of(facts.accounts@, range.0, range.1, u.options@)
        },
{
    if m.opt_present("user-menu") {
        let (lo, hi) = get_min_max_uids(
            u32_of(m, "user-menu-min-uid"),
            u32_of(m, "user-menu-max-uid"),
            &facts.login_defs,
        );
        Some(Menu { title: labels.title_users.clone(), options: get_users(&facts.accounts, lo, hi), selected: 0 })
    } else {
        None
    }
}

/// The session source that `--cmd` selects, when it occurred.
fn command_source(m: &CliMatches) -> (r: Option<SessionSource>)
    ensures
        r is Some <==> spec_opt_str(m@, "cmd"@) is Some,
        r matches Some(s) ==> cli_source(m@, s, s),
{
    match m.opt_str("cmd") {
        Some(command) => {
            let envs = if m.opt_present("env") {
                Some(m.opt_strs("env"))
            } else {
                None
            };
            Some(SessionSource::DefaultCommand(command, envs))
        },
        None => None,
    }
}

/// The directories that option `name` lists.
fn dirs_of(m: &CliMatches, name: &str) -> (r: Vec<String>)
    ensures
        strings_view(r@) == cli_dirs(m@, name@),
{
    match m.opt_str(name) {
        Some(dirs) => split_pieces(dirs.as_str(), ':', false),
        None => {
            let r: Vec<String> = Vec::new();
            assert(strings_view(r@) =~= Seq::<Seq<char>>::empty());
            r
        },
    }
}

/// The X session wrapper that the command line sets, unless
/// `--no-xsession-wrapper` keeps the current one.
fn xwrapper_of(m: &CliMatches) -> (r: Option<Option<String>>)
    ensures
        r is None <==> spec_present(m@, "no-xsession-wrapper"@),
        r matches Some(w) ==> opt_view(w) == match spec_opt_str(m@, "xsession-wrapper"@) {
            Some(x) => Some(x),
            None => Some(DEFAULT_XSESSION_WRAPPER@),
        },
{
    if m.opt_present("no-xsession-wrapper") {
        None
    } else {
        match m.opt_str("xsession-wrapper") {
            Some(w) => Some(Some(w)),
            None => Some(Some(String::from_str(DEFAULT_XSESSION_WRAPPER))),
        }
    }
}

/// The choice of animation and background menu for background settings.
pub fn background_for(cfg: &BackgroundConfig) -> (r: (Option<AnimationSpec>, Option<u32>))
    ensures
        r == background_choice(cfg@),
{
    let kind = match &cfg.kind {
        Some(k) => Kind::from_name(k.as_str()),
        None => None,
    };
    match kind {
        None => (None, None),
        Some(Kind::Doom) => {
            let d = doom::Options::default();
            let opts = doom::Options {
                height: match cfg.doom.height {
                    Some(h) => h,
                    None => d.height,
                },
                spread: match cfg.doom.spread {
                    Some(s) => s,
                    None => d.spread,
                },
                top: color_or_default(&cfg.doom.top_color, d.top),
                middle: color_or_default(&cfg.doom.middle_color, d.middle),
                bottom: color_or_default(&cfg.doom.bottom_color, d.bottom),
            };
            (
                Some(AnimationSpec::Doom(opts)),
                Some(
                    match cfg.fps {
                        Some(f) => f,
                        None => ANIMATION_DEFAULT_FPS,
                    },
                ),
            )
        },
    }
}

/// The background menu: "None" and every registered kind, the first kind
/// highlighted when an animation runs.
pub fn backgrounds_menu_for(labels: &Labels, animating: bool) -> (r: Menu<Background>)
    ensures
        backgrounds_menu(r, labels.title_background@, labels.background_none@, animating),
{
    let opts = options(labels.background_none.as_str());
    let selected: usize = if !animating {
        0
    } else if 1 < opts.len() - 1 {
        1
    } else {
        opts.len() - 1
    };
    Menu { title: labels.title_background.clone(), options: opts, selected }
}

/// The smaller of `a` and `b`.
pub open spec fn min_nat(a: nat, b: nat) -> nat {
    if a < b {
        a
    } else {
        b
    }
}

/// Step 2 of reading the command line into `g`, when `stage` reaches it.
fn advance_2(g: Greeter, m: &CliMatches, facts: &HostFacts, labels: &Labels, stage: u8, Ghost(o): Ghost<Greeter>) -> (r: Greeter)
    requires
        read_upto(o, g, m@, *facts, *labels, min_nat(stage as nat, 1)),
    ensures
        read_upto(o, r, m@, *facts, *labels, min_nat(stage as nat, 2)),
{
    if stage >= 2 {
        read_theme_step(g, m)
    } else {
        g
    }
}

/// Step 3 of reading the command line into `g`, when `stage` reaches it.
fn advance_3(g: Greeter, m: &CliMatches, facts: &HostFacts, labels: &Labels, stage: u8, Ghost(o): Ghost<Greeter>) -> (r: Greeter)
    requires
        read_upto(o, g, m@, *facts, *labels, min_nat(stage as nat, 2)),
    ensures
        read_upto(o, r, m@, *facts, *labels, min_nat(stage as nat, 3)),
{
    if stage >= 3 {
        read_secret_step(g, m)
    } else {
        g
    }
}

/// Step 4 of reading the command line into `g`, when `stage` reaches it.
fn advance_4(g: Greeter, m: &CliMatches, facts: &HostFacts, labels: &Labels, stage: u8, Ghost(o): Ghost<Greeter>) -> (r: Greeter)
    requires
        read_upto(o, g, m@, *facts, *labels, min_nat(stage as nat, 3)),
    ensures
        read_upto(o, r, m@, *facts, *labels, min_nat(stage as nat, 4)),
{
    if stage >= 4 {
        read_title_step(g, m)
    } else {
        g
    }
}

/// Step 5 of reading the command line into `g`, when `stage` reaches it.
fn advance_5(g: Greeter, m: &CliMatches, facts: &HostFacts, labels: &Labels, stage: u8, Ghost(o): Ghost<Greeter>) -> (r: Greeter)
    requires
        read_upto(o, g, m@, *facts, *labels, min_nat(stage as nat, 4)),
    ensures
        read_upto(o, r, m@, *facts, *labels, min_nat(stage as nat, 5)),
{
    if stage >= 5 {
        read_users_step(g, m, facts, labels)
    } else {
        g
    }
}

/// Step 6 of reading the command line into `g`, when `stage` reaches it.
fn advance_6(g: Greeter, m: &CliMatches, facts: &HostFacts, labels: &Labels, stage: u8, Ghost(o): Ghost<Greeter>) -> (r: Greeter)
    requires
        read_upto(o, g, m@, *facts, *labels, min_nat(stage as nat, 5)),
    ensures
        read_upto(o, r, m@, *facts, *labels, min_nat(stage as nat, 6)),
{
    if stage >= 6 {
        read_remember_step(g, m)
    } else {
        g
    }
}

/// Step 7 of reading the command line into `g`, when `stage` reaches it.
fn advance_7(g: Greeter, m: &CliMatches, facts: &HostFacts, labels: &Labels, stage: u8, Ghost(o): Ghost<Greeter>) -> (r: Greeter)
    requires
        read_upto(o, g, m@, *facts, *labels, min_nat(stage as nat, 6)),
    ensures
        read_upto(o, r, m@, *facts, *labels, min_nat(stage as nat, 7)),
{
    if stage >= 7 {
        read_sessions_step(g, m, facts, labels)
    } else {
        g
    }
}

/// Step 8 of reading the command line into `g`, when `stage` reaches it.
fn advance_8(g: Greeter, m: &CliMatches, facts: &HostFacts, labels: &Labels, stage: u8, Ghost(o): Ghost<Greeter>) -> (r: Greeter)
    requires
        read_upto(o, g, m@, *facts, *labels, min_nat(stage as nat, 7)),
    ensures
        read_upto(o, r, m@, *facts, *labels, min_nat(stage as nat, 8)),
{
    if stage >= 8 {
        read_background_step(g, m, labels)
    } else {
        g
    }
}

/// The greeter `o` after reading the command line `m` up to step `stage`
/// (see [`read_upto`]), all but the stored command line.
fn read_steps(o: Greeter, m: &CliMatches, facts: &HostFacts, labels: &Labels, stage: u8) -> (g: Greeter)
    requires
        1 <= stage <= 8,
    ensures
        read_upto(o, g, m@, *facts, *labels, stage as nat),
{
    let ghost o0 = o;
    let g = read_log_step(o, m);
    let g = advance_2(g, m, facts, labels, stage, Ghost(o0));
    let g = advance_3(g, m, facts, labels, stage, Ghost(o0));
    let g = advance_4(g, m, facts, labels, stage, Ghost(o0));
    let g = advance_5(g, m, facts, labels, stage, Ghost(o0));
    let g = advance_6(g, m, facts, labels, stage, Ghost(o0));
    let g = advance_7(g, m, facts, labels, stage, Ghost(o0));
    advance_8(g, m, facts, labels, stage, Ghost(o0))
}

/// Step 1 of reading the command line: `--mock` and `--debug`.
fn read_log_step(o: Greeter, m: &CliMatches) -> (g: Greeter)
    ensures
        read_log(o, g, m@),
        g == (Greeter { mock: g.mock, debug: g.debug, logfile: g.logfile, ..o }),
{
    let log = log_of(m);
    let debug = log.is_some() || o.debug;
    let logfile = match log {
        Some(f) => f,
        None => o.logfile,
    };
    Greeter { mock: m.opt_present("mock"), debug, logfile, ..o }
}

/// Step 2: the theme.
fn read_theme_step(o: Greeter, m: &CliMatches) -> (g: Greeter)
    ensures
        g.theme@ == cli_theme(m@, o.theme@),
        g == (Greeter { theme: g.theme, ..o }),
{
    let theme = match m.opt_str("theme") {
        Some(t) => theme_from_spec(t.as_str()),
        None => o.theme,
    };
    Greeter { theme, ..o }
}

/// Step 3: the secret display and `--time`.
fn read_secret_step(o: Greeter, m: &CliMatches) -> (g: Greeter)
    ensures
        read_secret(o, g, m@),
        g == (Greeter { secret_display: g.secret_display, time: g.time, ..o }),
{
    let secret_display = match secret_of(m) {
        Some(sd) => sd,
        None => o.secret_display,
    };
    Greeter { secret_display, time: m.opt_present("time"), ..o }
}

/// Step 4: the time format, the title and the user-menu switch.
fn read_title_step(o: Greeter, m: &CliMatches) -> (g: Greeter)
    ensures
        read_title(o, g, m@),
        g == (Greeter { time_format: g.time_format, title: g.title, user_menu: g.user_menu, ..o }),
{
    let time_format = match m.opt_str("time-format") {
        Some(f) => Some(f),
        None => o.time_format,
    };
    let custom = match m.opt_str("custom-title") {
        Some(c) => Some(c),
        None => o.title.custom,
    };
    let user_menu = m.opt_present("user-menu") || o.user_menu;
    Greeter { time_format, title: TitleOption { enable: m.opt_present("title"), custom }, user_menu, ..o }
}

/// Step 5: the users of the menu.
fn read_users_step(o: Greeter, m: &CliMatches, facts: &HostFacts, labels: &Labels) -> (g: Greeter)
    ensures
        read_users(o, g, m@, *facts, *labels),
        g == (Greeter { users: g.users, ..o }),
{
    let users = match users_menu_of(m, facts, labels) {
        Some(u) => u,
        None => o.users,
    };
    Greeter { users, ..o }
}

/// Step 6: the default user, the remember switches and `--greeting`.
fn read_remember_step(o: Greeter, m: &CliMatches) -> (g: Greeter)
    ensures
        read_remember(g, m@),
        opt_view(g.greeting) == spec_opt_str(m@, "greeting"@),
        g == (Greeter {
            default_user: g.default_user,
            remember: g.remember,
            remember_session: g.remember_session,
            remember_user_session: g.remember_user_session,
            greeting: g.greeting,
            ..o
        }),
{
    Greeter {
        default_user: m.opt_str("user"),
        remember: m.opt_present("remember"),
        remember_session: m.opt_present("remember-session"),
        remember_user_session: m.opt_present("remember-user-session"),
        greeting: m.opt_str("greeting"),
        ..o
    }
}

/// Step 7: the sessions, `--issue`, the power entries and the F-keys.
#[verifier::rlimit(60)]
fn read_sessions_step(o: Greeter, m: &CliMatches, facts: &HostFacts, labels: &Labels) -> (g: Greeter)
    ensures
        read_sessions(o, g, m@, *labels),
        opt_view(g.greeting) == if spec_present(m@, "issue"@) {
            opt_view(facts.issue)
        } else {
            opt_view(o.greeting)
        },
        g == (Greeter {
            session_source: g.session_source,
            session_paths: g.session_paths,
            session_wrapper: g.session_wrapper,
            xsession_wrapper: g.xsession_wrapper,
            greeting: g.greeting,
            powers: g.powers,
            power_setsid: g.power_setsid,
            kb_command: g.kb_command,
            kb_sessions: g.kb_sessions,
            kb_power: g.kb_power,
            kb_background: g.kb_background,
            ..o
        }),
{
    let session_source = match command_source(m) {
        Some(src) => src,
        None => o.session_source,
    };
    let mut session_paths = o.session_paths;
    push_dirs(&mut session_paths, dirs_of(m, "sessions"), SessionType::Wayland);
    push_dirs(&mut session_paths, dirs_of(m, "xsessions"), SessionType::X11);
    let session_wrapper = match m.opt_str("session-wrapper") {
        Some(w) => Some(w),
        None => o.session_wrapper,
    };
    let xsession_wrapper = match xwrapper_of(m) {
        Some(w) => w,
        None => o.xsession_wrapper,
    };
    let greeting = if m.opt_present("issue") {
        facts.issue.clone()
    } else {
        o.greeting
    };
    let mut powers = o.powers;
    powers.options.push(
        Power {
            action: PowerOption::Shutdown,
            label: labels.shutdown.clone(),
            command: m.opt_str("power-shutdown"),
        },
    );
    powers.options.push(
        Power { action: PowerOption::Reboot, label: labels.reboot.clone(), command: m.opt_str("power-reboot") },
    );
    Greeter {
        session_source,
        session_paths,
        session_wrapper,
        xsession_wrapper,
        greeting,
        powers,
        power_setsid: !m.opt_present("power-no-setsid"),
        kb_command: key_of(m, "kb-command", 2),
        kb_sessions: key_of(m, "kb-sessions", 3),
        kb_power: key_of(m, "kb-power", 12),
        kb_background: key_of(m, "kb-background", 4),
        ..o
    }
}

/// Step 8: the background.
fn read_background_step(o: Greeter, m: &CliMatches, labels: &Labels) -> (g: Greeter)
    ensures
        read_background(g, m@, *labels),
        g == (Greeter { animation: g.animation, animation_fps: g.animation_fps, backgrounds: g.backgrounds, ..o }),
{
    let cli = extract_cli_config(m);
    let (animation, animation_fps) = background_for(&cli.background);
    let backgrounds = backgrounds_menu_for(labels, animation.is_some());
    Greeter { animation, animation_fps, backgrounds, ..o }
}


impl Greeter {
    /// Choose the background animation that the settings `cfg` describe.
    pub fn set_background_from_config(&mut self, cfg: &BackgroundConfig)
        ensures
            final(self).animation == background_choice(cfg@).0,
            final(self).animation_fps == background_choice(cfg@).1,
            final(self).backgrounds == old(self).backgrounds,
            final(self).config == old(self).config,
            same_switch_fields(*old(self), *final(self)),
            same_session_fields(*old(self), *final(self)),
            same_control_fields(*old(self), *final(self)),
            same_runtime_state(*old(self), *final(self)),
    {
        let (animation, fps) = background_for(cfg);
        self.animation = animation;
        self.animation_fps = fps;
    }

    /// Fill the background menu: "None" and every registered kind, the
    /// first kind highlighted when an animation runs.
    pub fn populate_backgrounds_menu(&mut self, labels: &Labels)
        ensures
            backgrounds_menu(
                final(self).backgrounds,
                labels.title_background@,
                labels.background_none@,
                final(self).animation is Some,
            ),
            final(self).animation == old(self).animation,
            final(self).animation_fps == old(self).animation_fps,
            final(self).config == old(self).config,
            same_switch_fields(*old(self), *final(self)),
            same_session_fields(*old(self), *final(self)),
            same_control_fields(*old(self), *final(self)),
            same_runtime_state(*old(self), *final(self)),
    {
        self.backgrounds = backgrounds_menu_for(labels, self.animation.is_some());
    }

    /// Read the parsed command line `m` into the greeter.
    ///
    /// `--help` and `--version` come first and change nothing but the stored
    /// command line. The settings are read in steps (see [`read_upto`]); a
    /// command line with a problem is refused with the first problem's
    /// message after the steps read before that problem is found, and the
    /// greeter keeps what those steps read. Otherwise every setting that an
    /// option names is taken from it.
    #[verifier::rlimit(80)]
    #[verifier::spinoff_prover]
    pub fn apply_matches(&mut self, m: CliMatches, facts: &HostFacts, labels: &Labels) -> (r: Result<ParseAction, String>)
        ensures
            matches_outcome(*old(self), *final(self), m@, *facts, *labels, r),
    {
        if m.opt_present("help") {
            self.config = Some(m);
            return Ok(ParseAction::Help);
        }
        if m.opt_present("version") {
            self.config = Some(m);
            return Ok(ParseAction::Version);
        }
        let (stage, problem) = check_cli(&m, facts);
        let mut before = Greeter::default();
        core::mem::swap(self, &mut before);
        let g = read_steps(before, &m, facts, labels, stage);
        *self = Greeter { config: Some(m), ..g };
        match problem {
            Some(e) => Err(e),
            None => Ok(ParseAction::Run),
        }
    }

    /// Parse the command-line arguments `args` (without the program name)
    /// with getopts against the greeter's options, and read them into the
    /// greeter as [`Greeter::apply_matches`] states; a parse failure is
    /// returned as its message and changes nothing.
    pub fn parse_options(&mut self, args: &Vec<String>, facts: &HostFacts, labels: &Labels) -> (r: Result<ParseAction, String>)
        ensures
            match getopts_parse(option_specs(), strings_view(args@)) {
                Err(e) => r matches Err(x) && x@ == e && *final(self) == *old(self),
                Ok(m) => matches_outcome(*old(self), *final(self), m, *facts, *labels, r),
            },
    {
        let opts = cli_options();
        match parse_args(&opts, args) {
            Ok(m) => self.apply_matches(m, facts, labels),
            Err(e) => Err(e),
        }
    }
}

} // verus!
verus! {

impl Greeter {
    /// Show `prompt`, followed by a space unless it ends with one.
    pub fn set_prompt(&mut self, prompt: &str)
        ensures
            final(self).prompt matches Some(p) && p@ == if prompt@.len() > 0 && prompt@.last() == ' ' {
                prompt@
            } else {
                prompt@ + " "@
            },
            *final(self) == (Greeter { prompt: final(self).prompt, ..*old(self) }),
    {
        let n = prompt.unicode_len();
        if n > 0 && prompt.get_char(n - 1) == ' ' {
            self.prompt = Some(String::from_str(prompt));
        } else {
            let mut p = String::from_str(prompt);
            p.append(" ");
            self.prompt = Some(p);
        }
    }
}


impl Greeter {
    /// Stop showing a prompt.
    pub fn remove_prompt(&mut self)
        ensures
            *final(self) == (Greeter { prompt: None, ..*old(self) }),
    {
        self.prompt = None;
    }

    /// Number of characters of the prompt, which is where input starts.
    pub fn prompt_width(&self) -> (r: usize)
        ensures
            r == match self.prompt {
                Some(p) => p@.len(),
                None => 0,
            },
    {
        match &self.prompt {
            None => 0,
            Some(p) => p.unicode_len(),
        }
    }

    /// The argument of option `name` on the stored command line.
    pub fn option(&self, name: &str) -> (r: Option<String>)
        requires
            self.config is Some,
        ensures
            opt_view(r) == spec_opt_str(self.config.unwrap()@, name@),
    {
        match &self.config {
            Some(m) => m.opt_str(name),
            None => None,
        }
    }

    /// The arguments of option `name` on the stored command line, when it
    /// occurred.
    pub fn options_multi(&self, name: &str) -> (r: Option<Vec<String>>)
        requires
            self.config is Some,
        ensures
            match r {
                Some(v) => spec_present(self.config.unwrap()@, name@) && strings_view(v@)
                    == spec_opt_strs(self.config.unwrap()@, name@),
                None => !spec_present(self.config.unwrap()@, name@),
            },
    {
        match &self.config {
            Some(m) => if m.opt_present(name) {
                Some(m.opt_strs(name))
            } else {
                None
            },
            None => None,
        }
    }

    /// Width of the main window: the command line's, else the loaded
    /// configuration's, else 80.
    pub fn width(&self) -> (r: u16)
        requires
            self.config is Some,
        ensures
            r == match cli_u16(self.config.unwrap()@, "width"@) {
                Some(w) => w,
                None => match self.loaded_config {
                    Some(c) => c.layout.width,
                    None => 80,
                },
            },
    {
        match &self.config {
            Some(m) => if let Some(w) = u16_of(m, "width") {
                return w;
            },
            None => {},
        }
        match &self.loaded_config {
            Some(c) => c.layout.width,
            None => 80,
        }
    }

    /// Padding of the screen: the command line's, else the loaded
    /// configuration's, else 0.
    pub fn window_padding(&self) -> (r: u16)
        requires
            self.config is Some,
        ensures
            r == padding_value(*self, "window-padding"@, 0),
    {
        self.padding("window-padding", 0)
    }

    /// Padding inside the main window, one more than the configured padding:
    /// the command line's, else the loaded configuration's, else 2.
    pub fn container_padding(&self) -> (r: u16)
        requires
            self.config is Some,
            padding_value(*self, "container-padding"@, 1) < 0xffff,
        ensures
            r == padding_value(*self, "container-padding"@, 1) + 1,
    {
        self.padding("container-padding", 1) + 1
    }

    /// Spacing between prompts: the command line's, else the loaded
    /// configuration's, else 1.
    pub fn prompt_padding(&self) -> (r: u16)
        requires
            self.config is Some,
        ensures
            r == padding_value(*self, "prompt-padding"@, 1),
    {
        self.padding("prompt-padding", 1)
    }

    fn padding(&self, name: &str, def: u16) -> (r: u16)
        requires
            self.config is Some,
            name@ == "window-padding"@ || name@ == "container-padding"@ || name@ == "prompt-padding"@,
        ensures
            r == padding_value(*self, name@, def),
    {
        match &self.config {
            Some(m) => if let Some(p) = u16_of(m, name) {
                return p;
            },
            None => {},
        }
        match &self.loaded_config {
            Some(c) => {
                let configured = if equal_str(name, "window-padding") {
                    c.layout.window_padding
                } else if equal_str(name, "container-padding") {
                    c.layout.container_padding
                } else {
                    c.layout.prompt_padding
                };
                match configured {
                    Some(p) => p,
                    None => def,
                }
            },
            None => def,
        }
    }

    /// Alignment of the greeting: the command line's (`left` and `right`
    /// exactly, anything else centers), else the loaded configuration's,
    /// else centered.
    pub fn greet_align(&self) -> (r: GreetAlign)
        requires
            self.config is Some,
        ensures
            r == match spec_opt_str(self.config.unwrap()@, "greet-align"@) {
                Some(v) => if v == "left"@ {
                    GreetAlign::Left
                } else if v == "right"@ {
                    GreetAlign::Right
                } else {
                    GreetAlign::Center
                },
                None => match self.loaded_config {
                    Some(c) => match c.display.align_greeting {
                        AlignGreeting::Left => GreetAlign::Left,
                        AlignGreeting::Right => GreetAlign::Right,
                        AlignGreeting::Center => GreetAlign::Center,
                    },
                    None => GreetAlign::Center,
                },
            },
    {
        let cli = match &self.config {
            Some(m) => m.opt_str("greet-align"),
            None => None,
        };
        if let Some(v) = cli {
            let c = chars_of(v.as_str());
            assert(c@.subrange(0, c@.len() as int) =~= c@);
            return if range_eq(&c, 0, c.len(), "left") {
                GreetAlign::Left
            } else if range_eq(&c, 0, c.len(), "right") {
                GreetAlign::Right
            } else {
                GreetAlign::Center
            };
        }
        match &self.loaded_config {
            Some(c) => match c.display.align_greeting {
                AlignGreeting::Left => GreetAlign::Left,
                AlignGreeting::Right => GreetAlign::Right,
                AlignGreeting::Center => GreetAlign::Center,
            },
            None => GreetAlign::Center,
        }
    }

    /// Render rate of the event loop: the animation's rate, but no lower
    /// than the base rate, or the base rate when no animation runs.
    pub fn frame_rate(&self) -> (r: u32)
        ensures
            r == match self.animation_fps {
                Some(f) => if f > DEFAULT_FPS {
                    f
                } else {
                    DEFAULT_FPS
                },
                None => DEFAULT_FPS,
            },
    {
        match self.animation_fps {
            Some(f) => if f > DEFAULT_FPS {
                f
            } else {
                DEFAULT_FPS
            },
            None => DEFAULT_FPS,
        }
    }

    /// Wipe the entry buffer and the prompt, the username unless `soft`
    /// (a wrong password keeps the username for another try), and the
    /// message when `scrub_message`.
    pub fn scrub(&mut self, scrub_message: bool, soft: bool)
        ensures
            final(self).buffer@ == Seq::<char>::empty(),
            final(self).prompt.is_none(),
            soft ==> final(self).username == old(self).username,
            !soft ==> final(self).username.value@ == Seq::<char>::empty() && final(self).username.mask.is_none(),
            scrub_message ==> final(self).message.is_none(),
            !scrub_message ==> final(self).message == old(self).message,
            *final(self) == (Greeter {
                buffer: final(self).buffer,
                prompt: final(self).prompt,
                username: final(self).username,
                message: final(self).message,
                ..*old(self)
            }),
    {
        zeroize_string(&mut self.buffer);
        zeroize_opt_string(&mut self.prompt);
        if !soft {
            self.username.zeroize();
        }
        if scrub_message {
            zeroize_opt_string(&mut self.message);
        }
    }

    /// Return to the first screen: the password prompt when `soft`, else the
    /// username prompt, with the entry wiped as [`Greeter::scrub`] does
    /// (keeping the message). Reconnecting to greetd is the caller's part.
    pub fn reset(&mut self, soft: bool)
        ensures
            final(self).mode == (if soft {
                Mode::Password
            } else {
                Mode::Username
            }),
            final(self).previous_mode == final(self).mode,
            !final(self).working,
            !final(self).done,
            final(self).buffer@ == Seq::<char>::empty(),
            final(self).prompt.is_none(),
            soft ==> final(self).username == old(self).username,
            !soft ==> final(self).username.value@ == Seq::<char>::empty() && final(self).username.mask.is_none(),
            *final(self) == (Greeter {
                mode: final(self).mode,
                previous_mode: final(self).previous_mode,
                working: false,
                done: false,
                buffer: final(self).buffer,
                prompt: final(self).prompt,
                username: final(self).username,
                ..*old(self)
            }),
    {
        if soft {
            self.mode = Mode::Password;
            self.previous_mode = Mode::Password;
        } else {
            self.mode = Mode::Username;
            self.previous_mode = Mode::Username;
        }
        self.working = false;
        self.done = false;
        self.scrub(false, soft);
    }

    /// Switch to the background highlighted in the background menu: no
    /// animation for the "None" entry, else the kind with its default
    /// settings at the default rate. Nothing happens when the highlight is
    /// past the end of the menu.
    pub fn apply_background_selection(&mut self)
        ensures
            old(self).backgrounds.selected < old(self).backgrounds.options@.len() ==> match old(
                self,
            ).backgrounds.options@[old(self).backgrounds.selected as int].kind {
                None => final(self).animation.is_none() && final(self).animation_fps.is_none(),
                Some(k) => final(self).animation == Some(AnimationSpec::Doom(doom::default_options()))
                    && final(self).animation_fps == Some(ANIMATION_DEFAULT_FPS),
            },
            old(self).backgrounds.selected >= old(self).backgrounds.options@.len() ==> *final(self)
                == *old(self),
            *final(self) == (Greeter {
                animation: final(self).animation,
                animation_fps: final(self).animation_fps,
                ..*old(self)
            }),
    {
        if self.backgrounds.selected >= self.backgrounds.options.len() {
            return;
        }
        let kind = self.backgrounds.options[self.backgrounds.selected].kind;
        let (animation, animation_fps) = match kind {
            None => (None, None),
            Some(k) => (Some(k.default_spec()), Some(ANIMATION_DEFAULT_FPS)),
        };
        let mut before = Greeter::default();
        core::mem::swap(self, &mut before);
        *self = Greeter { animation, animation_fps, ..before };
    }
}

/// The padding that option `name` sets on the stored command line, else the
/// loaded configuration's, else `def`.
pub open spec fn padding_value(g: Greeter, name: Seq<char>, def: u16) -> u16 {
    match cli_u16(g.config.unwrap()@, name) {
        Some(p) => p,
        None => match g.loaded_config {
            Some(c) => match (if name == "window-padding"@ {
                c.layout.window_padding
            } else if name == "container-padding"@ {
                c.layout.container_padding
            } else {
                c.layout.prompt_padding
            }) {
                Some(p) => p,
                None => def,
            },
            None => def,
        },
    }
}

/// Whether `a` and `b` hold the same characters.
fn equal_str(a: &str, b: &str) -> (r: bool)
    ensures
        r == (a@ == b@),
{
    let v = chars_of(a);
    assert(v@.subrange(0, v@.len() as int) =~= v@);
    range_eq(&v, 0, v.len(), b)
}


/// Whether the parsed command line `cli` gives option `name`.
pub open spec fn given(cli: Option<CliMatches>, name: Seq<char>) -> bool {
    match cli {
        Some(m) => spec_present(m@, name),
        None => false,
    }
}

/// `v` when the parsed command line `cli` gives option `name`, else `w`.
pub open spec fn unless_given<T>(cli: Option<CliMatches>, name: Seq<char>, v: T, w: T) -> T {
    if given(cli, name) {
        v
    } else {
        w
    }
}

/// Session settings of a greeter: the session source, the session
/// directories, and the two session wrappers.
pub type SessionPart = (SourceView, Seq<(Seq<char>, SessionType)>, Option<Seq<char>>, Option<Seq<char>>);

/// `g` holds the session settings `o` with `c` applied, where the command
/// line `cli` gives none of them.
pub open spec fn sessions_applied(cli: Option<CliMatches>, c: ConfigView, o: SessionPart, g: SessionPart) -> bool {
    &&& g.0 == if given(cli, "cmd"@) {
        o.0
    } else {
        match c.session.command {
            Some(cmd) => SourceView::DefaultCommand(cmd, None),
            None => o.0,
        }
    }
    &&& g.1 == o.1 + unless_given(
        cli,
        "sessions"@,
        Seq::empty(),
        typed_dirs(c.session.sessions_dirs, SessionType::Wayland),
    ) + unless_given(
        cli,
        "xsessions"@,
        Seq::empty(),
        typed_dirs(c.session.xsessions_dirs, SessionType::X11),
    )
    &&& g.2 == if given(cli, "session-wrapper"@) {
        o.2
    } else {
        match c.session.session_wrapper {
            Some(w) => Some(w),
            None => o.2,
        }
    }
    &&& g.3 == if c.session.xsession_wrapper is Some && !given(cli, "no-xsession-wrapper"@)
        && !given(cli, "xsession-wrapper"@) {
        c.session.xsession_wrapper
    } else {
        o.3
    }
}

/// Display and remembering settings of a greeter: debug, time, time format,
/// greeting, title shown, custom title, default user, and the three
/// remember switches.
pub type DisplayPart = (
    bool,
    bool,
    Option<Seq<char>>,
    Option<Seq<char>>,
    bool,
    Option<Seq<char>>,
    Option<Seq<char>>,
    bool,
    bool,
    bool,
);

/// `g` holds the display settings `o` with `c` applied, where the command
/// line `cli` gives none of them; `issue` is the system's issue text.
pub open spec fn display_applied(
    cli: Option<CliMatches>,
    c: ConfigView,
    issue: Option<Seq<char>>,
    o: DisplayPart,
    g: DisplayPart,
) -> bool {
    &&& g.0 == unless_given(cli, "debug"@, o.0, c.general.debug)
    &&& g.1 == unless_given(cli, "time"@, o.1, c.display.show_time)
    &&& g.2 == unless_given(cli, "time-format"@, o.2, c.display.time_format)
    &&& g.3 == if given(cli, "greeting"@) || given(cli, "issue"@) {
        o.3
    } else if c.display.issue {
        issue
    } else {
        c.display.greeting
    }
    &&& g.4 == unless_given(cli, "title"@, o.4, c.display.show_title)
    &&& g.5 == unless_given(cli, "custom-title"@, o.5, c.display.custom_title)
    &&& g.6 == unless_given(cli, "user"@, o.6, c.remember.default_user)
    &&& g.7 == unless_given(cli, "remember"@, o.7, c.remember.username)
    &&& g.8 == unless_given(cli, "remember-session"@, o.8, c.remember.session)
    &&& g.9 == unless_given(cli, "remember-user-session"@, o.9, c.remember.user_session)
}

/// `(user_menu, users, secret)` is `(o_menu, o_users, o_secret)` with `c`
/// applied, where the command line `cli` gives neither setting.
pub open spec fn choices_applied(
    cli: Option<CliMatches>,
    c: ConfigView,
    facts: HostFacts,
    labels: Labels,
    o_menu: bool,
    o_users: Menu<User>,
    o_secret: SecretDisplay,
    user_menu: bool,
    users: Menu<User>,
    secret: SecretDisplay,
) -> bool {
    &&& if given(cli, "user-menu"@) {
        &&& user_menu == o_menu
        &&& users == o_users
    } else {
        &&& user_menu == c.user_menu.enabled
        &&& if c.user_menu.enabled {
            &&& users.title@ == labels.title_users@
            &&& users.selected == 0
            &&& users_of(facts.accounts@, c.user_menu.min_uid, c.user_menu.max_uid, users.options@)
        } else {
            users == o_users
        }
    }
    &&& if given(cli, "asterisks"@) {
        secret == o_secret
    } else {
        match c.secret.mode {
            SecretMode::Hidden => secret is Hidden,
            SecretMode::Characters => secret matches SecretDisplay::Character(x) && x@
                == c.secret.characters,
        }
    }
}

/// The background settings in force after applying `c` over the command
/// line `cli`: the command line's background options layered over those of
/// `c`.
pub open spec fn applied_background(cli: Option<CliMatches>, c: ConfigView) -> BackgroundConfigView {
    match cli {
        Some(m) => layer_background(c.background, cli_background(m@)),
        None => c.background,
    }
}

/// `g` is `o` with the configuration `c` applied. A setting that the
/// command line read by `o` gives keeps the value the command line gave it;
/// every other setting takes the value of `c`. The background settings are
/// those of the command line layered over those of `c`.
pub open spec fn config_applied(o: Greeter, g: Greeter, c: ConfigView, facts: HostFacts, labels: Labels) -> bool {
    let cli = o.config;
    let bg = background_choice(applied_background(cli, c));
    &&& sessions_applied(
        cli,
        c,
        (o.session_source@, paths_view(o.session_paths@), opt_view(o.session_wrapper), opt_view(o.xsession_wrapper)),
        (g.session_source@, paths_view(g.session_paths@), opt_view(g.session_wrapper), opt_view(g.xsession_wrapper)),
    )
    &&& display_applied(
        cli,
        c,
        opt_view(facts.issue),
        (
            o.debug,
            o.time,
            opt_view(o.time_format),
            opt_view(o.greeting),
            o.title.enable,
            opt_view(o.title.custom),
            opt_view(o.default_user),
            o.remember,
            o.remember_session,
            o.remember_user_session,
        ),
        (
            g.debug,
            g.time,
            opt_view(g.time_format),
            opt_view(g.greeting),
            g.title.enable,
            opt_view(g.title.custom),
            opt_view(g.default_user),
            g.remember,
            g.remember_session,
            g.remember_user_session,
        ),
    )
    &&& choices_applied(cli, c, facts, labels, o.user_menu, o.users, o.secret_display, g.user_menu, g.users, g.secret_display)
    &&& g.kb_command == unless_given(cli, "kb-command"@, o.kb_command, c.keybindings.command)
    &&& g.kb_sessions == unless_given(cli, "kb-sessions"@, o.kb_sessions, c.keybindings.sessions)
    &&& g.kb_power == unless_given(cli, "kb-power"@, o.kb_power, c.keybindings.power)
    &&& g.kb_background == unless_given(cli, "kb-background"@, o.kb_background, c.keybindings.background)
    &&& g.theme == o.theme
    &&& g.animation == bg.0
    &&& g.animation_fps == bg.1
    &&& backgrounds_menu(g.backgrounds, labels.title_background@, labels.background_none@, bg.0 is Some)
    &&& g.config == o.config
    &&& g.logfile == o.logfile
    &&& g.mock == o.mock
    &&& g.powers == o.powers
    &&& g.power_setsid == o.power_setsid
    &&& same_runtime_state(o, g)
}

/// Whether the parsed command line `cli` gives option `name`.
fn gives(cli: &Option<CliMatches>, name: &str) -> (r: bool)
    ensures
        r == given(*cli, name@),
{
    match cli {
        Some(m) => m.opt_present(name),
        None => false,
    }
}

/// `Some(s)` when `s` is set, else `old`.
fn or_keep(new: &Option<String>, old: Option<String>) -> (r: Option<String>)
    ensures
        opt_view(r) == match opt_view(*new) {
            Some(v) => Some(v),
            None => opt_view(old),
        },
{
    match new {
        Some(v) => Some(v.clone()),
        None => old,
    }
}

/// The session settings `(source, paths, sw, xw)` with `c` applied under
/// the command line `cli`.
fn sessions_with(
    cli: &Option<CliMatches>,
    c: &Config,
    source: SessionSource,
    paths: Vec<(String, SessionType)>,
    sw: Option<String>,
    xw: Option<String>,
) -> (r: (SessionSource, Vec<(String, SessionType)>, Option<String>, Option<String>))
    ensures
        sessions_applied(
            *cli,
            c@,
            (source@, paths_view(paths@), opt_view(sw), opt_view(xw)),
            (r.0@, paths_view(r.1@), opt_view(r.2), opt_view(r.3)),
        ),
{
    let ghost p0 = paths_view(paths@);
    let new_source = if !gives(cli, "cmd") && c.session.command.is_some() {
        match &c.session.command {
            Some(cmd) => SessionSource::DefaultCommand(cmd.clone(), None),
            None => source,
        }
    } else {
        source
    };
    let mut paths = paths;
    let cli_sessions = gives(cli, "sessions");
    let cli_xsessions = gives(cli, "xsessions");
    if !cli_sessions {
        push_dirs(&mut paths, clone_strings(&c.session.sessions_dirs), SessionType::Wayland);
    } else {
        assert(p0 =~= p0 + Seq::<(Seq<char>, SessionType)>::empty());
    }
    let ghost p1 = paths_view(paths@);
    if !cli_xsessions {
        push_dirs(&mut paths, clone_strings(&c.session.xsessions_dirs), SessionType::X11);
    } else {
        assert(p1 =~= p1 + Seq::<(Seq<char>, SessionType)>::empty());
    }
    let new_sw = if gives(cli, "session-wrapper") {
        sw
    } else {
        or_keep(&c.session.session_wrapper, sw)
    };
    let keep_x = gives(cli, "no-xsession-wrapper") || gives(cli, "xsession-wrapper");
    let new_xw = if c.session.xsession_wrapper.is_some() && !keep_x {
        copy_opt(&c.session.xsession_wrapper)
    } else {
        xw
    };
    (new_source, paths, new_sw, new_xw)
}

/// The value `c` gives unless the command line `cli` gives option `name`,
/// in which case `keep`.
fn flag_with(cli: &Option<CliMatches>, name: &str, keep: bool, c: bool) -> (r: bool)
    ensures
        r == unless_given(*cli, name@, keep, c),
{
    if gives(cli, name) {
        keep
    } else {
        c
    }
}

/// The text `c` gives unless the command line `cli` gives option `name`, in
/// which case `keep`.
fn text_with(cli: &Option<CliMatches>, name: &str, keep: Option<String>, c: &Option<String>) -> (r: Option<String>)
    ensures
        opt_view(r) == unless_given(*cli, name@, opt_view(keep), opt_view(*c)),
{
    if gives(cli, name) {
        keep
    } else {
        copy_opt(c)
    }
}

/// The key `c` gives unless the command line `cli` gives option `name`, in
/// which case `keep`.
fn key_with(cli: &Option<CliMatches>, name: &str, keep: u8, c: u8) -> (r: u8)
    ensures
        r == unless_given(*cli, name@, keep, c),
{
    if gives(cli, name) {
        keep
    } else {
        c
    }
}

/// Display and remembering settings of a greeter, as held by it.
pub type DisplayFields = (
    bool,
    bool,
    Option<String>,
    Option<String>,
    TitleOption,
    Option<String>,
    bool,
    bool,
    bool,
);

/// The view of the display settings `d`.
pub open spec fn display_view(d: DisplayFields) -> DisplayPart {
    (
        d.0,
        d.1,
        opt_view(d.2),
        opt_view(d.3),
        d.4.enable,
        opt_view(d.4.custom),
        opt_view(d.5),
        d.6,
        d.7,
        d.8,
    )
}

/// The display settings `o` with `c` applied under the command line `cli`.
fn display_with(cli: &Option<CliMatches>, c: &Config, facts: &HostFacts, o: DisplayFields) -> (r: DisplayFields)
    ensures
        display_applied(*cli, c@, opt_view(facts.issue), display_view(o), display_view(r)),
{
    let (debug, time, time_format, greeting, title, default_user, remember, remember_session, remember_user_session) = o;
    let greeting = if gives(cli, "greeting") || gives(cli, "issue") {
        greeting
    } else if c.display.issue {
        copy_opt(&facts.issue)
    } else {
        copy_opt(&c.display.greeting)
    };
    (
        flag_with(cli, "debug", debug, c.general.debug),
        flag_with(cli, "time", time, c.display.show_time),
        text_with(cli, "time-format", time_format, &c.display.time_format),
        greeting,
        TitleOption {
            enable: flag_with(cli, "title", title.enable, c.display.show_title),
            custom: text_with(cli, "custom-title", title.custom, &c.display.custom_title),
        },
        text_with(cli, "user", default_user, &c.remember.default_user),
        flag_with(cli, "remember", remember, c.remember.username),
        flag_with(cli, "remember-session", remember_session, c.remember.session),
        flag_with(cli, "remember-user-session", remember_user_session, c.remember.user_session),
    )
}

/// The user menu and secret display with `c` applied under the command line
/// `cli`.
fn choices_with(
    cli: &Option<CliMatches>,
    c: &Config,
    facts: &HostFacts,
    labels: &Labels,
    user_menu: bool,
    users: Menu<User>,
    secret: SecretDisplay,
) -> (r: (bool, Menu<User>, SecretDisplay))
    ensures
        choices_applied(*cli, c@, *facts, *labels, user_menu, users, secret, r.0, r.1, r.2),
{
    let (m, u) = if gives(cli, "user-menu") {
        (user_menu, users)
    } else if c.user_menu.enabled {
        (
            true,
            Menu {
                title: labels.title_users.clone(),
                options: get_users(&facts.accounts, c.user_menu.min_uid, c.user_menu.max_uid),
                selected: 0,
            },
        )
    } else {
        (false, users)
    };
    let s = if gives(cli, "asterisks") {
        secret
    } else {
        match c.secret.mode {
            SecretMode::Hidden => SecretDisplay::Hidden,
            SecretMode::Characters => SecretDisplay::Character(c.secret.characters.clone()),
        }
    };
    (m, u, s)
}

/// The background settings of `c` with those of the command line `cli`
/// layered over them.
fn background_with(cli: &Option<CliMatches>, c: &Config) -> (r: BackgroundConfig)
    ensures
        r@ == applied_background(*cli, c@),
{
    let mut b = copy_background(&c.background);
    match cli {
        Some(m) => apply_background_layer(&mut b, cli_background_of(m)),
        None => {},
    }
    b
}

/// The greeter `o` with the configuration `c` applied.
#[verifier::rlimit(60)]
fn with_config(o: Greeter, c: &Config, facts: &HostFacts, labels: &Labels) -> (g: Greeter)
    ensures
        config_applied(o, g, c@, *facts, *labels),
{
    let cli = &o.config;
    let (session_source, session_paths, session_wrapper, xsession_wrapper) = sessions_with(
        cli,
        c,
        o.session_source,
        o.session_paths,
        o.session_wrapper,
        o.xsession_wrapper,
    );
    let (debug, time, time_format, greeting, title, default_user, remember, remember_session, remember_user_session) =
        display_with(
        cli,
        c,
        facts,
        (
            o.debug,
            o.time,
            o.time_format,
            o.greeting,
            o.title,
            o.default_user,
            o.remember,
            o.remember_session,
            o.remember_user_session,
        ),
    );
    let (user_menu, users, secret_display) = choices_with(
        cli,
        c,
        facts,
        labels,
        o.user_menu,
        o.users,
        o.secret_display,
    );
    let kb_command = key_with(cli, "kb-command", o.kb_command, c.keybindings.command);
    let kb_sessions = key_with(cli, "kb-sessions", o.kb_sessions, c.keybindings.sessions);
    let kb_power = key_with(cli, "kb-power", o.kb_power, c.keybindings.power);
    let kb_background = key_with(cli, "kb-background", o.kb_background, c.keybindings.background);
    let bg_cfg = background_with(cli, c);
    let (animation, animation_fps) = background_for(&bg_cfg);
    let backgrounds = backgrounds_menu_for(labels, animation.is_some());
    Greeter {
        debug,
        logfile: o.logfile,
        config: o.config,
        loaded_config: o.loaded_config,
        socket: o.socket,
        mode: o.mode,
        previous_mode: o.previous_mode,
        cursor_offset: o.cursor_offset,
        previous_buffer: o.previous_buffer,
        buffer: o.buffer,
        session_source,
        session_paths,
        sessions: o.sessions,
        session_wrapper,
        xsession_wrapper,
        user_menu,
        users,
        default_user,
        username: o.username,
        prompt: o.prompt,
        asking_for_secret: o.asking_for_secret,
        secret_display,
        remember,
        remember_session,
        remember_user_session,
        time,
        time_format,
        greeting,
        title,
        message: o.message,
        powers: o.powers,
        power_setsid: o.power_setsid,
        kb_command,
        kb_sessions,
        kb_power,
        kb_background,
        animation,
        animation_fps,
        theme: o.theme,
        mock: o.mock,
        backgrounds,
        working: o.working,
        done: o.done,
        exit: o.exit,
    }
}

/// The session selection after remembered choices: the command typed last
/// (trimmed), then the session whose desktop entry is the remembered path,
/// when the menu has it.
pub open spec fn remembered_choice(
    opts: Seq<Session>,
    command: Option<Seq<char>>,
    path: Option<Seq<char>>,
    sel: int,
    src: SourceView,
) -> (int, SourceView) {
    let s2 = match command {
        Some(c) => SourceView::Command(c),
        None => src,
    };
    match path {
        Some(p) => match first_path_index(opts, p) {
            Some(i) => (i, SourceView::Session(i)),
            None => (sel, s2),
        },
        None => (sel, s2),
    }
}

/// An optional text, trimmed.
pub open spec fn trimmed(o: Option<Seq<char>>) -> Option<Seq<char>> {
    match o {
        Some(c) => Some(trim(c)),
        None => None,
    }
}

/// `g` is `o` once the sessions found are in its menu and the remembered
/// choices of earlier runs are applied.
pub open spec fn sessions_prepared(o: Greeter, g: Greeter, sessions: Seq<Session>, rem: Remembered, labels: Labels) -> bool {
    let opts = g.sessions.options@;
    let s1 = if o.session_source@ is Unselected && opts.len() > 0 {
        SourceView::Session(0)
    } else {
        o.session_source@
    };
    let u1 = match o.default_user {
        Some(u) => (u@, None::<Seq<char>>),
        None => (o.username.value@, opt_view(o.username.mask)),
    };
    let last = spec_read_trimmed(opt_view(rem.last_username));
    let by_user = o.remember && last is Some;
    let u2 = if by_user {
        (last->0, spec_read_trimmed(opt_view(rem.last_name)))
    } else {
        u1
    };
    let c3 = if by_user && o.remember_user_session {
        remembered_choice(
            opts,
            trimmed(opt_view(rem.last_user_command)),
            trimmed(opt_view(rem.last_user_session)),
            0,
            s1,
        )
    } else {
        (0int, s1)
    };
    let c5 = if o.remember_session {
        remembered_choice(
            opts,
            trimmed(trimmed(opt_view(rem.last_command))),
            trimmed(opt_view(rem.last_session)),
            c3.0,
            c3.1,
        )
    } else {
        c3
    };
    &&& g.sessions.title@ == labels.title_session@
    &&& if o.mock && sessions.len() == 0 {
        is_mock_list(opts)
    } else {
        opts == sessions
    }
    &&& (g.username.value@, opt_view(g.username.mask)) == u2
    &&& g.sessions.selected as int == c5.0
    &&& g.session_source@ == c5.1
    &&& g == (Greeter { sessions: g.sessions, username: g.username, session_source: g.session_source, ..o })
}

/// The selection after a remembered command and session path.
fn choose_remembered(
    opts: &Vec<Session>,
    command: &Option<String>,
    path: &Option<String>,
    sel: usize,
    src: SessionSource,
) -> (r: (usize, SessionSource))
    ensures
        (r.0 as int, r.1@) == remembered_choice(
            opts@,
            trimmed(opt_view(*command)),
            trimmed(opt_view(*path)),
            sel as int,
            src@,
        ),
{
    let s2 = match command {
        Some(c) => SessionSource::Command(trim_str(c.as_str())),
        None => src,
    };
    match path {
        Some(p) => {
            let t = trim_str(p.as_str());
            match position_of_path(opts, t.as_str()) {
                Some(i) => (i, SessionSource::Session(i)),
                None => (sel, s2),
            }
        },
        None => (sel, s2),
    }
}

/// The greeter `o` with the session menu filled and remembered choices
/// applied.
#[verifier::rlimit(60)]
fn with_sessions(o: Greeter, sessions: Vec<Session>, rem: &Remembered, labels: &Labels) -> (g: Greeter)
    ensures
        sessions_prepared(o, g, sessions@, *rem, *labels),
{
    let opts = if o.mock && sessions.len() == 0 {
        mock_sessions()
    } else {
        sessions
    };
    let s1 = match o.session_source {
        SessionSource::Unselected => if opts.len() > 0 {
            SessionSource::Session(0)
        } else {
            SessionSource::Unselected
        },
        other => other,
    };
    let username = match &o.default_user {
        Some(u) => MaskedString::from(u.clone(), None),
        None => o.username,
    };
    let last = get_last_user_username(&rem.last_username);
    let by_user = o.remember && last.is_some();
    let username = match last {
        Some(l) => if o.remember {
            MaskedString::from(l, get_last_user_name(&rem.last_name))
        } else {
            username
        },
        None => username,
    };
    let (sel, src) = if by_user && o.remember_user_session {
        choose_remembered(&opts, &rem.last_user_command, &rem.last_user_session, 0, s1)
    } else {
        (0, s1)
    };
    let (sel, src) = if o.remember_session {
        let cmd = match &rem.last_command {
            Some(c) => Some(trim_str(c.as_str())),
            None => None,
        };
        choose_remembered(&opts, &cmd, &rem.last_session, sel, src)
    } else {
        (sel, src)
    };
    Greeter {
        sessions: Menu { title: labels.title_session.clone(), options: opts, selected: sel },
        username,
        session_source: src,
        ..o
    }
}

impl Greeter {
    /// Apply the configuration `c` to the greeter, respecting the command
    /// line: a setting that the command line gave keeps its value, every
    /// other takes the value of `c` (session directories are added, and a
    /// configured X session wrapper is taken unless the command line named
    /// one or said `--no-xsession-wrapper`). The background animation follows
    /// the command line's background options layered over those of `c`.
    pub fn apply_config(&mut self, c: &Config, facts: &HostFacts, labels: &Labels)
        requires
            c.session.xsession_wrapper is Some ==> old(self).config is Some,
        ensures
            config_applied(*old(self), *final(self), c@, *facts, *labels),
    {
        let mut before = Greeter::default();
        core::mem::swap(self, &mut before);
        *self = with_config(before, c, facts, labels);
    }

    /// Apply the theme: the colors of `theme_config`, each overridden by the
    /// component that the command line's theme specification `cli_theme`
    /// (`border=red;text=blue;...`) names, when there is one.
    pub fn apply_theme_config(&mut self, theme_config: &ThemeConfig, cli_theme: Option<&str>)
        ensures
            final(self).theme@ == match cli_theme {
                Some(t) => layer_theme(theme_config@, spec_theme(t@)),
                None => theme_config@,
            },
            *final(self) == (Greeter { theme: final(self).theme, ..*old(self) }),
    {
        let mut theme = copy_theme(theme_config);
        if let Some(t) = cli_theme {
            apply_theme_layer(&mut theme, theme_from_spec(t));
        }
        self.theme = theme;
    }

    /// Fill the session menu with `sessions` (the placeholders in the mock-up
    /// mode when there are none), select the first when nothing is selected,
    /// pre-fill the default user, and apply the choices remembered from
    /// earlier runs: the last user, then that user's last command and
    /// session, then the last command and session of anyone.
    pub fn prepare_sessions(&mut self, sessions: Vec<Session>, rem: &Remembered, labels: &Labels)
        ensures
            sessions_prepared(*old(self), *final(self), sessions@, *rem, *labels),
    {
        let mut before = Greeter::default();
        core::mem::swap(self, &mut before);
        *self = with_sessions(before, sessions, rem, labels);
    }
}
/// What [`Greeter::start_requests`] makes of `o` and asks for.
pub open spec fn started(o: Greeter, g: Greeter, r: Seq<String>) -> bool {
    let remembered = o.remember && o.username.value@.len() > 0;
    let sole = o.user_menu && o.users.options@.len() == 1;
    &&& r.len() == (if remembered { 1int } else { 0int }) + (if sole { 1int } else { 0int })
    &&& remembered ==> r[0]@ == o.username.value@
    &&& sole ==> r[r.len() - 1]@ == o.users.options@[0].username@ && g.username.value@
        == o.users.options@[0].username@ && opt_view(g.username.mask) == opt_view(
        o.users.options@[0].name,
    )
    &&& !sole ==> g.username == o.username
    &&& g.working == (o.working || remembered || sole)
    &&& g == (Greeter { working: g.working, username: g.username, ..o })
}

fn with_start(o: Greeter) -> (r: (Greeter, Vec<String>))
    ensures
        started(o, r.0, r.1@),
{
    let mut reqs: Vec<String> = Vec::new();
    let remembered = o.remember && o.username.value.unicode_len() > 0;
    if remembered {
        reqs.push(o.username.value.clone());
    }
    let sole = o.user_menu && o.users.options.len() == 1;
    let username = if sole {
        let user = &o.users.options[0];
        MaskedString::from(user.username.clone(), copy_opt(&user.name))
    } else {
        o.username
    };
    if sole {
        reqs.push(username.value.clone());
    }
    (Greeter { working: o.working || remembered || sole, username, ..o }, reqs)
}

impl Greeter {
    /// The command line read by [`Greeter::parse_options`].
    pub fn config(&self) -> (r: &CliMatches)
        requires
            self.config is Some,
        ensures
            *r == self.config.unwrap(),
    {
        self.config.as_ref().unwrap()
    }

    /// The usernames to open a greetd session for when the greeter starts:
    /// the remembered user, when there is one; then the only user of the
    /// user menu, who becomes the current username. Each request makes the
    /// greeter wait for greetd.
    pub fn start_requests(&mut self) -> (r: Vec<String>)
        ensures
            started(*old(self), *final(self), r@),
    {
        let mut before = Greeter::default();
        core::mem::swap(self, &mut before);
        let (after, r) = with_start(before);
        *self = after;
        r
    }

    /// Record that the greeter exits with `status`; the answer is whether
    /// the pending greetd session is to be cancelled first (for a failure or
    /// a cancellation).
    pub fn prepare_exit(&mut self, status: AuthStatus) -> (cancel: bool)
        ensures
            cancel == (status != AuthStatus::Success),
            *final(self) == (Greeter { exit: Some(status), ..*old(self) }),
    {
        self.exit = Some(status);
        match status {
            AuthStatus::Success => false,
            AuthStatus::Cancel | AuthStatus::Failure => true,
        }
    }
}

} // verus!

verus! {

/// The first entry of `s` whose desktop-entry path is `p` is entry `i`.
proof fn lemma_first_path_at(s: Seq<Session>, p: Seq<char>, i: int)
    requires
        0 <= i < s.len(),
        opt_view(s[i].path) == Some(p),
        forall|j: int| 0 <= j < i ==> opt_view(#[trigger] s[j].path) != Some(p),
    ensures
        first_path_index(s, p) == Some(i),
    decreases i,
{
    if i > 0 {
        let t = s.drop_first();
        assert forall|j: int| 0 <= j < i - 1 implies opt_view(#[trigger] t[j].path) != Some(p) by {
            assert(t[j] == s[j + 1]);
        }
        assert(t[i - 1] == s[i]);
        assert(opt_view(s[0].path) != Some(p));
        lemma_first_path_at(t, p, i - 1);
    }
}

/// With `--remember-session`, the session remembered from the last run is
/// selected: when the remembered path is that of menu entry `i` (the first
/// entry with that path), preparing the sessions selects entry `i` and
/// makes it the session to start, whatever the per-user memory and the
/// remembered command hold.
pub proof fn lemma_remembered_session_selected(
    o: Greeter,
    g: Greeter,
    sessions: Seq<Session>,
    rem: Remembered,
    labels: Labels,
    i: int,
)
    requires
        sessions_prepared(o, g, sessions, rem, labels),
        o.remember_session,
        0 <= i < g.sessions.options@.len(),
        g.sessions.options@[i].path is Some,
        opt_view(rem.last_session) == opt_view(g.sessions.options@[i].path),
        trim(g.sessions.options@[i].path->0@) == g.sessions.options@[i].path->0@,
        forall|j: int|
            0 <= j < i ==> opt_view(#[trigger] g.sessions.options@[j].path) != opt_view(
                g.sessions.options@[i].path,
            ),
    ensures
        g.sessions.selected == i,
        g.session_source@ == SourceView::Session(i),
{
    let p = g.sessions.options@[i].path->0@;
    lemma_first_path_at(g.sessions.options@, p, i);
}

/// With `--remember` and `--remember-user-session` and a user remembered
/// from the last run, that user is entered and the session remembered for
/// them is selected: when its path is that of menu entry `i` (the first
/// entry with that path) and no session is remembered for everyone,
/// preparing the sessions selects entry `i` and makes it the session to
/// start.
pub proof fn lemma_remembered_user_session_selected(
    o: Greeter,
    g: Greeter,
    sessions: Seq<Session>,
    rem: Remembered,
    labels: Labels,
    i: int,
)
    requires
        sessions_prepared(o, g, sessions, rem, labels),
        o.remember,
        o.remember_user_session,
        spec_read_trimmed(opt_view(rem.last_username)) is Some,
        !o.remember_session || rem.last_session is None,
        !o.remember_session || rem.last_command is None,
        0 <= i < g.sessions.options@.len(),
        g.sessions.options@[i].path is Some,
        opt_view(rem.last_user_session) == opt_view(g.sessions.options@[i].path),
        trim(g.sessions.options@[i].path->0@) == g.sessions.options@[i].path->0@,
        forall|j: int|
            0 <= j < i ==> opt_view(#[trigger] g.sessions.options@[j].path) != opt_view(
                g.sessions.options@[i].path,
            ),
    ensures
        g.username.value@ == spec_read_trimmed(opt_view(rem.last_username))->0,
        g.sessions.selected == i,
        g.session_source@ == SourceView::Session(i),
{
    let p = g.sessions.options@[i].path->0@;
    lemma_first_path_at(g.sessions.options@, p, i);
}

/// With `--remember-session`, a command remembered from the last run, and
/// no remembered session, the remembered command (trimmed) becomes what is
/// started.
pub proof fn lemma_remembered_command_used(
    o: Greeter,
    g: Greeter,
    sessions: Seq<Session>,
    rem: Remembered,
    labels: Labels,
)
    requires
        sessions_prepared(o, g, sessions, rem, labels),
        o.remember_session,
        rem.last_command is Some,
        rem.last_session is None,
    ensures
        g.session_source@ == SourceView::Command(trim(trim(rem.last_command->0@))),
{
}

} // verus!
