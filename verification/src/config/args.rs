//! Configuration from the command line: the settings that the parsed options
//! describe, on top of the defaults.
//!
//! Numbers parse as `str::parse` does for the field's integer type; a number
//! that does not parse leaves the setting alone. An option that the option
//! table does not define counts as absent.
use vstd::prelude::*;

use crate::cli::{CliMatches, OptMatchView, spec_opt_str, spec_opt_strs, spec_present};
use crate::config::schema::{
    AlignGreeting, BackgroundConfig, BackgroundConfigView, Config, ConfigView, DisplayConfig,
    DisplayConfigView, DoomConfig, DoomConfigView, GeneralConfig, GeneralConfigView,
    KeybindingsConfig, LayoutConfig, MatrixConfig, MatrixConfigView, PowerConfig,
    PowerConfigView, RememberConfig, RememberConfigView, SecretConfig, SecretConfigView,
    SecretMode, SessionConfig, SessionConfigView, UserMenuConfig, default_config,
};
use crate::text::{chars_of, parse_unsigned, parse_unsigned_range, range_eq, split_map, split_pieces};

verus! {

/// The argument of option `name` read as a number no larger than `max`.
pub open spec fn arg_number(m: Seq<OptMatchView>, name: Seq<char>, max: nat) -> Option<nat> {
    match spec_opt_str(m, name) {
        Some(v) => parse_unsigned(v, max),
        None => None,
    }
}

/// The argument of option `name`, or `def` when it is absent.
pub open spec fn arg_string(m: Seq<OptMatchView>, name: Seq<char>, def: Option<Seq<char>>) -> Option<
    Seq<char>,
> {
    match spec_opt_str(m, name) {
        Some(v) => Some(v),
        None => def,
    }
}

/// A switch: `true` when option `name` occurred, `def` otherwise.
pub open spec fn arg_switch(m: Seq<OptMatchView>, name: Seq<char>, def: bool) -> bool {
    spec_present(m, name) || def
}

/// The pieces of the argument of option `name` split at `c` (trimmed when
/// `t` holds), when the option occurred.
pub open spec fn arg_pieces(m: Seq<OptMatchView>, name: Seq<char>, c: char, t: bool) -> Option<
    Seq<Seq<char>>,
> {
    match spec_opt_str(m, name) {
        Some(v) => Some(split_map(v, c, t)),
        None => None,
    }
}

/// The alignment that `--greet-align` names: `left` and `right` exactly,
/// anything else centers.
pub open spec fn align_of(v: Seq<char>) -> AlignGreeting {
    if v == "left"@ {
        AlignGreeting::Left
    } else if v == "right"@ {
        AlignGreeting::Right
    } else {
        AlignGreeting::Center
    }
}

/// Three comma-separated colors, when the option carries exactly three.
pub open spec fn arg_three(m: Seq<OptMatchView>, name: Seq<char>) -> Option<Seq<Seq<char>>> {
    match arg_pieces(m, name, ',', true) {
        Some(p) => if p.len() == 3 {
            Some(p)
        } else {
            None
        },
        None => None,
    }
}

/// The session settings that the options `m` describe.
pub open spec fn cli_session(m: Seq<OptMatchView>) -> SessionConfigView {
    let d = default_config().session;
    SessionConfigView {
        command: arg_string(m, "cmd"@, d.command),
        sessions_dirs: match arg_pieces(m, "sessions"@, ':', false) {
            Some(p) => p,
            None => d.sessions_dirs,
        },
        xsessions_dirs: match arg_pieces(m, "xsessions"@, ':', false) {
            Some(p) => p,
            None => d.xsessions_dirs,
        },
        session_wrapper: arg_string(m, "session-wrapper"@, d.session_wrapper),
        xsession_wrapper: if spec_present(m, "no-xsession-wrapper"@) {
            d.xsession_wrapper
        } else {
            arg_string(m, "xsession-wrapper"@, d.xsession_wrapper)
        },
        environments: if spec_present(m, "env"@) {
            spec_opt_strs(m, "env"@)
        } else {
            d.environments
        },
    }
}

/// The display settings that the options `m` describe.
pub open spec fn cli_display(m: Seq<OptMatchView>) -> DisplayConfigView {
    let d = default_config().display;
    DisplayConfigView {
        show_time: arg_switch(m, "time"@, d.show_time),
        time_format: arg_string(m, "time-format"@, d.time_format),
        greeting: arg_string(m, "greeting"@, d.greeting),
        show_title: arg_switch(m, "title"@, d.show_title),
        custom_title: arg_string(m, "custom-title"@, d.custom_title),
        issue: arg_switch(m, "issue"@, d.issue),
        align_greeting: match spec_opt_str(m, "greet-align"@) {
            Some(v) => align_of(v),
            None => d.align_greeting,
        },
    }
}

/// The number of option `name`, when it parses and fits under `max`, else `def`.
pub open spec fn arg_or(m: Seq<OptMatchView>, name: Seq<char>, max: nat, def: int) -> int {
    match arg_number(m, name, max) {
        Some(n) => n as int,
        None => def,
    }
}

/// The number of option `name` as a `u16` setting, else `def`.
pub open spec fn arg_opt_u16(m: Seq<OptMatchView>, name: Seq<char>, def: Option<u16>) -> Option<
    u16,
> {
    match arg_number(m, name, 0xffff) {
        Some(n) => Some(n as u16),
        None => def,
    }
}

/// The number of option `name` as a `u8` setting, else `def`.
pub open spec fn arg_opt_u8(m: Seq<OptMatchView>, name: Seq<char>, def: Option<u8>) -> Option<u8> {
    match arg_number(m, name, 0xff) {
        Some(n) => Some(n as u8),
        None => def,
    }
}

/// The background settings that the options `m` describe.
pub open spec fn cli_background(m: Seq<OptMatchView>) -> BackgroundConfigView {
    let d = default_config().background;
    let doom = arg_three(m, "doom-colors"@);
    BackgroundConfigView {
        kind: arg_string(m, "background"@, d.kind),
        fps: match arg_number(m, "background-fps"@, 0xffff_ffff) {
            Some(n) => Some(n as u32),
            None => d.fps,
        },
        doom: DoomConfigView {
            height: arg_opt_u8(m, "doom-height"@, d.doom.height),
            spread: arg_opt_u8(m, "doom-spread"@, d.doom.spread),
            top_color: match doom {
                Some(p) => Some(p[0]),
                None => d.doom.top_color,
            },
            middle_color: match doom {
                Some(p) => Some(p[1]),
                None => d.doom.middle_color,
            },
            bottom_color: match doom {
                Some(p) => Some(p[2]),
                None => d.doom.bottom_color,
            },
        },
        matrix: d.matrix,
    }
}

/// The configuration that the options `m` describe: every setting that an
/// option names takes the option's value, every other keeps its default.
/// No option names a setting of the digital rain, so those keep their
/// defaults.
pub open spec fn cli_config(m: Seq<OptMatchView>) -> ConfigView {
    let d = default_config();
    ConfigView {
        general: GeneralConfigView {
            debug: arg_switch(m, "debug"@, d.general.debug),
            log_file: d.general.log_file,
        },
        session: cli_session(m),
        display: cli_display(m),
        remember: RememberConfigView {
            default_user: arg_string(m, "user"@, d.remember.default_user),
            username: arg_switch(m, "remember"@, d.remember.username),
            session: arg_switch(m, "remember-session"@, d.remember.session),
            user_session: arg_switch(m, "remember-user-session"@, d.remember.user_session),
        },
        user_menu: UserMenuConfig {
            enabled: arg_switch(m, "user-menu"@, d.user_menu.enabled),
            min_uid: arg_or(m, "user-menu-min-uid"@, 0xffff_ffff, d.user_menu.min_uid as int) as u32,
            max_uid: arg_or(m, "user-menu-max-uid"@, 0xffff_ffff, d.user_menu.max_uid as int) as u32,
        },
        secret: SecretConfigView {
            mode: if spec_present(m, "asterisks"@) {
                SecretMode::Characters
            } else {
                d.secret.mode
            },
            characters: match spec_opt_str(m, "asterisks-char"@) {
                Some(v) => v,
                None => d.secret.characters,
            },
        },
        layout: LayoutConfig {
            width: arg_or(m, "width"@, 0xffff, d.layout.width as int) as u16,
            window_padding: arg_opt_u16(m, "window-padding"@, d.layout.window_padding),
            container_padding: arg_opt_u16(m, "container-padding"@, d.layout.container_padding),
            prompt_padding: arg_opt_u16(m, "prompt-padding"@, d.layout.prompt_padding),
            widgets: d.layout.widgets,
        },
        power: PowerConfigView {
            shutdown: arg_string(m, "power-shutdown"@, d.power.shutdown),
            reboot: arg_string(m, "power-reboot"@, d.power.reboot),
            use_setsid: if spec_present(m, "power-no-setsid"@) {
                false
            } else {
                d.power.use_setsid
            },
        },
        keybindings: KeybindingsConfig {
            command: arg_or(m, "kb-command"@, 0xff, d.keybindings.command as int) as u8,
            sessions: arg_or(m, "kb-sessions"@, 0xff, d.keybindings.sessions as int) as u8,
            power: arg_or(m, "kb-power"@, 0xff, d.keybindings.power as int) as u8,
            background: arg_or(m, "kb-background"@, 0xff, d.keybindings.background as int) as u8,
        },
        background: cli_background(m),
        theme: d.theme,
        outputs: d.outputs,
        terminal: d.terminal,
    }
}

/// The argument of option `name` as a number no larger than `max`.
fn get_number(m: &CliMatches, name: &str, max: u64) -> (r: Option<u64>)
    ensures
        r == (match arg_number(m@, name@, max as nat) {
            Some(n) => Some(n as u64),
            None => None,
        }),
{
    match m.opt_str(name) {
        Some(v) => {
            let c = chars_of(v.as_str());
            assert(c@.subrange(0, c@.len() as int) =~= c@);
            parse_unsigned_range(&c, 0, c.len(), max)
        },
        None => None,
    }
}

fn get_string(m: &CliMatches, name: &str, def: Option<String>) -> (r: Option<String>)
    ensures
        crate::text::opt_view(r) == arg_string(m@, name@, crate::text::opt_view(def)),
{
    match m.opt_str(name) {
        Some(v) => Some(v),
        None => def,
    }
}

fn get_pieces(m: &CliMatches, name: &str, c: char, t: bool) -> (r: Option<Vec<String>>)
    ensures
        match r {
            Some(v) => arg_pieces(m@, name@, c, t) == Some(crate::text::strings_view(v@)),
            None => arg_pieces(m@, name@, c, t).is_none(),
        },
{
    match m.opt_str(name) {
        Some(v) => Some(split_pieces(v.as_str(), c, t)),
        None => None,
    }
}

/// The three colors of option `name`, when it carries exactly three.
fn get_three(m: &CliMatches, name: &str) -> (r: Option<(String, String, String)>)
    ensures
        match r {
            Some(t) => arg_three(m@, name@) matches Some(p) && p[0] == t.0@ && p[1] == t.1@ && p[2]
                == t.2@,
            None => arg_three(m@, name@).is_none(),
        },
{
    match get_pieces(m, name, ',', true) {
        Some(p) => if p.len() == 3 {
            Some((p[0].clone(), p[1].clone(), p[2].clone()))
        } else {
            None
        },
        None => None,
    }
}

fn cli_session_of(m: &CliMatches) -> (r: SessionConfig)
    ensures
        r@ == cli_session(m@),
{
    let d = SessionConfig::default();
    let sessions_dirs = match get_pieces(m, "sessions", ':', false) {
        Some(p) => p,
        None => d.sessions_dirs,
    };
    let xsessions_dirs = match get_pieces(m, "xsessions", ':', false) {
        Some(p) => p,
        None => d.xsessions_dirs,
    };
    let xsession_wrapper = if m.opt_present("no-xsession-wrapper") {
        d.xsession_wrapper
    } else {
        get_string(m, "xsession-wrapper", d.xsession_wrapper)
    };
    let environments = if m.opt_present("env") {
        m.opt_strs("env")
    } else {
        d.environments
    };
    SessionConfig {
        command: get_string(m, "cmd", d.command),
        sessions_dirs,
        xsessions_dirs,
        session_wrapper: get_string(m, "session-wrapper", d.session_wrapper),
        xsession_wrapper,
        environments,
    }
}

fn cli_display_of(m: &CliMatches) -> (r: DisplayConfig)
    ensures
        r@ == cli_display(m@),
{
    let d = DisplayConfig::default();
    let align_greeting = match m.opt_str("greet-align") {
        Some(v) => {
            let c = chars_of(v.as_str());
            assert(c@.subrange(0, c@.len() as int) =~= c@);
            if range_eq(&c, 0, c.len(), "left") {
                AlignGreeting::Left
            } else if range_eq(&c, 0, c.len(), "right") {
                AlignGreeting::Right
            } else {
                AlignGreeting::Center
            }
        },
        None => d.align_greeting,
    };
    DisplayConfig {
        show_time: m.opt_present("time") || d.show_time,
        time_format: get_string(m, "time-format", d.time_format),
        greeting: get_string(m, "greeting", d.greeting),
        show_title: m.opt_present("title") || d.show_title,
        custom_title: get_string(m, "custom-title", d.custom_title),
        issue: m.opt_present("issue") || d.issue,
        align_greeting,
    }
}

fn get_u8(m: &CliMatches, name: &str, def: u8) -> (r: u8)
    ensures
        r == arg_or(m@, name@, 0xff, def as int) as u8,
{
    match get_number(m, name, 0xff) {
        Some(n) => n as u8,
        None => def,
    }
}

fn get_u16(m: &CliMatches, name: &str, def: Option<u16>) -> (r: Option<u16>)
    ensures
        r == arg_opt_u16(m@, name@, def),
{
    match get_number(m, name, 0xffff) {
        Some(n) => Some(n as u16),
        None => def,
    }
}

fn get_opt_u8(m: &CliMatches, name: &str, def: Option<u8>) -> (r: Option<u8>)
    ensures
        r == arg_opt_u8(m@, name@, def),
{
    match get_number(m, name, 0xff) {
        Some(n) => Some(n as u8),
        None => def,
    }
}

pub(crate) fn cli_background_of(m: &CliMatches) -> (r: BackgroundConfig)
    ensures
        r@ == cli_background(m@),
{
    let d = BackgroundConfig::default();
    let fps = match get_number(m, "background-fps", 0xffff_ffff) {
        Some(n) => Some(n as u32),
        None => d.fps,
    };
    let mut doom = DoomConfig::default();
    doom.height = get_opt_u8(m, "doom-height", None);
    doom.spread = get_opt_u8(m, "doom-spread", None);
    if let Some((a, b, c)) = get_three(m, "doom-colors") {
        doom.top_color = Some(a);
        doom.middle_color = Some(b);
        doom.bottom_color = Some(c);
    }
    let matrix = MatrixConfig::default();
    BackgroundConfig { kind: get_string(m, "background", d.kind), fps, doom, matrix }
}

/// The configuration that the parsed command line `m` describes, the
/// highest-priority layer of the configuration.
///
/// Settings that no option names, the digital rain's among them, keep their
/// defaults.
pub fn extract_cli_config(m: &CliMatches) -> (r: Config)
    ensures
        r@ == cli_config(m@),
{
    let d = Config::default();
    let general = GeneralConfig {
        debug: m.opt_present("debug") || d.general.debug,
        log_file: d.general.log_file,
    };
    let remember = RememberConfig {
        default_user: get_string(m, "user", d.remember.default_user),
        username: m.opt_present("remember") || d.remember.username,
        session: m.opt_present("remember-session") || d.remember.session,
        user_session: m.opt_present("remember-user-session") || d.remember.user_session,
    };
    let user_menu = UserMenuConfig {
        enabled: m.opt_present("user-menu") || d.user_menu.enabled,
        min_uid: match get_number(m, "user-menu-min-uid", 0xffff_ffff) {
            Some(n) => n as u32,
            None => d.user_menu.min_uid,
        },
        max_uid: match get_number(m, "user-menu-max-uid", 0xffff_ffff) {
            Some(n) => n as u32,
            None => d.user_menu.max_uid,
        },
    };
    let secret = SecretConfig {
        mode: if m.opt_present("asterisks") {
            SecretMode::Characters
        } else {
            d.secret.mode
        },
        characters: match m.opt_str("asterisks-char") {
            Some(v) => v,
            None => d.secret.characters,
        },
    };
    let layout = LayoutConfig {
        width: match get_number(m, "width", 0xffff) {
            Some(n) => n as u16,
            None => d.layout.width,
        },
        window_padding: get_u16(m, "window-padding", d.layout.window_padding),
        container_padding: get_u16(m, "container-padding", d.layout.container_padding),
        prompt_padding: get_u16(m, "prompt-padding", d.layout.prompt_padding),
        widgets: d.layout.widgets,
    };
    let power = PowerConfig {
        shutdown: get_string(m, "power-shutdown", d.power.shutdown),
        reboot: get_string(m, "power-reboot", d.power.reboot),
        use_setsid: if m.opt_present("power-no-setsid") {
            false
        } else {
            d.power.use_setsid
        },
    };
    let keybindings = KeybindingsConfig {
        command: get_u8(m, "kb-command", d.keybindings.command),
        sessions: get_u8(m, "kb-sessions", d.keybindings.sessions),
        power: get_u8(m, "kb-power", d.keybindings.power),
        background: get_u8(m, "kb-background", d.keybindings.background),
    };
    Config {
        general,
        session: cli_session_of(m),
        display: cli_display_of(m),
        remember,
        user_menu,
        secret,
        layout,
        power,
        keybindings,
        background: cli_background_of(m),
        theme: d.theme,
        outputs: d.outputs,
        terminal: d.terminal,
    }
}

/// A command line that names no option describes the default
/// configuration.
pub proof fn lemma_no_options_is_default(m: Seq<OptMatchView>)
    requires
        forall|n: Seq<char>| !#[trigger] spec_present(m, n) && spec_opt_str(m, n) is None,
    ensures
        cli_config(m) == crate::config::schema::default_config(),
{
    assert forall|n: Seq<char>| #[trigger] spec_opt_str(m, n) == None::<Seq<char>> by {
        assert(!spec_present(m, n));
    }
}

/// Each option sets its own setting: a switch that occurs turns its
/// setting on, an option with an argument makes that argument the
/// setting's value, and a setting whose option is absent keeps its default.
pub proof fn lemma_options_set_their_settings(m: Seq<OptMatchView>)
    ensures
        match spec_opt_str(m, "cmd"@) {
            Some(v) => cli_config(m).session.command == Some(v),
            None => cli_config(m).session.command == default_config().session.command,
        },
        match spec_opt_str(m, "session-wrapper"@) {
            Some(v) => cli_config(m).session.session_wrapper == Some(v),
            None => cli_config(m).session.session_wrapper == default_config().session.session_wrapper,
        },
        !spec_present(m, "no-xsession-wrapper"@) ==> match spec_opt_str(m, "xsession-wrapper"@) {
            Some(v) => cli_config(m).session.xsession_wrapper == Some(v),
            None => cli_config(m).session.xsession_wrapper == default_config().session.xsession_wrapper,
        },
        spec_present(m, "no-xsession-wrapper"@) ==> cli_config(m).session.xsession_wrapper
            == default_config().session.xsession_wrapper,
        spec_present(m, "time"@) ==> cli_config(m).display.show_time,
        !spec_present(m, "time"@) ==> cli_config(m).display.show_time == default_config().display.show_time,
        match spec_opt_str(m, "time-format"@) {
            Some(v) => cli_config(m).display.time_format == Some(v),
            None => cli_config(m).display.time_format == default_config().display.time_format,
        },
        match spec_opt_str(m, "greeting"@) {
            Some(v) => cli_config(m).display.greeting == Some(v),
            None => cli_config(m).display.greeting == default_config().display.greeting,
        },
        spec_present(m, "title"@) ==> cli_config(m).display.show_title,
        !spec_present(m, "title"@) ==> cli_config(m).display.show_title == default_config().display.show_title,
        match spec_opt_str(m, "custom-title"@) {
            Some(v) => cli_config(m).display.custom_title == Some(v),
            None => cli_config(m).display.custom_title == default_config().display.custom_title,
        },
        spec_present(m, "issue"@) ==> cli_config(m).display.issue,
        !spec_present(m, "issue"@) ==> cli_config(m).display.issue == default_config().display.issue,
        match spec_opt_str(m, "background"@) {
            Some(v) => cli_config(m).background.kind == Some(v),
            None => cli_config(m).background.kind == default_config().background.kind,
        },
        spec_present(m, "debug"@) ==> cli_config(m).general.debug,
        !spec_present(m, "debug"@) ==> cli_config(m).general.debug == default_config().general.debug,
        match spec_opt_str(m, "user"@) {
            Some(v) => cli_config(m).remember.default_user == Some(v),
            None => cli_config(m).remember.default_user == default_config().remember.default_user,
        },
        spec_present(m, "remember"@) ==> cli_config(m).remember.username,
        !spec_present(m, "remember"@) ==> cli_config(m).remember.username == default_config().remember.username,
        spec_present(m, "remember-session"@) ==> cli_config(m).remember.session,
        !spec_present(m, "remember-session"@) ==> cli_config(m).remember.session == default_config().remember.session,
        spec_present(m, "remember-user-session"@) ==> cli_config(m).remember.user_session,
        !spec_present(m, "remember-user-session"@) ==> cli_config(m).remember.user_session == default_config().remember.user_session,
        spec_present(m, "user-menu"@) ==> cli_config(m).user_menu.enabled,
        !spec_present(m, "user-menu"@) ==> cli_config(m).user_menu.enabled == default_config().user_menu.enabled,
        match spec_opt_str(m, "power-shutdown"@) {
            Some(v) => cli_config(m).power.shutdown == Some(v),
            None => cli_config(m).power.shutdown == default_config().power.shutdown,
        },
        match spec_opt_str(m, "power-reboot"@) {
            Some(v) => cli_config(m).power.reboot == Some(v),
            None => cli_config(m).power.reboot == default_config().power.reboot,
        },
{
}

} // verus!
