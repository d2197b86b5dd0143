//! The command-line interface: the option table, the matches that parsing
//! yields, and the configuration that the command line describes.
use vstd::prelude::*;

use getopts::HasArg as GA;
use getopts::Occur as GO;

use self::HasArg::{Maybe, No, Yes};
use self::Occur::{Multi, Optional};

use crate::text::{is_ascii_seq, opt_view, strings_view};

verus! {

/// Whether an option takes an argument.
#[derive(Debug, Clone, Copy, PartialEq, Eq, Structural)]
pub enum HasArg {
    /// Never takes an argument.
    No,
    /// Always takes an argument.
    Yes,
    /// Takes an argument when one is attached to it.
    Maybe,
}

/// How often an option may occur.
#[derive(Debug, Clone, Copy, PartialEq, Eq, Structural)]
pub enum Occur {
    /// At most once.
    Optional,
    /// Any number of times.
    Multi,
}

/// One command-line option.
#[derive(Debug, Clone)]
pub struct OptSpec {
    /// One-character name, or empty.
    pub short: String,
    /// Long name.
    pub long: String,
    /// Description for the usage text.
    pub desc: String,
    /// Name of the argument for the usage text.
    pub hint: String,
    pub hasarg: HasArg,
    pub occur: Occur,
}

/// Mathematical view of an [`OptSpec`].
pub struct OptSpecView {
    pub short: Seq<char>,
    pub long: Seq<char>,
    pub desc: Seq<char>,
    pub hint: Seq<char>,
    pub hasarg: HasArg,
    pub occur: Occur,
}

impl View for OptSpec {
    type V = OptSpecView;

    open spec fn view(&self) -> OptSpecView {
        OptSpecView {
            short: self.short@,
            long: self.long@,
            desc: self.desc@,
            hint: self.hint@,
            hasarg: self.hasarg,
            occur: self.occur,
        }
    }
}

/// An option the option parser accepts: a short name of at most one ASCII
/// character and an ASCII long name of at least two characters.
pub open spec fn valid_opt_spec(o: OptSpecView) -> bool {
    &&& o.short.len() <= 1
    &&& is_ascii_seq(o.short)
    &&& o.long.len() >= 2
    &&& is_ascii_seq(o.long)
}

/// The views of the options `s`.
pub open spec fn specs_view(s: Seq<OptSpec>) -> Seq<OptSpecView> {
    s.map_values(|o: OptSpec| o@)
}

/// Names and kinds of the greeter's options, in order.
pub open spec fn option_table() -> Seq<(Seq<char>, Seq<char>, HasArg, Occur)> {
    seq![
        ("h"@, "help"@, HasArg::No, Occur::Optional),
        ("v"@, "version"@, HasArg::No, Occur::Optional),
        ("d"@, "debug"@, HasArg::Maybe, Occur::Optional),
        ("c"@, "cmd"@, HasArg::Yes, Occur::Optional),
        (""@, "env"@, HasArg::Yes, Occur::Multi),
        ("s"@, "sessions"@, HasArg::Yes, Occur::Optional),
        (""@, "session-wrapper"@, HasArg::Yes, Occur::Optional),
        ("x"@, "xsessions"@, HasArg::Yes, Occur::Optional),
        (""@, "xsession-wrapper"@, HasArg::Yes, Occur::Optional),
        (""@, "no-xsession-wrapper"@, HasArg::No, Occur::Optional),
        ("w"@, "width"@, HasArg::Yes, Occur::Optional),
        ("i"@, "issue"@, HasArg::No, Occur::Optional),
        ("g"@, "greeting"@, HasArg::Yes, Occur::Optional),
        (""@, "title"@, HasArg::No, Occur::Optional),
        (""@, "custom-title"@, HasArg::Yes, Occur::Optional),
        ("t"@, "time"@, HasArg::No, Occur::Optional),
        (""@, "time-format"@, HasArg::Yes, Occur::Optional),
        ("u"@, "user"@, HasArg::Yes, Occur::Optional),
        ("r"@, "remember"@, HasArg::No, Occur::Optional),
        (""@, "remember-session"@, HasArg::No, Occur::Optional),
        (""@, "remember-user-session"@, HasArg::No, Occur::Optional),
        (""@, "user-menu"@, HasArg::No, Occur::Optional),
        (""@, "user-menu-min-uid"@, HasArg::Yes, Occur::Optional),
        (""@, "user-menu-max-uid"@, HasArg::Yes, Occur::Optional),
        (""@, "theme"@, HasArg::Yes, Occur::Optional),
        (""@, "asterisks"@, HasArg::No, Occur::Optional),
        (""@, "asterisks-char"@, HasArg::Yes, Occur::Optional),
        (""@, "window-padding"@, HasArg::Yes, Occur::Optional),
        (""@, "container-padding"@, HasArg::Yes, Occur::Optional),
        (""@, "prompt-padding"@, HasArg::Yes, Occur::Optional),
        (""@, "greet-align"@, HasArg::Yes, Occur::Optional),
        (""@, "power-shutdown"@, HasArg::Yes, Occur::Optional),
        (""@, "power-reboot"@, HasArg::Yes, Occur::Optional),
        (""@, "power-no-setsid"@, HasArg::No, Occur::Optional),
        (""@, "kb-command"@, HasArg::Yes, Occur::Optional),
        (""@, "kb-sessions"@, HasArg::Yes, Occur::Optional),
        (""@, "kb-power"@, HasArg::Yes, Occur::Optional),
        (""@, "kb-background"@, HasArg::Yes, Occur::Optional),
        (""@, "config"@, HasArg::Yes, Occur::Optional),
        (""@, "no-config"@, HasArg::No, Occur::Optional),
        (""@, "dump-config"@, HasArg::No, Occur::Optional),
        (""@, "list-outputs"@, HasArg::No, Occur::Optional),
        (""@, "background"@, HasArg::Yes, Occur::Optional),
        (""@, "background-fps"@, HasArg::Yes, Occur::Optional),
        (""@, "doom-height"@, HasArg::Yes, Occur::Optional),
        (""@, "doom-spread"@, HasArg::Yes, Occur::Optional),
        (""@, "doom-colors"@, HasArg::Yes, Occur::Optional),
        (""@, "mock"@, HasArg::No, Occur::Optional),
    ]
}

/// Every option of the greeter, in the order of its usage text.
pub open spec fn option_specs() -> Seq<OptSpecView> {
    seq![
        OptSpecView { short: "h"@, long: "help"@, desc: "show this usage information"@, hint: ""@, hasarg: HasArg::No, occur: Occur::Optional },
        OptSpecView { short: "v"@, long: "version"@, desc: "print version information"@, hint: ""@, hasarg: HasArg::No, occur: Occur::Optional },
        OptSpecView { short: "d"@, long: "debug"@, desc: "enable debug logging to the provided file, or to /tmp/tuigreet.log"@, hint: "FILE"@, hasarg: HasArg::Maybe, occur: Occur::Optional },
        OptSpecView { short: "c"@, long: "cmd"@, desc: "command to run"@, hint: "COMMAND"@, hasarg: HasArg::Yes, occur: Occur::Optional },
        OptSpecView { short: ""@, long: "env"@, desc: "environment variables to run the default session with (can appear more than once)"@, hint: "KEY=VALUE"@, hasarg: HasArg::Yes, occur: Occur::Multi },
        OptSpecView { short: "s"@, long: "sessions"@, desc: "colon-separated list of Wayland session paths"@, hint: "DIRS"@, hasarg: HasArg::Yes, occur: Occur::Optional },
        OptSpecView { short: ""@, long: "session-wrapper"@, desc: "wrapper command to initialize the non-X11 session"@, hint: "'CMD [ARGS]...'"@, hasarg: HasArg::Yes, occur: Occur::Optional },
        OptSpecView { short: "x"@, long: "xsessions"@, desc: "colon-separated list of X11 session paths"@, hint: "DIRS"@, hasarg: HasArg::Yes, occur: Occur::Optional },
        OptSpecView { short: ""@, long: "xsession-wrapper"@, desc: "wrapper command to initialize X server and launch X11 sessions (default: startx)"@, hint: "'CMD [ARGS]...'"@, hasarg: HasArg::Yes, occur: Occur::Optional },
        OptSpecView { short: ""@, long: "no-xsession-wrapper"@, desc: "do not wrap commands for X11 sessions"@, hint: ""@, hasarg: HasArg::No, occur: Occur::Optional },
        OptSpecView { short: "w"@, long: "width"@, desc: "width of the main prompt (default: 80)"@, hint: "WIDTH"@, hasarg: HasArg::Yes, occur: Occur::Optional },
        OptSpecView { short: "i"@, long: "issue"@, desc: "show the host's issue file"@, hint: ""@, hasarg: HasArg::No, occur: Occur::Optional },
        OptSpecView { short: "g"@, long: "greeting"@, desc: "show custom text above login prompt"@, hint: "GREETING"@, hasarg: HasArg::Yes, occur: Occur::Optional },
        OptSpecView { short: ""@, long: "title"@, desc: "show the container's title"@, hint: ""@, hasarg: HasArg::No, occur: Occur::Optional },
        OptSpecView { short: ""@, long: "custom-title"@, desc: "custom title for the login form"@, hint: "TITLE"@, hasarg: HasArg::Yes, occur: Occur::Optional },
        OptSpecView { short: "t"@, long: "time"@, desc: "display the current date and time"@, hint: ""@, hasarg: HasArg::No, occur: Occur::Optional },
        OptSpecView { short: ""@, long: "time-format"@, desc: "custom strftime format for displaying date and time"@, hint: "FORMAT"@, hasarg: HasArg::Yes, occur: Occur::Optional },
        OptSpecView { short: "u"@, long: "user"@, desc: "pre-fill username field"@, hint: "USER"@, hasarg: HasArg::Yes, occur: Occur::Optional },
        OptSpecView { short: "r"@, long: "remember"@, desc: "remember last logged-in username"@, hint: ""@, hasarg: HasArg::No, occur: Occur::Optional },
        OptSpecView { short: ""@, long: "remember-session"@, desc: "remember last selected session"@, hint: ""@, hasarg: HasArg::No, occur: Occur::Optional },
        OptSpecView { short: ""@, long: "remember-user-session"@, desc: "remember last selected session for each user"@, hint: ""@, hasarg: HasArg::No, occur: Occur::Optional },
        OptSpecView { short: ""@, long: "user-menu"@, desc: "allow graphical selection of users from a menu"@, hint: ""@, hasarg: HasArg::No, occur: Occur::Optional },
        OptSpecView { short: ""@, long: "user-menu-min-uid"@, desc: "minimum UID to display in the user selection menu"@, hint: "UID"@, hasarg: HasArg::Yes, occur: Occur::Optional },
        OptSpecView { short: ""@, long: "user-menu-max-uid"@, desc: "maximum UID to display in the user selection menu"@, hint: "UID"@, hasarg: HasArg::Yes, occur: Occur::Optional },
        OptSpecView { short: ""@, long: "theme"@, desc: "define the application theme colors"@, hint: "THEME"@, hasarg: HasArg::Yes, occur: Occur::Optional },
        OptSpecView { short: ""@, long: "asterisks"@, desc: "display asterisks when a secret is typed"@, hint: ""@, hasarg: HasArg::No, occur: Occur::Optional },
        OptSpecView { short: ""@, long: "asterisks-char"@, desc: "characters to be used to redact secrets (default: *)"@, hint: "CHARS"@, hasarg: HasArg::Yes, occur: Occur::Optional },
        OptSpecView { short: ""@, long: "window-padding"@, desc: "padding inside the terminal area (default: 0)"@, hint: "PADDING"@, hasarg: HasArg::Yes, occur: Occur::Optional },
        OptSpecView { short: ""@, long: "container-padding"@, desc: "padding inside the main prompt container (default: 1)"@, hint: "PADDING"@, hasarg: HasArg::Yes, occur: Occur::Optional },
        OptSpecView { short: ""@, long: "prompt-padding"@, desc: "padding between prompt rows (default: 1)"@, hint: "PADDING"@, hasarg: HasArg::Yes, occur: Occur::Optional },
        OptSpecView { short: ""@, long: "greet-align"@, desc: "alignment of the greeting text in the main prompt container (default: 'center')"@, hint: "[left|center|right]"@, hasarg: HasArg::Yes, occur: Occur::Optional },
        OptSpecView { short: ""@, long: "power-shutdown"@, desc: "command to run to shut down the system"@, hint: "'CMD [ARGS]...'"@, hasarg: HasArg::Yes, occur: Occur::Optional },
        OptSpecView { short: ""@, long: "power-reboot"@, desc: "command to run to reboot the system"@, hint: "'CMD [ARGS]...'"@, hasarg: HasArg::Yes, occur: Occur::Optional },
        OptSpecView { short: ""@, long: "power-no-setsid"@, desc: "do not prefix power commands with setsid"@, hint: ""@, hasarg: HasArg::No, occur: Occur::Optional },
        OptSpecView { short: ""@, long: "kb-command"@, desc: "F-key to use to open the command menu"@, hint: "[1-12]"@, hasarg: HasArg::Yes, occur: Occur::Optional },
        OptSpecView { short: ""@, long: "kb-sessions"@, desc: "F-key to use to open the sessions menu"@, hint: "[1-12]"@, hasarg: HasArg::Yes, occur: Occur::Optional },
        OptSpecView { short: ""@, long: "kb-power"@, desc: "F-key to use to open the power menu"@, hint: "[1-12]"@, hasarg: HasArg::Yes, occur: Occur::Optional },
        OptSpecView { short: ""@, long: "kb-background"@, desc: "F-key to use to open the background animation switcher menu"@, hint: "[1-12]"@, hasarg: HasArg::Yes, occur: Occur::Optional },
        OptSpecView { short: ""@, long: "config"@, desc: "path to configuration file"@, hint: "PATH"@, hasarg: HasArg::Yes, occur: Occur::Optional },
        OptSpecView { short: ""@, long: "no-config"@, desc: "disable loading configuration files"@, hint: ""@, hasarg: HasArg::No, occur: Occur::Optional },
        OptSpecView { short: ""@, long: "dump-config"@, desc: "print effective configuration and exit"@, hint: ""@, hasarg: HasArg::No, occur: Occur::Optional },
        OptSpecView { short: ""@, long: "list-outputs"@, desc: "list available DRM outputs and exit"@, hint: ""@, hasarg: HasArg::No, occur: Occur::Optional },
        OptSpecView { short: ""@, long: "background"@, desc: "background animation to render behind the login UI ('doom' or 'none')"@, hint: "NAME"@, hasarg: HasArg::Yes, occur: Occur::Optional },
        OptSpecView { short: ""@, long: "background-fps"@, desc: "render rate when a background animation is active (default: 30)"@, hint: "FPS"@, hasarg: HasArg::Yes, occur: Occur::Optional },
        OptSpecView { short: ""@, long: "doom-height"@, desc: "DOOM fire decay control, higher means taller flames (1-9, default: 6)"@, hint: "N"@, hasarg: HasArg::Yes, occur: Occur::Optional },
        OptSpecView { short: ""@, long: "doom-spread"@, desc: "DOOM fire horizontal jitter (0-4, default: 2)"@, hint: "N"@, hasarg: HasArg::Yes, occur: Occur::Optional },
        OptSpecView { short: ""@, long: "doom-colors"@, desc: "DOOM fire colors as TOP,MIDDLE,BOTTOM (each #RRGGBB or named)"@, hint: "TOP,MIDDLE,BOTTOM"@, hasarg: HasArg::Yes, occur: Occur::Optional },
        OptSpecView { short: ""@, long: "mock"@, desc: "visual mock-up mode: skip the greetd socket and fake the auth flow locally"@, hint: ""@, hasarg: HasArg::No, occur: Occur::Optional },
    ]
}

/// Append one option to `v`.
fn push_opt(
    v: &mut Vec<OptSpec>,
    short: &str,
    long: &str,
    desc: &str,
    hint: &str,
    hasarg: HasArg,
    occur: Occur,
)
    ensures
        specs_view(final(v)@) == specs_view(old(v)@).push(
            OptSpecView {
                short: short@,
                long: long@,
                desc: desc@,
                hint: hint@,
                hasarg,
                occur,
            },
        ),
{
    let ghost before = specs_view(v@);
    v.push(
        OptSpec {
            short: String::from_str(short),
            long: String::from_str(long),
            desc: String::from_str(desc),
            hint: String::from_str(hint),
            hasarg,
            occur,
        },
    );
    assert(specs_view(v@) =~= before.push(v@.last()@));
}

/// The option list is the option table, and every option in it is one the
/// option parser accepts.
proof fn lemma_option_specs()
    ensures
        option_specs().len() == option_table().len(),
        forall|i: int|
            0 <= i < option_table().len() ==> {
                let o = #[trigger] option_specs()[i];
                &&& (o.short, o.long, o.hasarg, o.occur) == option_table()[i]
                &&& valid_opt_spec(o)
            },
{
    reveal_strlit("");
    reveal_strlit("asterisks");
    reveal_strlit("asterisks-char");
    reveal_strlit("background");
    reveal_strlit("background-fps");
    reveal_strlit("c");
    reveal_strlit("cmd");
    reveal_strlit("config");
    reveal_strlit("container-padding");
    reveal_strlit("custom-title");
    reveal_strlit("d");
    reveal_strlit("debug");
    reveal_strlit("doom-colors");
    reveal_strlit("doom-height");
    reveal_strlit("doom-spread");
    reveal_strlit("dump-config");
    reveal_strlit("env");
    reveal_strlit("g");
    reveal_strlit("greet-align");
    reveal_strlit("greeting");
    reveal_strlit("h");
    reveal_strlit("help");
    reveal_strlit("i");
    reveal_strlit("issue");
    reveal_strlit("kb-background");
    reveal_strlit("kb-command");
    reveal_strlit("kb-power");
    reveal_strlit("kb-sessions");
    reveal_strlit("list-outputs");
    reveal_strlit("mock");
    reveal_strlit("no-config");
    reveal_strlit("no-xsession-wrapper");
    reveal_strlit("power-no-setsid");
    reveal_strlit("power-reboot");
    reveal_strlit("power-shutdown");
    reveal_strlit("prompt-padding");
    reveal_strlit("r");
    reveal_strlit("remember");
    reveal_strlit("remember-session");
    reveal_strlit("remember-user-session");
    reveal_strlit("s");
    reveal_strlit("session-wrapper");
    reveal_strlit("sessions");
    reveal_strlit("t");
    reveal_strlit("theme");
    reveal_strlit("time");
    reveal_strlit("time-format");
    reveal_strlit("title");
    reveal_strlit("u");
    reveal_strlit("user");
    reveal_strlit("user-menu");
    reveal_strlit("user-menu-max-uid");
    reveal_strlit("user-menu-min-uid");
    reveal_strlit("v");
    reveal_strlit("version");
    reveal_strlit("w");
    reveal_strlit("width");
    reveal_strlit("window-padding");
    reveal_strlit("x");
    reveal_strlit("xsession-wrapper");
    reveal_strlit("xsessions");
}

/// The greeter's command-line options, in the order of its usage text.
pub fn cli_options() -> (r: Vec<OptSpec>)
    ensures
        specs_view(r@) == option_specs(),
        specs_view(r@).len() == option_table().len(),
        forall|i: int|
            0 <= i < option_table().len() ==> {
                let o = #[trigger] specs_view(r@)[i];
                &&& (o.short, o.long, o.hasarg, o.occur) == option_table()[i]
                &&& valid_opt_spec(o)
            },
{
    let mut v: Vec<OptSpec> = Vec::new();
    push_opt(&mut v, "h", "help", "show this usage information", "", HasArg::No, Occur::Optional);
    push_opt(&mut v, "v", "version", "print version information", "", HasArg::No, Occur::Optional);
    push_opt(&mut v, "d", "debug", "enable debug logging to the provided file, or to /tmp/tuigreet.log", "FILE", HasArg::Maybe, Occur::Optional);
    push_opt(&mut v, "c", "cmd", "command to run", "COMMAND", HasArg::Yes, Occur::Optional);
    push_opt(&mut v, "", "env", "environment variables to run the default session with (can appear more than once)", "KEY=VALUE", HasArg::Yes, Occur::Multi);
    push_opt(&mut v, "s", "sessions", "colon-separated list of Wayland session paths", "DIRS", HasArg::Yes, Occur::Optional);
    push_opt(&mut v, "", "session-wrapper", "wrapper command to initialize the non-X11 session", "'CMD [ARGS]...'", HasArg::Yes, Occur::Optional);
    push_opt(&mut v, "x", "xsessions", "colon-separated list of X11 session paths", "DIRS", HasArg::Yes, Occur::Optional);
    push_opt(&mut v, "", "xsession-wrapper", "wrapper command to initialize X server and launch X11 sessions (default: startx)", "'CMD [ARGS]...'", HasArg::Yes, Occur::Optional);
    push_opt(&mut v, "", "no-xsession-wrapper", "do not wrap commands for X11 sessions", "", HasArg::No, Occur::Optional);
    push_opt(&mut v, "w", "width", "width of the main prompt (default: 80)", "WIDTH", HasArg::Yes, Occur::Optional);
    push_opt(&mut v, "i", "issue", "show the host's issue file", "", HasArg::No, Occur::Optional);
    push_opt(&mut v, "g", "greeting", "show custom text above login prompt", "GREETING", HasArg::Yes, Occur::Optional);
    push_opt(&mut v, "", "title", "show the container's title", "", HasArg::No, Occur::Optional);
    push_opt(&mut v, "", "custom-title", "custom title for the login form", "TITLE", HasArg::Yes, Occur::Optional);
    push_opt(&mut v, "t", "time", "display the current date and time", "", HasArg::No, Occur::Optional);
    push_opt(&mut v, "", "time-format", "custom strftime format for displaying date and time", "FORMAT", HasArg::Yes, Occur::Optional);
    push_opt(&mut v, "u", "user", "pre-fill username field", "USER", HasArg::Yes, Occur::Optional);
    push_opt(&mut v, "r", "remember", "remember last logged-in username", "", HasArg::No, Occur::Optional);
    push_opt(&mut v, "", "remember-session", "remember last selected session", "", HasArg::No, Occur::Optional);
    push_opt(&mut v, "", "remember-user-session", "remember last selected session for each user", "", HasArg::No, Occur::Optional);
    push_opt(&mut v, "", "user-menu", "allow graphical selection of users from a menu", "", HasArg::No, Occur::Optional);
    push_opt(&mut v, "", "user-menu-min-uid", "minimum UID to display in the user selection menu", "UID", HasArg::Yes, Occur::Optional);
    push_opt(&mut v, "", "user-menu-max-uid", "maximum UID to display in the user selection menu", "UID", HasArg::Yes, Occur::Optional);
    push_opt(&mut v, "", "theme", "define the application theme colors", "THEME", HasArg::Yes, Occur::Optional);
    push_opt(&mut v, "", "asterisks", "display asterisks when a secret is typed", "", HasArg::No, Occur::Optional);
    push_opt(&mut v, "", "asterisks-char", "characters to be used to redact secrets (default: *)", "CHARS", HasArg::Yes, Occur::Optional);
    push_opt(&mut v, "", "window-padding", "padding inside the terminal area (default: 0)", "PADDING", HasArg::Yes, Occur::Optional);
    push_opt(&mut v, "", "container-padding", "padding inside the main prompt container (default: 1)", "PADDING", HasArg::Yes, Occur::Optional);
    push_opt(&mut v, "", "prompt-padding", "padding between prompt rows (default: 1)", "PADDING", HasArg::Yes, Occur::Optional);
    push_opt(&mut v, "", "greet-align", "alignment of the greeting text in the main prompt container (default: 'center')", "[left|center|right]", HasArg::Yes, Occur::Optional);
    push_opt(&mut v, "", "power-shutdown", "command to run to shut down the system", "'CMD [ARGS]...'", HasArg::Yes, Occur::Optional);
    push_opt(&mut v, "", "power-reboot", "command to run to reboot the system", "'CMD [ARGS]...'", HasArg::Yes, Occur::Optional);
    push_opt(&mut v, "", "power-no-setsid", "do not prefix power commands with setsid", "", HasArg::No, Occur::Optional);
    push_opt(&mut v, "", "kb-command", "F-key to use to open the command menu", "[1-12]", HasArg::Yes, Occur::Optional);
    push_opt(&mut v, "", "kb-sessions", "F-key to use to open the sessions menu", "[1-12]", HasArg::Yes, Occur::Optional);
    push_opt(&mut v, "", "kb-power", "F-key to use to open the power menu", "[1-12]", HasArg::Yes, Occur::Optional);
    push_opt(&mut v, "", "kb-background", "F-key to use to open the background animation switcher menu", "[1-12]", HasArg::Yes, Occur::Optional);
    push_opt(&mut v, "", "config", "path to configuration file", "PATH", HasArg::Yes, Occur::Optional);
    push_opt(&mut v, "", "no-config", "disable loading configuration files", "", HasArg::No, Occur::Optional);
    push_opt(&mut v, "", "dump-config", "print effective configuration and exit", "", HasArg::No, Occur::Optional);
    push_opt(&mut v, "", "list-outputs", "list available DRM outputs and exit", "", HasArg::No, Occur::Optional);
    push_opt(&mut v, "", "background", "background animation to render behind the login UI ('doom' or 'none')", "NAME", HasArg::Yes, Occur::Optional);
    push_opt(&mut v, "", "background-fps", "render rate when a background animation is active (default: 30)", "FPS", HasArg::Yes, Occur::Optional);
    push_opt(&mut v, "", "doom-height", "DOOM fire decay control, higher means taller flames (1-9, default: 6)", "N", HasArg::Yes, Occur::Optional);
    push_opt(&mut v, "", "doom-spread", "DOOM fire horizontal jitter (0-4, default: 2)", "N", HasArg::Yes, Occur::Optional);
    push_opt(&mut v, "", "doom-colors", "DOOM fire colors as TOP,MIDDLE,BOTTOM (each #RRGGBB or named)", "TOP,MIDDLE,BOTTOM", HasArg::Yes, Occur::Optional);
    push_opt(&mut v, "", "mock", "visual mock-up mode: skip the greetd socket and fake the auth flow locally", "", HasArg::No, Occur::Optional);
    proof {
        lemma_option_specs();
    }
    assert(specs_view(v@) =~= option_specs());
    v
}


/// What the parser found for one option.
#[derive(Debug, Clone)]
pub struct OptMatch {
    /// Long name of the option.
    pub name: String,
    /// How many times the option occurred.
    pub count: usize,
    /// The argument of its first occurrence, if that one had an argument.
    pub first: Option<String>,
    /// The arguments of all its occurrences that had one, in order.
    pub strs: Vec<String>,
}

/// Mathematical view of an [`OptMatch`].
pub struct OptMatchView {
    pub name: Seq<char>,
    pub count: nat,
    pub first: Option<Seq<char>>,
    pub strs: Seq<Seq<char>>,
}

impl View for OptMatch {
    type V = OptMatchView;

    open spec fn view(&self) -> OptMatchView {
        OptMatchView {
            name: self.name@,
            count: self.count as nat,
            first: opt_view(self.first),
            strs: strings_view(self.strs@),
        }
    }
}

/// The options found on a command line, one entry per defined option.
#[derive(Debug, Clone)]
pub struct CliMatches {
    pub opts: Vec<OptMatch>,
}

impl View for CliMatches {
    type V = Seq<OptMatchView>;

    open spec fn view(&self) -> Seq<OptMatchView> {
        self.opts@.map_values(|m: OptMatch| m@)
    }
}

/// What getopts' `Options::parse` gives for the options `specs` and the
/// command-line arguments `args`: per option, in the order of `specs`, its
/// occurrences, or the text of the parse failure.
pub uninterp spec fn getopts_parse(specs: Seq<OptSpecView>, args: Seq<Seq<char>>) -> Result<
    Seq<OptMatchView>,
    Seq<char>,
>;

/// Parses `args` with getopts against the options `specs` and reads, for each
/// option, `opt_count`, `opt_str` and `opt_strs` out of the matches; on
/// failure, returns the failure's message. The result is the name
/// [`getopts_parse`] of the arguments; the entries are in the order of
/// `specs` and carry their long names.
#[verifier::external_body]
pub(crate) fn parse_args(specs: &Vec<OptSpec>, args: &Vec<String>) -> (r: Result<CliMatches, String>)
    requires
        forall|i: int| 0 <= i < specs@.len() ==> valid_opt_spec(#[trigger] specs@[i]@),
    ensures
        match r {
            Ok(m) => getopts_parse(specs_view(specs@), strings_view(args@)) == Ok::<
                Seq<OptMatchView>,
                Seq<char>,
            >(m@),
            Err(e) => getopts_parse(specs_view(specs@), strings_view(args@)) == Err::<
                Seq<OptMatchView>,
                Seq<char>,
            >(e@),
        },
        r matches Ok(m) ==> m@.len() == specs@.len() && forall|i: int|
            0 <= i < specs@.len() ==> (#[trigger] m@[i]).name == specs@[i]@.long,
{
    let mut opts = getopts::Options::new();
    for s in specs {
        let h = match s.hasarg { No => GA::No, Yes => GA::Yes, Maybe => GA::Maybe };
        let o = match s.occur { Optional => GO::Optional, Multi => GO::Multi };
        opts.opt(&s.short, &s.long, &s.desc, &s.hint, h, o);
    }
    let m = opts.parse(args).map_err(|f| f.to_string())?;
    let opts = specs.iter().map(|s| OptMatch { name: s.long.clone(), count: m.opt_count(&s.long), first: m.opt_str(&s.long), strs: m.opt_strs(&s.long) });
    Ok(CliMatches { opts: opts.collect() })
}

/// Parses the command-line arguments `args` (without the program name)
/// against the greeter's options.
pub fn parse_command_line(args: &Vec<String>) -> (r: Result<CliMatches, String>)
    ensures
        match r {
            Ok(m) => getopts_parse(option_specs(), strings_view(args@)) == Ok::<
                Seq<OptMatchView>,
                Seq<char>,
            >(m@),
            Err(e) => getopts_parse(option_specs(), strings_view(args@)) == Err::<
                Seq<OptMatchView>,
                Seq<char>,
            >(e@),
        },
{
    let opts = cli_options();
    parse_args(&opts, args)
}

/// Index of the first entry of `m` named `name`.
#[verifier::opaque]
pub open spec fn match_index(m: Seq<OptMatchView>, name: Seq<char>) -> Option<int> {
    if exists|i: int| 0 <= i < m.len() && m[i].name == name {
        Some(
            choose|i: int|
                0 <= i < m.len() && m[i].name == name && forall|j: int|
                    0 <= j < i ==> m[j].name != name,
        )
    } else {
        None
    }
}

/// Whether option `name` occurred; an option that `m` does not define never
/// occurs.
pub open spec fn spec_present(m: Seq<OptMatchView>, name: Seq<char>) -> bool {
    match match_index(m, name) {
        Some(i) => m[i].count > 0,
        None => false,
    }
}

/// The argument of the first occurrence of option `name`.
pub open spec fn spec_opt_str(m: Seq<OptMatchView>, name: Seq<char>) -> Option<Seq<char>> {
    match match_index(m, name) {
        Some(i) => m[i].first,
        None => None,
    }
}

/// The arguments of all occurrences of option `name`.
pub open spec fn spec_opt_strs(m: Seq<OptMatchView>, name: Seq<char>) -> Seq<Seq<char>> {
    match match_index(m, name) {
        Some(i) => m[i].strs,
        None => Seq::<Seq<char>>::empty(),
    }
}

impl CliMatches {
    fn find(&self, name: &str) -> (r: Option<usize>)
        ensures
            match r {
                Some(i) => match_index(self@, name@) == Some(i as int) && i < self@.len(),
                None => match_index(self@, name@).is_none(),
            },
    {
        reveal(match_index);
        let ghost m = self@;
        let mut i: usize = 0;
        while i < self.opts.len()
            invariant
                i <= self.opts@.len(),
                m == self@,
                forall|j: int| 0 <= j < i ==> m[j].name != name@,
            decreases self.opts@.len() - i,
        {
            let v = crate::text::chars_of(self.opts[i].name.as_str());
            let hit = crate::text::range_eq(&v, 0, v.len(), name);
            assert(v@.subrange(0, v@.len() as int) =~= v@);
            if hit {
                proof {
                    reveal(match_index);
                    assert(m[i as int].name == name@);
                    let c = choose|c: int|
                        0 <= c < m.len() && m[c].name == name@ && forall|j: int|
                            0 <= j < c ==> m[j].name != name@;
                    assert(c == i);
                }
                return Some(i);
            }
            i = i + 1;
        }
        proof {
            reveal(match_index);
        }
        None
    }

    /// Whether option `name` occurred.
    pub fn opt_present(&self, name: &str) -> (r: bool)
        ensures
            r == spec_present(self@, name@),
    {
        match self.find(name) {
            Some(i) => self.opts[i].count > 0,
            None => false,
        }
    }

    /// The argument of the first occurrence of option `name`.
    pub fn opt_str(&self, name: &str) -> (r: Option<String>)
        ensures
            opt_view(r) == spec_opt_str(self@, name@),
    {
        match self.find(name) {
            Some(i) => self.opts[i].first.clone(),
            None => None,
        }
    }

    /// The arguments of all occurrences of option `name`.
    pub fn opt_strs(&self, name: &str) -> (r: Vec<String>)
        ensures
            strings_view(r@) == spec_opt_strs(self@, name@),
    {
        match self.find(name) {
            Some(i) => clone_strings(&self.opts[i].strs),
            None => {
                let r: Vec<String> = Vec::new();
                assert(strings_view(r@) =~= Seq::<Seq<char>>::empty());
                r
            },
        }
    }
}

/// A copy of `v`.
pub fn clone_strings(v: &Vec<String>) -> (r: Vec<String>)
    ensures
        strings_view(r@) == strings_view(v@),
{
    let mut r: Vec<String> = Vec::new();
    let mut i: usize = 0;
    while i < v.len()
        invariant
            i <= v@.len(),
            r@.len() == i,
            forall|j: int| 0 <= j < i ==> r@[j]@ == v@[j]@,
        decreases v@.len() - i,
    {
        r.push(v[i].clone());
        i = i + 1;
    }
    assert(strings_view(r@) =~= strings_view(v@));
    r
}

} // verus!
