//! The configuration schema: every setting the greeter reads from its
//! configuration files, environment and command line, with its default.
use vstd::prelude::*;

use crate::output::{OutputConfig, OutputConfigView, TerminalConfig, output_configs_view};
use crate::text::{opt_view, strings_view};

verus! {

/// Alignment of the greeting text.
#[derive(Debug, Clone, Copy, PartialEq, Eq, Structural)]
pub enum AlignGreeting {
    Left,
    Center,
    Right,
}

/// How secrets are displayed while typed.
#[derive(Debug, Clone, Copy, PartialEq, Eq, Structural)]
pub enum SecretMode {
    Hidden,
    Characters,
}

/// Where a widget is placed.
#[derive(Debug, Clone, Copy, PartialEq, Eq, Structural)]
pub enum WidgetPosition {
    Default,
    Top,
    Bottom,
    Hidden,
}

/// General settings.
#[derive(Debug, Clone)]
pub struct GeneralConfig {
    /// Whether debug logging is enabled
    pub debug: bool,
    /// Path of the debug log file
    pub log_file: String,
}

/// Mathematical view of a [`GeneralConfig`].
pub struct GeneralConfigView {
    pub debug: bool,
    pub log_file: Seq<char>,
}

impl View for GeneralConfig {
    type V = GeneralConfigView;

    open spec fn view(&self) -> GeneralConfigView {
        GeneralConfigView {
            debug: self.debug,
            log_file: self.log_file@,
        }
    }
}

/// The default value of a [`GeneralConfig`].
pub open spec fn default_general() -> GeneralConfigView {
    GeneralConfigView {
        debug: false,
        log_file: "/tmp/tuigreet.log"@,
    }
}

impl Default for GeneralConfig {
    fn default() -> (r: Self)
        ensures
            r@ == default_general(),
    {
        let r = GeneralConfig {
            debug: false,
            log_file: String::from_str("/tmp/tuigreet.log"),
        };
        r
    }
}

/// Session selection and launching.
#[derive(Debug, Clone)]
pub struct SessionConfig {
    /// Command to run as the default session
    pub command: Option<String>,
    /// Directories holding Wayland session files
    pub sessions_dirs: Vec<String>,
    /// Directories holding X11 session files
    pub xsessions_dirs: Vec<String>,
    /// Wrapper command prepended to non-X11 sessions
    pub session_wrapper: Option<String>,
    /// Wrapper command prepended to X11 sessions
    pub xsession_wrapper: Option<String>,
    /// Environment definitions for the default session
    pub environments: Vec<String>,
}

/// Mathematical view of a [`SessionConfig`].
pub struct SessionConfigView {
    pub command: Option<Seq<char>>,
    pub sessions_dirs: Seq<Seq<char>>,
    pub xsessions_dirs: Seq<Seq<char>>,
    pub session_wrapper: Option<Seq<char>>,
    pub xsession_wrapper: Option<Seq<char>>,
    pub environments: Seq<Seq<char>>,
}

impl View for SessionConfig {
    type V = SessionConfigView;

    open spec fn view(&self) -> SessionConfigView {
        SessionConfigView {
            command: opt_view(self.command),
            sessions_dirs: strings_view(self.sessions_dirs@),
            xsessions_dirs: strings_view(self.xsessions_dirs@),
            session_wrapper: opt_view(self.session_wrapper),
            xsession_wrapper: opt_view(self.xsession_wrapper),
            environments: strings_view(self.environments@),
        }
    }
}

/// The default value of a [`SessionConfig`].
pub open spec fn default_session() -> SessionConfigView {
    SessionConfigView {
        command: None,
        sessions_dirs: Seq::<Seq<char>>::empty(),
        xsessions_dirs: Seq::<Seq<char>>::empty(),
        session_wrapper: None,
        xsession_wrapper: Some("startx"@),
        environments: Seq::<Seq<char>>::empty(),
    }
}

impl Default for SessionConfig {
    fn default() -> (r: Self)
        ensures
            r@ == default_session(),
    {
        let r = SessionConfig {
            command: None,
            sessions_dirs: Vec::new(),
            xsessions_dirs: Vec::new(),
            session_wrapper: None,
            xsession_wrapper: Some(String::from_str("startx")),
            environments: Vec::new(),
        };
        assert(r@.sessions_dirs =~= Seq::<Seq<char>>::empty());
        assert(r@.xsessions_dirs =~= Seq::<Seq<char>>::empty());
        assert(r@.environments =~= Seq::<Seq<char>>::empty());
        r
    }
}

/// What the greeter displays.
#[derive(Debug, Clone)]
pub struct DisplayConfig {
    /// Whether the date and time are shown
    pub show_time: bool,
    /// Custom strftime format for the time
    pub time_format: Option<String>,
    /// Greeting shown above the prompt
    pub greeting: Option<String>,
    /// Whether the container title is shown
    pub show_title: bool,
    /// Custom container title
    pub custom_title: Option<String>,
    /// Whether the host issue file is shown
    pub issue: bool,
    /// Alignment of the greeting
    pub align_greeting: AlignGreeting,
}

/// Mathematical view of a [`DisplayConfig`].
pub struct DisplayConfigView {
    pub show_time: bool,
    pub time_format: Option<Seq<char>>,
    pub greeting: Option<Seq<char>>,
    pub show_title: bool,
    pub custom_title: Option<Seq<char>>,
    pub issue: bool,
    pub align_greeting: AlignGreeting,
}

impl View for DisplayConfig {
    type V = DisplayConfigView;

    open spec fn view(&self) -> DisplayConfigView {
        DisplayConfigView {
            show_time: self.show_time,
            time_format: opt_view(self.time_format),
            greeting: opt_view(self.greeting),
            show_title: self.show_title,
            custom_title: opt_view(self.custom_title),
            issue: self.issue,
            align_greeting: self.align_greeting,
        }
    }
}

/// The default value of a [`DisplayConfig`].
pub open spec fn default_display() -> DisplayConfigView {
    DisplayConfigView {
        show_time: false,
        time_format: None,
        greeting: None,
        show_title: false,
        custom_title: None,
        issue: false,
        align_greeting: AlignGreeting::Center,
    }
}

impl Default for DisplayConfig {
    fn default() -> (r: Self)
        ensures
            r@ == default_display(),
    {
        let r = DisplayConfig {
            show_time: false,
            time_format: None,
            greeting: None,
            show_title: false,
            custom_title: None,
            issue: false,
            align_greeting: AlignGreeting::Center,
        };
        r
    }
}

/// What is remembered between runs.
#[derive(Debug, Clone)]
pub struct RememberConfig {
    /// User to pre-fill
    pub default_user: Option<String>,
    /// Remember the last user
    pub username: bool,
    /// Remember the last session
    pub session: bool,
    /// Remember the last session of each user
    pub user_session: bool,
}

/// Mathematical view of a [`RememberConfig`].
pub struct RememberConfigView {
    pub default_user: Option<Seq<char>>,
    pub username: bool,
    pub session: bool,
    pub user_session: bool,
}

impl View for RememberConfig {
    type V = RememberConfigView;

    open spec fn view(&self) -> RememberConfigView {
        RememberConfigView {
            default_user: opt_view(self.default_user),
            username: self.username,
            session: self.session,
            user_session: self.user_session,
        }
    }
}

/// The default value of a [`RememberConfig`].
pub open spec fn default_remember() -> RememberConfigView {
    RememberConfigView {
        default_user: None,
        username: false,
        session: false,
        user_session: false,
    }
}

impl Default for RememberConfig {
    fn default() -> (r: Self)
        ensures
            r@ == default_remember(),
    {
        let r = RememberConfig {
            default_user: None,
            username: false,
            session: false,
            user_session: false,
        };
        r
    }
}

/// User selection menu.
#[derive(Debug, Clone, Copy, PartialEq, Eq, Structural)]
pub struct UserMenuConfig {
    /// Whether the user menu is enabled
    pub enabled: bool,
    /// Smallest UID listed
    pub min_uid: u32,
    /// Largest UID listed
    pub max_uid: u32,
}

/// The default value of a [`UserMenuConfig`].
pub open spec fn default_user_menu() -> UserMenuConfig {
    UserMenuConfig {
        enabled: false,
        min_uid: 1000,
        max_uid: 60000,
    }
}

impl Default for UserMenuConfig {
    fn default() -> (r: Self)
        ensures
            r == default_user_menu(),
    {
        let r = UserMenuConfig {
            enabled: false,
            min_uid: 1000,
            max_uid: 60000,
        };
        r
    }
}

/// How secrets are displayed.
#[derive(Debug, Clone)]
pub struct SecretConfig {
    /// Display mode
    pub mode: SecretMode,
    /// Replacement characters
    pub characters: String,
}

/// Mathematical view of a [`SecretConfig`].
pub struct SecretConfigView {
    pub mode: SecretMode,
    pub characters: Seq<char>,
}

impl View for SecretConfig {
    type V = SecretConfigView;

    open spec fn view(&self) -> SecretConfigView {
        SecretConfigView {
            mode: self.mode,
            characters: self.characters@,
        }
    }
}

/// The default value of a [`SecretConfig`].
pub open spec fn default_secret() -> SecretConfigView {
    SecretConfigView {
        mode: SecretMode::Hidden,
        characters: "*"@,
    }
}

impl Default for SecretConfig {
    fn default() -> (r: Self)
        ensures
            r@ == default_secret(),
    {
        let r = SecretConfig {
            mode: SecretMode::Hidden,
            characters: String::from_str("*"),
        };
        r
    }
}

/// Items of the status bar.
#[derive(Debug, Clone, Copy, PartialEq, Eq, Structural)]
pub struct StatusBarConfig {
    /// Show the reset action
    pub show_reset: bool,
    /// Show the command action
    pub show_command: bool,
    /// Show the session action
    pub show_session: bool,
    /// Show the power action
    pub show_power: bool,
    /// Show the background action
    pub show_background: bool,
    /// Show the session status
    pub show_session_status: bool,
    /// Show the caps lock state
    pub show_caps_lock: bool,
}

/// The default value of a [`StatusBarConfig`].
pub open spec fn default_status_bar() -> StatusBarConfig {
    StatusBarConfig {
        show_reset: true,
        show_command: true,
        show_session: true,
        show_power: true,
        show_background: true,
        show_session_status: true,
        show_caps_lock: true,
    }
}

impl Default for StatusBarConfig {
    fn default() -> (r: Self)
        ensures
            r == default_status_bar(),
    {
        let r = StatusBarConfig {
            show_reset: true,
            show_command: true,
            show_session: true,
            show_power: true,
            show_background: true,
            show_session_status: true,
            show_caps_lock: true,
        };
        r
    }
}

/// Placement of the widgets.
#[derive(Debug, Clone, Copy, PartialEq, Eq, Structural)]
pub struct WidgetsConfig {
    /// Where the time widget goes
    pub time_position: WidgetPosition,
    /// Where the status bar goes
    pub status_position: WidgetPosition,
    /// Items of the status bar
    pub status_bar: StatusBarConfig,
}

/// The default value of a [`WidgetsConfig`].
pub open spec fn default_widgets() -> WidgetsConfig {
    WidgetsConfig {
        time_position: WidgetPosition::Default,
        status_position: WidgetPosition::Default,
        status_bar: default_status_bar(),
    }
}

impl Default for WidgetsConfig {
    fn default() -> (r: Self)
        ensures
            r == default_widgets(),
    {
        let r = WidgetsConfig {
            time_position: WidgetPosition::Default,
            status_position: WidgetPosition::Default,
            status_bar: StatusBarConfig::default(),
        };
        r
    }
}

/// Layout of the prompt.
#[derive(Debug, Clone, Copy, PartialEq, Eq, Structural)]
pub struct LayoutConfig {
    /// Width of the main prompt
    pub width: u16,
    /// Padding inside the terminal area
    pub window_padding: Option<u16>,
    /// Padding inside the prompt container
    pub container_padding: Option<u16>,
    /// Padding between prompt rows
    pub prompt_padding: Option<u16>,
    /// Placement of the widgets
    pub widgets: WidgetsConfig,
}

/// The default value of a [`LayoutConfig`].
pub open spec fn default_layout() -> LayoutConfig {
    LayoutConfig {
        width: 80,
        window_padding: None,
        container_padding: None,
        prompt_padding: None,
        widgets: default_widgets(),
    }
}

impl Default for LayoutConfig {
    fn default() -> (r: Self)
        ensures
            r == default_layout(),
    {
        let r = LayoutConfig {
            width: 80,
            window_padding: None,
            container_padding: None,
            prompt_padding: None,
            widgets: WidgetsConfig::default(),
        };
        r
    }
}

/// Power commands.
#[derive(Debug, Clone)]
pub struct PowerConfig {
    /// Command that shuts the system down
    pub shutdown: Option<String>,
    /// Command that reboots the system
    pub reboot: Option<String>,
    /// Prefix power commands with setsid
    pub use_setsid: bool,
}

/// Mathematical view of a [`PowerConfig`].
pub struct PowerConfigView {
    pub shutdown: Option<Seq<char>>,
    pub reboot: Option<Seq<char>>,
    pub use_setsid: bool,
}

impl View for PowerConfig {
    type V = PowerConfigView;

    open spec fn view(&self) -> PowerConfigView {
        PowerConfigView {
            shutdown: opt_view(self.shutdown),
            reboot: opt_view(self.reboot),
            use_setsid: self.use_setsid,
        }
    }
}

/// The default value of a [`PowerConfig`].
pub open spec fn default_power() -> PowerConfigView {
    PowerConfigView {
        shutdown: None,
        reboot: None,
        use_setsid: true,
    }
}

impl Default for PowerConfig {
    fn default() -> (r: Self)
        ensures
            r@ == default_power(),
    {
        let r = PowerConfig {
            shutdown: None,
            reboot: None,
            use_setsid: true,
        };
        r
    }
}

/// F-key numbers of the menus.
#[derive(Debug, Clone, Copy, PartialEq, Eq, Structural)]
pub struct KeybindingsConfig {
    /// Command menu key
    pub command: u8,
    /// Sessions menu key
    pub sessions: u8,
    /// Power menu key
    pub power: u8,
    /// Background menu key
    pub background: u8,
}

/// The default value of a [`KeybindingsConfig`].
pub open spec fn default_keybindings() -> KeybindingsConfig {
    KeybindingsConfig {
        command: 2,
        sessions: 3,
        power: 12,
        background: 4,
    }
}

impl Default for KeybindingsConfig {
    fn default() -> (r: Self)
        ensures
            r == default_keybindings(),
    {
        let r = KeybindingsConfig {
            command: 2,
            sessions: 3,
            power: 12,
            background: 4,
        };
        r
    }
}

/// DOOM fire settings.
#[derive(Debug, Clone)]
pub struct DoomConfig {
    /// Decay control
    pub height: Option<u8>,
    /// Horizontal jitter
    pub spread: Option<u8>,
    /// Color of the flame tips
    pub top_color: Option<String>,
    /// Color of the flame middle
    pub middle_color: Option<String>,
    /// Color of the flame base
    pub bottom_color: Option<String>,
}

/// Mathematical view of a [`DoomConfig`].
pub struct DoomConfigView {
    pub height: Option<u8>,
    pub spread: Option<u8>,
    pub top_color: Option<Seq<char>>,
    pub middle_color: Option<Seq<char>>,
    pub bottom_color: Option<Seq<char>>,
}

impl View for DoomConfig {
    type V = DoomConfigView;

    open spec fn view(&self) -> DoomConfigView {
        DoomConfigView {
            height: self.height,
            spread: self.spread,
            top_color: opt_view(self.top_color),
            middle_color: opt_view(self.middle_color),
            bottom_color: opt_view(self.bottom_color),
        }
    }
}

/// The default value of a [`DoomConfig`].
pub open spec fn default_doom() -> DoomConfigView {
    DoomConfigView {
        height: None,
        spread: None,
        top_color: None,
        middle_color: None,
        bottom_color: None,
    }
}

impl Default for DoomConfig {
    fn default() -> (r: Self)
        ensures
            r@ == default_doom(),
    {
        let r = DoomConfig {
            height: None,
            spread: None,
            top_color: None,
            middle_color: None,
            bottom_color: None,
        };
        r
    }
}

/// Digital rain settings.
#[derive(Debug, Clone)]
pub struct MatrixConfig {
    /// Color of stream heads
    pub head_color: Option<String>,
    /// Color of the bright trail
    pub bright_color: Option<String>,
    /// Color of the dim tail
    pub dim_color: Option<String>,
    /// Shortest trail
    pub min_length: Option<u16>,
    /// Longest trail
    pub max_length: Option<u16>,
    /// Slowest speed, as the bit pattern of an `f32`
    pub min_speed: Option<u32>,
    /// Fastest speed, as the bit pattern of an `f32`
    pub max_speed: Option<u32>,
    /// Glyph change probability, as the bit pattern of an `f32`
    pub mutate_chance: Option<u32>,
}

/// Mathematical view of a [`MatrixConfig`].
pub struct MatrixConfigView {
    pub head_color: Option<Seq<char>>,
    pub bright_color: Option<Seq<char>>,
    pub dim_color: Option<Seq<char>>,
    pub min_length: Option<u16>,
    pub max_length: Option<u16>,
    pub min_speed: Option<u32>,
    pub max_speed: Option<u32>,
    pub mutate_chance: Option<u32>,
}

impl View for MatrixConfig {
    type V = MatrixConfigView;

    open spec fn view(&self) -> MatrixConfigView {
        MatrixConfigView {
            head_color: opt_view(self.head_color),
            bright_color: opt_view(self.bright_color),
            dim_color: opt_view(self.dim_color),
            min_length: self.min_length,
            max_length: self.max_length,
            min_speed: self.min_speed,
            max_speed: self.max_speed,
            mutate_chance: self.mutate_chance,
        }
    }
}

/// The default value of a [`MatrixConfig`].
pub open spec fn default_matrix() -> MatrixConfigView {
    MatrixConfigView {
        head_color: None,
        bright_color: None,
        dim_color: None,
        min_length: None,
        max_length: None,
        min_speed: None,
        max_speed: None,
        mutate_chance: None,
    }
}

impl Default for MatrixConfig {
    fn default() -> (r: Self)
        ensures
            r@ == default_matrix(),
    {
        let r = MatrixConfig {
            head_color: None,
            bright_color: None,
            dim_color: None,
            min_length: None,
            max_length: None,
            min_speed: None,
            max_speed: None,
            mutate_chance: None,
        };
        r
    }
}

/// Background animation.
#[derive(Debug, Clone)]
pub struct BackgroundConfig {
    /// Animation name
    pub kind: Option<String>,
    /// Render rate while the animation runs
    pub fps: Option<u32>,
    /// DOOM fire settings
    pub doom: DoomConfig,
    /// Digital rain settings
    pub matrix: MatrixConfig,
}

/// Mathematical view of a [`BackgroundConfig`].
pub struct BackgroundConfigView {
    pub kind: Option<Seq<char>>,
    pub fps: Option<u32>,
    pub doom: DoomConfigView,
    pub matrix: MatrixConfigView,
}

impl View for BackgroundConfig {
    type V = BackgroundConfigView;

    open spec fn view(&self) -> BackgroundConfigView {
        BackgroundConfigView {
            kind: opt_view(self.kind),
            fps: self.fps,
            doom: self.doom@,
            matrix: self.matrix@,
        }
    }
}

/// The default value of a [`BackgroundConfig`].
pub open spec fn default_background() -> BackgroundConfigView {
    BackgroundConfigView {
        kind: None,
        fps: None,
        doom: default_doom(),
        matrix: default_matrix(),
    }
}

impl Default for BackgroundConfig {
    fn default() -> (r: Self)
        ensures
            r@ == default_background(),
    {
        let r = BackgroundConfig {
            kind: None,
            fps: None,
            doom: DoomConfig::default(),
            matrix: MatrixConfig::default(),
        };
        r
    }
}

/// Theme colors, each a color name.
#[derive(Debug, Clone)]
pub struct ThemeConfig {
    /// Color of the border component
    pub border: Option<String>,
    /// Color of the text component
    pub text: Option<String>,
    /// Color of the time component
    pub time: Option<String>,
    /// Color of the container component
    pub container: Option<String>,
    /// Color of the title component
    pub title: Option<String>,
    /// Color of the greet component
    pub greet: Option<String>,
    /// Color of the prompt component
    pub prompt: Option<String>,
    /// Color of the input component
    pub input: Option<String>,
    /// Color of the action component
    pub action: Option<String>,
    /// Color of the button component
    pub button: Option<String>,
}

/// Mathematical view of a [`ThemeConfig`].
pub struct ThemeConfigView {
    pub border: Option<Seq<char>>,
    pub text: Option<Seq<char>>,
    pub time: Option<Seq<char>>,
    pub container: Option<Seq<char>>,
    pub title: Option<Seq<char>>,
    pub greet: Option<Seq<char>>,
    pub prompt: Option<Seq<char>>,
    pub input: Option<Seq<char>>,
    pub action: Option<Seq<char>>,
    pub button: Option<Seq<char>>,
}

impl View for ThemeConfig {
    type V = ThemeConfigView;

    open spec fn view(&self) -> ThemeConfigView {
        ThemeConfigView {
            border: opt_view(self.border),
            text: opt_view(self.text),
            time: opt_view(self.time),
            container: opt_view(self.container),
            title: opt_view(self.title),
            greet: opt_view(self.greet),
            prompt: opt_view(self.prompt),
            input: opt_view(self.input),
            action: opt_view(self.action),
            button: opt_view(self.button),
        }
    }
}

/// The default value of a [`ThemeConfig`].
pub open spec fn default_theme() -> ThemeConfigView {
    ThemeConfigView {
        border: None,
        text: None,
        time: None,
        container: None,
        title: None,
        greet: None,
        prompt: None,
        input: None,
        action: None,
        button: None,
    }
}

impl Default for ThemeConfig {
    fn default() -> (r: Self)
        ensures
            r@ == default_theme(),
    {
        let r = ThemeConfig {
            border: None,
            text: None,
            time: None,
            container: None,
            title: None,
            greet: None,
            prompt: None,
            input: None,
            action: None,
            button: None,
        };
        r
    }
}

/// Complete configuration of the greeter.
#[derive(Debug, Clone)]
pub struct Config {
    /// General settings
    pub general: GeneralConfig,
    /// Session selection and launching
    pub session: SessionConfig,
    /// What the greeter displays
    pub display: DisplayConfig,
    /// What is remembered between runs
    pub remember: RememberConfig,
    /// User selection menu
    pub user_menu: UserMenuConfig,
    /// How secrets are displayed
    pub secret: SecretConfig,
    /// Layout of the prompt
    pub layout: LayoutConfig,
    /// Power commands
    pub power: PowerConfig,
    /// F-key numbers of the menus
    pub keybindings: KeybindingsConfig,
    /// Background animation
    pub background: BackgroundConfig,
    /// Theme colors, each a color name
    pub theme: ThemeConfig,
    /// Outputs used for terminal sizing
    pub outputs: Vec<OutputConfig>,
    /// Explicit terminal size
    pub terminal: TerminalConfig,
}

/// Mathematical view of a [`Config`].
pub struct ConfigView {
    pub general: GeneralConfigView,
    pub session: SessionConfigView,
    pub display: DisplayConfigView,
    pub remember: RememberConfigView,
    pub user_menu: UserMenuConfig,
    pub secret: SecretConfigView,
    pub layout: LayoutConfig,
    pub power: PowerConfigView,
    pub keybindings: KeybindingsConfig,
    pub background: BackgroundConfigView,
    pub theme: ThemeConfigView,
    pub outputs: Seq<OutputConfigView>,
    pub terminal: TerminalConfig,
}

impl View for Config {
    type V = ConfigView;

    open spec fn view(&self) -> ConfigView {
        ConfigView {
            general: self.general@,
            session: self.session@,
            display: self.display@,
            remember: self.remember@,
            user_menu: self.user_menu,
            secret: self.secret@,
            layout: self.layout,
            power: self.power@,
            keybindings: self.keybindings,
            background: self.background@,
            theme: self.theme@,
            outputs: output_configs_view(self.outputs@),
            terminal: self.terminal,
        }
    }
}

/// The default value of a [`Config`].
pub open spec fn default_config() -> ConfigView {
    ConfigView {
        general: default_general(),
        session: default_session(),
        display: default_display(),
        remember: default_remember(),
        user_menu: default_user_menu(),
        secret: default_secret(),
        layout: default_layout(),
        power: default_power(),
        keybindings: default_keybindings(),
        background: default_background(),
        theme: default_theme(),
        outputs: Seq::<OutputConfigView>::empty(),
        terminal: TerminalConfig { cols: None, rows: None },
    }
}

impl Default for Config {
    fn default() -> (r: Self)
        ensures
            r@ == default_config(),
    {
        let r = Config {
            general: GeneralConfig::default(),
            session: SessionConfig::default(),
            display: DisplayConfig::default(),
            remember: RememberConfig::default(),
            user_menu: UserMenuConfig::default(),
            secret: SecretConfig::default(),
            layout: LayoutConfig::default(),
            power: PowerConfig::default(),
            keybindings: KeybindingsConfig::default(),
            background: BackgroundConfig::default(),
            theme: ThemeConfig::default(),
            outputs: Vec::new(),
            terminal: TerminalConfig { cols: None, rows: None },
        };
        assert(r@.outputs =~= Seq::<OutputConfigView>::empty());
        r
    }
}

} // verus!
