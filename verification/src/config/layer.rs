//! Layering of configuration sources: each layer overrides the settings it
//! sets to a value other than their default.
use vstd::prelude::*;

use crate::config::schema::{
    BackgroundConfig, BackgroundConfigView, Config, ConfigView, DisplayConfig,
    DisplayConfigView, DoomConfig, DoomConfigView, GeneralConfig, GeneralConfigView,
    KeybindingsConfig, LayoutConfig, MatrixConfig, MatrixConfigView, PowerConfig,
    PowerConfigView, RememberConfig, RememberConfigView, SecretConfig, SecretConfigView,
    SessionConfig, SessionConfigView, StatusBarConfig, ThemeConfig, ThemeConfigView,
    UserMenuConfig, WidgetsConfig, default_background, default_config, default_display,
    default_doom, default_general, default_keybindings, default_layout, default_matrix,
    default_power, default_remember, default_secret, default_session, default_status_bar,
    default_theme, default_user_menu, default_widgets,
};
use crate::output::{OutputConfigView, TerminalConfig};
use crate::text::{copy_opt, opt_string_eq, strings_eq};

verus! {

/// A setting after layering: the upper layer's value `s` unless it equals the
/// default `def`, in which case the lower layer's value `d` stays.
pub open spec fn pick<T>(d: T, s: T, def: T) -> T {
    if s == def {
        d
    } else {
        s
    }
}

/// Layer `s` over `d` for the settings of a [`GeneralConfig`].
pub open spec fn layer_general(d: GeneralConfigView, s: GeneralConfigView) -> GeneralConfigView {
    let f = default_general();
    GeneralConfigView {
        debug: pick(d.debug, s.debug, f.debug),
        log_file: pick(d.log_file, s.log_file, f.log_file),
    }
}

/// Layer `s` over `d` for the settings of a [`SessionConfig`].
pub open spec fn layer_session(d: SessionConfigView, s: SessionConfigView) -> SessionConfigView {
    let f = default_session();
    SessionConfigView {
        command: pick(d.command, s.command, f.command),
        sessions_dirs: pick(d.sessions_dirs, s.sessions_dirs, f.sessions_dirs),
        xsessions_dirs: pick(d.xsessions_dirs, s.xsessions_dirs, f.xsessions_dirs),
        session_wrapper: pick(d.session_wrapper, s.session_wrapper, f.session_wrapper),
        xsession_wrapper: pick(d.xsession_wrapper, s.xsession_wrapper, f.xsession_wrapper),
        environments: pick(d.environments, s.environments, f.environments),
    }
}

/// Layer `s` over `d` for the settings of a [`DisplayConfig`].
pub open spec fn layer_display(d: DisplayConfigView, s: DisplayConfigView) -> DisplayConfigView {
    let f = default_display();
    DisplayConfigView {
        show_time: pick(d.show_time, s.show_time, f.show_time),
        time_format: pick(d.time_format, s.time_format, f.time_format),
        greeting: pick(d.greeting, s.greeting, f.greeting),
        show_title: pick(d.show_title, s.show_title, f.show_title),
        custom_title: pick(d.custom_title, s.custom_title, f.custom_title),
        issue: pick(d.issue, s.issue, f.issue),
        align_greeting: pick(d.align_greeting, s.align_greeting, f.align_greeting),
    }
}

/// Layer `s` over `d` for the settings of a [`RememberConfig`].
pub open spec fn layer_remember(d: RememberConfigView, s: RememberConfigView) -> RememberConfigView {
    let f = default_remember();
    RememberConfigView {
        default_user: pick(d.default_user, s.default_user, f.default_user),
        username: pick(d.username, s.username, f.username),
        session: pick(d.session, s.session, f.session),
        user_session: pick(d.user_session, s.user_session, f.user_session),
    }
}

/// Layer `s` over `d` for the settings of a [`UserMenuConfig`].
pub open spec fn layer_user_menu(d: UserMenuConfig, s: UserMenuConfig) -> UserMenuConfig {
    let f = default_user_menu();
    UserMenuConfig {
        enabled: pick(d.enabled, s.enabled, f.enabled),
        min_uid: pick(d.min_uid, s.min_uid, f.min_uid),
        max_uid: pick(d.max_uid, s.max_uid, f.max_uid),
    }
}

/// Layer `s` over `d` for the settings of a [`SecretConfig`].
pub open spec fn layer_secret(d: SecretConfigView, s: SecretConfigView) -> SecretConfigView {
    let f = default_secret();
    SecretConfigView {
        mode: pick(d.mode, s.mode, f.mode),
        characters: pick(d.characters, s.characters, f.characters),
    }
}

/// Layer `s` over `d` for the settings of a [`StatusBarConfig`].
pub open spec fn layer_status_bar(d: StatusBarConfig, s: StatusBarConfig) -> StatusBarConfig {
    let f = default_status_bar();
    StatusBarConfig {
        show_reset: pick(d.show_reset, s.show_reset, f.show_reset),
        show_command: pick(d.show_command, s.show_command, f.show_command),
        show_session: pick(d.show_session, s.show_session, f.show_session),
        show_power: pick(d.show_power, s.show_power, f.show_power),
        show_background: pick(d.show_background, s.show_background, f.show_background),
        show_session_status: pick(d.show_session_status, s.show_session_status, f.show_session_status),
        show_caps_lock: pick(d.show_caps_lock, s.show_caps_lock, f.show_caps_lock),
    }
}

/// Layer `s` over `d` for the settings of a [`WidgetsConfig`].
pub open spec fn layer_widgets(d: WidgetsConfig, s: WidgetsConfig) -> WidgetsConfig {
    let f = default_widgets();
    WidgetsConfig {
        time_position: pick(d.time_position, s.time_position, f.time_position),
        status_position: pick(d.status_position, s.status_position, f.status_position),
        status_bar: layer_status_bar(d.status_bar, s.status_bar),
    }
}

/// Layer `s` over `d` for the settings of a [`LayoutConfig`].
pub open spec fn layer_layout(d: LayoutConfig, s: LayoutConfig) -> LayoutConfig {
    let f = default_layout();
    LayoutConfig {
        width: pick(d.width, s.width, f.width),
        window_padding: pick(d.window_padding, s.window_padding, f.window_padding),
        container_padding: pick(d.container_padding, s.container_padding, f.container_padding),
        prompt_padding: pick(d.prompt_padding, s.prompt_padding, f.prompt_padding),
        widgets: layer_widgets(d.widgets, s.widgets),
    }
}

/// Layer `s` over `d` for the settings of a [`PowerConfig`].
pub open spec fn layer_power(d: PowerConfigView, s: PowerConfigView) -> PowerConfigView {
    let f = default_power();
    PowerConfigView {
        shutdown: pick(d.shutdown, s.shutdown, f.shutdown),
        reboot: pick(d.reboot, s.reboot, f.reboot),
        use_setsid: pick(d.use_setsid, s.use_setsid, f.use_setsid),
    }
}

/// Layer `s` over `d` for the settings of a [`KeybindingsConfig`].
pub open spec fn layer_keybindings(d: KeybindingsConfig, s: KeybindingsConfig) -> KeybindingsConfig {
    let f = default_keybindings();
    KeybindingsConfig {
        command: pick(d.command, s.command, f.command),
        sessions: pick(d.sessions, s.sessions, f.sessions),
        power: pick(d.power, s.power, f.power),
        background: pick(d.background, s.background, f.background),
    }
}

/// Layer `s` over `d` for the settings of a [`DoomConfig`].
pub open spec fn layer_doom(d: DoomConfigView, s: DoomConfigView) -> DoomConfigView {
    let f = default_doom();
    DoomConfigView {
        height: pick(d.height, s.height, f.height),
        spread: pick(d.spread, s.spread, f.spread),
        top_color: pick(d.top_color, s.top_color, f.top_color),
        middle_color: pick(d.middle_color, s.middle_color, f.middle_color),
        bottom_color: pick(d.bottom_color, s.bottom_color, f.bottom_color),
    }
}

/// Layer `s` over `d` for the settings of a [`MatrixConfig`].
pub open spec fn layer_matrix(d: MatrixConfigView, s: MatrixConfigView) -> MatrixConfigView {
    let f = default_matrix();
    MatrixConfigView {
        head_color: pick(d.head_color, s.head_color, f.head_color),
        bright_color: pick(d.bright_color, s.bright_color, f.bright_color),
        dim_color: pick(d.dim_color, s.dim_color, f.dim_color),
        min_length: pick(d.min_length, s.min_length, f.min_length),
        max_length: pick(d.max_length, s.max_length, f.max_length),
        min_speed: pick(d.min_speed, s.min_speed, f.min_speed),
        max_speed: pick(d.max_speed, s.max_speed, f.max_speed),
        mutate_chance: pick(d.mutate_chance, s.mutate_chance, f.mutate_chance),
    }
}

/// Layer `s` over `d` for the settings of a [`BackgroundConfig`].
pub open spec fn layer_background(d: BackgroundConfigView, s: BackgroundConfigView) -> BackgroundConfigView {
    let f = default_background();
    BackgroundConfigView {
        kind: pick(d.kind, s.kind, f.kind),
        fps: pick(d.fps, s.fps, f.fps),
        doom: layer_doom(d.doom, s.doom),
        matrix: layer_matrix(d.matrix, s.matrix),
    }
}

/// Layer `s` over `d` for the settings of a [`ThemeConfig`].
pub open spec fn layer_theme(d: ThemeConfigView, s: ThemeConfigView) -> ThemeConfigView {
    let f = default_theme();
    ThemeConfigView {
        border: pick(d.border, s.border, f.border),
        text: pick(d.text, s.text, f.text),
        time: pick(d.time, s.time, f.time),
        container: pick(d.container, s.container, f.container),
        title: pick(d.title, s.title, f.title),
        greet: pick(d.greet, s.greet, f.greet),
        prompt: pick(d.prompt, s.prompt, f.prompt),
        input: pick(d.input, s.input, f.input),
        action: pick(d.action, s.action, f.action),
        button: pick(d.button, s.button, f.button),
    }
}

/// The configuration that results from putting layer `s` over `d`.
pub open spec fn layer(d: ConfigView, s: ConfigView) -> ConfigView {
    let f = default_config();
    ConfigView {
        general: layer_general(d.general, s.general),
        session: layer_session(d.session, s.session),
        display: layer_display(d.display, s.display),
        remember: layer_remember(d.remember, s.remember),
        user_menu: layer_user_menu(d.user_menu, s.user_menu),
        secret: layer_secret(d.secret, s.secret),
        layout: layer_layout(d.layout, s.layout),
        power: layer_power(d.power, s.power),
        keybindings: layer_keybindings(d.keybindings, s.keybindings),
        background: layer_background(d.background, s.background),
        theme: layer_theme(d.theme, s.theme),
        outputs: pick(d.outputs, s.outputs, f.outputs),
        terminal: TerminalConfig {
            cols: pick(d.terminal.cols, s.terminal.cols, f.terminal.cols),
            rows: pick(d.terminal.rows, s.terminal.rows, f.terminal.rows),
        },
    }
}

/// Put the settings of `src` over those of `dest`.
fn apply_general_layer(dest: &mut GeneralConfig, src: GeneralConfig)
    ensures
        final(dest)@ == layer_general(old(dest)@, src@),
{
    let defaults = GeneralConfig::default();
    if src.debug != defaults.debug {
        dest.debug = src.debug;
    }
    if !(src.log_file == defaults.log_file) {
        dest.log_file = src.log_file;
    }
}

/// Put the settings of `src` over those of `dest`.
fn apply_session_layer(dest: &mut SessionConfig, src: SessionConfig)
    ensures
        final(dest)@ == layer_session(old(dest)@, src@),
{
    let defaults = SessionConfig::default();
    if !opt_string_eq(&src.command, &defaults.command) {
        dest.command = src.command;
    }
    if !strings_eq(&src.sessions_dirs, &defaults.sessions_dirs) {
        dest.sessions_dirs = src.sessions_dirs;
    }
    if !strings_eq(&src.xsessions_dirs, &defaults.xsessions_dirs) {
        dest.xsessions_dirs = src.xsessions_dirs;
    }
    if !opt_string_eq(&src.session_wrapper, &defaults.session_wrapper) {
        dest.session_wrapper = src.session_wrapper;
    }
    if !opt_string_eq(&src.xsession_wrapper, &defaults.xsession_wrapper) {
        dest.xsession_wrapper = src.xsession_wrapper;
    }
    if !strings_eq(&src.environments, &defaults.environments) {
        dest.environments = src.environments;
    }
}

/// Put the settings of `src` over those of `dest`.
fn apply_display_layer(dest: &mut DisplayConfig, src: DisplayConfig)
    ensures
        final(dest)@ == layer_display(old(dest)@, src@),
{
    let defaults = DisplayConfig::default();
    if src.show_time != defaults.show_time {
        dest.show_time = src.show_time;
    }
    if !opt_string_eq(&src.time_format, &defaults.time_format) {
        dest.time_format = src.time_format;
    }
    if !opt_string_eq(&src.greeting, &defaults.greeting) {
        dest.greeting = src.greeting;
    }
    if src.show_title != defaults.show_title {
        dest.show_title = src.show_title;
    }
    if !opt_string_eq(&src.custom_title, &defaults.custom_title) {
        dest.custom_title = src.custom_title;
    }
    if src.issue != defaults.issue {
        dest.issue = src.issue;
    }
    if src.align_greeting != defaults.align_greeting {
        dest.align_greeting = src.align_greeting;
    }
}

/// Put the settings of `src` over those of `dest`.
fn apply_remember_layer(dest: &mut RememberConfig, src: RememberConfig)
    ensures
        final(dest)@ == layer_remember(old(dest)@, src@),
{
    let defaults = RememberConfig::default();
    if !opt_string_eq(&src.default_user, &defaults.default_user) {
        dest.default_user = src.default_user;
    }
    if src.username != defaults.username {
        dest.username = src.username;
    }
    if src.session != defaults.session {
        dest.session = src.session;
    }
    if src.user_session != defaults.user_session {
        dest.user_session = src.user_session;
    }
}

/// Put the settings of `src` over those of `dest`.
fn apply_user_menu_layer(dest: &mut UserMenuConfig, src: UserMenuConfig)
    ensures
        *final(dest) == layer_user_menu(*old(dest), src),
{
    let defaults = UserMenuConfig::default();
    if src.enabled != defaults.enabled {
        dest.enabled = src.enabled;
    }
    if src.min_uid != defaults.min_uid {
        dest.min_uid = src.min_uid;
    }
    if src.max_uid != defaults.max_uid {
        dest.max_uid = src.max_uid;
    }
}

/// Put the settings of `src` over those of `dest`.
fn apply_secret_layer(dest: &mut SecretConfig, src: SecretConfig)
    ensures
        final(dest)@ == layer_secret(old(dest)@, src@),
{
    let defaults = SecretConfig::default();
    if src.mode != defaults.mode {
        dest.mode = src.mode;
    }
    if !(src.characters == defaults.characters) {
        dest.characters = src.characters;
    }
}

/// Put the settings of `src` over those of `dest`.
fn apply_status_bar_layer(dest: &mut StatusBarConfig, src: StatusBarConfig)
    ensures
        *final(dest) == layer_status_bar(*old(dest), src),
{
    let defaults = StatusBarConfig::default();
    if src.show_reset != defaults.show_reset {
        dest.show_reset = src.show_reset;
    }
    if src.show_command != defaults.show_command {
        dest.show_command = src.show_command;
    }
    if src.show_session != defaults.show_session {
        dest.show_session = src.show_session;
    }
    if src.show_power != defaults.show_power {
        dest.show_power = src.show_power;
    }
    if src.show_background != defaults.show_background {
        dest.show_background = src.show_background;
    }
    if src.show_session_status != defaults.show_session_status {
        dest.show_session_status = src.show_session_status;
    }
    if src.show_caps_lock != defaults.show_caps_lock {
        dest.show_caps_lock = src.show_caps_lock;
    }
}

/// Put the settings of `src` over those of `dest`.
fn apply_widgets_layer(dest: &mut WidgetsConfig, src: WidgetsConfig)
    ensures
        *final(dest) == layer_widgets(*old(dest), src),
{
    let defaults = WidgetsConfig::default();
    if src.time_position != defaults.time_position {
        dest.time_position = src.time_position;
    }
    if src.status_position != defaults.status_position {
        dest.status_position = src.status_position;
    }
    apply_status_bar_layer(&mut dest.status_bar, src.status_bar);
}

/// Put the settings of `src` over those of `dest`.
#[verifier::rlimit(50)]
fn apply_layout_layer(dest: &mut LayoutConfig, src: LayoutConfig)
    ensures
        *final(dest) == layer_layout(*old(dest), src),
{
    let defaults = LayoutConfig::default();
    if src.width != defaults.width {
        dest.width = src.width;
    }
    if src.window_padding.is_some() {
        dest.window_padding = src.window_padding;
    }
    if src.container_padding.is_some() {
        dest.container_padding = src.container_padding;
    }
    if src.prompt_padding.is_some() {
        dest.prompt_padding = src.prompt_padding;
    }
    apply_widgets_layer(&mut dest.widgets, src.widgets);
}

/// Put the settings of `src` over those of `dest`.
fn apply_power_layer(dest: &mut PowerConfig, src: PowerConfig)
    ensures
        final(dest)@ == layer_power(old(dest)@, src@),
{
    let defaults = PowerConfig::default();
    if !opt_string_eq(&src.shutdown, &defaults.shutdown) {
        dest.shutdown = src.shutdown;
    }
    if !opt_string_eq(&src.reboot, &defaults.reboot) {
        dest.reboot = src.reboot;
    }
    if src.use_setsid != defaults.use_setsid {
        dest.use_setsid = src.use_setsid;
    }
}

/// Put the settings of `src` over those of `dest`.
fn apply_keybindings_layer(dest: &mut KeybindingsConfig, src: KeybindingsConfig)
    ensures
        *final(dest) == layer_keybindings(*old(dest), src),
{
    let defaults = KeybindingsConfig::default();
    if src.command != defaults.command {
        dest.command = src.command;
    }
    if src.sessions != defaults.sessions {
        dest.sessions = src.sessions;
    }
    if src.power != defaults.power {
        dest.power = src.power;
    }
    if src.background != defaults.background {
        dest.background = src.background;
    }
}

/// Put the settings of `src` over those of `dest`.
fn apply_doom_layer(dest: &mut DoomConfig, src: DoomConfig)
    ensures
        final(dest)@ == layer_doom(old(dest)@, src@),
{
    let defaults = DoomConfig::default();
    if src.height.is_some() {
        dest.height = src.height;
    }
    if src.spread.is_some() {
        dest.spread = src.spread;
    }
    if !opt_string_eq(&src.top_color, &defaults.top_color) {
        dest.top_color = src.top_color;
    }
    if !opt_string_eq(&src.middle_color, &defaults.middle_color) {
        dest.middle_color = src.middle_color;
    }
    if !opt_string_eq(&src.bottom_color, &defaults.bottom_color) {
        dest.bottom_color = src.bottom_color;
    }
}

/// Put the settings of `src` over those of `dest`.
fn apply_matrix_layer(dest: &mut MatrixConfig, src: MatrixConfig)
    ensures
        final(dest)@ == layer_matrix(old(dest)@, src@),
{
    let defaults = MatrixConfig::default();
    if !opt_string_eq(&src.head_color, &defaults.head_color) {
        dest.head_color = src.head_color;
    }
    if !opt_string_eq(&src.bright_color, &defaults.bright_color) {
        dest.bright_color = src.bright_color;
    }
    if !opt_string_eq(&src.dim_color, &defaults.dim_color) {
        dest.dim_color = src.dim_color;
    }
    if src.min_length.is_some() {
        dest.min_length = src.min_length;
    }
    if src.max_length.is_some() {
        dest.max_length = src.max_length;
    }
    if src.min_speed.is_some() {
        dest.min_speed = src.min_speed;
    }
    if src.max_speed.is_some() {
        dest.max_speed = src.max_speed;
    }
    if src.mutate_chance.is_some() {
        dest.mutate_chance = src.mutate_chance;
    }
}

/// Put the settings of `src` over those of `dest`.
pub(crate) fn apply_background_layer(dest: &mut BackgroundConfig, src: BackgroundConfig)
    ensures
        final(dest)@ == layer_background(old(dest)@, src@),
{
    let defaults = BackgroundConfig::default();
    if !opt_string_eq(&src.kind, &defaults.kind) {
        dest.kind = src.kind;
    }
    if src.fps.is_some() {
        dest.fps = src.fps;
    }
    apply_doom_layer(&mut dest.doom, src.doom);
    apply_matrix_layer(&mut dest.matrix, src.matrix);
}

/// A copy of the background settings `b`.
pub(crate) fn copy_background(b: &BackgroundConfig) -> (r: BackgroundConfig)
    ensures
        r@ == b@,
{
    BackgroundConfig {
        kind: copy_opt(&b.kind),
        fps: b.fps,
        doom: DoomConfig {
            height: b.doom.height,
            spread: b.doom.spread,
            top_color: copy_opt(&b.doom.top_color),
            middle_color: copy_opt(&b.doom.middle_color),
            bottom_color: copy_opt(&b.doom.bottom_color),
        },
        matrix: MatrixConfig {
            head_color: copy_opt(&b.matrix.head_color),
            bright_color: copy_opt(&b.matrix.bright_color),
            dim_color: copy_opt(&b.matrix.dim_color),
            min_length: b.matrix.min_length,
            max_length: b.matrix.max_length,
            min_speed: b.matrix.min_speed,
            max_speed: b.matrix.max_speed,
            mutate_chance: b.matrix.mutate_chance,
        },
    }
}

/// A copy of the theme settings `t`.
pub(crate) fn copy_theme(t: &ThemeConfig) -> (r: ThemeConfig)
    ensures
        r@ == t@,
{
    ThemeConfig {
        border: copy_opt(&t.border),
        text: copy_opt(&t.text),
        time: copy_opt(&t.time),
        container: copy_opt(&t.container),
        title: copy_opt(&t.title),
        greet: copy_opt(&t.greet),
        prompt: copy_opt(&t.prompt),
        input: copy_opt(&t.input),
        action: copy_opt(&t.action),
        button: copy_opt(&t.button),
    }
}

/// Put the settings of `src` over those of `dest`.
pub(crate) fn apply_theme_layer(dest: &mut ThemeConfig, src: ThemeConfig)
    ensures
        final(dest)@ == layer_theme(old(dest)@, src@),
{
    let defaults = ThemeConfig::default();
    if !opt_string_eq(&src.border, &defaults.border) {
        dest.border = src.border;
    }
    if !opt_string_eq(&src.text, &defaults.text) {
        dest.text = src.text;
    }
    if !opt_string_eq(&src.time, &defaults.time) {
        dest.time = src.time;
    }
    if !opt_string_eq(&src.container, &defaults.container) {
        dest.container = src.container;
    }
    if !opt_string_eq(&src.title, &defaults.title) {
        dest.title = src.title;
    }
    if !opt_string_eq(&src.greet, &defaults.greet) {
        dest.greet = src.greet;
    }
    if !opt_string_eq(&src.prompt, &defaults.prompt) {
        dest.prompt = src.prompt;
    }
    if !opt_string_eq(&src.input, &defaults.input) {
        dest.input = src.input;
    }
    if !opt_string_eq(&src.action, &defaults.action) {
        dest.action = src.action;
    }
    if !opt_string_eq(&src.button, &defaults.button) {
        dest.button = src.button;
    }
}

/// Merges `src` into `dest`, only overwriting settings that differ from their
/// defaults. Used for layering: defaults, system, user, environment, command
/// line.
pub fn apply_config_layer(dest: &mut Config, src: Config)
    ensures
        final(dest)@ == layer(old(dest)@, src@),
{
    let ghost s0 = src@;
    apply_general_layer(&mut dest.general, src.general);
    apply_session_layer(&mut dest.session, src.session);
    apply_display_layer(&mut dest.display, src.display);
    apply_remember_layer(&mut dest.remember, src.remember);
    apply_user_menu_layer(&mut dest.user_menu, src.user_menu);
    apply_secret_layer(&mut dest.secret, src.secret);
    apply_layout_layer(&mut dest.layout, src.layout);
    apply_power_layer(&mut dest.power, src.power);
    apply_keybindings_layer(&mut dest.keybindings, src.keybindings);
    apply_background_layer(&mut dest.background, src.background);
    apply_theme_layer(&mut dest.theme, src.theme);
    proof {
        if src.outputs@.len() == 0 {
            assert(s0.outputs =~= Seq::<OutputConfigView>::empty());
        } else {
            assert(s0.outputs.len() != 0);
            assert(s0.outputs != Seq::<OutputConfigView>::empty());
        }
    }
    if src.outputs.len() != 0 {
        dest.outputs = src.outputs;
    }
    if src.terminal.cols.is_some() {
        dest.terminal.cols = src.terminal.cols;
    }
    if src.terminal.rows.is_some() {
        dest.terminal.rows = src.terminal.rows;
    }
}

proof fn lemma_general_laws(d: GeneralConfigView, a: GeneralConfigView, b: GeneralConfigView)
    ensures
        layer_general(d, default_general()) == d,
        layer_general(default_general(), d) == d,
        layer_general(layer_general(d, a), b) == layer_general(d, layer_general(a, b)),
        layer_general(layer_general(d, a), a) == layer_general(d, a),
{
}

proof fn lemma_session_laws(d: SessionConfigView, a: SessionConfigView, b: SessionConfigView)
    ensures
        layer_session(d, default_session()) == d,
        layer_session(default_session(), d) == d,
        layer_session(layer_session(d, a), b) == layer_session(d, layer_session(a, b)),
        layer_session(layer_session(d, a), a) == layer_session(d, a),
{
}

proof fn lemma_display_laws(d: DisplayConfigView, a: DisplayConfigView, b: DisplayConfigView)
    ensures
        layer_display(d, default_display()) == d,
        layer_display(default_display(), d) == d,
        layer_display(layer_display(d, a), b) == layer_display(d, layer_display(a, b)),
        layer_display(layer_display(d, a), a) == layer_display(d, a),
{
}

proof fn lemma_remember_laws(d: RememberConfigView, a: RememberConfigView, b: RememberConfigView)
    ensures
        layer_remember(d, default_remember()) == d,
        layer_remember(default_remember(), d) == d,
        layer_remember(layer_remember(d, a), b) == layer_remember(d, layer_remember(a, b)),
        layer_remember(layer_remember(d, a), a) == layer_remember(d, a),
{
}

proof fn lemma_user_menu_laws(d: UserMenuConfig, a: UserMenuConfig, b: UserMenuConfig)
    ensures
        layer_user_menu(d, default_user_menu()) == d,
        layer_user_menu(default_user_menu(), d) == d,
        layer_user_menu(layer_user_menu(d, a), b) == layer_user_menu(d, layer_user_menu(a, b)),
        layer_user_menu(layer_user_menu(d, a), a) == layer_user_menu(d, a),
{
}

proof fn lemma_secret_laws(d: SecretConfigView, a: SecretConfigView, b: SecretConfigView)
    ensures
        layer_secret(d, default_secret()) == d,
        layer_secret(default_secret(), d) == d,
        layer_secret(layer_secret(d, a), b) == layer_secret(d, layer_secret(a, b)),
        layer_secret(layer_secret(d, a), a) == layer_secret(d, a),
{
}

proof fn lemma_status_bar_laws(d: StatusBarConfig, a: StatusBarConfig, b: StatusBarConfig)
    ensures
        layer_status_bar(d, default_status_bar()) == d,
        layer_status_bar(default_status_bar(), d) == d,
        layer_status_bar(layer_status_bar(d, a), b) == layer_status_bar(d, layer_status_bar(a, b)),
        layer_status_bar(layer_status_bar(d, a), a) == layer_status_bar(d, a),
{
}

proof fn lemma_widgets_laws(d: WidgetsConfig, a: WidgetsConfig, b: WidgetsConfig)
    ensures
        layer_widgets(d, default_widgets()) == d,
        layer_widgets(default_widgets(), d) == d,
        layer_widgets(layer_widgets(d, a), b) == layer_widgets(d, layer_widgets(a, b)),
        layer_widgets(layer_widgets(d, a), a) == layer_widgets(d, a),
{
    lemma_status_bar_laws(d.status_bar, a.status_bar, b.status_bar);
}

proof fn lemma_layout_laws(d: LayoutConfig, a: LayoutConfig, b: LayoutConfig)
    ensures
        layer_layout(d, default_layout()) == d,
        layer_layout(default_layout(), d) == d,
        layer_layout(layer_layout(d, a), b) == layer_layout(d, layer_layout(a, b)),
        layer_layout(layer_layout(d, a), a) == layer_layout(d, a),
{
    lemma_widgets_laws(d.widgets, a.widgets, b.widgets);
}

proof fn lemma_power_laws(d: PowerConfigView, a: PowerConfigView, b: PowerConfigView)
    ensures
        layer_power(d, default_power()) == d,
        layer_power(default_power(), d) == d,
        layer_power(layer_power(d, a), b) == layer_power(d, layer_power(a, b)),
        layer_power(layer_power(d, a), a) == layer_power(d, a),
{
}

proof fn lemma_keybindings_laws(d: KeybindingsConfig, a: KeybindingsConfig, b: KeybindingsConfig)
    ensures
        layer_keybindings(d, default_keybindings()) == d,
        layer_keybindings(default_keybindings(), d) == d,
        layer_keybindings(layer_keybindings(d, a), b) == layer_keybindings(d, layer_keybindings(a, b)),
        layer_keybindings(layer_keybindings(d, a), a) == layer_keybindings(d, a),
{
}

proof fn lemma_doom_laws(d: DoomConfigView, a: DoomConfigView, b: DoomConfigView)
    ensures
        layer_doom(d, default_doom()) == d,
        layer_doom(default_doom(), d) == d,
        layer_doom(layer_doom(d, a), b) == layer_doom(d, layer_doom(a, b)),
        layer_doom(layer_doom(d, a), a) == layer_doom(d, a),
{
}

proof fn lemma_matrix_laws(d: MatrixConfigView, a: MatrixConfigView, b: MatrixConfigView)
    ensures
        layer_matrix(d, default_matrix()) == d,
        layer_matrix(default_matrix(), d) == d,
        layer_matrix(layer_matrix(d, a), b) == layer_matrix(d, layer_matrix(a, b)),
        layer_matrix(layer_matrix(d, a), a) == layer_matrix(d, a),
{
}

proof fn lemma_background_laws(d: BackgroundConfigView, a: BackgroundConfigView, b: BackgroundConfigView)
    ensures
        layer_background(d, default_background()) == d,
        layer_background(default_background(), d) == d,
        layer_background(layer_background(d, a), b) == layer_background(d, layer_background(a, b)),
        layer_background(layer_background(d, a), a) == layer_background(d, a),
{
    lemma_doom_laws(d.doom, a.doom, b.doom);
    lemma_matrix_laws(d.matrix, a.matrix, b.matrix);
}

proof fn lemma_theme_laws(d: ThemeConfigView, a: ThemeConfigView, b: ThemeConfigView)
    ensures
        layer_theme(d, default_theme()) == d,
        layer_theme(default_theme(), d) == d,
        layer_theme(layer_theme(d, a), b) == layer_theme(d, layer_theme(a, b)),
        layer_theme(layer_theme(d, a), a) == layer_theme(d, a),
{
}

proof fn lemma_all_sections(d: ConfigView, a: ConfigView, b: ConfigView)
    ensures
        layer_general(d.general, default_general()) == d.general,
        layer_general(default_general(), d.general) == d.general,
        layer_general(layer_general(d.general, a.general), b.general)
            == layer_general(d.general, layer_general(a.general, b.general)),
        layer_general(layer_general(d.general, a.general), a.general) == layer_general(d.general, a.general),
        layer_session(d.session, default_session()) == d.session,
        layer_session(default_session(), d.session) == d.session,
        layer_session(layer_session(d.session, a.session), b.session)
            == layer_session(d.session, layer_session(a.session, b.session)),
        layer_session(layer_session(d.session, a.session), a.session) == layer_session(d.session, a.session),
        layer_display(d.display, default_display()) == d.display,
        layer_display(default_display(), d.display) == d.display,
        layer_display(layer_display(d.display, a.display), b.display)
            == layer_display(d.display, layer_display(a.display, b.display)),
        layer_display(layer_display(d.display, a.display), a.display) == layer_display(d.display, a.display),
        layer_remember(d.remember, default_remember()) == d.remember,
        layer_remember(default_remember(), d.remember) == d.remember,
        layer_remember(layer_remember(d.remember, a.remember), b.remember)
            == layer_remember(d.remember, layer_remember(a.remember, b.remember)),
        layer_remember(layer_remember(d.remember, a.remember), a.remember) == layer_remember(d.remember, a.remember),
        layer_user_menu(d.user_menu, default_user_menu()) == d.user_menu,
        layer_user_menu(default_user_menu(), d.user_menu) == d.user_menu,
        layer_user_menu(layer_user_menu(d.user_menu, a.user_menu), b.user_menu)
            == layer_user_menu(d.user_menu, layer_user_menu(a.user_menu, b.user_menu)),
        layer_user_menu(layer_user_menu(d.user_menu, a.user_menu), a.user_menu)
            == layer_user_menu(d.user_menu, a.user_menu),
        layer_secret(d.secret, default_secret()) == d.secret,
        layer_secret(default_secret(), d.secret) == d.secret,
        layer_secret(layer_secret(d.secret, a.secret), b.secret)
            == layer_secret(d.secret, layer_secret(a.secret, b.secret)),
        layer_secret(layer_secret(d.secret, a.secret), a.secret) == layer_secret(d.secret, a.secret),
        layer_layout(d.layout, default_layout()) == d.layout,
        layer_layout(default_layout(), d.layout) == d.layout,
        layer_layout(layer_layout(d.layout, a.layout), b.layout)
            == layer_layout(d.layout, layer_layout(a.layout, b.layout)),
        layer_layout(layer_layout(d.layout, a.layout), a.layout) == layer_layout(d.layout, a.layout),
        layer_power(d.power, default_power()) == d.power,
        layer_power(default_power(), d.power) == d.power,
        layer_power(layer_power(d.power, a.power), b.power) == layer_power(d.power, layer_power(a.power, b.power)),
        layer_power(layer_power(d.power, a.power), a.power) == layer_power(d.power, a.power),
        layer_keybindings(d.keybindings, default_keybindings()) == d.keybindings,
        layer_keybindings(default_keybindings(), d.keybindings) == d.keybindings,
        layer_keybindings(layer_keybindings(d.keybindings, a.keybindings), b.keybindings)
            == layer_keybindings(d.keybindings, layer_keybindings(a.keybindings, b.keybindings)),
        layer_keybindings(layer_keybindings(d.keybindings, a.keybindings), a.keybindings)
            == layer_keybindings(d.keybindings, a.keybindings),
        layer_background(d.background, default_background()) == d.background,
        layer_background(default_background(), d.background) == d.background,
        layer_background(layer_background(d.background, a.background), b.background)
            == layer_background(d.background, layer_background(a.background, b.background)),
        layer_background(layer_background(d.background, a.background), a.background)
            == layer_background(d.background, a.background),
        layer_theme(d.theme, default_theme()) == d.theme,
        layer_theme(default_theme(), d.theme) == d.theme,
        layer_theme(layer_theme(d.theme, a.theme), b.theme) == layer_theme(d.theme, layer_theme(a.theme, b.theme)),
        layer_theme(layer_theme(d.theme, a.theme), a.theme) == layer_theme(d.theme, a.theme),
{
    lemma_general_laws(d.general, a.general, b.general);
    lemma_session_laws(d.session, a.session, b.session);
    lemma_display_laws(d.display, a.display, b.display);
    lemma_remember_laws(d.remember, a.remember, b.remember);
    lemma_user_menu_laws(d.user_menu, a.user_menu, b.user_menu);
    lemma_secret_laws(d.secret, a.secret, b.secret);
    lemma_layout_laws(d.layout, a.layout, b.layout);
    lemma_power_laws(d.power, a.power, b.power);
    lemma_keybindings_laws(d.keybindings, a.keybindings, b.keybindings);
    lemma_background_laws(d.background, a.background, b.background);
    lemma_theme_laws(d.theme, a.theme, b.theme);
}

/// A layer that holds only defaults changes nothing.
pub proof fn lemma_layer_default_is_identity(d: ConfigView)
    ensures
        layer(d, default_config()) == d,
{
    lemma_all_sections(d, d, d);
}

/// Putting a layer over the defaults gives that layer itself.
pub proof fn lemma_layer_over_defaults(s: ConfigView)
    ensures
        layer(default_config(), s) == s,
{
    lemma_all_sections(s, s, s);
}

/// Layering is associative: putting `a` and then `b` over `d` is the same as
/// putting the merge of `a` and `b` over `d`.
pub proof fn lemma_layer_associative(d: ConfigView, a: ConfigView, b: ConfigView)
    ensures
        layer(layer(d, a), b) == layer(d, layer(a, b)),
{
    lemma_all_sections(d, a, b);
}

/// Putting the same layer on twice is the same as putting it on once.
pub proof fn lemma_layer_idempotent(d: ConfigView, s: ConfigView)
    ensures
        layer(layer(d, s), s) == layer(d, s),
{
    lemma_all_sections(d, s, s);
}

/// Layering follows priority, setting by setting: where the upper layer `s`
/// gives a setting a value other than its default, that value wins over the
/// lower layer `d`; where it leaves the default, the lower layer's value
/// stays.
pub proof fn lemma_upper_layer_wins(d: ConfigView, s: ConfigView)
    ensures
        s.general.debug != default_config().general.debug ==> layer(d, s).general.debug == s.general.debug,
        s.general.debug == default_config().general.debug ==> layer(d, s).general.debug == d.general.debug,
        s.general.log_file != default_config().general.log_file ==> layer(d, s).general.log_file == s.general.log_file,
        s.general.log_file == default_config().general.log_file ==> layer(d, s).general.log_file == d.general.log_file,
        s.session.command != default_config().session.command ==> layer(d, s).session.command == s.session.command,
        s.session.command == default_config().session.command ==> layer(d, s).session.command == d.session.command,
        s.session.sessions_dirs != default_config().session.sessions_dirs ==> layer(d, s).session.sessions_dirs == s.session.sessions_dirs,
        s.session.sessions_dirs == default_config().session.sessions_dirs ==> layer(d, s).session.sessions_dirs == d.session.sessions_dirs,
        s.session.xsessions_dirs != default_config().session.xsessions_dirs ==> layer(d, s).session.xsessions_dirs == s.session.xsessions_dirs,
        s.session.xsessions_dirs == default_config().session.xsessions_dirs ==> layer(d, s).session.xsessions_dirs == d.session.xsessions_dirs,
        s.session.session_wrapper != default_config().session.session_wrapper ==> layer(d, s).session.session_wrapper == s.session.session_wrapper,
        s.session.session_wrapper == default_config().session.session_wrapper ==> layer(d, s).session.session_wrapper == d.session.session_wrapper,
        s.session.xsession_wrapper != default_config().session.xsession_wrapper ==> layer(d, s).session.xsession_wrapper == s.session.xsession_wrapper,
        s.session.xsession_wrapper == default_config().session.xsession_wrapper ==> layer(d, s).session.xsession_wrapper == d.session.xsession_wrapper,
        s.session.environments != default_config().session.environments ==> layer(d, s).session.environments == s.session.environments,
        s.session.environments == default_config().session.environments ==> layer(d, s).session.environments == d.session.environments,
        s.display.show_time != default_config().display.show_time ==> layer(d, s).display.show_time == s.display.show_time,
        s.display.show_time == default_config().display.show_time ==> layer(d, s).display.show_time == d.display.show_time,
        s.display.time_format != default_config().display.time_format ==> layer(d, s).display.time_format == s.display.time_format,
        s.display.time_format == default_config().display.time_format ==> layer(d, s).display.time_format == d.display.time_format,
        s.display.greeting != default_config().display.greeting ==> layer(d, s).display.greeting == s.display.greeting,
        s.display.greeting == default_config().display.greeting ==> layer(d, s).display.greeting == d.display.greeting,
        s.display.show_title != default_config().display.show_title ==> layer(d, s).display.show_title == s.display.show_title,
        s.display.show_title == default_config().display.show_title ==> layer(d, s).display.show_title == d.display.show_title,
        s.display.custom_title != default_config().display.custom_title ==> layer(d, s).display.custom_title == s.display.custom_title,
        s.display.custom_title == default_config().display.custom_title ==> layer(d, s).display.custom_title == d.display.custom_title,
        s.display.issue != default_config().display.issue ==> layer(d, s).display.issue == s.display.issue,
        s.display.issue == default_config().display.issue ==> layer(d, s).display.issue == d.display.issue,
        s.display.align_greeting != default_config().display.align_greeting ==> layer(d, s).display.align_greeting == s.display.align_greeting,
        s.display.align_greeting == default_config().display.align_greeting ==> layer(d, s).display.align_greeting == d.display.align_greeting,
        s.remember.default_user != default_config().remember.default_user ==> layer(d, s).remember.default_user == s.remember.default_user,
        s.remember.default_user == default_config().remember.default_user ==> layer(d, s).remember.default_user == d.remember.default_user,
        s.remember.username != default_config().remember.username ==> layer(d, s).remember.username == s.remember.username,
        s.remember.username == default_config().remember.username ==> layer(d, s).remember.username == d.remember.username,
        s.remember.session != default_config().remember.session ==> layer(d, s).remember.session == s.remember.session,
        s.remember.session == default_config().remember.session ==> layer(d, s).remember.session == d.remember.session,
        s.remember.user_session != default_config().remember.user_session ==> layer(d, s).remember.user_session == s.remember.user_session,
        s.remember.user_session == default_config().remember.user_session ==> layer(d, s).remember.user_session == d.remember.user_session,
        s.user_menu.enabled != default_config().user_menu.enabled ==> layer(d, s).user_menu.enabled == s.user_menu.enabled,
        s.user_menu.enabled == default_config().user_menu.enabled ==> layer(d, s).user_menu.enabled == d.user_menu.enabled,
        s.user_menu.min_uid != default_config().user_menu.min_uid ==> layer(d, s).user_menu.min_uid == s.user_menu.min_uid,
        s.user_menu.min_uid == default_config().user_menu.min_uid ==> layer(d, s).user_menu.min_uid == d.user_menu.min_uid,
        s.user_menu.max_uid != default_config().user_menu.max_uid ==> layer(d, s).user_menu.max_uid == s.user_menu.max_uid,
        s.user_menu.max_uid == default_config().user_menu.max_uid ==> layer(d, s).user_menu.max_uid == d.user_menu.max_uid,
        s.secret.mode != default_config().secret.mode ==> layer(d, s).secret.mode == s.secret.mode,
        s.secret.mode == default_config().secret.mode ==> layer(d, s).secret.mode == d.secret.mode,
        s.secret.characters != default_config().secret.characters ==> layer(d, s).secret.characters == s.secret.characters,
        s.secret.characters == default_config().secret.characters ==> layer(d, s).secret.characters == d.secret.characters,
        s.layout.width != default_config().layout.width ==> layer(d, s).layout.width == s.layout.width,
        s.layout.width == default_config().layout.width ==> layer(d, s).layout.width == d.layout.width,
        s.layout.window_padding != default_config().layout.window_padding ==> layer(d, s).layout.window_padding == s.layout.window_padding,
        s.layout.window_padding == default_config().layout.window_padding ==> layer(d, s).layout.window_padding == d.layout.window_padding,
        s.layout.container_padding != default_config().layout.container_padding ==> layer(d, s).layout.container_padding == s.layout.container_padding,
        s.layout.container_padding == default_config().layout.container_padding ==> layer(d, s).layout.container_padding == d.layout.container_padding,
        s.layout.prompt_padding != default_config().layout.prompt_padding ==> layer(d, s).layout.prompt_padding == s.layout.prompt_padding,
        s.layout.prompt_padding == default_config().layout.prompt_padding ==> layer(d, s).layout.prompt_padding == d.layout.prompt_padding,
        s.layout.widgets.time_position != default_config().layout.widgets.time_position ==> layer(d, s).layout.widgets.time_position == s.layout.widgets.time_position,
        s.layout.widgets.time_position == default_config().layout.widgets.time_position ==> layer(d, s).layout.widgets.time_position == d.layout.widgets.time_position,
        s.layout.widgets.status_position != default_config().layout.widgets.status_position ==> layer(d, s).layout.widgets.status_position == s.layout.widgets.status_position,
        s.layout.widgets.status_position == default_config().layout.widgets.status_position ==> layer(d, s).layout.widgets.status_position == d.layout.widgets.status_position,
        s.layout.widgets.status_bar.show_reset != default_config().layout.widgets.status_bar.show_reset ==> layer(d, s).layout.widgets.status_bar.show_reset == s.layout.widgets.status_bar.show_reset,
        s.layout.widgets.status_bar.show_reset == default_config().layout.widgets.status_bar.show_reset ==> layer(d, s).layout.widgets.status_bar.show_reset == d.layout.widgets.status_bar.show_reset,
        s.layout.widgets.status_bar.show_command != default_config().layout.widgets.status_bar.show_command ==> layer(d, s).layout.widgets.status_bar.show_command == s.layout.widgets.status_bar.show_command,
        s.layout.widgets.status_bar.show_command == default_config().layout.widgets.status_bar.show_command ==> layer(d, s).layout.widgets.status_bar.show_command == d.layout.widgets.status_bar.show_command,
        s.layout.widgets.status_bar.show_session != default_config().layout.widgets.status_bar.show_session ==> layer(d, s).layout.widgets.status_bar.show_session == s.layout.widgets.status_bar.show_session,
        s.layout.widgets.status_bar.show_session == default_config().layout.widgets.status_bar.show_session ==> layer(d, s).layout.widgets.status_bar.show_session == d.layout.widgets.status_bar.show_session,
        s.layout.widgets.status_bar.show_power != default_config().layout.widgets.status_bar.show_power ==> layer(d, s).layout.widgets.status_bar.show_power == s.layout.widgets.status_bar.show_power,
        s.layout.widgets.status_bar.show_power == default_config().layout.widgets.status_bar.show_power ==> layer(d, s).layout.widgets.status_bar.show_power == d.layout.widgets.status_bar.show_power,
        s.layout.widgets.status_bar.show_background != default_config().layout.widgets.status_bar.show_background ==> layer(d, s).layout.widgets.status_bar.show_background == s.layout.widgets.status_bar.show_background,
        s.layout.widgets.status_bar.show_background == default_config().layout.widgets.status_bar.show_background ==> layer(d, s).layout.widgets.status_bar.show_background == d.layout.widgets.status_bar.show_background,
        s.layout.widgets.status_bar.show_session_status != default_config().layout.widgets.status_bar.show_session_status ==> layer(d, s).layout.widgets.status_bar.show_session_status == s.layout.widgets.status_bar.show_session_status,
        s.layout.widgets.status_bar.show_session_status == default_config().layout.widgets.status_bar.show_session_status ==> layer(d, s).layout.widgets.status_bar.show_session_status == d.layout.widgets.status_bar.show_session_status,
        s.layout.widgets.status_bar.show_caps_lock != default_config().layout.widgets.status_bar.show_caps_lock ==> layer(d, s).layout.widgets.status_bar.show_caps_lock == s.layout.widgets.status_bar.show_caps_lock,
        s.layout.widgets.status_bar.show_caps_lock == default_config().layout.widgets.status_bar.show_caps_lock ==> layer(d, s).layout.widgets.status_bar.show_caps_lock == d.layout.widgets.status_bar.show_caps_lock,
        s.power.shutdown != default_config().power.shutdown ==> layer(d, s).power.shutdown == s.power.shutdown,
        s.power.shutdown == default_config().power.shutdown ==> layer(d, s).power.shutdown == d.power.shutdown,
        s.power.reboot != default_config().power.reboot ==> layer(d, s).power.reboot == s.power.reboot,
        s.power.reboot == default_config().power.reboot ==> layer(d, s).power.reboot == d.power.reboot,
        s.power.use_setsid != default_config().power.use_setsid ==> layer(d, s).power.use_setsid == s.power.use_setsid,
        s.power.use_setsid == default_config().power.use_setsid ==> layer(d, s).power.use_setsid == d.power.use_setsid,
        s.keybindings.command != default_config().keybindings.command ==> layer(d, s).keybindings.command == s.keybindings.command,
        s.keybindings.command == default_config().keybindings.command ==> layer(d, s).keybindings.command == d.keybindings.command,
        s.keybindings.sessions != default_config().keybindings.sessions ==> layer(d, s).keybindings.sessions == s.keybindings.sessions,
        s.keybindings.sessions == default_config().keybindings.sessions ==> layer(d, s).keybindings.sessions == d.keybindings.sessions,
        s.keybindings.power != default_config().keybindings.power ==> layer(d, s).keybindings.power == s.keybindings.power,
        s.keybindings.power == default_config().keybindings.power ==> layer(d, s).keybindings.power == d.keybindings.power,
        s.keybindings.background != default_config().keybindings.background ==> layer(d, s).keybindings.background == s.keybindings.background,
        s.keybindings.background == default_config().keybindings.background ==> layer(d, s).keybindings.background == d.keybindings.background,
        s.background.kind != default_config().background.kind ==> layer(d, s).background.kind == s.background.kind,
        s.background.kind == default_config().background.kind ==> layer(d, s).background.kind == d.background.kind,
        s.background.fps != default_config().background.fps ==> layer(d, s).background.fps == s.background.fps,
        s.background.fps == default_config().background.fps ==> layer(d, s).background.fps == d.background.fps,
        s.background.doom.height != default_config().background.doom.height ==> layer(d, s).background.doom.height == s.background.doom.height,
        s.background.doom.height == default_config().background.doom.height ==> layer(d, s).background.doom.height == d.background.doom.height,
        s.background.doom.spread != default_config().background.doom.spread ==> layer(d, s).background.doom.spread == s.background.doom.spread,
        s.background.doom.spread == default_config().background.doom.spread ==> layer(d, s).background.doom.spread == d.background.doom.spread,
        s.background.doom.top_color != default_config().background.doom.top_color ==> layer(d, s).background.doom.top_color == s.background.doom.top_color,
        s.background.doom.top_color == default_config().background.doom.top_color ==> layer(d, s).background.doom.top_color == d.background.doom.top_color,
        s.background.doom.middle_color != default_config().background.doom.middle_color ==> layer(d, s).background.doom.middle_color == s.background.doom.middle_color,
        s.background.doom.middle_color == default_config().background.doom.middle_color ==> layer(d, s).background.doom.middle_color == d.background.doom.middle_color,
        s.background.doom.bottom_color != default_config().background.doom.bottom_color ==> layer(d, s).background.doom.bottom_color == s.background.doom.bottom_color,
        s.background.doom.bottom_color == default_config().background.doom.bottom_color ==> layer(d, s).background.doom.bottom_color == d.background.doom.bottom_color,
        s.background.matrix.head_color != default_config().background.matrix.head_color ==> layer(d, s).background.matrix.head_color == s.background.matrix.head_color,
        s.background.matrix.head_color == default_config().background.matrix.head_color ==> layer(d, s).background.matrix.head_color == d.background.matrix.head_color,
        s.background.matrix.bright_color != default_config().background.matrix.bright_color ==> layer(d, s).background.matrix.bright_color == s.background.matrix.bright_color,
        s.background.matrix.bright_color == default_config().background.matrix.bright_color ==> layer(d, s).background.matrix.bright_color == d.background.matrix.bright_color,
        s.background.matrix.dim_color != default_config().background.matrix.dim_color ==> layer(d, s).background.matrix.dim_color == s.background.matrix.dim_color,
        s.background.matrix.dim_color == default_config().background.matrix.dim_color ==> layer(d, s).background.matrix.dim_color == d.background.matrix.dim_color,
        s.background.matrix.min_length != default_config().background.matrix.min_length ==> layer(d, s).background.matrix.min_length == s.background.matrix.min_length,
        s.background.matrix.min_length == default_config().background.matrix.min_length ==> layer(d, s).background.matrix.min_length == d.background.matrix.min_length,
        s.background.matrix.max_length != default_config().background.matrix.max_length ==> layer(d, s).background.matrix.max_length == s.background.matrix.max_length,
        s.background.matrix.max_length == default_config().background.matrix.max_length ==> layer(d, s).background.matrix.max_length == d.background.matrix.max_length,
        s.background.matrix.min_speed != default_config().background.matrix.min_speed ==> layer(d, s).background.matrix.min_speed == s.background.matrix.min_speed,
        s.background.matrix.min_speed == default_config().background.matrix.min_speed ==> layer(d, s).background.matrix.min_speed == d.background.matrix.min_speed,
        s.background.matrix.max_speed != default_config().background.matrix.max_speed ==> layer(d, s).background.matrix.max_speed == s.background.matrix.max_speed,
        s.background.matrix.max_speed == default_config().background.matrix.max_speed ==> layer(d, s).background.matrix.max_speed == d.background.matrix.max_speed,
        s.background.matrix.mutate_chance != default_config().background.matrix.mutate_chance ==> layer(d, s).background.matrix.mutate_chance == s.background.matrix.mutate_chance,
        s.background.matrix.mutate_chance == default_config().background.matrix.mutate_chance ==> layer(d, s).background.matrix.mutate_chance == d.background.matrix.mutate_chance,
        s.theme.border != default_config().theme.border ==> layer(d, s).theme.border == s.theme.border,
        s.theme.border == default_config().theme.border ==> layer(d, s).theme.border == d.theme.border,
        s.theme.text != default_config().theme.text ==> layer(d, s).theme.text == s.theme.text,
        s.theme.text == default_config().theme.text ==> layer(d, s).theme.text == d.theme.text,
        s.theme.time != default_config().theme.time ==> layer(d, s).theme.time == s.theme.time,
        s.theme.time == default_config().theme.time ==> layer(d, s).theme.time == d.theme.time,
        s.theme.container != default_config().theme.container ==> layer(d, s).theme.container == s.theme.container,
        s.theme.container == default_config().theme.container ==> layer(d, s).theme.container == d.theme.container,
        s.theme.title != default_config().theme.title ==> layer(d, s).theme.title == s.theme.title,
        s.theme.title == default_config().theme.title ==> layer(d, s).theme.title == d.theme.title,
        s.theme.greet != default_config().theme.greet ==> layer(d, s).theme.greet == s.theme.greet,
        s.theme.greet == default_config().theme.greet ==> layer(d, s).theme.greet == d.theme.greet,
        s.theme.prompt != default_config().theme.prompt ==> layer(d, s).theme.prompt == s.theme.prompt,
        s.theme.prompt == default_config().theme.prompt ==> layer(d, s).theme.prompt == d.theme.prompt,
        s.theme.input != default_config().theme.input ==> layer(d, s).theme.input == s.theme.input,
        s.theme.input == default_config().theme.input ==> layer(d, s).theme.input == d.theme.input,
        s.theme.action != default_config().theme.action ==> layer(d, s).theme.action == s.theme.action,
        s.theme.action == default_config().theme.action ==> layer(d, s).theme.action == d.theme.action,
        s.theme.button != default_config().theme.button ==> layer(d, s).theme.button == s.theme.button,
        s.theme.button == default_config().theme.button ==> layer(d, s).theme.button == d.theme.button,
        s.outputs != default_config().outputs ==> layer(d, s).outputs == s.outputs,
        s.outputs == default_config().outputs ==> layer(d, s).outputs == d.outputs,
        s.terminal.cols != default_config().terminal.cols ==> layer(d, s).terminal.cols == s.terminal.cols,
        s.terminal.cols == default_config().terminal.cols ==> layer(d, s).terminal.cols == d.terminal.cols,
        s.terminal.rows != default_config().terminal.rows ==> layer(d, s).terminal.rows == s.terminal.rows,
        s.terminal.rows == default_config().terminal.rows ==> layer(d, s).terminal.rows == d.terminal.rows,
{
}

} // verus!
