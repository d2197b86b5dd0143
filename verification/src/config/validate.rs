//! Validation of a configuration: errors that make it unusable and warnings
//! about settings that are likely mistakes.
use vstd::prelude::*;
use vstd::string::StrSliceExecFns;

use crate::config::schema::{Config, ConfigView, KeybindingsConfig, WidgetPosition};
use crate::output::{OutputConfig, OutputConfigView, TerminalConfig, output_configs_view};
use crate::text::{chars_of, char_string, is_ws, range_eq, strings_view, trim, trim_str};

verus! {

/// Errors of configuration loading and validation.
#[derive(Debug, Clone)]
pub enum ConfigError {
    /// A configuration file could not be read.
    Io(String),
    /// A configuration file is not valid TOML for the schema.
    Parse(String),
    /// As `Parse`, with the position of the error in the file.
    ParseWithContext { source: String },
    /// Two options that cannot be used together are both set.
    MutuallyExclusive(String, String),
    /// An option is set without the option it depends on.
    Dependency(String),
    /// A range has its bounds the wrong way round.
    InvalidRange(String),
    /// Two menus share one F-key.
    DuplicateKeybindings,
    /// A menu key is not one of F1 to F12.
    InvalidFKey(String, u8),
    /// The time format holds an invalid strftime item.
    InvalidTimeFormat,
    /// The executable of a session wrapper command cannot be found.
    WrapperExecutableNotFound(String),
    /// Any other invalid setting.
    Validation(String),
}

/// Mathematical view of a [`ConfigError`].
pub enum ConfigErrorView {
    Io(Seq<char>),
    Parse(Seq<char>),
    ParseWithContext(Seq<char>),
    MutuallyExclusive(Seq<char>, Seq<char>),
    Dependency(Seq<char>),
    InvalidRange(Seq<char>),
    DuplicateKeybindings,
    InvalidFKey(Seq<char>, u8),
    InvalidTimeFormat,
    WrapperExecutableNotFound(Seq<char>),
    Validation(Seq<char>),
}

impl View for ConfigError {
    type V = ConfigErrorView;

    open spec fn view(&self) -> ConfigErrorView {
        match self {
            ConfigError::Io(s) => ConfigErrorView::Io(s@),
            ConfigError::Parse(s) => ConfigErrorView::Parse(s@),
            ConfigError::ParseWithContext { source } => ConfigErrorView::ParseWithContext(source@),
            ConfigError::MutuallyExclusive(a, b) => ConfigErrorView::MutuallyExclusive(a@, b@),
            ConfigError::Dependency(s) => ConfigErrorView::Dependency(s@),
            ConfigError::InvalidRange(s) => ConfigErrorView::InvalidRange(s@),
            ConfigError::DuplicateKeybindings => ConfigErrorView::DuplicateKeybindings,
            ConfigError::InvalidFKey(s, k) => ConfigErrorView::InvalidFKey(s@, *k),
            ConfigError::InvalidTimeFormat => ConfigErrorView::InvalidTimeFormat,
            ConfigError::WrapperExecutableNotFound(s) => ConfigErrorView::WrapperExecutableNotFound(
                s@,
            ),
            ConfigError::Validation(s) => ConfigErrorView::Validation(s@),
        }
    }
}

/// For each item that chrono's `StrftimeItems` yields for `format`, in
/// order, whether it is `Item::Error`.
pub uninterp spec fn strftime_item_errors(format: Seq<char>) -> Seq<bool>;

/// Whether chrono's strftime parser finds an invalid item in `format`.
pub open spec fn strftime_has_error(format: Seq<char>) -> bool {
    strftime_item_errors(format).contains(true)
}

/// Runs chrono's `StrftimeItems` over `format` and tells, for each item in
/// order, whether it is `Item::Error`; the result is the name
/// [`strftime_item_errors`] of `format`.
#[verifier::external_body]
fn strftime_error_flags(format: &str) -> (r: Vec<bool>)
    ensures
        r@ == strftime_item_errors(format@),
{
    chrono::format::StrftimeItems::new(format).map(
        |item| matches!(item, chrono::format::Item::Error),
    ).collect()
}

/// Whether `format` holds an invalid strftime item.
pub(crate) fn strftime_invalid(format: &str) -> (r: bool)
    ensures
        r == strftime_has_error(format@),
{
    let flags = strftime_error_flags(format);
    let mut i: usize = 0;
    while i < flags.len()
        invariant
            i <= flags@.len(),
            flags@ == strftime_item_errors(format@),
            forall|j: int| 0 <= j < i ==> !(#[trigger] flags@[j]),
        decreases flags@.len() - i,
    {
        if flags[i] {
            assert(flags@[i as int] == true);
            return true;
        }
        i = i + 1;
    }
    false
}

/// The ASCII digit of `d < 10`.
pub open spec fn digit_char(d: nat) -> char {
    (((d as u8) + 48) as u8) as char
}

/// Decimal notation of `n`.
pub open spec fn decimal(n: nat) -> Seq<char>
    decreases n,
{
    if n < 10 {
        seq![digit_char(n)]
    } else {
        decimal(n / 10).push(digit_char(n % 10))
    }
}

/// Decimal notation of `n`, as `format!("{n}")` writes it.
pub fn decimal_string(n: u64) -> (r: String)
    ensures
        r@ == decimal(n as nat),
    decreases n,
{
    if n < 10 {
        char_string(((n as u8) + 48) as char)
    } else {
        let mut r = decimal_string(n / 10);
        let last = char_string((((n % 10) as u8) + 48) as char);
        r.append(last.as_str());
        r
    }
}

/// Whether `pat` occurs in `s`.
pub open spec fn contains_seq(s: Seq<char>, pat: Seq<char>) -> bool {
    exists|i: int| 0 <= i && i + pat.len() <= s.len() && #[trigger] s.subrange(i, i + pat.len()) == pat
}

/// Whether `pat` occurs in `v`.
pub fn contains_str(v: &Vec<char>, pat: &str) -> (r: bool)
    ensures
        r == contains_seq(v@, pat@),
{
    let n = pat.unicode_len();
    if n > v.len() {
        proof {
            assert forall|i: int|
                0 <= i && i + pat@.len() <= v@.len() implies #[trigger] v@.subrange(
                i,
                i + pat@.len(),
            ) != pat@ by {}
        }
        return false;
    }
    if n == 0 {
        assert(v@.subrange(0int, 0int + pat@.len()) =~= pat@);
        return true;
    }
    let mut i: usize = 0;
    let last = v.len() - n;
    while i <= last
        invariant
            n == pat@.len(),
            n <= v@.len(),
            0 < n,
            v@.len() <= usize::MAX,
            last == v@.len() - n,
            i <= last + 1,
            forall|j: int| 0 <= j < i ==> #[trigger] v@.subrange(j, j + n) != pat@,
        decreases last + 1 - i,
    {
        if range_eq(v, i, i + n, pat) {
            return true;
        }
        i = i + 1;
    }
    proof {
        assert forall|j: int|
            0 <= j && j + pat@.len() <= v@.len() implies #[trigger] v@.subrange(
            j,
            j + pat@.len(),
        ) != pat@ by {
            assert(j < i);
        }
    }
    false
}

/// The leading characters of `s` up to its first whitespace.
pub open spec fn take_until_ws(s: Seq<char>) -> Seq<char>
    decreases s.len(),
{
    if s.len() == 0 || is_ws(s[0]) {
        Seq::<char>::empty()
    } else {
        seq![s[0]] + take_until_ws(s.drop_first())
    }
}

/// The executable named by a wrapper command: its first whitespace-separated
/// word.
pub open spec fn first_word(command: Seq<char>) -> Seq<char> {
    take_until_ws(trim(command))
}

/// The executable of a wrapper command, or `None` when the command is blank.
pub fn wrapper_executable(command: &str) -> (r: Option<String>)
    ensures
        match r {
            Some(e) => trim(command@).len() > 0 && e@ == first_word(command@),
            None => trim(command@).len() == 0,
        },
{
    let t = trim_str(command);
    let v = chars_of(t.as_str());
    if v.len() == 0 {
        return None;
    }
    let mut i: usize = 0;
    assert(v@.skip(0) =~= v@);
    assert(v@.subrange(0, 0) + v@ =~= v@);
    while i < v.len() && !crate::text::is_whitespace(v[i])
        invariant
            i <= v@.len(),
            forall|j: int| 0 <= j < i ==> !is_ws(#[trigger] v@[j]),
            take_until_ws(v@) == v@.subrange(0, i as int) + take_until_ws(v@.skip(i as int)),
        decreases v@.len() - i,
    {
        proof {
            let rest = v@.skip(i as int);
            assert(rest[0] == v@[i as int]);
            assert(rest.drop_first() =~= v@.skip(i + 1));
            assert(v@.subrange(0, i + 1) =~= v@.subrange(0, i as int) + seq![v@[i as int]]);
        }
        i = i + 1;
    }
    proof {
        assert(v@.skip(0) =~= v@);
        let rest = v@.skip(i as int);
        if i < v@.len() {
            assert(rest[0] == v@[i as int]);
        }
        assert(take_until_ws(rest) =~= Seq::<char>::empty());
        assert(v@.subrange(0, i as int) + Seq::<char>::empty() =~= v@.subrange(0, i as int));
    }
    Some(crate::text::string_from_chars(&subvec(&v, i)))
}

/// The first `n` characters of `v`.
fn subvec(v: &Vec<char>, n: usize) -> (r: Vec<char>)
    requires
        n <= v@.len(),
    ensures
        r@ == v@.subrange(0, n as int),
{
    let mut r: Vec<char> = Vec::new();
    let mut i: usize = 0;
    while i < n
        invariant
            i <= n <= v@.len(),
            r@ == v@.subrange(0, i as int),
        decreases n - i,
    {
        r.push(v[i]);
        i = i + 1;
        assert(r@ =~= v@.subrange(0, i as int));
    }
    r
}

/// The error a wrapper command gives when its executable was looked up with
/// the result `found`: a blank command names itself, a missing executable
/// names the executable.
pub open spec fn wrapper_error(command: Seq<char>, found: bool) -> Option<Seq<char>> {
    if trim(command).len() == 0 {
        Some(command)
    } else if !found {
        Some(first_word(command))
    } else {
        None
    }
}

/// Number of outputs marked primary.
pub open spec fn count_primary(s: Seq<OutputConfigView>) -> nat
    decreases s.len(),
{
    if s.len() == 0 {
        0
    } else {
        count_primary(s.drop_last()) + if s.last().primary {
            1nat
        } else {
            0nat
        }
    }
}

/// What is wrong with one connector name, if anything.
pub open spec fn connector_problem(c: Seq<char>) -> Option<Seq<char>> {
    if contains_seq(c, "/"@) || contains_seq(c, ".."@) {
        Some("Output connector name '"@ + c + "' must not contain path separators"@)
    } else if c.len() == 0 {
        Some("Output connector name must not be empty"@)
    } else {
        None
    }
}

/// The problem of the first output whose connector name is invalid.
pub open spec fn connector_error(s: Seq<OutputConfigView>) -> Option<Seq<char>>
    decreases s.len(),
{
    if s.len() == 0 {
        None
    } else {
        match connector_problem(s[0].connector) {
            Some(m) => Some(m),
            None => connector_error(s.drop_first()),
        }
    }
}

/// Why an explicit terminal size is invalid, if it is.
pub open spec fn terminal_invalid(t: TerminalConfig) -> Option<Seq<char>> {
    match (t.cols, t.rows) {
        (Some(c), Some(r)) => if c == 0 || r == 0 {
            Some("[terminal] cols and rows must be greater than zero"@)
        } else {
            None
        },
        (None, None) => None,
        _ => Some("[terminal] cols and rows must be set together"@),
    }
}

impl TerminalConfig {
    /// Why this explicit terminal size is invalid: `cols` and `rows` must be
    /// set together, and neither may be zero.
    pub fn invalid_reason(&self) -> (r: Option<String>)
        ensures
            crate::text::opt_view(r) == terminal_invalid(*self),
    {
        match (self.cols, self.rows) {
            (Some(c), Some(r)) => if c == 0 || r == 0 {
                Some(String::from_str("[terminal] cols and rows must be greater than zero"))
            } else {
                None
            },
            (None, None) => None,
            _ => Some(String::from_str("[terminal] cols and rows must be set together")),
        }
    }
}

/// A one-element list when `cond` holds, else an empty one.
pub open spec fn item_if(cond: bool, s: Seq<char>) -> Seq<Seq<char>> {
    if cond {
        seq![s]
    } else {
        Seq::<Seq<char>>::empty()
    }
}

/// The warning about `[[outputs]]` when every entry is disabled.
pub open spec fn outputs_warnings(s: Seq<OutputConfigView>) -> Seq<Seq<char>> {
    item_if(
        s.len() > 0 && forall|i: int| 0 <= i < s.len() ==> !(#[trigger] s[i]).enabled,
        "All [[outputs]] entries have `enabled = false`; no output will be used for terminal sizing"@,
    )
}

/// Whether a power command may fail for want of setsid or privileges.
pub open spec fn risky_power(cmd: Option<Seq<char>>, use_setsid: bool) -> bool {
    match cmd {
        Some(c) => !use_setsid && !contains_seq(c, "sudo"@) && !contains_seq(c, "doas"@),
        None => false,
    }
}

/// Warnings about the layout and the user menu.
#[verifier::opaque]
pub open spec fn warnings_layout(c: ConfigView) -> Seq<Seq<char>> {
    let wp = c.layout.window_padding;
    let cp = c.layout.container_padding;
    item_if(
        wp is Some && wp->0 > 10,
        "window_padding is very high ("@ + decimal(wp->0 as nat)
            + "), this may cause display issues"@,
    ) + item_if(
        cp is Some && cp->0 > 10,
        "container_padding is very high ("@ + decimal(cp->0 as nat)
            + "), this may cause display issues"@,
    ) + item_if(
        c.layout.width > 200,
        "width is very high ("@ + decimal(c.layout.width as nat)
            + "), this may cause display issues on smaller terminals"@,
    ) + item_if(
        c.user_menu.enabled && c.user_menu.min_uid > 65000,
        "user_menu.min_uid is very high, you may not see any users"@,
    )
}

/// Warnings about session directories, widgets and power commands.
#[verifier::opaque]
pub open spec fn warnings_features(c: ConfigView) -> Seq<Seq<char>> {
    item_if(
        !(c.session.sessions_dirs + c.session.xsessions_dirs).no_duplicates(),
        "Duplicate session directories detected in sessions_dirs and xsessions_dirs"@,
    ) + item_if(
        c.layout.widgets.time_position == WidgetPosition::Hidden && c.display.show_time,
        "time widget is hidden but show_time is enabled"@,
    ) + item_if(
        risky_power(c.power.shutdown, c.power.use_setsid),
        "shutdown command without setsid or privilege escalation may fail"@,
    ) + item_if(
        risky_power(c.power.reboot, c.power.use_setsid),
        "reboot command without setsid or privilege escalation may fail"@,
    )
}

/// Warnings about empty settings and conflicting options.
#[verifier::opaque]
pub open spec fn warnings_misc(c: ConfigView) -> Seq<Seq<char>> {
    item_if(
        c.session.sessions_dirs.len() == 0 && c.session.xsessions_dirs.len() == 0,
        "No session directories configured, users may not be able to select sessions"@,
    ) + item_if(
        c.display.time_format is Some && c.display.time_format->0.len() == 0,
        "time_format is empty, this will result in no time display"@,
    ) + item_if(
        c.remember.session && c.remember.user_session,
        "Both remember.session and remember.user_session are enabled"@,
    ) + item_if(
        c.background.fps == Some(0u32),
        "Background fps is set to 0, this will be ignored"@,
    )
}

/// The warnings that `check_warnings` adds for `c`, in order.
pub open spec fn spec_warnings(c: ConfigView) -> Seq<Seq<char>> {
    warnings_layout(c) + warnings_features(c) + warnings_misc(c)
}

/// Whether the four menu keys are pairwise distinct.
pub open spec fn keys_distinct(k: KeybindingsConfig) -> bool {
    &&& k.command != k.sessions
    &&& k.command != k.power
    &&& k.command != k.background
    &&& k.sessions != k.power
    &&& k.sessions != k.background
    &&& k.power != k.background
}

/// Whether `k` is the number of one of F1 to F12.
pub open spec fn is_fkey(k: u8) -> bool {
    1 <= k <= 12
}

/// The outcome of validating `c`. `validate_wrappers` asks for the wrapper
/// commands to be checked; `session_found` and `xsession_found` are whether
/// the executables of the session and X session wrappers were found.
pub open spec fn spec_validate(
    c: ConfigView,
    validate_wrappers: bool,
    session_found: bool,
    xsession_found: bool,
) -> Result<Seq<Seq<char>>, ConfigErrorView> {
    let k = c.keybindings;
    if c.display.issue && c.display.greeting is Some {
        Err(ConfigErrorView::MutuallyExclusive("display.issue"@, "display.greeting"@))
    } else if c.remember.user_session && !c.remember.username {
        Err(ConfigErrorView::Dependency("remember.user_session requires remember.username"@))
    } else if c.user_menu.min_uid > c.user_menu.max_uid {
        Err(
            ConfigErrorView::InvalidRange(
                "user_menu.min_uid must not exceed user_menu.max_uid"@,
            ),
        )
    } else if !keys_distinct(k) {
        Err(ConfigErrorView::DuplicateKeybindings)
    } else if !is_fkey(k.command) {
        Err(ConfigErrorView::InvalidFKey("command"@, k.command))
    } else if !is_fkey(k.sessions) {
        Err(ConfigErrorView::InvalidFKey("sessions"@, k.sessions))
    } else if !is_fkey(k.power) {
        Err(ConfigErrorView::InvalidFKey("power"@, k.power))
    } else if !is_fkey(k.background) {
        Err(ConfigErrorView::InvalidFKey("background"@, k.background))
    } else if c.display.time_format is Some && strftime_has_error(c.display.time_format->0) {
        Err(ConfigErrorView::InvalidTimeFormat)
    } else if validate_wrappers && c.session.session_wrapper is Some && wrapper_error(
        c.session.session_wrapper->0,
        session_found,
    ) is Some {
        Err(
            ConfigErrorView::WrapperExecutableNotFound(
                wrapper_error(c.session.session_wrapper->0, session_found)->0,
            ),
        )
    } else if validate_wrappers && c.session.xsession_wrapper is Some && wrapper_error(
        c.session.xsession_wrapper->0,
        xsession_found,
    ) is Some {
        Err(
            ConfigErrorView::WrapperExecutableNotFound(
                wrapper_error(c.session.xsession_wrapper->0, xsession_found)->0,
            ),
        )
    } else if count_primary(c.outputs) > 1 {
        Err(
            ConfigErrorView::Validation(
                "At most one output may be marked `primary = true`, but "@ + decimal(
                    count_primary(c.outputs),
                ) + " are"@,
            ),
        )
    } else if connector_error(c.outputs) is Some {
        Err(ConfigErrorView::Validation(connector_error(c.outputs)->0))
    } else if terminal_invalid(c.terminal) is Some {
        Err(ConfigErrorView::Validation(terminal_invalid(c.terminal)->0))
    } else {
        Ok(outputs_warnings(c.outputs) + spec_warnings(c))
    }
}

/// Append `s` to `w` when `cond` holds.
fn push_if(w: &mut Vec<String>, cond: bool, s: String)
    ensures
        strings_view(final(w)@) == strings_view(old(w)@) + item_if(cond, s@),
{
    let ghost before = strings_view(w@);
    if cond {
        w.push(s);
        assert(strings_view(w@) =~= before + seq![s@]);
    } else {
        assert(before + Seq::<Seq<char>>::empty() =~= before);
    }
}

/// `prefix`, the decimal notation of `n`, then `suffix`.
fn number_message(prefix: &str, n: u64, suffix: &str) -> (r: String)
    ensures
        r@ == prefix@ + decimal(n as nat) + suffix@,
{
    let mut m = String::from_str(prefix);
    let d = decimal_string(n);
    m.append(d.as_str());
    m.append(suffix);
    m
}

/// Whether the session directories hold one directory twice.
fn has_duplicate_dirs(a: &Vec<String>, b: &Vec<String>) -> (r: bool)
    ensures
        r == !(strings_view(a@) + strings_view(b@)).no_duplicates(),
{
    let ghost target = strings_view(a@) + strings_view(b@);
    let mut all: Vec<String> = Vec::new();
    let mut i: usize = 0;
    while i < a.len()
        invariant
            i <= a@.len(),
            all@.len() == i,
            strings_view(all@) == strings_view(a@).take(i as int),
        decreases a@.len() - i,
    {
        let e = a[i].clone();
        assert(e@ == a@[i as int]@);
        let ghost old_all = all@;
        all.push(e);
        i = i + 1;
        assert forall|j: int| 0 <= j < i implies #[trigger] strings_view(all@)[j] == strings_view(
            a@,
        ).take(i as int)[j] by {
            if j < i - 1 {
                assert(all@[j] == old_all[j]);
                assert(strings_view(old_all)[j] == strings_view(a@).take(i - 1)[j]);
            }
        }
        assert(strings_view(all@) =~= strings_view(a@).take(i as int));
    }
    let mut k: usize = 0;
    assert(strings_view(all@) =~= strings_view(a@));
    while k < b.len()
        invariant
            k <= b@.len(),
            all@.len() == a@.len() + k,
            strings_view(all@) == strings_view(a@) + strings_view(b@).take(k as int),
        decreases b@.len() - k,
    {
        let e = b[k].clone();
        assert(e@ == b@[k as int]@);
        let ghost old_all = all@;
        all.push(e);
        k = k + 1;
        let ghost want = strings_view(a@) + strings_view(b@).take(k as int);
        assert forall|j: int| 0 <= j < all@.len() implies #[trigger] strings_view(all@)[j]
            == want[j] by {
            if j < all@.len() - 1 {
                assert(all@[j] == old_all[j]);
                assert(strings_view(old_all)[j] == (strings_view(a@) + strings_view(b@).take(
                    k - 1,
                ))[j]);
            }
        }
        assert(strings_view(all@) =~= want);
    }
    assert(strings_view(all@) =~= target);
    let n = all.len();
    let mut x: usize = 0;
    while x < n
        invariant
            n == all@.len(),
            x <= n,
            target == strings_view(a@) + strings_view(b@),
            strings_view(all@) == target,
            forall|p: int, q: int| 0 <= p < x && p < q < n ==> target[p] != target[q],
        decreases n - x,
    {
        let mut y: usize = x + 1;
        while y < n
            invariant
                n == all@.len(),
                x < n,
                x + 1 <= y <= n,
                target == strings_view(a@) + strings_view(b@),
                strings_view(all@) == target,
                forall|p: int, q: int| 0 <= p < x && p < q < n ==> target[p] != target[q],
                forall|q: int| x < q < y ==> target[x as int] != target[q],
            decreases n - y,
        {
            if all[x] == all[y] {
                assert(target[x as int] == all@[x as int]@);
                assert(target[y as int] == all@[y as int]@);
                assert(target[x as int] == target[y as int]);
                assert((strings_view(a@) + strings_view(b@))[x as int] == (strings_view(a@)
                    + strings_view(b@))[y as int]);
                return true;
            }
            y = y + 1;
        }
        x = x + 1;
    }
    assert forall|p: int, q: int| 0 <= p < target.len() && 0 <= q < target.len() && p != q implies target[p] != target[q] by {
        if p > q {
            assert(target[q] != target[p]);
        }
    }
    false
}

/// Whether a power command may fail for want of setsid or privileges.
fn is_risky_power(cmd: &Option<String>, use_setsid: bool) -> (r: bool)
    ensures
        r == risky_power(crate::text::opt_view(*cmd), use_setsid),
{
    match cmd {
        Some(c) => {
            let v = chars_of(c.as_str());
            !use_setsid && !contains_str(&v, "sudo") && !contains_str(&v, "doas")
        },
        None => false,
    }
}

impl Config {
    fn warn_layout(&self, warnings: &mut Vec<String>)
        ensures
            strings_view(final(warnings)@) == strings_view(old(warnings)@) + warnings_layout(self@),
    {
        reveal(warnings_layout);
        let ghost c = self@;
        let ghost w0 = strings_view(warnings@);
        let (wp_high, wp) = match self.layout.window_padding {
            Some(p) => (p > 10, p),
            None => (false, 0),
        };
        push_if(
            warnings,
            wp_high,
            number_message("window_padding is very high (", wp as u64, "), this may cause display issues"),
        );
        let ghost acc1 = item_if(
            c.layout.window_padding is Some && c.layout.window_padding->0 > 10,
            "window_padding is very high ("@ + decimal(c.layout.window_padding->0 as nat)
                + "), this may cause display issues"@,
        );
        assert(strings_view(warnings@) =~= w0 + acc1);
        let (cp_high, cp) = match self.layout.container_padding {
            Some(p) => (p > 10, p),
            None => (false, 0),
        };
        push_if(
            warnings,
            cp_high,
            number_message("container_padding is very high (", cp as u64, "), this may cause display issues"),
        );
        let ghost acc2 = acc1 + item_if(
            c.layout.container_padding is Some && c.layout.container_padding->0 > 10,
            "container_padding is very high ("@ + decimal(c.layout.container_padding->0 as nat)
                + "), this may cause display issues"@,
        );
        assert(strings_view(warnings@) =~= w0 + acc2);
        push_if(
            warnings,
            self.layout.width > 200,
            number_message(
                "width is very high (",
                self.layout.width as u64,
                "), this may cause display issues on smaller terminals",
            ),
        );
        let ghost acc3 = acc2 + item_if(
            c.layout.width > 200,
            "width is very high ("@ + decimal(c.layout.width as nat)
                + "), this may cause display issues on smaller terminals"@,
        );
        assert(strings_view(warnings@) =~= w0 + acc3);
        push_if(
            warnings,
            self.user_menu.enabled && self.user_menu.min_uid > 65000,
            String::from_str("user_menu.min_uid is very high, you may not see any users"),
        );
        let ghost acc4 = acc3 + item_if(
            c.user_menu.enabled && c.user_menu.min_uid > 65000,
            "user_menu.min_uid is very high, you may not see any users"@,
        );
        assert(strings_view(warnings@) =~= w0 + acc4);
    }

    fn warn_features(&self, warnings: &mut Vec<String>)
        ensures
            strings_view(final(warnings)@) == strings_view(old(warnings)@) + warnings_features(
                self@,
            ),
    {
        reveal(warnings_features);
        let ghost c = self@;
        let ghost w0 = strings_view(warnings@);
        push_if(
            warnings,
            has_duplicate_dirs(&self.session.sessions_dirs, &self.session.xsessions_dirs),
            String::from_str(
                "Duplicate session directories detected in sessions_dirs and xsessions_dirs",
            ),
        );
        let ghost acc5 = item_if(
            !(c.session.sessions_dirs + c.session.xsessions_dirs).no_duplicates(),
            "Duplicate session directories detected in sessions_dirs and xsessions_dirs"@,
        );
        assert(strings_view(warnings@) =~= w0 + acc5);
        push_if(
            warnings,
            self.layout.widgets.time_position == WidgetPosition::Hidden && self.display.show_time,
            String::from_str("time widget is hidden but show_time is enabled"),
        );
        let ghost acc6 = acc5 + item_if(
            c.layout.widgets.time_position == WidgetPosition::Hidden && c.display.show_time,
            "time widget is hidden but show_time is enabled"@,
        );
        assert(strings_view(warnings@) =~= w0 + acc6);
        push_if(
            warnings,
            is_risky_power(&self.power.shutdown, self.power.use_setsid),
            String::from_str("shutdown command without setsid or privilege escalation may fail"),
        );
        let ghost acc7 = acc6 + item_if(
            risky_power(c.power.shutdown, c.power.use_setsid),
            "shutdown command without setsid or privilege escalation may fail"@,
        );
        assert(strings_view(warnings@) =~= w0 + acc7);
        push_if(
            warnings,
            is_risky_power(&self.power.reboot, self.power.use_setsid),
            String::from_str("reboot command without setsid or privilege escalation may fail"),
        );
        let ghost acc8 = acc7 + item_if(
            risky_power(c.power.reboot, c.power.use_setsid),
            "reboot command without setsid or privilege escalation may fail"@,
        );
        assert(strings_view(warnings@) =~= w0 + acc8);
    }

    fn warn_misc(&self, warnings: &mut Vec<String>)
        ensures
            strings_view(final(warnings)@) == strings_view(old(warnings)@) + warnings_misc(self@),
    {
        reveal(warnings_misc);
        let ghost c = self@;
        let ghost w0 = strings_view(warnings@);
        push_if(
            warnings,
            self.session.sessions_dirs.len() == 0 && self.session.xsessions_dirs.len() == 0,
            String::from_str(
                "No session directories configured, users may not be able to select sessions",
            ),
        );
        let ghost acc9 = item_if(
            c.session.sessions_dirs.len() == 0 && c.session.xsessions_dirs.len() == 0,
            "No session directories configured, users may not be able to select sessions"@,
        );
        assert(strings_view(warnings@) =~= w0 + acc9);
        let empty_format = match &self.display.time_format {
            Some(f) => f.as_str().unicode_len() == 0,
            None => false,
        };
        push_if(
            warnings,
            empty_format,
            String::from_str("time_format is empty, this will result in no time display"),
        );
        let ghost acc10 = acc9 + item_if(
            c.display.time_format is Some && c.display.time_format->0.len() == 0,
            "time_format is empty, this will result in no time display"@,
        );
        assert(strings_view(warnings@) =~= w0 + acc10);
        push_if(
            warnings,
            self.remember.session && self.remember.user_session,
            String::from_str("Both remember.session and remember.user_session are enabled"),
        );
        let ghost acc11 = acc10 + item_if(
            c.remember.session && c.remember.user_session,
            "Both remember.session and remember.user_session are enabled"@,
        );
        assert(strings_view(warnings@) =~= w0 + acc11);
        let zero_fps = match self.background.fps {
            Some(f) => f == 0,
            None => false,
        };
        push_if(
            warnings,
            zero_fps,
            String::from_str("Background fps is set to 0, this will be ignored"),
        );
        let ghost acc12 = acc11 + item_if(
            c.background.fps == Some(0u32),
            "Background fps is set to 0, this will be ignored"@,
        );
        assert(strings_view(warnings@) =~= w0 + acc12);
    }

    /// Check for configuration warnings
    pub fn check_warnings(&self, warnings: &mut Vec<String>)
        ensures
            strings_view(final(warnings)@) == strings_view(old(warnings)@) + spec_warnings(self@),
    {
        let ghost w0 = strings_view(warnings@);
        self.warn_layout(warnings);
        self.warn_features(warnings);
        self.warn_misc(warnings);
        assert(strings_view(warnings@) =~= w0 + spec_warnings(self@));
    }
}


/// The error of a wrapper command whose executable lookup gave `found`.
fn wrapper_check(command: &String, found: bool) -> (r: Option<String>)
    ensures
        crate::text::opt_view(r) == wrapper_error(command@, found),
{
    match wrapper_executable(command.as_str()) {
        None => Some(command.clone()),
        Some(e) => if found {
            None
        } else {
            Some(e)
        },
    }
}

fn primary_count(outputs: &Vec<OutputConfig>) -> (r: u64)
    ensures
        r as nat == count_primary(output_configs_view(outputs@)),
{
    let ghost s = output_configs_view(outputs@);
    let mut n: u64 = 0;
    let mut i: usize = 0;
    while i < outputs.len()
        invariant
            i <= outputs@.len(),
            s == output_configs_view(outputs@),
            n as nat == count_primary(s.take(i as int)),
            n <= i,
        decreases outputs@.len() - i,
    {
        proof {
            assert(s.take(i + 1).drop_last() =~= s.take(i as int));
            assert(s.take(i + 1).last() == outputs@[i as int]@);
        }
        if outputs[i].primary {
            n = n + 1;
        }
        i = i + 1;
    }
    assert(s.take(outputs@.len() as int) =~= s);
    n
}

fn connector_check(outputs: &Vec<OutputConfig>) -> (r: Option<String>)
    ensures
        crate::text::opt_view(r) == connector_error(output_configs_view(outputs@)),
{
    let ghost s = output_configs_view(outputs@);
    let mut i: usize = 0;
    assert(s.skip(0) =~= s);
    while i < outputs.len()
        invariant
            i <= outputs@.len(),
            s == output_configs_view(outputs@),
            connector_error(s) == connector_error(s.skip(i as int)),
        decreases outputs@.len() - i,
    {
        let c = &outputs[i].connector;
        let v = chars_of(c.as_str());
        proof {
            assert(s.skip(i as int)[0] == outputs@[i as int]@);
            assert(s.skip(i as int).drop_first() =~= s.skip(i + 1));
        }
        if contains_str(&v, "/") || contains_str(&v, "..") {
            let mut m = String::from_str("Output connector name '");
            m.append(c.as_str());
            m.append("' must not contain path separators");
            return Some(m);
        }
        if v.len() == 0 {
            return Some(String::from_str("Output connector name must not be empty"));
        }
        i = i + 1;
    }
    assert(s.skip(i as int) =~= Seq::<OutputConfigView>::empty());
    None
}

fn all_outputs_disabled(outputs: &Vec<OutputConfig>) -> (r: bool)
    ensures
        r == (outputs@.len() > 0 && forall|i: int|
            0 <= i < outputs@.len() ==> !(#[trigger] output_configs_view(outputs@)[i]).enabled),
{
    let ghost s = output_configs_view(outputs@);
    if outputs.len() == 0 {
        return false;
    }
    let mut i: usize = 0;
    while i < outputs.len()
        invariant
            i <= outputs@.len(),
            s == output_configs_view(outputs@),
            forall|j: int| 0 <= j < i ==> !(#[trigger] s[j]).enabled,
        decreases outputs@.len() - i,
    {
        if outputs[i].enabled {
            assert(s[i as int].enabled);
            return false;
        }
        i = i + 1;
    }
    true
}

impl Config {
    /// Validate the configuration.
    ///
    /// `validate_wrappers` asks for the session wrapper commands to be
    /// checked; `session_wrapper_found` and `xsession_wrapper_found` say
    /// whether the executables that [`wrapper_executable`] names for them
    /// exist and are executable. Returns the warnings when the configuration
    /// is usable.
    pub fn validate(
        &self,
        validate_wrappers: bool,
        session_wrapper_found: bool,
        xsession_wrapper_found: bool,
    ) -> (r: Result<Vec<String>, ConfigError>)
        ensures
            match r {
                Ok(w) => spec_validate(
                    self@,
                    validate_wrappers,
                    session_wrapper_found,
                    xsession_wrapper_found,
                ) == Ok::<Seq<Seq<char>>, ConfigErrorView>(strings_view(w@)),
                Err(e) => spec_validate(
                    self@,
                    validate_wrappers,
                    session_wrapper_found,
                    xsession_wrapper_found,
                ) == Err::<Seq<Seq<char>>, ConfigErrorView>(e@),
            },
    {
        let mut warnings: Vec<String> = Vec::new();
        if self.display.issue && self.display.greeting.is_some() {
            return Err(
                ConfigError::MutuallyExclusive(
                    String::from_str("display.issue"),
                    String::from_str("display.greeting"),
                ),
            );
        }
        if self.remember.user_session && !self.remember.username {
            return Err(
                ConfigError::Dependency(
                    String::from_str("remember.user_session requires remember.username"),
                ),
            );
        }
        if self.user_menu.min_uid > self.user_menu.max_uid {
            return Err(
                ConfigError::InvalidRange(
                    String::from_str("user_menu.min_uid must not exceed user_menu.max_uid"),
                ),
            );
        }
        let k = self.keybindings;
        if k.command == k.sessions || k.command == k.power || k.command == k.background
            || k.sessions == k.power || k.sessions == k.background || k.power == k.background {
            return Err(ConfigError::DuplicateKeybindings);
        }
        if !(1 <= k.command && k.command <= 12) {
            return Err(ConfigError::InvalidFKey(String::from_str("command"), k.command));
        }
        if !(1 <= k.sessions && k.sessions <= 12) {
            return Err(ConfigError::InvalidFKey(String::from_str("sessions"), k.sessions));
        }
        if !(1 <= k.power && k.power <= 12) {
            return Err(ConfigError::InvalidFKey(String::from_str("power"), k.power));
        }
        if !(1 <= k.background && k.background <= 12) {
            return Err(ConfigError::InvalidFKey(String::from_str("background"), k.background));
        }
        if let Some(f) = &self.display.time_format {
            if strftime_invalid(f.as_str()) {
                return Err(ConfigError::InvalidTimeFormat);
            }
        }
        if validate_wrappers {
            if let Some(w) = &self.session.session_wrapper {
                if let Some(e) = wrapper_check(w, session_wrapper_found) {
                    return Err(ConfigError::WrapperExecutableNotFound(e));
                }
            }
            if let Some(w) = &self.session.xsession_wrapper {
                if let Some(e) = wrapper_check(w, xsession_wrapper_found) {
                    return Err(ConfigError::WrapperExecutableNotFound(e));
                }
            }
        }
        let primaries = primary_count(&self.outputs);
        if primaries > 1 {
            let mut m = String::from_str("At most one output may be marked `primary = true`, but ");
            let d = decimal_string(primaries);
            m.append(d.as_str());
            m.append(" are");
            return Err(ConfigError::Validation(m));
        }
        if let Some(m) = connector_check(&self.outputs) {
            return Err(ConfigError::Validation(m));
        }
        let disabled = all_outputs_disabled(&self.outputs);
        push_if(
            &mut warnings,
            disabled,
            String::from_str(
                "All [[outputs]] entries have `enabled = false`; no output will be used for terminal sizing",
            ),
        );
        if let Some(reason) = self.terminal.invalid_reason() {
            return Err(ConfigError::Validation(reason));
        }
        let ghost w1 = strings_view(warnings@);
        self.check_warnings(&mut warnings);
        proof {
            assert(w1 =~= outputs_warnings(self@.outputs));
        }
        Ok(warnings)
    }
}

} // verus!
