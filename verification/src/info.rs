//! What the greeter reads from the system: remembered choices, the UID range
//! of human users, and the placeholder sessions of the mock-up mode. The
//! caller reads the files; this module works on their contents.
use vstd::prelude::*;

use crate::text::{
    chars_of, is_ws, is_whitespace, parse_unsigned, parse_unsigned_range, range_eq, split_map,
    split_pieces, strings_view, trim, trim_str,
};
use crate::ui::sessions::{Session, SessionType, sort_by_name, sort_sessions};

verus! {

/// Lowest UID offered in the user menu when nothing else says.
pub const DEFAULT_MIN_UID: u32 = 1000;

/// Highest UID offered in the user menu when nothing else says.
pub const DEFAULT_MAX_UID: u32 = 60000;

/// The trimmed contents of a cache file, or none when the file could not be
/// read or holds only whitespace.
pub open spec fn spec_read_trimmed(contents: Option<Seq<char>>) -> Option<Seq<char>> {
    match contents {
        Some(c) => if trim(c).len() == 0 {
            None
        } else {
            Some(trim(c))
        },
        None => None,
    }
}

/// The trimmed contents of a cache file; none for an unreadable or blank
/// file.
pub fn read_trimmed(contents: &Option<String>) -> (r: Option<String>)
    ensures
        crate::text::opt_view(r) == spec_read_trimmed(crate::text::opt_view(*contents)),
{
    match contents {
        Some(c) => {
            let t = trim_str(c.as_str());
            if t.unicode_len() == 0 {
                None
            } else {
                Some(t)
            }
        },
        None => None,
    }
}

/// The username remembered from the last login, from the contents of its
/// cache file.
pub fn get_last_user_username(contents: &Option<String>) -> (r: Option<String>)
    ensures
        crate::text::opt_view(r) == spec_read_trimmed(crate::text::opt_view(*contents)),
{
    read_trimmed(contents)
}

/// The full name remembered from the last login, from the contents of its
/// cache file.
pub fn get_last_user_name(contents: &Option<String>) -> (r: Option<String>)
    ensures
        crate::text::opt_view(r) == spec_read_trimmed(crate::text::opt_view(*contents)),
{
    read_trimmed(contents)
}

/// The first index at or after `i` whose character is whitespace (`w`) or
/// is not (`!w`); the length of `s` when there is none.
pub open spec fn next_ws(s: Seq<char>, i: int, w: bool) -> int
    decreases s.len() - i,
{
    if i < 0 || i >= s.len() {
        s.len() as int
    } else if is_ws(s[i]) == w {
        i
    } else {
        next_ws(s, i + 1, w)
    }
}

/// The first two whitespace-separated words of `line`, as `split_whitespace`
/// yields them.
pub open spec fn first_words(line: Seq<char>) -> (Option<Seq<char>>, Option<Seq<char>>) {
    let a = next_ws(line, 0, false);
    let b = next_ws(line, a, true);
    let c = next_ws(line, b, false);
    let d = next_ws(line, c, true);
    (
        if a < line.len() {
            Some(line.subrange(a, b))
        } else {
            None
        },
        if c < line.len() {
            Some(line.subrange(c, d))
        } else {
            None
        },
    )
}

/// One line of `login.defs` applied to the range so far: `UID_MIN` and
/// `UID_MAX` set their bound unless the caller fixed it; a value that does
/// not parse as a `u32` leaves the bound alone.
pub open spec fn uid_step(acc: (u32, u32), line: Seq<char>, min_set: bool, max_set: bool) -> (
    u32,
    u32,
) {
    let (t1, t2) = first_words(line);
    match (t1, t2) {
        (Some(k), Some(v)) => if !min_set && k == "UID_MIN"@ {
            match parse_unsigned(v, 0xffff_ffff) {
                Some(n) => (n as u32, acc.1),
                None => acc,
            }
        } else if !max_set && k == "UID_MAX"@ {
            match parse_unsigned(v, 0xffff_ffff) {
                Some(n) => (acc.0, n as u32),
                None => acc,
            }
        } else {
            acc
        },
        _ => acc,
    }
}

/// The range after the lines `lines`, in order, starting from `d`.
pub open spec fn uid_fold(lines: Seq<Seq<char>>, d: (u32, u32), min_set: bool, max_set: bool) -> (
    u32,
    u32,
)
    decreases lines.len(),
{
    if lines.len() == 0 {
        d
    } else {
        uid_step(uid_fold(lines.drop_last(), d, min_set, max_set), lines.last(), min_set, max_set)
    }
}

/// The UID range of the user menu: the bounds given, and for a bound not
/// given the last `UID_MIN` / `UID_MAX` line of `login.defs` whose value
/// parses, else the default. The lines are the pieces between newlines; a
/// carriage return or an empty last piece holds no word and changes nothing.
pub open spec fn spec_min_max_uids(
    min_uid: Option<u32>,
    max_uid: Option<u32>,
    login_defs: Option<Seq<char>>,
) -> (u32, u32) {
    match (min_uid, max_uid) {
        (Some(a), Some(b)) => (a, b),
        _ => {
            let d = (
                match min_uid {
                    Some(a) => a,
                    None => DEFAULT_MIN_UID,
                },
                match max_uid {
                    Some(b) => b,
                    None => DEFAULT_MAX_UID,
                },
            );
            match login_defs {
                Some(t) => uid_fold(split_map(t, '\n', false), d, min_uid is Some, max_uid is Some),
                None => d,
            }
        },
    }
}

proof fn lemma_uid_fold_keeps(lines: Seq<Seq<char>>, d: (u32, u32), min_set: bool, max_set: bool)
    ensures
        min_set ==> uid_fold(lines, d, min_set, max_set).0 == d.0,
        max_set ==> uid_fold(lines, d, min_set, max_set).1 == d.1,
    decreases lines.len(),
{
    if lines.len() > 0 {
        lemma_uid_fold_keeps(lines.drop_last(), d, min_set, max_set);
    }
}

/// A UID bound given by the caller is the bound used, whatever
/// `login.defs` says.
pub proof fn lemma_given_uid_bounds_win(min_uid: Option<u32>, max_uid: Option<u32>, login_defs: Option<Seq<char>>)
    ensures
        min_uid matches Some(a) ==> spec_min_max_uids(min_uid, max_uid, login_defs).0 == a,
        max_uid matches Some(b) ==> spec_min_max_uids(min_uid, max_uid, login_defs).1 == b,
{
    if let Some(t) = login_defs {
        let d = (
            match min_uid {
                Some(a) => a,
                None => DEFAULT_MIN_UID,
            },
            match max_uid {
                Some(b) => b,
                None => DEFAULT_MAX_UID,
            },
        );
        lemma_uid_fold_keeps(split_map(t, '\n', false), d, min_uid is Some, max_uid is Some);
    }
}

/// `next_ws` computed.
fn next_ws_at(v: &Vec<char>, i: usize, w: bool) -> (r: usize)
    requires
        i <= v@.len(),
    ensures
        r as int == next_ws(v@, i as int, w),
        i <= r <= v@.len(),
{
    let mut j = i;
    while j < v.len() && is_whitespace(v[j]) != w
        invariant
            i <= j <= v@.len(),
            next_ws(v@, j as int, w) == next_ws(v@, i as int, w),
        decreases v@.len() - j,
    {
        j = j + 1;
    }
    j
}

/// The range after one line of `login.defs`.
fn uid_line(acc: (u32, u32), line: &str, min_set: bool, max_set: bool) -> (r: (u32, u32))
    ensures
        r == uid_step(acc, line@, min_set, max_set),
{
    let v = chars_of(line);
    let a = next_ws_at(&v, 0, false);
    let b = next_ws_at(&v, a, true);
    let c = next_ws_at(&v, b, false);
    let d = next_ws_at(&v, c, true);
    if a < v.len() && c < v.len() {
        if !min_set && range_eq(&v, a, b, "UID_MIN") {
            match parse_unsigned_range(&v, c, d, 0xffff_ffff) {
                Some(n) => (n as u32, acc.1),
                None => acc,
            }
        } else if !max_set && range_eq(&v, a, b, "UID_MAX") {
            match parse_unsigned_range(&v, c, d, 0xffff_ffff) {
                Some(n) => (acc.0, n as u32),
                None => acc,
            }
        } else {
            acc
        }
    } else {
        acc
    }
}

/// The UID range of the user menu, from the bounds given on the command line
/// and the contents of `login.defs` (none when it could not be read).
pub fn get_min_max_uids(min_uid: Option<u32>, max_uid: Option<u32>, login_defs: &Option<String>) -> (r:
    (u32, u32))
    ensures
        r == spec_min_max_uids(min_uid, max_uid, crate::text::opt_view(*login_defs)),
{
    if let (Some(a), Some(b)) = (min_uid, max_uid) {
        return (a, b);
    }
    let d = (
        match min_uid {
            Some(a) => a,
            None => DEFAULT_MIN_UID,
        },
        match max_uid {
            Some(b) => b,
            None => DEFAULT_MAX_UID,
        },
    );
    match login_defs {
        None => d,
        Some(text) => {
            let lines = split_pieces(text.as_str(), '\n', false);
            let ghost ls = strings_view(lines@);
            let mut acc = d;
            let mut i: usize = 0;
            while i < lines.len()
                invariant
                    ls == strings_view(lines@),
                    i <= lines@.len(),
                    acc == uid_fold(ls.take(i as int), d, min_uid is Some, max_uid is Some),
                decreases lines@.len() - i,
            {
                proof {
                    assert(ls.take(i + 1).drop_last() =~= ls.take(i as int));
                    assert(ls.take(i + 1).last() == lines@[i as int]@);
                }
                acc = uid_line(acc, lines[i].as_str(), min_uid.is_some(), max_uid.is_some());
                i = i + 1;
            }
            assert(ls.take(ls.len() as int) =~= ls);
            acc
        },
    }
}

/// `s` is the list of placeholder sessions: one per session type, each
/// running `true` and read from no file.
pub open spec fn is_mock_list(s: Seq<Session>) -> bool {
    &&& s.len() == 3
    &&& s[0].session_type == SessionType::Wayland
    &&& s[1].session_type == SessionType::X11
    &&& s[2].session_type == SessionType::Console
    &&& crate::text::opt_view(s[0].slug) == Some("mock-wayland"@)
    &&& crate::text::opt_view(s[1].slug) == Some("mock-x11"@)
    &&& crate::text::opt_view(s[2].slug) == Some("mock-shell"@)
    &&& s[0].name@ == "Mock Wayland"@
    &&& s[1].name@ == "Mock X11"@
    &&& s[2].name@ == "Mock shell"@
    &&& forall|i: int|
        0 <= i < 3 ==> (#[trigger] s[i]).command@ == "true"@ && s[i].path.is_none()
            && s[i].xdg_desktop_names.is_none()
}

/// The placeholder sessions that pad an empty session menu in the mock-up
/// mode: one per session type, each running `true`.
pub fn mock_sessions() -> (r: Vec<Session>)
    ensures
        is_mock_list(r@),
{
    let mut r: Vec<Session> = Vec::new();
    r.push(mock("mock-wayland", "Mock Wayland", SessionType::Wayland));
    r.push(mock("mock-x11", "Mock X11", SessionType::X11));
    r.push(mock("mock-shell", "Mock shell", SessionType::Console));
    r
}

fn mock(slug: &str, name: &str, session_type: SessionType) -> (r: Session)
    ensures
        crate::text::opt_view(r.slug) == Some(slug@),
        r.name@ == name@,
        r.command@ == "true"@,
        r.session_type == session_type,
        r.path.is_none(),
        r.xdg_desktop_names.is_none(),
{
    Session {
        slug: Some(String::from_str(slug)),
        name: String::from_str(name),
        command: String::from_str("true"),
        session_type,
        path: None,
        xdg_desktop_names: None,
    }
}


/// The values of the `[Desktop Entry]` section of a desktop file that the
/// greeter reads.
#[derive(Debug, Clone)]
pub struct DesktopEntry {
    pub hidden: Option<String>,
    pub no_display: Option<String>,
    pub name: Option<String>,
    pub exec_line: Option<String>,
    pub desktop_names: Option<String>,
}

/// Mathematical view of a [`DesktopEntry`].
pub struct DesktopEntryView {
    pub hidden: Option<Seq<char>>,
    pub no_display: Option<Seq<char>>,
    pub name: Option<Seq<char>>,
    pub exec_line: Option<Seq<char>>,
    pub desktop_names: Option<Seq<char>>,
}

impl View for DesktopEntry {
    type V = DesktopEntryView;

    open spec fn view(&self) -> DesktopEntryView {
        DesktopEntryView {
            hidden: crate::text::opt_view(self.hidden),
            no_display: crate::text::opt_view(self.no_display),
            name: crate::text::opt_view(self.name),
            exec_line: crate::text::opt_view(self.exec_line),
            desktop_names: crate::text::opt_view(self.desktop_names),
        }
    }
}

/// The sections of an INI file, in the order they appear, each with its
/// name (none for the properties before the first header) and its
/// key-value pairs in the order they appear.
pub type IniSections = Vec<(Option<String>, Vec<(String, String)>)>;

/// The view of the key-value pairs `p`.
pub open spec fn pairs_view(p: Seq<(String, String)>) -> Seq<(Seq<char>, Seq<char>)> {
    p.map_values(|kv: (String, String)| (kv.0@, kv.1@))
}

/// The view of the sections `s`.
pub open spec fn sections_view(s: Seq<(Option<String>, Vec<(String, String)>)>) -> Seq<
    (Option<Seq<char>>, Seq<(Seq<char>, Seq<char>)>),
> {
    s.map_values(|e: (Option<String>, Vec<(String, String)>)| (crate::text::opt_view(e.0), pairs_view(e.1@)))
}

/// What rust-ini's `Ini::load_from_str` makes of `text`, walked with
/// `Ini::iter` and `Properties::iter`: every section with its name and
/// pairs, in the order of the file, or the parse error's message.
pub uninterp spec fn ini_sections_of(text: Seq<char>) -> Result<
    Seq<(Option<Seq<char>>, Seq<(Seq<char>, Seq<char>)>)>,
    Seq<char>,
>;

/// Parses `text` with rust-ini's `Ini::load_from_str` and lists its
/// sections and their pairs as `Ini::iter` and `Properties::iter` yield
/// them; the result is the name [`ini_sections_of`] of `text`.
#[verifier::external_body]
fn ini_sections(text: &str) -> (r: Result<IniSections, String>)
    ensures
        match r {
            Ok(v) => ini_sections_of(text@) == Ok::<Seq<(Option<Seq<char>>, Seq<(Seq<char>, Seq<char>)>)>, Seq<char>>(
                sections_view(v@),
            ),
            Err(m) => ini_sections_of(text@) == Err::<Seq<(Option<Seq<char>>, Seq<(Seq<char>, Seq<char>)>)>, Seq<char>>(
                m@,
            ),
        },
{
    let ini = match ini::Ini::load_from_str(text) { Ok(i) => i, Err(e) => return Err(e.to_string()) };
    Ok(ini.iter().map(|(name, props)| (
        name.map(String::from),
        props.iter().map(|(k, v)| (k.to_string(), v.to_string())).collect(),
    )).collect())
}

/// The pairs of the first section named `name`, as rust-ini's
/// `Ini::section` finds it (the first of the sections with that name).
pub open spec fn first_section(
    secs: Seq<(Option<Seq<char>>, Seq<(Seq<char>, Seq<char>)>)>,
    name: Seq<char>,
) -> Option<Seq<(Seq<char>, Seq<char>)>>
    decreases secs.len(),
{
    if secs.len() == 0 {
        None
    } else if secs[0].0 == Some(name) {
        Some(secs[0].1)
    } else {
        first_section(secs.drop_first(), name)
    }
}

/// The first value of `key` among the pairs `props`, as rust-ini's
/// `Properties::get` finds it.
pub open spec fn first_value(props: Seq<(Seq<char>, Seq<char>)>, key: Seq<char>) -> Option<Seq<char>>
    decreases props.len(),
{
    if props.len() == 0 {
        None
    } else if props[0].0 == key {
        Some(props[0].1)
    } else {
        first_value(props.drop_first(), key)
    }
}

/// The keys `Hidden`, `NoDisplay`, `Name`, `Exec` and `DesktopNames` of
/// the `[Desktop Entry]` section of `secs`, none when there is no such
/// section.
pub open spec fn desktop_entry_in(secs: Seq<(Option<Seq<char>>, Seq<(Seq<char>, Seq<char>)>)>) -> Option<DesktopEntryView> {
    match first_section(secs, "Desktop Entry"@) {
        None => None,
        Some(p) => Some(
            DesktopEntryView {
                hidden: first_value(p, "Hidden"@),
                no_display: first_value(p, "NoDisplay"@),
                name: first_value(p, "Name"@),
                exec_line: first_value(p, "Exec"@),
                desktop_names: first_value(p, "DesktopNames"@),
            },
        ),
    }
}

/// What the desktop file `text` gives: the keys the greeter reads of its
/// `[Desktop Entry]` section (none when there is no such section), or the
/// parse error's message.
pub open spec fn ini_desktop_entry(text: Seq<char>) -> Result<Option<DesktopEntryView>, Seq<char>> {
    match ini_sections_of(text) {
        Ok(secs) => Ok(desktop_entry_in(secs)),
        Err(m) => Err(m),
    }
}

/// Whether `s` holds exactly the characters of `lit`.
fn text_is(s: &String, lit: &str) -> (r: bool)
    ensures
        r == (s@ == lit@),
{
    let c = chars_of(s.as_str());
    assert(c@.subrange(0, c@.len() as int) =~= c@);
    range_eq(&c, 0, c.len(), lit)
}

/// The index of the first section of `secs` named `name`.
fn find_section(secs: &IniSections, name: &str) -> (r: Option<usize>)
    ensures
        match r {
            Some(i) => i < secs@.len() && first_section(sections_view(secs@), name@) == Some(
                pairs_view(secs@[i as int].1@),
            ),
            None => first_section(sections_view(secs@), name@) is None,
        },
{
    let ghost all = sections_view(secs@);
    assert(all.subrange(0, all.len() as int) =~= all);
    let mut i: usize = 0;
    while i < secs.len()
        invariant
            i <= secs@.len(),
            all == sections_view(secs@),
            first_section(all, name@) == first_section(all.subrange(i as int, all.len() as int), name@),
        decreases secs@.len() - i,
    {
        let ghost rest = all.subrange(i as int, all.len() as int);
        assert(rest[0] == all[i as int]);
        let hit = match &secs[i].0 {
            Some(n) => text_is(n, name),
            None => false,
        };
        if hit {
            return Some(i);
        }
        assert(rest.drop_first() =~= all.subrange(i + 1, all.len() as int));
        i = i + 1;
    }
    assert(all.subrange(i as int, all.len() as int).len() == 0);
    None
}

/// The first value of `key` among the pairs `props`.
fn find_value(props: &Vec<(String, String)>, key: &str) -> (r: Option<String>)
    ensures
        crate::text::opt_view(r) == first_value(pairs_view(props@), key@),
{
    let ghost all = pairs_view(props@);
    assert(all.subrange(0, all.len() as int) =~= all);
    let mut i: usize = 0;
    while i < props.len()
        invariant
            i <= props@.len(),
            all == pairs_view(props@),
            first_value(all, key@) == first_value(all.subrange(i as int, all.len() as int), key@),
        decreases props@.len() - i,
    {
        let ghost rest = all.subrange(i as int, all.len() as int);
        assert(rest[0] == all[i as int]);
        if text_is(&props[i].0, key) {
            return Some(props[i].1.clone());
        }
        assert(rest.drop_first() =~= all.subrange(i + 1, all.len() as int));
        i = i + 1;
    }
    assert(all.subrange(i as int, all.len() as int).len() == 0);
    None
}

/// The keys `Hidden`, `NoDisplay`, `Name`, `Exec` and `DesktopNames` of the
/// `[Desktop Entry]` section of `secs`, none when there is no such section.
pub fn desktop_entry_of(secs: &IniSections) -> (r: Option<DesktopEntry>)
    ensures
        match r {
            Some(e) => desktop_entry_in(sections_view(secs@)) == Some(e@),
            None => desktop_entry_in(sections_view(secs@)) is None,
        },
{
    match find_section(secs, "Desktop Entry") {
        None => None,
        Some(i) => {
            let p = &secs[i].1;
            Some(
                DesktopEntry {
                    hidden: find_value(p, "Hidden"),
                    no_display: find_value(p, "NoDisplay"),
                    name: find_value(p, "Name"),
                    exec_line: find_value(p, "Exec"),
                    desktop_names: find_value(p, "DesktopNames"),
                },
            )
        },
    }
}

/// Parses the desktop file `text` and reads the `[Desktop Entry]` keys the
/// greeter uses.
fn parse_desktop_entry(text: &str) -> (r: Result<Option<DesktopEntry>, String>)
    ensures
        match r {
            Ok(Some(e)) => ini_desktop_entry(text@) == Ok::<Option<DesktopEntryView>, Seq<char>>(Some(e@)),
            Ok(None) => ini_desktop_entry(text@) == Ok::<Option<DesktopEntryView>, Seq<char>>(None),
            Err(m) => ini_desktop_entry(text@) == Err::<Option<DesktopEntryView>, Seq<char>>(m@),
        },
{
    let secs = ini_sections(text)?;
    Ok(desktop_entry_of(&secs))
}

/// What `Path::file_stem` gives for `path`, as text.
pub uninterp spec fn path_file_stem(path: Seq<char>) -> Option<Seq<char>>;

/// `std::path::Path::file_stem` of `path`, converted to a `String`; the
/// result is the name [`path_file_stem`] of `path`.
#[verifier::external_body]
fn file_stem(path: &str) -> (r: Option<String>)
    ensures
        crate::text::opt_view(r) == path_file_stem(path@),
{
    match std::path::Path::new(path).file_stem() {
        Some(s) => Some(s.to_string_lossy().to_string()),
        None => None,
    }
}

/// What a desktop entry gives: a session (`Ok(true)`), none when it is
/// hidden or not to be displayed (`Hidden` or `NoDisplay` is `true`,
/// `Ok(false)`), or an error when it lacks the section, a name or a command.
pub open spec fn entry_outcome(entry: Option<DesktopEntryView>) -> Result<bool, Seq<char>> {
    match entry {
        None => Err("no Desktop Entry section in desktop file"@),
        Some(e) => if e.hidden == Some("true"@) || e.no_display == Some("true"@) {
            Ok(false)
        } else if e.name.is_none() {
            Err("no Name property in desktop file"@)
        } else if e.exec_line.is_none() {
            Err("no Exec property in desktop file"@)
        } else {
            Ok(true)
        },
    }
}

/// `s` is the session that entry `e` of the file at `path` describes.
pub open spec fn session_matches(
    e: DesktopEntryView,
    path: Seq<char>,
    session_type: SessionType,
    s: Session,
) -> bool {
    &&& crate::text::opt_view(s.slug) == path_file_stem(path)
    &&& Some(s.name@) == e.name
    &&& Some(s.command@) == e.exec_line
    &&& s.session_type == session_type
    &&& crate::text::opt_view(s.path) == Some(path)
    &&& crate::text::opt_view(s.xdg_desktop_names) == e.desktop_names
}

/// Whether `o` holds exactly the characters of `lit`.
fn opt_is(o: &Option<String>, lit: &str) -> (r: bool)
    ensures
        r == (crate::text::opt_view(*o) == Some(lit@)),
{
    match o {
        Some(v) => {
            let c = chars_of(v.as_str());
            assert(c@.subrange(0, c@.len() as int) =~= c@);
            range_eq(&c, 0, c.len(), lit)
        },
        None => false,
    }
}

/// The session that the desktop file at `path`, whose contents are `text`,
/// describes for sessions of type `session_type`: none for a hidden entry,
/// an error for a file that does not parse or lacks the section, a name or
/// a command.
pub fn load_desktop_file(path: &str, text: &str, session_type: SessionType) -> (r: Result<
    Option<Session>,
    String,
>)
    ensures
        match ini_desktop_entry(text@) {
            Err(m) => r matches Err(x) && x@ == m,
            Ok(entry) => match r {
                Ok(Some(s)) => entry_outcome(entry) == Ok::<bool, Seq<char>>(true) && session_matches(
                    entry->0,
                    path@,
                    session_type,
                    s,
                ),
                Ok(None) => entry_outcome(entry) == Ok::<bool, Seq<char>>(false),
                Err(x) => entry_outcome(entry) == Err::<bool, Seq<char>>(x@),
            },
        },
{
    let entry = match parse_desktop_entry(text)? {
        Some(e) => e,
        None => {
            return Err(String::from_str("no Desktop Entry section in desktop file"));
        },
    };
    if opt_is(&entry.hidden, "true") || opt_is(&entry.no_display, "true") {
        return Ok(None);
    }
    let slug = file_stem(path);
    let name = match entry.name {
        Some(n) => n,
        None => {
            return Err(String::from_str("no Name property in desktop file"));
        },
    };
    let command = match entry.exec_line {
        Some(e) => e,
        None => {
            return Err(String::from_str("no Exec property in desktop file"));
        },
    };
    Ok(
        Some(
            Session {
                slug,
                name,
                command,
                session_type,
                path: Some(String::from_str(path)),
                xdg_desktop_names: entry.desktop_names,
            },
        ),
    )
}

/// A desktop file found in a session directory: its path, its contents and
/// the type of the sessions of its directory.
#[derive(Debug, Clone)]
pub struct DesktopFile {
    pub path: String,
    pub text: String,
    pub session_type: SessionType,
}

/// Whether a desktop entry describes a session to offer: it exists, is
/// neither hidden nor undisplayed, and has a name and a command.
pub open spec fn entry_yields(entry: Option<DesktopEntryView>) -> bool {
    entry_outcome(entry) == Ok::<bool, Seq<char>>(true)
}

/// `found` holds, in order, the sessions that the files of `files` describe.
pub open spec fn sessions_found(files: Seq<DesktopFile>, found: Seq<Session>) -> bool
    decreases files.len(),
{
    if files.len() == 0 {
        found.len() == 0
    } else {
        let f = files.last();
        match ini_desktop_entry(f.text@) {
            Ok(e) => if entry_yields(e) {
                &&& found.len() > 0
                &&& session_matches(e->0, f.path@, f.session_type, found.last())
                &&& sessions_found(files.drop_last(), found.drop_last())
            } else {
                sessions_found(files.drop_last(), found)
            },
            Err(_) => sessions_found(files.drop_last(), found),
        }
    }
}

/// The sessions that `files` describe, sorted by name: files that do not
/// parse, lack a setting or are hidden contribute none.
pub fn get_sessions(files: &Vec<DesktopFile>) -> (r: Vec<Session>)
    ensures
        exists|found: Seq<Session>| sessions_found(files@, found) && r@ == sort_by_name(found),
{
    let mut found: Vec<Session> = Vec::new();
    let mut i: usize = 0;
    while i < files.len()
        invariant
            i <= files@.len(),
            sessions_found(files@.take(i as int), found@),
        decreases files@.len() - i,
    {
        let f = &files[i];
        let ghost before = found@;
        proof {
            assert(files@.take(i + 1).drop_last() =~= files@.take(i as int));
            assert(files@.take(i + 1).last() == files@[i as int]);
        }
        let res = load_desktop_file(f.path.as_str(), f.text.as_str(), f.session_type);
        let ghost fi = files@[i as int];
        match res {
            Ok(Some(s)) => {
                proof {
                    let e = ini_desktop_entry(fi.text@)->Ok_0;
                    assert(ini_desktop_entry(fi.text@) is Ok);
                    assert(entry_yields(e));
                }
                found.push(s);
                assert(found@.drop_last() =~= before);
                assert(found@.last() == s);
            },
            Ok(None) => {
                proof {
                    assert(ini_desktop_entry(fi.text@) is Ok);
                    let e = ini_desktop_entry(fi.text@)->Ok_0;
                    assert(!entry_yields(e));
                }
            },
            Err(x) => {
                proof {
                    if ini_desktop_entry(fi.text@) is Ok {
                        let e = ini_desktop_entry(fi.text@)->Ok_0;
                        assert(!entry_yields(e));
                    }
                }
            },
        }
        i = i + 1;
    }
    assert(files@.take(files@.len() as int) =~= files@);
    let ghost fv = found@;
    let r = sort_sessions(found);
    assert(sessions_found(files@, fv) && r@ == sort_by_name(fv));
    r
}


/// Session directories searched when none are configured.
pub const DEFAULT_XDG_DATA_DIRS: &'static str = "/usr/local/share:/usr/share";

/// `p` joined with the relative name `n`, as `Path::join` does: with a `/`
/// between them unless `p` ends with one.
pub open spec fn path_join(p: Seq<char>, n: Seq<char>) -> Seq<char> {
    if p.len() > 0 && p.last() == '/' {
        p + n
    } else {
        p + "/"@ + n
    }
}

/// Whether `p` is an absolute path.
pub open spec fn is_absolute(p: Seq<char>) -> bool {
    p.len() > 0 && p[0] == '/'
}

/// The absolute directories of the colon-separated list `v`.
pub open spec fn absolute_dirs(v: Seq<char>) -> Seq<Seq<char>> {
    split_map(v, ':', false).filter(|d: Seq<char>| is_absolute(d))
}

/// The value of `XDG_DATA_DIRS`, or the default list when it is unset.
pub open spec fn xdg_value(xdg: Option<Seq<char>>) -> Seq<char> {
    match xdg {
        Some(v) => v,
        None => DEFAULT_XDG_DATA_DIRS@,
    }
}

/// `dirs`, each joined with `n`.
pub open spec fn joined(dirs: Seq<Seq<char>>, n: Seq<char>) -> Seq<Seq<char>> {
    dirs.map_values(|d: Seq<char>| path_join(d, n))
}

/// The absolute data directories that `XDG_DATA_DIRS` (when set and
/// readable) lists, in order.
pub fn xdg_data_dirs(xdg: &Option<String>) -> (r: Vec<String>)
    ensures
        strings_view(r@) == absolute_dirs(xdg_value(crate::text::opt_view(*xdg))),
{
    let value = match xdg {
        Some(v) => v.clone(),
        None => String::from_str(DEFAULT_XDG_DATA_DIRS),
    };
    let pieces = split_pieces(value.as_str(), ':', false);
    let ghost all = strings_view(pieces@);
    let ghost keep = |d: Seq<char>| is_absolute(d);
    let mut r: Vec<String> = Vec::new();
    let mut i: usize = 0;
    while i < pieces.len()
        invariant
            all == strings_view(pieces@),
            keep == (|d: Seq<char>| is_absolute(d)),
            i <= pieces@.len(),
            strings_view(r@) == all.take(i as int).filter(keep),
        decreases pieces@.len() - i,
    {
        let ghost prev = strings_view(r@);
        proof {
            let t = all.take(i + 1);
            assert(t.drop_last() =~= all.take(i as int));
            assert(t.last() == pieces@[i as int]@);
            reveal(Seq::filter);
        }
        let p = &pieces[i];
        let starts = p.unicode_len() > 0 && p.get_char(0) == '/';
        if starts {
            r.push(p.clone());
            assert(strings_view(r@) =~= prev.push(pieces@[i as int]@));
        }
        i = i + 1;
    }
    assert(all.take(all.len() as int) =~= all);
    r
}

/// `p` joined with the relative name `n`.
fn join_path(p: &str, n: &str) -> (r: String)
    ensures
        r@ == path_join(p@, n@),
{
    let len = p.unicode_len();
    let mut r = String::from_str(p);
    if !(len > 0 && p.get_char(len - 1) == '/') {
        r.append("/");
    }
    r.append(n);
    r
}

/// The session directories searched when none are configured: each data
/// directory's `wayland-sessions` (Wayland sessions), then each one's
/// `xsessions` (X11 sessions).
pub fn default_session_paths(xdg: &Option<String>) -> (r: Vec<(String, SessionType)>)
    ensures
        crate::greeter::paths_view(r@) == crate::greeter::typed_dirs(
            joined(absolute_dirs(xdg_value(crate::text::opt_view(*xdg))), "wayland-sessions"@),
            SessionType::Wayland,
        ) + crate::greeter::typed_dirs(
            joined(absolute_dirs(xdg_value(crate::text::opt_view(*xdg))), "xsessions"@),
            SessionType::X11,
        ),
{
    let dirs = xdg_data_dirs(xdg);
    let ghost d = strings_view(dirs@);
    let mut r: Vec<(String, SessionType)> = Vec::new();
    let mut i: usize = 0;
    while i < dirs.len()
        invariant
            d == strings_view(dirs@),
            i <= dirs@.len(),
            crate::greeter::paths_view(r@) == crate::greeter::typed_dirs(
                joined(d.take(i as int), "wayland-sessions"@),
                SessionType::Wayland,
            ),
        decreases dirs@.len() - i,
    {
        let ghost prev = crate::greeter::paths_view(r@);
        r.push((join_path(dirs[i].as_str(), "wayland-sessions"), SessionType::Wayland));
        proof {
            let n = "wayland-sessions"@;
            assert(d[i as int] == dirs@[i as int]@);
            assert(crate::greeter::paths_view(r@) =~= prev.push((path_join(d[i as int], n), SessionType::Wayland)));
            assert(d.take(i + 1) =~= d.take(i as int).push(d[i as int]));
            assert(joined(d.take(i + 1), n) =~= joined(d.take(i as int), n).push(path_join(d[i as int], n)));
            assert(crate::greeter::paths_view(r@) =~= crate::greeter::typed_dirs(
                joined(d.take(i + 1), "wayland-sessions"@),
                SessionType::Wayland,
            ));
        }
        i = i + 1;
    }
    let ghost first = crate::greeter::paths_view(r@);
    let mut j: usize = 0;
    while j < dirs.len()
        invariant
            d == strings_view(dirs@),
            j <= dirs@.len(),
            crate::greeter::paths_view(r@) == first + crate::greeter::typed_dirs(
                joined(d.take(j as int), "xsessions"@),
                SessionType::X11,
            ),
        decreases dirs@.len() - j,
    {
        let ghost prev = crate::greeter::paths_view(r@);
        r.push((join_path(dirs[j].as_str(), "xsessions"), SessionType::X11));
        proof {
            let n = "xsessions"@;
            assert(d[j as int] == dirs@[j as int]@);
            assert(crate::greeter::paths_view(r@) =~= prev.push((path_join(d[j as int], n), SessionType::X11)));
            assert(d.take(j + 1) =~= d.take(j as int).push(d[j as int]));
            assert(joined(d.take(j + 1), n) =~= joined(d.take(j as int), n).push(path_join(d[j as int], n)));
            assert(crate::greeter::paths_view(r@) =~= first + crate::greeter::typed_dirs(
                joined(d.take(j + 1), "xsessions"@),
                SessionType::X11,
            ));
        }
        j = j + 1;
    }
    assert(d.take(d.len() as int) =~= d);
    r
}

} // verus!
