//! DRM output enumeration and terminal sizing decisions.
//!
//! The sysfs DRM class (`/sys/class/drm/`) lists one directory per connector,
//! named like `card0-DP-1`. The caller reads each directory entry into a
//! [`DrmEntry`]; this module decides which entries are connectors, what their
//! state is, in which order they are listed, and how the terminal is sized.
use vstd::prelude::*;

use crate::config::validate::{decimal, digit_char};
use crate::text::{
    all_digits, chars_of, digits_value, find, find_char, is_digit, is_first, is_ws, opt_view,
    parse_unsigned, parse_unsigned_range, range_eq, string_of_range, trim, trim_bounds, trim_end,
    trim_start, trim_str,
};

verus! {

/// Terminal window size as the `TIOCGWINSZ`/`TIOCSWINSZ` ioctls exchange it.
#[derive(Debug, Clone, Copy, PartialEq, Eq, Structural)]
pub struct WinSize {
    pub ws_row: u16,
    pub ws_col: u16,
    pub ws_xpixel: u16,
    pub ws_ypixel: u16,
}

/// Information about a single DRM connector as read from sysfs.
#[derive(Debug, Clone)]
pub struct DrmOutput {
    /// Connector name without the card prefix (e.g. `"DP-1"`, `"HDMI-A-1"`).
    pub connector: String,
    /// DRM card device name (e.g. `"card0"`, `"card1"`).
    pub card: String,
    /// Whether a display is physically connected.
    pub connected: bool,
    /// The connector's preferred/native resolution in pixels `(width, height)`,
    /// taken from the first line of the sysfs `modes` file.
    pub native_resolution: Option<(u16, u16)>,
}

/// Mathematical view of a [`DrmOutput`].
pub struct DrmOutputView {
    pub connector: Seq<char>,
    pub card: Seq<char>,
    pub connected: bool,
    pub native_resolution: Option<(u16, u16)>,
}

impl View for DrmOutput {
    type V = DrmOutputView;

    open spec fn view(&self) -> DrmOutputView {
        DrmOutputView {
            connector: self.connector@,
            card: self.card@,
            connected: self.connected,
            native_resolution: self.native_resolution,
        }
    }
}

/// One entry of the DRM class directory, as the caller read it.
pub struct DrmEntry {
    /// File name of the entry (e.g. `"card0-DP-1"`).
    pub name: String,
    /// Whether the entry holds a `status` file.
    pub has_status: bool,
    /// Contents of the `status` file, when it could be read.
    pub status: Option<String>,
    /// Contents of the `modes` file, when it could be read.
    pub modes: Option<String>,
}

/// What `str::parse_resolution` accepts: `"WIDTHxHEIGHT"` after trimming,
/// split at the first `x`, each side trimmed and read as a `u16`.
pub open spec fn spec_parse_resolution(s: Seq<char>) -> Option<(u16, u16)> {
    let t = trim(s);
    match find(t, 'x') {
        None => None,
        Some(i) => {
            let w = parse_unsigned(trim(t.subrange(0, i)), 65535);
            let h = parse_unsigned(trim(t.subrange(i + 1, t.len() as int)), 65535);
            match (w, h) {
                (Some(a), Some(b)) => Some((a as u16, b as u16)),
                _ => None,
            }
        },
    }
}

/// Parse the resolution held in `v[start..end]`.
fn parse_resolution_range(v: &Vec<char>, start: usize, end: usize) -> (r: Option<(u16, u16)>)
    requires
        start <= end <= v@.len(),
    ensures
        r == spec_parse_resolution(v@.subrange(start as int, end as int)),
{
    let ghost s = v@.subrange(start as int, end as int);
    let (a, b) = trim_bounds(v, start, end);
    let ghost t = v@.subrange(a as int, b as int);
    assert(t == trim(s));
    match find_char(v, a, b, 'x') {
        None => None,
        Some(k) => {
            let pos = a + k;
            let (wa, wb) = trim_bounds(v, a, pos);
            let (ha, hb) = trim_bounds(v, pos + 1, b);
            assert(t.subrange(0, k as int) =~= v@.subrange(a as int, pos as int));
            assert(t.subrange(k + 1, t.len() as int) =~= v@.subrange(pos + 1, b as int));
            let w = parse_unsigned_range(v, wa, wb, 65535);
            let h = parse_unsigned_range(v, ha, hb, 65535);
            match (w, h) {
                (Some(x), Some(y)) => Some((x as u16, y as u16)),
                _ => None,
            }
        },
    }
}

/// Parse a resolution string of the form `"WIDTHxHEIGHT"` into `(u16, u16)`.
pub fn parse_resolution(mode: &str) -> (r: Option<(u16, u16)>)
    ensures
        r == spec_parse_resolution(mode@),
{
    let v = chars_of(mode);
    assert(v@.subrange(0, v@.len() as int) =~= v@);
    parse_resolution_range(&v, 0, v.len())
}

/// Whether every character of `s` is whitespace.
pub open spec fn all_ws(s: Seq<char>) -> bool {
    forall|i: int| 0 <= i < s.len() ==> is_ws(#[trigger] s[i])
}

/// The decimal notation of `n` is a non-empty run of digits worth `n`.
pub(crate) proof fn lemma_decimal_digits(n: nat)
    ensures
        decimal(n).len() > 0,
        all_digits(decimal(n)),
        digits_value(decimal(n)) == n,
    decreases n,
{
    let d = n % 10;
    assert(digit_char(d) as u32 == d + 48) by {
        assert((d as u8) + 48 < 256);
    }
    assert(n == (n / 10) * 10 + d) by (nonlinear_arith)
        requires
            d == n % 10,
    ;
    assert(('0' as u32) == 48);
    if n < 10 {
        let s = decimal(n);
        assert(s.drop_last() =~= Seq::<char>::empty());
        assert(s.last() == digit_char(d));
        assert(digits_value(s) == digits_value(s.drop_last()) * 10 + ((s.last() as u32) - ('0' as u32)) as nat);
    } else {
        lemma_decimal_digits(n / 10);
        let s = decimal(n);
        assert(s.drop_last() =~= decimal(n / 10));
        assert(s.last() == digit_char(d));
        assert(digits_value(s) == digits_value(s.drop_last()) * 10 + ((s.last() as u32) - ('0' as u32)) as nat);
        assert forall|i: int| 0 <= i < s.len() implies is_digit(#[trigger] s[i]) by {
            if i < s.len() - 1 {
                assert(s[i] == decimal(n / 10)[i]);
            }
        }
    }
}

/// Leading whitespace `pre` does not change what `trim_start` keeps of
/// `x`.
proof fn lemma_trim_start_skips(pre: Seq<char>, x: Seq<char>)
    requires
        all_ws(pre),
    ensures
        trim_start(pre + x) == trim_start(x),
    decreases pre.len(),
{
    if pre.len() > 0 {
        assert((pre + x)[0] == pre[0]);
        assert((pre + x).drop_first() =~= pre.drop_first() + x);
        lemma_trim_start_skips(pre.drop_first(), x);
    } else {
        assert(pre + x =~= x);
    }
}

/// Trailing whitespace `post` does not change what `trim_end` keeps of `x`.
proof fn lemma_trim_end_skips(x: Seq<char>, post: Seq<char>)
    requires
        all_ws(post),
    ensures
        trim_end(x + post) == trim_end(x),
    decreases post.len(),
{
    if post.len() > 0 {
        assert((x + post).last() == post.last());
        assert((x + post).drop_last() =~= x + post.drop_last());
        lemma_trim_end_skips(x, post.drop_last());
    } else {
        assert(x + post =~= x);
    }
}

/// Trimming `pre + m + post` gives `m` when `pre` and `post` are
/// whitespace and `m` starts and ends with other characters.
proof fn lemma_trim_around(pre: Seq<char>, m: Seq<char>, post: Seq<char>)
    requires
        all_ws(pre),
        all_ws(post),
        m.len() > 0,
        !is_ws(m[0]),
        !is_ws(m.last()),
    ensures
        trim(pre + m + post) == m,
{
    assert(pre + m + post =~= pre + (m + post));
    lemma_trim_start_skips(pre, m + post);
    assert((m + post)[0] == m[0]);
    assert(trim_start(m + post) == m + post);
    lemma_trim_end_skips(m, post);
}

/// A resolution written as `format!("{w}x{h}")` does (the decimal text
/// of `w`, an `x`, the decimal text of `h`), with any whitespace before and
/// after it, parses back to `(w, h)`, for every `w` and `h`.
pub proof fn lemma_resolution_round_trip(w: u16, h: u16, pre: Seq<char>, post: Seq<char>)
    requires
        all_ws(pre),
        all_ws(post),
    ensures
        spec_parse_resolution(pre + decimal(w as nat) + seq!['x'] + decimal(h as nat) + post) == Some((w, h)),
{
    let dw = decimal(w as nat);
    let dh = decimal(h as nat);
    lemma_decimal_digits(w as nat);
    lemma_decimal_digits(h as nat);
    let m = dw + seq!['x'] + dh;
    assert(pre + dw + seq!['x'] + dh + post =~= pre + m + post);
    assert(m[0] == dw[0]);
    assert(is_digit(dw[0]));
    assert(m.last() == dh.last());
    assert(is_digit(dh[dh.len() - 1]));
    lemma_trim_around(pre, m, post);
    let t = trim(pre + m + post);
    let i = dw.len() as int;
    assert(is_first(m, 'x', i)) by {
        assert forall|j: int| 0 <= j < i implies m[j] != 'x' by {
            assert(m[j] == dw[j]);
            assert(is_digit(dw[j]));
        }
    }
    assert forall|k: int| is_first(m, 'x', k) implies k == i by {
        if k > i {
            assert(m[i] == 'x');
        } else if k < i {
            assert(m[k] == dw[k]);
            assert(is_digit(dw[k]));
        }
    }
    assert(find(m, 'x') == Some(i));
    assert(m.subrange(0, i) =~= dw);
    assert(m.subrange(i + 1, m.len() as int) =~= dh);
    assert(!is_ws(dw[0]) && !is_ws(dw.last())) by {
        assert(is_digit(dw[dw.len() - 1]));
    }
    assert(!is_ws(dh[0]));
    lemma_trim_around(Seq::empty(), dw, Seq::empty());
    lemma_trim_around(Seq::empty(), dh, Seq::empty());
    assert(Seq::<char>::empty() + dw + Seq::<char>::empty() =~= dw);
    assert(Seq::<char>::empty() + dh + Seq::<char>::empty() =~= dh);
    assert(dw[0] != '+');
    assert(dh[0] != '+');
}


/// The first line of `s`, as `str::lines` gives it: the text before the
/// first `\n` with one trailing `\r` removed; no line at all when `s` is
/// empty.
pub open spec fn first_line(s: Seq<char>) -> Option<Seq<char>> {
    if s.len() == 0 {
        None
    } else {
        let line = match find(s, '\n') {
            Some(i) => s.subrange(0, i),
            None => s,
        };
        if line.len() > 0 && line.last() == '\r' {
            Some(line.drop_last())
        } else {
            Some(line)
        }
    }
}

/// The native resolution that a `modes` file gives: its first line parsed.
pub open spec fn spec_native_resolution(modes: Option<Seq<char>>) -> Option<(u16, u16)> {
    match modes {
        None => None,
        Some(m) => match first_line(m) {
            None => None,
            Some(l) => spec_parse_resolution(l),
        },
    }
}

/// Native resolution from the contents of a `modes` file.
pub fn native_resolution_of(modes: &Option<String>) -> (r: Option<(u16, u16)>)
    ensures
        r == spec_native_resolution(match modes {
            Some(m) => Some(m@),
            None => None,
        }),
{
    match modes {
        None => None,
        Some(m) => {
            let v = chars_of(m.as_str());
            let n = v.len();
            if n == 0 {
                return None;
            }
            let end = match find_char(&v, 0, n, '\n') {
                Some(i) => i,
                None => n,
            };
            assert(v@.subrange(0, n as int) =~= v@);
            let e = if end > 0 && v[end - 1] == '\r' {
                end - 1
            } else {
                end
            };
            proof {
                let line = v@.subrange(0, end as int);
                if end > 0 && v@[end - 1] == '\r' {
                    assert(line.drop_last() =~= v@.subrange(0, e as int));
                    assert(line.last() == v@[end - 1]);
                } else {
                    if end > 0 {
                        assert(line.last() == v@[end - 1]);
                    }
                }
                if find(v@, '\n').is_none() {
                    assert(line =~= v@);
                }
            }
            parse_resolution_range(&v, 0, e)
        },
    }
}

/// The character sequence `"card"`.
pub open spec fn card_prefix() -> Seq<char> {
    seq!['c', 'a', 'r', 'd']
}

/// The character sequence `"connected"`.
pub open spec fn connected_word() -> Seq<char> {
    seq!['c', 'o', 'n', 'n', 'e', 'c', 't', 'e', 'd']
}

/// The connector that a directory entry describes, if it describes one:
/// its name splits at the first `-` into a card name starting with `card`
/// and a connector name, and it holds a `status` file.
pub open spec fn spec_entry_output(
    name: Seq<char>,
    has_status: bool,
    status: Option<Seq<char>>,
    modes: Option<Seq<char>>,
) -> Option<DrmOutputView> {
    match find(name, '-') {
        None => None,
        Some(d) => {
            let card = name.subrange(0, d);
            let connector = name.subrange(d + 1, name.len() as int);
            if !(card.len() >= 4 && card.subrange(0, 4) == card_prefix()) || !has_status {
                None
            } else {
                Some(
                    DrmOutputView {
                        connector,
                        card,
                        connected: match status {
                            Some(s) => trim(s) == connected_word(),
                            None => false,
                        },
                        native_resolution: spec_native_resolution(modes),
                    },
                )
            }
        },
    }
}

/// The connector that directory entry `e` describes, if any.
pub open spec fn entry_output(e: DrmEntry) -> Option<DrmOutputView> {
    spec_entry_output(e.name@, e.has_status, opt_view(e.status), opt_view(e.modes))
}

/// Lexicographic order on character sequences, as `String`'s `Ord` orders
/// them (by code point, which is the UTF-8 byte order).
pub open spec fn seq_le(a: Seq<char>, b: Seq<char>) -> bool
    decreases a.len(),
{
    if a.len() == 0 {
        true
    } else if b.len() == 0 {
        false
    } else if a[0] != b[0] {
        a[0] < b[0]
    } else {
        seq_le(a.drop_first(), b.drop_first())
    }
}

/// `a` sorts no later than `b`: by card name, then by connector name.
pub open spec fn output_le(a: DrmOutputView, b: DrmOutputView) -> bool {
    if a.card == b.card {
        seq_le(a.connector, b.connector)
    } else {
        seq_le(a.card, b.card)
    }
}

/// `x` inserted into `s` after the last element that sorts no later than it.
pub open spec fn insert_sorted(s: Seq<DrmOutputView>, x: DrmOutputView) -> Seq<DrmOutputView>
    decreases s.len(),
{
    if s.len() == 0 {
        seq![x]
    } else if output_le(s.last(), x) {
        s.push(x)
    } else {
        insert_sorted(s.drop_last(), x).push(s.last())
    }
}

/// Stable sort of `s` by card name then connector name.
pub open spec fn sort_outputs(s: Seq<DrmOutputView>) -> Seq<DrmOutputView>
    decreases s.len(),
{
    if s.len() == 0 {
        seq![]
    } else {
        insert_sorted(sort_outputs(s.drop_last()), s.last())
    }
}

/// The connectors that `entries` describe, in directory order.
pub open spec fn connector_outputs(entries: Seq<DrmEntry>) -> Seq<DrmOutputView>
    decreases entries.len(),
{
    if entries.len() == 0 {
        seq![]
    } else {
        let rest = connector_outputs(entries.drop_last());
        match entry_output(entries.last()) {
            Some(o) => rest.push(o),
            None => rest,
        }
    }
}

/// Whether `a` sorts no later than `b`.
pub(crate) fn seq_le_exec(a: &Vec<char>, b: &Vec<char>) -> (r: bool)
    ensures
        r == seq_le(a@, b@),
{
    let mut i: usize = 0;
    assert(a@.skip(0) =~= a@);
    assert(b@.skip(0) =~= b@);
    while i < a.len() && i < b.len() && a[i] == b[i]
        invariant
            i <= a@.len(),
            i <= b@.len(),
            seq_le(a@, b@) == seq_le(a@.skip(i as int), b@.skip(i as int)),
        decreases a@.len() - i,
    {
        assert(a@.skip(i as int).drop_first() =~= a@.skip(i + 1));
        assert(b@.skip(i as int).drop_first() =~= b@.skip(i + 1));
        i = i + 1;
    }
    if i == a.len() {
        true
    } else if i == b.len() {
        false
    } else {
        assert(a@.skip(i as int)[0] == a@[i as int]);
        assert(b@.skip(i as int)[0] == b@[i as int]);
        a[i] < b[i]
    }
}

fn output_le_exec(a: &DrmOutput, b: &DrmOutput) -> (r: bool)
    ensures
        r == output_le(a@, b@),
{
    let ac = chars_of(a.card.as_str());
    let bc = chars_of(b.card.as_str());
    if a.card == b.card {
        let an = chars_of(a.connector.as_str());
        let bn = chars_of(b.connector.as_str());
        seq_le_exec(&an, &bn)
    } else {
        seq_le_exec(&ac, &bc)
    }
}

/// The views of the connectors `v`.
pub open spec fn outputs_view(v: Seq<DrmOutput>) -> Seq<DrmOutputView> {
    v.map_values(|o: DrmOutput| o@)
}

proof fn lemma_insert_sorted_split(s: Seq<DrmOutputView>, x: DrmOutputView, k: int)
    requires
        0 <= k <= s.len(),
        k == 0 || output_le(s[k - 1], x),
        forall|j: int| k <= j < s.len() ==> !output_le(#[trigger] s[j], x),
    ensures
        insert_sorted(s, x) == s.subrange(0, k).push(x) + s.subrange(k, s.len() as int),
    decreases s.len(),
{
    if s.len() == 0 {
        assert(s.subrange(0, k).push(x) + s.subrange(k, s.len() as int) =~= seq![x]);
    } else if k == s.len() {
        assert(output_le(s.last(), x));
        assert(s.subrange(0, k) =~= s);
        assert(s.subrange(k, s.len() as int) =~= Seq::<DrmOutputView>::empty());
        assert(s.push(x) + Seq::<DrmOutputView>::empty() =~= s.push(x));
    } else {
        assert(!output_le(s[s.len() - 1], x));
        let t = s.drop_last();
        assert forall|j: int| k <= j < t.len() implies !output_le(#[trigger] t[j], x) by {
            assert(t[j] == s[j]);
        }
        if k > 0 {
            assert(t[k - 1] == s[k - 1]);
        }
        lemma_insert_sorted_split(t, x, k);
        assert(insert_sorted(s, x) == insert_sorted(t, x).push(s.last()));
        assert(t.subrange(0, k) =~= s.subrange(0, k));
        assert(t.subrange(0, k).push(x) + t.subrange(k, t.len() as int) + seq![s.last()]
            =~= s.subrange(0, k).push(x) + s.subrange(k, s.len() as int));
        assert((t.subrange(0, k).push(x) + t.subrange(k, t.len() as int)).push(s.last())
            =~= t.subrange(0, k).push(x) + t.subrange(k, t.len() as int) + seq![s.last()]);
    }
}

/// Insert `x` into the sorted vector `v` at its stable position.
fn insert_output(v: &mut Vec<DrmOutput>, x: DrmOutput)
    ensures
        outputs_view(final(v)@) == insert_sorted(outputs_view(old(v)@), x@),
{
    let ghost s = outputs_view(v@);
    let mut k = v.len();
    while k > 0 && !output_le_exec(&v[k - 1], &x)
        invariant
            k <= v@.len(),
            s == outputs_view(v@),
            forall|j: int| k <= j < s.len() ==> !output_le(#[trigger] s[j], x@),
        decreases k,
    {
        k = k - 1;
    }
    proof {
        if k > 0 {
            assert(s[k - 1] == v@[k - 1]@);
        }
        lemma_insert_sorted_split(s, x@, k as int);
    }
    v.insert(k, x);
    assert(outputs_view(v@) =~= s.subrange(0, k as int).push(x@) + s.subrange(
        k as int,
        s.len() as int,
    ));
}

/// The connector that one directory entry describes, if any.
pub fn entry_to_output(e: &DrmEntry) -> (r: Option<DrmOutput>)
    ensures
        match r {
            Some(o) => entry_output(*e) == Some(o@),
            None => entry_output(*e).is_none(),
        },
{
    let name = chars_of(e.name.as_str());
    let n = name.len();
    assert(name@.subrange(0, n as int) =~= name@);
    let dash = match find_char(&name, 0, n, '-') {
        None => {
            return None;
        },
        Some(d) => d,
    };
    let ghost card = name@.subrange(0, dash as int);
    let is_card = dash >= 4 && range_eq(&name, 0, 4, "card");
    proof {
        reveal_strlit("card");
        if dash >= 4 {
            assert(card.subrange(0, 4) =~= name@.subrange(0, 4));
            assert("card"@ =~= card_prefix());
        }
    }
    if !is_card || !e.has_status {
        return None;
    }
    let card_s = string_of_range(e.name.as_str(), 0, dash);
    let connector_s = string_of_range(e.name.as_str(), dash + 1, n);
    let connected = match &e.status {
        Some(s) => {
            let t = trim_str(s.as_str());
            let tv = chars_of(t.as_str());
            let r = range_eq(&tv, 0, tv.len(), "connected");
            proof {
                reveal_strlit("connected");
                assert(tv@.subrange(0, tv@.len() as int) =~= tv@);
                assert("connected"@ =~= connected_word());
            }
            r
        },
        None => false,
    };
    let native = native_resolution_of(&e.modes);
    Some(
        DrmOutput {
            connector: connector_s,
            card: card_s,
            connected,
            native_resolution: native,
        },
    )
}

/// The connectors that `entries` describe, sorted by card name then connector
/// name (ties keep directory order).
pub fn enumerate_outputs(entries: &Vec<DrmEntry>) -> (r: Vec<DrmOutput>)
    ensures
        outputs_view(r@) == sort_outputs(connector_outputs(entries@)),
{
    let mut out: Vec<DrmOutput> = Vec::new();
    let mut i: usize = 0;
    while i < entries.len()
        invariant
            i <= entries@.len(),
            outputs_view(out@) == sort_outputs(connector_outputs(entries@.take(i as int))),
        decreases entries@.len() - i,
    {
        let ghost before = entries@.take(i as int);
        let o = entry_to_output(&entries[i]);
        proof {
            assert(entries@.take(i + 1).drop_last() =~= before);
            assert(entries@.take(i + 1).last() == entries@[i as int]);
        }
        let ghost rest = connector_outputs(before);
        match o {
            Some(o) => {
                insert_output(&mut out, o);
                proof {
                    assert(rest.push(o@).drop_last() =~= rest);
                }
            },
            None => {},
        }
        i = i + 1;
    }
    assert(entries@.take(entries@.len() as int) =~= entries@);
    out
}

/// Configuration of one `[[outputs]]` entry.
#[derive(Debug, Clone)]
pub struct OutputConfig {
    /// Connector name (e.g. `"DP-1"`).
    pub connector: String,
    /// Whether this output takes part in terminal sizing.
    pub enabled: bool,
    /// Whether this output is the one to size the terminal after.
    pub primary: bool,
}

/// Mathematical view of an [`OutputConfig`].
pub struct OutputConfigView {
    pub connector: Seq<char>,
    pub enabled: bool,
    pub primary: bool,
}

impl View for OutputConfig {
    type V = OutputConfigView;

    open spec fn view(&self) -> OutputConfigView {
        OutputConfigView { connector: self.connector@, enabled: self.enabled, primary: self.primary }
    }
}

/// Views of a sequence of output configurations.
pub open spec fn output_configs_view(s: Seq<OutputConfig>) -> Seq<OutputConfigView> {
    s.map_values(|o: OutputConfig| o@)
}

/// Explicit terminal size from the `[terminal]` table.
#[derive(Debug, Clone, Copy, PartialEq, Eq, Structural)]
pub struct TerminalConfig {
    pub cols: Option<u16>,
    pub rows: Option<u16>,
}

/// How the terminal is to be sized.
#[derive(Debug, Clone)]
pub enum SizingChoice {
    /// Use these character-cell dimensions.
    Explicit { rows: u16, cols: u16 },
    /// Size the terminal after the native resolution of this connector.
    Output { connector: String },
    /// No enabled output is configured: leave the terminal alone.
    NoEnabledOutput,
}

/// Index of the output that sizes the terminal: the first enabled primary
/// output, else the first enabled output.
pub open spec fn sizing_index(outputs: Seq<OutputConfig>) -> Option<int> {
    if exists|i: int| 0 <= i < outputs.len() && outputs[i].enabled && outputs[i].primary {
        Some(
            choose|i: int|
                0 <= i < outputs.len() && outputs[i].enabled && outputs[i].primary && forall|
                    j: int,
                | 0 <= j < i ==> !(outputs[j].enabled && outputs[j].primary),
        )
    } else if exists|i: int| 0 <= i < outputs.len() && outputs[i].enabled {
        Some(
            choose|i: int|
                0 <= i < outputs.len() && outputs[i].enabled && forall|j: int|
                    0 <= j < i ==> !outputs[j].enabled,
        )
    } else {
        None
    }
}

/// First index in `outputs` that is enabled (and primary, when asked).
fn first_enabled(outputs: &Vec<OutputConfig>, need_primary: bool) -> (r: Option<usize>)
    ensures
        match r {
            Some(i) => {
                &&& i < outputs@.len()
                &&& outputs@[i as int].enabled
                &&& (need_primary ==> outputs@[i as int].primary)
                &&& forall|j: int|
                    0 <= j < i ==> !(outputs@[j].enabled && (need_primary
                        ==> outputs@[j].primary))
            },
            None => forall|j: int|
                0 <= j < outputs@.len() ==> !(outputs@[j].enabled && (need_primary
                    ==> outputs@[j].primary)),
        },
{
    let mut i: usize = 0;
    while i < outputs.len()
        invariant
            i <= outputs@.len(),
            forall|j: int|
                0 <= j < i ==> !(outputs@[j].enabled && (need_primary ==> outputs@[j].primary)),
        decreases outputs@.len() - i,
    {
        if outputs[i].enabled && (!need_primary || outputs[i].primary) {
            return Some(i);
        }
        i = i + 1;
    }
    None
}

/// The sizing choice that `[terminal]` and `[[outputs]]` make: an explicit
/// size when both `cols` and `rows` are set, else the output that
/// [`sizing_index`] picks, else nothing.
pub open spec fn spec_sizing_choice(outputs: Seq<OutputConfig>, terminal: TerminalConfig) -> Option<
    Result<(u16, u16), Seq<char>>,
> {
    match (terminal.cols, terminal.rows) {
        (Some(c), Some(r)) => Some(Ok((r, c))),
        _ => match sizing_index(outputs) {
            Some(i) => Some(Err(outputs[i].connector@)),
            None => None,
        },
    }
}

/// Decide how to size the terminal from `[[outputs]]` and `[terminal]`.
///
/// Priority (highest first): explicit `[terminal]` `cols` + `rows`; the
/// enabled output marked `primary`; the first enabled output.
pub fn apply_output_config(outputs: &Vec<OutputConfig>, terminal: &TerminalConfig) -> (r:
    SizingChoice)
    ensures
        spec_sizing_choice(outputs@, *terminal) == (match r {
            SizingChoice::Explicit { rows, cols } => Some(Ok((rows, cols))),
            SizingChoice::Output { connector } => Some(Err(connector@)),
            SizingChoice::NoEnabledOutput => None,
        }),
{
    if let (Some(cols), Some(rows)) = (terminal.cols, terminal.rows) {
        return SizingChoice::Explicit { rows, cols };
    }
    match first_enabled(outputs, true) {
        Some(i) => {
            proof {
                let s = outputs@;
                assert(0 <= i < s.len() && s[i as int].enabled && s[i as int].primary);
                let c = choose|c: int|
                    0 <= c < s.len() && s[c].enabled && s[c].primary && forall|j: int|
                        0 <= j < c ==> !(s[j].enabled && s[j].primary);
                assert(c == i);
            }
            SizingChoice::Output { connector: outputs[i].connector.clone() }
        },
        None => {
            proof {
                let s = outputs@;
                assert(!exists|c: int| 0 <= c < s.len() && s[c].enabled && s[c].primary);
            }
            match first_enabled(outputs, false) {
                Some(i) => {
                    proof {
                        let s = outputs@;
                        assert(0 <= i < s.len() && s[i as int].enabled);
                        let c = choose|c: int|
                            0 <= c < s.len() && s[c].enabled && forall|j: int|
                                0 <= j < c ==> !s[j].enabled;
                        assert(c == i);
                    }
                    SizingChoice::Output { connector: outputs[i].connector.clone() }
                },
                None => SizingChoice::NoEnabledOutput,
            }
        },
    }
}

/// Why the terminal could not be sized after an output.
#[derive(Debug, Clone, Copy, PartialEq, Eq, Structural)]
pub enum ResizeSkip {
    /// No DRM connector carries the configured name.
    OutputNotFound,
    /// The connector reports no native resolution.
    NoNativeResolution,
    /// The terminal reports a zero dimension (cells or pixels).
    ZeroTerminal,
    /// The font cell size works out to zero pixels.
    ZeroCell,
    /// The computed character-cell dimensions are zero.
    ZeroResult,
}

/// The native resolution of the first listed connector named `connector`.
pub open spec fn spec_native_for(outputs: Seq<DrmOutputView>, connector: Seq<char>) -> Result<
    (u16, u16),
    ResizeSkip,
> {
    if exists|i: int| 0 <= i < outputs.len() && outputs[i].connector == connector {
        let i = choose|i: int|
            0 <= i < outputs.len() && outputs[i].connector == connector && forall|j: int|
                0 <= j < i ==> outputs[j].connector != connector;
        match outputs[i].native_resolution {
            Some(r) => Ok(r),
            None => Err(ResizeSkip::NoNativeResolution),
        }
    } else {
        Err(ResizeSkip::OutputNotFound)
    }
}

/// Look up the native resolution of the connector named `connector`.
pub fn find_native_resolution(outputs: &Vec<DrmOutput>, connector: &String) -> (r: Result<
    (u16, u16),
    ResizeSkip,
>)
    ensures
        r == spec_native_for(outputs_view(outputs@), connector@),
{
    let ghost s = outputs_view(outputs@);
    let mut i: usize = 0;
    while i < outputs.len()
        invariant
            i <= outputs@.len(),
            s == outputs_view(outputs@),
            forall|j: int| 0 <= j < i ==> s[j].connector != connector@,
        decreases outputs@.len() - i,
    {
        if outputs[i].connector == *connector {
            proof {
                assert(s[i as int].connector == connector@);
                let c = choose|c: int|
                    0 <= c < s.len() && s[c].connector == connector@ && forall|j: int|
                        0 <= j < c ==> s[j].connector != connector@;
                assert(c == i);
            }
            return match outputs[i].native_resolution {
                Some(r) => Ok(r),
                None => Err(ResizeSkip::NoNativeResolution),
            };
        }
        i = i + 1;
    }
    Err(ResizeSkip::OutputNotFound)
}

/// The window size that makes a terminal of the `current` size fill
/// `native_w x native_h` pixels, keeping its font cell size.
pub open spec fn spec_resize(native_w: u16, native_h: u16, current: WinSize) -> Result<
    WinSize,
    ResizeSkip,
> {
    if current.ws_col == 0 || current.ws_row == 0 || current.ws_xpixel == 0 || current.ws_ypixel
        == 0 {
        Err(ResizeSkip::ZeroTerminal)
    } else {
        let cell_w = current.ws_xpixel / current.ws_col;
        let cell_h = current.ws_ypixel / current.ws_row;
        if cell_w == 0 || cell_h == 0 {
            Err(ResizeSkip::ZeroCell)
        } else {
            let cols = native_w / cell_w;
            let rows = native_h / cell_h;
            if cols == 0 || rows == 0 {
                Err(ResizeSkip::ZeroResult)
            } else {
                Ok(
                    WinSize {
                        ws_row: rows as u16,
                        ws_col: cols as u16,
                        ws_xpixel: native_w,
                        ws_ypixel: native_h,
                    },
                )
            }
        }
    }
}

/// Compute the window size to apply for an output of `native_w x native_h`
/// pixels, given the terminal's `current` window size.
pub fn resize_terminal_to_resolution(native_w: u16, native_h: u16, current: WinSize) -> (r: Result<
    WinSize,
    ResizeSkip,
>)
    ensures
        r == spec_resize(native_w, native_h, current),
{
    if current.ws_col == 0 || current.ws_row == 0 || current.ws_xpixel == 0 || current.ws_ypixel
        == 0 {
        return Err(ResizeSkip::ZeroTerminal);
    }
    let cell_w = current.ws_xpixel / current.ws_col;
    let cell_h = current.ws_ypixel / current.ws_row;
    if cell_w == 0 || cell_h == 0 {
        return Err(ResizeSkip::ZeroCell);
    }
    let cols = native_w / cell_w;
    let rows = native_h / cell_h;
    if cols == 0 || rows == 0 {
        return Err(ResizeSkip::ZeroResult);
    }
    Ok(WinSize { ws_row: rows, ws_col: cols, ws_xpixel: native_w, ws_ypixel: native_h })
}

/// An explicit `[terminal]` size takes precedence over `[[outputs]]`.
pub proof fn lemma_terminal_takes_precedence(outputs: Seq<OutputConfig>, terminal: TerminalConfig)
    requires
        terminal.cols is Some,
        terminal.rows is Some,
    ensures
        spec_sizing_choice(outputs, terminal) == Some(
            Ok::<(u16, u16), Seq<char>>((terminal.rows->0, terminal.cols->0)),
        ),
{
}

/// Without an explicit size, an enabled output marked primary sizes the
/// terminal; with none marked, the first enabled output does.
pub proof fn lemma_primary_then_first_enabled(outputs: Seq<OutputConfig>, i: int)
    requires
        0 <= i < outputs.len(),
        outputs[i].enabled,
        outputs[i].primary || forall|j: int| 0 <= j < outputs.len() ==> !(#[trigger] outputs[j].enabled && outputs[j].primary),
        forall|j: int|
            0 <= j < i ==> !(#[trigger] outputs[j].enabled && (outputs[i].primary ==> outputs[j].primary)),
    ensures
        spec_sizing_choice(outputs, TerminalConfig { cols: None, rows: None }) == Some(
            Err::<(u16, u16), Seq<char>>(outputs[i].connector@),
        ),
{
    if outputs[i].primary {
        let c = choose|c: int|
            0 <= c < outputs.len() && outputs[c].enabled && outputs[c].primary && forall|j: int|
                0 <= j < c ==> !(outputs[j].enabled && outputs[j].primary);
        if c < i {
            assert(!(outputs[c].enabled && outputs[c].primary));
        } else if c > i {
            assert(!(outputs[i].enabled && outputs[i].primary));
        }
    } else {
        let c = choose|c: int|
            0 <= c < outputs.len() && outputs[c].enabled && forall|j: int|
                0 <= j < c ==> !outputs[j].enabled;
        if c < i {
            assert(!outputs[c].enabled);
        } else if c > i {
            assert(!outputs[i].enabled);
        }
    }
}

} // verus!
