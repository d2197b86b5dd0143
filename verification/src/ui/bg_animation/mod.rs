//! Background animations drawn behind the login UI: the registered kinds,
//! the settings that one of them runs with, and the colors in those settings.
pub mod doom;

use vstd::prelude::*;

use ratatui::style::Color as O;

use self::Color::{
    Black, Blue, Cyan, DarkGray, Gray, Green, Indexed, LightBlue, LightCyan, LightGreen,
    LightMagenta, LightRed, LightYellow, Magenta, Red, Reset, Rgb, White, Yellow,
};

use crate::text::{chars_of, lower, lower_chars, range_eq, string_of_range, trim, trim_str};

verus! {

/// A terminal color, as ratatui names them.
#[derive(Debug, Clone, Copy, PartialEq, Eq, Structural)]
pub enum Color {
    Reset,
    Black,
    Red,
    Green,
    Yellow,
    Blue,
    Magenta,
    Cyan,
    Gray,
    DarkGray,
    LightRed,
    LightGreen,
    LightYellow,
    LightBlue,
    LightMagenta,
    LightCyan,
    White,
    /// A 24-bit color.
    Rgb(u8, u8, u8),
    /// An entry of the terminal's 256-color palette.
    Indexed(u8),
}

/// Which animation to run.
#[derive(Debug, Clone, Copy, PartialEq, Eq, Structural)]
pub enum Kind {
    Doom,
}

/// Catalog entry for a registered animation kind.
#[derive(Debug, Clone, Copy)]
pub struct KindInfo {
    pub kind: Kind,
    /// Name used in the configuration.
    pub name: &'static str,
    /// Label shown in the menu.
    pub label: &'static str,
}

/// Every registered kind with its name and label, in menu display order.
pub open spec fn spec_kinds() -> Seq<(Kind, Seq<char>, Seq<char>)> {
    seq![(Kind::Doom, "doom"@, "DOOM Fire"@)]
}

/// Every registered animation kind, in menu display order.
pub fn kinds() -> (r: Vec<KindInfo>)
    ensures
        r@.len() == spec_kinds().len(),
        forall|i: int|
            0 <= i < r@.len() ==> (#[trigger] r@[i]).kind == spec_kinds()[i].0 && r@[i].name@
                == spec_kinds()[i].1 && r@[i].label@ == spec_kinds()[i].2,
{
    let mut r: Vec<KindInfo> = Vec::new();
    r.push(KindInfo { kind: Kind::Doom, name: "doom", label: "DOOM Fire" });
    r
}

/// The kind that a configured name selects: `doom` or `fire`, after trimming
/// and without regard to ASCII case.
pub open spec fn spec_kind_from_name(name: Seq<char>) -> Option<Kind> {
    let k = lower(trim(name));
    if k == "doom"@ || k == "fire"@ {
        Some(Kind::Doom)
    } else {
        None
    }
}

impl Kind {
    /// Resolve a configured name to a [`Kind`], or `None` for unknown or
    /// disabled.
    pub fn from_name(name: &str) -> (r: Option<Kind>)
        ensures
            r == spec_kind_from_name(name@),
    {
        let t = trim_str(name);
        let v = chars_of(t.as_str());
        let l = lower_chars(&v);
        assert(l@.subrange(0, l@.len() as int) =~= l@);
        if range_eq(&l, 0, l.len(), "doom") || range_eq(&l, 0, l.len(), "fire") {
            Some(Kind::Doom)
        } else {
            None
        }
    }

    /// The settings that this kind runs with when nothing is configured.
    pub fn default_spec(self) -> (r: AnimationSpec)
        ensures
            r == AnimationSpec::Doom(doom::default_options()),
    {
        match self {
            Kind::Doom => AnimationSpec::Doom(doom::Options::default()),
        }
    }
}

/// Fully-resolved settings of one animation.
#[derive(Debug, Clone, Copy, PartialEq, Eq, Structural)]
pub enum AnimationSpec {
    Doom(doom::Options),
}

/// Number of bytes that `c` takes in UTF-8.
pub open spec fn utf8_len(c: char) -> nat {
    if (c as u32) < 0x80 {
        1
    } else if (c as u32) < 0x800 {
        2
    } else if (c as u32) < 0x10000 {
        3
    } else {
        4
    }
}

/// Number of bytes that `s` takes in UTF-8.
pub open spec fn byte_len(s: Seq<char>) -> nat
    decreases s.len(),
{
    if s.len() == 0 {
        0
    } else {
        byte_len(s.drop_last()) + utf8_len(s.last())
    }
}

/// Whether byte offset `b` of `s` falls between two characters.
pub open spec fn is_boundary(s: Seq<char>, b: nat) -> bool {
    exists|i: int| 0 <= i <= s.len() && byte_len(s.take(i)) == b
}

/// The character index at byte offset `b` of `s`.
pub open spec fn boundary_index(s: Seq<char>, b: nat) -> int {
    choose|i: int| 0 <= i <= s.len() && byte_len(s.take(i)) == b
}

/// Whether `c` is a hexadecimal digit.
pub open spec fn is_hex_digit(c: char) -> bool {
    ('0' <= c && c <= '9') || ('a' <= c && c <= 'f') || ('A' <= c && c <= 'F')
}

/// The value of the hexadecimal digit `c`.
pub open spec fn hex_digit_value(c: char) -> nat {
    if '0' <= c && c <= '9' {
        ((c as u32) - ('0' as u32)) as nat
    } else if 'a' <= c && c <= 'f' {
        ((c as u32) - ('a' as u32) + 10) as nat
    } else {
        ((c as u32) - ('A' as u32) + 10) as nat
    }
}

/// Whether every character of `s` is a hexadecimal digit.
pub open spec fn all_hex(s: Seq<char>) -> bool {
    forall|i: int| 0 <= i < s.len() ==> is_hex_digit(#[trigger] s[i])
}

/// The number that the hexadecimal digits `s` denote.
pub open spec fn hex_value(s: Seq<char>) -> nat
    decreases s.len(),
{
    if s.len() == 0 {
        0
    } else {
        hex_value(s.drop_last()) * 16 + hex_digit_value(s.last())
    }
}

/// What `u8::from_str_radix(s, 16)` gives: an optional `+`, then one or more
/// hexadecimal digits whose value fits in a byte.
pub open spec fn hex_byte(s: Seq<char>) -> Option<u8> {
    let body = if s.len() > 0 && s[0] == '+' {
        s.drop_first()
    } else {
        s
    };
    if body.len() == 0 || !all_hex(body) || hex_value(body) > 255 {
        None
    } else {
        Some(hex_value(body) as u8)
    }
}

/// The digits after a `#`, `0x` or `0X` prefix.
pub open spec fn color_hex(t: Seq<char>) -> Option<Seq<char>> {
    if t.len() >= 1 && t[0] == '#' {
        Some(t.drop_first())
    } else if t.len() >= 2 && t[0] == '0' && (t[1] == 'x' || t[1] == 'X') {
        Some(t.subrange(2, t.len() as int))
    } else {
        None
    }
}

/// The three bytes that six bytes of hexadecimal digits denote.
pub open spec fn hex_rgb(h: Seq<char>) -> Option<(u8, u8, u8)> {
    if byte_len(h) == 6 && is_boundary(h, 2) && is_boundary(h, 4) {
        let i2 = boundary_index(h, 2);
        let i4 = boundary_index(h, 4);
        match (
            hex_byte(h.subrange(0, i2)),
            hex_byte(h.subrange(i2, i4)),
            hex_byte(h.subrange(i4, h.len() as int)),
        ) {
            (Some(r), Some(g), Some(b)) => Some((r, g, b)),
            _ => None,
        }
    } else {
        None
    }
}

/// What ratatui's `Color::from_str` gives for `s`.
pub uninterp spec fn ratatui_color(s: Seq<char>) -> Option<Color>;

/// The color that `s` names: `#RRGGBB`, `0xRRGGBB` or `0XRRGGBB` after
/// trimming, or else whatever ratatui's `Color::from_str` makes of the
/// trimmed text.
pub open spec fn spec_parse_color(s: Seq<char>) -> Option<Color> {
    let t = trim(s);
    match color_hex(t) {
        Some(h) => match hex_rgb(h) {
            Some(c) => Some(Color::Rgb(c.0, c.1, c.2)),
            None => ratatui_color(t),
        },
        None => ratatui_color(t),
    }
}

/// Parses `s` with ratatui's `Color::from_str` and moves the variant over.
/// Nothing is claimed of the result beyond its name [`ratatui_color`].
#[verifier::external_body]
fn color_from_str(s: &str) -> (r: Option<Color>)
    ensures
        r == ratatui_color(s@),
{
    let Ok(c) = s.parse::<O>() else { return None };
    Some(match c {
        O::Reset => Reset, O::Black => Black, O::Red => Red, O::Green => Green,
        O::Yellow => Yellow, O::Blue => Blue, O::Magenta => Magenta, O::Cyan => Cyan,
        O::Gray => Gray, O::DarkGray => DarkGray, O::LightRed => LightRed,
        O::LightGreen => LightGreen, O::LightYellow => LightYellow, O::LightBlue => LightBlue,
        O::LightMagenta => LightMagenta, O::LightCyan => LightCyan, O::White => White,
        O::Rgb(r, g, b) => Rgb(r, g, b), O::Indexed(i) => Indexed(i),
    })
}

proof fn lemma_byte_len_step(s: Seq<char>, i: int)
    requires
        0 <= i < s.len(),
    ensures
        byte_len(s.take(i + 1)) == byte_len(s.take(i)) + utf8_len(s[i]),
{
    assert(s.take(i + 1).drop_last() =~= s.take(i));
}

proof fn lemma_byte_len_grows(s: Seq<char>, i: int, j: int)
    requires
        0 <= i < j <= s.len(),
    ensures
        byte_len(s.take(i)) < byte_len(s.take(j)),
    decreases j - i,
{
    lemma_byte_len_step(s, j - 1);
    if i < j - 1 {
        lemma_byte_len_grows(s, i, j - 1);
    }
}

proof fn lemma_boundary_at(s: Seq<char>, b: nat, i: int)
    requires
        0 <= i <= s.len(),
        byte_len(s.take(i)) == b,
    ensures
        is_boundary(s, b),
        boundary_index(s, b) == i,
{
    let j = boundary_index(s, b);
    if j < i {
        lemma_byte_len_grows(s, j, i);
    } else if i < j {
        lemma_byte_len_grows(s, i, j);
    }
}

/// The byte length of `h`, whether it is exactly six, and the character
/// indices at byte offsets 2 and 4.
fn byte_marks(h: &Vec<char>) -> (r: (bool, Option<usize>, Option<usize>))
    ensures
        r.0 == (byte_len(h@) == 6),
        match r.1 {
            Some(i) => is_boundary(h@, 2) && boundary_index(h@, 2) == i,
            None => !is_boundary(h@, 2),
        },
        match r.2 {
            Some(i) => is_boundary(h@, 4) && boundary_index(h@, 4) == i,
            None => !is_boundary(h@, 4),
        },
{
    let n = h.len();
    let mut i: usize = 0;
    let mut b: usize = 0;
    let mut m2: Option<usize> = None;
    let mut m4: Option<usize> = None;
    assert(h@.take(0) =~= Seq::<char>::empty());
    while i < n && b <= 6
        invariant
            n == h@.len(),
            i <= n,
            b == byte_len(h@.take(i as int)),
            b <= 10,
            forall|j: int|
                0 <= j <= i ==> (byte_len(h@.take(j)) == 2 <==> m2 == Some(j as usize)),
            forall|j: int|
                0 <= j <= i ==> (byte_len(h@.take(j)) == 4 <==> m4 == Some(j as usize)),
            m2 matches Some(k) ==> k <= i,
            m4 matches Some(k) ==> k <= i,
        decreases n - i,
    {
        let c = h[i];
        let w: usize = if (c as u32) < 0x80 {
            1
        } else if (c as u32) < 0x800 {
            2
        } else if (c as u32) < 0x10000 {
            3
        } else {
            4
        };
        proof {
            lemma_byte_len_step(h@, i as int);
            assert forall|j: int| 0 <= j <= i implies byte_len(h@.take(j)) < b + w by {
                if j < i {
                    lemma_byte_len_grows(h@, j, i as int);
                }
            }
        }
        b = b + w;
        i = i + 1;
        if b == 2 {
            m2 = Some(i);
        }
        if b == 4 {
            m4 = Some(i);
        }
    }
    proof {
        assert forall|j: int| i < j <= n implies byte_len(h@.take(j)) > 6 by {
            lemma_byte_len_grows(h@, i as int, j);
        }
        assert(h@.take(n as int) =~= h@);
        if i < n {
            lemma_byte_len_grows(h@, i as int, n as int);
        }
        match m2 {
            Some(k) => lemma_boundary_at(h@, 2, k as int),
            None => {
                if is_boundary(h@, 2) {
                    let k = boundary_index(h@, 2);
                    assert(byte_len(h@.take(k)) == 2);
                }
            },
        }
        match m4 {
            Some(k) => lemma_boundary_at(h@, 4, k as int),
            None => {
                if is_boundary(h@, 4) {
                    let k = boundary_index(h@, 4);
                    assert(byte_len(h@.take(k)) == 4);
                }
            },
        }
    }
    (b == 6 && i == n, m2, m4)
}

proof fn lemma_hex_value_grows(s: Seq<char>, k: int)
    requires
        0 <= k <= s.len(),
    ensures
        hex_value(s.subrange(0, k)) <= hex_value(s),
    decreases s.len() - k,
{
    if k < s.len() {
        assert(s.drop_last().subrange(0, k) =~= s.subrange(0, k));
        lemma_hex_value_grows(s.drop_last(), k);
        assert(hex_value(s.drop_last()) <= hex_value(s)) by (nonlinear_arith)
            requires
                hex_value(s) == hex_value(s.drop_last()) * 16 + hex_digit_value(s.last()),
        ;
    } else {
        assert(s.subrange(0, k) =~= s);
    }
}

/// `u8::from_str_radix(v[start..end], 16)`.
fn hex_byte_range(v: &Vec<char>, start: usize, end: usize) -> (r: Option<u8>)
    requires
        start <= end <= v@.len(),
    ensures
        r == hex_byte(v@.subrange(start as int, end as int)),
{
    let ghost s = v@.subrange(start as int, end as int);
    let mut i = start;
    if i < end && v[i] == '+' {
        i = i + 1;
    }
    let ghost body = v@.subrange(i as int, end as int);
    assert(body =~= (if s.len() > 0 && s[0] == '+' {
        s.drop_first()
    } else {
        s
    }));
    if i == end {
        return None;
    }
    let body_start = i;
    let mut acc: u32 = 0;
    while i < end
        invariant
            start <= body_start <= i <= end <= v@.len(),
            body == v@.subrange(body_start as int, end as int),
            s == v@.subrange(start as int, end as int),
            body == (if s.len() > 0 && s[0] == '+' {
                s.drop_first()
            } else {
                s
            }),
            body.len() > 0,
            forall|j: int| body_start <= j < i ==> is_hex_digit(#[trigger] v@[j]),
            acc as nat == hex_value(body.subrange(0, i - body_start)),
            acc <= 255,
        decreases end - i,
    {
        let c = v[i];
        let k = i - body_start;
        assert(body[k as int] == c);
        if !(('0' <= c && c <= '9') || ('a' <= c && c <= 'f') || ('A' <= c && c <= 'F')) {
            proof {
                assert(!is_hex_digit(body[k as int]));
                assert(!all_hex(body));
            }
            return None;
        }
        let d: u32 = if '0' <= c && c <= '9' {
            c as u32 - '0' as u32
        } else if 'a' <= c && c <= 'f' {
            c as u32 - 'a' as u32 + 10
        } else {
            c as u32 - 'A' as u32 + 10
        };
        proof {
            let p = body.subrange(0, k + 1);
            assert(p.drop_last() =~= body.subrange(0, k as int));
            assert(p.last() == c);
            assert(d == hex_digit_value(c));
            assert(hex_value(p) == acc * 16 + d);
        }
        if acc * 16 + d > 255 {
            proof {
                if all_hex(body) {
                    lemma_hex_value_grows(body, k + 1);
                }
            }
            return None;
        }
        acc = acc * 16 + d;
        i = i + 1;
    }
    proof {
        assert(body.subrange(0, body.len() as int) =~= body);
        assert forall|j: int| 0 <= j < body.len() implies is_hex_digit(#[trigger] body[j]) by {
            assert(body[j] == v@[body_start + j]);
        }
    }
    Some(acc as u8)
}

/// Parse a color from `#RRGGBB`, `0xRRGGBB` or `0XRRGGBB`, or else from any
/// text that ratatui's `Color::from_str` accepts; `None` when neither reads
/// it. Six bytes of digits whose second or fourth byte ends inside a
/// character are handed to ratatui's parser as well.
pub fn parse_color(s: &str) -> (r: Option<Color>)
    ensures
        r == spec_parse_color(s@),
{
    let t = trim_str(s);
    let v = chars_of(t.as_str());
    let n = v.len();
    let start: usize = if n >= 1 && v[0] == '#' {
        1
    } else if n >= 2 && v[0] == '0' && (v[1] == 'x' || v[1] == 'X') {
        2
    } else {
        0
    };
    if start > 0 {
        let hs = string_of_range(t.as_str(), start, n);
        let h = chars_of(hs.as_str());
        let ghost hv = v@.subrange(start as int, n as int);
        assert(hv == h@);
        proof {
            if start == 1 {
                assert(v@.drop_first() =~= hv);
            }
        }
        let (six, m2, m4) = byte_marks(&h);
        if six {
            match m2 {
                Some(i2) => {
                    let r = hex_byte_range(&h, 0, i2);
                    match r {
                        Some(rb) => match m4 {
                            Some(i4) => {
                                proof {
                                    lemma_byte_len_order(h@, i2 as int, i4 as int);
                                }
                                let g = hex_byte_range(&h, i2, i4);
                                let bl = hex_byte_range(&h, i4, h.len());
                                if let (Some(gb), Some(bb)) = (g, bl) {
                                    return Some(Color::Rgb(rb, gb, bb));
                                }
                            },
                            None => {},
                        },
                        None => {},
                    }
                },
                None => {},
            }
        }
    }
    color_from_str(t.as_str())
}

/// The character index at byte 2 comes before the one at byte 4.
proof fn lemma_byte_len_order(s: Seq<char>, i2: int, i4: int)
    requires
        0 <= i2 <= s.len(),
        0 <= i4 <= s.len(),
        byte_len(s.take(i2)) == 2,
        byte_len(s.take(i4)) == 4,
    ensures
        i2 <= i4,
{
    if i4 < i2 {
        lemma_byte_len_grows(s, i4, i2);
    }
}

} // verus!
