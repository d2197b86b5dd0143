//! Character-level text helpers: whitespace trimming, splitting, ASCII case
//! folding and decimal numbers, each stated over `Seq<char>`.
use vstd::prelude::*;
use vstd::string::StrSliceExecFns;

verus! {

/// The characters that `char::is_whitespace` accepts (the Unicode
/// `White_Space` property).
pub open spec fn is_ws(c: char) -> bool {
    ||| ('\u{9}' <= c && c <= '\u{d}')
    ||| c == ' '
    ||| c == '\u{85}'
    ||| c == '\u{a0}'
    ||| c == '\u{1680}'
    ||| ('\u{2000}' <= c && c <= '\u{200a}')
    ||| c == '\u{2028}'
    ||| c == '\u{2029}'
    ||| c == '\u{202f}'
    ||| c == '\u{205f}'
    ||| c == '\u{3000}'
}

/// `s` with its leading whitespace removed.
pub open spec fn trim_start(s: Seq<char>) -> Seq<char>
    decreases s.len(),
{
    if s.len() > 0 && is_ws(s[0]) {
        trim_start(s.drop_first())
    } else {
        s
    }
}

/// `s` with its trailing whitespace removed.
pub open spec fn trim_end(s: Seq<char>) -> Seq<char>
    decreases s.len(),
{
    if s.len() > 0 && is_ws(s.last()) {
        trim_end(s.drop_last())
    } else {
        s
    }
}

/// What `str::trim` returns: `s` without leading and trailing whitespace.
pub open spec fn trim(s: Seq<char>) -> Seq<char> {
    trim_end(trim_start(s))
}

/// ASCII upper-case letters mapped to lower case, anything else unchanged.
pub open spec fn ascii_lower(c: char) -> char {
    if 'A' <= c && c <= 'Z' {
        (((c as u8) + 32) as u8) as char
    } else {
        c
    }
}

/// `s` with every ASCII letter in lower case (`str::to_ascii_lowercase`).
pub open spec fn lower(s: Seq<char>) -> Seq<char> {
    s.map_values(|c: char| ascii_lower(c))
}

/// Index of the first occurrence of `c` in `s`, if any.
pub open spec fn is_first(s: Seq<char>, c: char, i: int) -> bool {
    &&& 0 <= i < s.len()
    &&& s[i] == c
    &&& forall|j: int| 0 <= j < i ==> s[j] != c
}

/// Index of the first `c` in `s`.
pub open spec fn find(s: Seq<char>, c: char) -> Option<int> {
    if exists|i: int| is_first(s, c, i) {
        Some(choose|i: int| is_first(s, c, i))
    } else {
        None
    }
}

/// Decimal digit test.
pub open spec fn is_digit(c: char) -> bool {
    '0' <= c && c <= '9'
}

/// Whether every character of `s` is a decimal digit.
pub open spec fn all_digits(s: Seq<char>) -> bool {
    forall|i: int| 0 <= i < s.len() ==> is_digit(#[trigger] s[i])
}

/// The number that the decimal digits `s` denote.
pub open spec fn digits_value(s: Seq<char>) -> nat
    decreases s.len(),
{
    if s.len() == 0 {
        0
    } else {
        digits_value(s.drop_last()) * 10 + ((s.last() as u32) - ('0' as u32)) as nat
    }
}

/// What `str::parse` gives for an unsigned integer type whose largest value
/// is `max`: an optional `+`, then one or more decimal digits, whose value
/// must not exceed `max`.
pub open spec fn parse_unsigned(s: Seq<char>, max: nat) -> Option<nat> {
    let body = if s.len() > 0 && s[0] == '+' {
        s.drop_first()
    } else {
        s
    };
    if body.len() == 0 || !all_digits(body) || digits_value(body) > max {
        None
    } else {
        Some(digits_value(body))
    }
}

/// A character test that agrees with `is_ws`.
pub fn is_whitespace(c: char) -> (r: bool)
    ensures
        r == is_ws(c),
{
    ('\u{9}' <= c && c <= '\u{d}') || c == ' ' || c == '\u{85}' || c == '\u{a0}' || c
        == '\u{1680}' || ('\u{2000}' <= c && c <= '\u{200a}') || c == '\u{2028}' || c
        == '\u{2029}' || c == '\u{202f}' || c == '\u{205f}' || c == '\u{3000}'
}

/// The characters of `s`, in order.
pub fn chars_of(s: &str) -> (v: Vec<char>)
    ensures
        v@ == s@,
{
    let n = s.unicode_len();
    let mut v: Vec<char> = Vec::new();
    let mut i: usize = 0;
    while i < n
        invariant
            n == s@.len(),
            i <= n,
            v@ == s@.take(i as int),
        decreases n - i,
    {
        let c = s.get_char(i);
        v.push(c);
        i = i + 1;
        assert(v@ =~= s@.take(i as int));
    }
    assert(v@ =~= s@);
    v
}

/// The `String` whose characters are `s[start..end]`.
pub fn string_of_range(s: &str, start: usize, end: usize) -> (r: String)
    requires
        start <= end <= s@.len(),
    ensures
        r@ == s@.subrange(start as int, end as int),
{
    let part = s.substring_char(start, end);
    String::from_str(part)
}

proof fn lemma_trim_start_drop(s: Seq<char>, k: int)
    requires
        0 <= k <= s.len(),
        forall|j: int| 0 <= j < k ==> is_ws(#[trigger] s[j]),
    ensures
        trim_start(s) == trim_start(s.subrange(k, s.len() as int)),
    decreases k,
{
    if k > 0 {
        lemma_trim_start_drop(s.drop_first(), k - 1);
        assert(s.drop_first().subrange(k - 1, s.drop_first().len() as int) =~= s.subrange(
            k,
            s.len() as int,
        ));
    } else {
        assert(s.subrange(0, s.len() as int) =~= s);
    }
}

proof fn lemma_trim_end_drop(s: Seq<char>, k: int)
    requires
        0 <= k <= s.len(),
        forall|j: int| k <= j < s.len() ==> is_ws(#[trigger] s[j]),
    ensures
        trim_end(s) == trim_end(s.subrange(0, k)),
    decreases s.len() - k,
{
    if k < s.len() {
        lemma_trim_end_drop(s.drop_last(), k);
        assert(s.drop_last().subrange(0, k) =~= s.subrange(0, k));
    } else {
        assert(s.subrange(0, k) =~= s);
    }
}

/// The bounds `(a, b)` with `v[a..b] == trim(v)`.
pub fn trim_bounds(v: &Vec<char>, start: usize, end: usize) -> (r: (usize, usize))
    requires
        start <= end <= v@.len(),
    ensures
        start <= r.0 <= r.1 <= end,
        v@.subrange(r.0 as int, r.1 as int) == trim(v@.subrange(start as int, end as int)),
{
    let ghost s = v@.subrange(start as int, end as int);
    let mut a = start;
    while a < end && is_whitespace(v[a])
        invariant
            start <= a <= end <= v@.len(),
            s == v@.subrange(start as int, end as int),
            forall|j: int| start <= j < a ==> is_ws(#[trigger] v@[j]),
        decreases end - a,
    {
        a = a + 1;
    }
    proof {
        let k = a - start;
        assert forall|j: int| 0 <= j < k implies is_ws(#[trigger] s[j]) by {
            assert(s[j] == v@[start + j]);
        }
        lemma_trim_start_drop(s, k);
        assert(s.subrange(k, s.len() as int) =~= v@.subrange(a as int, end as int));
        if a < end {
            assert(!is_ws(v@.subrange(a as int, end as int)[0]));
        }
    }
    let ghost t = v@.subrange(a as int, end as int);
    assert(trim_start(s) == t);
    let mut b = end;
    while b > a && is_whitespace(v[b - 1])
        invariant
            start <= a <= b <= end <= v@.len(),
            t == v@.subrange(a as int, end as int),
            forall|j: int| b <= j < end ==> is_ws(#[trigger] v@[j]),
        decreases b,
    {
        b = b - 1;
    }
    proof {
        let k = b - a;
        assert forall|j: int| k <= j < t.len() implies is_ws(#[trigger] t[j]) by {
            assert(t[j] == v@[a + j]);
        }
        lemma_trim_end_drop(t, k);
        assert(t.subrange(0, k) =~= v@.subrange(a as int, b as int));
        if b > a {
            assert(v@.subrange(a as int, b as int).last() == v@[b - 1]);
        }
    }
    (a, b)
}

/// What `str::trim` returns, as an owned `String`.
pub fn trim_str(s: &str) -> (r: String)
    ensures
        r@ == trim(s@),
{
    let v = chars_of(s);
    let (a, b) = trim_bounds(&v, 0, v.len());
    assert(v@.subrange(0, v@.len() as int) =~= v@);
    string_of_range(s, a, b)
}

/// Position of the first `c` in `v[start..end]`, relative to `start`.
pub fn find_char(v: &Vec<char>, start: usize, end: usize, c: char) -> (r: Option<usize>)
    requires
        start <= end <= v@.len(),
    ensures
        r == (match find(v@.subrange(start as int, end as int), c) {
            Some(i) => Some(i as usize),
            None => None,
        }),
        r matches Some(i) ==> start + i < end,
{
    let ghost s = v@.subrange(start as int, end as int);
    let mut i = start;
    while i < end
        invariant
            start <= i <= end <= v@.len(),
            s == v@.subrange(start as int, end as int),
            forall|j: int| start <= j < i ==> v@[j] != c,
        decreases end - i,
    {
        if v[i] == c {
            let k = i - start;
            proof {
                assert(is_first(s, c, k as int));
                assert forall|m: int| is_first(s, c, m) implies m == k by {
                    if m < k {
                        assert(s[m] == v@[start + m]);
                    }
                    if m > k {
                        assert(s[k as int] == c);
                    }
                }
            }
            return Some(k);
        }
        i = i + 1;
    }
    proof {
        assert forall|m: int| !is_first(s, c, m) by {
            if 0 <= m < s.len() {
                assert(s[m] == v@[start + m]);
            }
        }
    }
    None
}

proof fn lemma_digits_value_step(s: Seq<char>, i: int)
    requires
        0 <= i < s.len(),
    ensures
        digits_value(s.subrange(0, i + 1)) == digits_value(s.subrange(0, i)) * 10 + ((s[i] as u32)
            - ('0' as u32)) as nat,
{
    assert(s.subrange(0, i + 1).drop_last() =~= s.subrange(0, i));
}

proof fn lemma_digits_value_monotone(s: Seq<char>, i: int)
    requires
        0 <= i <= s.len(),
        all_digits(s),
    ensures
        digits_value(s.subrange(0, i)) <= digits_value(s),
    decreases s.len() - i,
{
    if i < s.len() {
        lemma_digits_value_monotone(s, i + 1);
        lemma_digits_value_step(s, i);
        assert(is_digit(s[i]));
    } else {
        assert(s.subrange(0, i) =~= s);
    }
}

/// Decimal value of `v[start..end]` as `parse_unsigned` states it, for
/// integer types whose largest value is `max`.
pub fn parse_unsigned_range(v: &Vec<char>, start: usize, end: usize, max: u64) -> (r: Option<u64>)
    requires
        start <= end <= v@.len(),
    ensures
        r == (match parse_unsigned(v@.subrange(start as int, end as int), max as nat) {
            Some(n) => Some(n as u64),
            None => None,
        }),
{
    let ghost s = v@.subrange(start as int, end as int);
    let mut i = start;
    if i < end && v[i] == '+' {
        i = i + 1;
    }
    let ghost body = v@.subrange(i as int, end as int);
    assert(body =~= (if s.len() > 0 && s[0] == '+' {
        s.drop_first()
    } else {
        s
    }));
    if i == end {
        return None;
    }
    let body_start = i;
    let mut acc: u64 = 0;
    while i < end
        invariant
            start <= body_start <= i <= end <= v@.len(),
            body == v@.subrange(body_start as int, end as int),
            s == v@.subrange(start as int, end as int),
            body == (if s.len() > 0 && s[0] == '+' {
                s.drop_first()
            } else {
                s
            }),
            body.len() > 0,
            forall|j: int| body_start <= j < i ==> is_digit(#[trigger] v@[j]),
            acc as nat == digits_value(body.subrange(0, i - body_start)),
            acc <= max,
        decreases end - i,
    {
        let c = v[i];
        if !('0' <= c && c <= '9') {
            proof {
                assert(body[i - body_start] == c);
                assert(!is_digit(body[i - body_start]));
            }
            return None;
        }
        let d = (c as u32 - '0' as u32) as u64;
        proof {
            lemma_digits_value_step(body, i - body_start);
            assert(body[i - body_start] == c);
        }
        if d > max || acc > (max - d) / 10 {
            proof {
                assert(acc * 10 + d > max) by (nonlinear_arith)
                    requires
                        d > max || acc > (max - d) / 10,
                ;
                let k = i - body_start + 1;
                assert forall|j: int| 0 <= j < k implies is_digit(#[trigger] body.subrange(0, k)[j]) by {
                    assert(body.subrange(0, k)[j] == v@[body_start + j]);
                }
                if all_digits(body) {
                    lemma_digits_value_monotone(body, k);
                }
            }
            return None;
        }
        assert(acc * 10 + d <= max) by (nonlinear_arith)
            requires
                acc <= (max - d) / 10,
                d <= max,
        ;
        acc = acc * 10 + d;
        i = i + 1;
    }
    proof {
        assert(body.subrange(0, body.len() as int) =~= body);
        assert forall|j: int| 0 <= j < body.len() implies is_digit(#[trigger] body[j]) by {
            assert(body[j] == v@[body_start + j]);
        }
    }
    Some(acc)
}

/// `str::to_ascii_lowercase` on a vector of characters.
pub fn lower_chars(v: &Vec<char>) -> (r: Vec<char>)
    ensures
        r@ == lower(v@),
{
    let mut r: Vec<char> = Vec::new();
    let mut i: usize = 0;
    while i < v.len()
        invariant
            i <= v@.len(),
            r@ == lower(v@.take(i as int)),
        decreases v@.len() - i,
    {
        let c = v[i];
        let l = if 'A' <= c && c <= 'Z' {
            ((c as u8) + 32) as char
        } else {
            c
        };
        r.push(l);
        i = i + 1;
        assert(r@ =~= lower(v@.take(i as int)));
    }
    assert(v@.take(v@.len() as int) =~= v@);
    r
}

/// Whether `v[start..end]` equals the characters of `lit`.
pub fn range_eq(v: &Vec<char>, start: usize, end: usize, lit: &str) -> (r: bool)
    requires
        start <= end <= v@.len(),
    ensures
        r == (v@.subrange(start as int, end as int) == lit@),
{
    let n = lit.unicode_len();
    if end - start != n {
        return false;
    }
    let mut i: usize = 0;
    while i < n
        invariant
            n == lit@.len(),
            end - start == n,
            start <= end <= v@.len(),
            i <= n,
            forall|j: int| 0 <= j < i ==> v@[start + j] == lit@[j],
        decreases n - i,
    {
        if v[start + i] != lit.get_char(i) {
            assert(v@.subrange(start as int, end as int)[i as int] != lit@[i as int]);
            return false;
        }
        i = i + 1;
    }
    assert(v@.subrange(start as int, end as int) =~= lit@);
    true
}

/// The characters of an optional string.
pub open spec fn opt_view(o: Option<String>) -> Option<Seq<char>> {
    match o {
        Some(s) => Some(s@),
        None => None,
    }
}

/// The characters of each string of a sequence.
pub open spec fn strings_view(v: Seq<String>) -> Seq<Seq<char>> {
    v.map_values(|s: String| s@)
}

/// A copy of `o`.
pub(crate) fn copy_opt(o: &Option<String>) -> (r: Option<String>)
    ensures
        r == *o,
{
    match o {
        Some(v) => Some(v.clone()),
        None => None,
    }
}

/// Equality of two optional strings by their characters.
pub fn opt_string_eq(a: &Option<String>, b: &Option<String>) -> (r: bool)
    ensures
        r == (opt_view(*a) == opt_view(*b)),
{
    match (a, b) {
        (Some(x), Some(y)) => *x == *y,
        (None, None) => true,
        _ => false,
    }
}

/// Equality of two string vectors by their characters.
pub fn strings_eq(a: &Vec<String>, b: &Vec<String>) -> (r: bool)
    ensures
        r == (strings_view(a@) == strings_view(b@)),
{
    if a.len() != b.len() {
        assert(strings_view(a@).len() != strings_view(b@).len());
        return false;
    }
    let mut i: usize = 0;
    while i < a.len()
        invariant
            i <= a@.len(),
            a@.len() == b@.len(),
            forall|j: int| 0 <= j < i ==> a@[j]@ == b@[j]@,
        decreases a@.len() - i,
    {
        if !(a[i] == b[i]) {
            assert(strings_view(a@)[i as int] != strings_view(b@)[i as int]);
            return false;
        }
        i = i + 1;
    }
    assert(strings_view(a@) =~= strings_view(b@));
    true
}

/// Whether the ASCII-lower-cased characters of `v` equal `lit`.
pub fn lower_eq(v: &Vec<char>, lit: &str) -> (r: bool)
    ensures
        r == (lower(v@) == lit@),
{
    let l = lower_chars(v);
    let r = range_eq(&l, 0, l.len(), lit);
    assert(l@.subrange(0, l@.len() as int) =~= l@);
    r
}

/// The pieces of `s` between occurrences of `c`, each trimmed, without the
/// empty ones: what `s.split(c).map(str::trim).filter(|p| !p.is_empty())`
/// yields.
pub open spec fn split_trim_nonempty(s: Seq<char>, c: char) -> Seq<Seq<char>>
    decreases s.len(),
{
    if exists|i: int| is_first(s, c, i) {
        let i = choose|i: int| is_first(s, c, i);
        let head = trim(s.subrange(0, i));
        let rest = split_trim_nonempty(s.subrange(i + 1, s.len() as int), c);
        if head.len() > 0 {
            seq![head] + rest
        } else {
            rest
        }
    } else {
        if trim(s).len() > 0 {
            seq![trim(s)]
        } else {
            seq![]
        }
    }
}

/// Split `s` at every `c`, trim the pieces and keep the non-empty ones.
pub fn split_trimmed(s: &str, c: char) -> (r: Vec<String>)
    ensures
        strings_view(r@) == split_trim_nonempty(s@, c),
{
    let v = chars_of(s);
    let n = v.len();
    let mut r: Vec<String> = Vec::new();
    let mut start: usize = 0;
    assert(v@.subrange(0, n as int) =~= s@);
    assert(strings_view(r@) + split_trim_nonempty(s@, c) =~= split_trim_nonempty(s@, c));
    loop
        invariant
            v@ == s@,
            n == v@.len(),
            start <= n,
            strings_view(r@) + split_trim_nonempty(v@.subrange(start as int, n as int), c)
                == split_trim_nonempty(s@, c),
        decreases n - start,
    {
        let ghost rest = v@.subrange(start as int, n as int);
        match find_char(&v, start, n, c) {
            Some(k) => {
                let (a, b) = trim_bounds(&v, start, start + k);
                proof {
                    let i = choose|i: int| is_first(rest, c, i);
                    assert(is_first(rest, c, k as int));
                    assert(i == k);
                    assert(rest.subrange(0, k as int) =~= v@.subrange(start as int, start + k));
                    assert(rest.subrange(k + 1, rest.len() as int) =~= v@.subrange(
                        start + k + 1,
                        n as int,
                    ));
                }
                if a < b {
                    let piece = string_of_range(s, a, b);
                    let ghost old_r = r@;
                    r.push(piece);
                    proof {
                        assert(strings_view(r@) =~= strings_view(old_r) + seq![piece@]);
                        let tail = split_trim_nonempty(v@.subrange(start + k + 1, n as int), c);
                        assert(strings_view(old_r) + (seq![piece@] + tail) =~= strings_view(r@)
                            + tail);
                    }
                }
                start = start + k + 1;
            },
            None => {
                let (a, b) = trim_bounds(&v, start, n);
                proof {
                    assert(!exists|i: int| is_first(rest, c, i));
                }
                if a < b {
                    let piece = string_of_range(s, a, b);
                    let ghost old_r = r@;
                    r.push(piece);
                    assert(strings_view(r@) =~= strings_view(old_r) + seq![piece@]);
                } else {
                    assert(strings_view(r@) + seq![] =~= strings_view(r@));
                }
                return r;
            },
        }
    }
}

/// A `String` holding the characters of `v`.
pub fn string_from_chars(v: &Vec<char>) -> (r: String)
    ensures
        r@ == v@,
{
    let mut r = String::new();
    let mut i: usize = 0;
    while i < v.len()
        invariant
            i <= v@.len(),
            r@ == v@.take(i as int),
        decreases v@.len() - i,
    {
        let c = v[i];
        let piece = char_string(c);
        r.append(piece.as_str());
        i = i + 1;
        assert(r@ =~= v@.take(i as int));
    }
    assert(v@.take(v@.len() as int) =~= v@);
    r
}

/// The one-character string `c`.
#[verifier::external_body]
pub(crate) fn char_string(c: char) -> (r: String)
    ensures
        r@ == seq![c],
{
    String::from(c)
}

/// Whether every character of `s` is ASCII.
pub open spec fn is_ascii_seq(s: Seq<char>) -> bool {
    forall|i: int| 0 <= i < s.len() ==> (#[trigger] s[i] as u32) < 128
}

/// The pieces of `s` between occurrences of `c` (what `str::split` yields),
/// each trimmed when `t` holds.
pub open spec fn split_map(s: Seq<char>, c: char, t: bool) -> Seq<Seq<char>>
    decreases s.len(),
{
    if exists|i: int| is_first(s, c, i) {
        let i = choose|i: int| is_first(s, c, i);
        let head = if t {
            trim(s.subrange(0, i))
        } else {
            s.subrange(0, i)
        };
        seq![head] + split_map(s.subrange(i + 1, s.len() as int), c, t)
    } else {
        seq![if t {
            trim(s)
        } else {
            s
        }]
    }
}

/// Split `s` at every `c`, trimming the pieces when `t` holds.
pub fn split_pieces(s: &str, c: char, t: bool) -> (r: Vec<String>)
    ensures
        strings_view(r@) == split_map(s@, c, t),
{
    let v = chars_of(s);
    let n = v.len();
    let mut r: Vec<String> = Vec::new();
    let mut start: usize = 0;
    assert(v@.subrange(0, n as int) =~= s@);
    assert(strings_view(r@) + split_map(s@, c, t) =~= split_map(s@, c, t));
    loop
        invariant
            v@ == s@,
            n == v@.len(),
            start <= n,
            strings_view(r@) + split_map(v@.subrange(start as int, n as int), c, t) == split_map(
                s@,
                c,
                t,
            ),
        decreases n - start,
    {
        let ghost rest = v@.subrange(start as int, n as int);
        let found = find_char(&v, start, n, c);
        let end = match found {
            Some(k) => start + k,
            None => n,
        };
        let (a, b) = if t {
            trim_bounds(&v, start, end)
        } else {
            (start, end)
        };
        let piece = string_of_range(s, a, b);
        let ghost old_r = r@;
        r.push(piece);
        match found {
            Some(k) => {
                proof {
                    let i = choose|i: int| is_first(rest, c, i);
                    assert(is_first(rest, c, k as int));
                    assert(i == k);
                    assert(rest.subrange(0, k as int) =~= v@.subrange(start as int, end as int));
                    assert(rest.subrange(k + 1, rest.len() as int) =~= v@.subrange(
                        end + 1,
                        n as int,
                    ));
                    let tail = split_map(v@.subrange(end + 1, n as int), c, t);
                    assert(strings_view(r@) =~= strings_view(old_r) + seq![piece@]);
                    assert(strings_view(old_r) + (seq![piece@] + tail) =~= strings_view(r@)
                        + tail);
                }
                start = end + 1;
            },
            None => {
                proof {
                    assert(!exists|i: int| is_first(rest, c, i));
                    assert(strings_view(r@) =~= strings_view(old_r) + seq![piece@]);
                }
                return r;
            },
        }
    }
}

} // verus!
