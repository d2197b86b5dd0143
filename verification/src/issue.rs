//! The issue text shown above the prompt: the escapes of `/etc/issue`
//! replaced by what they stand for.
use vstd::prelude::*;

use crate::config::validate::{decimal, decimal_string};
use crate::text::{chars_of, parse_unsigned, parse_unsigned_range, string_from_chars};

verus! {

/// `s` with every occurrence of `pat` replaced by `rep`, left to right and
/// without overlaps, as `str::replace` does for a non-empty pattern.
pub open spec fn replace_all(s: Seq<char>, pat: Seq<char>, rep: Seq<char>) -> Seq<char>
    decreases s.len(),
{
    if pat.len() == 0 || s.len() == 0 {
        s
    } else if s.len() >= pat.len() && s.take(pat.len() as int) == pat {
        rep + replace_all(s.skip(pat.len() as int), pat, rep)
    } else {
        seq![s[0]] + replace_all(s.drop_first(), pat, rep)
    }
}

/// Whether `pat` occurs in `v` at index `i`.
fn matches_at(v: &Vec<char>, i: usize, pat: &Vec<char>) -> (r: bool)
    requires
        i <= v@.len(),
    ensures
        r == (v@.len() - i >= pat@.len() && v@.skip(i as int).take(pat@.len() as int) == pat@),
{
    if v.len() - i < pat.len() {
        return false;
    }
    let mut k: usize = 0;
    while k < pat.len()
        invariant
            i <= v@.len(),
            i + pat@.len() <= v@.len(),
            v@.len() <= usize::MAX,
            k <= pat@.len(),
            forall|j: int| 0 <= j < k ==> v@[i + j] == pat@[j],
        decreases pat@.len() - k,
    {
        if v[i + k] != pat[k] {
            assert(v@.skip(i as int).take(pat@.len() as int)[k as int] != pat@[k as int]);
            return false;
        }
        k = k + 1;
    }
    assert(v@.skip(i as int).take(pat@.len() as int) =~= pat@);
    true
}

/// `s` with every `pat` replaced by `rep`, as `str::replace` does.
pub fn replace_str(s: &str, pat: &str, rep: &str) -> (r: String)
    requires
        pat@.len() > 0,
    ensures
        r@ == replace_all(s@, pat@, rep@),
{
    let v = chars_of(s);
    let p = chars_of(pat);
    let rv = chars_of(rep);
    let mut out: Vec<char> = Vec::new();
    let mut i: usize = 0;
    assert(v@.skip(0) =~= v@);
    assert(out@ + replace_all(v@.skip(0), p@, rv@) =~= replace_all(v@, p@, rv@));
    while i < v.len()
        invariant
            p@ == pat@,
            p@.len() > 0,
            i <= v@.len(),
            v@ == s@,
            out@ + replace_all(v@.skip(i as int), p@, rv@) == replace_all(v@, p@, rv@),
        decreases v@.len() - i,
    {
        let ghost before = out@;
        let ghost rest = v@.skip(i as int);
        if matches_at(&v, i, &p) {
            let mut k: usize = 0;
            while k < rv.len()
                invariant
                    k <= rv@.len(),
                    out@ == before + rv@.take(k as int),
                decreases rv@.len() - k,
            {
                out.push(rv[k]);
                k = k + 1;
                assert(out@ =~= before + rv@.take(k as int));
            }
            proof {
                assert(rv@.take(rv@.len() as int) =~= rv@);
                assert(rest.skip(p@.len() as int) =~= v@.skip(i + p@.len()));
                assert(before + (rv@ + replace_all(rest.skip(p@.len() as int), p@, rv@)) =~= out@
                    + replace_all(v@.skip(i + p@.len()), p@, rv@));
            }
            i = i + p.len();
        } else {
            out.push(v[i]);
            proof {
                assert(rest[0] == v@[i as int]);
                assert(rest.drop_first() =~= v@.skip(i + 1));
                assert(before + (seq![rest[0]] + replace_all(rest.drop_first(), p@, rv@)) =~= out@
                    + replace_all(v@.skip(i + 1), p@, rv@));
            }
            i = i + 1;
        }
    }
    proof {
        assert(v@.skip(i as int) =~= Seq::<char>::empty());
        assert(out@ + Seq::<char>::empty() =~= out@);
    }
    string_from_chars(&out)
}

/// What the system reports of itself for the issue escapes.
#[derive(Debug, Clone)]
pub struct UtsName {
    pub sysname: String,
    pub release: String,
    pub version: String,
    pub nodename: String,
    pub machine: String,
    pub domainname: String,
}

/// Kinds of login records, as far as counting users goes.
#[derive(Debug, Clone, Copy, PartialEq, Eq, Structural)]
pub enum LoginRecord {
    /// A user process.
    User,
    /// A login process.
    Login,
    /// Anything else, or a record that did not parse.
    Other,
}

/// Number of user and login processes among the records `r`.
pub open spec fn count_logins(r: Seq<LoginRecord>) -> nat
    decreases r.len(),
{
    if r.len() == 0 {
        0
    } else {
        count_logins(r.drop_last()) + if r.last() == LoginRecord::Other {
            0nat
        } else {
            1nat
        }
    }
}

/// Number of user and login processes among the login records.
pub fn count_users(records: &Vec<LoginRecord>) -> (r: u64)
    requires
        records@.len() < u64::MAX,
    ensures
        r == count_logins(records@),
{
    let mut n: u64 = 0;
    let mut i: usize = 0;
    while i < records.len()
        invariant
            i <= records@.len(),
            records@.len() < u64::MAX,
            n == count_logins(records@.take(i as int)),
            n <= i,
        decreases records@.len() - i,
    {
        assert(records@.take(i + 1).drop_last() =~= records@.take(i as int));
        if records[i] != LoginRecord::Other {
            n = n + 1;
        }
        i = i + 1;
    }
    assert(records@.take(records@.len() as int) =~= records@);
    n
}

/// The `\U` text: the number of users, then ` user` for fewer than two and
/// ` users` otherwise.
pub open spec fn users_text(n: nat) -> Seq<char> {
    decimal(n) + if n < 2 {
        " user"@
    } else {
        " users"@
    }
}

/// The virtual terminal number that `XDG_VTNR` holds, 0 when it is unset or
/// not a number.
pub open spec fn spec_vtnr(var: Option<Seq<char>>) -> nat {
    match var {
        Some(v) => match parse_unsigned(v, usize::MAX as nat) {
            Some(n) => n,
            None => 0,
        },
        None => 0,
    }
}

/// The issue text `issue` with its escapes replaced, in this order: `\S`,
/// `\l`, `\d`, `\t`, `\U`, then with the system's names `\s`, `\r`, `\v`,
/// `\n`, `\m`, `\o`, then `\x1b`, `\033` and `\e` by the escape character
/// and `\\` by a backslash.
pub open spec fn spec_issue(
    issue: Seq<char>,
    date: Seq<char>,
    time: Seq<char>,
    users: nat,
    vtnr: nat,
    uts: Option<(Seq<char>, Seq<char>, Seq<char>, Seq<char>, Seq<char>, Seq<char>)>,
) -> Seq<char> {
    let a = replace_all(issue, "\\S"@, "Linux"@);
    let b = replace_all(a, "\\l"@, "tty"@ + decimal(vtnr));
    let c = replace_all(b, "\\d"@, date);
    let d = replace_all(c, "\\t"@, time);
    let e = replace_all(d, "\\U"@, users_text(users));
    let f = match uts {
        Some(u) => replace_all(
            replace_all(
                replace_all(
                    replace_all(replace_all(replace_all(e, "\\s"@, u.0), "\\r"@, u.1), "\\v"@, u.2),
                    "\\n"@,
                    u.3,
                ),
                "\\m"@,
                u.4,
            ),
            "\\o"@,
            u.5,
        ),
        None => e,
    };
    replace_all(
        replace_all(replace_all(replace_all(f, "\\x1b"@, "\x1b"@), "\\033"@, "\x1b"@), "\\e"@, "\x1b"@),
        "\\\\"@,
        "\\"@,
    )
}

/// The system names as text.
pub open spec fn uts_view(u: Option<UtsName>) -> Option<(Seq<char>, Seq<char>, Seq<char>, Seq<char>, Seq<char>, Seq<char>)> {
    match u {
        Some(x) => Some((x.sysname@, x.release@, x.version@, x.nodename@, x.machine@, x.domainname@)),
        None => None,
    }
}

/// The issue to show: the contents of the issue file (none when it could not
/// be read) with its escapes replaced, given the date and time texts, the
/// login records, the value of `XDG_VTNR` and the system's names (none when
/// they could not be read).
pub fn get_issue(
    issue: &Option<String>,
    date: &str,
    time: &str,
    records: &Vec<LoginRecord>,
    vtnr_var: &Option<String>,
    uts: &Option<UtsName>,
) -> (r: Option<String>)
    requires
        records@.len() < u64::MAX,
    ensures
        match issue {
            Some(text) => r matches Some(x) && x@ == spec_issue(
                text@,
                date@,
                time@,
                count_logins(records@),
                spec_vtnr(crate::text::opt_view(*vtnr_var)),
                uts_view(*uts),
            ),
            None => r.is_none(),
        },
{
    let text = match issue {
        Some(t) => t,
        None => {
            return None;
        },
    };
    let users = count_users(records);
    let mut users_s = decimal_string(users);
    if users < 2 {
        users_s.append(" user");
    } else {
        users_s.append(" users");
    }
    let vtnr: u64 = match vtnr_var {
        Some(v) => {
            let c = chars_of(v.as_str());
            assert(c@.subrange(0, c@.len() as int) =~= c@);
            match parse_unsigned_range(&c, 0, c.len(), usize::MAX as u64) {
                Some(n) => n,
                None => 0,
            }
        },
        None => 0,
    };
    let mut tty = String::from_str("tty");
    let num = decimal_string(vtnr);
    tty.append(num.as_str());
    proof {
        reveal_strlit("\\S");
        reveal_strlit("\\l");
        reveal_strlit("\\d");
        reveal_strlit("\\t");
        reveal_strlit("\\U");
        reveal_strlit("\\s");
        reveal_strlit("\\r");
        reveal_strlit("\\v");
        reveal_strlit("\\n");
        reveal_strlit("\\m");
        reveal_strlit("\\o");
        reveal_strlit("\\x1b");
        reveal_strlit("\\033");
        reveal_strlit("\\e");
        reveal_strlit("\\\\");
    }
    let a = replace_str(text.as_str(), "\\S", "Linux");
    let b = replace_str(a.as_str(), "\\l", tty.as_str());
    let c = replace_str(b.as_str(), "\\d", date);
    let d = replace_str(c.as_str(), "\\t", time);
    let e = replace_str(d.as_str(), "\\U", users_s.as_str());
    let f = match uts {
        Some(u) => {
            let s1 = replace_str(e.as_str(), "\\s", u.sysname.as_str());
            let s2 = replace_str(s1.as_str(), "\\r", u.release.as_str());
            let s3 = replace_str(s2.as_str(), "\\v", u.version.as_str());
            let s4 = replace_str(s3.as_str(), "\\n", u.nodename.as_str());
            let s5 = replace_str(s4.as_str(), "\\m", u.machine.as_str());
            replace_str(s5.as_str(), "\\o", u.domainname.as_str())
        },
        None => e,
    };
    let g = replace_str(f.as_str(), "\\x1b", "\x1b");
    let h = replace_str(g.as_str(), "\\033", "\x1b");
    let k = replace_str(h.as_str(), "\\e", "\x1b");
    Some(replace_str(k.as_str(), "\\\\", "\\"))
}

} // verus!

verus! {

/// Whether `s` holds no backslash.
pub open spec fn no_backslash(s: Seq<char>) -> bool {
    forall|k: int| 0 <= k < s.len() ==> s[k] != '\\'
}

/// Replacing a backslash escape `pat` in a text without backslashes leaves
/// it as it is.
proof fn lemma_replace_plain(s: Seq<char>, pat: Seq<char>, rep: Seq<char>)
    requires
        pat.len() >= 2,
        pat[0] == '\\',
        no_backslash(s),
    ensures
        replace_all(s, pat, rep) == s,
    decreases s.len(),
{
    if s.len() > 0 {
        if s.len() >= pat.len() {
            assert(s.take(pat.len() as int)[0] == s[0]);
            assert(s.take(pat.len() as int) != pat);
        }
        assert(no_backslash(s.drop_first()));
        lemma_replace_plain(s.drop_first(), pat, rep);
        assert(seq![s[0]] + s.drop_first() =~= s);
    }
}

/// Replacing a backslash escape `pat` in the lone escape `s` gives `rep`
/// when `s` is that escape, and leaves `s` otherwise.
proof fn lemma_replace_escape(s: Seq<char>, pat: Seq<char>, rep: Seq<char>)
    requires
        pat.len() >= 2,
        pat[0] == '\\',
        s.len() == 2,
        s[0] == '\\',
        s[1] != '\\',
    ensures
        replace_all(s, pat, rep) == if s == pat {
            rep
        } else {
            s
        },
{
    let t = seq![s[1]];
    assert(no_backslash(t));
    lemma_replace_plain(t, pat, rep);
    assert(s.drop_first() =~= t);
    if s == pat {
        assert(s.take(pat.len() as int) =~= s);
        assert(s.skip(pat.len() as int) =~= Seq::<char>::empty());
        assert(replace_all(Seq::<char>::empty(), pat, rep) == Seq::<char>::empty());
        assert(rep + Seq::<char>::empty() =~= rep);
        assert(replace_all(s, pat, rep) == rep + replace_all(s.skip(pat.len() as int), pat, rep));
    } else {
        if s.len() >= pat.len() {
            assert(pat.len() == 2);
            assert(s.take(pat.len() as int) =~= s);
        }
        assert(replace_all(s, pat, rep) == seq![s[0]] + replace_all(s.drop_first(), pat, rep));
        assert(seq![s[0]] + t =~= s);
    }
}

/// The issue `i`, a lone escape, through the replacements of
/// [`spec_issue`]: each escape gives its value, provided that value holds
/// no backslash.
proof fn lemma_escape_chain(
    c: char,
    date: Seq<char>,
    time: Seq<char>,
    users: nat,
    vtnr: nat,
    u: (Seq<char>, Seq<char>, Seq<char>, Seq<char>, Seq<char>, Seq<char>),
    value: Seq<char>,
)
    requires
        no_backslash(value),
        c == 'S' ==> value == "Linux"@,
        c == 'l' ==> value == "tty"@ + decimal(vtnr),
        c == 'd' ==> value == date,
        c == 't' ==> value == time,
        c == 'U' ==> value == users_text(users),
        c == 's' ==> value == u.0,
        c == 'r' ==> value == u.1,
        c == 'v' ==> value == u.2,
        c == 'n' ==> value == u.3,
        c == 'm' ==> value == u.4,
        c == 'o' ==> value == u.5,
        c == 'S' || c == 'l' || c == 'd' || c == 't' || c == 'U' || c == 's' || c == 'r' || c == 'v'
            || c == 'n' || c == 'm' || c == 'o',
    ensures
        spec_issue(seq!['\\', c], date, time, users, vtnr, Some(u)) == value,
{
    reveal_strlit("\\S");
    reveal_strlit("\\l");
    reveal_strlit("\\d");
    reveal_strlit("\\t");
    reveal_strlit("\\U");
    reveal_strlit("\\s");
    reveal_strlit("\\r");
    reveal_strlit("\\v");
    reveal_strlit("\\n");
    reveal_strlit("\\m");
    reveal_strlit("\\o");
    reveal_strlit("\\x1b");
    reveal_strlit("\\033");
    reveal_strlit("\\e");
    reveal_strlit("\\\\");
    let i = seq!['\\', c];
    let mut cur = i;
    let mut done = false;
    if done {
        lemma_replace_plain(cur, "\\S"@, "Linux"@);
    } else {
        lemma_replace_escape(cur, "\\S"@, "Linux"@);
        assert((cur == "\\S"@) == (c == 'S')) by {
            if c == 'S' {
                assert(cur =~= "\\S"@);
            } else {
                assert(cur[1] != "\\S"@[1]);
            }
        }
        if c == 'S' {
            done = true;
        }
    }
    cur = replace_all(cur, "\\S"@, "Linux"@);
    assert(cur == if done { value } else { i });
    if done {
        lemma_replace_plain(cur, "\\l"@, "tty"@ + decimal(vtnr));
    } else {
        lemma_replace_escape(cur, "\\l"@, "tty"@ + decimal(vtnr));
        assert((cur == "\\l"@) == (c == 'l')) by {
            if c == 'l' {
                assert(cur =~= "\\l"@);
            } else {
                assert(cur[1] != "\\l"@[1]);
            }
        }
        if c == 'l' {
            done = true;
        }
    }
    cur = replace_all(cur, "\\l"@, "tty"@ + decimal(vtnr));
    assert(cur == if done { value } else { i });
    if done {
        lemma_replace_plain(cur, "\\d"@, date);
    } else {
        lemma_replace_escape(cur, "\\d"@, date);
        assert((cur == "\\d"@) == (c == 'd')) by {
            if c == 'd' {
                assert(cur =~= "\\d"@);
            } else {
                assert(cur[1] != "\\d"@[1]);
            }
        }
        if c == 'd' {
            done = true;
        }
    }
    cur = replace_all(cur, "\\d"@, date);
    assert(cur == if done { value } else { i });
    if done {
        lemma_replace_plain(cur, "\\t"@, time);
    } else {
        lemma_replace_escape(cur, "\\t"@, time);
        assert((cur == "\\t"@) == (c == 't')) by {
            if c == 't' {
                assert(cur =~= "\\t"@);
            } else {
                assert(cur[1] != "\\t"@[1]);
            }
        }
        if c == 't' {
            done = true;
        }
    }
    cur = replace_all(cur, "\\t"@, time);
    assert(cur == if done { value } else { i });
    if done {
        lemma_replace_plain(cur, "\\U"@, users_text(users));
    } else {
        lemma_replace_escape(cur, "\\U"@, users_text(users));
        assert((cur == "\\U"@) == (c == 'U')) by {
            if c == 'U' {
                assert(cur =~= "\\U"@);
            } else {
                assert(cur[1] != "\\U"@[1]);
            }
        }
        if c == 'U' {
            done = true;
        }
    }
    cur = replace_all(cur, "\\U"@, users_text(users));
    assert(cur == if done { value } else { i });
    if done {
        lemma_replace_plain(cur, "\\s"@, u.0);
    } else {
        lemma_replace_escape(cur, "\\s"@, u.0);
        assert((cur == "\\s"@) == (c == 's')) by {
            if c == 's' {
                assert(cur =~= "\\s"@);
            } else {
                assert(cur[1] != "\\s"@[1]);
            }
        }
        if c == 's' {
            done = true;
        }
    }
    cur = replace_all(cur, "\\s"@, u.0);
    assert(cur == if done { value } else { i });
    if done {
        lemma_replace_plain(cur, "\\r"@, u.1);
    } else {
        lemma_replace_escape(cur, "\\r"@, u.1);
        assert((cur == "\\r"@) == (c == 'r')) by {
            if c == 'r' {
                assert(cur =~= "\\r"@);
            } else {
                assert(cur[1] != "\\r"@[1]);
            }
        }
        if c == 'r' {
            done = true;
        }
    }
    cur = replace_all(cur, "\\r"@, u.1);
    assert(cur == if done { value } else { i });
    if done {
        lemma_replace_plain(cur, "\\v"@, u.2);
    } else {
        lemma_replace_escape(cur, "\\v"@, u.2);
        assert((cur == "\\v"@) == (c == 'v')) by {
            if c == 'v' {
                assert(cur =~= "\\v"@);
            } else {
                assert(cur[1] != "\\v"@[1]);
            }
        }
        if c == 'v' {
            done = true;
        }
    }
    cur = replace_all(cur, "\\v"@, u.2);
    assert(cur == if done { value } else { i });
    if done {
        lemma_replace_plain(cur, "\\n"@, u.3);
    } else {
        lemma_replace_escape(cur, "\\n"@, u.3);
        assert((cur == "\\n"@) == (c == 'n')) by {
            if c == 'n' {
                assert(cur =~= "\\n"@);
            } else {
                assert(cur[1] != "\\n"@[1]);
            }
        }
        if c == 'n' {
            done = true;
        }
    }
    cur = replace_all(cur, "\\n"@, u.3);
    assert(cur == if done { value } else { i });
    if done {
        lemma_replace_plain(cur, "\\m"@, u.4);
    } else {
        lemma_replace_escape(cur, "\\m"@, u.4);
        assert((cur == "\\m"@) == (c == 'm')) by {
            if c == 'm' {
                assert(cur =~= "\\m"@);
            } else {
                assert(cur[1] != "\\m"@[1]);
            }
        }
        if c == 'm' {
            done = true;
        }
    }
    cur = replace_all(cur, "\\m"@, u.4);
    assert(cur == if done { value } else { i });
    if done {
        lemma_replace_plain(cur, "\\o"@, u.5);
    } else {
        lemma_replace_escape(cur, "\\o"@, u.5);
        assert((cur == "\\o"@) == (c == 'o')) by {
            if c == 'o' {
                assert(cur =~= "\\o"@);
            } else {
                assert(cur[1] != "\\o"@[1]);
            }
        }
        if c == 'o' {
            done = true;
        }
    }
    cur = replace_all(cur, "\\o"@, u.5);
    assert(cur == if done { value } else { i });
    assert(done);
    assert(cur == value);
    lemma_replace_plain(cur, "\\x1b"@, "\x1b"@);
    lemma_replace_plain(cur, "\\033"@, "\x1b"@);
    lemma_replace_plain(cur, "\\e"@, "\x1b"@);
    lemma_replace_plain(cur, "\\\\"@, "\\"@);
}

/// Each escape of the issue file stands for its own value: `\S` for
/// `Linux`, `\l` for the terminal `tty<N>`, `\d` for the date, `\t` for the
/// time, `\U` for the count of users, and `\s`, `\r`, `\v`, `\n`, `\m`, `\o`
/// for the system's name, release, version, node name, machine and domain
/// name as uname reports them. An issue that is just one escape shows that
/// value, and nothing else, whenever the value holds no backslash.
pub proof fn lemma_issue_escapes(
    date: Seq<char>,
    time: Seq<char>,
    users: nat,
    vtnr: nat,
    uts: UtsName,
)
    ensures
        spec_issue("\\S"@, date, time, users, vtnr, uts_view(Some(uts))) == "Linux"@,
        spec_issue("\\l"@, date, time, users, vtnr, uts_view(Some(uts))) == "tty"@ + decimal(vtnr),
        no_backslash(date) ==> spec_issue("\\d"@, date, time, users, vtnr, uts_view(Some(uts))) == date,
        no_backslash(time) ==> spec_issue("\\t"@, date, time, users, vtnr, uts_view(Some(uts))) == time,
        spec_issue("\\U"@, date, time, users, vtnr, uts_view(Some(uts))) == users_text(users),
        no_backslash(uts.sysname@) ==> spec_issue("\\s"@, date, time, users, vtnr, uts_view(Some(uts)))
            == uts.sysname@,
        no_backslash(uts.release@) ==> spec_issue("\\r"@, date, time, users, vtnr, uts_view(Some(uts)))
            == uts.release@,
        no_backslash(uts.version@) ==> spec_issue("\\v"@, date, time, users, vtnr, uts_view(Some(uts)))
            == uts.version@,
        no_backslash(uts.nodename@) ==> spec_issue("\\n"@, date, time, users, vtnr, uts_view(Some(uts)))
            == uts.nodename@,
        no_backslash(uts.machine@) ==> spec_issue("\\m"@, date, time, users, vtnr, uts_view(Some(uts)))
            == uts.machine@,
        no_backslash(uts.domainname@) ==> spec_issue("\\o"@, date, time, users, vtnr, uts_view(Some(uts)))
            == uts.domainname@,
{
    reveal_strlit("\\S");
    reveal_strlit("\\l");
    reveal_strlit("\\d");
    reveal_strlit("\\t");
    reveal_strlit("\\U");
    reveal_strlit("\\s");
    reveal_strlit("\\r");
    reveal_strlit("\\v");
    reveal_strlit("\\n");
    reveal_strlit("\\m");
    reveal_strlit("\\o");
    reveal_strlit("Linux");
    reveal_strlit("tty");
    reveal_strlit(" user");
    reveal_strlit(" users");
    let u = (uts.sysname@, uts.release@, uts.version@, uts.nodename@, uts.machine@, uts.domainname@);
    crate::output::lemma_decimal_digits(vtnr);
    crate::output::lemma_decimal_digits(users);
    let tty = "tty"@ + decimal(vtnr);
    assert(no_backslash(tty)) by {
        assert forall|k: int| 0 <= k < tty.len() implies tty[k] != '\\' by {
            if k >= 3 {
                assert(tty[k] == decimal(vtnr)[k - 3]);
                assert(crate::text::is_digit(decimal(vtnr)[k - 3]));
            }
        }
    }
    let ut = users_text(users);
    assert(no_backslash(ut)) by {
        let dn = decimal(users);
        assert forall|k: int| 0 <= k < ut.len() implies ut[k] != '\\' by {
            if k < dn.len() {
                assert(ut[k] == dn[k]);
                assert(crate::text::is_digit(dn[k]));
            }
        }
    }
    assert("\\S"@ == seq!['\\', 'S']);
        lemma_escape_chain('S', date, time, users, vtnr, u, "Linux"@);
    assert("\\l"@ == seq!['\\', 'l']);
        lemma_escape_chain('l', date, time, users, vtnr, u, tty);
    assert("\\U"@ == seq!['\\', 'U']);
        lemma_escape_chain('U', date, time, users, vtnr, u, ut);
    if no_backslash(date) {
        assert("\\d"@ == seq!['\\', 'd']);
        lemma_escape_chain('d', date, time, users, vtnr, u, date);
    }
    if no_backslash(time) {
        assert("\\t"@ == seq!['\\', 't']);
        lemma_escape_chain('t', date, time, users, vtnr, u, time);
    }
    if no_backslash(u.0) {
        assert("\\s"@ == seq!['\\', 's']);
        lemma_escape_chain('s', date, time, users, vtnr, u, u.0);
    }
    if no_backslash(u.1) {
        assert("\\r"@ == seq!['\\', 'r']);
        lemma_escape_chain('r', date, time, users, vtnr, u, u.1);
    }
    if no_backslash(u.2) {
        assert("\\v"@ == seq!['\\', 'v']);
        lemma_escape_chain('v', date, time, users, vtnr, u, u.2);
    }
    if no_backslash(u.3) {
        assert("\\n"@ == seq!['\\', 'n']);
        lemma_escape_chain('n', date, time, users, vtnr, u, u.3);
    }
    if no_backslash(u.4) {
        assert("\\m"@ == seq!['\\', 'm']);
        lemma_escape_chain('m', date, time, users, vtnr, u, u.4);
    }
    if no_backslash(u.5) {
        assert("\\o"@ == seq!['\\', 'o']);
        lemma_escape_chain('o', date, time, users, vtnr, u, u.5);
    }
}

} // verus!
