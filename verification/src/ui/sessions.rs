//! Sessions: what can be launched after logging in, and how the one to launch
//! is chosen.
use vstd::prelude::*;

use crate::output::{seq_le, seq_le_exec};
use crate::text::chars_of;

verus! {

/// The display server a session runs under.
#[derive(Debug, Clone, Copy, PartialEq, Eq, Structural)]
pub enum SessionType {
    X11,
    Wayland,
    /// A command run on the console, with no display server.
    Console,
}

/// A session found in a desktop entry.
#[derive(Debug, Clone)]
pub struct Session {
    /// File stem of the desktop entry.
    pub slug: Option<String>,
    /// Display name.
    pub name: String,
    /// Command that starts the session.
    pub command: String,
    pub session_type: SessionType,
    /// Path of the desktop entry.
    pub path: Option<String>,
    /// Value of `DesktopNames`.
    pub xdg_desktop_names: Option<String>,
}

/// Where the session to launch comes from.
#[derive(Debug, Clone)]
pub enum SessionSource {
    /// Nothing chosen yet.
    Unselected,
    /// The command given on the command line, with its environment.
    DefaultCommand(String, Option<Vec<String>>),
    /// A command typed in, or remembered from a previous run.
    Command(String),
    /// The session at this index of the session menu.
    Session(usize),
}

/// Mathematical view of a [`SessionSource`].
pub enum SourceView {
    Unselected,
    DefaultCommand(Seq<char>, Option<Seq<Seq<char>>>),
    Command(Seq<char>),
    Session(int),
}

impl View for SessionSource {
    type V = SourceView;

    open spec fn view(&self) -> SourceView {
        match self {
            SessionSource::Unselected => SourceView::Unselected,
            SessionSource::DefaultCommand(c, e) => SourceView::DefaultCommand(
                c@,
                match e {
                    Some(v) => Some(crate::text::strings_view(v@)),
                    None => None,
                },
            ),
            SessionSource::Command(c) => SourceView::Command(c@),
            SessionSource::Session(i) => SourceView::Session(*i as int),
        }
    }
}

/// The index of the first session of `s` whose desktop entry is `path`.
pub open spec fn first_path_index(s: Seq<Session>, path: Seq<char>) -> Option<int>
    decreases s.len(),
{
    if s.len() == 0 {
        None
    } else if crate::text::opt_view(s[0].path) == Some(path) {
        Some(0)
    } else {
        match first_path_index(s.drop_first(), path) {
            Some(i) => Some(i + 1),
            None => None,
        }
    }
}

/// The index of the first session of `s` whose desktop entry is `path`.
pub fn position_of_path(s: &Vec<Session>, path: &str) -> (r: Option<usize>)
    ensures
        match r {
            Some(i) => first_path_index(s@, path@) == Some(i as int) && i < s@.len(),
            None => first_path_index(s@, path@).is_none(),
        },
{
    let mut i: usize = 0;
    assert(s@.skip(0) =~= s@);
    while i < s.len()
        invariant
            i <= s@.len(),
            first_path_index(s@, path@) == match first_path_index(s@.skip(i as int), path@) {
                Some(k) => Some(k + i),
                None => None,
            },
        decreases s@.len() - i,
    {
        proof {
            assert(s@.skip(i as int)[0] == s@[i as int]);
            assert(s@.skip(i as int).drop_first() =~= s@.skip(i + 1));
        }
        let hit = match &s[i].path {
            Some(p) => {
                let v = crate::text::chars_of(p.as_str());
                assert(v@.subrange(0, v@.len() as int) =~= v@);
                crate::text::range_eq(&v, 0, v.len(), path)
            },
            None => false,
        };
        if hit {
            return Some(i);
        }
        i = i + 1;
    }
    None
}


/// `x` inserted into `s` after the last session whose name sorts no later
/// than its name.
pub open spec fn insert_by_name(s: Seq<Session>, x: Session) -> Seq<Session>
    decreases s.len(),
{
    if s.len() == 0 {
        seq![x]
    } else if seq_le(s.last().name@, x.name@) {
        s.push(x)
    } else {
        insert_by_name(s.drop_last(), x).push(s.last())
    }
}

/// Stable sort of `s` by name, characters compared by code point (which is
/// the byte order of their UTF-8 encoding).
pub open spec fn sort_by_name(s: Seq<Session>) -> Seq<Session>
    decreases s.len(),
{
    if s.len() == 0 {
        seq![]
    } else {
        insert_by_name(sort_by_name(s.drop_last()), s.last())
    }
}

proof fn lemma_insert_by_name_split(s: Seq<Session>, x: Session, k: int)
    requires
        0 <= k <= s.len(),
        k == 0 || seq_le(s[k - 1].name@, x.name@),
        forall|j: int| k <= j < s.len() ==> !seq_le(#[trigger] s[j].name@, x.name@),
    ensures
        insert_by_name(s, x) == s.subrange(0, k).push(x) + s.subrange(k, s.len() as int),
    decreases s.len(),
{
    if s.len() == 0 {
        assert(s.subrange(0, k).push(x) + s.subrange(k, s.len() as int) =~= seq![x]);
    } else if k == s.len() {
        assert(s.subrange(0, k) =~= s);
        assert(s.push(x) + s.subrange(k, s.len() as int) =~= s.push(x));
    } else {
        assert(!seq_le(s[s.len() - 1].name@, x.name@));
        let t = s.drop_last();
        assert forall|j: int| k <= j < t.len() implies !seq_le(#[trigger] t[j].name@, x.name@) by {
            assert(t[j] == s[j]);
        }
        if k > 0 {
            assert(t[k - 1] == s[k - 1]);
        }
        lemma_insert_by_name_split(t, x, k);
        assert(t.subrange(0, k) =~= s.subrange(0, k));
        assert((t.subrange(0, k).push(x) + t.subrange(k, t.len() as int)).push(s.last())
            =~= s.subrange(0, k).push(x) + s.subrange(k, s.len() as int));
    }
}

fn insert_session(v: &mut Vec<Session>, x: Session)
    ensures
        final(v)@ == insert_by_name(old(v)@, x),
{
    let ghost s = v@;
    let xn = chars_of(x.name.as_str());
    let mut k = v.len();
    while k > 0 && !seq_le_exec(&chars_of(v[k - 1].name.as_str()), &xn)
        invariant
            k <= v@.len(),
            s == v@,
            xn@ == x.name@,
            forall|j: int| k <= j < s.len() ==> !seq_le(#[trigger] s[j].name@, x.name@),
        decreases k,
    {
        k = k - 1;
    }
    proof {
        lemma_insert_by_name_split(s, x, k as int);
    }
    v.insert(k, x);
    assert(v@ =~= s.subrange(0, k as int).push(x) + s.subrange(k as int, s.len() as int));
}

/// The sessions `v` sorted by name; sessions with equal names keep their
/// order.
pub fn sort_sessions(v: Vec<Session>) -> (r: Vec<Session>)
    ensures
        r@ == sort_by_name(v@),
{
    let mut out: Vec<Session> = Vec::new();
    let mut rest = v;
    let ghost all = rest@;
    assert(all.skip(0) =~= all);
    while rest.len() > 0
        invariant
            rest@.len() <= all.len(),
            rest@ == all.skip(all.len() - rest@.len()),
            out@ == sort_by_name(all.take(all.len() - rest@.len())),
        decreases rest@.len(),
    {
        let ghost i = all.len() - rest@.len();
        let x = rest.remove(0);
        proof {
            assert(x == all[i]);
            assert(all.take(i + 1).drop_last() =~= all.take(i));
            assert(rest@ =~= all.skip(i + 1));
        }
        insert_session(&mut out, x);
    }
    assert(all.take(all.len() as int) =~= all);
    out
}

proof fn lemma_seq_le_total(a: Seq<char>, b: Seq<char>)
    ensures
        seq_le(a, b) || seq_le(b, a),
    decreases a.len(),
{
    if a.len() > 0 && b.len() > 0 && a[0] == b[0] {
        lemma_seq_le_total(a.drop_first(), b.drop_first());
    }
}

proof fn lemma_seq_le_transitive(a: Seq<char>, b: Seq<char>, c: Seq<char>)
    requires
        seq_le(a, b),
        seq_le(b, c),
    ensures
        seq_le(a, c),
    decreases a.len(),
{
    if a.len() > 0 && b.len() > 0 && c.len() > 0 && a[0] == b[0] && b[0] == c[0] {
        lemma_seq_le_transitive(a.drop_first(), b.drop_first(), c.drop_first());
    }
}

/// The sessions of `s` are in order of their names.
pub open spec fn sorted_by_name(s: Seq<Session>) -> bool {
    forall|i: int, j: int| 0 <= i < j < s.len() ==> seq_le(#[trigger] s[i].name@, #[trigger] s[j].name@)
}

proof fn lemma_insert_keeps_order(s: Seq<Session>, x: Session)
    requires
        sorted_by_name(s),
    ensures
        sorted_by_name(insert_by_name(s, x)),
        insert_by_name(s, x).to_multiset() == s.to_multiset().insert(x),
    decreases s.len(),
{
    broadcast use vstd::seq_lib::group_to_multiset_ensures;

    if s.len() == 0 {
        assert(insert_by_name(s, x) =~= seq![x]);
        assert(seq![x] =~= Seq::<Session>::empty().push(x));
    } else if seq_le(s.last().name@, x.name@) {
        let r = s.push(x);
        assert forall|i: int, j: int| 0 <= i < j < r.len() implies seq_le(#[trigger] r[i].name@, #[trigger] r[j].name@) by {
            if j == r.len() - 1 && i < s.len() - 1 {
                lemma_seq_le_transitive(s[i].name@, s.last().name@, x.name@);
            }
        }
    } else {
        let t = s.drop_last();
        assert(sorted_by_name(t)) by {
            assert forall|i: int, j: int| 0 <= i < j < t.len() implies seq_le(#[trigger] t[i].name@, #[trigger] t[j].name@) by {
                assert(t[i] == s[i] && t[j] == s[j]);
            }
        }
        lemma_insert_keeps_order(t, x);
        let u = insert_by_name(t, x);
        let r = u.push(s.last());
        lemma_seq_le_total(s.last().name@, x.name@);
        assert forall|i: int, j: int| 0 <= i < j < r.len() implies seq_le(#[trigger] r[i].name@, #[trigger] r[j].name@) by {
            if j == r.len() - 1 {
                // r[i] is an element of u: either x or an element of t.
                assert(u.to_multiset().count(r[i]) > 0) by {
                    assert(u.contains(r[i]));
                }
                assert(u.to_multiset() == t.to_multiset().insert(x));
                if r[i] != x {
                    assert(t.to_multiset().count(r[i]) > 0);
                    assert(t.contains(r[i]));
                    let k = choose|k: int| 0 <= k < t.len() && t[k] == r[i];
                    assert(s[k] == t[k]);
                    assert(seq_le(s[k].name@, s[s.len() - 1].name@));
                }
            }
        }
        assert(s =~= t.push(s.last()));
    }
}

/// Sorting by name puts the sessions in order of their names and keeps
/// every session, as many times as it occurs.
pub proof fn lemma_sort_by_name_sorts(s: Seq<Session>)
    ensures
        sorted_by_name(sort_by_name(s)),
        sort_by_name(s).to_multiset() == s.to_multiset(),
    decreases s.len(),
{
    broadcast use vstd::seq_lib::group_to_multiset_ensures;

    if s.len() == 0 {
        assert(sort_by_name(s) =~= s);
    } else {
        lemma_sort_by_name_sorts(s.drop_last());
        lemma_insert_keeps_order(sort_by_name(s.drop_last()), s.last());
        assert(s =~= s.drop_last().push(s.last()));
    }
}

} // verus!
