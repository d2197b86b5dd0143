//! Users offered in the user menu.
use vstd::prelude::*;

use crate::text::{chars_of, find, find_char, string_of_range};

verus! {

/// An entry of the user menu.
#[derive(Debug, Clone)]
pub struct User {
    pub username: String,
    /// Full name from the GECOS field, when there is one.
    pub name: Option<String>,
}

/// A user account as the system lists it.
#[derive(Debug, Clone)]
pub struct Account {
    pub uid: u32,
    pub name: String,
    pub gecos: String,
}

/// The full name in a GECOS field: the text before the first comma, or the
/// whole field; none for an empty field.
pub open spec fn gecos_name(g: Seq<char>) -> Option<Seq<char>> {
    if g.len() == 0 {
        None
    } else {
        match find(g, ',') {
            Some(i) => Some(g.subrange(0, i)),
            None => Some(g),
        }
    }
}

/// The full name in the GECOS field `gecos`.
pub fn name_from_gecos(gecos: &str) -> (r: Option<String>)
    ensures
        crate::text::opt_view(r) == gecos_name(gecos@),
{
    let v = chars_of(gecos);
    if v.len() == 0 {
        return None;
    }
    assert(v@.subrange(0, v@.len() as int) =~= v@);
    match find_char(&v, 0, v.len(), ',') {
        Some(i) => Some(string_of_range(gecos, 0, i)),
        None => Some(string_of_range(gecos, 0, v.len())),
    }
}

/// Whether an account's UID lies in `min_uid..=max_uid`.
pub open spec fn uid_in(min_uid: u32, max_uid: u32) -> spec_fn(Account) -> bool {
    |a: Account| min_uid <= a.uid <= max_uid
}

/// The users whose UID lies in `min_uid..=max_uid`, in the order of
/// `accounts`, each with the full name from its GECOS field.
pub fn get_users(accounts: &Vec<Account>, min_uid: u32, max_uid: u32) -> (r: Vec<User>)
    ensures
        r@.len() == accounts@.filter(uid_in(min_uid, max_uid)).len(),
        forall|i: int|
            0 <= i < r@.len() ==> {
                let a = accounts@.filter(uid_in(min_uid, max_uid))[i];
                &&& (#[trigger] r@[i]).username@ == a.name@
                &&& crate::text::opt_view(r@[i].name) == gecos_name(a.gecos@)
            },
{
    let ghost keep = uid_in(min_uid, max_uid);
    let mut r: Vec<User> = Vec::new();
    let mut i: usize = 0;
    while i < accounts.len()
        invariant
            keep == uid_in(min_uid, max_uid),
            i <= accounts@.len(),
            r@.len() == accounts@.take(i as int).filter(keep).len(),
            forall|k: int|
                0 <= k < r@.len() ==> {
                    let a = accounts@.take(i as int).filter(keep)[k];
                    &&& (#[trigger] r@[k]).username@ == a.name@
                    &&& crate::text::opt_view(r@[k].name) == gecos_name(a.gecos@)
                },
        decreases accounts@.len() - i,
    {
        let a = &accounts[i];
        let ghost prev = accounts@.take(i as int).filter(keep);
        proof {
            let s1 = accounts@.take(i + 1);
            assert(s1.drop_last() =~= accounts@.take(i as int));
            assert(s1.last() == accounts@[i as int]);
            reveal(Seq::filter);
            assert(s1.filter(keep) == (if keep(s1.last()) {
                prev.push(s1.last())
            } else {
                prev
            }));
        }
        if min_uid <= a.uid && a.uid <= max_uid {
            let name = name_from_gecos(a.gecos.as_str());
            let username = a.name.clone();
            r.push(User { username, name });
        }
        i = i + 1;
    }
    assert(accounts@.take(accounts@.len() as int) =~= accounts@);
    r
}

} // verus!
