//! The answer row of the login prompt: what is shown of the typed answer,
//! and where the cursor stands.
use vstd::prelude::*;

use crate::text::{chars_of, string_from_chars};
use crate::types::SecretDisplay;

verus! {

/// Whether indices `drawn` can stand for the characters of an answer of
/// `len` characters shown with the replacement pool `pool`: one index per
/// character, each inside the pool.
pub open spec fn drawn_fits(drawn: Seq<usize>, len: nat, pool: Seq<char>) -> bool {
    &&& drawn.len() == len
    &&& forall|i: int| 0 <= i < drawn.len() ==> (#[trigger] drawn[i]) < pool.len()
}

/// Whether showing `buffer` needs drawn indices that fit: an answer asked
/// for as a secret, shown with a pool of other than one character.
pub open spec fn needs_drawn(asking: bool, display: SecretDisplay) -> bool {
    asking && (display matches SecretDisplay::Character(pool) && pool@.len() != 1)
}

/// What the answer row shows of `buffer`: the buffer as typed when no
/// secret is asked for; nothing when a secret is hidden; the one character
/// of a one-character pool once per typed character; otherwise, per typed
/// character, the pool character at the drawn index.
pub open spec fn spec_masked_answer(
    buffer: Seq<char>,
    asking: bool,
    display: SecretDisplay,
    drawn: Seq<usize>,
) -> Option<Seq<char>> {
    if !asking {
        Some(buffer)
    } else {
        match display {
            SecretDisplay::Hidden => None,
            SecretDisplay::Character(pool) => if pool@.len() == 1 {
                Some(Seq::new(buffer.len(), |i: int| pool@[0]))
            } else {
                Some(Seq::new(buffer.len(), |i: int| pool@[drawn[i] as int]))
            },
        }
    }
}

/// The text shown for the answer `buffer`, `None` when nothing is shown.
/// For a pool of several characters, `drawn` holds the index in the pool of
/// the character shown for each typed character.
pub fn masked_answer(buffer: &str, asking: bool, display: &SecretDisplay, drawn: &Vec<usize>) -> (r: Option<String>)
    requires
        needs_drawn(asking, *display) ==> match display {
            SecretDisplay::Character(pool) => drawn_fits(drawn@, buffer@.len(), pool@),
            SecretDisplay::Hidden => true,
        },
    ensures
        match r {
            Some(s) => spec_masked_answer(buffer@, asking, *display, drawn@) == Some(s@),
            None => spec_masked_answer(buffer@, asking, *display, drawn@) is None,
        },
{
    if !asking {
        let v = chars_of(buffer);
        return Some(string_from_chars(&v));
    }
    match display {
        SecretDisplay::Hidden => None,
        SecretDisplay::Character(pool) => {
            let b = chars_of(buffer);
            let p = chars_of(pool.as_str());
            let n = b.len();
            let mut out: Vec<char> = Vec::new();
            let mut i: usize = 0;
            while i < n
                invariant
                    n == b@.len(),
                    b@ == buffer@,
                    p@ == pool@,
                    i <= n,
                    out@.len() == i,
                    p@.len() != 1 ==> drawn_fits(drawn@, buffer@.len(), pool@),
                    forall|j: int|
                        0 <= j < i ==> #[trigger] out@[j] == if p@.len() == 1 {
                            p@[0]
                        } else {
                            p@[drawn@[j] as int]
                        },
                decreases n - i,
            {
                if p.len() == 1 {
                    out.push(p[0]);
                } else {
                    let k = drawn[i];
                    out.push(p[k]);
                }
                i = i + 1;
            }
            let s = string_from_chars(&out);
            proof {
                if p@.len() == 1 {
                    assert(out@ =~= Seq::new(buffer@.len(), |j: int| pool@[0]));
                } else {
                    assert(out@ =~= Seq::new(buffer@.len(), |j: int| pool@[drawn@[j] as int]));
                }
            }
            Some(s)
        },
    }
}

/// Whether the typed answer's length is kept off the screen: a secret that
/// is hidden.
pub open spec fn hides_length(asking: bool, display: SecretDisplay) -> bool {
    asking && display is Hidden
}

/// Where the cursor stands on the answer row (see [`prompt_cursor`]).
pub open spec fn spec_prompt_cursor(
    cx: u16,
    cy: u16,
    prompt_width: u16,
    offset: u16,
    padding: u16,
    asking: bool,
    display: SecretDisplay,
) -> (int, int) {
    (
        1 + cx + prompt_width + (if hides_length(asking, display) { 0 } else { offset }),
        3 + padding + cy - 1,
    )
}

/// A hidden secret never reaches the screen: for any two typed answers
/// (any lengths, any drawn indices), nothing is shown of either, and the
/// cursor stands at the same place whatever the typed answer's offset.
pub proof fn lemma_hidden_secret_not_shown(
    b1: Seq<char>,
    b2: Seq<char>,
    d1: Seq<usize>,
    d2: Seq<usize>,
    cx: u16,
    cy: u16,
    prompt_width: u16,
    o1: u16,
    o2: u16,
    padding: u16,
)
    ensures
        spec_masked_answer(b1, true, SecretDisplay::Hidden, d1) is None,
        spec_masked_answer(b1, true, SecretDisplay::Hidden, d1) == spec_masked_answer(
            b2,
            true,
            SecretDisplay::Hidden,
            d2,
        ),
        spec_prompt_cursor(cx, cy, prompt_width, o1, padding, true, SecretDisplay::Hidden)
            == spec_prompt_cursor(cx, cy, prompt_width, o2, padding, true, SecretDisplay::Hidden),
{
}

/// Where the cursor stands on the answer row, whose area starts at
/// `(cx, cy)`: after the prompt of `prompt_width` characters and, unless a
/// hidden secret is asked for, `offset` more columns; on the answer row,
/// below the greeting, the user name row and `padding` rows.
pub fn prompt_cursor(
    cx: u16,
    cy: u16,
    prompt_width: u16,
    offset: u16,
    padding: u16,
    asking: bool,
    display: &SecretDisplay,
) -> (r: (u16, u16))
    requires
        1 + cx + prompt_width + (if hides_length(asking, *display) { 0 } else { offset }) <= u16::MAX,
        3 + padding + cy <= u16::MAX,
    ensures
        (r.0 as int, r.1 as int) == spec_prompt_cursor(cx, cy, prompt_width, offset, padding, asking, *display),
{
    let y = 3 + padding + cy - 1;
    if asking && !display.show() {
        (1 + cx + prompt_width, y)
    } else {
        (1 + cx + prompt_width + offset, y)
    }
}

} // verus!
