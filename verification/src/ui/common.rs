//! Building blocks shared by the screens: menus and masked strings.
use vstd::prelude::*;

use zeroize::Zeroize;

verus! {

/// A menu: a title, its entries and the index of the highlighted one.
#[derive(Debug, Clone, Default)]
pub struct Menu<T> {
    pub title: String,
    pub options: Vec<T>,
    pub selected: usize,
}

/// A string shown through a mask: the value is what the greeter works with,
/// the mask, when there is one, is what the screen shows.
#[derive(Debug, Clone, Default)]
pub struct MaskedString {
    pub value: String,
    pub mask: Option<String>,
}

impl MaskedString {
    /// A masked string of `value` shown as `mask`.
    pub fn from(value: String, mask: Option<String>) -> (r: MaskedString)
        ensures
            r.value == value,
            r.mask == mask,
    {
        MaskedString { value, mask }
    }

    /// The value behind the mask.
    pub fn get(&self) -> (r: &str)
        ensures
            r@ == self.value@,
    {
        self.value.as_str()
    }

    /// Wipe the value and drop the mask.
    pub fn zeroize(&mut self)
        ensures
            final(self).value@ == Seq::<char>::empty(),
            final(self).mask.is_none(),
    {
        zeroize_string(&mut self.value);
        zeroize_opt_string(&mut self.mask);
    }
}

/// zeroize's `Zeroize` for `String`: overwrites the bytes and leaves the
/// string empty.
#[verifier::external_body]
pub(crate) fn zeroize_string(s: &mut String)
    ensures
        final(s)@ == Seq::<char>::empty(),
{
    s.zeroize();
}

/// zeroize's `Zeroize` for `Option<String>`: wipes the string, if any, and
/// leaves `None`.
#[verifier::external_body]
pub(crate) fn zeroize_opt_string(s: &mut Option<String>)
    ensures
        final(s).is_none(),
{
    s.zeroize();
}

} // verus!
