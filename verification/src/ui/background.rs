//! Menu entries of the background animation switcher.
use vstd::prelude::*;

use crate::text::string_of_range;
use crate::ui::bg_animation::{Kind, kinds, spec_kinds};

verus! {

/// An entry of the background menu.
#[derive(Debug, Clone, Default)]
pub struct Background {
    /// `None` disables the background, `Some(kind)` selects it.
    pub kind: Option<Kind>,
    /// Text shown in the menu.
    pub label: String,
}

impl Background {
    /// The text shown for the entry in the menu.
    pub fn format(&self) -> (r: &str)
        ensures
            r@ == self.label@,
    {
        self.label.as_str()
    }
}

/// The menu list: a "None" entry labelled `none_label`, followed by every
/// registered kind with its label, in catalog order.
pub fn options(none_label: &str) -> (r: Vec<Background>)
    ensures
        r@.len() == spec_kinds().len() + 1,
        r@[0].kind.is_none(),
        r@[0].label@ == none_label@,
        forall|i: int|
            0 <= i < spec_kinds().len() ==> (#[trigger] r@[i + 1]).kind == Some(spec_kinds()[i].0)
                && r@[i + 1].label@ == spec_kinds()[i].2,
{
    let catalog = kinds();
    let mut out: Vec<Background> = Vec::new();
    let none = string_of_range(none_label, 0, none_label.unicode_len());
    assert(none_label@.subrange(0, none_label@.len() as int) =~= none_label@);
    out.push(Background { kind: None, label: none });
    let mut i: usize = 0;
    while i < catalog.len()
        invariant
            catalog@.len() == spec_kinds().len(),
            forall|j: int|
                0 <= j < catalog@.len() ==> (#[trigger] catalog@[j]).kind == spec_kinds()[j].0
                    && catalog@[j].label@ == spec_kinds()[j].2,
            i <= catalog@.len(),
            out@.len() == i + 1,
            out@[0].kind.is_none(),
            out@[0].label@ == none_label@,
            forall|j: int|
                0 <= j < i ==> (#[trigger] out@[j + 1]).kind == Some(spec_kinds()[j].0)
                    && out@[j + 1].label@ == spec_kinds()[j].2,
        decreases catalog@.len() - i,
    {
        let entry = catalog[i];
        let l = entry.label;
        let label = string_of_range(l, 0, l.unicode_len());
        assert(l@.subrange(0, l@.len() as int) =~= l@);
        out.push(Background { kind: Some(entry.kind), label });
        i = i + 1;
    }
    out
}

} // verus!
