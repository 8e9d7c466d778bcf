//! Which recognised text items an OCR answer keeps.

use vstd::prelude::*;
use crate::text::{is_blank, is_blank_text};

verus! {

/// Whether an OCR answer keeps an item with this text: it keeps the items
/// whose text is not blank once white space is trimmed.
pub fn keeps_item(text: &str) -> (r: bool)
    ensures
        r == !is_blank(text@),
{
    !is_blank_text(text)
}

/// The positions of the items that an OCR answer keeps, in their order.
pub fn kept_items(texts: &Vec<String>) -> (r: Vec<usize>)
    ensures
        forall|k: int| 0 <= k < r.len() ==> #[trigger] r@[k] < texts.len() && !is_blank(texts@[r@[k] as int]@),
        forall|k: int, l: int| 0 <= k < l < r.len() ==> #[trigger] r@[k] < #[trigger] r@[l],
        forall|i: int| 0 <= i < texts.len() && !is_blank(#[trigger] texts@[i]@) ==> r@.contains(i as usize),
{
    let mut r: Vec<usize> = Vec::new();
    let mut i: usize = 0;
    while i < texts.len()
        invariant
            i <= texts.len(),
            forall|k: int| 0 <= k < r.len() ==> #[trigger] r@[k] < i && !is_blank(texts@[r@[k] as int]@),
            forall|k: int, l: int| 0 <= k < l < r.len() ==> #[trigger] r@[k] < #[trigger] r@[l],
            forall|j: int| 0 <= j < i && !is_blank(#[trigger] texts@[j]@) ==> r@.contains(j as usize),
        decreases texts.len() - i,
    {
        if keeps_item(texts[i].as_str()) {
            let ghost before = r@;
            r.push(i);
            assert(!is_blank(texts@[i as int]@));
            assert forall|k: int| 0 <= k < r.len() implies #[trigger] r@[k] < i + 1 && !is_blank(texts@[r@[k] as int]@) by {
                if k < before.len() {
                    assert(r@[k] == before[k]);
                }
            }
            assert forall|j: int| 0 <= j < i + 1 && !is_blank(#[trigger] texts@[j]@) implies r@.contains(j as usize) by {
                if j < i {
                    assert(before.contains(j as usize));
                    let k: int = choose|k: int| 0 <= k < before.len() && before[k] == j as usize;
                    assert(r@[k] == j as usize);
                } else {
                    assert(r@[r.len() - 1] == i);
                }
            }
        }
        i = i + 1;
    }
    r
}

} // verus!
