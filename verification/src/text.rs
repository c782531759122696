//! Text layout of scalars, vectors and operators.
//!
//! The decimal text of each real number is supplied by the caller; the
//! functions here choose the sign symbol from the stored value and place the
//! separators and brackets.

use vstd::prelude::*;
use vstd::string::StringExecFns;
use crate::binary64::{is_nonnegative, spec_is_nonnegative};
use crate::complex::C64;

verus! {

/// The text `<re> + <im>i`, or `<re> - <im>i` when `nonnegative` is false.
pub open spec fn scalar_text(re: Seq<char>, nonnegative: bool, im: Seq<char>) -> Seq<char> {
    re + seq![' ', if nonnegative { '+' } else { '-' }, ' '] + im + seq!['i']
}

/// The items in order, with `separator` between neighbours.
pub open spec fn joined(items: Seq<Seq<char>>, separator: Seq<char>) -> Seq<char>
    decreases items.len(),
{
    if items.len() == 0 {
        Seq::empty()
    } else if items.len() == 1 {
        items[0]
    } else {
        joined(items.drop_last(), separator) + separator + items.last()
    }
}

/// The text of each scalar of `values`: its sign symbol is `+` exactly when
/// its imaginary part compares `>= 0.0`, and the decimal text of its parts
/// is the pair at the same position in `parts`.
pub open spec fn component_texts(values: Seq<C64>, parts: Seq<(String, String)>) -> Seq<Seq<char>> {
    Seq::new(
        values.len(),
        |i: int| scalar_text(parts[i].0@, spec_is_nonnegative(values[i].im), parts[i].1@),
    )
}

/// The scalars of `values` as a list separated by `, `.
pub open spec fn list_text(values: Seq<C64>, parts: Seq<(String, String)>) -> Seq<char> {
    joined(component_texts(values, parts), seq![',', ' '])
}

/// Joining one more item appends the separator and the item, except after
/// an empty list, where it gives the item alone.
pub proof fn lemma_joined_next(items: Seq<Seq<char>>, separator: Seq<char>, n: int)
    requires
        0 <= n < items.len(),
    ensures
        joined(items.take(n + 1), separator) == if n == 0 {
            items[0]
        } else {
            joined(items.take(n), separator) + separator + items[n]
        },
{
    let longer = items.take(n + 1);
    assert(longer.last() == items[n]);
    assert(longer.drop_last() =~= items.take(n));
}

impl C64 {
    /// The text `<re> + <im>i` of this number, or `<re> - <im>i` when its
    /// imaginary part does not compare `>= 0.0`; `re` and `im` are the
    /// decimal text that the caller chose for the two parts.
    pub fn to_text(&self, re: &str, im: &str) -> (text: String)
        ensures
            text@ == scalar_text(re@, spec_is_nonnegative(self.im), im@),
    {
        let mut text = String::new();
        text.append(re);
        if is_nonnegative(self.im) {
            text.append(" + ");
        } else {
            text.append(" - ");
        }
        text.append(im);
        text.append("i");
        proof {
            reveal_strlit(" + ");
            reveal_strlit(" - ");
            reveal_strlit("i");
            assert(" + "@ =~= seq![' ', '+', ' ']);
            assert(" - "@ =~= seq![' ', '-', ' ']);
            assert("i"@ =~= seq!['i']);
            assert(text@ =~= scalar_text(re@, spec_is_nonnegative(self.im), im@));
        }
        text
    }
}

/// Lays out `values` as a list separated by `, `, taking the decimal text of
/// each scalar's parts from the pair at the same position in `parts`.
pub(crate) fn list_to_text(values: &[C64], parts: &Vec<(String, String)>) -> (text: String)
    requires
        values@.len() == parts@.len(),
    ensures
        text@ == list_text(values@, parts@),
{
    let ghost items = component_texts(values@, parts@);
    let ghost separator = seq![',', ' '];
    let mut text = String::new();
    let n: usize = values.len();
    for i in 0..n
        invariant
            n == values@.len(),
            n == parts@.len(),
            items == component_texts(values@, parts@),
            separator == seq![',', ' '],
            text@ == joined(items.take(i as int), separator),
    {
        proof {
            lemma_joined_next(items, separator, i as int);
            reveal_strlit(", ");
            assert(", "@ =~= separator);
        }
        if i > 0 {
            text.append(", ");
        }
        let item = values[i].to_text(parts[i].0.as_str(), parts[i].1.as_str());
        text.append(item.as_str());
        assert(text@ =~= joined(items.take(i + 1), separator));
    }
    assert(items.take(n as int) =~= items);
    text
}

} // verus!
