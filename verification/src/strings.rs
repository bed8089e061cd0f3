//! Lists of strings, taken as lists of their texts.

use vstd::prelude::*;

verus! {

/// The texts of a list of strings.
pub open spec fn names(v: Seq<String>) -> Seq<Seq<char>> {
    v.map_values(|s: String| s@)
}

/// Whether `item` occurs in `list`.
pub fn contains(list: &Vec<String>, item: &String) -> (found: bool)
    ensures
        found == names(list@).contains(item@),
{
    let mut i: usize = 0;
    while i < list.len()
        invariant
            0 <= i <= list.len(),
            forall|j: int| 0 <= j < i ==> list@[j]@ != item@,
        decreases list.len() - i,
    {
        if list[i] == *item {
            assert(names(list@)[i as int] == item@);
            return true;
        }
        i += 1;
    }
    false
}

} // verus!
