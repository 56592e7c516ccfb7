//! Vectors of strings as sequences of texts.

use vstd::prelude::*;

verus! {

/// The text of each string of a sequence, in order.
pub open spec fn texts(items: Seq<String>) -> Seq<Seq<char>> {
    items.map_values(|s: String| s@)
}

/// A copy of `rest` with a copy of `head` put in front.
pub(crate) fn with_head(head: &String, rest: &Vec<String>) -> (r: Vec<String>)
    ensures
        texts(r@) == seq![head@] + texts(rest@),
{
    let mut all: Vec<String> = Vec::new();
    all.push(head.clone());
    let mut i: usize = 0;
    while i < rest.len()
        invariant
            i <= rest.len(),
            all@.len() == i + 1,
            all@[0]@ == head@,
            forall|j: int| 1 <= j <= i ==> (#[trigger] all@[j])@ == rest@[j - 1]@,
        decreases rest.len() - i,
    {
        all.push(rest[i].clone());
        i += 1;
    }
    assert(texts(all@) =~= seq![head@] + texts(rest@));
    all
}

/// A copy of the items of `items` from index `at` on.
pub(crate) fn from_index(items: &Vec<String>, at: usize) -> (r: Vec<String>)
    requires
        at <= items.len(),
    ensures
        texts(r@) == texts(items@).skip(at as int),
{
    let mut rest: Vec<String> = Vec::new();
    let mut i: usize = at;
    while i < items.len()
        invariant
            at <= i <= items.len(),
            rest@.len() == i - at,
            forall|j: int| 0 <= j < i - at ==> (#[trigger] rest@[j])@ == items@[at + j]@,
        decreases items.len() - i,
    {
        rest.push(items[i].clone());
        i += 1;
    }
    assert(texts(rest@) =~= texts(items@).skip(at as int));
    rest
}

} // verus!
