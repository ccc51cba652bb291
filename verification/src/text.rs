//! Lists of strings, seen as lists of texts.

use vstd::prelude::*;

verus! {

/// The texts of a list of strings.
pub open spec fn texts(list: Seq<String>) -> Seq<Seq<char>> {
    list.map_values(|s: String| s@)
}

/// Whether `list` holds a string with the text of `wanted`.
pub fn holds(list: &Vec<String>, wanted: &String) -> (found: bool)
    ensures
        found == texts(list@).contains(wanted@),
{
    let mut i: usize = 0;
    while i < list.len()
        invariant
            i <= list.len(),
            forall|j: int| 0 <= j < i ==> texts(list@)[j] != wanted@,
        decreases list.len() - i,
    {
        if list[i] == *wanted {
            assert(texts(list@)[i as int] == wanted@);
            return true;
        }
        i = i + 1;
    }
    false
}

/// Whether `list` begins with the strings of `prefix`, text for text.
pub fn begins_with(list: &Vec<String>, prefix: &Vec<String>) -> (yes: bool)
    ensures
        yes == texts(prefix@).is_prefix_of(texts(list@)),
{
    if prefix.len() > list.len() {
        return false;
    }
    let ghost head = texts(list@).subrange(0, prefix@.len() as int);
    let mut i: usize = 0;
    while i < prefix.len()
        invariant
            i <= prefix.len() <= list.len(),
            head == texts(list@).subrange(0, prefix@.len() as int),
            forall|j: int| 0 <= j < i ==> texts(prefix@)[j] == head[j],
        decreases prefix.len() - i,
    {
        if !(list[i] == prefix[i]) {
            assert(texts(prefix@)[i as int] != head[i as int]);
            return false;
        }
        i = i + 1;
    }
    assert(texts(prefix@) =~= head);
    true
}

} // verus!
