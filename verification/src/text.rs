//! Helpers on strings and lists of strings shared by the other modules.

use vstd::prelude::*;
use vstd::string::{StrSliceExecFns, StringExecFns};

verus! {

/// The character sequences of a list of strings, in order.
pub open spec fn texts(v: Seq<String>) -> Seq<Seq<char>> {
    Seq::new(v.len(), |i: int| v[i]@)
}

/// The character sequences of a list of string slices, in order.
pub open spec fn slice_texts(v: Seq<&str>) -> Seq<Seq<char>> {
    Seq::new(v.len(), |i: int| v[i]@)
}

/// Copies a list of string slices into owned strings, keeping the order.
pub fn to_owned_string_vec(in_list: &[&str]) -> (out_list: Vec<String>)
    ensures
        texts(out_list@) == slice_texts(in_list@),
{
    let mut out_list: Vec<String> = Vec::new();
    let mut i: usize = 0;
    while i < in_list.len()
        invariant
            i <= in_list.len(),
            out_list.len() == i,
            forall|j: int| 0 <= j < i ==> out_list@[j]@ == in_list@[j]@,
        decreases in_list.len() - i,
    {
        out_list.push(in_list[i].to_owned());
        i += 1;
    }
    assert(texts(out_list@) =~= slice_texts(in_list@));
    out_list
}

/// Whether `name` ends with the characters of `suffix`.
pub open spec fn ends_with(name: Seq<char>, suffix: Seq<char>) -> bool {
    suffix.len() <= name.len() && name.subrange(name.len() - suffix.len(), name.len() as int)
        == suffix
}

/// Says whether `count` characters of `first`, from place `first_from`
/// on, are those of `second` from place `second_from` on.
pub(crate) fn same_chars(
    first: &str,
    first_from: usize,
    second: &str,
    second_from: usize,
    count: usize,
) -> (same: bool)
    requires
        first_from + count <= first@.len() <= usize::MAX,
        second_from + count <= second@.len() <= usize::MAX,
    ensures
        same == (first@.subrange(first_from as int, first_from + count) == second@.subrange(
            second_from as int,
            second_from + count,
        )),
{
    let ghost left = first@.subrange(first_from as int, first_from + count);
    let ghost right = second@.subrange(second_from as int, second_from + count);
    let mut i: usize = 0;
    while i < count
        invariant
            i <= count,
            first_from + count <= first@.len() <= usize::MAX,
            second_from + count <= second@.len() <= usize::MAX,
            left == first@.subrange(first_from as int, first_from + count),
            right == second@.subrange(second_from as int, second_from + count),
            forall|j: int| 0 <= j < i ==> left[j] == right[j],
        decreases count - i,
    {
        if first.get_char(first_from + i) != second.get_char(second_from + i) {
            assert(left[i as int] != right[i as int]);
            return false;
        }
        i += 1;
    }
    assert(left =~= right);
    true
}

/// Says whether `name` ends with the characters of `suffix`.
pub fn has_suffix(name: &str, suffix: &str) -> (found: bool)
    ensures
        found == ends_with(name@, suffix@),
{
    let length = name.unicode_len();
    let wanted = suffix.unicode_len();
    if wanted > length {
        return false;
    }
    let same = same_chars(name, length - wanted, suffix, 0, wanted);
    assert(suffix@.subrange(0, wanted as int) =~= suffix@);
    same
}

/// Appends copies of the strings of `more` to `list`, keeping their order.
pub fn append_copies(list: &mut Vec<String>, more: &Vec<String>)
    ensures
        texts(final(list)@) == texts(old(list)@) + texts(more@),
{
    let ghost before = list@;
    let mut i: usize = 0;
    while i < more.len()
        invariant
            i <= more.len(),
            texts(list@) == texts(before) + texts(more@.take(i as int)),
        decreases more.len() - i,
    {
        let ghost so_far = list@;
        list.push(more[i].clone());
        assert(texts(list@) =~= texts(so_far).push(more@[i as int]@));
        assert(texts(more@.take(i as int + 1)) =~= texts(more@.take(i as int)).push(
            more@[i as int]@,
        ));
        i += 1;
    }
    assert(more@.take(i as int) =~= more@);
}

/// A copy of a list of strings.
pub fn copy_strings(list: &Vec<String>) -> (copy: Vec<String>)
    ensures
        texts(copy@) == texts(list@),
{
    let mut copy: Vec<String> = Vec::new();
    append_copies(&mut copy, list);
    assert(texts(copy@) =~= texts(list@));
    copy
}

/// The two strings joined, the first before the second.
pub fn joined(first: &str, second: &str) -> (both: String)
    ensures
        both@ == first@ + second@,
{
    let mut both = first.to_owned();
    both.append(second);
    both
}

} // verus!
