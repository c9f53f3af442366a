//! The source catalogue: which of the entries found under a directory are
//! project files of a wanted kind.

use crate::text::{ends_with, has_suffix, joined, slice_texts, texts};
use vstd::prelude::*;

verus! {

/// One step of a recursive directory walk.
#[derive(Debug, Clone, PartialEq, Eq)]
pub enum Walked {
    /// An entry that could be read.
    Entry { path: String, file_name: String, is_file: bool },
    /// An entry that could not be read, with the reason given for it.
    Unreadable { reason: String },
}

/// Why a discovery was abandoned.
#[derive(Debug, Clone, PartialEq, Eq)]
pub enum DiscoveryError {
    /// An entry could not be read; the reason given for it.
    UnreadableEntry(String),
}

impl DiscoveryError {
    /// The reason that the error carries.
    pub open spec fn reason(self) -> Seq<char> {
        match self {
            DiscoveryError::UnreadableEntry(reason) => reason@,
        }
    }

    /// The message that tells a user of the error.
    pub fn message(&self) -> (message: String)
        ensures
            message@ == unreadable_message(self.reason()),
    {
        match self {
            DiscoveryError::UnreadableEntry(reason) => joined(
                "Error can't read entry : ",
                reason.as_str(),
            ),
        }
    }
}

/// The message that tells a user of an entry that could not be read.
pub open spec fn unreadable_message(reason: Seq<char>) -> Seq<char> {
    "Error can't read entry : "@ + reason
}

/// Whether a file name carries one of the suffixes.
pub open spec fn accepted(file_name: Seq<char>, suffixes: Seq<Seq<char>>) -> bool {
    exists|i: int| 0 <= i < suffixes.len() && ends_with(file_name, #[trigger] suffixes[i])
}

/// Whether an entry belongs to the catalogue: a regular file whose name
/// carries one of the suffixes.
pub open spec fn selected(item: Walked, suffixes: Seq<Seq<char>>) -> bool {
    item matches Walked::Entry { file_name, is_file, .. } && is_file && accepted(
        file_name@,
        suffixes,
    )
}

/// The paths of the selected entries, in the order of the walk.
pub open spec fn catalogue(items: Seq<Walked>, suffixes: Seq<Seq<char>>) -> Seq<Seq<char>>
    decreases items.len(),
{
    if items.len() == 0 {
        seq![]
    } else {
        let before = catalogue(items.drop_last(), suffixes);
        match items.last() {
            Walked::Entry { path, .. } => if selected(items.last(), suffixes) {
                before.push(path@)
            } else {
                before
            },
            Walked::Unreadable { .. } => before,
        }
    }
}

/// The reason of the first entry of the walk that could not be read;
/// `None` where every entry could be read.
pub open spec fn first_failure(items: Seq<Walked>) -> Option<Seq<char>>
    decreases items.len(),
{
    if items.len() == 0 {
        None
    } else {
        match first_failure(items.drop_last()) {
            Some(reason) => Some(reason),
            None => match items.last() {
                Walked::Unreadable { reason } => Some(reason@),
                Walked::Entry { .. } => None,
            },
        }
    }
}

/// What a discovery over a walk yields: the catalogue where every entry
/// could be read, and otherwise the reason of the first that could not.
pub open spec fn discovery(items: Seq<Walked>, suffixes: Seq<Seq<char>>) -> Result<
    Seq<Seq<char>>,
    Seq<char>,
> {
    match first_failure(items) {
        Some(reason) => Err(reason),
        None => Ok(catalogue(items, suffixes)),
    }
}

/// What a discovery returned, as character sequences.
pub open spec fn found_view(found: Result<Vec<String>, DiscoveryError>) -> Result<
    Seq<Seq<char>>,
    Seq<char>,
> {
    match found {
        Ok(files) => Ok(texts(files@)),
        Err(error) => Err(error.reason()),
    }
}

/// A failure among the first entries of a walk is the failure of the whole
/// walk.
pub proof fn lemma_failure_persists(items: Seq<Walked>, upto: int)
    requires
        0 <= upto <= items.len(),
        first_failure(items.take(upto)) is Some,
    ensures
        first_failure(items) == first_failure(items.take(upto)),
    decreases items.len() - upto,
{
    if upto < items.len() {
        assert(items.take(upto + 1).drop_last() =~= items.take(upto));
        lemma_failure_persists(items, upto + 1);
    } else {
        assert(items.take(upto) =~= items);
    }
}

/// A walk fails exactly where one of its entries could not be read.
pub proof fn lemma_failure_iff_unreadable(items: Seq<Walked>)
    ensures
        first_failure(items) is Some <==> exists|i: int|
            0 <= i < items.len() && (#[trigger] items[i]) is Unreadable,
    decreases items.len(),
{
    if items.len() > 0 {
        let before = items.drop_last();
        lemma_failure_iff_unreadable(before);
        if first_failure(items) is Some {
            if first_failure(before) is Some {
                let i = choose|i: int| 0 <= i < before.len() && (#[trigger] before[i]) is Unreadable;
                assert(items[i] is Unreadable);
            } else {
                assert(items[items.len() - 1] is Unreadable);
            }
        } else {
            assert forall|i: int| 0 <= i < items.len() implies !((#[trigger] items[i]) is Unreadable) by {
                if i < before.len() {
                    assert(before[i] == items[i]);
                }
            }
        }
    }
}

fn has_any_suffix(file_name: &str, extensions: &[&str]) -> (found: bool)
    ensures
        found == accepted(file_name@, slice_texts(extensions@)),
{
    let mut i: usize = 0;
    while i < extensions.len()
        invariant
            i <= extensions.len(),
            forall|j: int| 0 <= j < i ==> !ends_with(file_name@, #[trigger] extensions@[j]@),
        decreases extensions.len() - i,
    {
        if has_suffix(file_name, extensions[i]) {
            assert(ends_with(file_name@, slice_texts(extensions@)[i as int]));
            return true;
        }
        i += 1;
    }
    assert forall|j: int| 0 <= j < slice_texts(extensions@).len() implies !ends_with(
        file_name@,
        #[trigger] slice_texts(extensions@)[j],
    ) by {
        assert(slice_texts(extensions@)[j] == extensions@[j]@);
    }
    false
}

/// Picks, from the entries of a walk, the regular files whose name carries
/// one of the suffixes. One unreadable entry abandons the discovery: no
/// partial catalogue is returned.
pub fn find_file(items: &Vec<Walked>, extensions: &[&str]) -> (found: Result<
    Vec<String>,
    DiscoveryError,
>)
    ensures
        found_view(found) == discovery(items@, slice_texts(extensions@)),
{
    let mut files: Vec<String> = Vec::new();
    let mut i: usize = 0;
    while i < items.len()
        invariant
            i <= items.len(),
            first_failure(items@.take(i as int)) is None,
            texts(files@) == catalogue(items@.take(i as int), slice_texts(extensions@)),
        decreases items.len() - i,
    {
        let ghost before = files@;
        assert(items@.take(i as int + 1).drop_last() =~= items@.take(i as int));
        match &items[i] {
            Walked::Entry { path, file_name, is_file } => {
                if *is_file && has_any_suffix(file_name.as_str(), extensions) {
                    files.push(path.clone());
                    assert(texts(files@) =~= texts(before).push(path@));
                }
            },
            Walked::Unreadable { reason } => {
                proof {
                    lemma_failure_persists(items@, i as int + 1);
                }
                return Err(DiscoveryError::UnreadableEntry(reason.clone()));
            },
        }
        i += 1;
    }
    assert(items@.take(i as int) =~= items@);
    Ok(files)
}

/// The suffixes of the files that are compiled.
pub open spec fn source_suffixes() -> Seq<Seq<char>> {
    seq![".cpp"@, ".c"@]
}

/// The suffixes of all the project's code: the sources and the headers.
pub open spec fn code_suffixes() -> Seq<Seq<char>> {
    seq![".hpp"@, ".h"@, ".cpp"@, ".c"@]
}

/// The suffix of the object files.
pub open spec fn object_suffixes() -> Seq<Seq<char>> {
    seq![".o"@]
}

/// The files to compile among the entries of a walk of the source directory.
pub fn find_srcs(items: &Vec<Walked>) -> (found: Result<Vec<String>, DiscoveryError>)
    ensures
        found_view(found) == discovery(items@, source_suffixes()),
{
    let extensions = [".cpp", ".c"];
    assert(slice_texts(extensions@) =~= source_suffixes());
    find_file(items, &extensions)
}

/// The sources and headers among the entries of a walk of the source
/// directory.
pub fn find_code(items: &Vec<Walked>) -> (found: Result<Vec<String>, DiscoveryError>)
    ensures
        found_view(found) == discovery(items@, code_suffixes()),
{
    let extensions = [".hpp", ".h", ".cpp", ".c"];
    assert(slice_texts(extensions@) =~= code_suffixes());
    find_file(items, &extensions)
}

/// The object files among the entries of a walk of a variant's output
/// directory.
pub fn find_objects(items: &Vec<Walked>) -> (found: Result<Vec<String>, DiscoveryError>)
    ensures
        found_view(found) == discovery(items@, object_suffixes()),
{
    let extensions = [".o"];
    assert(slice_texts(extensions@) =~= object_suffixes());
    find_file(items, &extensions)
}

} // verus!
