//! Classification of archive entries.  Some Ruby source archives mis-tag
//! directory entries as regular files while still giving them a
//! trailing-slash name; an entry must be treated as a directory in that case
//! or whole directory trees unpack as zero-byte files.

use vstd::prelude::*;

verus! {

/// The declared kind of one archive entry.
#[derive(Clone, Copy, Debug, PartialEq, Eq, Structural)]
pub enum EntryKind {
    /// Declared as a regular file.
    Regular,
    /// Declared as a directory.
    Directory,
    /// Any other declared kind (links, devices, and the like).
    Other,
}

/// The index of the first occurrence of `b` in `s`, if any.
pub open spec fn find_byte(s: Seq<u8>, b: u8) -> Option<int>
    decreases s.len(),
{
    if s.len() == 0 {
        None
    } else if s[0] == b {
        Some(0)
    } else {
        match find_byte(s.drop_first(), b) {
            Some(i) => Some(i + 1),
            None => None,
        }
    }
}

/// `find_byte` returns the position of `b` when nothing earlier matches.
pub proof fn lemma_find_byte_at(s: Seq<u8>, b: u8, i: int)
    requires
        0 <= i < s.len(),
        s[i] == b,
        forall|j: int| 0 <= j < i ==> s[j] != b,
    ensures
        find_byte(s, b) == Some(i),
    decreases i,
{
    if i > 0 {
        lemma_find_byte_at(s.drop_first(), b, i - 1);
    }
}

/// `find_byte` returns nothing when no byte matches.
pub proof fn lemma_find_byte_none(s: Seq<u8>, b: u8)
    requires
        forall|j: int| 0 <= j < s.len() ==> s[j] != b,
    ensures
        find_byte(s, b) is None,
    decreases s.len(),
{
    if s.len() > 0 {
        lemma_find_byte_none(s.drop_first(), b);
    }
}

/// Relies on `memchr::memchr`: the index of the first occurrence of
/// `needle` in `haystack`, or nothing when the byte does not occur.
#[verifier::external_body]
fn memchr_find(needle: u8, haystack: &[u8]) -> (r: Option<usize>)
    ensures
        match r {
            Some(i) => i < haystack@.len() && haystack@[i as int] == needle && forall|j: int|
                0 <= j < i ==> haystack@[j] != needle,
            None => forall|j: int| 0 <= j < haystack@.len() ==> haystack@[j] != needle,
        },
{
    memchr::memchr(needle, haystack)
}

/// Where the name stored in a fixed-width name field ends: at its first NUL
/// terminator, or at the end of the field when no NUL is present.
pub open spec fn name_end(name: Seq<u8>) -> int {
    match find_byte(name, 0) {
        Some(i) => i,
        None => name.len() as int,
    }
}

/// Whether the stored name ends with the path separator `/`.
pub open spec fn trailing_slash(name: Seq<u8>) -> bool {
    name_end(name) > 0 && name[name_end(name) - 1] == 47
}

/// Whether one archive entry is a directory: a declared directory always is,
/// a declared regular file is exactly when its stored name carries a
/// trailing slash, and every other declared kind is not.
pub open spec fn spec_is_directory(declared: EntryKind, name: Seq<u8>) -> bool {
    match declared {
        EntryKind::Directory => true,
        EntryKind::Regular => trailing_slash(name),
        EntryKind::Other => false,
    }
}

/// Classifies one archive entry as directory or not, from its declared kind
/// and its raw fixed-width name field.
pub fn is_directory(declared: EntryKind, raw_name: &[u8]) -> (r: bool)
    ensures
        r == spec_is_directory(declared, raw_name@),
{
    match declared {
        EntryKind::Directory => true,
        EntryKind::Other => false,
        EntryKind::Regular => {
            let end = match memchr_find(0, raw_name) {
                Some(i) => {
                    proof {
                        lemma_find_byte_at(raw_name@, 0, i as int);
                    }
                    i
                },
                None => {
                    proof {
                        lemma_find_byte_none(raw_name@, 0);
                    }
                    raw_name.len()
                },
            };
            if end > 0 {
                let b = raw_name[end - 1];
                b == 47
            } else {
                false
            }
        },
    }
}

} // verus!
