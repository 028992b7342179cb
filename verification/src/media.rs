//! The document, library and chapter records the reader works with, and
//! the lookup that turns a link target inside the content into a chapter.

use vstd::prelude::*;
use vstd::string::StringSliceAdditionalSpecFns;
use vstd::utf8::encode_utf8;

verus! {

/// One chapter-sized unit of the document: its index and the path of the
/// content file it is rendered from.
#[derive(Debug, Clone, PartialEq, Eq)]
pub struct Chapter {
    pub value: usize,
    pub file_path: String,
}

/// A book as the library lists it.
#[derive(Debug, Clone, PartialEq, Eq)]
pub struct MediaItem {
    pub id: i64,
    pub title: String,
    pub icon_path: Option<String>,
    pub chapter_count: usize,
}

/// A library collection as the server lists it.
#[derive(Debug, Clone, PartialEq, Eq)]
pub struct LibraryColl {
    pub id: i64,
    pub name: String,
}

/// The fields a library is created or edited with.
#[derive(Debug, Clone, PartialEq, Eq)]
pub struct BasicLibrary {
    pub id: Option<i64>,
    pub name: Option<String>,
    pub directories: Option<Vec<String>>,
}

/// A watched directory belonging to a library.
#[derive(Debug, Clone, PartialEq, Eq)]
pub struct BasicDirectory {
    pub library_id: i64,
    pub path: String,
}

/// Whether `path` ends with `suffix` on a whole path-component boundary:
/// the suffix is non-empty, matches the end of the path, and is preceded
/// by nothing or by a path separator.
pub open spec fn spec_path_ends_with(path: Seq<u8>, suffix: Seq<u8>) -> bool {
    &&& suffix.len() > 0
    &&& suffix.len() <= path.len()
    &&& path.subrange(path.len() - suffix.len(), path.len() as int) == suffix
    &&& (suffix.len() == path.len() || path[path.len() - suffix.len() - 1] == 47u8)
}

/// Compares the byte forms of two paths per `spec_path_ends_with`.
pub fn path_ends_with(path: &str, suffix: &str) -> (r: bool)
    ensures
        r == spec_path_ends_with(path.spec_bytes(), suffix.spec_bytes()),
{
    let p = path.as_bytes();
    let s = suffix.as_bytes();
    if s.len() == 0 || s.len() > p.len() {
        return false;
    }
    let offset = p.len() - s.len();
    let mut i: usize = 0;
    while i < s.len()
        invariant
            p@ == path.spec_bytes(),
            s@ == suffix.spec_bytes(),
            0 < s@.len() <= p@.len(),
            p@.len() <= usize::MAX,
            offset == p@.len() - s@.len(),
            i <= s@.len(),
            forall|j: int| 0 <= j < i ==> p@[offset + j] == s@[j],
        decreases s@.len() - i,
    {
        if p[offset + i] != s[i] {
            proof {
                assert(p@.subrange(offset as int, p@.len() as int)[i as int] != s@[i as int]);
            }
            return false;
        }
        i = i + 1;
    }
    proof {
        assert(p@.subrange(offset as int, p@.len() as int) =~= s@);
    }
    if offset == 0 {
        true
    } else {
        p[offset - 1] == 47
    }
}

/// Finds the first fetched chapter whose content file the given link
/// target names, by path suffix on whole components, and returns its
/// chapter index; nothing matches, nothing moves.
pub fn find_chapter_by_path(chapters: &Vec<Chapter>, path: &str) -> (r: Option<usize>)
    ensures
        match r {
            Some(value) => exists|i: int|
                {
                    &&& 0 <= i < chapters@.len()
                    &&& #[trigger] spec_path_ends_with(
                        encode_utf8(chapters@[i].file_path@),
                        path.spec_bytes(),
                    )
                    &&& value == chapters@[i].value
                    &&& forall|j: int|
                        0 <= j < i ==> !spec_path_ends_with(
                            encode_utf8(#[trigger] chapters@[j].file_path@),
                            path.spec_bytes(),
                        )
                },
            None => forall|i: int|
                0 <= i < chapters@.len() ==> !spec_path_ends_with(
                    encode_utf8(#[trigger] chapters@[i].file_path@),
                    path.spec_bytes(),
                ),
        },
{
    let n = chapters.len();
    let mut i: usize = 0;
    while i < n
        invariant
            n == chapters@.len(),
            i <= n,
            forall|j: int|
                0 <= j < i ==> !spec_path_ends_with(
                    encode_utf8(#[trigger] chapters@[j].file_path@),
                    path.spec_bytes(),
                ),
        decreases n - i,
    {
        if path_ends_with(chapters[i].file_path.as_str(), path) {
            return Some(chapters[i].value);
        }
        i = i + 1;
    }
    None
}

/// The chapters fetched for the reader so far, with the document's total.
pub struct LoadedChapters {
    pub total: usize,
    pub chapters: Vec<Chapter>,
}

impl LoadedChapters {
    pub fn new() -> (r: Self)
        ensures
            r.total == 0,
            r.chapters@.len() == 0,
    {
        LoadedChapters { total: 0, chapters: Vec::new() }
    }
}

} // verus!
