//! The progress synchronizer: turns the reader's position into the record
//! to persist, and decides which stored record to restore from.

use vstd::prelude::*;

use crate::progression::Progression;

verus! {

/// What is persisted for a given position. Nothing is persisted while no
/// pages are measured and the reader is still on the first section, so a
/// placeholder never clobbers real stored progress during the initial
/// load. On the last page of the last section the document is complete.
/// Everywhere else a text position is persisted: the current section, its
/// local page, and the byte position (`-1` when unknown).
pub open spec fn spec_compute_progress(
    total_pages: int,
    global_page: int,
    chapter: int,
    local_page: int,
    char_pos: int,
    section_count: int,
) -> Option<Progression> {
    if total_pages == 0 && chapter == 0 {
        Option::None
    } else if total_pages >= 1 && global_page == total_pages - 1 && chapter + 1 == section_count {
        Option::Some(Progression::Complete)
    } else {
        Option::Some(
            Progression::Ebook {
                char_pos: char_pos as i64,
                chapter: chapter as i64,
                page: local_page as i64,
            },
        )
    }
}

/// Computes the progression to persist for the current position, or
/// nothing when the position should leave stored progress untouched
/// (the caller then deletes the stored record, as an empty reader owns
/// no position).
pub fn compute_progress(
    total_pages: usize,
    global_page: usize,
    chapter: usize,
    local_page: usize,
    char_pos: i64,
    section_count: usize,
) -> (r: Option<Progression>)
    requires
        chapter <= i64::MAX,
        local_page <= i64::MAX,
    ensures
        r == spec_compute_progress(
            total_pages as int,
            global_page as int,
            chapter as int,
            local_page as int,
            char_pos as int,
            section_count as int,
        ),
{
    if total_pages == 0 && chapter == 0 {
        None
    } else if total_pages >= 1 && global_page == total_pages - 1 && section_count >= 1 && chapter
        == section_count - 1 {
        Some(Progression::Complete)
    } else {
        Some(Progression::Ebook { char_pos, chapter: chapter as i64, page: local_page as i64 })
    }
}

/// Which stored record restores a position at start-up: only a text
/// position, only while the reader is still on its starting section, and
/// only if the recorded section exists in this document. The result names
/// the section to open and the recorded byte position; the caller maps the
/// byte position to a local page through the render surface, when one is
/// available and the byte position is known.
pub open spec fn spec_restore_target(
    progress: Option<Progression>,
    viewing_chapter: int,
    section_count: int,
) -> Option<(int, int)> {
    match progress {
        Option::Some(Progression::Ebook { char_pos, chapter, page: _ }) => {
            if viewing_chapter == 0 && 0 <= chapter < section_count {
                Option::Some((chapter as int, char_pos as int))
            } else {
                Option::None
            }
        },
        _ => Option::None,
    }
}

/// Decides whether a stored record is honored at start-up, per
/// `spec_restore_target`: returns the section to open and the recorded
/// byte position.
pub fn restore_target(
    progress: &Option<Progression>,
    viewing_chapter: usize,
    section_count: usize,
) -> (r: Option<(usize, i64)>)
    ensures
        match r {
            Some((chapter, char_pos)) => spec_restore_target(
                *progress,
                viewing_chapter as int,
                section_count as int,
            ) == Option::Some((chapter as int, char_pos as int)),
            None => spec_restore_target(
                *progress,
                viewing_chapter as int,
                section_count as int,
            ) is None,
        },
{
    match progress {
        Some(Progression::Ebook { char_pos, chapter, page: _ }) => {
            if viewing_chapter == 0 && *chapter >= 0 && (*chapter as u64) < (section_count as u64) {
                Some((*chapter as usize, *char_pos))
            } else {
                None
            }
        },
        _ => None,
    }
}

} // verus!
