//! Per-section state: a section's load progress and, once a render surface
//! exists, its measured pages and position inside the global page sequence.

use vstd::prelude::*;

verus! {

/// One page of the global page sequence: a section index paired with the
/// page's index local to that section.
#[derive(Debug, Clone, Copy, PartialEq, Eq, Structural)]
pub struct CachedPage {
    pub chapter: usize,
    pub chapter_local_page: usize,
}

/// The contents of a section once a render surface has been created for it:
/// the surface handle, the pages the surface reported, the section's offset
/// into the global page sequence, and which local page the reader is viewing.
pub struct SectionContents {
    /// Identifies the render surface the surrounding application created for
    /// this section. The engine never looks inside a surface; it only keeps
    /// the handle so the application can find the surface again.
    pub handle: u64,

    /// The section's index within the document.
    pub chapter: usize,

    /// Global Page Index: the number of pages in loaded sections before this
    /// one. Maintained by the store whenever a section finishes loading or is
    /// re-measured.
    pub gpi: usize,

    /// The local page currently shown.
    pub viewing_page: usize,

    /// One entry per measured page, in order.
    pub cached_pages: Vec<CachedPage>,
}

impl SectionContents {
    /// A fresh section surface: no measured pages yet, viewing its first page.
    pub fn new(chapter: usize, handle: u64) -> (r: Self)
        ensures
            r.chapter == chapter,
            r.handle == handle,
            r.gpi == 0,
            r.viewing_page == 0,
            r.cached_pages@.len() == 0,
    {
        SectionContents {
            handle,
            chapter,
            gpi: 0,
            viewing_page: 0,
            cached_pages: Vec::new(),
        }
    }

    /// How many pages this section's surface reported.
    pub fn page_count(&self) -> (r: usize)
        ensures
            r == self.cached_pages@.len(),
    {
        self.cached_pages.len()
    }

    pub fn viewing_page(&self) -> (r: usize)
        ensures
            r == self.viewing_page,
    {
        self.viewing_page
    }

    pub fn chapter(&self) -> (r: usize)
        ensures
            r == self.chapter,
    {
        self.chapter
    }

    /// The global page number just past this section: its offset plus its
    /// local page count.
    pub fn get_page_count_until(&self) -> (r: usize)
        requires
            self.gpi + self.cached_pages@.len() <= usize::MAX,
        ensures
            r == self.gpi + self.cached_pages@.len(),
    {
        self.gpi + self.cached_pages.len()
    }
}

/// The load state of one section. A section only ever moves forward:
/// `Waiting` to `Loading` when a surface is requested, `Loading` to `Loaded`
/// when the surface reports its page count.
pub enum SectionLoadProgress {
    Waiting,
    Loading(SectionContents),
    Loaded(SectionContents),
}

impl SectionLoadProgress {
    pub open spec fn spec_is_waiting(self) -> bool {
        self is Waiting
    }

    pub open spec fn spec_is_loading(self) -> bool {
        self is Loading
    }

    pub open spec fn spec_is_loaded(self) -> bool {
        self is Loaded
    }

    /// The contents, for any state that has a surface.
    pub open spec fn spec_contents(self) -> SectionContents
        recommends !self.spec_is_waiting(),
    {
        match self {
            SectionLoadProgress::Waiting => arbitrary(),
            SectionLoadProgress::Loading(c) => c,
            SectionLoadProgress::Loaded(c) => c,
        }
    }

    /// The pages this section contributes to the global page sequence:
    /// only a fully measured section contributes any.
    pub open spec fn spec_page_count(self) -> nat {
        if self.spec_is_loaded() {
            self.spec_contents().cached_pages@.len()
        } else {
            0
        }
    }

    /// The local page the reader would see in this section; a section with
    /// no surface is always on its first page.
    pub open spec fn spec_viewing_page(self) -> nat {
        if self.spec_is_waiting() {
            0
        } else {
            self.spec_contents().viewing_page as nat
        }
    }

    pub fn is_waiting(&self) -> (r: bool)
        ensures
            r == self.spec_is_waiting(),
    {
        matches!(self, SectionLoadProgress::Waiting)
    }

    pub fn is_loading(&self) -> (r: bool)
        ensures
            r == self.spec_is_loading(),
    {
        matches!(self, SectionLoadProgress::Loading(_))
    }

    pub fn is_loaded(&self) -> (r: bool)
        ensures
            r == self.spec_is_loaded(),
    {
        matches!(self, SectionLoadProgress::Loaded(_))
    }

    pub fn as_loaded(&self) -> (r: Option<&SectionContents>)
        ensures
            match r {
                Some(c) => self.spec_is_loaded() && *c == self.spec_contents(),
                None => !self.spec_is_loaded(),
            },
    {
        match self {
            SectionLoadProgress::Loaded(c) => Some(c),
            _ => None,
        }
    }

    /// The contents of any section that has a surface, loading or loaded.
    pub fn as_chapter(&self) -> (r: Option<&SectionContents>)
        ensures
            match r {
                Some(c) => !self.spec_is_waiting() && *c == self.spec_contents(),
                None => self.spec_is_waiting(),
            },
    {
        match self {
            SectionLoadProgress::Loading(c) => Some(c),
            SectionLoadProgress::Loaded(c) => Some(c),
            SectionLoadProgress::Waiting => None,
        }
    }

    pub fn as_chapter_mut(&mut self) -> (r: Option<&mut SectionContents>)
        ensures
            match r {
                Some(c) => !old(self).spec_is_waiting()
                    && *c == old(self).spec_contents()
                    && !final(self).spec_is_waiting()
                    && final(self).spec_is_loaded() == old(self).spec_is_loaded()
                    && final(self).spec_contents() == *final(c),
                None => old(self).spec_is_waiting() && *final(self) == *old(self),
            },
    {
        match self {
            SectionLoadProgress::Loading(c) => Some(c),
            SectionLoadProgress::Loaded(c) => Some(c),
            SectionLoadProgress::Waiting => None,
        }
    }
}

} // verus!
