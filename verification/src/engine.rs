//! The reader engine: owner of all navigation state.
//!
//! The engine holds the section store, the authoritative position (section
//! index and in-section page), the active display mode and the transient
//! gesture state. Every mutation happens through one of its methods, in
//! response to a discrete event the surrounding application delivers: a
//! load completion, a pointer or scroll gesture, a timer, or a navigation
//! command. The application performs the rendering, timers and persistence
//! the outcomes ask for.

use vstd::prelude::*;

use crate::display::NavOutcome;
use crate::display::SectionDisplay;
use crate::display::adv_crosses;
use crate::display::adv_handled;
use crate::display::adv_target;
use crate::display::last_page;
use crate::display::ret_crosses;
use crate::display::ret_handled;
use crate::display::ret_target;
use crate::display::valid_position;
use crate::gesture::DragResolution;
use crate::gesture::DragType;
use crate::gesture::GestureController;
use crate::gesture::OverlayEvent;
use crate::gesture::PAGE_CHANGE_DRAG_AMOUNT;
use crate::gesture::SCROLL_IDLE_FIFTHS;
use crate::gesture::SCROLL_TRIGGER_FIFTHS;
use crate::gesture::ScrollResolution;
use crate::gesture::spec_damp;
use crate::media::Chapter;
use crate::progress::compute_progress;
use crate::progress::spec_compute_progress;
use crate::progress::spec_restore_target;
use crate::progression::Progression;
use crate::store::SectionStore;
use crate::store::clamp_count;

verus! {

/// Whether sections are requested all at once or selectively, near the
/// reading position.
#[derive(Debug, Clone, Copy, PartialEq, Eq, Structural)]
pub enum PageLoadType {
    All,
    Select,
}

impl Default for PageLoadType {
    fn default() -> (r: Self)
        ensures
            r == PageLoadType::Select,
    {
        PageLoadType::Select
    }
}

/// The externally supplied display settings: layout mode, viewport
/// dimensions and presentation flags. Read-only to the engine; a change
/// triggers a re-layout pass.
#[derive(Debug, Clone, Copy, PartialEq)]
pub struct ReaderSettings {
    pub load_speed: usize,
    pub type_of: PageLoadType,
    pub is_fullscreen: bool,
    pub display: SectionDisplay,
    pub show_progress: bool,
    pub dimensions: (i32, i32),
}

impl Default for ReaderSettings {
    fn default() -> (r: Self)
        ensures
            r == (ReaderSettings {
                load_speed: 0usize,
                type_of: PageLoadType::Select,
                is_fullscreen: false,
                display: SectionDisplay::Double,
                show_progress: false,
                dimensions: (0i32, 0i32),
            }),
    {
        ReaderSettings {
            load_speed: 0,
            type_of: PageLoadType::Select,
            is_fullscreen: false,
            display: SectionDisplay::Double,
            show_progress: false,
            dimensions: (0, 0),
        }
    }
}

/// What a load completion did: whether it was fresh (a stale or duplicate
/// completion applies nothing), whether the whole document is now
/// measured, and whether any load is still in flight (when none is, more
/// sections can be requested).
#[derive(Debug, Clone, Copy, PartialEq, Eq, Structural)]
pub struct LoadOutcome {
    pub applied: bool,
    pub all_loaded: bool,
    pub none_loading: bool,
}

/// The position the engine reports upward: the global page and page
/// count, and the section and section count.
#[derive(Debug, Clone, Copy, PartialEq, Eq, Structural)]
pub struct ReaderPosition {
    pub global_page: usize,
    pub total_pages: usize,
    pub section_index: usize,
    pub total_sections: usize,
}

pub struct ReaderEngine {
    pub store: SectionStore,
    pub viewing_chapter: usize,
    pub display: SectionDisplay,
    pub dimensions: (i32, i32),
    pub gesture: GestureController,
}

impl ReaderEngine {
    /// The engine's invariant: a well-formed store and gesture state, an
    /// in-range position, and totals small enough to convert into the
    /// persisted record's integer fields.
    pub open spec fn wf(self) -> bool {
        &&& self.store.wf()
        &&& self.gesture.wf()
        &&& self.store.section_count() <= i64::MAX
        &&& self.store.total_pages() <= i64::MAX
        &&& (if self.store.section_count() == 0 {
            self.viewing_chapter == 0
        } else {
            (self.viewing_chapter as int) < self.store.section_count()
        })
    }

    /// The per-section page counts the display-mode transitions run over.
    pub open spec fn counts(self) -> Seq<nat> {
        Seq::new(
            self.store.section_count() as nat,
            |i: int| self.store.page_count_of(i),
        )
    }

    pub open spec fn cur_sec(self) -> int {
        self.viewing_chapter as int
    }

    pub open spec fn cur_page(self) -> nat {
        self.store.viewing_page_of(self.cur_sec())
    }

    /// The reader's global page: the current section's offset plus its
    /// viewing page, or zero while the current section is unmeasured.
    pub open spec fn spec_global_page(self) -> nat {
        if self.store.section_count() > 0 && self.store.is_loaded(self.cur_sec()) {
            self.store.offset_up_to(self.cur_sec()) + self.cur_page()
        } else {
            0
        }
    }

    /// A fresh engine over a document of `chapter_count` sections: nothing
    /// requested, the reader on the first page of the first section.
    pub fn new(chapter_count: usize, settings: &ReaderSettings) -> (r: Self)
        requires
            chapter_count <= i64::MAX,
        ensures
            r.wf(),
            r.store.section_count() == chapter_count,
            forall|i: int| 0 <= i < chapter_count ==> r.store.is_waiting(i),
            forall|i: int| 0 <= i < chapter_count ==> #[trigger] r.store.slot(i) is Waiting,
            r.store.total_pages() == 0,
            r.viewing_chapter == 0,
            r.display == settings.display,
            r.dimensions == settings.dimensions,
            r.gesture.drag_distance == 0,
            r.gesture.scroll_accum == 0,
            r.gesture.drag_threshold == PAGE_CHANGE_DRAG_AMOUNT,
    {
        ReaderEngine {
            store: SectionStore::new(chapter_count),
            viewing_chapter: 0,
            display: settings.display,
            dimensions: settings.dimensions,
            gesture: GestureController::new(PAGE_CHANGE_DRAG_AMOUNT),
        }
    }

    pub fn section_count(&self) -> (r: usize)
        ensures
            r == self.store.section_count(),
    {
        self.store.section_count_exec()
    }

    /// The document-wide page count over the sections loaded so far.
    pub fn global_page_count(&self) -> (r: usize)
        requires
            self.wf(),
        ensures
            r == self.store.total_pages(),
    {
        self.store.global_page_count()
    }

    /// The reader's global page number.
    pub fn current_page_pos(&self) -> (r: usize)
        requires
            self.wf(),
        ensures
            r == self.spec_global_page(),
    {
        let n = self.store.section_count_exec();
        if n == 0 {
            return 0;
        }
        if self.store.is_loaded_at(self.viewing_chapter) {
            proof {
                self.store.lemma_offset_monotone(
                    self.cur_sec() + 1,
                    self.store.section_count(),
                );
                assert(self.store.slot_wf(self.cur_sec()));
            }
            let offset = self.store.offset_at(self.viewing_chapter);
            let page = self.store.viewing_page_at(self.viewing_chapter);
            offset + page
        } else {
            0
        }
    }

    /// The position reported upward to the surrounding interface.
    pub fn current_position(&self) -> (r: ReaderPosition)
        requires
            self.wf(),
        ensures
            r.global_page == self.spec_global_page(),
            r.total_pages == self.store.total_pages(),
            r.section_index == self.viewing_chapter,
            r.total_sections == self.store.section_count(),
    {
        ReaderPosition {
            global_page: self.current_page_pos(),
            total_pages: self.store.global_page_count(),
            section_index: self.viewing_chapter,
            total_sections: self.store.section_count_exec(),
        }
    }

    /// True once every section is measured.
    pub fn are_all_sections_loaded(&self) -> (r: bool)
        ensures
            r <==> forall|i: int| 0 <= i < self.store.section_count() ==> self.store.is_loaded(i),
    {
        self.store.is_fully_loaded()
    }

    /// Marks a section as having a render surface on the way; a no-op
    /// unless the section was still waiting, so at most one load is ever
    /// in flight per section.
    pub fn request_load(&mut self, index: usize, handle: u64) -> (applied: bool)
        requires
            old(self).wf(),
        ensures
            final(self).wf(),
            applied <==> (index < old(self).store.section_count() && old(self).store.is_waiting(
                index as int,
            )),
            final(self).viewing_chapter == old(self).viewing_chapter,
            final(self).display == old(self).display,
            final(self).gesture == old(self).gesture,
            final(self).store.section_count() == old(self).store.section_count(),
            final(self).store.total_pages() == old(self).store.total_pages(),
            applied ==> final(self).store.is_loading(index as int),
            !applied ==> final(self).store == old(self).store,
            forall|j: int|
                0 <= j < old(self).store.section_count() && j != index ==> final(self).store.slot(j)
                    == old(self).store.slot(j),
            forall|i: int|
                0 <= i < old(self).store.section_count() ==> {
                    &&& final(self).store.page_count_of(i) == old(self).store.page_count_of(i)
                    &&& final(self).store.viewing_page_of(i) == old(self).store.viewing_page_of(i)
                },
    {
        self.store.request_load(index, handle)
    }

    /// Applies a load completion: the surface of section `index` reported
    /// `page_count` local pages. A completion for a section that was not
    /// loading is stale or duplicate and changes nothing. On a fresh
    /// completion the pagination index is re-derived, and the section
    /// before the reader is put on its last page, so a backward turn at a
    /// freshly loaded boundary lands where the reader expects. The outcome
    /// reports whether every section is now measured and whether any load
    /// is still in flight.
    pub fn on_section_loaded(&mut self, index: usize, page_count: usize) -> (r: LoadOutcome)
        requires
            old(self).wf(),
            old(self).store.total_pages() + clamp_count(page_count) <= i64::MAX,
            old(self).store.total_pages() + clamp_count(page_count) <= usize::MAX,
        ensures
            final(self).wf(),
            r.applied <==> (index < old(self).store.section_count()
                && old(self).store.is_loading(index as int)),
            !r.applied ==> *final(self) == *old(self),
            final(self).viewing_chapter == old(self).viewing_chapter,
            final(self).display == old(self).display,
            final(self).gesture == old(self).gesture,
            final(self).store.section_count() == old(self).store.section_count(),
            r.applied ==> {
                &&& final(self).store.is_loaded(index as int)
                &&& final(self).store.page_count_of(index as int) == clamp_count(page_count)
                &&& final(self).store.total_pages() == old(self).store.total_pages() + clamp_count(
                    page_count,
                )
                &&& forall|j: int|
                    0 <= j < old(self).store.section_count() && j != index ==> {
                        &&& final(self).store.is_loaded(j) == old(self).store.is_loaded(j)
                        &&& final(self).store.is_loading(j) == old(self).store.is_loading(j)
                        &&& final(self).store.page_count_of(j) == old(self).store.page_count_of(j)
                    }
            },
            r.applied && old(self).viewing_chapter == 0 ==> {
                &&& final(self).store.viewing_page_of(index as int) == 0
                &&& forall|j: int|
                    0 <= j < old(self).store.section_count() && j != index
                        ==> final(self).store.viewing_page_of(j) == old(self).store.viewing_page_of(
                        j,
                    )
            },
            r.applied && old(self).viewing_chapter >= 1 ==> ({
                let prev = old(self).viewing_chapter - 1;
                &&& (prev != index ==> final(self).store.viewing_page_of(index as int) == 0)
                &&& final(self).store.viewing_page_of(prev) == (
                if final(self).store.page_count_of(prev) >= 1 {
                    (final(self).store.page_count_of(prev) - 1) as nat
                } else {
                    0nat
                })
                &&& forall|j: int|
                    0 <= j < old(self).store.section_count() && j != index && j != prev
                        ==> final(self).store.viewing_page_of(j) == old(self).store.viewing_page_of(
                        j,
                    )
            }),
            (r.all_loaded <==> forall|i: int|
                0 <= i < final(self).store.section_count() ==> final(self).store.is_loaded(i)),
            (r.none_loading <==> forall|i: int|
                0 <= i < final(self).store.section_count() ==> !final(self).store.is_loading(i)),
    {
        let applied = self.store.complete_load(index, page_count);
        if applied && self.viewing_chapter >= 1 {
            // Put the section behind the reader on its last page, as the
            // natural landing point of the next backward turn.
            let prev = self.viewing_chapter - 1;
            if prev < self.store.section_count_exec() {
                self.store.set_last_page(prev);
            }
        }
        let all_loaded = self.store.is_fully_loaded();
        let none_loading = self.store.none_loading();
        LoadOutcome { applied, all_loaded, none_loading }
    }

    /// Applies a re-measurement of an already-loaded section after the
    /// viewport changed.
    pub fn on_section_remeasured(&mut self, index: usize, page_count: usize) -> (applied: bool)
        requires
            old(self).wf(),
            old(self).store.total_pages() - old(self).store.page_count_of(index as int)
                + clamp_count(page_count) <= i64::MAX,
            old(self).store.total_pages() - old(self).store.page_count_of(index as int)
                + clamp_count(page_count) <= usize::MAX,
        ensures
            final(self).wf(),
            applied <==> (index < old(self).store.section_count() && old(self).store.is_loaded(
                index as int,
            )),
            !applied ==> *final(self) == *old(self),
            final(self).viewing_chapter == old(self).viewing_chapter,
            final(self).display == old(self).display,
            final(self).gesture == old(self).gesture,
            final(self).store.section_count() == old(self).store.section_count(),
            applied ==> {
                &&& final(self).store.page_count_of(index as int) == clamp_count(page_count)
                &&& final(self).store.total_pages() == old(self).store.total_pages() - old(
                    self,
                ).store.page_count_of(index as int) + clamp_count(page_count)
                &&& final(self).store.viewing_page_of(index as int) == (
                if old(self).store.viewing_page_of(index as int) < clamp_count(page_count) {
                    old(self).store.viewing_page_of(index as int)
                } else {
                    (clamp_count(page_count) - 1) as nat
                })
                &&& forall|j: int|
                    0 <= j < old(self).store.section_count() && j != index ==> {
                        &&& final(self).store.is_loaded(j) == old(self).store.is_loaded(j)
                        &&& final(self).store.page_count_of(j) == old(self).store.page_count_of(j)
                        &&& final(self).store.viewing_page_of(j) == old(
                            self,
                        ).store.viewing_page_of(j)
                    }
            },
    {
        self.store.set_page_count(index, page_count)
    }

    /// No section moved and the reader stayed where it was.
    pub open spec fn positions_unchanged(a: Self, b: Self) -> bool {
        &&& b.viewing_chapter == a.viewing_chapter
        &&& forall|i: int|
            0 <= i < a.store.section_count() ==> b.store.viewing_page_of(i)
                == a.store.viewing_page_of(i)
    }

    /// What no navigation operation changes: the sections, their load
    /// states and page counts, and the display settings.
    pub open spec fn nav_frame(a: Self, b: Self) -> bool {
        &&& b.store.section_count() == a.store.section_count()
        &&& b.store.total_pages() == a.store.total_pages()
        &&& b.display == a.display
        &&& b.dimensions == a.dimensions
        &&& forall|i: int|
            0 <= i < a.store.section_count() ==> {
                &&& b.store.page_count_of(i) == a.store.page_count_of(i)
                &&& b.store.is_loaded(i) == a.store.is_loaded(i)
                &&& b.store.is_loading(i) == a.store.is_loading(i)
                &&& b.store.is_waiting(i) == a.store.is_waiting(i)
            }
    }

    /// The paged-mode advance relation: unhandled (and the position kept)
    /// when there is no current surface or nowhere further to go;
    /// otherwise the position moves to the advance target, a boundary
    /// crossing reports the sections whose viewing stopped and started,
    /// and every other section keeps its page.
    pub open spec fn advance_acts(a: Self, b: Self, r: NavOutcome) -> bool {
        let counts = a.counts();
        let s = a.cur_sec();
        let p = a.cur_page() as int;
        if a.store.section_count() == 0 || a.store.is_waiting(s) || !adv_handled(counts, s, p) {
            &&& r == NavOutcome::Unhandled
            &&& Self::positions_unchanged(a, b)
        } else {
            &&& b.viewing_chapter == adv_target(counts, s, p).0
            &&& b.store.viewing_page_of(adv_target(counts, s, p).0) == adv_target(counts, s, p).1
            &&& (if adv_crosses(counts, s, p) {
                &&& r == (NavOutcome::SectionChanged {
                    stopped: s as usize,
                    started: (s + 1) as usize,
                })
                &&& b.store.viewing_page_of(s) == a.store.viewing_page_of(s)
            } else {
                r == NavOutcome::PageChanged
            })
            &&& forall|i: int|
                0 <= i < a.store.section_count() && i != s && i != adv_target(counts, s, p).0
                    ==> b.store.viewing_page_of(i) == a.store.viewing_page_of(i)
        }
    }

    /// The paged-mode retreat relation, the mirror of `advance_acts`: a
    /// boundary crossing lands on the previous section's last page.
    pub open spec fn retreat_acts(a: Self, b: Self, r: NavOutcome) -> bool {
        let counts = a.counts();
        let s = a.cur_sec();
        let p = a.cur_page() as int;
        if a.store.section_count() == 0 || a.store.is_waiting(s) || !ret_handled(counts, s, p) {
            &&& r == NavOutcome::Unhandled
            &&& Self::positions_unchanged(a, b)
        } else {
            &&& b.viewing_chapter == ret_target(counts, s, p).0
            &&& b.store.viewing_page_of(ret_target(counts, s, p).0) == ret_target(counts, s, p).1
            &&& (if ret_crosses(counts, s, p) {
                &&& r == (NavOutcome::SectionChanged {
                    stopped: s as usize,
                    started: (s - 1) as usize,
                })
                &&& b.store.viewing_page_of(s) == a.store.viewing_page_of(s)
            } else {
                r == NavOutcome::PageChanged
            })
            &&& forall|i: int|
                0 <= i < a.store.section_count() && i != s && i != ret_target(counts, s, p).0
                    ==> b.store.viewing_page_of(i) == a.store.viewing_page_of(i)
        }
    }

    /// The continuous-scroll advance relation: exactly one section forward
    /// when a loaded one exists there, opening on its first page.
    pub open spec fn scroll_advance_acts(a: Self, b: Self, r: NavOutcome) -> bool {
        let s = a.cur_sec();
        if a.store.section_count() == 0 || s + 1 >= a.store.section_count() || !a.store.is_loaded(
            s + 1,
        ) {
            &&& r == NavOutcome::Unhandled
            &&& Self::positions_unchanged(a, b)
        } else {
            &&& r == (NavOutcome::SectionChanged { stopped: s as usize, started: (s + 1) as usize })
            &&& b.viewing_chapter == s + 1
            &&& b.store.viewing_page_of(s + 1) == 0
            &&& forall|i: int|
                0 <= i < a.store.section_count() && i != s + 1 ==> b.store.viewing_page_of(i)
                    == a.store.viewing_page_of(i)
        }
    }

    /// The continuous-scroll retreat relation: exactly one section back
    /// when a loaded one exists there, opening on its first page.
    pub open spec fn scroll_retreat_acts(a: Self, b: Self, r: NavOutcome) -> bool {
        let s = a.cur_sec();
        if a.store.section_count() == 0 || s == 0 || !a.store.is_loaded(s - 1) {
            &&& r == NavOutcome::Unhandled
            &&& Self::positions_unchanged(a, b)
        } else {
            &&& r == (NavOutcome::SectionChanged { stopped: s as usize, started: (s - 1) as usize })
            &&& b.viewing_chapter == s - 1
            &&& b.store.viewing_page_of(s - 1) == 0
            &&& forall|i: int|
                0 <= i < a.store.section_count() && i != s - 1 ==> b.store.viewing_page_of(i)
                    == a.store.viewing_page_of(i)
        }
    }

    /// One advance of the active display mode: a page in the paged
    /// layouts, a section in continuous scroll.
    pub fn advance(&mut self) -> (r: NavOutcome)
        requires
            old(self).wf(),
        ensures
            final(self).wf(),
            Self::nav_frame(*old(self), *final(self)),
            final(self).gesture == old(self).gesture,
            if old(self).display.spec_is_scroll() {
                Self::scroll_advance_acts(*old(self), *final(self), r)
            } else {
                Self::advance_acts(*old(self), *final(self), r)
            },
    {
        let n = self.store.section_count_exec();
        if n == 0 {
            return NavOutcome::Unhandled;
        }
        let cur = self.viewing_chapter;
        if self.display.is_scroll() {
            if cur + 1 < n && self.store.is_loaded_at(cur + 1) {
                proof {
                    assert(self.store.slot_wf(cur + 1 as int));
                }
                self.store.set_viewing_page(cur + 1, 0);
                self.viewing_chapter = cur + 1;
                NavOutcome::SectionChanged { stopped: cur, started: cur + 1 }
            } else {
                NavOutcome::Unhandled
            }
        } else {
            if self.store.is_waiting_at(cur) {
                return NavOutcome::Unhandled;
            }
            proof {
                assert(self.store.slot_wf(cur as int));
            }
            let count = self.store.page_count_at(cur);
            let page = self.store.viewing_page_at(cur);
            if page + 1 < count {
                self.store.set_viewing_page(cur, page + 1);
                NavOutcome::PageChanged
            } else if cur + 1 < n {
                proof {
                    assert(self.store.slot_wf(cur + 1 as int));
                }
                self.store.set_viewing_page(cur + 1, 0);
                self.viewing_chapter = cur + 1;
                NavOutcome::SectionChanged { stopped: cur, started: cur + 1 }
            } else {
                NavOutcome::Unhandled
            }
        }
    }

    /// One retreat of the active display mode, the mirror of `advance`.
    pub fn retreat(&mut self) -> (r: NavOutcome)
        requires
            old(self).wf(),
        ensures
            final(self).wf(),
            Self::nav_frame(*old(self), *final(self)),
            final(self).gesture == old(self).gesture,
            if old(self).display.spec_is_scroll() {
                Self::scroll_retreat_acts(*old(self), *final(self), r)
            } else {
                Self::retreat_acts(*old(self), *final(self), r)
            },
    {
        let n = self.store.section_count_exec();
        if n == 0 {
            return NavOutcome::Unhandled;
        }
        let cur = self.viewing_chapter;
        if self.display.is_scroll() {
            if cur > 0 && self.store.is_loaded_at(cur - 1) {
                proof {
                    assert(self.store.slot_wf(cur - 1 as int));
                }
                self.store.set_viewing_page(cur - 1, 0);
                self.viewing_chapter = cur - 1;
                NavOutcome::SectionChanged { stopped: cur, started: cur - 1 }
            } else {
                NavOutcome::Unhandled
            }
        } else {
            if self.store.is_waiting_at(cur) {
                return NavOutcome::Unhandled;
            }
            proof {
                assert(self.store.slot_wf(cur as int));
            }
            let page = self.store.viewing_page_at(cur);
            if page > 0 {
                self.store.set_viewing_page(cur, page - 1);
                NavOutcome::PageChanged
            } else if cur > 0 {
                self.store.set_last_page(cur - 1);
                self.viewing_chapter = cur - 1;
                NavOutcome::SectionChanged { stopped: cur, started: cur - 1 }
            } else {
                NavOutcome::Unhandled
            }
        }
    }

    /// Law: in the paged layouts, an advance the engine handled followed
    /// by a retreat brings the reader back to the original (section,
    /// page), provided the advance did not land in a section that still
    /// has no surface (from which nothing navigates). `a`, `b` and `c` are
    /// the engine before the advance, between the calls, and after the
    /// retreat; `r1` and `r2` are what the two calls returned.
    pub proof fn lemma_engine_retreat_undoes_advance(
        a: ReaderEngine,
        b: ReaderEngine,
        c: ReaderEngine,
        r1: NavOutcome,
        r2: NavOutcome,
    )
        requires
            a.wf(),
            !a.display.spec_is_scroll(),
            Self::nav_frame(a, b),
            Self::nav_frame(b, c),
            Self::advance_acts(a, b, r1),
            r1 != NavOutcome::Unhandled,
            !a.store.is_waiting(adv_target(a.counts(), a.cur_sec(), a.cur_page() as int).0),
            Self::retreat_acts(b, c, r2),
        ensures
            r2 != NavOutcome::Unhandled,
            c.viewing_chapter == a.viewing_chapter,
            c.cur_page() == a.cur_page(),
    {
        let counts = a.counts();
        let s = a.cur_sec();
        let p = a.cur_page() as int;
        assert(a.store.slot_wf(s));
        assert(valid_position(counts, s, p));
        crate::display::lemma_retreat_undoes_advance(counts, s, p);
        assert(b.counts() =~= counts);
        let (ns, np) = adv_target(counts, s, p);
        assert(b.cur_sec() == ns && b.cur_page() as int == np);
        assert(!b.store.is_waiting(ns));
        assert(ret_target(counts, ns, np) == (s, p));
        if ret_crosses(counts, ns, np) {
            assert(c.store.viewing_page_of(s) == ret_target(counts, ns, np).1);
        }
    }

    /// The forward navigation command, as the surrounding interface issues
    /// it: at the last loaded page (paged) or last section (scroll) it is
    /// refused outright; otherwise it advances and clears any live drag.
    pub open spec fn next_page_acts(a: Self, b: Self, r: NavOutcome) -> bool {
        if a.display.spec_is_scroll() {
            if a.store.section_count() > 0 && a.cur_sec() + 1 == a.store.section_count() {
                &&& r == NavOutcome::Unhandled
                &&& Self::positions_unchanged(a, b)
                &&& b.gesture == a.gesture
            } else {
                &&& Self::scroll_advance_acts(a, b, r)
                &&& b.gesture.drag_distance == 0
                &&& b.gesture.scroll_accum == a.gesture.scroll_accum
                &&& b.gesture.drag_threshold == a.gesture.drag_threshold
            }
        } else {
            if a.store.total_pages() > 0 && a.spec_global_page() == a.store.total_pages() - 1 {
                &&& r == NavOutcome::Unhandled
                &&& Self::positions_unchanged(a, b)
                &&& b.gesture == a.gesture
            } else {
                &&& Self::advance_acts(a, b, r)
                &&& b.gesture.drag_distance == 0
                &&& b.gesture.scroll_accum == a.gesture.scroll_accum
                &&& b.gesture.drag_threshold == a.gesture.drag_threshold
            }
        }
    }

    /// The backward navigation command: at the first page (paged) or first
    /// section (scroll) it is refused outright; otherwise it retreats and
    /// clears any live drag.
    pub open spec fn previous_page_acts(a: Self, b: Self, r: NavOutcome) -> bool {
        if a.display.spec_is_scroll() {
            if a.cur_sec() == 0 {
                &&& r == NavOutcome::Unhandled
                &&& Self::positions_unchanged(a, b)
                &&& b.gesture == a.gesture
            } else {
                &&& Self::scroll_retreat_acts(a, b, r)
                &&& b.gesture.drag_distance == 0
                &&& b.gesture.scroll_accum == a.gesture.scroll_accum
                &&& b.gesture.drag_threshold == a.gesture.drag_threshold
            }
        } else {
            if a.spec_global_page() == 0 {
                &&& r == NavOutcome::Unhandled
                &&& Self::positions_unchanged(a, b)
                &&& b.gesture == a.gesture
            } else {
                &&& Self::retreat_acts(a, b, r)
                &&& b.gesture.drag_distance == 0
                &&& b.gesture.scroll_accum == a.gesture.scroll_accum
                &&& b.gesture.drag_threshold == a.gesture.drag_threshold
            }
        }
    }

    /// Turns forward: the `nextPage` command of the navigation interface.
    pub fn next_page(&mut self) -> (r: NavOutcome)
        requires
            old(self).wf(),
        ensures
            final(self).wf(),
            Self::nav_frame(*old(self), *final(self)),
            Self::next_page_acts(*old(self), *final(self), r),
    {
        if self.display.is_scroll() {
            let n = self.store.section_count_exec();
            if n > 0 && self.viewing_chapter + 1 == n {
                return NavOutcome::Unhandled;
            }
            let r = self.advance();
            self.gesture.reset_drag();
            r
        } else {
            let pos = self.current_page_pos();
            let total = self.store.global_page_count();
            if total > 0 && pos == total - 1 {
                return NavOutcome::Unhandled;
            }
            let r = self.advance();
            self.gesture.reset_drag();
            r
        }
    }

    /// Turns back: the `previousPage` command of the navigation interface.
    pub fn previous_page(&mut self) -> (r: NavOutcome)
        requires
            old(self).wf(),
        ensures
            final(self).wf(),
            Self::nav_frame(*old(self), *final(self)),
            Self::previous_page_acts(*old(self), *final(self), r),
    {
        if self.display.is_scroll() {
            if self.viewing_chapter == 0 {
                return NavOutcome::Unhandled;
            }
            let r = self.retreat();
            self.gesture.reset_drag();
            r
        } else {
            let pos = self.current_page_pos();
            if pos == 0 {
                return NavOutcome::Unhandled;
            }
            let r = self.retreat();
            self.gesture.reset_drag();
            r
        }
    }

    /// Jumps the paged layouts to a global page: resolves it through the
    /// pagination index and sets the owning section and local page
    /// directly. Fails, moving nothing, exactly on pages beyond every
    /// loaded section.
    pub fn set_page(&mut self, global_page: usize) -> (r: bool)
        requires
            old(self).wf(),
        ensures
            final(self).wf(),
            Self::nav_frame(*old(self), *final(self)),
            final(self).gesture == old(self).gesture,
            r <==> global_page < old(self).store.total_pages(),
            !r ==> Self::positions_unchanged(*old(self), *final(self)),
            r ==> {
                &&& final(self).store.is_loaded(final(self).cur_sec())
                &&& final(self).store.offset_up_to(final(self).cur_sec()) + final(self).cur_page()
                    == global_page
                &&& final(self).cur_page() < final(self).store.page_count_of(final(self).cur_sec())
                &&& forall|i: int|
                    0 <= i < old(self).store.section_count() && i != final(self).cur_sec()
                        ==> final(self).store.viewing_page_of(i) == old(self).store.viewing_page_of(
                        i,
                    )
            },
    {
        match self.store.resolve(global_page) {
            Some((section, local_page)) => {
                self.store.set_viewing_page(section, local_page);
                self.viewing_chapter = section;
                proof {
                    SectionStore::lemma_offsets_agree(
                        self.store,
                        old(self).store,
                        section as int,
                    );
                }
                true
            },
            None => false,
        }
    }

    /// Moves to a section directly, opening it on its first page; fails,
    /// moving nothing, unless that section is loaded.
    pub fn set_section(&mut self, next_section: usize) -> (r: bool)
        requires
            old(self).wf(),
        ensures
            final(self).wf(),
            Self::nav_frame(*old(self), *final(self)),
            final(self).gesture == old(self).gesture,
            r <==> (next_section < old(self).store.section_count() && old(self).store.is_loaded(
                next_section as int,
            )),
            !r ==> Self::positions_unchanged(*old(self), *final(self)),
            r ==> {
                &&& final(self).viewing_chapter == next_section
                &&& final(self).store.viewing_page_of(next_section as int) == 0
                &&& forall|i: int|
                    0 <= i < old(self).store.section_count() && i != next_section
                        ==> final(self).store.viewing_page_of(i) == old(self).store.viewing_page_of(
                        i,
                    )
            },
    {
        let n = self.store.section_count_exec();
        if next_section < n && self.store.is_loaded_at(next_section) {
            proof {
                assert(self.store.slot_wf(next_section as int));
            }
            self.store.set_viewing_page(next_section, 0);
            self.viewing_chapter = next_section;
            true
        } else {
            false
        }
    }

    /// The `setGlobalPage` command: in the paged layouts the page number
    /// is clamped to the loaded range and resolved; in continuous scroll
    /// it is reinterpreted as a section number, clamped to the document.
    pub fn set_global_page(&mut self, page: usize) -> (r: bool)
        requires
            old(self).wf(),
        ensures
            final(self).wf(),
            Self::nav_frame(*old(self), *final(self)),
            final(self).gesture == old(self).gesture,
            if old(self).display.spec_is_scroll() {
                ({
                    let n = old(self).store.section_count();
                    let target: int = if n == 0 {
                        0
                    } else if page <= n - 1 {
                        page as int
                    } else {
                        n - 1
                    };
                    &&& (r <==> (n > 0 && old(self).store.is_loaded(target)))
                    &&& (!r ==> Self::positions_unchanged(*old(self), *final(self)))
                    &&& (r ==> final(self).viewing_chapter == target
                        && final(self).store.viewing_page_of(target) == 0)
                })
            } else {
                ({
                    let total = old(self).store.total_pages();
                    let target: int = if total == 0 {
                        0
                    } else if page <= total - 1 {
                        page as int
                    } else {
                        total - 1
                    };
                    &&& (r <==> total > 0)
                    &&& (!r ==> Self::positions_unchanged(*old(self), *final(self)))
                    &&& (r ==> {
                        &&& final(self).store.is_loaded(final(self).cur_sec())
                        &&& final(self).store.offset_up_to(final(self).cur_sec())
                            + final(self).cur_page() == target
                        &&& final(self).cur_page() < final(self).store.page_count_of(
                            final(self).cur_sec(),
                        )
                    })
                })
            },
    {
        if self.display.is_scroll() {
            let n = self.store.section_count_exec();
            let target = if n == 0 {
                0
            } else if page <= n - 1 {
                page
            } else {
                n - 1
            };
            self.set_section(target)
        } else {
            let total = self.store.global_page_count();
            let target = if total == 0 {
                0
            } else if page <= total - 1 {
                page
            } else {
                total - 1
            };
            self.set_page(target)
        }
    }

    /// Whether newly supplied settings require a re-layout pass: they do
    /// exactly when the display mode or the viewport dimensions moved away
    /// from what the engine last adopted.
    pub fn settings_changed(&self, settings: &ReaderSettings) -> (r: bool)
        ensures
            r <==> !(self.display == settings.display && self.dimensions.0 == settings.dimensions.0
                && self.dimensions.1 == settings.dimensions.1),
    {
        let same_display = match (self.display, settings.display) {
            (SectionDisplay::Single, SectionDisplay::Single) => true,
            (SectionDisplay::Double, SectionDisplay::Double) => true,
            (SectionDisplay::Scroll, SectionDisplay::Scroll) => true,
            _ => false,
        };
        !(same_display && self.dimensions.0 == settings.dimensions.0 && self.dimensions.1
            == settings.dimensions.1)
    }

    /// Adopts changed display settings; the surrounding application then
    /// re-measures each loaded section and reports the new counts through
    /// `on_section_remeasured`.
    pub fn apply_settings(&mut self, settings: &ReaderSettings)
        requires
            old(self).wf(),
        ensures
            final(self).wf(),
            final(self).display == settings.display,
            final(self).dimensions == settings.dimensions,
            final(self).store == old(self).store,
            final(self).viewing_chapter == old(self).viewing_chapter,
            final(self).gesture == old(self).gesture,
    {
        self.display = settings.display;
        self.dimensions = settings.dimensions;
    }

    /// The in-section drag visual for the current live drag, with edge
    /// dampening applied.
    pub open spec fn spec_visual_offset(self) -> int {
        if self.store.section_count() == 0 {
            0
        } else {
            spec_damp(
                self.gesture.drag_distance as int,
                self.cur_page() as int,
                self.store.page_count_of(self.cur_sec()) as int,
            )
        }
    }

    /// How far the current section's content should follow the pointer:
    /// the live drag distance, except that on the first page a drag toward
    /// the previous page shows nothing, and on the last page a drag toward
    /// the next page shows nothing, rather than revealing an empty page.
    pub fn transition_offset(&self) -> (r: isize)
        requires
            self.wf(),
        ensures
            r == self.spec_visual_offset(),
    {
        let n = self.store.section_count_exec();
        if n == 0 {
            return 0;
        }
        proof {
            assert(self.store.slot_wf(self.cur_sec()));
        }
        let page = self.store.viewing_page_at(self.viewing_chapter);
        let count = self.store.page_count_at(self.viewing_chapter);
        let amount = self.gesture.drag_distance;
        if (amount > 0 && page == 0) || (amount < 0 && page + 1 >= count) {
            0
        } else {
            amount
        }
    }

    /// The frame-level drag visual for the paged layouts: the complement
    /// of the in-section visual. Only on the first page (dragging back) or
    /// the last page (dragging forward) does the whole frame follow the
    /// pointer, showing the neighbouring section sliding in.
    pub open spec fn spec_frame_drag(self) -> int {
        let d = self.gesture.drag_distance as int;
        if self.store.section_count() == 0 || self.store.is_waiting(self.cur_sec()) {
            0
        } else if d > 0 {
            if self.cur_page() == 0 {
                d
            } else {
                0
            }
        } else if d < 0 {
            if self.cur_page() as int == last_page(self.counts(), self.cur_sec()) {
                d
            } else {
                0
            }
        } else {
            0
        }
    }

    pub fn frame_drag_amount(&self) -> (r: isize)
        requires
            self.wf(),
        ensures
            r == self.spec_frame_drag(),
    {
        let n = self.store.section_count_exec();
        if n == 0 || self.store.is_waiting_at(self.viewing_chapter) {
            return 0;
        }
        let page = self.store.viewing_page_at(self.viewing_chapter);
        let count = self.store.page_count_at(self.viewing_chapter);
        let d = self.gesture.drag_distance;
        let last = if count >= 1 {
            count - 1
        } else {
            0
        };
        if d > 0 {
            if page == 0 {
                d
            } else {
                0
            }
        } else if d < 0 {
            if page == last {
                d
            } else {
                0
            }
        } else {
            0
        }
    }
}

/// What one pointer-overlay event did to the reader.
#[derive(Debug, Clone, Copy, PartialEq, Eq, Structural)]
pub enum OverlayOutcome {
    /// Vertical or empty motion: nothing.
    Ignored,
    /// A drag in progress: show the current section's content shifted by
    /// this dampened offset.
    VisualDrag { offset: isize },
    /// A release past the threshold: the page was turned (or refused at a
    /// document edge).
    Navigated { outcome: NavOutcome },
    /// A release short of the threshold: shift the content back to rest.
    SnapBack,
}

/// What one continuous-scroll event or its idle timeout did.
#[derive(Debug, Clone, Copy, PartialEq, Eq, Structural)]
pub enum ScrollEventOutcome {
    /// Nothing accumulated: the reader was already at the document edge in
    /// that direction, or an idle timeout found too little scrolled.
    Ignored,
    /// The accumulator filled, or an idle timeout finished the turn.
    Navigated { outcome: NavOutcome },
    /// Still accumulating: (re)start the one-second idle timer.
    TimerArmed,
}

impl ReaderEngine {
    /// Feeds one pointer-overlay event through the gesture interpreter and
    /// the navigation it resolves to: live drags become dampened visual
    /// offsets; a release beyond the threshold turns the page against the
    /// drag direction; a shorter release snaps back.
    pub fn handle_overlay_event(&mut self, event: &OverlayEvent) -> (r: OverlayOutcome)
        requires
            old(self).wf(),
            match event.type_of {
                DragType::Left(d) => d <= isize::MAX,
                DragType::Right(d) => d <= isize::MAX,
                _ => true,
            },
        ensures
            final(self).wf(),
            Self::nav_frame(*old(self), *final(self)),
            final(self).gesture.drag_threshold == old(self).gesture.drag_threshold,
            final(self).gesture.scroll_accum == old(self).gesture.scroll_accum,
            match event.type_of {
                DragType::Right(d) => {
                    if event.dragging {
                        &&& r == (OverlayOutcome::VisualDrag {
                            offset: final(self).spec_visual_offset() as isize,
                        })
                        &&& final(self).gesture.drag_distance == d as isize
                        &&& Self::positions_unchanged(*old(self), *final(self))
                    } else if d > old(self).gesture.drag_threshold {
                        r matches OverlayOutcome::Navigated { outcome }
                            && Self::previous_page_acts(*old(self), *final(self), outcome)
                    } else {
                        &&& r == OverlayOutcome::SnapBack
                        &&& final(self).gesture.drag_distance == 0
                        &&& Self::positions_unchanged(*old(self), *final(self))
                    }
                },
                DragType::Left(d) => {
                    if event.dragging {
                        &&& r == (OverlayOutcome::VisualDrag {
                            offset: final(self).spec_visual_offset() as isize,
                        })
                        &&& final(self).gesture.drag_distance == -(d as isize)
                        &&& Self::positions_unchanged(*old(self), *final(self))
                    } else if d > old(self).gesture.drag_threshold {
                        r matches OverlayOutcome::Navigated { outcome }
                            && Self::next_page_acts(*old(self), *final(self), outcome)
                    } else {
                        &&& r == OverlayOutcome::SnapBack
                        &&& final(self).gesture.drag_distance == 0
                        &&& Self::positions_unchanged(*old(self), *final(self))
                    }
                },
                _ => {
                    &&& r == OverlayOutcome::Ignored
                    &&& *final(self) == *old(self)
                },
            },
    {
        let resolution = self.gesture.resolve_overlay(event);
        proof {
            assert(self.store == old(self).store);
        }
        match resolution {
            DragResolution::Ignored => OverlayOutcome::Ignored,
            DragResolution::Dragging { offset: _ } => OverlayOutcome::VisualDrag {
                offset: self.transition_offset(),
            },
            DragResolution::NavigatePrevious => {
                let ghost mid = *self;
                proof {
                    assert(mid == *old(self));
                }
                let outcome = self.previous_page();
                OverlayOutcome::Navigated { outcome }
            },
            DragResolution::NavigateNext => {
                let ghost mid = *self;
                proof {
                    assert(mid == *old(self));
                }
                let outcome = self.next_page();
                OverlayOutcome::Navigated { outcome }
            },
            DragResolution::SnapBack => OverlayOutcome::SnapBack,
        }
    }

    /// Feeds one continuous-scroll increment (a fifth of the viewport,
    /// upward or downward) through the accumulator, unless the reader is
    /// already at the document edge in that direction. Five uninterrupted
    /// increments turn the section at once; otherwise the idle timer is
    /// (re)started.
    pub fn handle_scroll_event(&mut self, direction: &DragType) -> (r: ScrollEventOutcome)
        requires
            old(self).wf(),
            direction matches DragType::Up(_) || direction matches DragType::Down(_),
        ensures
            final(self).wf(),
            Self::nav_frame(*old(self), *final(self)),
            final(self).gesture.drag_distance == old(self).gesture.drag_distance,
            final(self).gesture.drag_threshold == old(self).gesture.drag_threshold,
            ({
                let upward = direction matches DragType::Up(_);
                let at_edge = if upward {
                    old(self).viewing_chapter == 0
                } else {
                    old(self).cur_sec() + 1 == old(self).store.section_count()
                };
                let accum = old(self).gesture.scroll_accum as int;
                let base = if upward {
                    if accum < 0 {
                        0int
                    } else {
                        accum
                    }
                } else {
                    if accum > 0 {
                        0int
                    } else {
                        accum
                    }
                };
                let next = if upward {
                    base + 1
                } else {
                    base - 1
                };
                if at_edge {
                    &&& r == ScrollEventOutcome::Ignored
                    &&& *final(self) == *old(self)
                } else if next == SCROLL_TRIGGER_FIFTHS || next == -SCROLL_TRIGGER_FIFTHS {
                    &&& final(self).gesture.scroll_accum == 0
                    &&& r matches ScrollEventOutcome::Navigated { outcome } && (if upward {
                        if old(self).display.spec_is_scroll() {
                            Self::scroll_retreat_acts(*old(self), *final(self), outcome)
                        } else {
                            Self::retreat_acts(*old(self), *final(self), outcome)
                        }
                    } else {
                        if old(self).display.spec_is_scroll() {
                            Self::scroll_advance_acts(*old(self), *final(self), outcome)
                        } else {
                            Self::advance_acts(*old(self), *final(self), outcome)
                        }
                    })
                } else {
                    &&& r == ScrollEventOutcome::TimerArmed
                    &&& final(self).gesture.scroll_accum == next
                    &&& Self::positions_unchanged(*old(self), *final(self))
                }
            }),
    {
        let upward = matches!(direction, DragType::Up(_));
        if upward {
            if self.viewing_chapter == 0 {
                return ScrollEventOutcome::Ignored;
            }
            match self.gesture.scroll_step(true) {
                ScrollResolution::NavigatePrevious => {
                    let outcome = self.retreat();
                    ScrollEventOutcome::Navigated { outcome }
                },
                ScrollResolution::ArmTimer => ScrollEventOutcome::TimerArmed,
                _ => {
                    proof {
                        assert(false);
                    }
                    ScrollEventOutcome::Ignored
                },
            }
        } else {
            let n = self.store.section_count_exec();
            if self.viewing_chapter + 1 == n {
                return ScrollEventOutcome::Ignored;
            }
            match self.gesture.scroll_step(false) {
                ScrollResolution::NavigateNext => {
                    let outcome = self.advance();
                    ScrollEventOutcome::Navigated { outcome }
                },
                ScrollResolution::ArmTimer => ScrollEventOutcome::TimerArmed,
                _ => {
                    proof {
                        assert(false);
                    }
                    ScrollEventOutcome::Ignored
                },
            }
        }
    }

    /// The scroll idle timer fired: three or more accumulated fifths still
    /// turn the section in the scrolled direction; fewer are discarded.
    /// Either way the accumulator empties.
    pub fn on_scroll_idle(&mut self) -> (r: ScrollEventOutcome)
        requires
            old(self).wf(),
        ensures
            final(self).wf(),
            Self::nav_frame(*old(self), *final(self)),
            final(self).gesture.drag_distance == old(self).gesture.drag_distance,
            final(self).gesture.drag_threshold == old(self).gesture.drag_threshold,
            final(self).gesture.scroll_accum == 0,
            ({
                let accum = old(self).gesture.scroll_accum as int;
                if accum >= SCROLL_IDLE_FIFTHS {
                    r matches ScrollEventOutcome::Navigated { outcome } && (if old(
                        self,
                    ).display.spec_is_scroll() {
                        Self::scroll_retreat_acts(*old(self), *final(self), outcome)
                    } else {
                        Self::retreat_acts(*old(self), *final(self), outcome)
                    })
                } else if accum <= -SCROLL_IDLE_FIFTHS {
                    r matches ScrollEventOutcome::Navigated { outcome } && (if old(
                        self,
                    ).display.spec_is_scroll() {
                        Self::scroll_advance_acts(*old(self), *final(self), outcome)
                    } else {
                        Self::advance_acts(*old(self), *final(self), outcome)
                    })
                } else {
                    &&& r == ScrollEventOutcome::Ignored
                    &&& Self::positions_unchanged(*old(self), *final(self))
                }
            }),
    {
        match self.gesture.scroll_idle_timeout() {
            ScrollResolution::NavigatePrevious => {
                let outcome = self.retreat();
                ScrollEventOutcome::Navigated { outcome }
            },
            ScrollResolution::NavigateNext => {
                let outcome = self.advance();
                ScrollEventOutcome::Navigated { outcome }
            },
            _ => ScrollEventOutcome::Ignored,
        }
    }

    /// Whether the current position owns stored progress at all: only once
    /// the current section has a surface is progress written or deleted.
    pub fn should_sync_progress(&self) -> (r: bool)
        requires
            self.wf(),
        ensures
            r <==> (self.store.section_count() > 0 && !self.store.is_waiting(self.cur_sec())),
    {
        let n = self.store.section_count_exec();
        n > 0 && !self.store.is_waiting_at(self.viewing_chapter)
    }

    /// The progression the current position persists as, per the progress
    /// rules: nothing during the initial load, `Complete` on the last page
    /// of the last section, a text position everywhere else. The byte
    /// position is supplied by the caller from the render surface, `-1`
    /// when unknown.
    pub fn current_progress(&self, char_pos: i64) -> (r: Option<Progression>)
        requires
            self.wf(),
        ensures
            r == spec_compute_progress(
                self.store.total_pages() as int,
                self.spec_global_page() as int,
                self.cur_sec(),
                (if self.store.section_count() > 0 {
                    self.cur_page() as int
                } else {
                    0int
                }),
                char_pos as int,
                self.store.section_count(),
            ),
    {
        let n = self.store.section_count_exec();
        let total = self.store.global_page_count();
        let global = self.current_page_pos();
        let local = if n > 0 {
            self.store.viewing_page_at(self.viewing_chapter)
        } else {
            0
        };
        proof {
            if n > 0 {
                assert(self.store.slot_wf(self.cur_sec()));
                self.store.lemma_offset_monotone(self.cur_sec() + 1, self.store.section_count());
                assert(self.store.offset_up_to(self.cur_sec()) + self.store.page_count_of(
                    self.cur_sec(),
                ) == self.store.offset_up_to(self.cur_sec() + 1));
            }
        }
        compute_progress(total, global, self.viewing_chapter, local, char_pos, n)
    }

    /// Which stored record restores a position at start-up: only a text
    /// position, only while the reader is still on its starting section,
    /// and only into a section this document has. The caller opens the
    /// returned section and, when the byte position is known and a surface
    /// can map it, moves to the mapped local page.
    pub fn restore_target(&self, progress: &Option<Progression>) -> (r: Option<(usize, i64)>)
        requires
            self.wf(),
        ensures
            match r {
                Some((chapter, char_pos)) => spec_restore_target(
                    *progress,
                    self.viewing_chapter as int,
                    self.store.section_count(),
                ) == Option::Some((chapter as int, char_pos as int)),
                None => spec_restore_target(
                    *progress,
                    self.viewing_chapter as int,
                    self.store.section_count(),
                ) is None,
            },
    {
        crate::progress::restore_target(
            progress,
            self.viewing_chapter,
            self.store.section_count_exec(),
        )
    }

    /// Moves a restored section to the local page its stored byte position
    /// mapped to; refused unless the section is loaded and the page is one
    /// it has.
    pub fn set_restored_page(&mut self, section: usize, local_page: usize) -> (r: bool)
        requires
            old(self).wf(),
        ensures
            final(self).wf(),
            Self::nav_frame(*old(self), *final(self)),
            final(self).gesture == old(self).gesture,
            final(self).viewing_chapter == old(self).viewing_chapter,
            r <==> (section < old(self).store.section_count() && old(self).store.is_loaded(
                section as int,
            ) && (local_page as nat) < old(self).store.page_count_of(section as int)),
            !r ==> Self::positions_unchanged(*old(self), *final(self)),
            r ==> {
                &&& final(self).store.viewing_page_of(section as int) == local_page
                &&& forall|i: int|
                    0 <= i < old(self).store.section_count() && i != section
                        ==> final(self).store.viewing_page_of(i) == old(self).store.viewing_page_of(
                        i,
                    )
            },
    {
        let n = self.store.section_count_exec();
        if section < n && self.store.is_loaded_at(section) && local_page < self.store.page_count_at(
            section,
        ) {
            self.store.set_viewing_page(section, local_page);
            true
        } else {
            false
        }
    }
}

/// The indices of `chapters` (taken in reverse order) that are still
/// waiting for a surface in `store`: sections are requested in reverse
/// document order, so that under a last-in-first-out completion bias the
/// sections nearest the reader finish first.
pub open spec fn spec_pending_below(store: SectionStore, values: Seq<usize>, k: int) -> Seq<usize>
    decreases k,
{
    if k <= 0 {
        Seq::empty()
    } else {
        let c = values[k - 1];
        let rest = spec_pending_below(store, values, k - 1);
        if (c as int) < store.section_count() && store.is_waiting(c as int) {
            seq![c] + rest
        } else {
            rest
        }
    }
}

/// The chapter index each fetched chapter names, in fetch order.
pub open spec fn chapter_values(chapters: Seq<Chapter>) -> Seq<usize> {
    Seq::new(chapters.len(), |i: int| chapters[i].value)
}

impl ReaderEngine {
    /// The sections to request surfaces for, among the chapters fetched so
    /// far: those still waiting, in reverse fetch order.
    pub fn pending_loads(&self, chapters: &Vec<Chapter>) -> (r: Vec<usize>)
        ensures
            r@ == spec_pending_below(
                self.store,
                chapter_values(chapters@),
                chapters@.len() as int,
            ),
    {
        let ghost values = chapter_values(chapters@);
        let mut r: Vec<usize> = Vec::new();
        let mut k = chapters.len();
        proof {
            assert(r@ + spec_pending_below(self.store, values, k as int) =~= spec_pending_below(
                self.store,
                values,
                chapters@.len() as int,
            ));
        }
        while k > 0
            invariant
                k <= chapters@.len(),
                values == chapter_values(chapters@),
                r@ + spec_pending_below(self.store, values, k as int) == spec_pending_below(
                    self.store,
                    values,
                    chapters@.len() as int,
                ),
            decreases k,
        {
            k = k - 1;
            let ghost r_before = r@;
            let value = chapters[k].value;
            let n = self.store.section_count_exec();
            if value < n && self.store.is_waiting_at(value) {
                r.push(value);
            }
            proof {
                assert(values[k as int] == value);
                if (value as int) < self.store.section_count() && self.store.is_waiting(
                    value as int,
                ) {
                    assert(r@ =~= r_before + seq![value]);
                    assert(r@ + spec_pending_below(self.store, values, k as int) =~= r_before + (
                    seq![value] + spec_pending_below(self.store, values, k as int)));
                } else {
                    assert(r@ == r_before);
                }
            }
        }
        proof {
            assert(r@ + spec_pending_below(self.store, values, 0) =~= r@);
        }
        r
    }
}

} // verus!
