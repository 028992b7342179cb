//! The section store and the global pagination index.
//!
//! The store holds one load slot per section, in document order. Sections
//! only move forward (`Waiting` to `Loading` to `Loaded`), and the store
//! keeps each loaded section's global page offset equal to the sum of the
//! local page counts of the loaded sections before it. The global page
//! count and the resolution of a global page number to a (section, local
//! page) pair are derived from this index.

use vstd::prelude::*;

use crate::section::{CachedPage, SectionContents, SectionLoadProgress};

verus! {

/// A reported page count as the store records it: a surface that reports
/// zero pages (a cover image taller than the viewport, for instance) is
/// recorded as a single page so the section stays navigable.
pub open spec fn clamp_count(c: usize) -> nat {
    if c == 0 {
        1nat
    } else {
        c as nat
    }
}

pub struct SectionStore {
    pub sections: Vec<SectionLoadProgress>,
}

impl SectionStore {
    pub open spec fn section_count(self) -> int {
        self.sections@.len() as int
    }

    pub open spec fn slot(self, i: int) -> SectionLoadProgress {
        self.sections@[i]
    }

    pub open spec fn is_waiting(self, i: int) -> bool {
        self.slot(i).spec_is_waiting()
    }

    pub open spec fn is_loading(self, i: int) -> bool {
        self.slot(i).spec_is_loading()
    }

    pub open spec fn is_loaded(self, i: int) -> bool {
        self.slot(i).spec_is_loaded()
    }

    /// The pages section `i` contributes to the global page sequence.
    pub open spec fn page_count_of(self, i: int) -> nat {
        self.slot(i).spec_page_count()
    }

    pub open spec fn viewing_page_of(self, i: int) -> nat {
        self.slot(i).spec_viewing_page()
    }

    /// The global page offset of section `i`: the pages contributed by the
    /// sections before it.
    pub open spec fn offset_up_to(self, i: int) -> nat
        decreases i,
    {
        if i <= 0 {
            0
        } else {
            self.offset_up_to(i - 1) + self.page_count_of(i - 1)
        }
    }

    /// The global page count: pages of every loaded section, in index
    /// order. An underestimate while sections remain unmeasured.
    pub open spec fn total_pages(self) -> nat {
        self.offset_up_to(self.section_count())
    }

    /// What holds of one slot in a well-formed store.
    pub open spec fn slot_wf(self, i: int) -> bool {
        &&& (self.slot(i) is Loading ==> {
            let c = self.slot(i).spec_contents();
            &&& c.chapter == i
            &&& c.viewing_page == 0
            &&& c.cached_pages@.len() == 0
        })
        &&& (self.slot(i) is Loaded ==> {
            let c = self.slot(i).spec_contents();
            &&& c.chapter == i
            &&& c.gpi == self.offset_up_to(i)
            &&& c.cached_pages@.len() >= 1
            &&& (c.viewing_page as nat) < c.cached_pages@.len()
            &&& forall|j: int|
                0 <= j < c.cached_pages@.len() ==> c.cached_pages@[j] == (CachedPage {
                    chapter: i as usize,
                    chapter_local_page: j as usize,
                })
        })
    }

    pub open spec fn wf(self) -> bool {
        &&& forall|i: int| 0 <= i < self.section_count() ==> self.slot_wf(i)
        &&& self.total_pages() <= usize::MAX
    }

    /// Offsets never decrease along the document.
    pub proof fn lemma_offset_monotone(self, i: int, j: int)
        requires
            i <= j,
        ensures
            self.offset_up_to(i) <= self.offset_up_to(j),
        decreases j - i,
    {
        if i < j {
            self.lemma_offset_monotone(i, j - 1);
        }
    }

    /// An offset only depends on the page counts of the sections before it.
    pub proof fn lemma_offsets_agree(a: SectionStore, b: SectionStore, n: int)
        requires
            forall|k: int| 0 <= k < n ==> a.page_count_of(k) == b.page_count_of(k),
        ensures
            a.offset_up_to(n) == b.offset_up_to(n),
        decreases n,
    {
        if n > 0 {
            Self::lemma_offsets_agree(a, b, n - 1);
        }
    }

    /// Changing one section's page count moves every later offset by
    /// exactly the difference, and no earlier offset.
    pub proof fn lemma_offset_after_change(a: SectionStore, b: SectionStore, index: int, n: int)
        requires
            0 <= index,
            forall|k: int| 0 <= k < n && k != index ==> a.page_count_of(k) == b.page_count_of(k),
        ensures
            n <= index ==> a.offset_up_to(n) == b.offset_up_to(n),
            n > index ==> a.offset_up_to(n) + b.page_count_of(index) == b.offset_up_to(n)
                + a.page_count_of(index),
        decreases n,
    {
        if n > 0 {
            Self::lemma_offset_after_change(a, b, index, n - 1);
        }
    }

    /// An empty store of `count` sections, all waiting to be requested.
    pub fn new(count: usize) -> (r: Self)
        ensures
            r.wf(),
            r.section_count() == count,
            forall|i: int| 0 <= i < count ==> r.is_waiting(i),
            forall|i: int| 0 <= i < count ==> #[trigger] r.slot(i) is Waiting,
            r.total_pages() == 0,
    {
        let mut sections: Vec<SectionLoadProgress> = Vec::new();
        let mut i: usize = 0;
        while i < count
            invariant
                i <= count,
                sections@.len() == i,
                forall|j: int| 0 <= j < i ==> sections@[j] is Waiting,
            decreases count - i,
        {
            sections.push(SectionLoadProgress::Waiting);
            i = i + 1;
        }
        let r = SectionStore { sections };
        proof {
            assert forall|i: int| 0 <= i <= count implies r.offset_up_to(i) == 0 by {
                Self::lemma_offset_of_waiting_prefix(r, i);
            }
        }
        r
    }

    proof fn lemma_offset_of_waiting_prefix(r: SectionStore, i: int)
        requires
            forall|j: int| 0 <= j < i ==> !r.is_loaded(j),
        ensures
            r.offset_up_to(i) == 0,
        decreases i,
    {
        if i > 0 {
            Self::lemma_offset_of_waiting_prefix(r, i - 1);
            assert(!r.is_loaded(i - 1));
        }
    }

    pub fn section_count_exec(&self) -> (r: usize)
        ensures
            r == self.section_count(),
    {
        self.sections.len()
    }

    /// Marks a section as having a render surface on the way. Applies only
    /// to a `Waiting` section; a repeated request is a no-op, so at most
    /// one load is ever in flight per section.
    pub fn request_load(&mut self, index: usize, handle: u64) -> (applied: bool)
        requires
            old(self).wf(),
        ensures
            final(self).wf(),
            applied <==> (index < old(self).section_count() && old(self).is_waiting(index as int)),
            !applied ==> *final(self) == *old(self),
            final(self).section_count() == old(self).section_count(),
            applied ==> final(self).is_loading(index as int)
                && final(self).slot(index as int).spec_contents().handle == handle,
            forall|j: int|
                0 <= j < old(self).section_count() && j != index ==> final(self).slot(j)
                    == old(self).slot(j),
            final(self).total_pages() == old(self).total_pages(),
            forall|i: int|
                0 <= i < old(self).section_count() ==> final(self).page_count_of(i) == old(
                    self,
                ).page_count_of(i),
            forall|i: int|
                0 <= i < old(self).section_count() ==> final(self).viewing_page_of(i) == old(
                    self,
                ).viewing_page_of(i),
            final(self).is_loaded(index as int) == old(self).is_loaded(index as int),
    {
        if index < self.sections.len() && self.sections[index].is_waiting() {
            self.sections[index] = SectionLoadProgress::Loading(
                SectionContents::new(index, handle),
            );
            proof {
                let a = *old(self);
                let b = *self;
                assert forall|i: int| 0 <= i <= b.section_count() implies a.offset_up_to(i)
                    == b.offset_up_to(i) by {
                    Self::lemma_offsets_agree(a, b, i);
                }
                assert forall|i: int| 0 <= i < b.section_count() implies b.slot_wf(i) by {
                    assert(a.slot_wf(i));
                }
            }
            true
        } else {
            false
        }
    }

    /// Builds the cached page list of a section: one entry per local page.
    fn build_cached_pages(chapter: usize, count: usize) -> (r: Vec<CachedPage>)
        ensures
            r@.len() == count,
            forall|j: int|
                0 <= j < count ==> r@[j] == (CachedPage {
                    chapter,
                    chapter_local_page: j as usize,
                }),
    {
        let mut items: Vec<CachedPage> = Vec::new();
        let mut local: usize = 0;
        while local < count
            invariant
                local <= count,
                items@.len() == local,
                forall|j: int|
                    0 <= j < local ==> items@[j] == (CachedPage {
                        chapter,
                        chapter_local_page: j as usize,
                    }),
            decreases count - local,
        {
            items.push(CachedPage { chapter, chapter_local_page: local });
            local = local + 1;
        }
        items
    }

    /// Recomputes every loaded section's global page offset, in index
    /// order, after a page count changed. Touches nothing else.
    fn update_global_offsets(&mut self)
        requires
            old(self).total_pages() <= usize::MAX,
        ensures
            final(self).section_count() == old(self).section_count(),
            forall|i: int|
                0 <= i < old(self).section_count() ==> {
                    &&& (old(self).slot(i) is Waiting ==> final(self).slot(i) == old(self).slot(i))
                    &&& (old(self).slot(i) is Loading ==> final(self).slot(i) == old(self).slot(i))
                    &&& (old(self).slot(i) is Loaded ==> final(self).slot(i)
                        == SectionLoadProgress::Loaded(
                        SectionContents {
                            gpi: old(self).offset_up_to(i) as usize,
                            ..old(self).slot(i).spec_contents()
                        },
                    ))
                },
    {
        let ghost orig = *old(self);
        let n = self.sections.len();
        let mut acc: usize = 0;
        let mut i: usize = 0;
        while i < n
            invariant
                i <= n,
                self.section_count() == orig.section_count(),
                n == orig.section_count(),
                orig.total_pages() <= usize::MAX,
                acc == orig.offset_up_to(i as int),
                forall|k: int| i <= k < n ==> self.slot(k) == orig.slot(k),
                forall|k: int|
                    0 <= k < i ==> {
                        &&& (orig.slot(k) is Waiting ==> self.slot(k) == orig.slot(k))
                        &&& (orig.slot(k) is Loading ==> self.slot(k) == orig.slot(k))
                        &&& (orig.slot(k) is Loaded ==> self.slot(k) == SectionLoadProgress::Loaded(
                            SectionContents {
                                gpi: orig.offset_up_to(k) as usize,
                                ..orig.slot(k).spec_contents()
                            },
                        ))
                    },
            decreases n - i,
        {
            proof {
                orig.lemma_offset_monotone(i + 1 as int, n as int);
            }
            let count = match &self.sections[i] {
                SectionLoadProgress::Loaded(c) => c.cached_pages.len(),
                _ => 0,
            };
            match &mut self.sections[i] {
                SectionLoadProgress::Loaded(c) => {
                    c.gpi = acc;
                },
                _ => {},
            }
            acc = acc + count;
            i = i + 1;
        }
    }

    /// Records that section `index`'s render surface finished measuring and
    /// reported `page_count` local pages. Applies only to a `Loading`
    /// section — a stale or duplicate completion is reported back and
    /// changes nothing — and re-derives every global page offset.
    ///
    /// A reported count of zero is recorded as one page; the sum of all
    /// page counts must stay within the machine's page numbering.
    #[verifier::rlimit(100)]
    pub fn complete_load(&mut self, index: usize, page_count: usize) -> (applied: bool)
        requires
            old(self).wf(),
            old(self).total_pages() + clamp_count(page_count) <= usize::MAX,
        ensures
            final(self).wf(),
            applied <==> (index < old(self).section_count() && old(self).is_loading(index as int)),
            !applied ==> *final(self) == *old(self),
            final(self).section_count() == old(self).section_count(),
            applied ==> {
                &&& final(self).is_loaded(index as int)
                &&& final(self).page_count_of(index as int) == clamp_count(page_count)
                &&& final(self).viewing_page_of(index as int) == 0
                &&& final(self).slot(index as int).spec_contents().handle == old(self).slot(
                    index as int,
                ).spec_contents().handle
                &&& final(self).total_pages() == old(self).total_pages() + clamp_count(page_count)
            },
            forall|j: int|
                0 <= j < old(self).section_count() && j != index ==> {
                    &&& final(self).is_loaded(j) == old(self).is_loaded(j)
                    &&& final(self).is_loading(j) == old(self).is_loading(j)
                    &&& final(self).is_waiting(j) == old(self).is_waiting(j)
                    &&& final(self).page_count_of(j) == old(self).page_count_of(j)
                    &&& final(self).viewing_page_of(j) == old(self).viewing_page_of(j)
                },
    {
        if index >= self.sections.len() || !self.sections[index].is_loading() {
            return false;
        }
        let handle = match &self.sections[index] {
            SectionLoadProgress::Loading(c) => c.handle,
            _ => 0,
        };
        let count = if page_count == 0 {
            1
        } else {
            page_count
        };
        let pages = Self::build_cached_pages(index, count);
        self.sections[index] = SectionLoadProgress::Loaded(
            SectionContents { handle, chapter: index, gpi: 0, viewing_page: 0, cached_pages: pages },
        );
        let ghost mid = *self;
        proof {
            SectionStore::lemma_offset_after_change(
                *old(self),
                mid,
                index as int,
                mid.section_count(),
            );
        }
        self.update_global_offsets();
        proof {
            SectionStore::lemma_after_complete(
                *old(self),
                mid,
                *self,
                index as int,
                clamp_count(page_count),
            );
        }
        true
    }

    /// Re-establishes well-formedness after one section's pages changed:
    /// `a` is the store before, `mid` the store with section `index`
    /// replaced by a loaded slot (offsets not yet re-derived), `b` the
    /// store after the offsets were re-derived from `mid`.
    #[verifier::rlimit(100)]
    proof fn lemma_after_complete(
        a: SectionStore,
        mid: SectionStore,
        b: SectionStore,
        index: int,
        count: nat,
    )
        requires
            a.wf(),
            0 <= index < a.section_count(),
            a.total_pages() - a.page_count_of(index) + count <= usize::MAX,
            mid.section_count() == a.section_count(),
            b.section_count() == a.section_count(),
            mid.slot(index) is Loaded,
            mid.slot(index).spec_contents().chapter == index,
            (mid.slot(index).spec_contents().viewing_page as nat) < count,
            mid.page_count_of(index) == count,
            count >= 1,
            forall|j: int|
                0 <= j < count ==> mid.slot(index).spec_contents().cached_pages@[j] == (CachedPage {
                    chapter: index as usize,
                    chapter_local_page: j as usize,
                }),
            forall|j: int|
                0 <= j < a.section_count() && j != index ==> mid.slot(j) == a.slot(j),
            forall|i: int|
                0 <= i < a.section_count() ==> {
                    &&& (mid.slot(i) is Waiting ==> b.slot(i) == mid.slot(i))
                    &&& (mid.slot(i) is Loading ==> b.slot(i) == mid.slot(i))
                    &&& (mid.slot(i) is Loaded ==> b.slot(i) == SectionLoadProgress::Loaded(
                        SectionContents {
                            gpi: mid.offset_up_to(i) as usize,
                            ..mid.slot(i).spec_contents()
                        },
                    ))
                },
        ensures
            b.wf(),
            b.total_pages() == a.total_pages() - a.page_count_of(index) + count,
            b.is_loaded(index),
            b.page_count_of(index) == count,
            b.viewing_page_of(index) == mid.viewing_page_of(index),
            b.slot(index).spec_contents().handle == mid.slot(index).spec_contents().handle,
            forall|j: int|
                0 <= j < a.section_count() && j != index ==> {
                    &&& b.is_loaded(j) == a.is_loaded(j)
                    &&& b.is_loading(j) == a.is_loading(j)
                    &&& b.is_waiting(j) == a.is_waiting(j)
                    &&& b.page_count_of(j) == a.page_count_of(j)
                    &&& b.viewing_page_of(j) == a.viewing_page_of(j)
                },
    {
        assert forall|k: int| 0 <= k < a.section_count() implies b.page_count_of(k)
            == mid.page_count_of(k) by {
            if mid.slot(k) is Loaded {
                assert(b.slot(k).spec_contents().cached_pages@ == mid.slot(
                    k,
                ).spec_contents().cached_pages@);
            }
        }
        assert forall|n: int| 0 <= n <= a.section_count() implies b.offset_up_to(n)
            == mid.offset_up_to(n) by {
            SectionStore::lemma_offsets_agree(b, mid, n);
        }
        assert forall|n: int| 0 <= n <= a.section_count() implies {
            &&& (n <= index ==> mid.offset_up_to(n) == a.offset_up_to(n))
            &&& (n > index ==> mid.offset_up_to(n) == a.offset_up_to(n) - a.page_count_of(index)
                + count)
        } by {
            SectionStore::lemma_offset_after_change(a, mid, index, n);
            if n > index {
                a.lemma_offset_monotone(index + 1, n);
                assert(a.offset_up_to(index) + a.page_count_of(index) == a.offset_up_to(index + 1));
            }
        }
        assert(b.total_pages() == a.total_pages() - a.page_count_of(index) + count);
        assert forall|i: int| 0 <= i < b.section_count() implies b.slot_wf(i) by {
            assert(a.slot_wf(i));
            if i <= index {
                a.lemma_offset_monotone(i, index);
                a.lemma_offset_monotone(index + 1, a.section_count());
                assert(a.offset_up_to(index) + a.page_count_of(index) == a.offset_up_to(index + 1));
            } else {
                a.lemma_offset_monotone(i, a.section_count());
            }
            assert(mid.offset_up_to(i) <= a.total_pages() - a.page_count_of(index) + count);
            if i == index {
                assert(b.slot(i) == SectionLoadProgress::Loaded(
                    SectionContents {
                        gpi: mid.offset_up_to(i) as usize,
                        ..mid.slot(i).spec_contents()
                    },
                ));
                assert(b.slot(i).spec_contents().cached_pages@ == mid.slot(
                    i,
                ).spec_contents().cached_pages@);
            } else {
                assert(mid.slot(i) == a.slot(i));
                if a.slot(i) is Loaded {
                    assert(b.slot(i) == SectionLoadProgress::Loaded(
                        SectionContents {
                            gpi: mid.offset_up_to(i) as usize,
                            ..a.slot(i).spec_contents()
                        },
                    ));
                    assert(b.slot(i).spec_contents().cached_pages@ == a.slot(
                        i,
                    ).spec_contents().cached_pages@);
                }
            }
        }
        assert forall|j: int|
            0 <= j < a.section_count() && j != index implies {
                &&& b.is_loaded(j) == a.is_loaded(j)
                &&& b.is_loading(j) == a.is_loading(j)
                &&& b.is_waiting(j) == a.is_waiting(j)
                &&& b.page_count_of(j) == a.page_count_of(j)
                &&& b.viewing_page_of(j) == a.viewing_page_of(j)
            } by {
            assert(mid.slot(j) == a.slot(j));
        }
    }

    /// Records a new page count for an already-loaded section, after the
    /// viewport changed and its surface re-measured. The section's viewing
    /// page is kept where possible and otherwise moved to the new last
    /// page; every global page offset is re-derived.
    #[verifier::rlimit(30)]
    pub fn set_page_count(&mut self, index: usize, page_count: usize) -> (applied: bool)
        requires
            old(self).wf(),
            old(self).total_pages() - old(self).page_count_of(index as int) + clamp_count(
                page_count,
            ) <= usize::MAX,
        ensures
            final(self).wf(),
            applied <==> (index < old(self).section_count() && old(self).is_loaded(index as int)),
            !applied ==> *final(self) == *old(self),
            final(self).section_count() == old(self).section_count(),
            applied ==> {
                &&& final(self).is_loaded(index as int)
                &&& final(self).page_count_of(index as int) == clamp_count(page_count)
                &&& final(self).viewing_page_of(index as int) == if old(self).viewing_page_of(
                    index as int,
                ) < clamp_count(page_count) {
                    old(self).viewing_page_of(index as int)
                } else {
                    (clamp_count(page_count) - 1) as nat
                }
                &&& final(self).slot(index as int).spec_contents().handle == old(self).slot(
                    index as int,
                ).spec_contents().handle
                &&& final(self).total_pages() == old(self).total_pages() - old(self).page_count_of(
                    index as int,
                ) + clamp_count(page_count)
            },
            forall|j: int|
                0 <= j < old(self).section_count() && j != index ==> {
                    &&& final(self).is_loaded(j) == old(self).is_loaded(j)
                    &&& final(self).is_loading(j) == old(self).is_loading(j)
                    &&& final(self).is_waiting(j) == old(self).is_waiting(j)
                    &&& final(self).page_count_of(j) == old(self).page_count_of(j)
                    &&& final(self).viewing_page_of(j) == old(self).viewing_page_of(j)
                },
    {
        if index >= self.sections.len() || !self.sections[index].is_loaded() {
            return false;
        }
        let (handle, viewing) = match &self.sections[index] {
            SectionLoadProgress::Loaded(c) => (c.handle, c.viewing_page),
            _ => (0, 0),
        };
        let count = if page_count == 0 {
            1
        } else {
            page_count
        };
        let viewing_page = if viewing < count {
            viewing
        } else {
            count - 1
        };
        let pages = Self::build_cached_pages(index, count);
        self.sections[index] = SectionLoadProgress::Loaded(
            SectionContents { handle, chapter: index, gpi: 0, viewing_page, cached_pages: pages },
        );
        let ghost mid = *self;
        proof {
            SectionStore::lemma_offset_after_change(
                *old(self),
                mid,
                index as int,
                mid.section_count(),
            );
            old(self).lemma_offset_monotone(index as int + 1, old(self).section_count());
            assert(old(self).offset_up_to(index as int) + old(self).page_count_of(index as int)
                == old(self).offset_up_to(index as int + 1));
        }
        self.update_global_offsets();
        proof {
            SectionStore::lemma_after_complete(
                *old(self),
                mid,
                *self,
                index as int,
                clamp_count(page_count),
            );
        }
        true
    }

    /// The global page count, summing loaded sections in index order.
    pub fn global_page_count(&self) -> (r: usize)
        requires
            self.wf(),
        ensures
            r == self.total_pages(),
    {
        let n = self.sections.len();
        let mut acc: usize = 0;
        let mut i: usize = 0;
        while i < n
            invariant
                i <= n,
                n == self.section_count(),
                self.wf(),
                acc == self.offset_up_to(i as int),
            decreases n - i,
        {
            proof {
                self.lemma_offset_monotone(i + 1 as int, n as int);
            }
            let count = match &self.sections[i] {
                SectionLoadProgress::Loaded(c) => c.cached_pages.len(),
                _ => 0,
            };
            acc = acc + count;
            i = i + 1;
        }
        acc
    }

    /// Resolves a global page number to its owning section and the page's
    /// index local to that section, walking sections in index order. A page
    /// on a section boundary belongs to the later section. Fails exactly on
    /// the pages beyond every loaded section.
    pub fn resolve(&self, global_page: usize) -> (r: Option<(usize, usize)>)
        requires
            self.wf(),
        ensures
            r is Some <==> global_page < self.total_pages(),
            match r {
                Some((sec, local)) => {
                    &&& 0 <= sec < self.section_count()
                    &&& self.is_loaded(sec as int)
                    &&& (local as nat) < self.page_count_of(sec as int)
                    &&& self.offset_up_to(sec as int) + local == global_page
                },
                None => global_page >= self.total_pages(),
            },
    {
        let n = self.sections.len();
        let mut acc: usize = 0;
        let mut i: usize = 0;
        while i < n
            invariant
                i <= n,
                n == self.section_count(),
                self.wf(),
                acc == self.offset_up_to(i as int),
                acc <= global_page,
            decreases n - i,
        {
            proof {
                self.lemma_offset_monotone(i + 1 as int, n as int);
            }
            let count = match &self.sections[i] {
                SectionLoadProgress::Loaded(c) => c.cached_pages.len(),
                _ => 0,
            };
            if count > 0 && global_page < acc + count {
                proof {
                    self.lemma_offset_monotone(i + 1 as int, self.section_count());
                }
                return Some((i, global_page - acc));
            }
            acc = acc + count;
            i = i + 1;
        }
        None
    }

    /// True exactly when every section has finished loading.
    pub fn is_fully_loaded(&self) -> (r: bool)
        ensures
            r <==> forall|i: int| 0 <= i < self.section_count() ==> self.is_loaded(i),
    {
        let n = self.sections.len();
        let mut i: usize = 0;
        while i < n
            invariant
                i <= n,
                n == self.section_count(),
                forall|j: int| 0 <= j < i ==> self.is_loaded(j),
            decreases n - i,
        {
            if !self.sections[i].is_loaded() {
                assert(!self.is_loaded(i as int));
                return false;
            }
            i = i + 1;
        }
        true
    }

    /// True exactly when no section is still waiting for its surface to
    /// finish measuring.
    pub fn none_loading(&self) -> (r: bool)
        ensures
            r <==> forall|i: int| 0 <= i < self.section_count() ==> !self.is_loading(i),
    {
        let n = self.sections.len();
        let mut i: usize = 0;
        while i < n
            invariant
                i <= n,
                n == self.section_count(),
                forall|j: int| 0 <= j < i ==> !self.is_loading(j),
            decreases n - i,
        {
            if self.sections[i].is_loading() {
                assert(self.is_loading(i as int));
                return false;
            }
            i = i + 1;
        }
        true
    }

    pub fn is_waiting_at(&self, index: usize) -> (r: bool)
        requires
            index < self.section_count(),
        ensures
            r == self.is_waiting(index as int),
    {
        self.sections[index].is_waiting()
    }

    pub fn is_loading_at(&self, index: usize) -> (r: bool)
        requires
            index < self.section_count(),
        ensures
            r == self.is_loading(index as int),
    {
        self.sections[index].is_loading()
    }

    pub fn is_loaded_at(&self, index: usize) -> (r: bool)
        requires
            index < self.section_count(),
        ensures
            r == self.is_loaded(index as int),
    {
        self.sections[index].is_loaded()
    }

    /// The pages a section contributes to the global page sequence.
    pub fn page_count_at(&self, index: usize) -> (r: usize)
        requires
            index < self.section_count(),
        ensures
            r == self.page_count_of(index as int),
    {
        match &self.sections[index] {
            SectionLoadProgress::Loaded(c) => c.cached_pages.len(),
            _ => 0,
        }
    }

    /// The local page a section is showing.
    pub fn viewing_page_at(&self, index: usize) -> (r: usize)
        requires
            index < self.section_count(),
        ensures
            r == self.viewing_page_of(index as int),
    {
        match &self.sections[index] {
            SectionLoadProgress::Loaded(c) => c.viewing_page,
            SectionLoadProgress::Loading(c) => c.viewing_page,
            SectionLoadProgress::Waiting => 0,
        }
    }

    /// A loaded section's global page offset, read from its contents.
    pub fn offset_at(&self, index: usize) -> (r: usize)
        requires
            self.wf(),
            index < self.section_count(),
            self.is_loaded(index as int),
        ensures
            r == self.offset_up_to(index as int),
    {
        proof {
            assert(self.slot_wf(index as int));
        }
        match &self.sections[index] {
            SectionLoadProgress::Loaded(c) => c.gpi,
            _ => 0,
        }
    }

    /// Moves a section to a given local page. A section with no measured
    /// pages only ever shows its first page.
    pub fn set_viewing_page(&mut self, index: usize, page: usize)
        requires
            old(self).wf(),
            index < old(self).section_count(),
            old(self).is_loaded(index as int) ==> (page as nat) < old(self).page_count_of(
                index as int,
            ),
            !old(self).is_loaded(index as int) ==> page == 0,
        ensures
            final(self).wf(),
            final(self).section_count() == old(self).section_count(),
            final(self).viewing_page_of(index as int) == page,
            forall|j: int|
                0 <= j < old(self).section_count() && j != index ==> final(self).slot(j) == old(
                    self,
                ).slot(j),
            final(self).total_pages() == old(self).total_pages(),
            forall|i: int|
                0 <= i < old(self).section_count() ==> {
                    &&& final(self).page_count_of(i) == old(self).page_count_of(i)
                    &&& final(self).is_loaded(i) == old(self).is_loaded(i)
                    &&& final(self).is_loading(i) == old(self).is_loading(i)
                    &&& final(self).is_waiting(i) == old(self).is_waiting(i)
                },
            forall|i: int|
                0 <= i < old(self).section_count() && i != index ==> final(self).viewing_page_of(i)
                    == old(self).viewing_page_of(i),
    {
        match &mut self.sections[index] {
            SectionLoadProgress::Loaded(c) => {
                c.viewing_page = page;
            },
            SectionLoadProgress::Loading(c) => {
                c.viewing_page = page;
            },
            SectionLoadProgress::Waiting => {},
        }
        proof {
            let a = *old(self);
            let b = *self;
            assert forall|i: int| 0 <= i <= b.section_count() implies a.offset_up_to(i)
                == b.offset_up_to(i) by {
                Self::lemma_offsets_agree(a, b, i);
            }
            assert forall|i: int| 0 <= i < b.section_count() implies b.slot_wf(i) by {
                assert(a.slot_wf(i));
            }
        }
    }

    /// Moves a section to its last local page (its first, if it has no
    /// measured pages yet).
    pub fn set_last_page(&mut self, index: usize)
        requires
            old(self).wf(),
            index < old(self).section_count(),
        ensures
            final(self).wf(),
            final(self).section_count() == old(self).section_count(),
            final(self).viewing_page_of(index as int) == if old(self).page_count_of(index as int)
                >= 1 {
                (old(self).page_count_of(index as int) - 1) as nat
            } else {
                0nat
            },
            forall|j: int|
                0 <= j < old(self).section_count() && j != index ==> final(self).slot(j) == old(
                    self,
                ).slot(j),
            final(self).total_pages() == old(self).total_pages(),
            forall|i: int|
                0 <= i < old(self).section_count() ==> {
                    &&& final(self).page_count_of(i) == old(self).page_count_of(i)
                    &&& final(self).is_loaded(i) == old(self).is_loaded(i)
                    &&& final(self).is_loading(i) == old(self).is_loading(i)
                    &&& final(self).is_waiting(i) == old(self).is_waiting(i)
                },
            forall|i: int|
                0 <= i < old(self).section_count() && i != index ==> final(self).viewing_page_of(i)
                    == old(self).viewing_page_of(i),
    {
        proof {
            assert(old(self).slot_wf(index as int));
        }
        let page = match &self.sections[index] {
            SectionLoadProgress::Loaded(c) => c.cached_pages.len() - 1,
            _ => 0,
        };
        self.set_viewing_page(index, page);
    }
}

/// The sum of a sequence of per-section page counts.
pub open spec fn sum_counts(counts: Seq<nat>) -> nat
    decreases counts.len(),
{
    if counts.len() == 0 {
        0
    } else {
        sum_counts(counts.drop_last()) + counts.last()
    }
}

proof fn lemma_offset_is_prefix_sum(s: SectionStore, counts: Seq<nat>, n: int)
    requires
        0 <= n <= s.section_count(),
        counts.len() == s.section_count(),
        forall|i: int| 0 <= i < s.section_count() ==> counts[i] == s.page_count_of(i),
    ensures
        s.offset_up_to(n) == sum_counts(counts.take(n)),
    decreases n,
{
    if n > 0 {
        lemma_offset_is_prefix_sum(s, counts, n - 1);
        assert(counts.take(n).drop_last() =~= counts.take(n - 1));
        assert(counts.take(n).last() == counts[n - 1]);
    } else {
        assert(counts.take(0).len() == 0);
    }
}

/// Law: once every section is loaded, the global page count equals the sum
/// of the sections' own local page counts. The total is a function of the
/// per-section counts alone, so it does not depend on the order in which
/// the load completions arrived.
pub proof fn lemma_total_pages_is_sum(s: SectionStore, counts: Seq<nat>)
    requires
        counts.len() == s.section_count(),
        forall|i: int| 0 <= i < s.section_count() ==> s.is_loaded(i),
        forall|i: int| 0 <= i < s.section_count() ==> counts[i] == s.page_count_of(i),
    ensures
        s.total_pages() == sum_counts(counts),
{
    lemma_offset_is_prefix_sum(s, counts, s.section_count());
    assert(counts.take(s.section_count()) =~= counts);
}

/// Law: two stores whose sections report the same page counts have the
/// same global page count, whatever histories produced them.
pub proof fn lemma_total_pages_order_independent(a: SectionStore, b: SectionStore)
    requires
        a.section_count() == b.section_count(),
        forall|i: int| 0 <= i < a.section_count() ==> a.page_count_of(i) == b.page_count_of(i),
    ensures
        a.total_pages() == b.total_pages(),
{
    SectionStore::lemma_offsets_agree(a, b, a.section_count());
}

} // verus!
