//! Display modes and their navigation semantics.
//!
//! Three layout policies share one operation set. In the paged modes
//! (single- and double-page) the unit of navigation is the local page, and
//! crossing a section boundary moves to the neighbouring section's first or
//! last page. In continuous-scroll mode the unit is the section itself.
//!
//! The transition functions here are the specification the engine's
//! executable navigation is proved against, together with the laws that
//! advancing and retreating invert each other away from the document's
//! edges and that nothing moves past them.

use vstd::prelude::*;

verus! {

/// The layout policy governing navigation granularity.
#[derive(Debug, Clone, Copy, PartialEq, Eq, Structural)]
pub enum SectionDisplay {
    Single,
    Double,
    Scroll,
}

impl SectionDisplay {
    pub open spec fn spec_is_scroll(self) -> bool {
        self is Scroll
    }

    pub fn is_scroll(&self) -> (r: bool)
        ensures
            r == self.spec_is_scroll(),
    {
        matches!(self, SectionDisplay::Scroll)
    }

    /// The compact form a stored preference records a display mode as.
    pub fn as_u8(&self) -> (r: u8)
        ensures
            r == match self {
                SectionDisplay::Single => 0u8,
                SectionDisplay::Double => 1u8,
                SectionDisplay::Scroll => 2u8,
            },
    {
        match self {
            SectionDisplay::Single => 0,
            SectionDisplay::Double => 1,
            SectionDisplay::Scroll => 2,
        }
    }

    /// Reads a display mode back from its stored form; an unknown value
    /// falls back to the double-page default.
    pub fn from_u8(value: u8) -> (r: Self)
        ensures
            r == match value {
                0u8 => SectionDisplay::Single,
                2u8 => SectionDisplay::Scroll,
                _ => SectionDisplay::Double,
            },
    {
        match value {
            0 => SectionDisplay::Single,
            2 => SectionDisplay::Scroll,
            _ => SectionDisplay::Double,
        }
    }
}

impl Default for SectionDisplay {
    /// The reading application opens in double-page layout.
    fn default() -> (r: Self)
        ensures
            r == SectionDisplay::Double,
    {
        SectionDisplay::Double
    }
}

/// What a navigation operation did: nothing (the position was already at
/// the document edge in that direction), a move within the current
/// section, or a move across a section boundary. A boundary crossing names
/// the section that stopped being viewed and the one that started, so the
/// per-section viewing hooks fire exactly once per crossing and never on
/// an in-section page change.
#[derive(Debug, Clone, Copy, PartialEq, Eq, Structural)]
pub enum NavOutcome {
    Unhandled,
    PageChanged,
    SectionChanged { stopped: usize, started: usize },
}

/// The highest local page a section can show: sections whose surface
/// reported no pages still show a single (empty) page.
pub open spec fn last_page(counts: Seq<nat>, sec: int) -> int {
    if counts[sec] >= 1 {
        counts[sec] - 1
    } else {
        0
    }
}

/// A reachable position: a real section, on a page the section can show.
pub open spec fn valid_position(counts: Seq<nat>, sec: int, page: int) -> bool {
    &&& 0 <= sec < counts.len()
    &&& 0 <= page <= last_page(counts, sec)
}

/// Whether a paged-mode advance from this position moves anywhere: there
/// is either a further page in this section or a further section.
pub open spec fn adv_handled(counts: Seq<nat>, sec: int, page: int) -> bool {
    page + 1 < counts[sec] || sec + 1 < counts.len()
}

/// Whether a paged-mode advance crosses into the next section.
pub open spec fn adv_crosses(counts: Seq<nat>, sec: int, page: int) -> bool {
    !(page + 1 < counts[sec]) && sec + 1 < counts.len()
}

/// Where a paged-mode advance lands: the next page of this section if
/// there is one, else the first page of the next section if there is one,
/// else exactly where it started.
pub open spec fn adv_target(counts: Seq<nat>, sec: int, page: int) -> (int, int) {
    if page + 1 < counts[sec] {
        (sec, page + 1)
    } else if sec + 1 < counts.len() {
        (sec + 1, 0)
    } else {
        (sec, page)
    }
}

/// Whether a paged-mode retreat from this position moves anywhere.
pub open spec fn ret_handled(counts: Seq<nat>, sec: int, page: int) -> bool {
    page > 0 || sec > 0
}

/// Whether a paged-mode retreat crosses into the previous section.
pub open spec fn ret_crosses(counts: Seq<nat>, sec: int, page: int) -> bool {
    page == 0 && sec > 0
}

/// Where a paged-mode retreat lands: the previous page of this section if
/// there is one, else the last page of the previous section if there is
/// one, else exactly where it started.
pub open spec fn ret_target(counts: Seq<nat>, sec: int, page: int) -> (int, int) {
    if page > 0 {
        (sec, page - 1)
    } else if sec > 0 {
        (sec - 1, last_page(counts, sec - 1))
    } else {
        (sec, page)
    }
}

/// Law: away from the document's edges, retreating undoes advancing. From
/// any position an advance moves away from, the advance lands somewhere a
/// retreat moves away from, and that retreat lands on the original
/// (section, page).
pub proof fn lemma_retreat_undoes_advance(counts: Seq<nat>, sec: int, page: int)
    requires
        valid_position(counts, sec, page),
        adv_handled(counts, sec, page),
    ensures
        ret_handled(counts, adv_target(counts, sec, page).0, adv_target(counts, sec, page).1),
        ret_target(counts, adv_target(counts, sec, page).0, adv_target(counts, sec, page).1) == (
            sec,
            page,
        ),
{
}

/// Law: away from the document's edges, advancing undoes retreating. From
/// any position a retreat moves away from, the retreat lands somewhere an
/// advance moves away from, and that advance lands on the original
/// (section, page).
pub proof fn lemma_advance_undoes_retreat(counts: Seq<nat>, sec: int, page: int)
    requires
        valid_position(counts, sec, page),
        ret_handled(counts, sec, page),
    ensures
        adv_handled(counts, ret_target(counts, sec, page).0, ret_target(counts, sec, page).1),
        adv_target(counts, ret_target(counts, sec, page).0, ret_target(counts, sec, page).1) == (
            sec,
            page,
        ),
{
}

/// Law: at the very first page of the very first section, a retreat is
/// unhandled and the position is unchanged.
pub proof fn lemma_retreat_stops_at_start(counts: Seq<nat>)
    ensures
        !ret_handled(counts, 0, 0),
        ret_target(counts, 0, 0) == (0int, 0int),
{
}

/// Law: at the last page of the last section, an advance is unhandled and
/// the position is unchanged.
pub proof fn lemma_advance_stops_at_end(counts: Seq<nat>, sec: int, page: int)
    requires
        counts.len() >= 1,
        sec == counts.len() - 1,
        page == last_page(counts, sec),
    ensures
        !adv_handled(counts, sec, page),
        adv_target(counts, sec, page) == (sec, page),
{
}

} // verus!
