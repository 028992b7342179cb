//! Gesture interpretation: raw pointer motion and scroll deltas become
//! drag intents while in progress and discrete navigation commands on
//! release.
//!
//! A pointer drag follows the pointer visually; on release it turns the
//! page only if the accumulated distance exceeds a threshold, and in the
//! direction opposite the drag (dragging the content left reveals the next
//! page). A continuous-scroll gesture accumulates fifths of a viewport;
//! five in one direction without reversal turn the section, and an idle
//! timeout either turns it (at three fifths or more) or discards the
//! partial scroll.

use vstd::prelude::*;

verus! {

/// The release distance, in pointer distance-units, beyond which a drag
/// becomes a page turn. Tuned empirically in reading applications.
pub const PAGE_CHANGE_DRAG_AMOUNT: usize = 200;

/// How many fifths of a viewport of uninterrupted scrolling turn the
/// section at once.
pub const SCROLL_TRIGGER_FIFTHS: i32 = 5;

/// How many fifths of a viewport must have accumulated for the idle
/// timeout to finish the turn instead of discarding the scroll.
pub const SCROLL_IDLE_FIFTHS: i32 = 3;

/// The pointer-motion threshold, in coordinate units, below which motion
/// is not yet a drag.
pub const DRAG_MOTION_THRESHOLD: i32 = 5;

/// The direction and accumulated distance of a pointer drag or swipe.
#[derive(Debug, Clone, Copy, PartialEq, Eq, Structural)]
pub enum DragType {
    Up(usize),
    Right(usize),
    Down(usize),
    Left(usize),
    Neutral,
}

/// One gesture event from the pointer overlay: the current drag, and
/// whether the pointer is still down (`dragging`) or was just released.
#[derive(Debug, Clone, Copy, PartialEq, Eq, Structural)]
pub struct OverlayEvent {
    pub type_of: DragType,
    pub dragging: bool,
}

/// What a pointer-drag event asks the reader to do.
#[derive(Debug, Clone, Copy, PartialEq, Eq, Structural)]
pub enum DragResolution {
    /// Vertical or empty motion in a paged layout: nothing to do.
    Ignored,
    /// The pointer is still down: show the page following it by this many
    /// distance-units (positive drags toward the previous page).
    Dragging { offset: isize },
    /// Released past the threshold, dragging rightward: turn back.
    NavigatePrevious,
    /// Released past the threshold, dragging leftward: turn forward.
    NavigateNext,
    /// Released short of the threshold: snap the page back to rest.
    SnapBack,
}

/// What a continuous-scroll event asks the reader to do.
#[derive(Debug, Clone, Copy, PartialEq, Eq, Structural)]
pub enum ScrollResolution {
    /// The accumulator filled: turn the section now.
    NavigatePrevious,
    /// The accumulator filled in the other direction.
    NavigateNext,
    /// Still accumulating: (re)start the idle timer.
    ArmTimer,
    /// Nothing accumulated and nothing pending.
    Idle,
}

/// Transient gesture state. The drag distance exists only while a gesture
/// is in progress; the scroll accumulator counts signed fifths of a
/// viewport, positive toward the previous section.
pub struct GestureController {
    pub drag_distance: isize,
    pub drag_threshold: usize,
    pub scroll_accum: i32,
}

impl GestureController {
    /// The scroll accumulator never reaches a full turn between events,
    /// and the configured threshold fits the signed distance it is
    /// compared against.
    pub open spec fn wf(self) -> bool {
        &&& -SCROLL_TRIGGER_FIFTHS < self.scroll_accum < SCROLL_TRIGGER_FIFTHS
        &&& self.drag_threshold <= isize::MAX
    }

    pub fn new(drag_threshold: usize) -> (r: Self)
        requires
            drag_threshold <= isize::MAX,
        ensures
            r.wf(),
            r.drag_distance == 0,
            r.scroll_accum == 0,
            r.drag_threshold == drag_threshold,
    {
        GestureController { drag_distance: 0, drag_threshold, scroll_accum: 0 }
    }

    /// Interprets one pointer event. A horizontal move while the pointer
    /// is down records the live drag distance (negative when dragging
    /// left); a release past the threshold asks for a page turn against
    /// the drag direction; a shorter release clears the drag. Vertical or
    /// empty motion changes nothing.
    pub fn resolve_overlay(&mut self, event: &OverlayEvent) -> (r: DragResolution)
        requires
            old(self).wf(),
            match event.type_of {
                DragType::Left(d) => d <= isize::MAX,
                DragType::Right(d) => d <= isize::MAX,
                _ => true,
            },
        ensures
            final(self).wf(),
            final(self).drag_threshold == old(self).drag_threshold,
            final(self).scroll_accum == old(self).scroll_accum,
            match event.type_of {
                DragType::Right(d) => {
                    if event.dragging {
                        r == (DragResolution::Dragging { offset: d as isize })
                            && final(self).drag_distance == d as isize
                    } else if d > old(self).drag_threshold {
                        r == DragResolution::NavigatePrevious && final(self).drag_distance == old(
                            self,
                        ).drag_distance
                    } else {
                        r == DragResolution::SnapBack && final(self).drag_distance == 0
                    }
                },
                DragType::Left(d) => {
                    if event.dragging {
                        r == (DragResolution::Dragging { offset: final(self).drag_distance })
                            && final(self).drag_distance == -(d as isize)
                    } else if d > old(self).drag_threshold {
                        r == DragResolution::NavigateNext && final(self).drag_distance == old(
                            self,
                        ).drag_distance
                    } else {
                        r == DragResolution::SnapBack && final(self).drag_distance == 0
                    }
                },
                _ => r == DragResolution::Ignored && final(self).drag_distance == old(
                    self,
                ).drag_distance,
            },
    {
        match event.type_of {
            DragType::Right(distance) => {
                if event.dragging {
                    self.drag_distance = distance as isize;
                    DragResolution::Dragging { offset: self.drag_distance }
                } else if distance > self.drag_threshold {
                    DragResolution::NavigatePrevious
                } else {
                    self.drag_distance = 0;
                    DragResolution::SnapBack
                }
            },
            DragType::Left(distance) => {
                if event.dragging {
                    self.drag_distance = -(distance as isize);
                    DragResolution::Dragging { offset: self.drag_distance }
                } else if distance > self.drag_threshold {
                    DragResolution::NavigateNext
                } else {
                    self.drag_distance = 0;
                    DragResolution::SnapBack
                }
            },
            _ => DragResolution::Ignored,
        }
    }

    /// Clears the live drag after a completed page turn.
    pub fn reset_drag(&mut self)
        requires
            old(self).wf(),
        ensures
            final(self).wf(),
            final(self).drag_distance == 0,
            final(self).drag_threshold == old(self).drag_threshold,
            final(self).scroll_accum == old(self).scroll_accum,
    {
        self.drag_distance = 0;
    }

    /// Accumulates one scroll increment of a fifth of the viewport,
    /// upward meaning toward the previous section. A reversal discards
    /// what the other direction had accumulated. Reaching five fifths in
    /// one direction asks for exactly one section turn and empties the
    /// accumulator; anything less asks for the idle timer to be
    /// (re)started.
    pub fn scroll_step(&mut self, upward: bool) -> (r: ScrollResolution)
        requires
            old(self).wf(),
        ensures
            final(self).wf(),
            final(self).drag_distance == old(self).drag_distance,
            final(self).drag_threshold == old(self).drag_threshold,
            ({
                let base = if upward {
                    if old(self).scroll_accum < 0 {
                        0int
                    } else {
                        old(self).scroll_accum as int
                    }
                } else {
                    if old(self).scroll_accum > 0 {
                        0int
                    } else {
                        old(self).scroll_accum as int
                    }
                };
                let next = if upward {
                    base + 1
                } else {
                    base - 1
                };
                if next == SCROLL_TRIGGER_FIFTHS {
                    r == ScrollResolution::NavigatePrevious && final(self).scroll_accum == 0
                } else if next == -SCROLL_TRIGGER_FIFTHS {
                    r == ScrollResolution::NavigateNext && final(self).scroll_accum == 0
                } else {
                    r == ScrollResolution::ArmTimer && final(self).scroll_accum == next
                }
            }),
    {
        if upward {
            let base = if self.scroll_accum < 0 {
                0
            } else {
                self.scroll_accum
            };
            let next = base + 1;
            if next == SCROLL_TRIGGER_FIFTHS {
                self.scroll_accum = 0;
                ScrollResolution::NavigatePrevious
            } else {
                self.scroll_accum = next;
                ScrollResolution::ArmTimer
            }
        } else {
            let base = if self.scroll_accum > 0 {
                0
            } else {
                self.scroll_accum
            };
            let next = base - 1;
            if next == -SCROLL_TRIGGER_FIFTHS {
                self.scroll_accum = 0;
                ScrollResolution::NavigateNext
            } else {
                self.scroll_accum = next;
                ScrollResolution::ArmTimer
            }
        }
    }

    /// The idle timer fired: a scroll that reached three fifths or more
    /// still turns the section in its direction; a shorter one is
    /// discarded. Either way the accumulator empties.
    pub fn scroll_idle_timeout(&mut self) -> (r: ScrollResolution)
        requires
            old(self).wf(),
        ensures
            final(self).wf(),
            final(self).scroll_accum == 0,
            final(self).drag_distance == old(self).drag_distance,
            final(self).drag_threshold == old(self).drag_threshold,
            r == if old(self).scroll_accum >= SCROLL_IDLE_FIFTHS {
                ScrollResolution::NavigatePrevious
            } else if old(self).scroll_accum <= -SCROLL_IDLE_FIFTHS {
                ScrollResolution::NavigateNext
            } else {
                ScrollResolution::Idle
            },
    {
        let accum = self.scroll_accum;
        self.scroll_accum = 0;
        if accum >= SCROLL_IDLE_FIFTHS {
            ScrollResolution::NavigatePrevious
        } else if accum <= -SCROLL_IDLE_FIFTHS {
            ScrollResolution::NavigateNext
        } else {
            ScrollResolution::Idle
        }
    }
}

/// Decides when raw pointer state becomes an overlay event: every motion
/// while a drag is in progress is forwarded live, and the release that
/// ends a drag is forwarded once; anything else (including a plain click
/// that never moved) is swallowed.
pub struct OverlayEmitter {
    pub active: bool,
}

impl OverlayEmitter {
    pub fn new() -> (r: Self)
        ensures
            !r.active,
    {
        OverlayEmitter { active: false }
    }

    /// Folds one pointer-state sample into the emitter: `dragging` is
    /// whether the pointer is down, `moving` whether it has travelled past
    /// the motion threshold since the press.
    pub fn on_mouse_state(&mut self, dragging: bool, moving: bool, direction: DragType) -> (r:
        Option<OverlayEvent>)
        ensures
            if dragging && moving {
                &&& r == Some(OverlayEvent { type_of: direction, dragging: true })
                &&& final(self).active
            } else if !dragging && old(self).active {
                &&& r == Some(OverlayEvent { type_of: direction, dragging: false })
                &&& !final(self).active
            } else {
                &&& r is None
                &&& final(self).active == old(self).active
            },
    {
        if dragging && moving {
            self.active = true;
            Some(OverlayEvent { type_of: direction, dragging: true })
        } else if !dragging && self.active {
            self.active = false;
            Some(OverlayEvent { type_of: direction, dragging: false })
        } else {
            None
        }
    }
}

/// Edge dampening for the in-section drag visual: on the first page of a
/// section there is nothing before it to reveal, so a drag toward the
/// previous page (positive) is suppressed; on the last page, a drag toward
/// the next page (negative) is suppressed; anything else passes through.
pub open spec fn spec_damp(amount: int, page: int, count: int) -> int {
    if (amount > 0 && page == 0) || (amount < 0 && page + 1 >= count) {
        0
    } else {
        amount
    }
}

/// Classifies raw pointer motion, as the overlay does while the pointer is
/// down: no drag until some coordinate differs by the motion threshold,
/// then the dominant axis wins, with ties going to the vertical. The
/// distances are measured from the press to the current position; a
/// positive horizontal difference means the content was dragged left.
pub fn classify_motion(start: (i32, i32), end: (i32, i32)) -> (r: DragType)
    ensures
        ({
            let dx = start.0 - end.0;
            let dy = start.1 - end.1;
            let adx = if dx >= 0 {
                dx
            } else {
                -dx
            };
            let ady = if dy >= 0 {
                dy
            } else {
                -dy
            };
            if adx < DRAG_MOTION_THRESHOLD && ady < DRAG_MOTION_THRESHOLD {
                r == DragType::Neutral
            } else if adx > ady {
                if dx > 0 {
                    r == DragType::Left(adx as usize)
                } else {
                    r == DragType::Right(adx as usize)
                }
            } else {
                if dy > 0 {
                    r == DragType::Up(ady as usize)
                } else {
                    r == DragType::Down(ady as usize)
                }
            }
        }),
{
    let x0 = start.0 as i64;
    let y0 = start.1 as i64;
    let x1 = end.0 as i64;
    let y1 = end.1 as i64;
    let dx = x0 - x1;
    let dy = y0 - y1;
    let adx = if dx >= 0 {
        dx
    } else {
        -dx
    };
    let ady = if dy >= 0 {
        dy
    } else {
        -dy
    };
    if adx < DRAG_MOTION_THRESHOLD as i64 && ady < DRAG_MOTION_THRESHOLD as i64 {
        DragType::Neutral
    } else if adx > ady {
        if dx > 0 {
            DragType::Left(adx as usize)
        } else {
            DragType::Right(adx as usize)
        }
    } else {
        if dy > 0 {
            DragType::Up(ady as usize)
        } else {
            DragType::Down(ady as usize)
        }
    }
}

} // verus!
