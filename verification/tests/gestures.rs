use reader_engine::display::{NavOutcome, SectionDisplay};
use reader_engine::engine::{
    OverlayOutcome, PageLoadType, ReaderEngine, ReaderSettings, ScrollEventOutcome,
};
use reader_engine::gesture::{
    classify_motion, DragType, GestureController, OverlayEmitter, OverlayEvent,
};

fn gesture_settings(display: SectionDisplay) -> ReaderSettings {
    ReaderSettings {
        load_speed: 0,
        type_of: PageLoadType::Select,
        is_fullscreen: false,
        display,
        show_progress: false,
        dimensions: (800, 600),
    }
}

fn gesture_engine(display: SectionDisplay, counts: &[usize]) -> ReaderEngine {
    let mut engine = ReaderEngine::new(counts.len(), &gesture_settings(display));
    for i in 0..counts.len() {
        assert!(engine.request_load(i, i as u64));
    }
    for i in 0..counts.len() {
        assert!(engine.on_section_loaded(i, counts[i]).applied);
    }
    engine
}

#[test]
fn five_scroll_fifths_advance_exactly_one_section() {
    let mut engine = gesture_engine(SectionDisplay::Scroll, &[1, 1, 1, 1, 1]);
    assert!(engine.set_section(2));
    for _ in 0..4 {
        let outcome = engine.handle_scroll_event(&DragType::Down(120));
        assert_eq!(outcome, ScrollEventOutcome::TimerArmed);
        assert_eq!(engine.viewing_chapter, 2);
    }
    let fifth = engine.handle_scroll_event(&DragType::Down(120));
    assert_eq!(
        fifth,
        ScrollEventOutcome::Navigated {
            outcome: NavOutcome::SectionChanged { stopped: 2, started: 3 }
        }
    );
    assert_eq!(engine.viewing_chapter, 3);
    assert_eq!(engine.gesture.scroll_accum, 0);
}

#[test]
fn a_scroll_reversal_discards_the_other_direction() {
    let mut engine = gesture_engine(SectionDisplay::Scroll, &[1, 1, 1, 1, 1]);
    assert!(engine.set_section(2));
    for _ in 0..3 {
        engine.handle_scroll_event(&DragType::Down(120));
    }
    assert_eq!(engine.gesture.scroll_accum, -3);
    // One upward increment restarts the count in the other direction.
    assert_eq!(engine.handle_scroll_event(&DragType::Up(120)), ScrollEventOutcome::TimerArmed);
    assert_eq!(engine.gesture.scroll_accum, 1);
    assert_eq!(engine.viewing_chapter, 2);
}

#[test]
fn scrolling_at_a_document_edge_accumulates_nothing() {
    let mut engine = gesture_engine(SectionDisplay::Scroll, &[1, 1, 1]);
    assert_eq!(engine.handle_scroll_event(&DragType::Up(120)), ScrollEventOutcome::Ignored);
    assert_eq!(engine.gesture.scroll_accum, 0);
    assert!(engine.set_section(2));
    assert_eq!(engine.handle_scroll_event(&DragType::Down(120)), ScrollEventOutcome::Ignored);
    assert_eq!(engine.gesture.scroll_accum, 0);
}

#[test]
fn the_idle_timeout_finishes_or_discards_a_partial_scroll() {
    let mut engine = gesture_engine(SectionDisplay::Scroll, &[1, 1, 1, 1, 1]);
    assert!(engine.set_section(2));
    // Two fifths: too little, discarded.
    engine.handle_scroll_event(&DragType::Down(120));
    engine.handle_scroll_event(&DragType::Down(120));
    assert_eq!(engine.on_scroll_idle(), ScrollEventOutcome::Ignored);
    assert_eq!(engine.gesture.scroll_accum, 0);
    assert_eq!(engine.viewing_chapter, 2);
    // Three fifths: the timeout finishes the turn.
    engine.handle_scroll_event(&DragType::Down(120));
    engine.handle_scroll_event(&DragType::Down(120));
    engine.handle_scroll_event(&DragType::Down(120));
    assert_eq!(
        engine.on_scroll_idle(),
        ScrollEventOutcome::Navigated {
            outcome: NavOutcome::SectionChanged { stopped: 2, started: 3 }
        }
    );
    assert_eq!(engine.gesture.scroll_accum, 0);
    assert_eq!(engine.viewing_chapter, 3);
}

#[test]
fn a_long_rightward_release_turns_back_a_page() {
    let mut engine = gesture_engine(SectionDisplay::Single, &[2, 3, 1]);
    // Page 0 of section 1, with a previous section available.
    assert!(engine.set_page(2));
    assert_eq!(engine.viewing_chapter, 1);
    assert_eq!(engine.store.viewing_page_at(1), 0);
    let outcome = engine.handle_overlay_event(&OverlayEvent {
        type_of: DragType::Right(250),
        dragging: false,
    });
    assert_eq!(
        outcome,
        OverlayOutcome::Navigated {
            outcome: NavOutcome::SectionChanged { stopped: 1, started: 0 }
        }
    );
    // The retreat lands on the previous section's last page.
    assert_eq!(engine.viewing_chapter, 0);
    assert_eq!(engine.store.viewing_page_at(0), 1);
    assert_eq!(engine.gesture.drag_distance, 0);
}

#[test]
fn a_short_release_snaps_back_without_navigating() {
    let mut engine = gesture_engine(SectionDisplay::Single, &[2, 3, 1]);
    assert!(engine.set_page(2));
    let during = engine.handle_overlay_event(&OverlayEvent {
        type_of: DragType::Right(150),
        dragging: true,
    });
    // On the first page of its section, a drag toward the previous page
    // is dampened to nothing in the in-section visual.
    assert_eq!(during, OverlayOutcome::VisualDrag { offset: 0 });
    assert_eq!(engine.gesture.drag_distance, 150);
    let release = engine.handle_overlay_event(&OverlayEvent {
        type_of: DragType::Right(150),
        dragging: false,
    });
    assert_eq!(release, OverlayOutcome::SnapBack);
    assert_eq!(engine.gesture.drag_distance, 0);
    assert_eq!(engine.viewing_chapter, 1);
    assert_eq!(engine.store.viewing_page_at(1), 0);
}

#[test]
fn a_long_leftward_release_turns_the_page_forward() {
    let mut engine = gesture_engine(SectionDisplay::Single, &[2, 3, 1]);
    let outcome = engine.handle_overlay_event(&OverlayEvent {
        type_of: DragType::Left(201),
        dragging: false,
    });
    assert_eq!(outcome, OverlayOutcome::Navigated { outcome: NavOutcome::PageChanged });
    assert_eq!(engine.viewing_chapter, 0);
    assert_eq!(engine.store.viewing_page_at(0), 1);
}

#[test]
fn a_release_at_exactly_the_threshold_does_not_navigate() {
    let mut engine = gesture_engine(SectionDisplay::Single, &[2, 3, 1]);
    let outcome = engine.handle_overlay_event(&OverlayEvent {
        type_of: DragType::Left(200),
        dragging: false,
    });
    assert_eq!(outcome, OverlayOutcome::SnapBack);
    assert_eq!(engine.store.viewing_page_at(0), 0);
}

#[test]
fn vertical_overlay_motion_is_ignored_in_paged_mode() {
    let mut engine = gesture_engine(SectionDisplay::Single, &[2, 3, 1]);
    let outcome = engine.handle_overlay_event(&OverlayEvent {
        type_of: DragType::Up(400),
        dragging: false,
    });
    assert_eq!(outcome, OverlayOutcome::Ignored);
    assert_eq!(engine.viewing_chapter, 0);
}

#[test]
fn drag_visuals_follow_the_pointer_away_from_edges() {
    let mut engine = gesture_engine(SectionDisplay::Single, &[2, 3, 1]);
    // Page 1 of section 1: neither first nor last page.
    assert!(engine.set_page(3));
    let during = engine.handle_overlay_event(&OverlayEvent {
        type_of: DragType::Right(60),
        dragging: true,
    });
    assert_eq!(during, OverlayOutcome::VisualDrag { offset: 60 });
    let leftward = engine.handle_overlay_event(&OverlayEvent {
        type_of: DragType::Left(40),
        dragging: true,
    });
    assert_eq!(leftward, OverlayOutcome::VisualDrag { offset: -40 });
}

#[test]
fn the_frame_visual_complements_the_section_visual() {
    let mut engine = gesture_engine(SectionDisplay::Single, &[2, 3, 1]);
    // On page 0, a rightward drag moves the frame, not the section.
    engine.handle_overlay_event(&OverlayEvent { type_of: DragType::Right(80), dragging: true });
    assert_eq!(engine.transition_offset(), 0);
    assert_eq!(engine.frame_drag_amount(), 80);
    // Away from the edges, the section follows and the frame stays.
    assert!(engine.set_page(3));
    engine.handle_overlay_event(&OverlayEvent { type_of: DragType::Right(80), dragging: true });
    assert_eq!(engine.transition_offset(), 80);
    assert_eq!(engine.frame_drag_amount(), 0);
    // On the last page, a leftward drag moves the frame again.
    assert!(engine.set_page(5));
    engine.handle_overlay_event(&OverlayEvent { type_of: DragType::Left(80), dragging: true });
    assert_eq!(engine.transition_offset(), 0);
    assert_eq!(engine.frame_drag_amount(), -80);
}

#[test]
fn pointer_motion_classifies_by_dominant_axis() {
    // Dragged left: the pointer moved from x=200 to x=50.
    assert_eq!(classify_motion((200, 100), (50, 100)), DragType::Left(150));
    assert_eq!(classify_motion((50, 100), (200, 100)), DragType::Right(150));
    assert_eq!(classify_motion((100, 300), (100, 80)), DragType::Up(220));
    assert_eq!(classify_motion((100, 80), (100, 300)), DragType::Down(220));
    // Below the motion threshold nothing counts as a drag.
    assert_eq!(classify_motion((100, 100), (102, 103)), DragType::Neutral);
    // The vertical axis wins a tie.
    assert_eq!(classify_motion((100, 100), (80, 80)), DragType::Up(20));
}

#[test]
fn the_overlay_emitter_forwards_drags_and_one_release() {
    let mut emitter = OverlayEmitter::new();
    // A press that never moves emits nothing, so a plain click cannot
    // turn the page.
    assert_eq!(emitter.on_mouse_state(true, false, DragType::Neutral), None);
    assert_eq!(emitter.on_mouse_state(false, false, DragType::Neutral), None);
    // A real drag is forwarded live, and its release exactly once.
    assert_eq!(
        emitter.on_mouse_state(true, true, DragType::Left(90)),
        Some(OverlayEvent { type_of: DragType::Left(90), dragging: true })
    );
    assert_eq!(
        emitter.on_mouse_state(false, false, DragType::Left(120)),
        Some(OverlayEvent { type_of: DragType::Left(120), dragging: false })
    );
    assert_eq!(emitter.on_mouse_state(false, false, DragType::Left(120)), None);
}

#[test]
fn a_blocked_release_keeps_the_drag_distance() {
    // Released past the threshold at the very start of the document: the
    // turn is refused and the live drag is left as it was.
    let mut engine = gesture_engine(SectionDisplay::Single, &[2, 3, 1]);
    engine.handle_overlay_event(&OverlayEvent { type_of: DragType::Right(300), dragging: true });
    assert_eq!(engine.gesture.drag_distance, 300);
    let outcome = engine.handle_overlay_event(&OverlayEvent {
        type_of: DragType::Right(300),
        dragging: false,
    });
    assert_eq!(outcome, OverlayOutcome::Navigated { outcome: NavOutcome::Unhandled });
    assert_eq!(engine.gesture.drag_distance, 300);
}

#[test]
fn gesture_controller_thresholds_are_configurable() {
    let mut controller = GestureController::new(50);
    let release = controller.resolve_overlay(&OverlayEvent {
        type_of: DragType::Left(60),
        dragging: false,
    });
    assert_eq!(release, reader_engine::gesture::DragResolution::NavigateNext);
}
