use reader_engine::display::{NavOutcome, SectionDisplay};
use reader_engine::engine::{PageLoadType, ReaderEngine, ReaderSettings};

fn settings_with(display: SectionDisplay) -> ReaderSettings {
    ReaderSettings {
        load_speed: 0,
        type_of: PageLoadType::Select,
        is_fullscreen: false,
        display,
        show_progress: false,
        dimensions: (800, 600),
    }
}

fn loaded_engine(display: SectionDisplay, counts: &[usize]) -> ReaderEngine {
    let mut engine = ReaderEngine::new(counts.len(), &settings_with(display));
    for i in 0..counts.len() {
        assert!(engine.request_load(i, i as u64));
    }
    for i in 0..counts.len() {
        assert!(engine.on_section_loaded(i, counts[i]).applied);
    }
    engine
}

fn position_of(engine: &ReaderEngine) -> (usize, usize) {
    (engine.viewing_chapter, engine.store.viewing_page_at(engine.viewing_chapter))
}

#[test]
fn retreat_undoes_advance_within_a_section() {
    let mut engine = loaded_engine(SectionDisplay::Single, &[2, 3, 1]);
    assert!(engine.set_page(3));
    let before = position_of(&engine);
    assert_eq!(engine.advance(), NavOutcome::PageChanged);
    assert_eq!(engine.retreat(), NavOutcome::PageChanged);
    assert_eq!(position_of(&engine), before);
}

#[test]
fn retreat_undoes_advance_across_a_boundary() {
    let mut engine = loaded_engine(SectionDisplay::Single, &[2, 3, 1]);
    // The last page of section 0.
    assert!(engine.set_page(1));
    let before = position_of(&engine);
    assert_eq!(engine.advance(), NavOutcome::SectionChanged { stopped: 0, started: 1 });
    assert_eq!(position_of(&engine), (1, 0));
    assert_eq!(engine.retreat(), NavOutcome::SectionChanged { stopped: 1, started: 0 });
    assert_eq!(position_of(&engine), before);
}

#[test]
fn retreat_is_unhandled_at_the_very_start() {
    let mut engine = loaded_engine(SectionDisplay::Single, &[2, 3, 1]);
    assert_eq!(position_of(&engine), (0, 0));
    assert_eq!(engine.retreat(), NavOutcome::Unhandled);
    assert_eq!(position_of(&engine), (0, 0));
    assert_eq!(engine.previous_page(), NavOutcome::Unhandled);
    assert_eq!(position_of(&engine), (0, 0));
}

#[test]
fn advance_is_unhandled_at_the_very_end() {
    let mut engine = loaded_engine(SectionDisplay::Single, &[2, 3, 1]);
    assert!(engine.set_page(5));
    assert_eq!(position_of(&engine), (2, 0));
    assert_eq!(engine.advance(), NavOutcome::Unhandled);
    assert_eq!(position_of(&engine), (2, 0));
    assert_eq!(engine.next_page(), NavOutcome::Unhandled);
    assert_eq!(position_of(&engine), (2, 0));
}

#[test]
fn scroll_mode_navigates_by_whole_sections() {
    let mut engine = loaded_engine(SectionDisplay::Scroll, &[2, 3, 1]);
    assert_eq!(engine.advance(), NavOutcome::SectionChanged { stopped: 0, started: 1 });
    assert_eq!(position_of(&engine), (1, 0));
    assert_eq!(engine.advance(), NavOutcome::SectionChanged { stopped: 1, started: 2 });
    assert_eq!(engine.advance(), NavOutcome::Unhandled);
    assert_eq!(engine.retreat(), NavOutcome::SectionChanged { stopped: 2, started: 1 });
    assert_eq!(position_of(&engine), (1, 0));
}

#[test]
fn scroll_mode_reinterprets_global_jumps_as_sections() {
    let mut engine = loaded_engine(SectionDisplay::Scroll, &[2, 3, 1]);
    assert!(engine.set_global_page(2));
    assert_eq!(engine.viewing_chapter, 2);
    // Beyond the document: clamped to the last section.
    assert!(engine.set_global_page(50));
    assert_eq!(engine.viewing_chapter, 2);
}

#[test]
fn paged_global_jumps_clamp_to_the_last_page() {
    let mut engine = loaded_engine(SectionDisplay::Single, &[2, 3, 1]);
    assert!(engine.set_global_page(50));
    assert_eq!(position_of(&engine), (2, 0));
    assert!(engine.set_global_page(0));
    assert_eq!(position_of(&engine), (0, 0));
}

#[test]
fn jumping_beyond_loaded_sections_is_refused() {
    let mut engine = ReaderEngine::new(3, &settings_with(SectionDisplay::Single));
    assert!(engine.request_load(0, 0));
    assert!(engine.on_section_loaded(0, 2).applied);
    // Only pages 0 and 1 exist so far.
    assert!(engine.set_page(1));
    assert!(!engine.set_page(2));
    assert_eq!(position_of(&engine), (0, 1));
}

#[test]
fn set_section_requires_a_loaded_target() {
    let mut engine = ReaderEngine::new(3, &settings_with(SectionDisplay::Scroll));
    assert!(engine.request_load(1, 1));
    assert!(!engine.set_section(1));
    assert!(engine.on_section_loaded(1, 4).applied);
    assert!(engine.set_section(1));
    assert_eq!(engine.viewing_chapter, 1);
    assert!(!engine.set_section(2));
    assert!(!engine.set_section(9));
}

#[test]
fn advance_needs_a_current_surface() {
    let mut engine = ReaderEngine::new(2, &settings_with(SectionDisplay::Single));
    // The current section has no surface yet: nothing to turn.
    assert_eq!(engine.advance(), NavOutcome::Unhandled);
    assert_eq!(engine.retreat(), NavOutcome::Unhandled);
}

#[test]
fn a_completed_load_parks_the_previous_section_on_its_last_page() {
    let mut engine = loaded_engine(SectionDisplay::Single, &[2, 3, 1]);
    assert!(engine.set_page(2));
    assert_eq!(engine.viewing_chapter, 1);
    // Re-measure through a fresh engine: load section 1 while viewing it,
    // then check section 0 was parked on its last page.
    let mut late = ReaderEngine::new(3, &settings_with(SectionDisplay::Single));
    assert!(late.request_load(0, 0));
    assert!(late.request_load(1, 1));
    assert!(late.on_section_loaded(0, 2).applied);
    assert!(late.set_page(1));
    assert_eq!(late.viewing_chapter, 0);
    // Advance into section 1 (still loading, no pages yet).
    assert_eq!(late.advance(), NavOutcome::SectionChanged { stopped: 0, started: 1 });
    // Its load completes: the section behind the reader is parked on its
    // last page so the next backward turn lands there.
    late.store.set_viewing_page(0, 0);
    assert!(late.on_section_loaded(1, 3).applied);
    assert_eq!(late.store.viewing_page_at(0), 1);
}
