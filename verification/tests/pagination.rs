use reader_engine::display::SectionDisplay;
use reader_engine::engine::{PageLoadType, ReaderEngine, ReaderSettings};

fn paged_settings() -> ReaderSettings {
    ReaderSettings {
        load_speed: 0,
        type_of: PageLoadType::Select,
        is_fullscreen: false,
        display: SectionDisplay::Single,
        show_progress: false,
        dimensions: (800, 600),
    }
}

fn engine_with_counts(counts: &[usize]) -> ReaderEngine {
    let mut engine = ReaderEngine::new(counts.len(), &paged_settings());
    for i in 0..counts.len() {
        assert!(engine.request_load(i, 100 + i as u64));
    }
    for i in 0..counts.len() {
        let outcome = engine.on_section_loaded(i, counts[i]);
        assert!(outcome.applied);
    }
    engine
}

#[test]
fn load_completion_order_does_not_change_page_count() {
    let counts = [2usize, 3, 1, 4];
    let orders: [[usize; 4]; 3] = [[0, 1, 2, 3], [3, 2, 1, 0], [2, 0, 3, 1]];
    for order in orders.iter() {
        let mut engine = ReaderEngine::new(4, &paged_settings());
        for &i in order.iter() {
            assert!(engine.request_load(i, i as u64));
        }
        for &i in order.iter() {
            assert!(engine.on_section_loaded(i, counts[i]).applied);
        }
        assert!(engine.are_all_sections_loaded());
        assert_eq!(engine.global_page_count(), 2 + 3 + 1 + 4);
    }
}

#[test]
fn resolve_round_trips_every_global_page() {
    let engine = engine_with_counts(&[2, 3, 1]);
    let expected = [(0, 0), (0, 1), (1, 0), (1, 1), (1, 2), (2, 0)];
    assert_eq!(engine.global_page_count(), 6);
    for g in 0..6usize {
        let (section, local) = engine.store.resolve(g).unwrap();
        assert_eq!((section, local), expected[g]);
        let offset = engine.store.offset_at(section);
        assert_eq!(offset + local, g);
    }
    assert_eq!(engine.store.resolve(6), None);
    assert_eq!(engine.store.resolve(100), None);
}

#[test]
fn three_section_document_walkthrough() {
    let mut engine = engine_with_counts(&[2, 3, 1]);
    assert_eq!(engine.global_page_count(), 6);
    assert_eq!(engine.store.resolve(2), Some((1, 0)));
    assert_eq!(engine.store.resolve(4), Some((1, 2)));
    assert_eq!(engine.store.resolve(5), Some((2, 0)));
    // Put the reader on (section 1, page 2), the last page of section 1.
    assert!(engine.set_page(4));
    assert_eq!(engine.viewing_chapter, 1);
    assert_eq!(engine.store.viewing_page_at(1), 2);
    // Advancing crosses the boundary and reports the viewing hooks.
    let outcome = engine.advance();
    assert_eq!(
        outcome,
        reader_engine::display::NavOutcome::SectionChanged { stopped: 1, started: 2 }
    );
    assert_eq!(engine.viewing_chapter, 2);
    assert_eq!(engine.store.viewing_page_at(2), 0);
}

#[test]
fn boundary_page_belongs_to_the_next_section() {
    let engine = engine_with_counts(&[2, 3, 1]);
    // Page 2 is exactly the boundary after section 0's two pages.
    assert_eq!(engine.store.resolve(2), Some((1, 0)));
    // Page 5 is exactly the boundary after section 1's three pages.
    assert_eq!(engine.store.resolve(5), Some((2, 0)));
}

#[test]
fn page_count_is_an_underestimate_until_all_sections_load() {
    let mut engine = ReaderEngine::new(3, &paged_settings());
    assert_eq!(engine.global_page_count(), 0);
    assert!(engine.request_load(0, 1));
    assert!(engine.request_load(1, 2));
    assert!(engine.request_load(2, 3));
    assert_eq!(engine.global_page_count(), 0);
    assert!(engine.on_section_loaded(1, 3).applied);
    assert_eq!(engine.global_page_count(), 3);
    assert!(engine.on_section_loaded(0, 2).applied);
    assert_eq!(engine.global_page_count(), 5);
    assert!(!engine.are_all_sections_loaded());
    let last = engine.on_section_loaded(2, 1);
    assert!(last.applied);
    assert!(last.all_loaded);
    assert!(last.none_loading);
    assert_eq!(engine.global_page_count(), 6);
}

#[test]
fn the_reported_position_tracks_the_reader() {
    let mut engine = engine_with_counts(&[2, 3, 1]);
    assert!(engine.set_page(3));
    let position = engine.current_position();
    assert_eq!(position.global_page, 3);
    assert_eq!(position.total_pages, 6);
    assert_eq!(position.section_index, 1);
    assert_eq!(position.total_sections, 3);
}

#[test]
fn a_settings_change_is_noticed_exactly_when_something_moved() {
    let engine = ReaderEngine::new(1, &paged_settings());
    assert!(!engine.settings_changed(&paged_settings()));
    let mut wider = paged_settings();
    wider.dimensions = (900, 600);
    assert!(engine.settings_changed(&wider));
    let mut scrolling = paged_settings();
    scrolling.display = SectionDisplay::Scroll;
    assert!(engine.settings_changed(&scrolling));
    // Fields outside the layout do not force a re-layout pass.
    let mut flagged = paged_settings();
    flagged.show_progress = true;
    assert!(!engine.settings_changed(&flagged));
}

#[test]
fn request_load_is_idempotent_and_completion_rejects_stale() {
    let mut engine = ReaderEngine::new(2, &paged_settings());
    assert!(engine.request_load(0, 7));
    // A second request for the same section is a no-op.
    assert!(!engine.request_load(0, 8));
    // A completion for a section that was never requested is dropped.
    assert!(!engine.on_section_loaded(1, 5).applied);
    assert!(engine.on_section_loaded(0, 2).applied);
    // A duplicate completion is dropped too.
    assert!(!engine.on_section_loaded(0, 9).applied);
    assert_eq!(engine.global_page_count(), 2);
    // A request for a section beyond the document is refused.
    assert!(!engine.request_load(5, 9));
}

#[test]
fn zero_reported_pages_count_as_one() {
    let mut engine = ReaderEngine::new(1, &paged_settings());
    assert!(engine.request_load(0, 1));
    assert!(engine.on_section_loaded(0, 0).applied);
    assert_eq!(engine.global_page_count(), 1);
}

#[test]
fn remeasuring_a_section_rederives_the_index() {
    let mut engine = engine_with_counts(&[2, 3, 1]);
    assert!(engine.on_section_remeasured(1, 5));
    assert_eq!(engine.global_page_count(), 8);
    assert_eq!(engine.store.resolve(6), Some((1, 4)));
    assert_eq!(engine.store.resolve(7), Some((2, 0)));
    // Only loaded sections can be re-measured.
    assert!(!engine.on_section_remeasured(9, 4));
}
