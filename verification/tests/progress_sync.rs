use reader_engine::display::SectionDisplay;
use reader_engine::engine::{PageLoadType, ReaderEngine, ReaderSettings};
use reader_engine::progress::{compute_progress, restore_target};
use reader_engine::progression::{Progression, ProgressionRecord};

fn progress_settings() -> ReaderSettings {
    ReaderSettings {
        load_speed: 0,
        type_of: PageLoadType::Select,
        is_fullscreen: false,
        display: SectionDisplay::Single,
        show_progress: false,
        dimensions: (800, 600),
    }
}

fn progress_engine(counts: &[usize]) -> ReaderEngine {
    let mut engine = ReaderEngine::new(counts.len(), &progress_settings());
    for i in 0..counts.len() {
        assert!(engine.request_load(i, i as u64));
    }
    for i in 0..counts.len() {
        assert!(engine.on_section_loaded(i, counts[i]).applied);
    }
    engine
}

#[test]
fn no_progress_is_written_during_the_initial_load() {
    // No pages measured yet and the reader on section 0: nothing is
    // persisted, so stored progress is not clobbered by a placeholder.
    assert_eq!(compute_progress(0, 0, 0, 0, -1, 3), None);
    let engine = ReaderEngine::new(3, &progress_settings());
    assert!(!engine.should_sync_progress());
    assert_eq!(engine.current_progress(-1), None);
}

#[test]
fn the_last_page_of_the_last_section_is_complete() {
    assert_eq!(compute_progress(6, 5, 2, 0, -1, 3), Some(Progression::Complete));
    let mut engine = progress_engine(&[2, 3, 1]);
    assert!(engine.set_page(5));
    assert!(engine.should_sync_progress());
    assert_eq!(engine.current_progress(-1), Some(Progression::Complete));
}

#[test]
fn everywhere_else_progress_is_a_text_position() {
    let mut engine = progress_engine(&[2, 3, 1]);
    assert!(engine.set_page(3));
    assert_eq!(
        engine.current_progress(9001),
        Some(Progression::Ebook { char_pos: 9001, chapter: 1, page: 1 })
    );
    // The last page of a section that is not the last section.
    assert!(engine.set_page(4));
    assert_eq!(
        engine.current_progress(-1),
        Some(Progression::Ebook { char_pos: -1, chapter: 1, page: 2 })
    );
    // Unmeasured pages but the reader is past section 0: still a text
    // position, not a deletion.
    assert_eq!(
        compute_progress(0, 0, 1, 0, -1, 3),
        Some(Progression::Ebook { char_pos: -1, chapter: 1, page: 0 })
    );
}

#[test]
fn progression_records_round_trip() {
    let values = [
        Progression::Complete,
        Progression::Ebook { char_pos: 12345, chapter: 4, page: 2 },
        Progression::Ebook { char_pos: -1, chapter: 0, page: 0 },
        Progression::AudioBook { chapter: 7, seek_pos: 98765 },
    ];
    for p in values.iter() {
        let record = p.encode();
        assert_eq!(record.decode(), Some(*p));
    }
    let complete = values[0].encode();
    assert_eq!(complete.type_of, 0);
    assert_eq!(complete.chapter, None);
    let ebook = values[1].encode();
    assert_eq!(ebook.type_of, 1);
    assert_eq!(ebook.chapter, Some(4));
    assert_eq!(ebook.page, Some(2));
    assert_eq!(ebook.char_pos, Some(12345));
    let audio = values[3].encode();
    assert_eq!(audio.type_of, 2);
    assert_eq!(audio.seek_pos, Some(98765));
}

#[test]
fn malformed_records_decode_to_nothing() {
    let unknown = ProgressionRecord {
        type_of: 9,
        chapter: Some(1),
        page: Some(1),
        char_pos: Some(1),
        seek_pos: None,
    };
    assert_eq!(unknown.decode(), None);
    let missing_field = ProgressionRecord {
        type_of: 1,
        chapter: Some(1),
        page: None,
        char_pos: Some(1),
        seek_pos: None,
    };
    assert_eq!(missing_field.decode(), None);
}

#[test]
fn only_an_ebook_record_restores_and_only_at_the_start() {
    let stored = Some(Progression::Ebook { char_pos: 555, chapter: 2, page: 1 });
    assert_eq!(restore_target(&stored, 0, 5), Some((2, 555)));
    // Once the reader moved away from section 0, nothing restores.
    assert_eq!(restore_target(&stored, 3, 5), None);
    // A record pointing outside the document does not restore.
    assert_eq!(restore_target(&stored, 0, 2), None);
    let negative = Some(Progression::Ebook { char_pos: 1, chapter: -4, page: 0 });
    assert_eq!(restore_target(&negative, 0, 5), None);
    assert_eq!(restore_target(&Some(Progression::Complete), 0, 5), None);
    assert_eq!(
        restore_target(&Some(Progression::AudioBook { chapter: 1, seek_pos: 3 }), 0, 5),
        None
    );
    assert_eq!(restore_target(&None, 0, 5), None);
}

#[test]
fn restoring_opens_the_stored_section_and_mapped_page() {
    let mut engine = progress_engine(&[2, 3, 1]);
    let stored = Some(Progression::Ebook { char_pos: 700, chapter: 1, page: 9 });
    let (section, char_pos) = engine.restore_target(&stored).unwrap();
    assert_eq!((section, char_pos), (1, 700));
    assert!(engine.set_section(section));
    // The surface mapped the byte position to local page 2.
    assert!(engine.set_restored_page(section, 2));
    assert_eq!(engine.viewing_chapter, 1);
    assert_eq!(engine.store.viewing_page_at(1), 2);
    // A page the section does not have is refused.
    assert!(!engine.set_restored_page(section, 7));
    assert_eq!(engine.store.viewing_page_at(1), 2);
}

#[test]
fn progress_syncs_only_once_a_surface_exists() {
    let mut engine = ReaderEngine::new(2, &progress_settings());
    assert!(!engine.should_sync_progress());
    assert!(engine.request_load(0, 0));
    assert!(engine.should_sync_progress());
    assert!(engine.on_section_loaded(0, 2).applied);
    assert_eq!(
        engine.current_progress(-1),
        Some(Progression::Ebook { char_pos: -1, chapter: 0, page: 0 })
    );
}
