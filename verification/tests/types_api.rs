use reader_engine::api::{
    BookListQuery, GetBookIdResponse, GetBookListResponse, GetLibrariesResponse,
    GetOptionsResponse, ModifyOptionsBody, PostMetadataBody, RunTaskBody,
};
use reader_engine::display::SectionDisplay;
use reader_engine::engine::{PageLoadType, ReaderEngine, ReaderSettings};
use reader_engine::media::{
    find_chapter_by_path, path_ends_with, BasicDirectory, BasicLibrary, Chapter, LibraryColl,
    LoadedChapters, MediaItem,
};
use reader_engine::preferences::{
    MemberBasicPreferences, MemberPreferences, MemberReaderPreferences, ReaderColor,
};
use reader_engine::progression::Progression;

#[test]
fn reader_preferences_default_to_a_double_page_layout() {
    let prefs = MemberReaderPreferences::default();
    assert!(!prefs.always_show_progress);
    assert!(!prefs.auto_full_screen);
    assert!(!prefs.default_full_screen);
    assert_eq!(prefs.width, 1040);
    assert_eq!(prefs.height, 548);
    assert_eq!(prefs.text_size, 0);
    assert_eq!(prefs.color, ReaderColor::Default);
    assert_eq!(prefs.display_type, 1);
    assert_eq!(prefs.load_type, 1);
    assert_eq!(prefs.display_mode(), SectionDisplay::Double);
}

#[test]
fn member_preferences_nest_per_device_defaults() {
    let prefs = MemberPreferences::default();
    assert_eq!(prefs.version, 0);
    assert_eq!(prefs.desktop, MemberBasicPreferences::default());
    assert_eq!(prefs.mobile.reader, MemberReaderPreferences::default());
}

#[test]
fn display_modes_round_trip_through_their_stored_form() {
    let modes = [SectionDisplay::Single, SectionDisplay::Double, SectionDisplay::Scroll];
    for mode in modes.iter() {
        assert_eq!(SectionDisplay::from_u8(mode.as_u8()), *mode);
    }
    assert_eq!(SectionDisplay::from_u8(9), SectionDisplay::Double);
    assert!(SectionDisplay::Scroll.is_scroll());
    assert!(!SectionDisplay::Single.is_scroll());
    assert_eq!(SectionDisplay::default(), SectionDisplay::Double);
}

#[test]
fn reader_settings_default_matches_the_load_policy() {
    let settings = ReaderSettings::default();
    assert_eq!(settings.type_of, PageLoadType::Select);
    assert_eq!(settings.display, SectionDisplay::Double);
    assert!(!settings.is_fullscreen);
    assert_eq!(PageLoadType::default(), PageLoadType::Select);
}

#[test]
fn api_bodies_build_and_default_plainly() {
    let body = ModifyOptionsBody::default();
    assert!(body.library.is_none());
    assert!(body.directory.is_none());
    let task = RunTaskBody::default();
    assert!(!task.run_search && !task.run_metadata);
    let adding = ModifyOptionsBody {
        library: Some(BasicLibrary {
            id: None,
            name: Some(String::from("shelf")),
            directories: Some(vec![String::from("/books")]),
        }),
        ..ModifyOptionsBody::default()
    };
    assert_eq!(adding.library.unwrap().name.unwrap(), "shelf");
    let query = BookListQuery { library: 1, offset: Some(0), limit: Some(25) };
    assert_eq!(query.limit, Some(25));
    match (PostMetadataBody::File(77),) {
        (PostMetadataBody::File(id),) => assert_eq!(id, 77),
    }
}

#[test]
fn api_responses_carry_media_and_progress() {
    let media = MediaItem {
        id: 42,
        title: String::from("A Title"),
        icon_path: None,
        chapter_count: 3,
    };
    let response = GetBookIdResponse {
        media: media.clone(),
        progress: Some(Progression::Ebook { char_pos: -1, chapter: 0, page: 0 }),
    };
    assert_eq!(response.media.chapter_count, 3);
    let list = GetBookListResponse { count: 1, items: vec![media] };
    assert_eq!(list.items[0].id, 42);
    let library = LibraryColl { id: 5, name: String::from("Main") };
    let libraries = GetLibrariesResponse { items: vec![library.clone()] };
    assert_eq!(libraries.items[0].name, "Main");
    let options = GetOptionsResponse { libraries: vec![library] };
    assert_eq!(options.libraries.len(), 1);
    let directory = BasicDirectory { library_id: 5, path: String::from("/books") };
    assert_eq!(directory.library_id, 5);
}

#[test]
fn link_targets_match_whole_path_components() {
    assert!(path_ends_with("book/chapter-2.html", "chapter-2.html"));
    assert!(path_ends_with("book/chapter-2.html", "book/chapter-2.html"));
    assert!(path_ends_with("chapter-2.html", "chapter-2.html"));
    // A partial component is not a match.
    assert!(!path_ends_with("book/chapter-12.html", "chapter-2.html"));
    assert!(!path_ends_with("book/chapter-2.html", ""));
    assert!(!path_ends_with("a.html", "book/a.html"));
}

#[test]
fn a_redirect_finds_the_first_matching_chapter() {
    let chapters = vec![
        Chapter { value: 0, file_path: String::from("text/intro.html") },
        Chapter { value: 1, file_path: String::from("text/one.html") },
        Chapter { value: 2, file_path: String::from("text/one.html") },
    ];
    assert_eq!(find_chapter_by_path(&chapters, "one.html"), Some(1));
    assert_eq!(find_chapter_by_path(&chapters, "text/intro.html"), Some(0));
    assert_eq!(find_chapter_by_path(&chapters, "two.html"), None);
}

#[test]
fn loaded_chapters_start_empty() {
    let chapters = LoadedChapters::new();
    assert_eq!(chapters.total, 0);
    assert!(chapters.chapters.is_empty());
}

#[test]
fn pending_loads_come_in_reverse_order_of_the_fetched_chapters() {
    let mut engine = ReaderEngine::new(
        4,
        &ReaderSettings { display: SectionDisplay::Single, ..ReaderSettings::default() },
    );
    let chapters = vec![
        Chapter { value: 0, file_path: String::from("c0.html") },
        Chapter { value: 1, file_path: String::from("c1.html") },
        Chapter { value: 2, file_path: String::from("c2.html") },
    ];
    assert_eq!(engine.pending_loads(&chapters), vec![2, 1, 0]);
    // A section already requested is not requested again.
    assert!(engine.request_load(1, 1));
    assert_eq!(engine.pending_loads(&chapters), vec![2, 0]);
    // A chapter outside the document is never requested.
    let with_stray = vec![
        Chapter { value: 0, file_path: String::from("c0.html") },
        Chapter { value: 9, file_path: String::from("c9.html") },
    ];
    assert_eq!(engine.pending_loads(&with_stray), vec![0]);
}
