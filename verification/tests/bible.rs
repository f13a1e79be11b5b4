use openpresenter::bible::{
    fewer_verses_per_slide, more_verses_per_slide, selection_label_of, verse_row_label, BibleState,
    BibleVerse, SearchAction,
};
use openpresenter::domain::{SlideContent, Transition};

fn verse(book: &str, chapter: i32, v: i32, text: &str) -> BibleVerse {
    BibleVerse { book: book.into(), chapter, verse: v, text: text.into() }
}

fn state(verses: Vec<BibleVerse>) -> BibleState {
    BibleState {
        selected_translation: Some("kjv".into()),
        selected_book: Some("John".into()),
        selected_chapter: Some(3),
        books: vec!["John".into()],
        chapters: vec![3],
        verses,
        selected_verse_indices: vec![],
        search: String::new(),
        verses_per_slide: 2,
        translation_to_delete: None,
    }
}

fn text_of(c: &SlideContent) -> &str {
    match c {
        SlideContent::Text { text } => text,
        _ => panic!("not text"),
    }
}

#[test]
fn passage_becomes_slides_of_runs() {
    let mut st = state(vec![
        verse("John", 3, 16, "For God so loved"),
        verse("John", 3, 17, "For God sent not"),
        verse("John", 3, 18, "He that believeth"),
    ]);
    st.select_all();
    let d = st.passage_draft().unwrap();
    assert_eq!(d.name, "John 3:16-18");
    assert_eq!(d.slides.len(), 2);
    assert_eq!(text_of(&d.slides[0].content), "16  For God so loved\n\n17  For God sent not");
    assert_eq!(d.slides[0].group.as_deref(), Some("John 3:16-17"));
    assert_eq!(text_of(&d.slides[1].content), "18  He that believeth");
    assert_eq!(d.slides[1].group.as_deref(), Some("John 3:18"));
    assert_eq!(d.slides[1].transition, Transition::Fade { duration_ms: 500 });
}

#[test]
fn passage_across_chapters_names_both_ends() {
    let mut st = state(vec![verse("Ruth", 1, 22, "a"), verse("Ruth", 2, 1, "b")]);
    st.verses_per_slide_changed(0);
    assert_eq!(st.verses_per_slide, 1);
    st.select_all();
    let d = st.passage_draft().unwrap();
    assert_eq!(d.name, "Ruth 1:22 \u{2013} Ruth 2:1");
    assert_eq!(d.slides.len(), 2);
}

#[test]
fn nothing_picked_gives_no_draft() {
    let st = state(vec![verse("John", 3, 16, "x")]);
    assert!(st.passage_draft().is_none());
}

#[test]
fn toggling_keeps_selection_sorted() {
    let mut st = state(vec![]);
    st.verse_toggled(5);
    st.verse_toggled(2);
    st.verse_toggled(9);
    assert_eq!(st.selected_verse_indices, vec![2, 5, 9]);
    st.verse_toggled(5);
    assert_eq!(st.selected_verse_indices, vec![2, 9]);
    st.verse_toggled(5);
    st.verse_toggled(5);
    assert_eq!(st.selected_verse_indices, vec![2, 9]);
}

#[test]
fn verses_per_slide_is_clamped() {
    let mut st = state(vec![]);
    st.verses_per_slide_changed(42);
    assert_eq!(st.verses_per_slide, 10);
    st.verses_per_slide_changed(3);
    assert_eq!(st.verses_per_slide, 3);
}

#[test]
fn search_decides_what_to_list() {
    let mut st = state(vec![]);
    st.selected_verse_indices = vec![1];
    match st.search_changed("  ".into()) {
        SearchAction::RestoreChapter { translation, book, chapter } => {
            assert_eq!((translation.as_str(), book.as_str(), chapter), ("kjv", "John", 3));
        }
        other => panic!("unexpected {other:?}"),
    }
    assert!(st.selected_verse_indices.is_empty());
    match st.search_changed("love".into()) {
        SearchAction::Search { translation } => assert_eq!(translation, "kjv"),
        other => panic!("unexpected {other:?}"),
    }
    st.selected_chapter = None;
    assert!(matches!(st.search_changed("".into()), SearchAction::ClearVerses));
    st.selected_translation = None;
    assert!(matches!(st.search_changed("x".into()), SearchAction::Nothing));
}

#[test]
fn choosing_translation_clears_below() {
    let mut st = state(vec![verse("John", 3, 16, "x")]);
    st.translation_selected("web".into());
    assert_eq!(st.selected_translation.as_deref(), Some("web"));
    assert!(st.selected_book.is_none() && st.verses.is_empty() && st.books.is_empty());
    st.translation_deleted(&"web".to_string());
    assert!(st.selected_translation.is_none());
}

#[test]
fn verse_rows_and_selection_labels() {
    let v = verse("John", 3, 16, "For God so loved");
    assert_eq!(verse_row_label(&v, ""), "v16");
    assert_eq!(verse_row_label(&v, "   "), "v16");
    assert_eq!(verse_row_label(&v, "loved"), "John 3:16");
    assert_eq!(selection_label_of(0), "No verses selected");
    assert_eq!(selection_label_of(1), "1 verse selected");
    assert_eq!(selection_label_of(12), "12 verses selected");
}

#[test]
fn verses_per_slide_buttons() {
    assert_eq!(fewer_verses_per_slide(0), 1);
    assert_eq!(fewer_verses_per_slide(1), 1);
    assert_eq!(fewer_verses_per_slide(2), 1);
    assert_eq!(fewer_verses_per_slide(7), 6);
    assert_eq!(more_verses_per_slide(1), 2);
    assert_eq!(more_verses_per_slide(9), 10);
    assert_eq!(more_verses_per_slide(10), 10);
    assert_eq!(more_verses_per_slide(40), 10);
}

#[test]
fn toggling_a_verse_twice_restores_the_selection() {
    let mut st = state(vec![verse("John", 3, 1, "a"), verse("John", 3, 2, "b"), verse("John", 3, 3, "c")]);
    st.verse_toggled(2);
    st.verse_toggled(0);
    assert_eq!(st.selected_verse_indices, vec![0, 2]);
    st.verse_toggled(1);
    st.verse_toggled(1);
    assert_eq!(st.selected_verse_indices, vec![0, 2]);
}

#[test]
fn choosing_book_and_chapter_clears_below() {
    let mut st = state(vec![verse("John", 3, 1, "a"), verse("John", 3, 2, "b")]);
    st.select_all();
    st.search = "x".to_string();
    st.chapter_selected(4);
    assert_eq!(st.selected_chapter, Some(4));
    assert!(st.verses.is_empty());
    assert!(st.selected_verse_indices.is_empty());
    assert_eq!(st.search, "");
    assert_eq!(st.chapters, vec![3]);
    st.book_selected("Mark".to_string());
    assert_eq!(st.selected_book.as_deref(), Some("Mark"));
    assert_eq!(st.selected_chapter, None);
    assert!(st.chapters.is_empty());
    assert_eq!(st.books, vec!["John".to_string()]);
    let mut st = state(vec![verse("John", 3, 1, "a")]);
    st.select_all();
    st.clear_selection();
    assert!(st.selected_verse_indices.is_empty());
    assert_eq!(st.verses.len(), 1);
}

#[test]
fn toggling_in_an_unordered_selection() {
    let mut st = state(vec![]);
    st.selected_verse_indices = vec![3, 1];
    st.verse_toggled(2);
    assert_eq!(st.selected_verse_indices, vec![1, 2, 3]);
    st.selected_verse_indices = vec![3, 1, 3];
    st.verse_toggled(3);
    assert_eq!(st.selected_verse_indices, vec![1, 3]);
    st.search = "kept".to_string();
    st.verse_toggled(0);
    assert_eq!(st.selected_verse_indices, vec![0, 1, 3]);
    assert_eq!(st.search, "kept");
    assert_eq!(st.verses_per_slide, 2);
}
