use openpresenter::domain::{Presentation, Slide, SlideContent, Transition};
use openpresenter::editor::{
    order_after_duplicate, order_after_insert, selection_after_delete_of,
    selection_after_insert_of, content_button_active, transition_button, ContentKind, Editor,
    SlideProgram, TransitionKind,
};
use openpresenter::library::{Asset, MediaType};

fn text_slide(id: &str, text: &str) -> Slide {
    Slide {
        id: id.to_string(),
        group: None,
        notes: None,
        transition: Transition::Fade { duration_ms: 300 },
        content: SlideContent::Text { text: text.to_string() },
        layers: Vec::new(),
    }
}

fn pres(ids: &[&str]) -> Presentation {
    Presentation {
        id: "p1".to_string(),
        name: "Sunday".to_string(),
        slides: ids.iter().map(|i| text_slide(i, &format!("text {i}"))).collect(),
    }
}

fn slide_ids(e: &Editor) -> Vec<String> {
    e.editing.as_ref().unwrap().slides.iter().map(|s| s.id.clone()).collect()
}

fn strings(v: &[&str]) -> Vec<String> {
    v.iter().map(|s| s.to_string()).collect()
}

fn open(ids: &[&str]) -> Editor {
    let mut e = Editor::new();
    e.open(pres(ids));
    e
}

#[test]
fn new_editor_defaults() {
    let e = Editor::new();
    assert!(e.editing.is_none());
    assert_eq!(e.editing_slide_font_size, "72");
    assert_eq!(e.editing_transition_duration, "500");
    assert_eq!(e.current_index(), None);
}

#[test]
fn opening_selects_first_slide_and_fills_fields() {
    let e = open(&["a", "b"]);
    assert_eq!(e.selected_slide_index, Some(0));
    assert_eq!(e.editing_name, "Sunday");
    assert_eq!(e.editing_slide_text, "text a");
    assert_eq!(e.editing_transition_duration, "300");
    let mut e = Editor::new();
    e.open(pres(&[]));
    assert_eq!(e.selected_slide_index, None);
    assert_eq!(e.editing_slide_text, "");
    assert_eq!(e.editing_transition_duration, "500");
}

#[test]
fn selecting_fills_group_and_notes() {
    let mut p = pres(&["a", "b"]);
    p.slides[1].group = Some("Chorus".to_string());
    p.slides[1].notes = Some("breathe".to_string());
    p.slides[1].transition = Transition::Cut;
    let mut e = Editor::new();
    e.open(p);
    e.select_slide(1);
    assert_eq!(e.editing_group_label, "Chorus");
    assert_eq!(e.editing_slide_notes, "breathe");
    assert_eq!(e.editing_transition_duration, "500");
    e.select_slide(9);
    assert_eq!(e.current_index(), None);
    assert_eq!(e.editing_slide_text, "");
}

#[test]
fn moving_slides_up_and_down() {
    let mut e = open(&["a", "b", "c"]);
    e.move_slide_up(2, true);
    assert_eq!(slide_ids(&e), strings(&["a", "c", "b"]));
    assert_eq!(e.selected_slide_index, Some(1));
    assert_eq!(e.history.undo_stack.len(), 1);
    e.move_slide_down(0, false);
    assert_eq!(slide_ids(&e), strings(&["c", "a", "b"]));
    assert_eq!(e.selected_slide_index, Some(1));
    // The last slide does not move down; the first does not move up.
    e.move_slide_down(2, true);
    assert_eq!(slide_ids(&e), strings(&["c", "a", "b"]));
    e.move_slide_up(0, true);
    assert_eq!(slide_ids(&e), strings(&["c", "a", "b"]));
    assert_eq!(e.history.undo_stack.len(), 4);
}

#[test]
fn move_orders_for_storage() {
    let e = open(&["a", "b", "c"]);
    assert_eq!(e.order_after_move_up(1), Some(strings(&["b", "a", "c"])));
    assert_eq!(e.order_after_move_up(0), None);
    assert_eq!(e.order_after_move_up(3), None);
    assert_eq!(e.order_after_move_down(1), Some(strings(&["a", "c", "b"])));
    assert_eq!(e.order_after_move_down(2), None);
}

#[test]
fn undo_and_redo_restore_snapshots() {
    let mut e = open(&["a", "b"]);
    assert!(!e.undo());
    e.move_slide_up(1, true);
    assert_eq!(slide_ids(&e), strings(&["b", "a"]));
    assert!(e.undo());
    assert_eq!(slide_ids(&e), strings(&["a", "b"]));
    assert_eq!(e.history.redo_stack.len(), 1);
    assert!(e.redo());
    assert_eq!(slide_ids(&e), strings(&["b", "a"]));
    assert!(!e.redo());
    // A new edit clears the redo stack.
    assert!(e.undo());
    e.push_undo();
    assert!(e.history.redo_stack.is_empty());
}

#[test]
fn undo_stack_is_capped() {
    let mut e = open(&["a"]);
    for _ in 0..60 {
        e.push_undo();
    }
    assert_eq!(e.history.undo_stack.len(), 50);
}

#[test]
fn selection_after_reload() {
    assert_eq!(selection_after_delete_of(Some(3), 3), Some(2));
    assert_eq!(selection_after_delete_of(Some(1), 3), Some(1));
    assert_eq!(selection_after_delete_of(Some(0), 0), None);
    assert_eq!(selection_after_delete_of(None, 4), None);
    assert_eq!(selection_after_insert_of(0, 3), 1);
    assert_eq!(selection_after_insert_of(2, 3), 2);
    assert_eq!(selection_after_insert_of(usize::MAX, 3), 2);

    let mut e = open(&["a", "b", "c"]);
    e.select_slide(2);
    e.slides_reloaded_after_delete(pres(&["a", "b"]));
    assert_eq!(e.selected_slide_index, Some(1));
    assert_eq!(e.editing_slide_text, "text b");
    e.slides_reloaded_after_append(pres(&["a", "b", "x"]));
    assert_eq!(e.selected_slide_index, Some(2));
    e.slides_reloaded_after_insert(0, pres(&["a", "y", "b", "x"]));
    assert_eq!(e.selected_slide_index, Some(1));
    assert_eq!(e.editing_slide_text, "text y");
}

#[test]
fn new_slides_are_put_behind_the_anchor() {
    let ids = strings(&["a", "b", "c", "n"]);
    assert_eq!(order_after_insert(&ids, &"n".to_string(), 0), Some(strings(&["a", "n", "b", "c"])));
    assert_eq!(order_after_insert(&ids, &"n".to_string(), 2), None);
    assert_eq!(order_after_insert(&ids, &"x".to_string(), 0), None);
    let ids = strings(&["n", "a", "b"]);
    assert_eq!(order_after_insert(&ids, &"n".to_string(), 7), Some(strings(&["a", "b", "n"])));

    let ids = strings(&["a", "b", "c", "d"]);
    assert_eq!(order_after_duplicate(&ids, &"d".to_string(), 0), Some(strings(&["a", "d", "b", "c"])));
    assert_eq!(order_after_duplicate(&ids, &"b".to_string(), 0), None);
    assert_eq!(order_after_duplicate(&ids, &"d".to_string(), 5), None);
    assert_eq!(order_after_duplicate(&ids, &"a".to_string(), 5), Some(strings(&["b", "c", "d", "a"])));
}

#[test]
fn duplicating_copies_under_a_new_id() {
    let mut e = open(&["a", "b"]);
    let d = e.duplicate_slide(1).unwrap();
    assert_ne!(d.id, "b");
    assert_eq!(d.id.len(), 36);
    assert!(matches!(d.content, SlideContent::Text { ref text } if text == "text b"));
    assert_eq!(e.history.undo_stack.len(), 1);
    assert!(e.duplicate_slide(2).is_none());
}

#[test]
fn slide_fields_write_through() {
    let mut e = open(&["a", "b"]);
    assert!(e.set_slide_group_label(1, "Verse 1".to_string()));
    assert_eq!(e.editing.as_ref().unwrap().slides[1].group.as_deref(), Some("Verse 1"));
    assert!(e.set_slide_group_label(1, "   ".to_string()));
    assert_eq!(e.editing.as_ref().unwrap().slides[1].group, None);
    assert!(!e.set_slide_group_label(5, "x".to_string()));

    assert!(e.slide_notes_changed("hold".to_string()));
    assert_eq!(e.editing.as_ref().unwrap().slides[0].notes.as_deref(), Some("hold"));
    assert_eq!(e.editing_slide_notes, "hold");
    assert!(e.slide_notes_changed(" ".to_string()));
    assert_eq!(e.editing.as_ref().unwrap().slides[0].notes, None);

    assert!(e.slide_transition_changed(Transition::Cut));
    assert_eq!(e.editing_transition_duration, "500");
    assert!(e.slide_transition_changed(Transition::Zoom { duration_ms: 250 }));
    assert_eq!(e.editing_transition_duration, "250");
    e.transition_duration_changed("800".to_string());
    assert_eq!(e.editing.as_ref().unwrap().slides[0].transition, Transition::Zoom { duration_ms: 800 });
    e.transition_duration_changed("fast".to_string());
    assert_eq!(e.editing_transition_duration, "fast");
    assert_eq!(e.editing.as_ref().unwrap().slides[0].transition, Transition::Zoom { duration_ms: 800 });
}

#[test]
fn text_is_saved_to_text_slides_only() {
    let mut e = open(&["a", "b"]);
    e.editing_slide_text = "new words".to_string();
    assert!(e.save_slide_text());
    assert!(matches!(&e.editing.as_ref().unwrap().slides[0].content, SlideContent::Text { text } if text == "new words"));
    assert!(e.convert_slide(ContentKind::Image));
    assert!(!e.convert_slide(ContentKind::Image));
    assert!(e.save_slide_text());
    assert!(matches!(&e.editing.as_ref().unwrap().slides[0].content, SlideContent::Image { path } if path.is_empty()));
    let asset = Asset { id: "v1".to_string(), name: "clip".to_string(), path: "/m/clip.mp4".to_string(), media_type: MediaType::Video };
    assert!(e.apply_asset(&asset));
    assert!(matches!(&e.editing.as_ref().unwrap().slides[0].content, SlideContent::Video { path } if path == "/m/clip.mp4"));
    assert!(e.convert_slide(ContentKind::Text));
    assert!(matches!(&e.editing.as_ref().unwrap().slides[0].content, SlideContent::Text { text } if text.is_empty()));
}

#[test]
fn renaming_and_new_presentation_names() {
    let mut e = Editor::new();
    assert!(!e.can_rename());
    e.open(pres(&["a"]));
    e.editing_name = "  ".to_string();
    assert!(!e.can_rename());
    e.editing_name = "Evening".to_string();
    assert!(e.can_rename());
    e.renamed();
    assert_eq!(e.editing.as_ref().unwrap().name, "Evening");

    e.new_presentation_name = "   ".to_string();
    assert_eq!(e.take_new_presentation_name(), None);
    assert_eq!(e.new_presentation_name, "   ");
    e.new_presentation_name = " Easter ".to_string();
    assert_eq!(e.take_new_presentation_name().as_deref(), Some(" Easter "));
    assert_eq!(e.new_presentation_name, "");
}

#[test]
fn canvas_draws_a_copy_of_the_slide() {
    let s = text_slide("a", "hello");
    let p = SlideProgram::new(Some(&s));
    let c = p.slide.unwrap();
    assert_eq!(c.id, "a");
    assert!(matches!(c.content, SlideContent::Text { ref text } if text == "hello"));
    assert!(SlideProgram::new(None).slide.is_none());
}

#[test]
fn new_blank_slides() {
    let mut e = Editor::new();
    assert!(e.new_slide().is_none());
    let mut p = pres(&["a", "b"]);
    p.slides[0].group = Some("Verse 1".to_string());
    e.open(p);
    let s = e.new_slide().unwrap();
    assert_eq!(s.id.len(), 36);
    assert_eq!(s.group, None);
    assert_eq!(s.transition, Transition::Cut);
    assert!(matches!(s.content, SlideContent::Text { ref text } if text.is_empty()));
    let t = e.new_slide_after(0).unwrap();
    assert_eq!(t.group.as_deref(), Some("Verse 1"));
    assert_ne!(t.id, s.id);
    assert_eq!(e.new_slide_after(9).unwrap().group, None);
    assert_eq!(e.history.undo_stack.len(), 3);
}

#[test]
fn inspector_buttons() {
    let t = Transition::Zoom { duration_ms: 250 };
    assert_eq!(transition_button(t, TransitionKind::Zoom), (Transition::Zoom { duration_ms: 250 }, true));
    assert_eq!(
        transition_button(t, TransitionKind::Push),
        (Transition::Push { duration_ms: 250, direction: 1 }, false)
    );
    assert_eq!(
        transition_button(Transition::Cut, TransitionKind::Wipe),
        (Transition::Wipe { duration_ms: 500, angle_deg: 0 }, false)
    );
    assert_eq!(transition_button(Transition::Cut, TransitionKind::Cut), (Transition::Cut, true));
    let c = SlideContent::Image { path: "x".to_string() };
    assert!(content_button_active(&c, ContentKind::Image));
    assert!(!content_button_active(&c, ContentKind::Text));
}
