use openpresenter::domain::{Presentation, Slide, SlideContent, Transition};
use openpresenter::messages::{InspectorTab, RightDockTab, SidebarTab, ViewMode};
use openpresenter::session::{Presenting, Session, VideoAction};

fn slide(id: &str, content: SlideContent, transition: Transition) -> Slide {
    Slide { id: id.to_string(), group: None, notes: None, transition, content, layers: Vec::new() }
}

fn text(t: &str) -> SlideContent {
    SlideContent::Text { text: t.to_string() }
}

fn show() -> Presentation {
    Presentation {
        id: "p".to_string(),
        name: "Show".to_string(),
        slides: vec![
            slide("a", text("one"), Transition::Cut),
            slide("b", SlideContent::Video { path: "/v/intro.mp4".to_string() }, Transition::Fade { duration_ms: 400 }),
            slide("c", text("three"), Transition::Push { duration_ms: 300, direction: 1 }),
        ],
    }
}

fn on_air() -> Session {
    let mut s = Session::new();
    s.switch_mode(ViewMode::Show);
    s.open_presentation(show());
    s
}

#[test]
fn fresh_session() {
    let s = Session::new();
    assert_eq!(s.mode, ViewMode::Edit);
    assert_eq!(s.sidebar_tab, SidebarTab::Presentations);
    assert_eq!(s.inspector_tab, InspectorTab::Text);
    assert_eq!(s.right_dock_tab, RightDockTab::ShowControls);
    assert!(!s.reduce_motion);
    assert!(s.presenting.presentation.is_none());
}

#[test]
fn next_and_prev_walk_the_slides() {
    let mut s = on_air();
    assert_eq!(s.presenting.slide_index, 0);
    match s.next_slide() {
        Some(VideoAction::Play(p)) => assert_eq!(p, "/v/intro.mp4"),
        other => panic!("unexpected {:?}", other),
    }
    assert_eq!(s.presenting.slide_index, 1);
    assert!(s.presenting.transition.is_some());
    assert!(matches!(s.next_slide(), Some(VideoAction::Stop)));
    assert_eq!(s.presenting.slide_index, 2);
    // On the last slide nothing happens.
    assert!(s.next_slide().is_none());
    assert_eq!(s.presenting.slide_index, 2);
    assert!(s.prev_slide().is_some());
    assert!(s.prev_slide().is_some());
    assert_eq!(s.presenting.slide_index, 0);
    // Going to a cut slide starts no transition.
    assert!(s.presenting.transition.is_none());
    assert!(s.prev_slide().is_none());
}

#[test]
fn selecting_a_slide() {
    let mut s = on_air();
    assert!(s.select_slide(0).is_none());
    assert!(s.select_slide(7).is_none());
    assert!(matches!(s.select_slide(2), Some(VideoAction::Stop)));
    assert_eq!(s.presenting.slide_index, 2);
    let t = s.presenting.transition.as_ref().unwrap();
    assert_eq!(t.from_slide.id, "a");
}

#[test]
fn reduced_motion_skips_transitions() {
    let mut s = on_air();
    s.toggle_reduce_motion();
    assert!(s.reduce_motion);
    s.next_slide();
    assert!(s.presenting.transition.is_none());
    s.toggle_reduce_motion();
    s.next_slide();
    assert!(s.presenting.transition.is_some());
    s.toggle_reduce_motion();
    assert!(s.presenting.transition.is_none());
}

#[test]
fn nothing_on_air() {
    let mut s = Session::new();
    assert!(s.next_slide().is_none());
    assert!(s.prev_slide().is_none());
    assert!(s.select_slide(1).is_none());
    let p = Presenting::new();
    assert!(matches!(p.video_for(0), VideoAction::Stop));
}

#[test]
fn switching_modes_moves_the_presentation() {
    let mut s = Session::new();
    s.open_presentation(show());
    assert!(s.editor.editing.is_some());
    assert!(matches!(s.switch_mode(ViewMode::Show), VideoAction::Stop));
    assert!(s.editor.editing.is_none());
    assert_eq!(s.presenting.presentation.as_ref().unwrap().id, "p");
    s.next_slide();
    assert!(matches!(s.switch_mode(ViewMode::Edit), VideoAction::Keep));
    assert_eq!(s.editor.selected_slide_index, Some(1));
    assert_eq!(s.editor.editing.as_ref().unwrap().id, "p");
    assert!(matches!(s.switch_mode(ViewMode::Edit), VideoAction::Keep));
}

#[test]
fn back_to_list_clears_everything() {
    let mut s = on_air();
    s.next_slide();
    assert!(matches!(s.back_to_list(), VideoAction::Stop));
    assert!(s.presenting.presentation.is_none());
    assert_eq!(s.presenting.slide_index, 0);
    assert!(s.editor.editing.is_none());
    assert_eq!(s.editor.editing_slide_font_size, "72");
}

#[test]
fn created_presentations_open_for_editing() {
    let mut s = on_air();
    s.sidebar_tab = SidebarTab::Songs;
    s.edit_created(show());
    assert_eq!(s.mode, ViewMode::Edit);
    assert_eq!(s.sidebar_tab, SidebarTab::Presentations);
    assert_eq!(s.editor.selected_slide_index, Some(0));
    assert_eq!(s.editor.editing_slide_text, "one");
}

#[test]
fn inspector_theme_tab_loads_themes_once() {
    let mut s = Session::new();
    assert!(s.switch_inspector_tab(InspectorTab::Theme, false));
    assert!(!s.switch_inspector_tab(InspectorTab::Theme, true));
    assert!(!s.switch_inspector_tab(InspectorTab::Text, false));
    assert_eq!(s.inspector_tab, InspectorTab::Text);
}

#[test]
fn context_menu() {
    let mut p = Presenting::new();
    p.group_submenu = true;
    p.show_context_menu(3);
    assert_eq!(p.slide_context_index, Some(3));
    assert!(!p.group_submenu);
    p.hide_context_menu();
    assert_eq!(p.slide_context_index, None);
}

#[test]
fn live_slide_and_stage_display() {
    let mut s = on_air();
    assert_eq!(s.presenting.live_slide().unwrap().id, "a");
    s.next_slide();
    assert_eq!(s.presenting.live_slide().unwrap().id, "b");
    s.presenting.slide_index = 9;
    assert!(s.presenting.live_slide().is_none());
    assert!(Presenting::new().live_slide().is_none());

    let mut s = Session::new();
    s.toggle_stage_display();
    assert!(!s.stage_display_active);
    s.switch_mode(ViewMode::Show);
    s.toggle_stage_display();
    assert!(s.stage_display_active);
    s.toggle_stage_display();
    assert!(!s.stage_display_active);
}

#[test]
fn sidebar_library_tab_loads_once() {
    let mut s = Session::new();
    assert!(s.switch_sidebar_tab(SidebarTab::Library, true));
    assert_eq!(s.sidebar_tab, SidebarTab::Library);
    assert!(!s.switch_sidebar_tab(SidebarTab::Library, false));
    assert!(!s.switch_sidebar_tab(SidebarTab::Songs, true));
}

#[test]
fn stepping_starts_the_target_transition() {
    let mut s = on_air();
    s.next_slide();
    let t = s.presenting.transition.as_ref().unwrap();
    assert_eq!(t.from_slide.id, "a");
    assert_eq!(t.transition, Transition::Fade { duration_ms: 400 });
    s.prev_slide();
    assert!(s.presenting.transition.is_none());
}

#[test]
fn focusing_search_shows_presentations_only() {
    let mut s = on_air();
    s.sidebar_tab = SidebarTab::Songs;
    s.search_query = "grace".to_string();
    s.inspector_tab = InspectorTab::Theme;
    s.focus_search();
    assert_eq!(s.sidebar_tab, SidebarTab::Presentations);
    assert_eq!(s.search_query, "grace");
    assert_eq!(s.inspector_tab, InspectorTab::Theme);
    assert_eq!(s.presenting.slide_index, 0);
    s.switch_sidebar_tab(SidebarTab::Bible, false);
    assert_eq!(s.search_query, "grace");
    s.switch_inspector_tab(InspectorTab::Text, true);
    assert_eq!(s.sidebar_tab, SidebarTab::Bible);
}
