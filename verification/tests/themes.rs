use openpresenter::themes::{
    can_add_look, can_delete_look, can_make_live, cycle_theme, override_label_of, remove_theme,
    shown_look_of, toggle_selection, SlideTheme,
    ThemeState,
};

fn theme(id: &str, name: &str) -> SlideTheme {
    SlideTheme::new(id.to_string(), name.to_string())
}

#[test]
fn cycle_theme_behavior() {
    let mut t1 = theme("generated-1", "Theme 1");
    t1.id = "t1".into();
    let mut t2 = theme("generated-2", "Theme 2");
    t2.id = "t2".into();
    let themes = vec![t1, t2];

    // None -> first theme
    assert_eq!(cycle_theme(None, &themes), Some("t1".into()));
    // First theme -> second theme
    assert_eq!(cycle_theme(Some("t1"), &themes), Some("t2".into()));
    // Last theme -> None
    assert_eq!(cycle_theme(Some("t2"), &themes), None);
    // Unknown id -> first theme
    assert_eq!(cycle_theme(Some("unknown"), &themes), Some("t1".into()));
    // Empty themes -> None
    assert_eq!(cycle_theme(None, &[]), None);
}

#[test]
fn cycle_theme_duplicate_ids_use_first() {
    let themes = vec![theme("a", "A"), theme("b", "B"), theme("a", "A2"), theme("c", "C")];
    assert_eq!(cycle_theme(Some("a"), &themes), Some("b".into()));
}

#[test]
fn toggle_selection_picks_and_unpicks() {
    assert_eq!(toggle_selection(None, "x".into()), Some("x".to_string()));
    assert_eq!(toggle_selection(Some("x".into()), "x".into()), None);
    assert_eq!(toggle_selection(Some("x".into()), "y".into()), Some("y".to_string()));
}

#[test]
fn remove_theme_keeps_others_in_order() {
    let mut themes = vec![theme("a", "A"), theme("b", "B"), theme("a", "A2"), theme("c", "C")];
    remove_theme(&mut themes, &"a".to_string());
    let ids: Vec<&str> = themes.iter().map(|t| t.id.as_str()).collect();
    assert_eq!(ids, vec!["b", "c"]);
}

#[test]
fn override_labels_name_the_theme() {
    let themes = vec![theme("a", "Dark"), theme("b", "Light"), theme("a", "Other")];
    assert_eq!(override_label_of(Some("a"), &themes), "Dark");
    assert_eq!(override_label_of(Some("b"), &themes), "Light");
    assert_eq!(override_label_of(Some("zz"), &themes), "(Original Slide Style)");
    assert_eq!(override_label_of(None, &themes), "(Original Slide Style)");
}

#[test]
fn matrix_shows_picked_then_live_then_first_look() {
    let ids: Vec<String> = vec!["l1".into(), "l2".into(), "l3".into()];
    assert_eq!(shown_look_of(Some("l3"), Some("l2"), &ids), Some(2));
    assert_eq!(shown_look_of(None, Some("l2"), &ids), Some(1));
    assert_eq!(shown_look_of(None, None, &ids), Some(0));
    assert_eq!(shown_look_of(Some("gone"), Some("l2"), &ids), None);
    assert_eq!(shown_look_of(None, None, &vec![]), None);
}

#[test]
fn theme_panel() {
    let mut st = ThemeState::new();
    st.new_theme_name = "   ".to_string();
    assert_eq!(st.name_for_new_theme(), None);
    st.new_theme_name = " Night ".to_string();
    assert_eq!(st.name_for_new_theme().as_deref(), Some("Night"));
    st.theme_saved(theme("n", "Night"));
    st.theme_saved(theme("d", "Day"));
    assert_eq!(st.new_theme_name, "");
    assert!(!st.is_new_theme(&"n".to_string()));
    assert!(st.is_new_theme(&"x".to_string()));
    assert!(st.theme_applied("d".to_string()));
    assert_eq!(st.selected_id.as_deref(), Some("d"));
    assert!(!st.theme_applied("x".to_string()));
    assert_eq!(st.selected_id.as_deref(), Some("d"));
    st.select_theme("d".to_string());
    assert_eq!(st.selected_id, None);
    st.select_theme("n".to_string());
    st.theme_deleted(&"d".to_string());
    assert_eq!(st.selected_id.as_deref(), Some("n"));
    st.theme_deleted(&"n".to_string());
    assert_eq!(st.selected_id, None);
    assert!(st.list.is_empty());
}

#[test]
fn matrix_buttons() {
    assert!(can_add_look(" Stage "));
    assert!(!can_add_look("   "));
    assert!(!can_delete_look(1));
    assert!(can_delete_look(2));
    assert!(can_make_live("l1", None));
    assert!(can_make_live("l1", Some("l2")));
    assert!(!can_make_live("l1", Some("l1")));
}
