use openpresenter::history::{EditHistory, UNDO_LIMIT};
use openpresenter::lists::{move_down, move_item, move_up, position_of, remove_at, swap_items};
use openpresenter::messages::{InspectorTab, RightDockTab, SidebarTab, ViewMode};
use openpresenter::navbar::{NavTool, NavbarState};
use openpresenter::numbers::{decimal_string, parse_u16, parse_u32, parse_u64, push_signed};

#[test]
fn history_records_undoes_and_redoes() {
    let mut h: EditHistory<u32> = EditHistory::new();
    let mut cur = Some(3);
    assert!(!h.undo(&mut cur));
    h.record(1);
    h.record(2);
    assert!(h.undo(&mut cur));
    assert_eq!(cur, Some(2));
    assert_eq!(h.redo_stack, vec![3]);
    assert!(h.undo(&mut cur));
    assert_eq!(cur, Some(1));
    assert!(h.redo(&mut cur));
    assert_eq!(cur, Some(2));
    assert_eq!(h.undo_stack, vec![1]);
    h.record(9);
    assert!(h.redo_stack.is_empty());
    let mut none: Option<u32> = None;
    assert!(h.undo(&mut none));
    assert_eq!(none, Some(9));
    assert!(h.redo_stack.is_empty());
}

#[test]
fn history_keeps_the_newest_fifty() {
    let mut h: EditHistory<usize> = EditHistory::new();
    for i in 0..75 {
        h.record(i);
    }
    assert_eq!(UNDO_LIMIT, 50);
    assert_eq!(h.undo_stack.len(), 50);
    assert_eq!(h.undo_stack[0], 25);
    assert_eq!(h.undo_stack[49], 74);
}

#[test]
fn list_moves() {
    let mut v = vec!['a', 'b', 'c', 'd'];
    swap_items(&mut v, 0, 3);
    assert_eq!(v, vec!['d', 'b', 'c', 'a']);
    assert!(move_up(&mut v, 2));
    assert_eq!(v, vec!['d', 'c', 'b', 'a']);
    assert!(!move_up(&mut v, 0));
    assert!(!move_up(&mut v, 4));
    assert!(move_down(&mut v, 0));
    assert_eq!(v, vec!['c', 'd', 'b', 'a']);
    assert!(!move_down(&mut v, 3));
    assert!(remove_at(&mut v, 1));
    assert!(!remove_at(&mut v, 3));
    assert_eq!(v, vec!['c', 'b', 'a']);
    move_item(&mut v, 0, 2);
    assert_eq!(v, vec!['b', 'a', 'c']);
}

#[test]
fn positions_of_ids() {
    let ids: Vec<String> = vec!["x".into(), "y".into(), "x".into()];
    assert_eq!(position_of(&ids, &"x".to_string()), Some(0));
    assert_eq!(position_of(&ids, &"y".to_string()), Some(1));
    assert_eq!(position_of(&ids, &"z".to_string()), None);
}

#[test]
fn modes_and_tabs() {
    assert_eq!(ViewMode::Edit.toggled(), ViewMode::Show);
    assert_eq!(ViewMode::Show.toggled().toggled(), ViewMode::Show);
    assert_eq!(ViewMode::Show.config_name(), "show");
    assert_eq!(ViewMode::Edit.config_name(), "edit");
    assert_eq!(SidebarTab::default(), SidebarTab::Presentations);
    assert_eq!(RightDockTab::default(), RightDockTab::ShowControls);
    assert_ne!(InspectorTab::Text, InspectorTab::Theme);
    let n = NavbarState {
        ndi_active: true,
        audience_active: false,
        stage_active: false,
        reduce_motion: false,
        recording_active: false,
        matrix_open: false,
        bible_active: false,
    };
    assert_eq!(n, n);
}

#[test]
fn decimal_numbers() {
    assert_eq!(decimal_string(0), "0");
    assert_eq!(decimal_string(1234567890), "1234567890");
    assert_eq!(decimal_string(u64::MAX), "18446744073709551615");
    let mut s = String::from("x=");
    push_signed(&mut s, -42);
    assert_eq!(s, "x=-42");
    let mut s = String::new();
    push_signed(&mut s, i64::MIN);
    assert_eq!(s, "-9223372036854775808");
    assert_eq!(parse_u16("65535"), Some(65535));
    assert_eq!(parse_u16("65536"), None);
    assert_eq!(parse_u32("+7"), Some(7));
    assert_eq!(parse_u32("+"), None);
    assert_eq!(parse_u32("-1"), None);
    assert_eq!(parse_u32("007"), Some(7));
    assert_eq!(parse_u64("18446744073709551615"), Some(u64::MAX));
    assert_eq!(parse_u64("18446744073709551616"), None);
    assert_eq!(parse_u64(""), None);
}

#[test]
fn navbar_labels_and_active_tools() {
    let mut n = NavbarState {
        ndi_active: false,
        audience_active: true,
        stage_active: false,
        reduce_motion: false,
        recording_active: true,
        matrix_open: false,
        bible_active: false,
    };
    assert_eq!(n.capture_label(), "REC");
    assert_eq!(n.ndi_label(), "NDI");
    n.recording_active = false;
    n.ndi_active = true;
    assert_eq!(n.capture_label(), "Capture");
    assert_eq!(n.ndi_label(), "NDI LIVE");
    assert!(n.is_active(NavTool::Text, ViewMode::Edit, InspectorTab::Text, false));
    assert!(!n.is_active(NavTool::Text, ViewMode::Show, InspectorTab::Text, false));
    assert!(!n.is_active(NavTool::Theme, ViewMode::Edit, InspectorTab::Text, false));
    assert!(n.is_active(NavTool::Show, ViewMode::Show, InspectorTab::Text, false));
    assert!(n.is_active(NavTool::Media, ViewMode::Show, InspectorTab::Text, true));
    assert!(n.is_active(NavTool::Audience, ViewMode::Show, InspectorTab::Text, false));
    assert!(!n.is_active(NavTool::Search, ViewMode::Edit, InspectorTab::Text, true));
    assert!(!n.is_active(NavTool::Settings, ViewMode::Edit, InspectorTab::Text, true));
}
