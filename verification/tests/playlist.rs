use openpresenter::playlist::{lookup_name, Entry, ItemAction, Playlist, PlaylistItem, ServiceState};

fn entry(id: &str, name: &str) -> Entry {
    Entry { id: id.to_string(), name: name.to_string() }
}

fn kinds(st: &ServiceState) -> Vec<String> {
    st.editing
        .as_ref()
        .unwrap()
        .items
        .iter()
        .map(|i| match i {
            PlaylistItem::Presentation { id, name } => format!("P:{id}:{name}"),
            PlaylistItem::Song { id, title } => format!("S:{id}:{title}"),
            PlaylistItem::Header { text } => format!("H:{text}"),
            PlaylistItem::Blank => "B".to_string(),
        })
        .collect()
}

fn plan_state() -> ServiceState {
    let mut st = ServiceState::new();
    st.new_plan("plan-1".to_string());
    let pres = vec![entry("p1", "Welcome")];
    let songs = vec![entry("s1", "Amazing Grace")];
    st.add_presentation_item("p1".to_string(), &pres);
    st.push_item(PlaylistItem::Header { text: "Worship".to_string() });
    st.add_song_item("s1".to_string(), &songs);
    st.push_item(PlaylistItem::Blank);
    st
}

#[test]
fn new_plans_are_named() {
    let mut st = ServiceState::new();
    st.new_plan("id-7".to_string());
    let p = st.editing.as_ref().unwrap();
    assert_eq!(p.id, "id-7");
    assert_eq!(p.name, "New Service Plan");
    assert_eq!(st.name_edit, "New Service Plan");
    st.name_edit = "Easter".to_string();
    assert!(st.apply_name());
    assert_eq!(st.editing.as_ref().unwrap().name, "Easter");
}

#[test]
fn items_take_listed_names() {
    let st = plan_state();
    assert_eq!(kinds(&st), vec!["P:p1:Welcome", "H:Worship", "S:s1:Amazing Grace", "B"]);
    let mut st = ServiceState::new();
    st.new_plan("x".to_string());
    st.add_song_item("unknown".to_string(), &vec![]);
    assert_eq!(kinds(&st), vec!["S:unknown:"]);
    assert_eq!(lookup_name(&vec![entry("a", "A"), entry("a", "B")], &"a".to_string()), "A");
}

#[test]
fn editing_items() {
    let mut st = plan_state();
    st.item_header_changed(1, "Praise".to_string());
    st.item_header_changed(0, "ignored".to_string());
    assert_eq!(kinds(&st)[1], "H:Praise");
    assert_eq!(kinds(&st)[0], "P:p1:Welcome");
    st.move_item_up(2);
    assert_eq!(kinds(&st), vec!["P:p1:Welcome", "S:s1:Amazing Grace", "H:Praise", "B"]);
    st.move_item_down(0);
    assert_eq!(kinds(&st), vec!["S:s1:Amazing Grace", "P:p1:Welcome", "H:Praise", "B"]);
    st.move_item_down(3);
    st.move_item_up(0);
    assert_eq!(kinds(&st).len(), 4);
    st.duplicate_item(1);
    assert_eq!(kinds(&st), vec!["S:s1:Amazing Grace", "P:p1:Welcome", "P:p1:Welcome", "H:Praise", "B"]);
    st.remove_item(2);
    st.remove_item(9);
    assert_eq!(kinds(&st), vec!["S:s1:Amazing Grace", "P:p1:Welcome", "H:Praise", "B"]);
}

#[test]
fn running_a_service() {
    let mut st = plan_state();
    match st.start_service() {
        Some(ItemAction::ShowPresentation(id)) => assert_eq!(id, "p1"),
        other => panic!("unexpected {:?}", other),
    }
    assert!(matches!(st.service_next(), ItemAction::Nothing));
    assert!(matches!(st.service_next(), ItemAction::OpenSong(ref id) if id == "s1"));
    assert!(matches!(st.service_next(), ItemAction::BlackScreen));
    assert_eq!(st.item_index, 3);
    // The last entry stays current.
    assert!(matches!(st.service_next(), ItemAction::BlackScreen));
    assert_eq!(st.item_index, 3);
    assert!(matches!(st.service_prev(), ItemAction::OpenSong(_)));
    assert!(matches!(st.jump_to_item(0), ItemAction::ShowPresentation(_)));
    assert!(matches!(st.service_prev(), ItemAction::ShowPresentation(_)));
    assert_eq!(st.item_index, 0);
    assert!(matches!(st.jump_to_item(40), ItemAction::BlackScreen));
    assert_eq!(st.item_index, 3);
    st.end_service();
    assert!(st.active.is_none());
    assert_eq!(st.item_index, 0);
    assert!(matches!(st.service_next(), ItemAction::Nothing));
}

#[test]
fn no_plan_no_service() {
    let mut st = ServiceState::new();
    assert!(st.start_service().is_none());
    assert!(!st.apply_name());
    st.push_item(PlaylistItem::Blank);
    assert!(st.editing.is_none());
}

#[test]
fn deleting_the_open_and_running_plan() {
    let mut st = plan_state();
    st.start_service();
    st.plan_deleted(&"other".to_string());
    assert!(st.editing.is_some());
    assert!(st.active.is_some());
    st.plan_deleted(&"plan-1".to_string());
    assert!(st.editing.is_none());
    assert!(st.active.is_none());
    assert_eq!(st.name_edit, "");

    let mut st = ServiceState::new();
    st.open_plan(Playlist { id: "q".to_string(), name: "Q".to_string(), items: vec![] });
    assert_eq!(st.name_edit, "Q");
}

#[test]
fn item_edits_leave_the_rest_alone() {
    let mut st = plan_state();
    st.name_edit = "typed".to_string();
    st.to_delete = Some("other".to_string());
    st.item_index = 2;
    st.move_item_up(1);
    st.move_item_down(0);
    st.duplicate_item(99);
    assert_eq!(kinds(&st), vec!["P:p1:Welcome", "H:Worship", "S:s1:Amazing Grace", "B"]);
    assert_eq!(st.name_edit, "typed");
    assert_eq!(st.to_delete.as_deref(), Some("other"));
    assert_eq!(st.item_index, 2);
    assert_eq!(st.editing.as_ref().unwrap().name, "New Service Plan");
}

#[test]
fn plan_editor_live_label() {
    let mut st = plan_state();
    assert_eq!(st.live_label(), None);
    assert!(!st.is_current_item(0));
    st.start_service();
    st.service_next();
    assert_eq!(st.live_label().as_deref(), Some("LIVE  2/4"));
    assert!(st.is_current_item(1));
    assert!(!st.is_current_item(0));
    st.open_plan(Playlist { id: "other".to_string(), name: "O".to_string(), items: vec![] });
    assert_eq!(st.live_label(), None);
    assert!(!st.is_current_item(1));
}
