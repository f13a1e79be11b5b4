use openpresenter::domain::Transition;
use openpresenter::output::{
    can_remove_output, clamp_grid_cols, global_transition_selected, clamp_transition_duration, ndi_rate_message, cycle_content,
    output_id_of, port_from_text, port_set_message, fps_changed, transition_config_name_of,
    BlackScreenAction, OutputContentRoute, OutputState, TriggerListener, WindowMode,
};

fn state(label: &str, ndi: &str) -> OutputState {
    OutputState {
        new_label: label.to_string(),
        new_ndi_name: ndi.to_string(),
        settings_open: false,
        settings_status_message: None,
        show_settings: false,
        window_open: false,
        is_fullscreen: false,
        black_screen: false,
        screen_x: String::new(),
        screen_y: String::new(),
    }
}

#[test]
fn output_ids_from_labels() {
    assert_eq!(output_id_of("Main Screen"), "main_screen");
    assert_eq!(output_id_of("Stage  Left"), "stage__left");
    assert_eq!(output_id_of("ÉCRAN 2"), "écran_2");
    assert_eq!(output_id_of(""), "");
}

#[test]
fn window_output_from_label_field() {
    let mut st = state("  Lobby Screen ", "ignored");
    let o = st.add_window().unwrap();
    assert_eq!(o.label, "Lobby Screen");
    assert_eq!(o.id, "lobby_screen");
    assert_eq!(o.ndi_stream, None);
    assert_eq!(st.new_label, "");
    assert_eq!(st.new_ndi_name, "ignored");
}

#[test]
fn blank_label_adds_nothing() {
    let mut st = state("   ", "x");
    assert!(st.add_window().is_none());
    assert_eq!(st.new_label, "   ");
    assert!(st.add_ndi().is_none());
    assert_eq!(st.new_ndi_name, "x");
}

#[test]
fn ndi_output_streams_under_name_or_label() {
    let mut st = state("Stream A", "  ");
    let o = st.add_ndi().unwrap();
    assert_eq!(o.id, "stream_a_ndi");
    assert_eq!(o.ndi_stream.as_deref(), Some("Stream A"));
    assert_eq!(st.new_label, "");
    assert_eq!(st.new_ndi_name, "");

    let mut st = state("Stream B", " church-feed ");
    let o = st.add_ndi().unwrap();
    assert_eq!(o.label, "Stream B");
    assert_eq!(o.ndi_stream.as_deref(), Some("church-feed"));
}

#[test]
fn black_screen_and_fullscreen_toggle() {
    let mut st = state("", "");
    assert_eq!(st.toggle_black_screen(), BlackScreenAction::Black);
    assert!(st.black_screen);
    assert_eq!(st.toggle_black_screen(), BlackScreenAction::SendCurrent);
    assert!(!st.black_screen);

    assert_eq!(st.toggle_fullscreen(), None);
    st.window_open = true;
    assert_eq!(st.toggle_fullscreen(), Some(WindowMode::Fullscreen));
    assert_eq!(st.toggle_fullscreen(), Some(WindowMode::Windowed));
    st.toggle_fullscreen();
    st.toggle_black_screen();
    assert!(st.window_closed());
    assert!(!st.window_open && !st.is_fullscreen && !st.black_screen);
    assert!(!st.window_closed());
}

#[test]
fn settings_panel_opens_and_closes() {
    let mut st = state("", "");
    st.settings_status_message = Some("old".to_string());
    st.open_settings();
    assert!(st.settings_open);
    assert_eq!(st.settings_status_message, None);
    st.settings_status_message = Some("saved".to_string());
    st.close_settings();
    assert!(!st.settings_open);
    assert_eq!(st.settings_status_message, None);
}

#[test]
fn routes_cycle() {
    assert!(matches!(cycle_content(&OutputContentRoute::LiveSlide), OutputContentRoute::Stage));
    assert!(matches!(cycle_content(&OutputContentRoute::Stage), OutputContentRoute::Blank));
    assert!(matches!(cycle_content(&OutputContentRoute::Blank), OutputContentRoute::LiveSlide));
    let m = OutputContentRoute::Mirror { source: "main".to_string() };
    assert!(matches!(cycle_content(&m), OutputContentRoute::LiveSlide));
    let three = cycle_content(&cycle_content(&cycle_content(&OutputContentRoute::Stage)));
    assert!(matches!(three, OutputContentRoute::Stage));
}

#[test]
fn main_output_stays() {
    assert!(!can_remove_output("main"));
    assert!(can_remove_output("main2"));
    assert!(can_remove_output("lobby"));
}

#[test]
fn settings_limits() {
    assert_eq!(clamp_transition_duration(0), 50);
    assert_eq!(clamp_transition_duration(50), 50);
    assert_eq!(clamp_transition_duration(700), 700);
    assert_eq!(clamp_transition_duration(99_999), 5000);
    assert_eq!(clamp_grid_cols(0), 2);
    assert_eq!(clamp_grid_cols(4), 4);
    assert_eq!(clamp_grid_cols(9), 6);
}

#[test]
fn recording_fps_reads_and_clamps() {
    assert_eq!(fps_changed("30"), Some(30));
    assert_eq!(fps_changed("0"), Some(1));
    assert_eq!(fps_changed("240"), Some(120));
    assert_eq!(fps_changed("+60"), Some(60));
    assert_eq!(fps_changed(" 30"), None);
    assert_eq!(fps_changed("abc"), None);
    assert_eq!(fps_changed("99999999999"), None);
}

#[test]
fn ports_from_text() {
    assert_eq!(port_from_text(" 8080 "), Some(8080));
    assert_eq!(port_from_text("65535"), Some(65535));
    assert_eq!(port_from_text("65536"), None);
    assert_eq!(port_from_text(""), None);
    assert_eq!(port_from_text("80a"), None);
}

#[test]
fn transition_names_for_settings() {
    assert_eq!(transition_config_name_of(Transition::Cut), "cut");
    assert_eq!(transition_config_name_of(Transition::Fade { duration_ms: 300 }), "fade");
    assert_eq!(
        transition_config_name_of(Transition::Push { duration_ms: 300, direction: 0 }),
        "push_0"
    );
    assert_eq!(
        transition_config_name_of(Transition::Wipe { duration_ms: 300, angle_deg: 135 }),
        "wipe_135"
    );
    assert_eq!(transition_config_name_of(Transition::Clock { duration_ms: 1 }), "clock");
}

#[test]
fn ndi_rate_status() {
    assert_eq!(ndi_rate_message(30), "NDI frame rate set to 30 FPS");
    assert_eq!(ndi_rate_message(0), "NDI frame rate set to 0 FPS");
}

#[test]
fn opening_the_output_window() {
    let mut st = state("", "");
    assert_eq!(st.open_window(false), Some(WindowMode::Windowed));
    assert!(st.window_open && !st.is_fullscreen);
    assert_eq!(st.open_window(true), None);
    assert!(!st.is_fullscreen);
    st.window_closed();
    assert_eq!(st.open_window(true), Some(WindowMode::Fullscreen));
    assert!(st.is_fullscreen);
}

#[test]
fn port_status_messages() {
    assert_eq!(port_set_message(TriggerListener::Http, 8080), "HTTP trigger port set to 8080");
    assert_eq!(port_set_message(TriggerListener::Osc, 9000), "OSC listener port set to 9000");
}

#[test]
fn blank_label_leaves_the_state() {
    let mut st = state("  ", "n");
    st.settings_status_message = Some("m".to_string());
    st.window_open = true;
    assert!(st.add_window().is_none());
    assert!(st.add_ndi().is_none());
    assert_eq!(st.settings_status_message.as_deref(), Some("m"));
    assert!(st.window_open);
    assert_eq!(st.new_ndi_name, "n");
}

#[test]
fn default_transition_buttons() {
    let push_left = Transition::Push { duration_ms: 100, direction: 0 };
    assert!(global_transition_selected(Transition::Push { duration_ms: 700, direction: 0 }, push_left));
    assert!(!global_transition_selected(Transition::Push { duration_ms: 100, direction: 1 }, push_left));
    assert!(global_transition_selected(Transition::Wipe { duration_ms: 1, angle_deg: 180 }, Transition::Wipe { duration_ms: 9, angle_deg: 180 }));
    assert!(!global_transition_selected(Transition::Wipe { duration_ms: 1, angle_deg: 0 }, Transition::Wipe { duration_ms: 1, angle_deg: 180 }));
    assert!(global_transition_selected(Transition::Fade { duration_ms: 1 }, Transition::Fade { duration_ms: 2 }));
    assert!(!global_transition_selected(Transition::Dissolve { duration_ms: 1 }, Transition::Dissolve { duration_ms: 1 }));
    assert!(!global_transition_selected(Transition::Cut, Transition::Zoom { duration_ms: 1 }));
}
