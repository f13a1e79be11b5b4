use openpresenter::messages::ViewMode;
use openpresenter::shortcuts::{
    global_shortcut, presenter_keys_active, presenter_shortcut, Key, Modifiers, NamedKey, Shortcut,
};

fn ch(s: &str) -> Key {
    Key::Character(s.to_string())
}

const NONE: Modifiers = Modifiers { command: false, shift: false };
const CMD: Modifiers = Modifiers { command: true, shift: false };
const CMD_SHIFT: Modifiers = Modifiers { command: true, shift: true };

#[test]
fn presenter_keys() {
    assert_eq!(presenter_shortcut(&Key::Named(NamedKey::ArrowRight)), Some(Shortcut::NextSlide));
    assert_eq!(presenter_shortcut(&Key::Named(NamedKey::Space)), Some(Shortcut::NextSlide));
    assert_eq!(presenter_shortcut(&Key::Named(NamedKey::ArrowLeft)), Some(Shortcut::PrevSlide));
    assert_eq!(presenter_shortcut(&Key::Named(NamedKey::Escape)), Some(Shortcut::BackToList));
    assert_eq!(presenter_shortcut(&ch("n")), None);
}

#[test]
fn presenter_keys_only_on_air_in_show_mode() {
    assert!(presenter_keys_active(ViewMode::Show, true));
    assert!(!presenter_keys_active(ViewMode::Show, false));
    assert!(!presenter_keys_active(ViewMode::Edit, true));
}

#[test]
fn global_keys() {
    assert_eq!(global_shortcut(&ch("?"), NONE), Some(Shortcut::ToggleShortcuts));
    assert_eq!(global_shortcut(&ch("?"), CMD_SHIFT), Some(Shortcut::ToggleShortcuts));
    assert_eq!(global_shortcut(&ch("z"), CMD), Some(Shortcut::Undo));
    assert_eq!(global_shortcut(&ch("z"), CMD_SHIFT), Some(Shortcut::Redo));
    assert_eq!(global_shortcut(&ch("y"), CMD), Some(Shortcut::Redo));
    assert_eq!(global_shortcut(&ch("z"), NONE), None);
    assert_eq!(global_shortcut(&ch("y"), NONE), None);
    assert_eq!(global_shortcut(&Key::Named(NamedKey::Escape), CMD), None);
}
