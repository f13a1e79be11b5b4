//! Keyboard shortcuts: which key press means what.
use vstd::prelude::*;
use crate::colors::same_text;
use crate::messages::ViewMode;

verus! {

/// The named keys the shortcuts use.
#[derive(Clone, Copy, Debug, PartialEq, Eq, Structural)]
pub enum NamedKey {
    ArrowRight,
    ArrowLeft,
    Space,
    Escape,
    Other,
}

/// A pressed key: a named key or the text of a character key.
#[derive(Debug)]
pub enum Key {
    Named(NamedKey),
    Character(String),
}

/// The modifier keys held down.
#[derive(Clone, Copy, Debug, PartialEq, Eq, Structural)]
pub struct Modifiers {
    /// Cmd on macOS, Ctrl elsewhere.
    pub command: bool,
    pub shift: bool,
}

/// What a shortcut asks for.
#[derive(Clone, Copy, Debug, PartialEq, Eq, Structural)]
pub enum Shortcut {
    NextSlide,
    PrevSlide,
    BackToList,
    ToggleShortcuts,
    Undo,
    Redo,
}

/// The presenter keys: right arrow or space for the next slide, left arrow
/// for the previous one, escape back to the list.
pub open spec fn presenter_shortcut_spec(k: Key) -> Option<Shortcut> {
    match k {
        Key::Named(NamedKey::ArrowRight) => Some(Shortcut::NextSlide),
        Key::Named(NamedKey::Space) => Some(Shortcut::NextSlide),
        Key::Named(NamedKey::ArrowLeft) => Some(Shortcut::PrevSlide),
        Key::Named(NamedKey::Escape) => Some(Shortcut::BackToList),
        _ => None,
    }
}

/// The keys that work everywhere: `?` for the shortcut list, command-z to
/// undo, command-shift-z or command-y to redo.
pub open spec fn global_shortcut_spec(k: Key, m: Modifiers) -> Option<Shortcut> {
    match k {
        Key::Character(c) => if c@ == "?"@ {
            Some(Shortcut::ToggleShortcuts)
        } else if c@ == "z"@ && m.command && m.shift {
            Some(Shortcut::Redo)
        } else if c@ == "z"@ && m.command {
            Some(Shortcut::Undo)
        } else if c@ == "y"@ && m.command {
            Some(Shortcut::Redo)
        } else {
            None
        },
        _ => None,
    }
}

/// Whether the presenter keys are listened to: in show mode with something
/// on air.
pub fn presenter_keys_active(mode: ViewMode, on_air: bool) -> (b: bool)
    ensures
        b == (mode == ViewMode::Show && on_air),
{
    match mode {
        ViewMode::Show => on_air,
        ViewMode::Edit => false,
    }
}

/// The presenter shortcut of key `k`; see [`presenter_shortcut_spec`].
pub fn presenter_shortcut(k: &Key) -> (r: Option<Shortcut>)
    ensures
        r == presenter_shortcut_spec(*k),
{
    match k {
        Key::Named(NamedKey::ArrowRight) => Some(Shortcut::NextSlide),
        Key::Named(NamedKey::Space) => Some(Shortcut::NextSlide),
        Key::Named(NamedKey::ArrowLeft) => Some(Shortcut::PrevSlide),
        Key::Named(NamedKey::Escape) => Some(Shortcut::BackToList),
        _ => None,
    }
}

/// The global shortcut of key `k` with modifiers `m`; see
/// [`global_shortcut_spec`].
pub fn global_shortcut(k: &Key, m: Modifiers) -> (r: Option<Shortcut>)
    ensures
        r == global_shortcut_spec(*k, m),
{
    match k {
        Key::Character(c) => if same_text(c.as_str(), "?") {
            Some(Shortcut::ToggleShortcuts)
        } else if same_text(c.as_str(), "z") && m.command && m.shift {
            Some(Shortcut::Redo)
        } else if same_text(c.as_str(), "z") && m.command {
            Some(Shortcut::Undo)
        } else if same_text(c.as_str(), "y") && m.command {
            Some(Shortcut::Redo)
        } else {
            None
        },
        _ => None,
    }
}

} // verus!
