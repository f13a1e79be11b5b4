//! The modes and tabs that the shell switches between.
use vstd::prelude::*;

verus! {

/// Whether the main window edits presentations or presents them.
#[derive(Debug, Clone, Copy, PartialEq, Eq, Structural)]
pub enum ViewMode {
    Edit,
    Show,
}

/// The tabs of the slide inspector.
#[derive(Debug, Clone, Copy, PartialEq, Eq, Structural)]
pub enum InspectorTab {
    Text,
    Slide,
    Theme,
    Layers,
}

/// Which tab is shown in the right dock while in Show mode.
#[derive(Debug, Clone, Copy, PartialEq, Eq, Structural)]
pub enum RightDockTab {
    ShowControls,
    Props,
    Triggers,
    Audio,
    Timers,
}

/// The sections of the left sidebar.
#[derive(Debug, Clone, Copy, PartialEq, Eq, Structural)]
pub enum SidebarTab {
    Presentations,
    Playlists,
    Library,
    Songs,
    Bible,
}

impl Default for RightDockTab {
    fn default() -> (t: RightDockTab)
        ensures
            t == RightDockTab::ShowControls,
    {
        RightDockTab::ShowControls
    }
}

impl Default for SidebarTab {
    fn default() -> (t: SidebarTab)
        ensures
            t == SidebarTab::Presentations,
    {
        SidebarTab::Presentations
    }
}

/// The other mode: what the edit-mode toggle switches to.
pub open spec fn toggled_spec(m: ViewMode) -> ViewMode {
    match m {
        ViewMode::Edit => ViewMode::Show,
        ViewMode::Show => ViewMode::Edit,
    }
}

impl ViewMode {
    /// The mode that the edit-mode toggle switches to.
    pub fn toggled(self) -> (r: ViewMode)
        ensures
            r == toggled_spec(self),
    {
        match self {
            ViewMode::Edit => ViewMode::Show,
            ViewMode::Show => ViewMode::Edit,
        }
    }

    /// The name the settings store for this mode as the startup mode.
    pub fn config_name(self) -> (s: String)
        ensures
            s@ == match self {
                ViewMode::Show => "show"@,
                ViewMode::Edit => "edit"@,
            },
    {
        match self {
            ViewMode::Show => "show".to_owned(),
            ViewMode::Edit => "edit".to_owned(),
        }
    }
}

/// Toggling the mode twice gives the mode back.
pub proof fn law_toggle_twice(m: ViewMode)
    ensures
        toggled_spec(toggled_spec(m)) == m,
{
}

} // verus!
