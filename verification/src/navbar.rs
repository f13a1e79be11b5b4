//! The state the top navigation bar shows.
use vstd::prelude::*;
use crate::messages::{InspectorTab, ViewMode};
use crate::text::owned;

verus! {

/// Which outputs and panels are live, as the navigation bar shows them.
#[derive(Clone, Copy, Debug, PartialEq, Eq, Structural)]
pub struct NavbarState {
    pub ndi_active: bool,
    pub audience_active: bool,
    pub stage_active: bool,
    pub reduce_motion: bool,
    pub recording_active: bool,
    pub matrix_open: bool,
    pub bible_active: bool,
}

/// The buttons of the navigation bar.
#[derive(Clone, Copy, Debug, PartialEq, Eq, Structural)]
pub enum NavTool {
    Search,
    Text,
    Theme,
    Show,
    Edit,
    Bible,
    Media,
    Looks,
    Capture,
    Ndi,
    Audience,
    Stage,
    Help,
    Settings,
}

/// Whether button `tool` shows as active in mode `mode` with inspector tab
/// `tab`, the media bin open or not, and the live states `s`: the text and
/// theme tools while editing on their inspector tab, the mode buttons for
/// their mode, the other toggles while what they control is on; search, help
/// and settings never.
pub open spec fn tool_active(
    tool: NavTool,
    mode: ViewMode,
    tab: InspectorTab,
    media_bin_open: bool,
    s: NavbarState,
) -> bool {
    match tool {
        NavTool::Search => false,
        NavTool::Text => mode == ViewMode::Edit && tab == InspectorTab::Text,
        NavTool::Theme => mode == ViewMode::Edit && tab == InspectorTab::Theme,
        NavTool::Show => mode == ViewMode::Show,
        NavTool::Edit => mode == ViewMode::Edit,
        NavTool::Bible => s.bible_active,
        NavTool::Media => media_bin_open,
        NavTool::Looks => s.matrix_open,
        NavTool::Capture => s.recording_active,
        NavTool::Ndi => s.ndi_active,
        NavTool::Audience => s.audience_active,
        NavTool::Stage => s.stage_active,
        NavTool::Help => false,
        NavTool::Settings => false,
    }
}

impl NavbarState {
    /// Whether button `tool` shows as active; see [`tool_active`].
    pub fn is_active(self, tool: NavTool, mode: ViewMode, tab: InspectorTab, media_bin_open: bool) -> (b: bool)
        ensures
            b == tool_active(tool, mode, tab, media_bin_open, self),
    {
        match tool {
            NavTool::Search => false,
            NavTool::Text => mode == ViewMode::Edit && tab == InspectorTab::Text,
            NavTool::Theme => mode == ViewMode::Edit && tab == InspectorTab::Theme,
            NavTool::Show => mode == ViewMode::Show,
            NavTool::Edit => mode == ViewMode::Edit,
            NavTool::Bible => self.bible_active,
            NavTool::Media => media_bin_open,
            NavTool::Looks => self.matrix_open,
            NavTool::Capture => self.recording_active,
            NavTool::Ndi => self.ndi_active,
            NavTool::Audience => self.audience_active,
            NavTool::Stage => self.stage_active,
            NavTool::Help => false,
            NavTool::Settings => false,
        }
    }

    /// The label of the recording button: "REC" while recording, "Capture"
    /// otherwise.
    pub fn capture_label(self) -> (l: String)
        ensures
            l@ == if self.recording_active {
                "REC"@
            } else {
                "Capture"@
            },
    {
        if self.recording_active {
            owned("REC")
        } else {
            owned("Capture")
        }
    }

    /// The label of the NDI button: "NDI LIVE" while the NDI output runs,
    /// "NDI" otherwise.
    pub fn ndi_label(self) -> (l: String)
        ensures
            l@ == if self.ndi_active {
                "NDI LIVE"@
            } else {
                "NDI"@
            },
    {
        if self.ndi_active {
            owned("NDI LIVE")
        } else {
            owned("NDI")
        }
    }
}

} // verus!
