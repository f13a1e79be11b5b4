//! The main window's session: edit or show mode, the presentation on air,
//! slide changes with their transitions, and the video that follows them.
use vstd::prelude::*;
use crate::domain::{
    ContentView, Presentation, Slide, SlideContent, SlideView, Transition, opt_pres_view,
    slides_view,
};
use crate::editor::{Editor, current_index_spec, fields_show_selection};
use crate::messages::{InspectorTab, RightDockTab, SidebarTab, ViewMode};
use crate::text::owned;

verus! {

/// A transition under way: the slide it leaves and how it moves on.
pub struct ActiveTransition {
    pub from_slide: Slide,
    pub transition: Transition,
}

/// What the presenter shows.
pub struct Presenting {
    /// The presentation on air.
    pub presentation: Option<Presentation>,
    /// The live slide.
    pub slide_index: usize,
    /// The transition under way, if any.
    pub transition: Option<ActiveTransition>,
    /// The slide whose context menu is open.
    pub slide_context_index: Option<usize>,
    /// Whether the group submenu of that context menu is open.
    pub group_submenu: bool,
}

/// What the video player is to do after a change of the live slide.
#[derive(Debug)]
pub enum VideoAction {
    /// Open and play the video at this path.
    Play(String),
    /// Stop any video.
    Stop,
    /// Leave the player as it is.
    Keep,
}

/// The video a slide plays: its path when it is a video slide.
pub open spec fn video_of(s: SlideView) -> Option<Seq<char>> {
    match s.content {
        ContentView::Video { path } => Some(path),
        _ => None,
    }
}

/// What the player does when slide `index` of the presentation on air goes
/// live: play it when it is a video slide, stop otherwise.
pub open spec fn video_for_spec(p: Option<Presentation>, index: int) -> Option<Seq<char>> {
    match p {
        Some(p) => if 0 <= index < p.slides@.len() {
            video_of(p.slides@[index]@)
        } else {
            None
        },
        None => None,
    }
}

/// The action for a video decision.
pub open spec fn video_action_matches(a: VideoAction, v: Option<Seq<char>>) -> bool {
    match v {
        Some(path) => a matches VideoAction::Play(p) && p@ == path,
        None => a is Stop,
    }
}

/// The slide after `cur` in a list of `len`, clamped to the last.
pub open spec fn next_index(cur: nat, len: nat) -> nat {
    let last = if len > 0 {
        (len - 1) as nat
    } else {
        0
    };
    if cur + 1 < last {
        cur + 1
    } else {
        last
    }
}

/// The slide before `cur`, clamped to the first.
pub open spec fn prev_index(cur: nat) -> nat {
    if cur > 0 {
        (cur - 1) as nat
    } else {
        0
    }
}

/// The number of slides on air.
pub open spec fn live_len(p: Option<Presentation>) -> nat {
    match p {
        Some(p) => p.slides@.len(),
        None => 0,
    }
}

/// Whether `t` is what changing from slide `from` to slide `to` of `p`
/// leaves under way: a transition from a copy of slide `from` in the way of
/// slide `to`, unless that way is a cut or motion is reduced.
pub open spec fn transition_started(
    p: Option<Presentation>,
    reduce_motion: bool,
    from: int,
    to: int,
    t: Option<ActiveTransition>,
) -> bool {
    let target = p->0.slides@[to];
    if target.transition != Transition::Cut && !reduce_motion {
        t matches Some(a) && a.from_slide@ == p->0.slides@[from]@ && a.transition
            == target.transition
    } else {
        t is None
    }
}

/// The whole session of the main window.
pub struct Session {
    pub mode: ViewMode,
    pub sidebar_tab: SidebarTab,
    pub inspector_tab: InspectorTab,
    pub right_dock_tab: RightDockTab,
    pub search_query: String,
    pub reduce_motion: bool,
    /// Whether the stage display shows.
    pub stage_display_active: bool,
    pub editor: Editor,
    pub presenting: Presenting,
}

impl Presenting {
    /// Nothing on air.
    pub fn new() -> (p: Presenting)
        ensures
            p.presentation is None,
            p.slide_index == 0,
            p.transition is None,
            p.slide_context_index is None,
            !p.group_submenu,
    {
        Presenting {
            presentation: None,
            slide_index: 0,
            transition: None,
            slide_context_index: None,
            group_submenu: false,
        }
    }

    /// The video decision for slide `index` going live.
    pub fn video_for(&self, index: usize) -> (a: VideoAction)
        ensures
            video_action_matches(a, video_for_spec(self.presentation, index as int)),
    {
        match &self.presentation {
            Some(p) => if index < p.slides.len() {
                match &p.slides[index].content {
                    SlideContent::Video { path } => VideoAction::Play(path.clone()),
                    _ => VideoAction::Stop,
                }
            } else {
                VideoAction::Stop
            },
            None => VideoAction::Stop,
        }
    }

    /// The live slide of the presentation on air, if there is one.
    pub fn live_slide(&self) -> (r: Option<&Slide>)
        ensures
            match r {
                Some(s) => self.presentation is Some && self.slide_index
                    < self.presentation->0.slides@.len() && *s
                    == self.presentation->0.slides@[self.slide_index as int],
                None => !(self.presentation is Some && self.slide_index
                    < self.presentation->0.slides@.len()),
            },
    {
        match &self.presentation {
            Some(p) => if self.slide_index < p.slides.len() {
                Some(&p.slides[self.slide_index])
            } else {
                None
            },
            None => None,
        }
    }

    /// Closes the slide context menu.
    pub fn hide_context_menu(&mut self)
        ensures
            final(self).slide_context_index is None,
            !final(self).group_submenu,
            final(self).presentation == old(self).presentation,
            final(self).slide_index == old(self).slide_index,
    {
        self.slide_context_index = None;
        self.group_submenu = false;
    }

    /// Opens the context menu of slide `i`, with the group submenu closed.
    pub fn show_context_menu(&mut self, i: usize)
        ensures
            final(self).slide_context_index == Some(i),
            !final(self).group_submenu,
            final(self).presentation == old(self).presentation,
            final(self).slide_index == old(self).slide_index,
    {
        self.slide_context_index = Some(i);
        self.group_submenu = false;
    }
}

impl Session {
    /// A fresh session in edit mode with the default tabs.
    pub fn new() -> (s: Session)
        ensures
            s.mode == ViewMode::Edit,
            s.sidebar_tab == SidebarTab::Presentations,
            s.inspector_tab == InspectorTab::Text,
            s.right_dock_tab == RightDockTab::ShowControls,
            s.search_query@.len() == 0,
            !s.reduce_motion,
            !s.stage_display_active,
            s.editor.editing is None,
            s.editor.selected_slide_index is None,
            s.editor.history.undo_stack@.len() == 0,
            s.editor.history.redo_stack@.len() == 0,
            s.editor.editing_name@.len() == 0,
            s.editor.editing_slide_text@.len() == 0,
            s.editor.editing_slide_font_size@ == "72"@,
            s.editor.editing_transition_duration@ == "500"@,
            s.editor.editing_group_label@.len() == 0,
            s.editor.editing_slide_notes@.len() == 0,
            s.editor.new_presentation_name@.len() == 0,
            s.presenting.presentation is None,
            s.presenting.slide_index == 0,
            s.presenting.transition is None,
            s.presenting.slide_context_index is None,
            !s.presenting.group_submenu,
    {
        Session {
            mode: ViewMode::Edit,
            sidebar_tab: SidebarTab::Presentations,
            inspector_tab: InspectorTab::Text,
            right_dock_tab: RightDockTab::ShowControls,
            search_query: String::new(),
            reduce_motion: false,
            stage_display_active: false,
            editor: Editor::new(),
            presenting: Presenting::new(),
        }
    }

    /// Makes slide `to` live, leaving `from_slide`: a transition starts unless
    /// the target's transition is a cut or motion is reduced. Returns the video
    /// decision, or `None` (and changes nothing) when there is no such slide.
    pub fn begin_slide_change(&mut self, from_slide: Slide, to: usize) -> (r: Option<VideoAction>)
        ensures
            to < live_len(old(self).presenting.presentation) ==> {
                let target = old(self).presenting.presentation->0.slides@[to as int];
                &&& r is Some
                &&& video_action_matches(r->0, video_for_spec(old(self).presenting.presentation, to as int))
                &&& final(self).presenting.slide_index == to
                &&& final(self).presenting.presentation == old(self).presenting.presentation
                &&& if target.transition != Transition::Cut && !old(self).reduce_motion {
                    final(self).presenting.transition matches Some(t) && t.from_slide == from_slide
                        && t.transition == target.transition
                } else {
                    final(self).presenting.transition is None
                }
            },
            !(to < live_len(old(self).presenting.presentation)) ==> r is None && final(self).presenting
                == old(self).presenting,
            final(self).mode == old(self).mode,
            final(self).reduce_motion == old(self).reduce_motion,
            final(self).editor == old(self).editor,
    {
        let transition = match &self.presenting.presentation {
            Some(p) => if to < p.slides.len() {
                p.slides[to].transition
            } else {
                return None;
            },
            None => {
                return None;
            },
        };
        self.presenting.slide_index = to;
        if !transition.is_cut() && !self.reduce_motion {
            self.presenting.transition = Some(ActiveTransition { from_slide, transition });
        } else {
            self.presenting.transition = None;
        }
        Some(self.presenting.video_for(to))
    }

    /// Makes slide `i` live. Nothing happens when it already is live, when
    /// nothing is on air or when there is no such slide.
    pub fn select_slide(&mut self, i: usize) -> (r: Option<VideoAction>)
        requires
            i == old(self).presenting.slide_index || old(self).presenting.presentation is None || i
                >= live_len(old(self).presenting.presentation) || old(self).presenting.slide_index
                < live_len(old(self).presenting.presentation),
        ensures
            r is Some <==> (i != old(self).presenting.slide_index && i < live_len(
                old(self).presenting.presentation,
            )),
            r is Some ==> final(self).presenting.slide_index == i && video_action_matches(
                r->0,
                video_for_spec(old(self).presenting.presentation, i as int),
            ) && transition_started(
                old(self).presenting.presentation,
                old(self).reduce_motion,
                old(self).presenting.slide_index as int,
                i as int,
                final(self).presenting.transition,
            ),
            r is None ==> final(self).presenting == old(self).presenting,
            final(self).presenting.presentation == old(self).presenting.presentation,
            final(self).editor == old(self).editor,
            final(self).mode == old(self).mode,
            final(self).reduce_motion == old(self).reduce_motion,
    {
        if i == self.presenting.slide_index {
            return None;
        }
        let from = match &self.presenting.presentation {
            Some(p) => if i < p.slides.len() {
                p.slides[self.presenting.slide_index].copy()
            } else {
                return None;
            },
            None => {
                return None;
            },
        };
        self.begin_slide_change(from, i)
    }

    /// Advances to the next slide; nothing happens on the last one.
    pub fn next_slide(&mut self) -> (r: Option<VideoAction>)
        requires
            old(self).presenting.presentation is None || old(self).presenting.slide_index
                < live_len(old(self).presenting.presentation) || (live_len(
                old(self).presenting.presentation,
            ) == 0 && old(self).presenting.slide_index == 0),
        ensures
            ({
                let cur = old(self).presenting.slide_index as nat;
                let next = next_index(cur, live_len(old(self).presenting.presentation));
                &&& r is Some <==> (old(self).presenting.presentation is Some && next != cur)
                &&& r is Some ==> final(self).presenting.slide_index == next && video_action_matches(
                    r->0,
                    video_for_spec(old(self).presenting.presentation, next as int),
                ) && transition_started(
                    old(self).presenting.presentation,
                    old(self).reduce_motion,
                    cur as int,
                    next as int,
                    final(self).presenting.transition,
                )
                &&& r is None ==> final(self).presenting == old(self).presenting
            }),
            final(self).presenting.presentation == old(self).presenting.presentation,
            final(self).editor == old(self).editor,
            final(self).mode == old(self).mode,
            final(self).reduce_motion == old(self).reduce_motion,
    {
        let (from, next) = match &self.presenting.presentation {
            Some(p) => {
                let cur = self.presenting.slide_index;
                let last = if p.slides.len() > 0 {
                    p.slides.len() - 1
                } else {
                    0
                };
                let next = if cur < last {
                    cur + 1
                } else {
                    last
                };
                if next == cur {
                    return None;
                }
                (p.slides[cur].copy(), next)
            },
            None => {
                return None;
            },
        };
        self.begin_slide_change(from, next)
    }

    /// Goes back to the previous slide; nothing happens on the first one.
    pub fn prev_slide(&mut self) -> (r: Option<VideoAction>)
        requires
            old(self).presenting.presentation is None || old(self).presenting.slide_index == 0
                || old(self).presenting.slide_index < live_len(old(self).presenting.presentation),
        ensures
            ({
                let cur = old(self).presenting.slide_index as nat;
                let prev = prev_index(cur);
                &&& r is Some <==> (old(self).presenting.presentation is Some && prev != cur)
                &&& r is Some ==> final(self).presenting.slide_index == prev && video_action_matches(
                    r->0,
                    video_for_spec(old(self).presenting.presentation, prev as int),
                ) && transition_started(
                    old(self).presenting.presentation,
                    old(self).reduce_motion,
                    cur as int,
                    prev as int,
                    final(self).presenting.transition,
                )
                &&& r is None ==> final(self).presenting == old(self).presenting
            }),
            final(self).presenting.presentation == old(self).presenting.presentation,
            final(self).editor == old(self).editor,
            final(self).mode == old(self).mode,
            final(self).reduce_motion == old(self).reduce_motion,
    {
        let (from, prev) = match &self.presenting.presentation {
            Some(p) => {
                let cur = self.presenting.slide_index;
                let prev = if cur > 0 {
                    cur - 1
                } else {
                    0
                };
                if prev == cur {
                    return None;
                }
                (p.slides[cur].copy(), prev)
            },
            None => {
                return None;
            },
        };
        self.begin_slide_change(from, prev)
    }

    /// Switches between edit and show mode. Entering show mode puts the edited
    /// presentation on air when nothing is, closes the editor and gives the
    /// video decision for the live slide; entering edit mode from show mode
    /// opens the presentation on air for editing at the live slide.
    pub fn switch_mode(&mut self, mode: ViewMode) -> (a: VideoAction)
        ensures
            final(self).mode == mode,
            mode == ViewMode::Show ==> {
                let live = if old(self).presenting.presentation is None {
                    old(self).editor.editing
                } else {
                    old(self).presenting.presentation
                };
                &&& final(self).presenting.presentation == live
                &&& final(self).editor.editing is None
                &&& final(self).editor.selected_slide_index is None
                &&& final(self).presenting.slide_index == old(self).presenting.slide_index
                &&& video_action_matches(a, video_for_spec(live, old(self).presenting.slide_index as int))
            },
            mode == ViewMode::Edit && old(self).mode == ViewMode::Show ==> {
                &&& final(self).presenting.presentation == old(self).presenting.presentation
                &&& a is Keep
                &&& match old(self).presenting.presentation {
                    Some(p) => opt_pres_view(final(self).editor.editing) == Some(p@)
                        && final(self).editor.selected_slide_index == Some(
                        old(self).presenting.slide_index,
                    ) && fields_show_selection(final(self).editor),
                    None => final(self).editor.editing == old(self).editor.editing
                        && final(self).editor.selected_slide_index == old(self).editor.selected_slide_index,
                }
            },
            mode == ViewMode::Edit && old(self).mode == ViewMode::Edit ==> a is Keep
                && final(self).presenting == old(self).presenting && final(self).editor == old(self).editor,
    {
        let was_edit = match self.mode {
            ViewMode::Edit => true,
            ViewMode::Show => false,
        };
        self.mode = mode;
        match mode {
            ViewMode::Show => {
                let editing = self.editor.editing.take();
                if self.presenting.presentation.is_none() {
                    self.presenting.presentation = editing;
                }
                self.editor.selected_slide_index = None;
                self.presenting.video_for(self.presenting.slide_index)
            },
            ViewMode::Edit => {
                if !was_edit {
                    match &self.presenting.presentation {
                        Some(p) => {
                            let copy = p.copy();
                            self.editor.editing = Some(copy);
                            self.editor.selected_slide_index = Some(self.presenting.slide_index);
                            self.editor.load_slide_for_editing();
                        },
                        None => {},
                    }
                }
                VideoAction::Keep
            },
        }
    }

    /// Leaves the open presentation for the list: nothing is edited or on
    /// air, the slide fields are reset and any video stops.
    pub fn back_to_list(&mut self) -> (a: VideoAction)
        ensures
            a is Stop,
            final(self).editor.editing is None,
            final(self).presenting.presentation is None,
            final(self).editor.selected_slide_index is None,
            final(self).presenting.slide_index == 0,
            final(self).presenting.transition is None,
            final(self).editor.editing_slide_text@.len() == 0,
            final(self).editor.editing_slide_font_size@ == "72"@,
            final(self).mode == old(self).mode,
    {
        self.editor.editing = None;
        self.presenting.presentation = None;
        self.editor.selected_slide_index = None;
        self.presenting.slide_index = 0;
        self.presenting.transition = None;
        self.editor.editing_slide_text = String::new();
        self.editor.editing_slide_font_size = owned("72");
        VideoAction::Stop
    }

    /// Opens `pres`: for editing in edit mode; on air at its first slide in
    /// show mode, with the video decision for that slide.
    pub fn open_presentation(&mut self, pres: Presentation) -> (a: VideoAction)
        ensures
            final(self).mode == old(self).mode,
            old(self).mode == ViewMode::Edit ==> a is Keep && final(self).editor.editing == Some(pres)
                && final(self).editor.selected_slide_index == (if pres.slides@.len() == 0 {
                None::<usize>
            } else {
                Some(0usize)
            }) && final(self).editor.editing_name@ == pres.name@ && final(self).presenting
                == old(self).presenting && fields_show_selection(final(self).editor),
            old(self).mode == ViewMode::Show ==> final(self).presenting.presentation == Some(pres)
                && final(self).presenting.slide_index == 0 && final(self).presenting.transition
                is None && video_action_matches(a, video_for_spec(Some(pres), 0)),
    {
        match self.mode {
            ViewMode::Edit => {
                self.editor.open(pres);
                VideoAction::Keep
            },
            ViewMode::Show => {
                self.presenting.slide_index = 0;
                self.presenting.transition = None;
                self.presenting.presentation = Some(pres);
                self.presenting.video_for(0)
            },
        }
    }

    /// Opens a presentation just made from a song or a Bible passage for
    /// editing: edit mode, the presentations list, and its first slide
    /// selected when it has one.
    pub fn edit_created(&mut self, pres: Presentation)
        ensures
            final(self).mode == ViewMode::Edit,
            final(self).sidebar_tab == SidebarTab::Presentations,
            final(self).editor.selected_slide_index == (if pres.slides@.len() == 0 {
                None::<usize>
            } else {
                Some(0usize)
            }),
            final(self).editor.editing == Some(pres),
            final(self).presenting == old(self).presenting,
            fields_show_selection(final(self).editor),
    {
        self.editor.selected_slide_index = if pres.slides.len() == 0 {
            None
        } else {
            Some(0)
        };
        self.editor.editing = Some(pres);
        self.mode = ViewMode::Edit;
        self.sidebar_tab = SidebarTab::Presentations;
        self.editor.load_slide_for_editing();
    }

    /// Turns reduced motion on or off; turning it on ends any transition.
    pub fn toggle_reduce_motion(&mut self)
        ensures
            final(self).reduce_motion == !old(self).reduce_motion,
            final(self).reduce_motion ==> final(self).presenting.transition is None,
            !final(self).reduce_motion ==> final(self).presenting == old(self).presenting,
    {
        self.reduce_motion = !self.reduce_motion;
        if self.reduce_motion {
            self.presenting.transition = None;
        }
    }

    /// Shows or hides the stage display; only in show mode.
    pub fn toggle_stage_display(&mut self)
        ensures
            final(self).stage_display_active == if old(self).mode == ViewMode::Show {
                !old(self).stage_display_active
            } else {
                old(self).stage_display_active
            },
            final(self).mode == old(self).mode,
            final(self).presenting == old(self).presenting,
    {
        match self.mode {
            ViewMode::Show => {
                self.stage_display_active = !self.stage_display_active;
            },
            ViewMode::Edit => {},
        }
    }

    /// Switches the sidebar tab. Returns whether the media library is to be
    /// loaded: the library tab was chosen and `library_empty` says it holds
    /// no assets.
    pub fn switch_sidebar_tab(&mut self, tab: SidebarTab, library_empty: bool) -> (load: bool)
        ensures
            *final(self) == (Session { sidebar_tab: tab, ..*old(self) }),
            load == (tab == SidebarTab::Library && library_empty),
    {
        self.sidebar_tab = tab;
        match tab {
            SidebarTab::Library => library_empty,
            _ => false,
        }
    }

    /// Switches the inspector tab. Returns whether the theme list is to be
    /// loaded: the theme tab was chosen and `themes_loaded` says none are.
    pub fn switch_inspector_tab(&mut self, tab: InspectorTab, themes_loaded: bool) -> (load: bool)
        ensures
            *final(self) == (Session { inspector_tab: tab, ..*old(self) }),
            load == (tab == InspectorTab::Theme && !themes_loaded),
    {
        self.inspector_tab = tab;
        match tab {
            InspectorTab::Theme => !themes_loaded,
            _ => false,
        }
    }

    /// Brings focus to the search field, which lives on the presentations
    /// rail: that rail is shown and nothing else changes.
    pub fn focus_search(&mut self)
        ensures
            *final(self) == (Session { sidebar_tab: SidebarTab::Presentations, ..*old(self) }),
    {
        self.sidebar_tab = SidebarTab::Presentations;
    }
}

/// The player is asked to play `x` exactly when slide `i` of the presentation
/// on air is a video slide with path `x`; a text or image slide, or a slide
/// that is not there, stops it.
pub proof fn law_only_video_slides_play(p: Option<Presentation>, i: int, x: Seq<char>)
    ensures
        (video_for_spec(p, i) == Some(x)) <==> (p is Some && 0 <= i < p->0.slides@.len()
            && p->0.slides@[i]@.content == (ContentView::Video { path: x })),
        (p is Some && 0 <= i < p->0.slides@.len() && !(p->0.slides@[i]@.content is Video))
            ==> video_for_spec(p, i) is None,
{
}

/// Next then previous comes back to the same slide, away from the ends.
pub proof fn law_next_then_prev(cur: nat, len: nat)
    requires
        cur + 1 < len,
    ensures
        prev_index(next_index(cur, len)) == cur,
{
}

/// Stepping never leaves the presentation: the next slide of any slide is
/// in it, and so is the previous slide of a slide in it.
pub proof fn law_next_stays_in_range(cur: nat, len: nat)
    requires
        len > 0,
    ensures
        next_index(cur, len) < len,
        cur < len ==> prev_index(cur) < len,
{
}

} // verus!
