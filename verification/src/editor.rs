//! The presentation editor: which slide is selected, the text fields that
//! mirror it, slide reordering and undo/redo of edits.
use vstd::prelude::*;
use crate::domain::{
    ContentView, Presentation, PresentationView, Slide, SlideContent, SlideView, Transition,
    copy_opt_string, opt_view, slides_view, transition_duration, with_duration_spec,
};
use crate::library::{Asset, MediaType};
use crate::history::{EditHistory, recorded_undo, step_spec};
use crate::ids::{is_uuid_text, new_id};
use crate::lists::{move_down, move_item, move_up, moved, position_of, swapped};
use crate::numbers::{decimal, decimal_string, parse_u64, parse_unsigned};
use crate::text::{owned, trim, unless_blank, unless_blank_spec, is_blank};

verus! {

/// The views of a list of presentations.
pub open spec fn pres_views(s: Seq<Presentation>) -> Seq<PresentationView> {
    s.map_values(|p: Presentation| p@)
}

/// The history after the open presentation `editing`, if any, was recorded
/// for undo: its snapshot is pushed (the oldest dropped beyond the limit) and
/// the redo stack is cleared; with nothing open the history is unchanged.
pub open spec fn undo_recorded(
    editing: Option<Presentation>,
    before: EditHistory<Presentation>,
    after: EditHistory<Presentation>,
) -> bool {
    match editing {
        Some(p) => pres_views(after.undo_stack@) == recorded_undo(
            pres_views(before.undo_stack@),
            p@,
        ) && after.redo_stack@.len() == 0,
        None => after == before,
    }
}

/// What the slide canvas of the editor draws: the slide being edited, if
/// any. Drawing and dragging on it are left to the renderer.
pub struct SlideProgram {
    pub slide: Option<Slide>,
}

impl SlideProgram {
    /// The canvas program for `slide`, which it draws from a copy.
    pub fn new(slide: Option<&Slide>) -> (p: SlideProgram)
        ensures
            match slide {
                Some(s) => p.slide matches Some(c) && c@ == s@,
                None => p.slide is None,
            },
    {
        match slide {
            Some(s) => SlideProgram { slide: Some(s.copy()) },
            None => SlideProgram { slide: None },
        }
    }
}

/// The kinds of slide transition, one per button of the slide inspector.
#[derive(Clone, Copy, Debug, PartialEq, Eq, Structural)]
pub enum TransitionKind {
    Cut,
    Fade,
    Dissolve,
    Slide,
    Push,
    Zoom,
    Flip,
    Clock,
    Wipe,
}

/// The kind of transition `t`.
pub open spec fn kind_of(t: Transition) -> TransitionKind {
    match t {
        Transition::Cut => TransitionKind::Cut,
        Transition::Fade { .. } => TransitionKind::Fade,
        Transition::Dissolve { .. } => TransitionKind::Dissolve,
        Transition::Slide { .. } => TransitionKind::Slide,
        Transition::Push { .. } => TransitionKind::Push,
        Transition::Zoom { .. } => TransitionKind::Zoom,
        Transition::Flip { .. } => TransitionKind::Flip,
        Transition::Clock { .. } => TransitionKind::Clock,
        Transition::Wipe { .. } => TransitionKind::Wipe,
    }
}

/// The duration the transition buttons carry over from the slide's
/// transition `t`: its own, or 500 ms for a cut.
pub open spec fn carried_duration(t: Transition) -> u64 {
    match transition_duration(t) {
        Some(d) => d,
        None => 500,
    }
}

/// The transition the button of kind `kind` sets, lasting `d` milliseconds:
/// a push goes right (direction 1) and a wipe at angle 0.
pub open spec fn button_transition(kind: TransitionKind, d: u64) -> Transition {
    match kind {
        TransitionKind::Cut => Transition::Cut,
        TransitionKind::Fade => Transition::Fade { duration_ms: d },
        TransitionKind::Dissolve => Transition::Dissolve { duration_ms: d },
        TransitionKind::Slide => Transition::Slide { duration_ms: d },
        TransitionKind::Push => Transition::Push { duration_ms: d, direction: 1 },
        TransitionKind::Zoom => Transition::Zoom { duration_ms: d },
        TransitionKind::Flip => Transition::Flip { duration_ms: d },
        TransitionKind::Clock => Transition::Clock { duration_ms: d },
        TransitionKind::Wipe => Transition::Wipe { duration_ms: d, angle_deg: 0 },
    }
}

/// Giving a transition a duration keeps its kind, its push direction and its
/// wipe angle, and makes the given duration its own; a cut has no duration
/// and stays a cut.
pub proof fn law_with_duration_sets_it(t: Transition, ms: u64)
    ensures
        kind_of(with_duration_spec(t, ms)) == kind_of(t),
        t != Transition::Cut ==> transition_duration(with_duration_spec(t, ms)) == Some(ms),
        t == Transition::Cut ==> with_duration_spec(t, ms) == Transition::Cut,
        match (t, with_duration_spec(t, ms)) {
            (Transition::Push { direction: d1, .. }, Transition::Push { direction: d2, .. }) => d1
                == d2,
            (Transition::Wipe { angle_deg: a1, .. }, Transition::Wipe { angle_deg: a2, .. }) => a1
                == a2,
            _ => true,
        },
{
}

/// The transition button of kind `kind` in the slide inspector, for a slide
/// whose transition is `t`: the transition it sets (see
/// [`button_transition`], lasting [`carried_duration`]) and whether it shows
/// as active (the slide's transition is of that kind).
pub fn transition_button(t: Transition, kind: TransitionKind) -> (r: (Transition, bool))
    ensures
        r.0 == button_transition(kind, carried_duration(t)),
        r.1 == (kind_of(t) == kind),
{
    let d: u64 = match t.duration() {
        Some(d) => d,
        None => 500,
    };
    let current = match t {
        Transition::Cut => TransitionKind::Cut,
        Transition::Fade { .. } => TransitionKind::Fade,
        Transition::Dissolve { .. } => TransitionKind::Dissolve,
        Transition::Slide { .. } => TransitionKind::Slide,
        Transition::Push { .. } => TransitionKind::Push,
        Transition::Zoom { .. } => TransitionKind::Zoom,
        Transition::Flip { .. } => TransitionKind::Flip,
        Transition::Clock { .. } => TransitionKind::Clock,
        Transition::Wipe { .. } => TransitionKind::Wipe,
    };
    let set = match kind {
        TransitionKind::Cut => Transition::Cut,
        TransitionKind::Fade => Transition::Fade { duration_ms: d },
        TransitionKind::Dissolve => Transition::Dissolve { duration_ms: d },
        TransitionKind::Slide => Transition::Slide { duration_ms: d },
        TransitionKind::Push => Transition::Push { duration_ms: d, direction: 1 },
        TransitionKind::Zoom => Transition::Zoom { duration_ms: d },
        TransitionKind::Flip => Transition::Flip { duration_ms: d },
        TransitionKind::Clock => Transition::Clock { duration_ms: d },
        TransitionKind::Wipe => Transition::Wipe { duration_ms: d, angle_deg: 0 },
    };
    (set, current == kind)
}

/// Whether the content-type button of kind `kind` shows as active for
/// content `c`: the content is of that kind.
pub fn content_button_active(c: &SlideContent, kind: ContentKind) -> (b: bool)
    ensures
        b == is_kind(c@, kind),
{
    match (kind, c) {
        (ContentKind::Text, SlideContent::Text { .. }) => true,
        (ContentKind::Image, SlideContent::Image { .. }) => true,
        (ContentKind::Video, SlideContent::Video { .. }) => true,
        _ => false,
    }
}

/// The state of the presentation editor.
pub struct Editor {
    /// The presentation open for editing.
    pub editing: Option<Presentation>,
    /// The selected slide of the edited presentation.
    pub selected_slide_index: Option<usize>,
    /// Snapshots for undo and redo.
    pub history: EditHistory<Presentation>,
    /// The rename field.
    pub editing_name: String,
    /// The text field of the selected slide.
    pub editing_slide_text: String,
    /// The font size field of the selected slide.
    pub editing_slide_font_size: String,
    /// The transition duration field, in milliseconds.
    pub editing_transition_duration: String,
    /// The group label field.
    pub editing_group_label: String,
    /// The speaker notes field.
    pub editing_slide_notes: String,
    /// The name typed into the new-presentation dialog.
    pub new_presentation_name: String,
}

/// The index of the selected slide, when a presentation is open and the
/// selection lies within it.
pub open spec fn current_index_spec(editing: Option<Presentation>, selected: Option<usize>) -> Option<
    int,
> {
    match (selected, editing) {
        (Some(i), Some(p)) => if i < p.slides@.len() {
            Some(i as int)
        } else {
            None
        },
        _ => None,
    }
}

/// The text the duration field shows for a slide's transition: its duration,
/// or 500 when it is a cut or there is no slide.
pub open spec fn duration_field(t: Option<Transition>) -> Seq<char> {
    match t {
        Some(t) => match transition_duration(t) {
            Some(d) => decimal(d as nat),
            None => "500"@,
        },
        None => "500"@,
    }
}

/// The text of a text slide; empty for other content.
pub open spec fn content_text(c: ContentView) -> Seq<char> {
    match c {
        ContentView::Text { text } => text,
        _ => Seq::empty(),
    }
}

/// A blank text slide with identity `id` in group `group`.
pub open spec fn blank_slide(id: Seq<char>, group: Option<Seq<char>>) -> SlideView {
    SlideView {
        id,
        group,
        notes: None,
        transition: Transition::Cut,
        content: ContentView::Text { text: Seq::empty() },
        layers: Seq::empty(),
    }
}

/// Whether the slide fields of editor `e` show its selected slide: its text,
/// transition duration, group label and notes; the defaults (empty, and 500
/// for the duration) when no slide is selected.
pub open spec fn fields_show_selection(e: Editor) -> bool {
    match current_index_spec(e.editing, e.selected_slide_index) {
        Some(i) => {
            let s = e.editing->0.slides@[i]@;
            &&& e.editing_slide_text@ == content_text(s.content)
            &&& e.editing_transition_duration@ == duration_field(Some(s.transition))
            &&& e.editing_group_label@ == match s.group {
                Some(g) => g,
                None => Seq::empty(),
            }
            &&& e.editing_slide_notes@ == match s.notes {
                Some(n) => n,
                None => Seq::empty(),
            }
        },
        None => {
            &&& e.editing_slide_text@.len() == 0
            &&& e.editing_transition_duration@ == "500"@
            &&& e.editing_group_label@.len() == 0
            &&& e.editing_slide_notes@.len() == 0
        },
    }
}

/// The selection after the slide list was reloaded with `len` slides
/// following a deletion: cleared when empty, pulled back onto the last slide
/// when it fell off the end, kept otherwise.
pub open spec fn selection_after_delete(selected: Option<usize>, len: nat) -> Option<usize> {
    match selected {
        Some(cur) => if len == 0 {
            None
        } else if cur >= len {
            Some((len - 1) as usize)
        } else {
            Some(cur)
        },
        None => None,
    }
}

/// The slide shown after inserting behind `after` in a list of `len` slides.
pub open spec fn selection_after_insert(after: nat, len: nat) -> nat {
    if after + 1 < len {
        after + 1
    } else {
        (len - 1) as nat
    }
}

/// The selection after a deletion; see [`selection_after_delete`].
pub fn selection_after_delete_of(selected: Option<usize>, len: usize) -> (r: Option<usize>)
    ensures
        r == selection_after_delete(selected, len as nat),
{
    match selected {
        Some(cur) => if len == 0 {
            None
        } else if cur >= len {
            Some(len - 1)
        } else {
            Some(cur)
        },
        None => None,
    }
}

/// The slide to select after inserting behind `after`; see
/// [`selection_after_insert`].
pub fn selection_after_insert_of(after: usize, len: usize) -> (r: usize)
    requires
        len > 0,
    ensures
        r as nat == selection_after_insert(after as nat, len as nat),
        r < len,
{
    if after < usize::MAX && after + 1 < len {
        after + 1
    } else {
        len - 1
    }
}

impl Editor {
    /// An editor with nothing open and the slide font size field at its default.
    pub fn new() -> (e: Editor)
        ensures
            e.editing is None,
            e.selected_slide_index is None,
            e.history.undo_stack@.len() == 0,
            e.history.redo_stack@.len() == 0,
            e.editing_name@.len() == 0,
            e.editing_slide_text@.len() == 0,
            e.editing_slide_font_size@ == "72"@,
            e.editing_transition_duration@ == "500"@,
            e.editing_group_label@.len() == 0,
            e.editing_slide_notes@.len() == 0,
            e.new_presentation_name@.len() == 0,
    {
        Editor {
            editing: None,
            selected_slide_index: None,
            history: EditHistory::new(),
            editing_name: String::new(),
            editing_slide_text: String::new(),
            editing_slide_font_size: owned("72"),
            editing_transition_duration: owned("500"),
            editing_group_label: String::new(),
            editing_slide_notes: String::new(),
            new_presentation_name: String::new(),
        }
    }

    /// The index of the selected slide of the open presentation, if any.
    pub fn current_index(&self) -> (r: Option<usize>)
        ensures
            match r {
                Some(i) => current_index_spec(self.editing, self.selected_slide_index) == Some(
                    i as int,
                ),
                None => current_index_spec(self.editing, self.selected_slide_index) is None,
            },
    {
        match (self.selected_slide_index, &self.editing) {
            (Some(i), Some(p)) => if i < p.slides.len() {
                Some(i)
            } else {
                None
            },
            _ => None,
        }
    }

    /// Records the open presentation, if any, for undo.
    pub fn push_undo(&mut self)
        ensures
            final(self).editing == old(self).editing,
            final(self).editing_name == old(self).editing_name,
            final(self).editing_slide_text == old(self).editing_slide_text,
            final(self).editing_transition_duration == old(self).editing_transition_duration,
            final(self).editing_group_label == old(self).editing_group_label,
            final(self).editing_slide_notes == old(self).editing_slide_notes,
            final(self).new_presentation_name == old(self).new_presentation_name,
            final(self).selected_slide_index == old(self).selected_slide_index,
            undo_recorded(old(self).editing, old(self).history, final(self).history),
    {
        match &self.editing {
            Some(p) => {
                let snap = p.copy();
                let ghost before = self.history.undo_stack@;
                self.history.record(snap);
                proof {
                    let pushed = before.push(snap);
                    assert(pres_views(pushed) =~= pres_views(before).push(p@));
                    if pushed.len() > 50 {
                        assert(pres_views(pushed.drop_first()) =~= pres_views(
                            before,
                        ).push(p@).drop_first());
                    }
                }
            },
            None => {},
        }
    }

    /// Fills the slide fields from the selected slide: its text, transition
    /// duration, group label and notes; the defaults when nothing is selected.
    pub fn load_slide_for_editing(&mut self)
        ensures
            final(self).editing == old(self).editing,
            final(self).selected_slide_index == old(self).selected_slide_index,
            final(self).history == old(self).history,
            final(self).editing_name == old(self).editing_name,
            final(self).new_presentation_name == old(self).new_presentation_name,
            final(self).editing_slide_font_size == old(self).editing_slide_font_size,
            fields_show_selection(*final(self)),
    {
        match self.current_index() {
            Some(i) => {
                let p = self.editing.as_ref().unwrap();
                let s = &p.slides[i];
                let text = match &s.content {
                    SlideContent::Text { text } => text.clone(),
                    _ => String::new(),
                };
                let dur = match s.transition.duration() {
                    Some(d) => decimal_string(d),
                    None => owned("500"),
                };
                let group = match &s.group {
                    Some(g) => g.clone(),
                    None => String::new(),
                };
                let notes = match &s.notes {
                    Some(n) => n.clone(),
                    None => String::new(),
                };
                self.editing_slide_text = text;
                self.editing_transition_duration = dur;
                self.editing_group_label = group;
                self.editing_slide_notes = notes;
            },
            None => {
                self.editing_slide_text = String::new();
                self.editing_transition_duration = owned("500");
                self.editing_group_label = String::new();
                self.editing_slide_notes = String::new();
            },
        }
    }

    /// Opens `pres` for editing: the rename field takes its name and the first
    /// slide, if any, is selected.
    pub fn open(&mut self, pres: Presentation)
        ensures
            final(self).editing_name@ == pres.name@,
            final(self).selected_slide_index == if pres.slides@.len() == 0 {
                None::<usize>
            } else {
                Some(0usize)
            },
            final(self).editing == Some(pres),
            final(self).history == old(self).history,
            fields_show_selection(*final(self)),
    {
        self.editing_name = pres.name.clone();
        self.selected_slide_index = if pres.slides.len() == 0 {
            None
        } else {
            Some(0)
        };
        self.editing = Some(pres);
        self.load_slide_for_editing();
    }

    /// The slide ids in the order a move of slide `index` one place up would
    /// give, or `None` when it cannot move.
    pub fn order_after_move_up(&self, index: usize) -> (r: Option<Vec<String>>)
        ensures
            match r {
                Some(ids) => self.editing is Some && 0 < index < self.editing->0.slides@.len()
                    && ids@.map_values(|s: String| s@) == swapped(
                    self.editing->0.slides@.map_values(|s: Slide| s.id@),
                    index - 1,
                    index as int,
                ),
                None => !(self.editing is Some && 0 < index < self.editing->0.slides@.len()),
            },
    {
        match &self.editing {
            Some(p) => if index > 0 && index < p.slides.len() {
                let mut ids = slide_ids(&p.slides);
                crate::lists::swap_items(&mut ids, index - 1, index);
                proof {
                    let a = p.slides@.map_values(|s: Slide| s.id@);
                    assert(ids@.map_values(|s: String| s@) =~= swapped(a, index - 1, index as int));
                }
                Some(ids)
            } else {
                None
            },
            None => None,
        }
    }

    /// The slide ids in the order a move of slide `index` one place down
    /// would give, or `None` when it cannot move.
    pub fn order_after_move_down(&self, index: usize) -> (r: Option<Vec<String>>)
        ensures
            match r {
                Some(ids) => self.editing is Some && index + 1 < self.editing->0.slides@.len()
                    && ids@.map_values(|s: String| s@) == swapped(
                    self.editing->0.slides@.map_values(|s: Slide| s.id@),
                    index as int,
                    index + 1,
                ),
                None => !(self.editing is Some && index + 1 < self.editing->0.slides@.len()),
            },
    {
        match &self.editing {
            Some(p) => if index < p.slides.len() && index + 1 < p.slides.len() {
                let mut ids = slide_ids(&p.slides);
                crate::lists::swap_items(&mut ids, index, index + 1);
                proof {
                    let a = p.slides@.map_values(|s: Slide| s.id@);
                    assert(ids@.map_values(|s: String| s@) =~= swapped(a, index as int, index + 1));
                }
                Some(ids)
            } else {
                None
            },
            None => None,
        }
    }

    /// Moves slide `index` one place up, after recording for undo. `saved`
    /// tells whether the new order was stored; only then does the selection
    /// follow the slide.
    pub fn move_slide_up(&mut self, index: usize, saved: bool)
        requires
            old(self).editing is None || index == 0 || index < old(self).editing->0.slides@.len(),
        ensures
            match old(self).editing {
                Some(p) => if index > 0 {
                    &&& final(self).editing is Some
                    &&& final(self).editing->0.id == p.id
                    &&& final(self).editing->0.name == p.name
                    &&& final(self).editing->0.slides@ == swapped(
                        p.slides@,
                        index - 1,
                        index as int,
                    )
                    &&& final(self).selected_slide_index == if saved {
                        Some((index - 1) as usize)
                    } else {
                        old(self).selected_slide_index
                    }
                } else {
                    final(self).editing == old(self).editing && final(self).selected_slide_index
                        == old(self).selected_slide_index
                },
                None => final(self).editing is None && final(self).selected_slide_index == old(self).selected_slide_index,
            },
            undo_recorded(old(self).editing, old(self).history, final(self).history),
    {
        self.push_undo();
        if index > 0 {
            let moved = match &mut self.editing {
                Some(p) => move_up(&mut p.slides, index),
                None => false,
            };
            if moved && saved {
                self.selected_slide_index = Some(index - 1);
            }
        }
    }

    /// Moves slide `index` one place down, after recording for undo, when it
    /// is not the last. `saved` tells whether the new order was stored; only
    /// then does the selection follow the slide.
    pub fn move_slide_down(&mut self, index: usize, saved: bool)
        requires
            old(self).editing is None || old(self).editing->0.slides@.len() > 0,
        ensures
            match old(self).editing {
                Some(p) => if index + 1 < p.slides@.len() {
                    &&& final(self).editing is Some
                    &&& final(self).editing->0.id == p.id
                    &&& final(self).editing->0.name == p.name
                    &&& final(self).editing->0.slides@ == swapped(
                        p.slides@,
                        index as int,
                        index + 1,
                    )
                    &&& final(self).selected_slide_index == if saved {
                        Some((index + 1) as usize)
                    } else {
                        old(self).selected_slide_index
                    }
                } else {
                    final(self).editing == old(self).editing && final(self).selected_slide_index
                        == old(self).selected_slide_index
                },
                None => final(self).editing is None && final(self).selected_slide_index == old(self).selected_slide_index,
            },
            undo_recorded(old(self).editing, old(self).history, final(self).history),
    {
        self.push_undo();
        let moved = match &mut self.editing {
            Some(p) => move_down(&mut p.slides, index),
            None => false,
        };
        if moved && saved {
            self.selected_slide_index = Some(index + 1);
        }
    }

    /// Records for undo, then makes the blank text slide to be stored at the
    /// end of the open presentation, under a fresh identity. `None` when no
    /// presentation is open.
    pub fn new_slide(&mut self) -> (r: Option<Slide>)
        ensures
            undo_recorded(old(self).editing, old(self).history, final(self).history),
            final(self).editing == old(self).editing,
            final(self).selected_slide_index == old(self).selected_slide_index,
            match r {
                Some(s) => {
                    &&& old(self).editing is Some
                    &&& s@ == blank_slide(s.id@, None)
                    &&& is_uuid_text(s.id@)
                },
                None => old(self).editing is None,
            },
    {
        self.push_undo();
        match &self.editing {
            Some(_) => Some(Slide::new_text(new_id())),
            None => None,
        }
    }

    /// Records for undo, then makes the blank text slide to be stored right
    /// behind slide `after`, in that slide's group (in none when there is no
    /// such slide), under a fresh identity. `None` when no presentation is
    /// open.
    pub fn new_slide_after(&mut self, after: usize) -> (r: Option<Slide>)
        ensures
            undo_recorded(old(self).editing, old(self).history, final(self).history),
            final(self).editing == old(self).editing,
            final(self).selected_slide_index == old(self).selected_slide_index,
            match r {
                Some(s) => {
                    &&& old(self).editing is Some
                    &&& s@ == blank_slide(
                        s.id@,
                        if after < old(self).editing->0.slides@.len() {
                            open_slides(old(self).editing)[after as int].group
                        } else {
                            None
                        },
                    )
                    &&& is_uuid_text(s.id@)
                },
                None => old(self).editing is None,
            },
    {
        self.push_undo();
        match &self.editing {
            Some(p) => {
                let group = if after < p.slides.len() {
                    copy_opt_string(&p.slides[after].group)
                } else {
                    None
                };
                let mut s = Slide::new_text(new_id());
                s.group = group;
                Some(s)
            },
            None => None,
        }
    }

    /// Records for undo, then copies slide `index` under a fresh identity, to
    /// be stored right behind it. `None` when there is no such slide.
    pub fn duplicate_slide(&mut self, index: usize) -> (r: Option<Slide>)
        ensures
            undo_recorded(old(self).editing, old(self).history, final(self).history),
            final(self).editing == old(self).editing,
            final(self).selected_slide_index == old(self).selected_slide_index,
            match r {
                Some(d) => {
                    &&& old(self).editing is Some
                    &&& index < old(self).editing->0.slides@.len()
                    &&& d@ == SlideView { id: d.id@, ..open_slides(old(self).editing)[index as int] }
                    &&& is_uuid_text(d.id@)
                },
                None => !(old(self).editing is Some && index < old(self).editing->0.slides@.len()),
            },
    {
        self.push_undo();
        match &self.editing {
            Some(p) => if index < p.slides.len() {
                let mut d = p.slides[index].copy();
                d.id = new_id();
                Some(d)
            } else {
                None
            },
            None => None,
        }
    }

    /// Takes the slide list reloaded after a deletion: the selection is kept
    /// within it (see [`selection_after_delete`]) and the fields are refilled.
    pub fn slides_reloaded_after_delete(&mut self, updated: Presentation)
        ensures
            final(self).selected_slide_index == selection_after_delete(
                old(self).selected_slide_index,
                updated.slides@.len(),
            ),
            final(self).editing == Some(updated),
            final(self).history == old(self).history,
            fields_show_selection(*final(self)),
    {
        self.selected_slide_index = selection_after_delete_of(
            self.selected_slide_index,
            updated.slides.len(),
        );
        self.editing = Some(updated);
        self.load_slide_for_editing();
    }

    /// Takes the slide list reloaded after appending a slide: the last slide
    /// is selected.
    pub fn slides_reloaded_after_append(&mut self, updated: Presentation)
        requires
            updated.slides@.len() > 0,
        ensures
            final(self).selected_slide_index == Some((updated.slides@.len() - 1) as usize),
            final(self).editing == Some(updated),
            final(self).history == old(self).history,
            fields_show_selection(*final(self)),
    {
        self.selected_slide_index = Some(updated.slides.len() - 1);
        self.editing = Some(updated);
        self.load_slide_for_editing();
    }

    /// Takes the slide list reloaded after inserting a slide behind `after`:
    /// the slide behind it, or the last, is selected.
    pub fn slides_reloaded_after_insert(&mut self, after: usize, updated: Presentation)
        requires
            updated.slides@.len() > 0,
        ensures
            final(self).selected_slide_index == Some(
                selection_after_insert(after as nat, updated.slides@.len()) as usize,
            ),
            final(self).editing == Some(updated),
            final(self).history == old(self).history,
            fields_show_selection(*final(self)),
    {
        self.selected_slide_index = Some(selection_after_insert_of(after, updated.slides.len()));
        self.editing = Some(updated);
        self.load_slide_for_editing();
    }

    /// Selects slide `index` and fills the fields from it.
    pub fn select_slide(&mut self, index: usize)
        ensures
            final(self).selected_slide_index == Some(index),
            final(self).editing == old(self).editing,
            final(self).history == old(self).history,
            fields_show_selection(*final(self)),
    {
        self.selected_slide_index = Some(index);
        self.load_slide_for_editing();
    }

    /// Undoes one edit and refills the slide fields. Returns whether anything
    /// was undone (the restored slides are then to be stored).
    pub fn undo(&mut self) -> (done: bool)
        ensures
            done == (old(self).history.undo_stack@.len() > 0),
            final(self).selected_slide_index == old(self).selected_slide_index,
            match step_spec(
                old(self).history.undo_stack@,
                old(self).history.redo_stack@,
                old(self).editing,
            ) {
                Some((u, r, c)) => final(self).history.undo_stack@ == u
                    && final(self).history.redo_stack@ == r && final(self).editing == c,
                None => final(self).history.undo_stack@ == old(self).history.undo_stack@
                    && final(self).history.redo_stack@ == old(self).history.redo_stack@
                    && final(self).editing == old(self).editing,
            },
            fields_show_selection(*final(self)),
    {
        let done = self.history.undo(&mut self.editing);
        self.load_slide_for_editing();
        done
    }

    /// Redoes one undone edit and refills the slide fields. Returns whether
    /// anything was redone (the restored slides are then to be stored).
    pub fn redo(&mut self) -> (done: bool)
        ensures
            done == (old(self).history.redo_stack@.len() > 0),
            final(self).selected_slide_index == old(self).selected_slide_index,
            match step_spec(
                old(self).history.redo_stack@,
                old(self).history.undo_stack@,
                old(self).editing,
            ) {
                Some((r, u, c)) => final(self).history.undo_stack@ == u
                    && final(self).history.redo_stack@ == r && final(self).editing == c,
                None => final(self).history.undo_stack@ == old(self).history.undo_stack@
                    && final(self).history.redo_stack@ == old(self).history.redo_stack@
                    && final(self).editing == old(self).editing,
            },
            fields_show_selection(*final(self)),
    {
        let done = self.history.redo(&mut self.editing);
        self.load_slide_for_editing();
        done
    }
}

/// The views of the slides of an open presentation.
pub open spec fn open_slides(e: Option<Presentation>) -> Seq<SlideView> {
    match e {
        Some(p) => slides_view(p.slides@),
        None => Seq::empty(),
    }
}

/// `after` is `before` with slide `i` replaced by `s`, the presentation's
/// identity and name unchanged.
pub open spec fn slide_replaced(
    before: Option<Presentation>,
    after: Option<Presentation>,
    i: int,
    s: SlideView,
) -> bool {
    &&& before is Some
    &&& after is Some
    &&& after->0.id@ == before->0.id@
    &&& after->0.name@ == before->0.name@
    &&& open_slides(after) == open_slides(before).update(i, s)
}

/// What converting a slide to another kind of content gives: the empty
/// content of that kind, unless it already is of that kind.
pub open spec fn converted(c: ContentView, kind: ContentKind) -> ContentView {
    match (kind, c) {
        (ContentKind::Text, ContentView::Text { .. }) => c,
        (ContentKind::Image, ContentView::Image { .. }) => c,
        (ContentKind::Video, ContentView::Video { .. }) => c,
        (ContentKind::Text, _) => ContentView::Text { text: Seq::empty() },
        (ContentKind::Image, _) => ContentView::Image { path: Seq::empty() },
        (ContentKind::Video, _) => ContentView::Video { path: Seq::empty() },
    }
}

/// Whether content `c` is of kind `kind`.
pub open spec fn is_kind(c: ContentView, kind: ContentKind) -> bool {
    converted(c, kind) == c
}

/// The kinds of slide content.
#[derive(Clone, Copy, Debug, PartialEq, Eq, Structural)]
pub enum ContentKind {
    Text,
    Image,
    Video,
}

impl Editor {
    /// Sets the group label of slide `index`; a blank label clears it.
    /// Returns whether there is such a slide (whose change is then to be stored).
    pub fn set_slide_group_label(&mut self, index: usize, label: String) -> (changed: bool)
        ensures
            changed == (old(self).editing is Some && index < old(self).editing->0.slides@.len()),
            changed ==> slide_replaced(
                old(self).editing,
                final(self).editing,
                index as int,
                SlideView { group: unless_blank_spec(label@), ..open_slides(old(self).editing)[index as int] },
            ),
            !changed ==> final(self).editing == old(self).editing,
            final(self).selected_slide_index == old(self).selected_slide_index,
    {
        let label_opt = unless_blank(label);
        match &mut self.editing {
            Some(p) => if index < p.slides.len() {
                let ghost before = slides_view(p.slides@);
                let ghost want = unless_blank_spec(label@);
                assert(opt_view(label_opt) == want);
                p.slides[index].group = label_opt;
                assert(slides_view(p.slides@) =~= before.update(
                    index as int,
                    SlideView { group: want, ..before[index as int] },
                ));
                true
            } else {
                false
            },
            None => false,
        }
    }

    /// Mirrors the notes field into the selected slide; blank notes clear them.
    /// Returns whether a slide is selected (whose change is then to be stored).
    pub fn slide_notes_changed(&mut self, notes: String) -> (changed: bool)
        ensures
            final(self).editing_slide_notes@ == notes@,
            changed == current_index_spec(old(self).editing, old(self).selected_slide_index) is Some,
            changed ==> ({
                let i = current_index_spec(old(self).editing, old(self).selected_slide_index)->0;
                slide_replaced(
                    old(self).editing,
                    final(self).editing,
                    i,
                    SlideView { notes: unless_blank_spec(notes@), ..open_slides(old(self).editing)[i] },
                )
            }),
            !changed ==> final(self).editing == old(self).editing,
            final(self).selected_slide_index == old(self).selected_slide_index,
    {
        self.editing_slide_notes = notes.clone();
        match self.current_index() {
            Some(i) => {
                let n = unless_blank(notes);
                match &mut self.editing {
                    Some(p) => {
                        let ghost before = slides_view(p.slides@);
                        p.slides[i].notes = n;
                        assert(slides_view(p.slides@) =~= before.update(
                            i as int,
                            SlideView { notes: unless_blank_spec(notes@), ..before[i as int] },
                        ));
                    },
                    None => {},
                }
                true
            },
            None => false,
        }
    }

    /// Turns the selected slide into empty content of `kind`, unless it
    /// already is of that kind. Returns whether it changed (and is to be stored).
    pub fn convert_slide(&mut self, kind: ContentKind) -> (changed: bool)
        ensures
            changed == (current_index_spec(old(self).editing, old(self).selected_slide_index) is Some
                && !is_kind(
                open_slides(old(self).editing)[current_index_spec(
                    old(self).editing,
                    old(self).selected_slide_index,
                )->0].content,
                kind,
            )),
            changed ==> ({
                let i = current_index_spec(old(self).editing, old(self).selected_slide_index)->0;
                slide_replaced(
                    old(self).editing,
                    final(self).editing,
                    i,
                    SlideView {
                        content: converted(open_slides(old(self).editing)[i].content, kind),
                        ..open_slides(old(self).editing)[i]
                    },
                )
            }),
            !changed ==> final(self).editing == old(self).editing,
            final(self).selected_slide_index == old(self).selected_slide_index,
    {
        match self.current_index() {
            Some(i) => {
                match &mut self.editing {
                    Some(p) => {
                        let ghost before = slides_view(p.slides@);
                        let same = match (kind, &p.slides[i].content) {
                            (ContentKind::Text, SlideContent::Text { .. }) => true,
                            (ContentKind::Image, SlideContent::Image { .. }) => true,
                            (ContentKind::Video, SlideContent::Video { .. }) => true,
                            _ => false,
                        };
                        if same {
                            false
                        } else {
                            let c = match kind {
                                ContentKind::Text => SlideContent::Text { text: String::new() },
                                ContentKind::Image => SlideContent::Image { path: String::new() },
                                ContentKind::Video => SlideContent::Video { path: String::new() },
                            };
                            p.slides[i].content = c;
                            assert(slides_view(p.slides@) =~= before.update(
                                i as int,
                                SlideView {
                                    content: converted(before[i as int].content, kind),
                                    ..before[i as int]
                                },
                            ));
                            true
                        }
                    },
                    None => false,
                }
            },
            None => false,
        }
    }

    /// Gives the selected slide the transition `t` and shows its duration.
    /// Returns whether a slide is selected (whose change is then to be stored).
    pub fn slide_transition_changed(&mut self, t: Transition) -> (changed: bool)
        ensures
            final(self).editing_transition_duration@ == duration_field(Some(t)),
            changed == current_index_spec(old(self).editing, old(self).selected_slide_index) is Some,
            changed ==> ({
                let i = current_index_spec(old(self).editing, old(self).selected_slide_index)->0;
                slide_replaced(
                    old(self).editing,
                    final(self).editing,
                    i,
                    SlideView { transition: t, ..open_slides(old(self).editing)[i] },
                )
            }),
            !changed ==> final(self).editing == old(self).editing,
            final(self).selected_slide_index == old(self).selected_slide_index,
    {
        self.editing_transition_duration = match t.duration() {
            Some(d) => decimal_string(d),
            None => owned("500"),
        };
        match self.current_index() {
            Some(i) => {
                match &mut self.editing {
                    Some(p) => {
                        let ghost before = slides_view(p.slides@);
                        p.slides[i].transition = t;
                        assert(slides_view(p.slides@) =~= before.update(
                            i as int,
                            SlideView { transition: t, ..before[i as int] },
                        ));
                    },
                    None => {},
                }
                true
            },
            None => false,
        }
    }

    /// Mirrors the duration field; when it reads as a whole number of
    /// milliseconds, the selected slide's transition takes that duration.
    pub fn transition_duration_changed(&mut self, s: String)
        ensures
            final(self).editing_transition_duration@ == s@,
            match (
                parse_unsigned(s@, u64::MAX as nat),
                current_index_spec(old(self).editing, old(self).selected_slide_index),
            ) {
                (Some(ms), Some(i)) => slide_replaced(
                    old(self).editing,
                    final(self).editing,
                    i,
                    SlideView {
                        transition: with_duration_spec(
                            open_slides(old(self).editing)[i].transition,
                            ms as u64,
                        ),
                        ..open_slides(old(self).editing)[i]
                    },
                ),
                _ => final(self).editing == old(self).editing,
            },
            final(self).selected_slide_index == old(self).selected_slide_index,
    {
        let parsed = parse_u64(s.as_str());
        self.editing_transition_duration = s;
        match (parsed, self.current_index()) {
            (Some(ms), Some(i)) => {
                match &mut self.editing {
                    Some(p) => {
                        let ghost before = slides_view(p.slides@);
                        let t = p.slides[i].transition.with_duration(ms);
                        p.slides[i].transition = t;
                        assert(slides_view(p.slides@) =~= before.update(
                            i as int,
                            SlideView { transition: t, ..before[i as int] },
                        ));
                    },
                    None => {},
                }
            },
            _ => {},
        }
    }

    /// Records for undo, then writes the text field into the selected slide
    /// when it is a text slide. Returns whether a slide is selected (which is
    /// then to be stored).
    pub fn save_slide_text(&mut self) -> (changed: bool)
        ensures
            changed == current_index_spec(old(self).editing, old(self).selected_slide_index) is Some,
            changed ==> ({
                let i = current_index_spec(old(self).editing, old(self).selected_slide_index)->0;
                let s = open_slides(old(self).editing)[i];
                slide_replaced(
                    old(self).editing,
                    final(self).editing,
                    i,
                    match s.content {
                        ContentView::Text { .. } => SlideView {
                            content: ContentView::Text { text: old(self).editing_slide_text@ },
                            ..s
                        },
                        _ => s,
                    },
                )
            }),
            !changed ==> final(self).editing == old(self).editing,
            final(self).selected_slide_index == old(self).selected_slide_index,
            undo_recorded(old(self).editing, old(self).history, final(self).history),
    {
        self.push_undo();
        match self.current_index() {
            Some(i) => {
                let text = self.editing_slide_text.clone();
                match &mut self.editing {
                    Some(p) => {
                        let ghost before = slides_view(p.slides@);
                        let is_text = match &p.slides[i].content {
                            SlideContent::Text { .. } => true,
                            _ => false,
                        };
                        if is_text {
                            p.slides[i].content = SlideContent::Text { text };
                        }
                        assert(slides_view(p.slides@) =~= before.update(
                            i as int,
                            match before[i as int].content {
                                ContentView::Text { .. } => SlideView {
                                    content: ContentView::Text { text: text@ },
                                    ..before[i as int]
                                },
                                _ => before[i as int],
                            },
                        ));
                    },
                    None => {},
                }
                true
            },
            None => false,
        }
    }

    /// Puts library asset `asset` on the selected slide: an image asset as
    /// image content, a video asset as video content. Returns whether a slide
    /// is selected (whose change is then to be stored).
    pub fn apply_asset(&mut self, asset: &Asset) -> (changed: bool)
        ensures
            changed == current_index_spec(old(self).editing, old(self).selected_slide_index) is Some,
            changed ==> ({
                let i = current_index_spec(old(self).editing, old(self).selected_slide_index)->0;
                slide_replaced(
                    old(self).editing,
                    final(self).editing,
                    i,
                    SlideView {
                        content: match asset.media_type {
                            MediaType::Image => ContentView::Image { path: asset.path@ },
                            MediaType::Video => ContentView::Video { path: asset.path@ },
                        },
                        ..open_slides(old(self).editing)[i]
                    },
                )
            }),
            !changed ==> final(self).editing == old(self).editing,
            final(self).selected_slide_index == old(self).selected_slide_index,
    {
        match self.current_index() {
            Some(i) => {
                let c = match asset.media_type {
                    MediaType::Image => SlideContent::Image { path: asset.path.clone() },
                    MediaType::Video => SlideContent::Video { path: asset.path.clone() },
                };
                match &mut self.editing {
                    Some(p) => {
                        let ghost before = slides_view(p.slides@);
                        let ghost cv = c@;
                        p.slides[i].content = c;
                        assert(slides_view(p.slides@) =~= before.update(
                            i as int,
                            SlideView { content: cv, ..before[i as int] },
                        ));
                    },
                    None => {},
                }
                true
            },
            None => false,
        }
    }

    /// Whether the open presentation may be renamed to the rename field: a
    /// presentation is open and the name is not blank.
    pub fn can_rename(&self) -> (b: bool)
        ensures
            b == (self.editing is Some && trim(self.editing_name@).len() > 0),
    {
        self.editing.is_some() && !is_blank(self.editing_name.as_str())
    }

    /// The open presentation takes the name from the rename field, once the
    /// rename was stored.
    pub fn renamed(&mut self)
        ensures
            match old(self).editing {
                Some(p) => final(self).editing is Some && final(self).editing->0.name@
                    == old(self).editing_name@ && final(self).editing->0.id@ == p.id@
                    && open_slides(final(self).editing) == open_slides(old(self).editing),
                None => final(self).editing is None,
            },
            final(self).selected_slide_index == old(self).selected_slide_index,
    {
        let name = self.editing_name.clone();
        match &mut self.editing {
            Some(p) => {
                p.name = name;
            },
            None => {},
        }
    }

    /// The name for a new presentation, taken out of the dialog field, when it
    /// is not blank; a blank name leaves the field as it is.
    pub fn take_new_presentation_name(&mut self) -> (r: Option<String>)
        ensures
            trim(old(self).new_presentation_name@).len() == 0 ==> r is None
                && final(self).new_presentation_name@ == old(self).new_presentation_name@,
            trim(old(self).new_presentation_name@).len() > 0 ==> r is Some && r->0@ == old(self).new_presentation_name@ && final(self).new_presentation_name@.len() == 0,
            final(self).editing == old(self).editing,
    {
        if is_blank(self.new_presentation_name.as_str()) {
            None
        } else {
            let name = self.new_presentation_name.clone();
            self.new_presentation_name = String::new();
            Some(name)
        }
    }
}

/// Undo brings back what was recorded last: when the undo stack is the one
/// `push_undo` leaves after recording presentation `pv`, undoing makes a
/// presentation equal to `pv` the open one, whatever was open and whatever
/// the redo stack held.
pub proof fn law_undo_restores_recorded(
    before: Seq<Presentation>,
    after: Seq<Presentation>,
    redo: Seq<Presentation>,
    current: Option<Presentation>,
    pv: PresentationView,
)
    requires
        pres_views(after) == recorded_undo(pres_views(before), pv),
    ensures
        step_spec(after, redo, current) matches Some((_, _, Some(x))) && x@ == pv,
{
    let rv = recorded_undo(pres_views(before), pv);
    assert(rv.len() > 0);
    assert(pres_views(after).len() == after.len());
    assert(pres_views(after)[after.len() - 1] == after.last()@);
}

/// The slide ids after a slide was inserted behind `after`: when the new
/// slide `new_id` is not right behind it, it is moved there (or to the end).
/// `None` when no move is needed.
pub fn order_after_insert(ids: &Vec<String>, new_id: &String, after: usize) -> (r: Option<
    Vec<String>,
>)
    ensures
        match r {
            Some(v) => exists|p: int|
                0 <= p < ids@.len() && ids@[p]@ == new_id@ && (forall|m: int|
                    0 <= m < p ==> ids@[m]@ != new_id@) && p != after + 1 && v@ == moved(
                    ids@,
                    p,
                    if after + 1 < ids@.len() - 1 {
                        after + 1
                    } else {
                        ids@.len() - 1
                    },
                ),
            None => forall|p: int|
                0 <= p < ids@.len() && ids@[p]@ == new_id@ && (forall|m: int|
                    0 <= m < p ==> ids@[m]@ != new_id@) ==> p == after + 1,
        },
{
    match position_of(ids, new_id) {
        Some(p) => if after < usize::MAX && p == after + 1 {
            None
        } else {
            let mut v = copy_strings(ids);
            let shorter = ids.len() - 1;
            let target = if after < usize::MAX && after + 1 < shorter {
                after + 1
            } else {
                shorter
            };
            move_item(&mut v, p, target);
            Some(v)
        },
        None => None,
    }
}

/// The slide ids after a slide was duplicated behind `index`: the copy
/// `new_id` is moved right behind the slide it copies (or to the end) when it is
/// elsewhere. `None` when no move is needed.
pub fn order_after_duplicate(ids: &Vec<String>, new_id: &String, index: usize) -> (r: Option<
    Vec<String>,
>)
    ensures
        match r {
            Some(v) => exists|p: int|
                0 <= p < ids@.len() && ids@[p]@ == new_id@ && (forall|m: int|
                    0 <= m < p ==> ids@[m]@ != new_id@) && p != (if index + 1 < ids@.len() - 1 {
                    index + 1
                } else {
                    ids@.len() - 1
                }) && v@ == moved(
                    ids@,
                    p,
                    if index + 1 < ids@.len() - 1 {
                        index + 1
                    } else {
                        ids@.len() - 1
                    },
                ),
            None => forall|p: int|
                0 <= p < ids@.len() && ids@[p]@ == new_id@ && (forall|m: int|
                    0 <= m < p ==> ids@[m]@ != new_id@) ==> p == (if index + 1 < ids@.len() - 1 {
                    index + 1
                } else {
                    ids@.len() - 1
                }),
        },
{
    match position_of(ids, new_id) {
        Some(p) => {
            let last = ids.len() - 1;
            let target = if index < usize::MAX && index + 1 < last {
                index + 1
            } else {
                last
            };
            if p == target {
                None
            } else {
                let mut v = copy_strings(ids);
                move_item(&mut v, p, target);
                Some(v)
            }
        },
        None => None,
    }
}

/// A copy of a list of strings.
pub fn copy_strings(v: &Vec<String>) -> (r: Vec<String>)
    ensures
        r@ == v@,
{
    let mut r: Vec<String> = Vec::new();
    for i in 0..v.len()
        invariant
            r@ == v@.take(i as int),
    {
        r.push(v[i].clone());
        assert(v@.take(i + 1) =~= v@.take(i as int).push(v@[i as int]));
    }
    assert(v@.take(v@.len() as int) =~= v@);
    r
}

/// The ids of `slides`, in order.
pub fn slide_ids(slides: &Vec<Slide>) -> (ids: Vec<String>)
    ensures
        ids@.len() == slides@.len(),
        ids@.map_values(|s: String| s@) == slides@.map_values(|s: Slide| s.id@),
{
    let mut ids: Vec<String> = Vec::new();
    for i in 0..slides.len()
        invariant
            ids@.len() == i,
            forall|k: int| 0 <= k < i ==> (#[trigger] ids@[k])@ == slides@[k].id@,
    {
        ids.push(slides[i].id.clone());
    }
    assert(ids@.map_values(|s: String| s@) =~= slides@.map_values(|s: Slide| s.id@));
    ids
}

} // verus!
