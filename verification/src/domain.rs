//! The parts of presentations, slides and layers that the editor and the
//! presenter decide on: identities, order, grouping, transitions and the
//! z-order of layers. Geometry and styling stay with the renderer.
use vstd::prelude::*;

verus! {

/// How the output moves from one slide to the next.
#[derive(Clone, Copy, Debug, PartialEq, Eq, Structural)]
pub enum Transition {
    Cut,
    Fade { duration_ms: u64 },
    Dissolve { duration_ms: u64 },
    Slide { duration_ms: u64 },
    /// A push; `direction` 0 pushes to the left, 1 to the right.
    Push { duration_ms: u64, direction: u8 },
    Zoom { duration_ms: u64 },
    Flip { duration_ms: u64 },
    Clock { duration_ms: u64 },
    Wipe { duration_ms: u64, angle_deg: u32 },
}

/// The duration of `t` in milliseconds; a cut has none.
pub open spec fn transition_duration(t: Transition) -> Option<u64> {
    match t {
        Transition::Cut => None,
        Transition::Fade { duration_ms } => Some(duration_ms),
        Transition::Dissolve { duration_ms } => Some(duration_ms),
        Transition::Slide { duration_ms } => Some(duration_ms),
        Transition::Push { duration_ms, .. } => Some(duration_ms),
        Transition::Zoom { duration_ms } => Some(duration_ms),
        Transition::Flip { duration_ms } => Some(duration_ms),
        Transition::Clock { duration_ms } => Some(duration_ms),
        Transition::Wipe { duration_ms, .. } => Some(duration_ms),
    }
}

/// `t` with its duration replaced by `ms`; a cut stays a cut.
pub open spec fn with_duration_spec(t: Transition, ms: u64) -> Transition {
    match t {
        Transition::Cut => Transition::Cut,
        Transition::Fade { .. } => Transition::Fade { duration_ms: ms },
        Transition::Dissolve { .. } => Transition::Dissolve { duration_ms: ms },
        Transition::Slide { .. } => Transition::Slide { duration_ms: ms },
        Transition::Push { direction, .. } => Transition::Push { duration_ms: ms, direction },
        Transition::Zoom { .. } => Transition::Zoom { duration_ms: ms },
        Transition::Flip { .. } => Transition::Flip { duration_ms: ms },
        Transition::Clock { .. } => Transition::Clock { duration_ms: ms },
        Transition::Wipe { angle_deg, .. } => Transition::Wipe { duration_ms: ms, angle_deg },
    }
}

impl Transition {
    /// The duration in milliseconds, `None` for a cut.
    pub fn duration(&self) -> (r: Option<u64>)
        ensures
            r == transition_duration(*self),
    {
        match *self {
            Transition::Cut => None,
            Transition::Fade { duration_ms } => Some(duration_ms),
            Transition::Dissolve { duration_ms } => Some(duration_ms),
            Transition::Slide { duration_ms } => Some(duration_ms),
            Transition::Push { duration_ms, .. } => Some(duration_ms),
            Transition::Zoom { duration_ms } => Some(duration_ms),
            Transition::Flip { duration_ms } => Some(duration_ms),
            Transition::Clock { duration_ms } => Some(duration_ms),
            Transition::Wipe { duration_ms, .. } => Some(duration_ms),
        }
    }

    /// The same kind of transition lasting `ms` milliseconds.
    pub fn with_duration(self, ms: u64) -> (r: Transition)
        ensures
            r == with_duration_spec(self, ms),
    {
        match self {
            Transition::Cut => Transition::Cut,
            Transition::Fade { .. } => Transition::Fade { duration_ms: ms },
            Transition::Dissolve { .. } => Transition::Dissolve { duration_ms: ms },
            Transition::Slide { .. } => Transition::Slide { duration_ms: ms },
            Transition::Push { direction, .. } => Transition::Push { duration_ms: ms, direction },
            Transition::Zoom { .. } => Transition::Zoom { duration_ms: ms },
            Transition::Flip { .. } => Transition::Flip { duration_ms: ms },
            Transition::Clock { .. } => Transition::Clock { duration_ms: ms },
            Transition::Wipe { angle_deg, .. } => Transition::Wipe { duration_ms: ms, angle_deg },
        }
    }

    /// Whether this is a cut (no animation).
    pub fn is_cut(&self) -> (b: bool)
        ensures
            b == (*self is Cut),
    {
        match *self {
            Transition::Cut => true,
            _ => false,
        }
    }
}

/// What a slide shows.
#[derive(Debug)]
pub enum SlideContent {
    Text { text: String },
    Image { path: String },
    Video { path: String },
}

/// One slide object (layer); only its stacking and state flags are modelled.
#[derive(Clone, Copy, Debug, PartialEq, Eq, Structural)]
pub struct Layer {
    pub z_order: i32,
    pub visible: bool,
    pub locked: bool,
}

/// A slide of a presentation.
#[derive(Debug)]
pub struct Slide {
    pub id: String,
    pub group: Option<String>,
    pub notes: Option<String>,
    pub transition: Transition,
    pub content: SlideContent,
    pub layers: Vec<Layer>,
}

/// A presentation: a named, ordered list of slides.
#[derive(Debug)]
pub struct Presentation {
    pub id: String,
    pub name: String,
    pub slides: Vec<Slide>,
}

/// The content of a slide as plain values.
pub enum ContentView {
    Text { text: Seq<char> },
    Image { path: Seq<char> },
    Video { path: Seq<char> },
}

/// A slide as plain values.
pub struct SlideView {
    pub id: Seq<char>,
    pub group: Option<Seq<char>>,
    pub notes: Option<Seq<char>>,
    pub transition: Transition,
    pub content: ContentView,
    pub layers: Seq<Layer>,
}

/// A presentation as plain values.
pub struct PresentationView {
    pub id: Seq<char>,
    pub name: Seq<char>,
    pub slides: Seq<SlideView>,
}

/// The text of an optional string.
pub open spec fn opt_view(o: Option<String>) -> Option<Seq<char>> {
    match o {
        Some(s) => Some(s@),
        None => None,
    }
}

impl View for SlideContent {
    type V = ContentView;

    open spec fn view(&self) -> ContentView {
        match self {
            SlideContent::Text { text } => ContentView::Text { text: text@ },
            SlideContent::Image { path } => ContentView::Image { path: path@ },
            SlideContent::Video { path } => ContentView::Video { path: path@ },
        }
    }
}

impl View for Slide {
    type V = SlideView;

    open spec fn view(&self) -> SlideView {
        SlideView {
            id: self.id@,
            group: opt_view(self.group),
            notes: opt_view(self.notes),
            transition: self.transition,
            content: self.content@,
            layers: self.layers@,
        }
    }
}

/// The views of a list of slides.
pub open spec fn slides_view(ss: Seq<Slide>) -> Seq<SlideView> {
    ss.map_values(|s: Slide| s@)
}

impl View for Presentation {
    type V = PresentationView;

    open spec fn view(&self) -> PresentationView {
        PresentationView { id: self.id@, name: self.name@, slides: slides_view(self.slides@) }
    }
}

/// A copy of `o`.
pub fn copy_opt_string(o: &Option<String>) -> (r: Option<String>)
    ensures
        r == *o,
{
    match o {
        Some(s) => Some(s.clone()),
        None => None,
    }
}

impl SlideContent {
    /// A copy of this content.
    pub fn copy(&self) -> (r: SlideContent)
        ensures
            r@ == self@,
    {
        match self {
            SlideContent::Text { text } => SlideContent::Text { text: text.clone() },
            SlideContent::Image { path } => SlideContent::Image { path: path.clone() },
            SlideContent::Video { path } => SlideContent::Video { path: path.clone() },
        }
    }
}

/// A copy of the layers `ls`.
pub fn copy_layers(ls: &Vec<Layer>) -> (r: Vec<Layer>)
    ensures
        r@ == ls@,
{
    let mut r: Vec<Layer> = Vec::new();
    for i in 0..ls.len()
        invariant
            r@ == ls@.take(i as int),
    {
        r.push(ls[i]);
        assert(ls@.take(i + 1) =~= ls@.take(i as int).push(ls@[i as int]));
    }
    assert(ls@.take(ls@.len() as int) =~= ls@);
    r
}

impl Slide {
    /// A copy of this slide, identity included.
    pub fn copy(&self) -> (r: Slide)
        ensures
            r@ == self@,
    {
        Slide {
            id: self.id.clone(),
            group: copy_opt_string(&self.group),
            notes: copy_opt_string(&self.notes),
            transition: self.transition,
            content: self.content.copy(),
            layers: copy_layers(&self.layers),
        }
    }

    /// A new, empty text slide with the given identity.
    pub fn new_text(id: String) -> (r: Slide)
        ensures
            r@ == (SlideView {
                id: id@,
                group: None,
                notes: None,
                transition: Transition::Cut,
                content: ContentView::Text { text: Seq::empty() },
                layers: Seq::empty(),
            }),
    {
        Slide {
            id,
            group: None,
            notes: None,
            transition: Transition::Cut,
            content: SlideContent::Text { text: String::new() },
            layers: Vec::new(),
        }
    }
}

/// A copy of the slides `ss`.
pub fn copy_slides(ss: &Vec<Slide>) -> (r: Vec<Slide>)
    ensures
        slides_view(r@) == slides_view(ss@),
{
    let mut r: Vec<Slide> = Vec::new();
    for i in 0..ss.len()
        invariant
            r@.len() == i,
            forall|k: int| 0 <= k < i ==> (#[trigger] r@[k])@ == ss@[k]@,
    {
        let c = ss[i].copy();
        r.push(c);
    }
    assert(slides_view(r@) =~= slides_view(ss@));
    r
}

impl Presentation {
    /// A copy of this presentation.
    pub fn copy(&self) -> (r: Presentation)
        ensures
            r@ == self@,
    {
        Presentation {
            id: self.id.clone(),
            name: self.name.clone(),
            slides: copy_slides(&self.slides),
        }
    }
}

/// The view of an optional presentation.
pub open spec fn opt_pres_view(p: Option<Presentation>) -> Option<PresentationView> {
    match p {
        Some(p) => Some(p@),
        None => None,
    }
}

} // verus!
