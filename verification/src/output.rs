//! Outputs and the settings panel: naming new outputs, routing content to
//! them, the output window's state, and the limits the settings keep to.
use vstd::prelude::*;
use crate::domain::Transition;
use crate::editor::kind_of;
use crate::numbers::{decimal, lemma_decimal_injective, parse_u16, parse_u32, parse_unsigned, push_decimal};
use crate::text::{chars_of, lowercase, owned, push_str, string_of, to_lowercase, trim, trimmed};

verus! {

/// `s` with every space replaced by an underscore.
pub open spec fn spaces_to_underscores(s: Seq<char>) -> Seq<char> {
    s.map_values(|c: char| if c == ' ' {
        '_'
    } else {
        c
    })
}

/// The identity an output gets from its label: lowercased, spaces made
/// underscores.
pub open spec fn output_id(label: Seq<char>) -> Seq<char> {
    spaces_to_underscores(lowercase(label))
}

/// The identity for the output labelled `label`; see [`output_id`].
pub fn output_id_of(label: &str) -> (id: String)
    ensures
        id@ == output_id(label@),
{
    let lower = to_lowercase(label);
    let cs = chars_of(lower.as_str());
    let mut out: Vec<char> = Vec::new();
    for i in 0..cs.len()
        invariant
            cs@ == lowercase(label@),
            out@ == spaces_to_underscores(cs@.take(i as int)),
    {
        let c = cs[i];
        out.push(if c == ' ' {
            '_'
        } else {
            c
        });
        assert(spaces_to_underscores(cs@.take(i + 1)) =~= spaces_to_underscores(
            cs@.take(i as int),
        ).push(if c == ' ' {
            '_'
        } else {
            c
        }));
    }
    assert(cs@.take(cs@.len() as int) =~= cs@);
    string_of(out.as_slice())
}

/// What an output shows.
#[derive(Debug)]
pub enum OutputContentRoute {
    LiveSlide,
    Stage,
    Blank,
    Mirror { source: String },
}

/// The route that follows `r` when cycling: live slide, stage, blank, and
/// back to the live slide; a mirror goes back to the live slide.
pub open spec fn next_route_spec(r: OutputContentRoute) -> OutputContentRoute {
    match r {
        OutputContentRoute::LiveSlide => OutputContentRoute::Stage,
        OutputContentRoute::Stage => OutputContentRoute::Blank,
        OutputContentRoute::Blank => OutputContentRoute::LiveSlide,
        OutputContentRoute::Mirror { .. } => OutputContentRoute::LiveSlide,
    }
}

/// The route after `r`; see [`next_route_spec`].
pub fn cycle_content(r: &OutputContentRoute) -> (n: OutputContentRoute)
    ensures
        n == next_route_spec(*r),
{
    match r {
        OutputContentRoute::LiveSlide => OutputContentRoute::Stage,
        OutputContentRoute::Stage => OutputContentRoute::Blank,
        OutputContentRoute::Blank => OutputContentRoute::LiveSlide,
        OutputContentRoute::Mirror { .. } => OutputContentRoute::LiveSlide,
    }
}

/// A new output to add, as the add-output form describes it.
#[derive(Debug)]
pub struct NewOutput {
    pub id: String,
    pub label: String,
    /// The stream name of an NDI output; `None` for a window.
    pub ndi_stream: Option<String>,
}

/// The state of the output settings panel and output window.
pub struct OutputState {
    pub new_label: String,
    pub new_ndi_name: String,
    pub settings_open: bool,
    pub settings_status_message: Option<String>,
    pub show_settings: bool,
    /// Whether the output window is open.
    pub window_open: bool,
    pub is_fullscreen: bool,
    pub black_screen: bool,
    pub screen_x: String,
    pub screen_y: String,
}

/// What toggling the black screen asks of the NDI output.
#[derive(Debug, PartialEq, Eq, Structural)]
pub enum BlackScreenAction {
    /// Send black.
    Black,
    /// Send the live slide again.
    SendCurrent,
}

/// The window mode the output window is to take.
#[derive(Debug, PartialEq, Eq, Structural)]
pub enum WindowMode {
    Windowed,
    Fullscreen,
}

impl OutputState {
    /// Opens the settings panel with no status message.
    pub fn open_settings(&mut self)
        ensures
            final(self).settings_open,
            final(self).settings_status_message is None,
    {
        self.settings_open = true;
        self.settings_status_message = None;
    }

    /// Closes the settings panel and clears its status message.
    pub fn close_settings(&mut self)
        ensures
            !final(self).settings_open,
            final(self).settings_status_message is None,
    {
        self.settings_open = false;
        self.settings_status_message = None;
    }

    /// A window output named by the label field (trimmed), with its identity
    /// made from the label; the field is cleared. `None` for a blank label.
    pub fn add_window(&mut self) -> (r: Option<NewOutput>)
        ensures
            trim(old(self).new_label@).len() == 0 ==> r is None && *final(self) == *old(self),
            trim(old(self).new_label@).len() > 0 ==> *final(self) == (OutputState {
                new_label: final(self).new_label,
                ..*old(self)
            }),
            trim(old(self).new_label@).len() > 0 ==> ({
                let label = trim(old(self).new_label@);
                &&& r matches Some(o)
                &&& r->0.label@ == label
                &&& r->0.id@ == output_id(label)
                &&& r->0.ndi_stream is None
                &&& final(self).new_label@.len() == 0
            }),
            final(self).new_ndi_name == old(self).new_ndi_name,
    {
        let label = trimmed(self.new_label.as_str());
        if label.as_str().is_empty() {
            return None;
        }
        let id = output_id_of(label.as_str());
        self.new_label = String::new();
        Some(NewOutput { id, label, ndi_stream: None })
    }

    /// An NDI output named by the label field (trimmed), streaming under the
    /// stream-name field (trimmed) or, when that is blank, under the label; its
    /// identity is made from the label with "_ndi" behind. Both fields are
    /// cleared. `None` for a blank label.
    pub fn add_ndi(&mut self) -> (r: Option<NewOutput>)
        ensures
            trim(old(self).new_label@).len() == 0 ==> r is None && *final(self) == *old(self),
            trim(old(self).new_label@).len() > 0 ==> *final(self) == (OutputState {
                new_label: final(self).new_label,
                new_ndi_name: final(self).new_ndi_name,
                ..*old(self)
            }),
            trim(old(self).new_label@).len() > 0 ==> ({
                let label = trim(old(self).new_label@);
                let stream = if trim(old(self).new_ndi_name@).len() == 0 {
                    label
                } else {
                    trim(old(self).new_ndi_name@)
                };
                &&& r matches Some(o)
                &&& r->0.label@ == label
                &&& r->0.id@ == output_id(label) + "_ndi"@
                &&& r->0.ndi_stream matches Some(s) && s@ == stream
                &&& final(self).new_label@.len() == 0
                &&& final(self).new_ndi_name@.len() == 0
            }),
    {
        let label = trimmed(self.new_label.as_str());
        if label.as_str().is_empty() {
            return None;
        }
        let name = trimmed(self.new_ndi_name.as_str());
        let stream = if name.as_str().is_empty() {
            label.clone()
        } else {
            name
        };
        let mut id = output_id_of(label.as_str());
        push_str(&mut id, "_ndi");
        self.new_label = String::new();
        self.new_ndi_name = String::new();
        Some(NewOutput { id, label, ndi_stream: Some(stream) })
    }

    /// Flips the black screen and says what the NDI output is to send.
    pub fn toggle_black_screen(&mut self) -> (a: BlackScreenAction)
        ensures
            final(self).black_screen == !old(self).black_screen,
            a == if final(self).black_screen {
                BlackScreenAction::Black
            } else {
                BlackScreenAction::SendCurrent
            },
    {
        self.black_screen = !self.black_screen;
        if self.black_screen {
            BlackScreenAction::Black
        } else {
            BlackScreenAction::SendCurrent
        }
    }

    /// Toggles fullscreen of the open output window; `None` when it is closed.
    pub fn toggle_fullscreen(&mut self) -> (m: Option<WindowMode>)
        ensures
            !old(self).window_open ==> m is None && final(self).is_fullscreen == old(
                self,
            ).is_fullscreen,
            old(self).window_open ==> final(self).is_fullscreen == !old(self).is_fullscreen && m
                == Some(
                if final(self).is_fullscreen {
                    WindowMode::Fullscreen
                } else {
                    WindowMode::Windowed
                },
            ),
    {
        if !self.window_open {
            return None;
        }
        if self.is_fullscreen {
            self.is_fullscreen = false;
            Some(WindowMode::Windowed)
        } else {
            self.is_fullscreen = true;
            Some(WindowMode::Fullscreen)
        }
    }

    /// Asks for the output window. `None` when it is open already (it is to
    /// be brought to the front); otherwise it opens, fullscreen when
    /// `auto_fullscreen`, and the mode it opens in is returned.
    pub fn open_window(&mut self, auto_fullscreen: bool) -> (m: Option<WindowMode>)
        ensures
            old(self).window_open ==> m is None && final(self).is_fullscreen == old(
                self,
            ).is_fullscreen && final(self).window_open,
            !old(self).window_open ==> final(self).window_open && final(self).is_fullscreen
                == auto_fullscreen && m == Some(
                if auto_fullscreen {
                    WindowMode::Fullscreen
                } else {
                    WindowMode::Windowed
                },
            ),
            final(self).black_screen == old(self).black_screen,
    {
        if self.window_open {
            return None;
        }
        self.window_open = true;
        self.is_fullscreen = auto_fullscreen;
        if auto_fullscreen {
            Some(WindowMode::Fullscreen)
        } else {
            Some(WindowMode::Windowed)
        }
    }

    /// The output window was closed: it is neither black nor fullscreen.
    /// Returns whether it was open.
    pub fn window_closed(&mut self) -> (was_open: bool)
        ensures
            was_open == old(self).window_open,
            !final(self).window_open,
            was_open ==> !final(self).black_screen && !final(self).is_fullscreen,
            !was_open ==> final(self).black_screen == old(self).black_screen
                && final(self).is_fullscreen == old(self).is_fullscreen,
    {
        if self.window_open {
            self.window_open = false;
            self.black_screen = false;
            self.is_fullscreen = false;
            true
        } else {
            false
        }
    }
}

/// Whether the output `id` may be removed: every output but the main one.
pub fn can_remove_output(id: &str) -> (b: bool)
    ensures
        b == (id@ != "main"@),
{
    !crate::colors::same_text(id, "main")
}

/// `v` kept between `lo` and `hi`.
pub open spec fn clamped(v: int, lo: int, hi: int) -> int {
    if v < lo {
        lo
    } else if v > hi {
        hi
    } else {
        v
    }
}

/// The default transition duration, kept between 50 ms and 5 s.
pub fn clamp_transition_duration(ms: u64) -> (r: u64)
    ensures
        r as int == clamped(ms as int, 50, 5000),
{
    if ms < 50 {
        50
    } else if ms > 5000 {
        5000
    } else {
        ms
    }
}

/// The default number of slide grid columns, kept between 2 and 6.
pub fn clamp_grid_cols(cols: usize) -> (r: usize)
    ensures
        r as int == clamped(cols as int, 2, 6),
{
    if cols < 2 {
        2
    } else if cols > 6 {
        6
    } else {
        cols
    }
}

/// The recording frame rate typed as `s`, kept between 1 and 120; `None`
/// when it does not read as a number.
pub fn fps_changed(s: &str) -> (r: Option<u32>)
    ensures
        match parse_unsigned(s@, u32::MAX as nat) {
            Some(v) => r == Some(clamped(v as int, 1, 120) as u32),
            None => r is None,
        },
{
    match parse_u32(s) {
        Some(v) => Some(if v < 1 {
            1
        } else if v > 120 {
            120
        } else {
            v
        }),
        None => None,
    }
}

/// A trigger port typed as `s`: the trimmed text read as a port number.
pub fn port_from_text(s: &str) -> (r: Option<u16>)
    ensures
        match parse_unsigned(trim(s@), u16::MAX as nat) {
            Some(v) => r == Some(v as u16),
            None => r is None,
        },
{
    let t = trimmed(s);
    parse_u16(t.as_str())
}

/// The name under which the settings store a default transition.
pub open spec fn transition_config_name(t: Transition) -> Seq<char> {
    match t {
        Transition::Cut => "cut"@,
        Transition::Fade { .. } => "fade"@,
        Transition::Push { direction, .. } => "push_"@ + decimal(direction as nat),
        Transition::Wipe { angle_deg, .. } => "wipe_"@ + decimal(angle_deg as nat),
        Transition::Zoom { .. } => "zoom"@,
        Transition::Slide { .. } => "slide"@,
        Transition::Dissolve { .. } => "dissolve"@,
        Transition::Flip { .. } => "flip"@,
        Transition::Clock { .. } => "clock"@,
    }
}

/// Whether the settings button for transition `candidate` shows as selected
/// while `current` is the default: the same kind among cut, fade and zoom,
/// a push in the same direction, or a wipe at the same angle.
pub open spec fn transition_selected(current: Transition, candidate: Transition) -> bool {
    match (current, candidate) {
        (Transition::Cut, Transition::Cut) => true,
        (Transition::Fade { .. }, Transition::Fade { .. }) => true,
        (Transition::Push { direction: d1, .. }, Transition::Push { direction: d2, .. }) => d1 == d2,
        (Transition::Wipe { angle_deg: a1, .. }, Transition::Wipe { angle_deg: a2, .. }) => a1 == a2,
        (Transition::Zoom { .. }, Transition::Zoom { .. }) => true,
        _ => false,
    }
}

/// Whether the settings button for `candidate` is selected; see
/// [`transition_selected`].
pub fn global_transition_selected(current: Transition, candidate: Transition) -> (b: bool)
    ensures
        b == transition_selected(current, candidate),
{
    match (current, candidate) {
        (Transition::Cut, Transition::Cut) => true,
        (Transition::Fade { .. }, Transition::Fade { .. }) => true,
        (Transition::Push { direction: d1, .. }, Transition::Push { direction: d2, .. }) => d1 == d2,
        (Transition::Wipe { angle_deg: a1, .. }, Transition::Wipe { angle_deg: a2, .. }) => a1 == a2,
        (Transition::Zoom { .. }, Transition::Zoom { .. }) => true,
        _ => false,
    }
}

/// The first two characters of the settings name of `t`, which tell its kind.
proof fn lemma_name_start(t: Transition)
    ensures
        ({
            let n = transition_config_name(t);
            &&& n.len() >= 2
            &&& match t {
                Transition::Cut => n[0] == 'c' && n[1] == 'u',
                Transition::Fade { .. } => n[0] == 'f' && n[1] == 'a',
                Transition::Dissolve { .. } => n[0] == 'd' && n[1] == 'i',
                Transition::Slide { .. } => n[0] == 's' && n[1] == 'l',
                Transition::Push { .. } => n[0] == 'p' && n[1] == 'u',
                Transition::Zoom { .. } => n[0] == 'z' && n[1] == 'o',
                Transition::Flip { .. } => n[0] == 'f' && n[1] == 'l',
                Transition::Clock { .. } => n[0] == 'c' && n[1] == 'l',
                Transition::Wipe { .. } => n[0] == 'w' && n[1] == 'i',
            }
        }),
{
    reveal_strlit("cut");
    reveal_strlit("fade");
    reveal_strlit("dissolve");
    reveal_strlit("slide");
    reveal_strlit("push_");
    reveal_strlit("zoom");
    reveal_strlit("flip");
    reveal_strlit("clock");
    reveal_strlit("wipe_");
    let n = transition_config_name(t);
    match t {
        Transition::Push { direction, .. } => {
            assert(n[0] == "push_"@[0] && n[1] == "push_"@[1]);
        },
        Transition::Wipe { angle_deg, .. } => {
            assert(n[0] == "wipe_"@[0] && n[1] == "wipe_"@[1]);
        },
        _ => {},
    }
}

/// The stored name of the default transition tells transitions apart: two
/// transitions stored under the same name are of the same kind, with the
/// same push direction or wipe angle, so reading the name back gives the
/// transition that was chosen.
pub proof fn law_config_names_tell_transitions_apart(a: Transition, b: Transition)
    requires
        transition_config_name(a) == transition_config_name(b),
    ensures
        kind_of(a) == kind_of(b),
        match (a, b) {
            (Transition::Push { direction: d1, .. }, Transition::Push { direction: d2, .. }) => d1
                == d2,
            (Transition::Wipe { angle_deg: a1, .. }, Transition::Wipe { angle_deg: a2, .. }) => a1
                == a2,
            _ => true,
        },
{
    lemma_name_start(a);
    lemma_name_start(b);
    let n = transition_config_name(a);
    let m = transition_config_name(b);
    assert(n[0] == m[0] && n[1] == m[1]);
    reveal_strlit("push_");
    reveal_strlit("wipe_");
    match (a, b) {
        (Transition::Push { direction: d1, .. }, Transition::Push { direction: d2, .. }) => {
            assert(n.skip(5) =~= decimal(d1 as nat));
            assert(m.skip(5) =~= decimal(d2 as nat));
            lemma_decimal_injective(d1 as nat, d2 as nat);
        },
        (Transition::Wipe { angle_deg: a1, .. }, Transition::Wipe { angle_deg: a2, .. }) => {
            assert(n.skip(5) =~= decimal(a1 as nat));
            assert(m.skip(5) =~= decimal(a2 as nat));
            lemma_decimal_injective(a1 as nat, a2 as nat);
        },
        _ => {},
    }
}

/// The settings name of the default transition `t`.
pub fn transition_config_name_of(t: Transition) -> (s: String)
    ensures
        s@ == transition_config_name(t),
{
    match t {
        Transition::Cut => owned("cut"),
        Transition::Fade { .. } => owned("fade"),
        Transition::Push { direction, .. } => {
            let mut s = owned("push_");
            push_decimal(&mut s, direction as u64);
            s
        },
        Transition::Wipe { angle_deg, .. } => {
            let mut s = owned("wipe_");
            push_decimal(&mut s, angle_deg as u64);
            s
        },
        Transition::Zoom { .. } => owned("zoom"),
        Transition::Slide { .. } => owned("slide"),
        Transition::Dissolve { .. } => owned("dissolve"),
        Transition::Flip { .. } => owned("flip"),
        Transition::Clock { .. } => owned("clock"),
    }
}

/// The status message after the NDI frame rate was set.
pub fn ndi_rate_message(fps: u32) -> (s: String)
    ensures
        s@ == "NDI frame rate set to "@ + decimal(fps as nat) + " FPS"@,
{
    let mut s = owned("NDI frame rate set to ");
    push_decimal(&mut s, fps as u64);
    push_str(&mut s, " FPS");
    s
}

/// The listeners that remote triggers arrive on.
#[derive(Clone, Copy, Debug, PartialEq, Eq, Structural)]
pub enum TriggerListener {
    Http,
    Osc,
}

/// The status message after the port of listener `l` was set to `port`.
pub fn port_set_message(l: TriggerListener, port: u16) -> (s: String)
    ensures
        s@ == match l {
            TriggerListener::Http => "HTTP trigger port set to "@,
            TriggerListener::Osc => "OSC listener port set to "@,
        } + decimal(port as nat),
{
    let mut s = match l {
        TriggerListener::Http => owned("HTTP trigger port set to "),
        TriggerListener::Osc => owned("OSC listener port set to "),
    };
    push_decimal(&mut s, port as u64);
    s
}

/// Cycling the content of an output three times from any route other than a
/// mirror comes back to that route; a mirror ends on a blank screen.
pub proof fn law_route_cycle_returns(r: OutputContentRoute)
    ensures
        next_route_spec(next_route_spec(next_route_spec(r))) == match r {
            OutputContentRoute::Mirror { .. } => OutputContentRoute::Blank,
            _ => r,
        },
{
}

} // verus!
