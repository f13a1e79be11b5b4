//! Slide themes: picking, cycling through and importing them.
use vstd::prelude::*;
use crate::domain::opt_view;
use crate::lists::{first_pos, position_of, strings_view};
use crate::colors::same_text;
use crate::text::{is_blank, trim, trimmed};

verus! {

/// A slide theme as the theme lists use it: its identity and its name.
#[derive(Debug)]
pub struct SlideTheme {
    pub id: String,
    pub name: String,
}

impl SlideTheme {
    /// A theme named `name` with the identity `id`.
    pub fn new(id: String, name: String) -> (t: SlideTheme)
        ensures
            t.id == id,
            t.name == name,
    {
        SlideTheme { id, name }
    }
}

/// The ids of a list of themes.
pub open spec fn theme_ids(ts: Seq<SlideTheme>) -> Seq<Seq<char>> {
    ts.map_values(|t: SlideTheme| t.id@)
}

/// The theme that follows `current` when cycling: the first theme when none
/// or an unknown one is current, the next one otherwise, and none after the
/// last (or when there are no themes).
pub open spec fn cycled(current: Option<Seq<char>>, ids: Seq<Seq<char>>) -> Option<Seq<char>> {
    if ids.len() == 0 {
        None
    } else {
        match current {
            None => Some(ids[0]),
            Some(id) => match first_pos(ids, id) {
                Some(p) => if p + 1 < ids.len() {
                    Some(ids[p + 1])
                } else {
                    None
                },
                None => Some(ids[0]),
            },
        }
    }
}

/// The view of an optional string slice.
pub open spec fn opt_str_view(o: Option<&str>) -> Option<Seq<char>> {
    match o {
        Some(s) => Some(s@),
        None => None,
    }
}

/// The position of the first theme with id `id`.
pub fn position_of_theme(themes: &[SlideTheme], id: &String) -> (r: Option<usize>)
    ensures
        match r {
            Some(p) => p < themes@.len() && first_pos(theme_ids(themes@), id@) == Some(p as int),
            None => first_pos(theme_ids(themes@), id@) is None,
        },
{
    let ghost ids = theme_ids(themes@);
    let n = themes.len();
    assert(ids.skip(0) =~= ids);
    for i in 0..n
        invariant
            n == themes@.len(),
            ids == theme_ids(themes@),
            forall|k: int| 0 <= k < i ==> ids[k] != id@,
            first_pos(ids, id@) == match first_pos(ids.skip(i as int), id@) {
                Some(p) => Some(p + i),
                None => None::<int>,
            },
    {
        assert(ids.skip(i as int).drop_first() =~= ids.skip(i + 1));
        assert(ids.skip(i as int)[0] == ids[i as int]);
        if themes[i].id == *id {
            return Some(i);
        }
    }
    assert(ids.skip(n as int) =~= Seq::<Seq<char>>::empty());
    None
}

/// The theme after `current_id` in `themes`; see [`cycled`].
pub fn cycle_theme(current_id: Option<&str>, themes: &[SlideTheme]) -> (r: Option<String>)
    ensures
        opt_view(r) == cycled(opt_str_view(current_id), theme_ids(themes@)),
{
    if themes.len() == 0 {
        return None;
    }
    match current_id {
        None => Some(themes[0].id.clone()),
        Some(id) => {
            let id = id.to_owned();
            match position_of_theme(themes, &id) {
                Some(idx) => if idx + 1 < themes.len() {
                    Some(themes[idx + 1].id.clone())
                } else {
                    None
                },
                None => Some(themes[0].id.clone()),
            }
        },
    }
}

/// The name of the first theme with id `id`, if any.
pub open spec fn theme_name(themes: Seq<SlideTheme>, id: Seq<char>) -> Option<Seq<char>> {
    match first_pos(theme_ids(themes), id) {
        Some(p) => Some(themes[p].name@),
        None => None,
    }
}

/// What the screen matrix shows for a screen's theme override: the name of
/// the theme, or "(Original Slide Style)" when there is none or it is not in
/// the list.
pub open spec fn override_label(theme_id: Option<Seq<char>>, themes: Seq<SlideTheme>) -> Seq<char> {
    match theme_id {
        Some(id) => match theme_name(themes, id) {
            Some(n) => n,
            None => "(Original Slide Style)"@,
        },
        None => "(Original Slide Style)"@,
    }
}

/// The label of a screen's theme override; see [`override_label`].
pub fn override_label_of(theme_id: Option<&str>, themes: &[SlideTheme]) -> (s: String)
    ensures
        s@ == override_label(opt_str_view(theme_id), themes@),
{
    match theme_id {
        Some(id) => {
            let id = id.to_owned();
            match position_of_theme(themes, &id) {
                Some(p) => themes[p].name.clone(),
                None => "(Original Slide Style)".to_owned(),
            }
        },
        None => "(Original Slide Style)".to_owned(),
    }
}

/// The look the screen matrix shows, among looks with ids `ids`: the one
/// picked in the matrix, else the live one, else the first; `None` when that
/// id is not among the looks, or there are none.
pub open spec fn shown_look(
    picked: Option<Seq<char>>,
    live: Option<Seq<char>>,
    ids: Seq<Seq<char>>,
) -> Option<int> {
    let chosen = match picked {
        Some(p) => Some(p),
        None => match live {
            Some(l) => Some(l),
            None => if ids.len() > 0 {
                Some(ids[0])
            } else {
                None
            },
        },
    };
    match chosen {
        Some(id) => first_pos(ids, id),
        None => None,
    }
}

/// The position of the look the screen matrix shows; see [`shown_look`].
pub fn shown_look_of(picked: Option<&str>, live: Option<&str>, ids: &Vec<String>) -> (r: Option<
    usize,
>)
    ensures
        match r {
            Some(p) => shown_look(opt_str_view(picked), opt_str_view(live), strings_view(ids@))
                == Some(p as int),
            None => shown_look(opt_str_view(picked), opt_str_view(live), strings_view(ids@)) is None,
        },
{
    let chosen: Option<String> = match picked {
        Some(p) => Some(p.to_owned()),
        None => match live {
            Some(l) => Some(l.to_owned()),
            None => if ids.len() > 0 {
                Some(ids[0].clone())
            } else {
                None
            },
        },
    };
    match chosen {
        Some(id) => position_of(ids, &id),
        None => None,
    }
}

/// Whether the matrix's Add button takes the typed look name: it is not
/// blank.
pub fn can_add_look(name: &str) -> (b: bool)
    ensures
        b == (trim(name@).len() > 0),
{
    !is_blank(name)
}

/// Whether the matrix offers to delete a look when `count` looks exist: only
/// while more than one is left.
pub fn can_delete_look(count: usize) -> (b: bool)
    ensures
        b == (count > 1),
{
    count > 1
}

/// Whether the matrix offers to make look `look` live: only when it is not
/// the live look already.
pub fn can_make_live(look: &str, live: Option<&str>) -> (b: bool)
    ensures
        b == (opt_str_view(live) != Some(look@)),
{
    match live {
        Some(l) => !same_text(l, look),
        None => true,
    }
}

/// Picks theme `id`, or unpicks it when it is the picked one.
pub fn toggle_selection(current: Option<String>, id: String) -> (r: Option<String>)
    ensures
        match current {
            Some(c) => if c@ == id@ {
                r is None
            } else {
                r == Some(id)
            },
            None => r == Some(id),
        },
{
    match current {
        Some(c) => if c == id {
            None
        } else {
            Some(id)
        },
        None => Some(id),
    }
}

/// Whether a theme with id `id` is in the list.
pub fn has_theme(themes: &Vec<SlideTheme>, id: &String) -> (b: bool)
    ensures
        b == theme_ids(themes@).contains(id@),
{
    match position_of_theme(themes.as_slice(), id) {
        Some(p) => {
            proof {
                lemma_first_pos_in(theme_ids(themes@), id@);
            }
            true
        },
        None => {
            proof {
                lemma_first_pos_in(theme_ids(themes@), id@);
            }
            false
        },
    }
}

proof fn lemma_first_pos_in(ids: Seq<Seq<char>>, id: Seq<char>)
    ensures
        first_pos(ids, id) is Some <==> ids.contains(id),
        first_pos(ids, id) matches Some(p) ==> 0 <= p < ids.len() && ids[p] == id,
    decreases ids.len(),
{
    if ids.len() > 0 {
        lemma_first_pos_in(ids.drop_first(), id);
        if ids.contains(id) && ids[0] != id {
            let k = choose|k: int| 0 <= k < ids.len() && ids[k] == id;
            assert(ids.drop_first()[k - 1] == id);
        }
        if ids.drop_first().contains(id) {
            let k = choose|k: int| 0 <= k < ids.drop_first().len() && ids.drop_first()[k] == id;
            assert(ids[k + 1] == id);
        }
        if ids[0] == id {
            assert(ids.contains(id));
        }
    }
}

/// `ts` without the themes whose id is `id`, in order.
pub open spec fn without_id(ts: Seq<SlideTheme>, id: Seq<char>) -> Seq<SlideTheme>
    decreases ts.len(),
{
    if ts.len() == 0 {
        ts
    } else {
        let rest = without_id(ts.drop_last(), id);
        if ts.last().id@ == id {
            rest
        } else {
            rest.push(ts.last())
        }
    }
}

/// Removes every theme with id `id`, keeping the order of the others.
pub fn remove_theme(themes: &mut Vec<SlideTheme>, id: &String)
    ensures
        final(themes)@ == without_id(old(themes)@, id@),
{
    let ghost orig = themes@;
    let mut kept: Vec<SlideTheme> = Vec::new();
    let mut rest: Vec<SlideTheme> = Vec::new();
    std::mem::swap(&mut rest, themes);
    let n = rest.len();
    let mut i: usize = 0;
    assert(orig.take(0) =~= Seq::<SlideTheme>::empty());
    while rest.len() > 0
        invariant
            kept@ == without_id(orig.take(i as int), id@),
            rest@ == orig.skip(i as int),
            i <= n,
            n == orig.len(),
        decreases rest@.len(),
    {
        let t = rest.remove(0);
        assert(orig.take(i + 1).drop_last() =~= orig.take(i as int));
        assert(orig.take(i + 1).last() == t);
        if t.id != *id {
            kept.push(t);
        }
        i = i + 1;
        assert(rest@ =~= orig.skip(i as int));
    }
    assert(orig.take(n as int) =~= orig);
    *themes = kept;
}

/// The theme panel: the saved themes, the picked one and the name typed for
/// a new theme.
pub struct ThemeState {
    pub list: Vec<SlideTheme>,
    pub selected_id: Option<String>,
    pub new_theme_name: String,
}

impl ThemeState {
    /// No themes, none picked, no name typed.
    pub fn new() -> (t: ThemeState)
        ensures
            t.list@.len() == 0,
            t.selected_id is None,
            t.new_theme_name@.len() == 0,
    {
        ThemeState { list: Vec::new(), selected_id: None, new_theme_name: String::new() }
    }

    /// Picks theme `id`, or unpicks it when it is the picked one.
    pub fn select_theme(&mut self, id: String)
        ensures
            final(self).selected_id == match old(self).selected_id {
                Some(c) => if c@ == id@ {
                    None
                } else {
                    Some(id)
                },
                None => Some(id),
            },
            final(self).list == old(self).list,
    {
        let cur = self.selected_id.take();
        self.selected_id = toggle_selection(cur, id);
    }

    /// The name a new theme is saved under: the typed name, trimmed; `None`
    /// when it is blank.
    pub fn name_for_new_theme(&self) -> (r: Option<String>)
        ensures
            match r {
                Some(n) => trim(self.new_theme_name@).len() > 0 && n@ == trim(self.new_theme_name@),
                None => trim(self.new_theme_name@).len() == 0,
            },
    {
        let t = trimmed(self.new_theme_name.as_str());
        if t.as_str().is_empty() {
            None
        } else {
            Some(t)
        }
    }

    /// Theme `t` was stored: it joins the list and the name field is cleared.
    pub fn theme_saved(&mut self, t: SlideTheme)
        ensures
            final(self).list@ == old(self).list@.push(t),
            final(self).new_theme_name@.len() == 0,
            final(self).selected_id == old(self).selected_id,
    {
        self.list.push(t);
        self.new_theme_name = String::new();
    }

    /// Theme `id` was applied to the current slide: it becomes the picked
    /// theme when it is in the list. Returns whether it is.
    pub fn theme_applied(&mut self, id: String) -> (found: bool)
        ensures
            found == theme_ids(old(self).list@).contains(id@),
            found ==> final(self).selected_id == Some(id),
            !found ==> final(self).selected_id == old(self).selected_id,
            final(self).list == old(self).list,
    {
        if has_theme(&self.list, &id) {
            self.selected_id = Some(id);
            true
        } else {
            false
        }
    }

    /// Whether an imported theme with id `id` is new to the list (themes
    /// whose id is already listed are passed over).
    pub fn is_new_theme(&self, id: &String) -> (b: bool)
        ensures
            b == !theme_ids(self.list@).contains(id@),
    {
        !has_theme(&self.list, id)
    }

    /// Theme `id` was deleted from the store: it leaves the list, and the
    /// pick when it was picked.
    pub fn theme_deleted(&mut self, id: &String)
        ensures
            final(self).list@ == without_id(old(self).list@, id@),
            final(self).selected_id == match old(self).selected_id {
                Some(c) => if c@ == id@ {
                    None
                } else {
                    Some(c)
                },
                None => None,
            },
    {
        remove_theme(&mut self.list, id);
        let clear = match &self.selected_id {
            Some(c) => *c == *id,
            None => false,
        };
        if clear {
            self.selected_id = None;
        }
    }
}

/// Removing a theme leaves no theme with that id behind.
pub proof fn law_removed_theme_is_gone(ts: Seq<SlideTheme>, id: Seq<char>)
    ensures
        forall|k: int| 0 <= k < without_id(ts, id).len() ==> (#[trigger] without_id(ts, id)[k]).id@ != id,
    decreases ts.len(),
{
    if ts.len() > 0 {
        law_removed_theme_is_gone(ts.drop_last(), id);
        let rest = without_id(ts.drop_last(), id);
        if ts.last().id@ != id {
            assert forall|k: int| 0 <= k < rest.push(ts.last()).len() implies (#[trigger] rest.push(
                ts.last(),
            )[k]).id@ != id by {
                if k < rest.len() {
                    assert(rest.push(ts.last())[k] == rest[k]);
                }
            }
        }
    }
}

/// Cycling from no theme starts at the first; cycling never invents a theme.
pub proof fn law_cycle_stays_in_list(current: Option<Seq<char>>, ids: Seq<Seq<char>>)
    ensures
        current is None && ids.len() > 0 ==> cycled(current, ids) == Some(ids[0]),
        cycled(current, ids) matches Some(n) ==> ids.contains(n),
{
    if ids.len() > 0 {
        assert(ids.contains(ids[0]));
        if let Some(id) = current {
            lemma_first_pos_in(ids, id);
            if let Some(p) = first_pos(ids, id) {
                if p + 1 < ids.len() {
                    assert(ids.contains(ids[p + 1]));
                }
            }
        }
    }
}

} // verus!
