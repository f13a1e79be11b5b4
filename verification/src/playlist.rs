//! Service plans (playlists): editing their items and stepping through them
//! during a service.
use vstd::prelude::*;
use crate::lists::{move_down, move_up, remove_at, swapped};
use crate::numbers::{decimal, push_decimal};
use crate::text::{owned, push_str};

verus! {

/// An entry of a service plan.
#[derive(Debug)]
pub enum PlaylistItem {
    Presentation { id: String, name: String },
    Song { id: String, title: String },
    Header { text: String },
    Blank,
}

/// A service plan entry as plain values.
pub enum ItemView {
    Presentation { id: Seq<char>, name: Seq<char> },
    Song { id: Seq<char>, title: Seq<char> },
    Header { text: Seq<char> },
    Blank,
}

impl View for PlaylistItem {
    type V = ItemView;

    open spec fn view(&self) -> ItemView {
        match self {
            PlaylistItem::Presentation { id, name } => ItemView::Presentation {
                id: id@,
                name: name@,
            },
            PlaylistItem::Song { id, title } => ItemView::Song { id: id@, title: title@ },
            PlaylistItem::Header { text } => ItemView::Header { text: text@ },
            PlaylistItem::Blank => ItemView::Blank,
        }
    }
}

impl PlaylistItem {
    /// A copy of this entry.
    pub fn copy(&self) -> (r: PlaylistItem)
        ensures
            r@ == self@,
    {
        match self {
            PlaylistItem::Presentation { id, name } => PlaylistItem::Presentation {
                id: id.clone(),
                name: name.clone(),
            },
            PlaylistItem::Song { id, title } => PlaylistItem::Song {
                id: id.clone(),
                title: title.clone(),
            },
            PlaylistItem::Header { text } => PlaylistItem::Header { text: text.clone() },
            PlaylistItem::Blank => PlaylistItem::Blank,
        }
    }
}

/// The views of a list of entries.
pub open spec fn items_view(s: Seq<PlaylistItem>) -> Seq<ItemView> {
    s.map_values(|i: PlaylistItem| i@)
}

/// A service plan.
#[derive(Debug)]
pub struct Playlist {
    pub id: String,
    pub name: String,
    pub items: Vec<PlaylistItem>,
}

/// A presentation or song as the lists show it: its id and its name or title.
#[derive(Debug)]
pub struct Entry {
    pub id: String,
    pub name: String,
}

/// The name of the first entry with id `id`, or the empty name.
pub open spec fn name_of(entries: Seq<Entry>, id: Seq<char>) -> Seq<char>
    decreases entries.len(),
{
    if entries.len() == 0 {
        Seq::empty()
    } else if entries[0].id@ == id {
        entries[0].name@
    } else {
        name_of(entries.drop_first(), id)
    }
}

/// The name of the first entry with id `id`, or the empty name.
pub fn lookup_name(entries: &Vec<Entry>, id: &String) -> (r: String)
    ensures
        r@ == name_of(entries@, id@),
{
    let n = entries.len();
    assert(entries@.skip(0) =~= entries@);
    for i in 0..n
        invariant
            n == entries@.len(),
            name_of(entries@, id@) == name_of(entries@.skip(i as int), id@),
    {
        assert(entries@.skip(i as int).drop_first() =~= entries@.skip(i + 1));
        if entries[i].id == *id {
            return entries[i].name.clone();
        }
    }
    String::new()
}

/// What loading a plan entry during a service does.
#[derive(Debug)]
pub enum ItemAction {
    /// Put this presentation on air at its first slide, in show mode.
    ShowPresentation(String),
    /// Open this song for editing.
    OpenSong(String),
    /// Black out the outputs.
    BlackScreen,
    /// Nothing (a header, or no such entry).
    Nothing,
}

/// The action for entry `index` of the running plan.
pub open spec fn item_action_matches(a: ItemAction, item: Option<ItemView>) -> bool {
    match item {
        Some(ItemView::Presentation { id, .. }) => a matches ItemAction::ShowPresentation(i)
            && i@ == id,
        Some(ItemView::Song { id, .. }) => a matches ItemAction::OpenSong(i) && i@ == id,
        Some(ItemView::Blank) => a is BlackScreen,
        _ => a is Nothing,
    }
}

/// The entry `index` of the running plan, if any.
pub open spec fn active_item(active: Option<Playlist>, index: int) -> Option<ItemView> {
    match active {
        Some(p) => if 0 <= index < p.items@.len() {
            Some(p.items@[index]@)
        } else {
            None
        },
        None => None,
    }
}

/// The number of entries of the running plan.
pub open spec fn active_len(active: Option<Playlist>) -> nat {
    match active {
        Some(p) => p.items@.len(),
        None => 0,
    }
}

/// `index` clamped to the entries of a plan of `len` entries.
pub open spec fn clamp_to_len(index: nat, len: nat) -> nat {
    let last = if len > 0 {
        (len - 1) as nat
    } else {
        0
    };
    if index < last {
        index
    } else {
        last
    }
}

/// `b` differs from `a` at most in the entries of the plan being edited: the
/// plan keeps its identity and name, and the name field, pending delete,
/// running plan and current entry stay as they were.
pub open spec fn only_items_change(a: ServiceState, b: ServiceState) -> bool {
    &&& b.name_edit == a.name_edit
    &&& b.to_delete == a.to_delete
    &&& b.active == a.active
    &&& b.item_index == a.item_index
    &&& match a.editing {
        Some(p) => b.editing matches Some(q) && q.id == p.id && q.name == p.name,
        None => b.editing is None,
    }
}

/// Whether the plan being edited is the one running as the service.
pub open spec fn plan_is_live(editing: Option<Playlist>, active: Option<Playlist>) -> bool {
    editing is Some && active is Some && active->0.id@ == editing->0.id@
}

/// The state of the service plan panel.
pub struct ServiceState {
    /// The plan being edited.
    pub editing: Option<Playlist>,
    /// The name field of the plan being edited.
    pub name_edit: String,
    /// The plan waiting for delete confirmation.
    pub to_delete: Option<String>,
    /// The plan running as a service.
    pub active: Option<Playlist>,
    /// The current entry of the running plan.
    pub item_index: usize,
}

impl ServiceState {
    /// No plan open or running.
    pub fn new() -> (s: ServiceState)
        ensures
            s.editing is None,
            s.name_edit@.len() == 0,
            s.to_delete is None,
            s.active is None,
            s.item_index == 0,
    {
        ServiceState {
            editing: None,
            name_edit: String::new(),
            to_delete: None,
            active: None,
            item_index: 0,
        }
    }

    /// Starts a new, empty plan with the identity `id`, named "New Service Plan".
    pub fn new_plan(&mut self, id: String)
        ensures
            final(self).editing matches Some(p) && p.id == id && p.name@ == "New Service Plan"@
                && p.items@.len() == 0,
            final(self).name_edit@ == "New Service Plan"@,
            final(self).to_delete is None,
            final(self).active == old(self).active,
            final(self).item_index == old(self).item_index,
    {
        let plan = Playlist { id, name: owned("New Service Plan"), items: Vec::new() };
        self.name_edit = plan.name.clone();
        self.editing = Some(plan);
        self.to_delete = None;
    }

    /// Opens `plan` for editing.
    pub fn open_plan(&mut self, plan: Playlist)
        ensures
            final(self).name_edit@ == plan.name@,
            final(self).to_delete is None,
            final(self).editing == Some(plan),
            final(self).active == old(self).active,
    {
        self.name_edit = plan.name.clone();
        self.to_delete = None;
        self.editing = Some(plan);
    }

    /// The plan being edited takes the name field, once stored. Returns
    /// whether a plan is being edited.
    pub fn apply_name(&mut self) -> (b: bool)
        ensures
            b == old(self).editing is Some,
            b ==> (final(self).editing matches Some(p) && p.name@ == old(self).name_edit@ && p.id
                == old(self).editing->0.id && p.items == old(self).editing->0.items),
            !b ==> final(self).editing is None,
    {
        let name = self.name_edit.clone();
        match &mut self.editing {
            Some(p) => {
                p.name = name;
                true
            },
            None => false,
        }
    }

    /// After plan `id` was deleted: it is closed in the editor (with the name
    /// field cleared) and stopped when it was running.
    pub fn plan_deleted(&mut self, id: &String)
        ensures
            match old(self).editing {
                Some(p) => if p.id@ == id@ {
                    final(self).editing is None && final(self).name_edit@.len() == 0
                } else {
                    final(self).editing == old(self).editing && final(self).name_edit == old(self).name_edit
                },
                None => final(self).editing is None && final(self).name_edit == old(self).name_edit,
            },
            match old(self).active {
                Some(p) => if p.id@ == id@ {
                    final(self).active is None
                } else {
                    final(self).active == old(self).active
                },
                None => final(self).active is None,
            },
    {
        let edit_matches = match &self.editing {
            Some(p) => p.id == *id,
            None => false,
        };
        if edit_matches {
            self.editing = None;
            self.name_edit = String::new();
        }
        let active_matches = match &self.active {
            Some(p) => p.id == *id,
            None => false,
        };
        if active_matches {
            self.active = None;
        }
    }

    /// Appends `item` to the plan being edited.
    pub fn push_item(&mut self, item: PlaylistItem)
        ensures
            match old(self).editing {
                Some(p) => final(self).editing matches Some(q) && q.id == p.id && q.name == p.name
                    && q.items@ == p.items@.push(item),
                None => final(self).editing is None,
            },
            only_items_change(*old(self), *final(self)),
    {
        match &mut self.editing {
            Some(p) => p.items.push(item),
            None => {},
        }
    }

    /// Adds presentation `id` to the plan, under its name in `presentations`.
    pub fn add_presentation_item(&mut self, id: String, presentations: &Vec<Entry>)
        ensures
            match old(self).editing {
                Some(p) => final(self).editing matches Some(q) && q.id == p.id && items_view(
                    q.items@,
                ) == items_view(p.items@).push(
                    ItemView::Presentation { id: id@, name: name_of(presentations@, id@) },
                ),
                None => final(self).editing is None,
            },
            only_items_change(*old(self), *final(self)),
    {
        let name = lookup_name(presentations, &id);
        let ghost before = self.editing;
        self.push_item(PlaylistItem::Presentation { id, name });
        proof {
            if before is Some {
                assert(items_view(self.editing->0.items@) =~= items_view(before->0.items@).push(
                    ItemView::Presentation { id: id@, name: name_of(presentations@, id@) },
                ));
            }
        }
    }

    /// Adds song `id` to the plan, under its title in `songs`.
    pub fn add_song_item(&mut self, id: String, songs: &Vec<Entry>)
        ensures
            match old(self).editing {
                Some(p) => final(self).editing matches Some(q) && q.id == p.id && items_view(
                    q.items@,
                ) == items_view(p.items@).push(
                    ItemView::Song { id: id@, title: name_of(songs@, id@) },
                ),
                None => final(self).editing is None,
            },
            only_items_change(*old(self), *final(self)),
    {
        let title = lookup_name(songs, &id);
        let ghost before = self.editing;
        self.push_item(PlaylistItem::Song { id, title });
        proof {
            if before is Some {
                assert(items_view(self.editing->0.items@) =~= items_view(before->0.items@).push(
                    ItemView::Song { id: id@, title: name_of(songs@, id@) },
                ));
            }
        }
    }

    /// Sets the text of entry `index` when it is a header.
    pub fn item_header_changed(&mut self, index: usize, text: String)
        ensures
            match old(self).editing {
                Some(p) => final(self).editing matches Some(q) && q.id == p.id && if index
                    < p.items@.len() && p.items@[index as int] is Header {
                    items_view(q.items@) == items_view(p.items@).update(
                        index as int,
                        ItemView::Header { text: text@ },
                    )
                } else {
                    q.items == p.items
                },
                None => final(self).editing is None,
            },
            only_items_change(*old(self), *final(self)),
    {
        match &mut self.editing {
            Some(p) => if index < p.items.len() {
                let is_header = match &p.items[index] {
                    PlaylistItem::Header { .. } => true,
                    _ => false,
                };
                if is_header {
                    let ghost before = p.items@;
                    p.items.set(index, PlaylistItem::Header { text });
                    assert(items_view(p.items@) =~= items_view(before).update(
                        index as int,
                        ItemView::Header { text: text@ },
                    ));
                }
            },
            None => {},
        }
    }

    /// Removes entry `index` of the plan being edited, when it exists.
    pub fn remove_item(&mut self, index: usize)
        ensures
            match old(self).editing {
                Some(p) => final(self).editing matches Some(q) && q.id == p.id && if index
                    < p.items@.len() {
                    q.items@ == p.items@.remove(index as int)
                } else {
                    q.items == p.items
                },
                None => final(self).editing is None,
            },
            only_items_change(*old(self), *final(self)),
    {
        match &mut self.editing {
            Some(p) => {
                remove_at(&mut p.items, index);
            },
            None => {},
        }
    }

    /// Moves entry `index` one place up, when it can.
    pub fn move_item_up(&mut self, index: usize)
        ensures
            match old(self).editing {
                Some(p) => final(self).editing matches Some(q) && q.id == p.id && if 0 < index
                    < p.items@.len() {
                    q.items@ == swapped(p.items@, index - 1, index as int)
                } else {
                    q.items == p.items
                },
                None => final(self).editing is None,
            },
            only_items_change(*old(self), *final(self)),
    {
        match &mut self.editing {
            Some(p) => {
                move_up(&mut p.items, index);
            },
            None => {},
        }
    }

    /// Moves entry `index` one place down, when it can.
    pub fn move_item_down(&mut self, index: usize)
        ensures
            match old(self).editing {
                Some(p) => final(self).editing matches Some(q) && q.id == p.id && if index + 1
                    < p.items@.len() {
                    q.items@ == swapped(p.items@, index as int, index + 1)
                } else {
                    q.items == p.items
                },
                None => final(self).editing is None,
            },
            only_items_change(*old(self), *final(self)),
    {
        match &mut self.editing {
            Some(p) => {
                move_down(&mut p.items, index);
            },
            None => {},
        }
    }

    /// Puts a copy of entry `index` right behind it, when it exists.
    pub fn duplicate_item(&mut self, index: usize)
        ensures
            match old(self).editing {
                Some(p) => final(self).editing matches Some(q) && q.id == p.id && if index
                    < p.items@.len() {
                    items_view(q.items@) == items_view(p.items@).insert(
                        index + 1,
                        p.items@[index as int]@,
                    )
                } else {
                    q.items == p.items
                },
                None => final(self).editing is None,
            },
            only_items_change(*old(self), *final(self)),
    {
        match &mut self.editing {
            Some(p) => if index < p.items.len() {
                let ghost before = p.items@;
                let item = p.items[index].copy();
                p.items.insert(index + 1, item);
                assert(items_view(p.items@) =~= items_view(before).insert(
                    index + 1,
                    before[index as int]@,
                ));
            },
            None => {},
        }
    }

    /// What loading entry `index` of the running plan does.
    pub fn item_action(&self, index: usize) -> (a: ItemAction)
        ensures
            item_action_matches(a, active_item(self.active, index as int)),
    {
        match &self.active {
            Some(p) => if index < p.items.len() {
                match &p.items[index] {
                    PlaylistItem::Presentation { id, .. } => ItemAction::ShowPresentation(
                        id.clone(),
                    ),
                    PlaylistItem::Song { id, .. } => ItemAction::OpenSong(id.clone()),
                    PlaylistItem::Blank => ItemAction::BlackScreen,
                    PlaylistItem::Header { .. } => ItemAction::Nothing,
                }
            } else {
                ItemAction::Nothing
            },
            None => ItemAction::Nothing,
        }
    }

    /// The "LIVE  n/len" label of the plan editor while the plan being edited
    /// runs as the service: the current entry counted from one, over the
    /// number of entries of the edited plan. `None` when it does not run.
    pub fn live_label(&self) -> (r: Option<String>)
        requires
            plan_is_live(self.editing, self.active) ==> self.item_index < usize::MAX,
        ensures
            match r {
                Some(l) => plan_is_live(self.editing, self.active) && l@ == "LIVE  "@ + decimal(
                    self.item_index as nat + 1,
                ) + "/"@ + decimal(self.editing->0.items@.len()),
                None => !plan_is_live(self.editing, self.active),
            },
    {
        match (&self.editing, &self.active) {
            (Some(p), Some(a)) => if a.id == p.id {
                let mut l = owned("LIVE  ");
                push_decimal(&mut l, self.item_index as u64 + 1);
                push_str(&mut l, "/");
                push_decimal(&mut l, p.items.len() as u64);
                Some(l)
            } else {
                None
            },
            _ => None,
        }
    }

    /// Whether entry `i` of the plan editor is marked as the current one: the
    /// edited plan runs as the service and `i` is its current entry.
    pub fn is_current_item(&self, i: usize) -> (b: bool)
        ensures
            b == (plan_is_live(self.editing, self.active) && i == self.item_index),
    {
        match (&self.editing, &self.active) {
            (Some(p), Some(a)) => a.id == p.id && i == self.item_index,
            _ => false,
        }
    }

    /// Starts the plan being edited as a service, at its first entry.
    pub fn start_service(&mut self) -> (a: Option<ItemAction>)
        ensures
            match old(self).editing {
                Some(p) => a is Some && final(self).item_index == 0 && item_action_matches(
                    a->0,
                    active_item(final(self).active, 0),
                ) && (final(self).active matches Some(q) && q.id@ == p.id@ && q.name@ == p.name@
                    && items_view(q.items@) == items_view(p.items@)),
                None => a is None && final(self).active == old(self).active && final(self).item_index == old(self).item_index,
            },
            final(self).editing == old(self).editing,
    {
        match &self.editing {
            Some(p) => {
                let mut items: Vec<PlaylistItem> = Vec::new();
                for i in 0..p.items.len()
                    invariant
                        items@.len() == i,
                        forall|k: int| 0 <= k < i ==> (#[trigger] items@[k])@ == p.items@[k]@,
                {
                    items.push(p.items[i].copy());
                }
                assert(items_view(items@) =~= items_view(p.items@));
                let copy = Playlist { id: p.id.clone(), name: p.name.clone(), items };
                self.active = Some(copy);
                self.item_index = 0;
                Some(self.item_action(0))
            },
            None => None,
        }
    }

    /// Steps to the next entry of the running plan (staying on the last).
    pub fn service_next(&mut self) -> (a: ItemAction)
        ensures
            final(self).item_index == clamp_to_len(
                old(self).item_index as nat + 1,
                active_len(old(self).active),
            ),
            item_action_matches(a, active_item(old(self).active, final(self).item_index as int)),
            final(self).active == old(self).active,
    {
        let cap = match &self.active {
            Some(p) => p.items.len(),
            None => 0,
        };
        let last = if cap > 0 {
            cap - 1
        } else {
            0
        };
        let next = if self.item_index < last {
            self.item_index + 1
        } else {
            last
        };
        self.item_index = next;
        self.item_action(next)
    }

    /// Steps back to the previous entry (staying on the first).
    pub fn service_prev(&mut self) -> (a: ItemAction)
        ensures
            final(self).item_index == if old(self).item_index > 0 {
                (old(self).item_index - 1) as usize
            } else {
                0usize
            },
            item_action_matches(a, active_item(old(self).active, final(self).item_index as int)),
            final(self).active == old(self).active,
    {
        let prev = if self.item_index > 0 {
            self.item_index - 1
        } else {
            0
        };
        self.item_index = prev;
        self.item_action(prev)
    }

    /// Jumps to entry `index`, clamped to the running plan.
    pub fn jump_to_item(&mut self, index: usize) -> (a: ItemAction)
        ensures
            final(self).item_index == clamp_to_len(index as nat, active_len(old(self).active)),
            item_action_matches(a, active_item(old(self).active, final(self).item_index as int)),
            final(self).active == old(self).active,
    {
        let cap = match &self.active {
            Some(p) => p.items.len(),
            None => 0,
        };
        let last = if cap > 0 {
            cap - 1
        } else {
            0
        };
        let idx = if index < last {
            index
        } else {
            last
        };
        self.item_index = idx;
        self.item_action(idx)
    }

    /// Ends the running service.
    pub fn end_service(&mut self)
        ensures
            final(self).active is None,
            final(self).item_index == 0,
            final(self).editing == old(self).editing,
    {
        self.active = None;
        self.item_index = 0;
    }
}

/// During a service the current entry never leaves the plan.
pub proof fn law_jump_stays_in_plan(index: nat, len: nat)
    requires
        len > 0,
    ensures
        clamp_to_len(index, len) < len,
{
}

/// Next then previous returns to the same entry, away from the last.
pub proof fn law_next_then_prev_entry(index: nat, len: nat)
    requires
        index + 1 < len,
    ensures
        ({
            let n = clamp_to_len(index + 1, len);
            (if n > 0 {
                (n - 1) as nat
            } else {
                0nat
            }) == index
        }),
{
}

/// Duplicating an entry and removing the copy gives the plan back.
pub proof fn law_duplicate_then_remove(items: Seq<ItemView>, index: int)
    requires
        0 <= index < items.len(),
    ensures
        items.insert(index + 1, items[index]).remove(index + 1) == items,
{
    assert(items.insert(index + 1, items[index]).remove(index + 1) =~= items);
}

} // verus!
