//! The secondary windows: their titles, the shared delete-confirmation
//! dialog, and what closing each window does.
use vstd::prelude::*;
use crate::playlist::Entry;
use crate::text::owned;

verus! {

/// The windows that are open, by id; the main window always is.
pub struct WindowIds {
    pub main: u64,
    pub output: Option<u64>,
    pub delete_confirm: Option<u64>,
    pub new_presentation: Option<u64>,
    pub shortcuts: Option<u64>,
}

/// The title of window `id`.
pub open spec fn title_spec(w: WindowIds, id: u64) -> Seq<char> {
    if w.output == Some(id) {
        "OpenPresenter \u{2014} Output"@
    } else if w.delete_confirm == Some(id) {
        "Confirm Delete"@
    } else if w.new_presentation == Some(id) {
        "New Presentation"@
    } else if w.shortcuts == Some(id) {
        "Keyboard Shortcuts"@
    } else {
        "OpenPresenter"@
    }
}

/// What closing a window leads to.
#[derive(Debug, PartialEq, Eq, Structural)]
pub enum CloseAction {
    /// The output window closes; it is no longer black or fullscreen.
    CloseOutput,
    /// The delete dialog closed; every pending delete is dropped.
    DeleteDialogClosed,
    /// The new-presentation dialog closed; its name field is cleared.
    NewPresentationClosed,
    /// The shortcuts window closed.
    ShortcutsClosed,
    /// The main window closed: the application exits.
    Exit,
    /// Some other window.
    Nothing,
}

/// Which window `id` is, in the order the checks are made.
pub open spec fn close_action_spec(w: WindowIds, id: u64) -> CloseAction {
    if w.output == Some(id) {
        CloseAction::CloseOutput
    } else if w.delete_confirm == Some(id) {
        CloseAction::DeleteDialogClosed
    } else if w.new_presentation == Some(id) {
        CloseAction::NewPresentationClosed
    } else if w.shortcuts == Some(id) {
        CloseAction::ShortcutsClosed
    } else if w.main == id {
        CloseAction::Exit
    } else {
        CloseAction::Nothing
    }
}

impl WindowIds {
    /// Only the main window is open.
    pub fn new(main: u64) -> (w: WindowIds)
        ensures
            w.main == main,
            w.output is None,
            w.delete_confirm is None,
            w.new_presentation is None,
            w.shortcuts is None,
    {
        WindowIds {
            main,
            output: None,
            delete_confirm: None,
            new_presentation: None,
            shortcuts: None,
        }
    }

    /// The title of window `id`; see [`title_spec`].
    pub fn title(&self, id: u64) -> (t: String)
        ensures
            t@ == title_spec(*self, id),
    {
        if self.output == Some(id) {
            owned("OpenPresenter \u{2014} Output")
        } else if self.delete_confirm == Some(id) {
            owned("Confirm Delete")
        } else if self.new_presentation == Some(id) {
            owned("New Presentation")
        } else if self.shortcuts == Some(id) {
            owned("Keyboard Shortcuts")
        } else {
            owned("OpenPresenter")
        }
    }

    /// Window `id` was closed: it is forgotten, and the action says what else
    /// follows.
    pub fn window_closed(&mut self, id: u64) -> (a: CloseAction)
        ensures
            a == close_action_spec(*old(self), id),
            a == CloseAction::CloseOutput ==> final(self).output is None,
            a == CloseAction::DeleteDialogClosed ==> final(self).delete_confirm is None,
            a == CloseAction::NewPresentationClosed ==> final(self).new_presentation is None,
            a == CloseAction::ShortcutsClosed ==> final(self).shortcuts is None,
            final(self).main == old(self).main,
    {
        if self.output == Some(id) {
            self.output = None;
            CloseAction::CloseOutput
        } else if self.delete_confirm == Some(id) {
            self.delete_confirm = None;
            CloseAction::DeleteDialogClosed
        } else if self.new_presentation == Some(id) {
            self.new_presentation = None;
            CloseAction::NewPresentationClosed
        } else if self.shortcuts == Some(id) {
            self.shortcuts = None;
            CloseAction::ShortcutsClosed
        } else if self.main == id {
            CloseAction::Exit
        } else {
            CloseAction::Nothing
        }
    }
}

/// What a delete request refers to.
#[derive(Clone, Copy, Debug, PartialEq, Eq, Structural)]
pub enum DeleteTarget {
    Presentation,
    Song,
    Playlist,
}

/// The delete-confirmation dialog and the items waiting for it.
pub struct DeleteDialog {
    pub window: Option<u64>,
    pub show: bool,
    pub presentation: Option<String>,
    pub song: Option<String>,
    pub playlist: Option<String>,
}

/// What asking to delete something does.
#[derive(Debug, PartialEq, Eq, Structural)]
pub enum DialogRequest {
    /// The dialog is already open: bring this window to the front.
    Focus(u64),
    /// Open the dialog window (and report its id with `opened`).
    Open,
}

/// What the confirmation dialog asks.
#[derive(Debug)]
pub struct DeletePrompt {
    /// "Presentation", "Song", "Service Plan" or "Item".
    pub kind: String,
    /// The name of the item, or a stand-in when it is not listed.
    pub name: String,
    /// What confirming deletes; `None` only cancels.
    pub confirm: Option<DeleteTarget>,
}

/// The name of the first entry with id `id`.
pub open spec fn find_name(entries: Seq<Entry>, id: Seq<char>) -> Option<Seq<char>>
    decreases entries.len(),
{
    if entries.len() == 0 {
        None
    } else if entries[0].id@ == id {
        Some(entries[0].name@)
    } else {
        find_name(entries.drop_first(), id)
    }
}

/// The name of the first entry with id `id`, if any.
pub fn find_name_of(entries: &Vec<Entry>, id: &String) -> (r: Option<String>)
    ensures
        match r {
            Some(n) => find_name(entries@, id@) == Some(n@),
            None => find_name(entries@, id@) is None,
        },
{
    let n = entries.len();
    assert(entries@.skip(0) =~= entries@);
    for i in 0..n
        invariant
            n == entries@.len(),
            find_name(entries@, id@) == find_name(entries@.skip(i as int), id@),
    {
        assert(entries@.skip(i as int).drop_first() =~= entries@.skip(i + 1));
        if entries[i].id == *id {
            return Some(entries[i].name.clone());
        }
    }
    assert(entries@.skip(n as int) =~= Seq::<Entry>::empty());
    None
}

/// The name shown for `found`, or the stand-in `fallback`.
pub open spec fn name_or(found: Option<Seq<char>>, fallback: Seq<char>) -> Seq<char> {
    match found {
        Some(n) => n,
        None => fallback,
    }
}

impl DeleteDialog {
    /// No dialog, nothing pending.
    pub fn new() -> (d: DeleteDialog)
        ensures
            d.window is None,
            !d.show,
            d.presentation is None,
            d.song is None,
            d.playlist is None,
    {
        DeleteDialog { window: None, show: false, presentation: None, song: None, playlist: None }
    }

    /// Asks to delete item `id` of kind `target`: the item is remembered as
    /// the one that confirming deletes, and the dialog is brought to the
    /// front when it is open, or is to be opened (and is shown) otherwise.
    pub fn request(&mut self, target: DeleteTarget, id: String) -> (r: DialogRequest)
        ensures
            match target {
                DeleteTarget::Presentation => final(self).presentation == Some(id)
                    && final(self).song == old(self).song && final(self).playlist == old(
                    self,
                ).playlist,
                DeleteTarget::Song => final(self).song == Some(id) && final(self).presentation
                    == old(self).presentation && final(self).playlist == old(self).playlist,
                DeleteTarget::Playlist => final(self).playlist == Some(id)
                    && final(self).presentation == old(self).presentation && final(self).song
                    == old(self).song,
            },
            match old(self).window {
                Some(w) => r == DialogRequest::Focus(w) && final(self).show == old(self).show,
                None => r == DialogRequest::Open && final(self).show,
            },
            final(self).window == old(self).window,
    {
        match target {
            DeleteTarget::Presentation => self.presentation = Some(id),
            DeleteTarget::Song => self.song = Some(id),
            DeleteTarget::Playlist => self.playlist = Some(id),
        }
        match self.window {
            Some(w) => DialogRequest::Focus(w),
            None => {
                self.show = true;
                DialogRequest::Open
            },
        }
    }

    /// The dialog window `id` opened.
    pub fn opened(&mut self, id: u64)
        ensures
            final(self).window == Some(id),
            final(self).show == old(self).show,
            final(self).presentation == old(self).presentation,
    {
        self.window = Some(id);
    }

    /// Closes the dialog: not shown, no presentation pending; returns the
    /// window to close, if one is open.
    pub fn close(&mut self) -> (w: Option<u64>)
        ensures
            w == old(self).window,
            final(self).window is None,
            !final(self).show,
            final(self).presentation is None,
            final(self).song == old(self).song,
            final(self).playlist == old(self).playlist,
    {
        self.show = false;
        self.presentation = None;
        self.window.take()
    }

    /// The dialog window was closed by the user: every pending delete is
    /// dropped.
    pub fn dismissed(&mut self)
        ensures
            final(self).window is None,
            !final(self).show,
            final(self).presentation is None,
            final(self).song is None,
            final(self).playlist is None,
    {
        self.window = None;
        self.show = false;
        self.presentation = None;
        self.song = None;
        self.playlist = None;
    }

    /// What the dialog asks: about the pending presentation first, then the
    /// pending song, then the pending plan, each by its listed name.
    pub fn prompt(&self, presentations: &Vec<Entry>, songs: &Vec<Entry>, plans: &Vec<Entry>) -> (p:
        DeletePrompt)
        ensures
            match (self.presentation, self.song, self.playlist) {
                (Some(id), _, _) => p.kind@ == "Presentation"@ && p.name@ == name_or(
                    find_name(presentations@, id@),
                    "this presentation"@,
                ) && p.confirm == Some(DeleteTarget::Presentation),
                (None, Some(id), _) => p.kind@ == "Song"@ && p.name@ == name_or(
                    find_name(songs@, id@),
                    "this song"@,
                ) && p.confirm == Some(DeleteTarget::Song),
                (None, None, Some(id)) => p.kind@ == "Service Plan"@ && p.name@ == name_or(
                    find_name(plans@, id@),
                    "this plan"@,
                ) && p.confirm == Some(DeleteTarget::Playlist),
                (None, None, None) => p.kind@ == "Item"@ && p.name@ == "this item"@
                    && p.confirm is None,
            },
    {
        match (&self.presentation, &self.song, &self.playlist) {
            (Some(id), _, _) => DeletePrompt {
                kind: owned("Presentation"),
                name: match find_name_of(presentations, id) {
                    Some(n) => n,
                    None => owned("this presentation"),
                },
                confirm: Some(DeleteTarget::Presentation),
            },
            (None, Some(id), _) => DeletePrompt {
                kind: owned("Song"),
                name: match find_name_of(songs, id) {
                    Some(n) => n,
                    None => owned("this song"),
                },
                confirm: Some(DeleteTarget::Song),
            },
            (None, None, Some(id)) => DeletePrompt {
                kind: owned("Service Plan"),
                name: match find_name_of(plans, id) {
                    Some(n) => n,
                    None => owned("this plan"),
                },
                confirm: Some(DeleteTarget::Playlist),
            },
            (None, None, None) => DeletePrompt {
                kind: owned("Item"),
                name: owned("this item"),
                confirm: None,
            },
        }
    }
}

} // verus!
