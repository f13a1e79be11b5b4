//! The song editor: song details, its verses and their order, and turning a
//! song into a presentation.
use vstd::prelude::*;
use crate::domain::{ContentView, Slide, SlideContent, SlideView, Transition, opt_view, slides_view};
use crate::ids::{is_uuid_text, new_id};
use crate::lists::{move_down, move_up, remove_at, swapped};
use crate::numbers::{decimal, parse_u32, parse_unsigned, push_decimal};
use crate::text::{non_empty, non_empty_spec, owned, trim, trimmed};

verus! {

/// A verse (or chorus, bridge, …) of a song.
#[derive(Debug)]
pub struct Verse {
    pub label: String,
    pub content: String,
    pub order_index: usize,
}

/// A song with its details and verses.
#[derive(Debug)]
pub struct Song {
    pub id: String,
    pub title: String,
    pub artist: Option<String>,
    pub copyright: Option<String>,
    pub ccli_number: Option<String>,
    pub key_signature: Option<String>,
    pub bpm: Option<u32>,
    pub verses: Vec<Verse>,
}

/// The label suggested for a new verse when `existing` verses exist: the
/// usual verse, chorus, verse, chorus, bridge order, then numbered verses.
pub open spec fn verse_label(existing: nat) -> Seq<char> {
    if existing == 0 {
        "Verse 1"@
    } else if existing == 1 {
        "Chorus 1"@
    } else if existing == 2 {
        "Verse 2"@
    } else if existing == 3 {
        "Chorus 2"@
    } else if existing == 4 {
        "Bridge"@
    } else {
        "Verse "@ + decimal(existing)
    }
}

/// The label for the next verse of a song that has `existing` verses.
pub fn next_verse_label(existing: usize) -> (r: String)
    ensures
        r@ == verse_label(existing as nat),
{
    match existing {
        0 => owned("Verse 1"),
        1 => owned("Chorus 1"),
        2 => owned("Verse 2"),
        3 => owned("Chorus 2"),
        4 => owned("Bridge"),
        n => {
            let mut s = owned("Verse ");
            push_decimal(&mut s, n as u64);
            s
        },
    }
}

/// Whether every verse's order index is its position.
pub open spec fn numbered(vs: Seq<Verse>) -> bool {
    forall|i: int| 0 <= i < vs.len() ==> (#[trigger] vs[i]).order_index == i
}

/// `a` and `b` hold the same verses in the same order, whatever their
/// order indexes say.
pub open spec fn same_verses(a: Seq<Verse>, b: Seq<Verse>) -> bool {
    &&& a.len() == b.len()
    &&& forall|i: int| 0 <= i < a.len() ==> (#[trigger] a[i]).label == b[i].label && a[i].content == b[i].content
}

/// `a` and `b` hold verses with the same labels and contents in the same
/// order, by their text.
pub open spec fn verses_match(a: Seq<Verse>, b: Seq<Verse>) -> bool {
    &&& a.len() == b.len()
    &&& forall|i: int| 0 <= i < a.len() ==> (#[trigger] a[i]).label@ == b[i].label@ && a[i].content@ == b[i].content@
}

/// Sets every verse's order index to its position.
pub fn renumber(vs: &mut Vec<Verse>)
    ensures
        numbered(final(vs)@),
        same_verses(final(vs)@, old(vs)@),
{
    let n = vs.len();
    for i in 0..n
        invariant
            n == vs@.len(),
            same_verses(vs@, old(vs)@),
            forall|k: int| 0 <= k < i ==> (#[trigger] vs@[k]).order_index == k,
    {
        vs[i].order_index = i;
    }
}

/// The state of the song editor.
pub struct SongState {
    pub editing: Option<Song>,
    pub edit_title: String,
    pub edit_artist: String,
    pub edit_copyright: String,
    pub edit_ccli: String,
    pub edit_key: String,
    pub edit_bpm: String,
    /// The song waiting for delete confirmation.
    pub to_delete: Option<String>,
}

/// `b` differs from `a` at most in the verses of the song being edited: the
/// song keeps its identity, title and details, and the form fields and the
/// pending delete stay as they were.
pub open spec fn only_verses_change(a: SongState, b: SongState) -> bool {
    &&& b.edit_title == a.edit_title
    &&& b.edit_artist == a.edit_artist
    &&& b.edit_copyright == a.edit_copyright
    &&& b.edit_ccli == a.edit_ccli
    &&& b.edit_key == a.edit_key
    &&& b.edit_bpm == a.edit_bpm
    &&& b.to_delete == a.to_delete
    &&& match a.editing {
        Some(o) => b.editing matches Some(s) && s.id == o.id && s.title == o.title && s.artist
            == o.artist && s.copyright == o.copyright && s.ccli_number == o.ccli_number
            && s.key_signature == o.key_signature && s.bpm == o.bpm,
        None => b.editing is None,
    }
}

/// The text of an optional field, empty when absent.
pub open spec fn or_empty(o: Option<String>) -> Seq<char> {
    match o {
        Some(s) => s@,
        None => Seq::empty(),
    }
}

fn text_or_empty(o: &Option<String>) -> (r: String)
    ensures
        r@ == or_empty(*o),
{
    match o {
        Some(s) => s.clone(),
        None => String::new(),
    }
}

fn field(s: &String) -> (r: Option<String>)
    ensures
        opt_view(r) == non_empty_spec(s@),
{
    non_empty(s.as_str())
}

impl SongState {
    /// Nothing open.
    pub fn new() -> (s: SongState)
        ensures
            s.editing is None,
            s.to_delete is None,
            s.edit_title@.len() == 0,
            s.edit_artist@.len() == 0,
            s.edit_copyright@.len() == 0,
            s.edit_ccli@.len() == 0,
            s.edit_key@.len() == 0,
            s.edit_bpm@.len() == 0,
    {
        SongState {
            editing: None,
            edit_title: String::new(),
            edit_artist: String::new(),
            edit_copyright: String::new(),
            edit_ccli: String::new(),
            edit_key: String::new(),
            edit_bpm: String::new(),
            to_delete: None,
        }
    }

    /// Opens `song` for editing: the fields show its details, absent ones
    /// empty, and the tempo in decimal.
    pub fn load_song_for_editing(&mut self, song: Song)
        ensures
            final(self).edit_title@ == song.title@,
            final(self).edit_artist@ == or_empty(song.artist),
            final(self).edit_copyright@ == or_empty(song.copyright),
            final(self).edit_ccli@ == or_empty(song.ccli_number),
            final(self).edit_key@ == or_empty(song.key_signature),
            final(self).edit_bpm@ == match song.bpm {
                Some(b) => decimal(b as nat),
                None => Seq::empty(),
            },
            final(self).editing == Some(song),
            final(self).to_delete == old(self).to_delete,
    {
        self.edit_title = song.title.clone();
        self.edit_artist = text_or_empty(&song.artist);
        self.edit_copyright = text_or_empty(&song.copyright);
        self.edit_ccli = text_or_empty(&song.ccli_number);
        self.edit_key = text_or_empty(&song.key_signature);
        self.edit_bpm = match song.bpm {
            Some(b) => {
                let mut s = String::new();
                push_decimal(&mut s, b as u64);
                s
            },
            None => String::new(),
        };
        self.editing = Some(song);
    }

    /// Opens a new song with the identity `id`, titled "New Song" and with no
    /// details or verses: the title field shows its title and the other
    /// fields are cleared.
    pub fn new_song(&mut self, id: String)
        ensures
            final(self).editing matches Some(s) && s.id == id && s.title@ == "New Song"@
                && s.verses@.len() == 0 && s.artist is None && s.copyright is None
                && s.ccli_number is None && s.key_signature is None && s.bpm is None,
            final(self).edit_title@ == "New Song"@,
            final(self).edit_artist@.len() == 0,
            final(self).edit_copyright@.len() == 0,
            final(self).edit_ccli@.len() == 0,
            final(self).edit_key@.len() == 0,
            final(self).edit_bpm@.len() == 0,
            final(self).to_delete == old(self).to_delete,
    {
        let song = Song {
            id,
            title: owned("New Song"),
            artist: None,
            copyright: None,
            ccli_number: None,
            key_signature: None,
            bpm: None,
            verses: Vec::new(),
        };
        self.load_song_for_editing(song);
    }

    /// The song being edited with the fields written into it, to be stored:
    /// the title as typed, the optional details trimmed (blank ones cleared),
    /// the tempo when the trimmed field reads as a number, and the verses
    /// numbered in order. The song being edited is left as it is until the
    /// store succeeds (see [`SongState::song_saved`]). `None` when no song is
    /// being edited.
    pub fn song_to_save(&self) -> (r: Option<Song>)
        ensures
            r is Some == self.editing is Some,
            r is Some ==> ({
                let s = r->0;
                let o = self.editing->0;
                &&& s.id == o.id
                &&& s.title@ == self.edit_title@
                &&& opt_view(s.artist) == non_empty_spec(self.edit_artist@)
                &&& opt_view(s.copyright) == non_empty_spec(self.edit_copyright@)
                &&& opt_view(s.ccli_number) == non_empty_spec(self.edit_ccli@)
                &&& opt_view(s.key_signature) == non_empty_spec(self.edit_key@)
                &&& match parse_unsigned(trim(self.edit_bpm@), u32::MAX as nat) {
                    Some(v) => s.bpm == Some(v as u32),
                    None => s.bpm is None,
                }
                &&& numbered(s.verses@)
                &&& verses_match(s.verses@, o.verses@)
            }),
    {
        match &self.editing {
            Some(song) => {
                let title = self.edit_title.clone();
                let artist = field(&self.edit_artist);
                let copyright = field(&self.edit_copyright);
                let ccli = field(&self.edit_ccli);
                let key = field(&self.edit_key);
                let bpm_text = trimmed(self.edit_bpm.as_str());
                let bpm = parse_u32(bpm_text.as_str());
                let mut verses: Vec<Verse> = Vec::new();
                for i in 0..song.verses.len()
                    invariant
                        verses@.len() == i,
                        forall|k: int|
                            0 <= k < i ==> (#[trigger] verses@[k]).order_index == k
                                && verses@[k].label@ == song.verses@[k].label@
                                && verses@[k].content@ == song.verses@[k].content@,
                {
                    verses.push(
                        Verse {
                            label: song.verses[i].label.clone(),
                            content: song.verses[i].content.clone(),
                            order_index: i,
                        },
                    );
                }
                Some(
                    Song {
                        id: song.id.clone(),
                        title,
                        artist,
                        copyright,
                        ccli_number: ccli,
                        key_signature: key,
                        bpm,
                        verses,
                    },
                )
            },
            None => None,
        }
    }

    /// The song `song` was stored: it becomes the song being edited.
    pub fn song_saved(&mut self, song: Song)
        ensures
            final(self).editing == Some(song),
            final(self).edit_title == old(self).edit_title,
            final(self).edit_artist == old(self).edit_artist,
            final(self).edit_copyright == old(self).edit_copyright,
            final(self).edit_ccli == old(self).edit_ccli,
            final(self).edit_key == old(self).edit_key,
            final(self).edit_bpm == old(self).edit_bpm,
            final(self).to_delete == old(self).to_delete,
    {
        self.editing = Some(song);
    }

    /// Appends a verse with the suggested label, empty content and its position
    /// as order index.
    pub fn add_verse(&mut self)
        ensures
            match old(self).editing {
                Some(o) => final(self).editing matches Some(s) && s.id == o.id && s.verses@.len()
                    == o.verses@.len() + 1 && s.verses@.drop_last() == o.verses@ && ({
                    let v = s.verses@.last();
                    &&& v.label@ == verse_label(o.verses@.len())
                    &&& v.content@.len() == 0
                    &&& v.order_index == o.verses@.len()
                }),
                None => final(self).editing is None,
            },
            only_verses_change(*old(self), *final(self)),
    {
        match &mut self.editing {
            Some(song) => {
                let idx = song.verses.len();
                let label = next_verse_label(idx);
                song.verses.push(Verse { label, content: String::new(), order_index: idx });
                assert(song.verses@.drop_last() =~= old(self).editing->0.verses@);
            },
            None => {},
        }
    }

    /// Deletes verse `index` when it exists and renumbers the rest.
    pub fn delete_verse(&mut self, index: usize)
        ensures
            match old(self).editing {
                Some(o) => final(self).editing matches Some(s) && s.id == o.id && if index
                    < o.verses@.len() {
                    numbered(s.verses@) && same_verses(s.verses@, o.verses@.remove(index as int))
                } else {
                    s.verses == o.verses
                },
                None => final(self).editing is None,
            },
            only_verses_change(*old(self), *final(self)),
    {
        match &mut self.editing {
            Some(song) => {
                if remove_at(&mut song.verses, index) {
                    renumber(&mut song.verses);
                }
            },
            None => {},
        }
    }

    /// Moves verse `index` one place up when it can, and renumbers.
    pub fn move_verse_up(&mut self, index: usize)
        ensures
            match old(self).editing {
                Some(o) => final(self).editing matches Some(s) && s.id == o.id && if 0 < index
                    < o.verses@.len() {
                    numbered(s.verses@) && same_verses(
                        s.verses@,
                        swapped(o.verses@, index - 1, index as int),
                    )
                } else {
                    s.verses == o.verses
                },
                None => final(self).editing is None,
            },
            only_verses_change(*old(self), *final(self)),
    {
        match &mut self.editing {
            Some(song) => {
                if move_up(&mut song.verses, index) {
                    renumber(&mut song.verses);
                }
            },
            None => {},
        }
    }

    /// Moves verse `index` one place down when it can, and renumbers.
    pub fn move_verse_down(&mut self, index: usize)
        ensures
            match old(self).editing {
                Some(o) => final(self).editing matches Some(s) && s.id == o.id && if index + 1
                    < o.verses@.len() {
                    numbered(s.verses@) && same_verses(
                        s.verses@,
                        swapped(o.verses@, index as int, index + 1),
                    )
                } else {
                    s.verses == o.verses
                },
                None => final(self).editing is None,
            },
            only_verses_change(*old(self), *final(self)),
    {
        match &mut self.editing {
            Some(song) => {
                if move_down(&mut song.verses, index) {
                    renumber(&mut song.verses);
                }
            },
            None => {},
        }
    }

    /// Sets the content of verse `index`, when it exists.
    pub fn verse_content_changed(&mut self, index: usize, content: String)
        ensures
            match old(self).editing {
                Some(o) => final(self).editing matches Some(s) && s.id == o.id && if index
                    < o.verses@.len() {
                    s.verses@ == o.verses@.update(
                        index as int,
                        Verse { content, ..o.verses@[index as int] },
                    )
                } else {
                    s.verses == o.verses
                },
                None => final(self).editing is None,
            },
            only_verses_change(*old(self), *final(self)),
    {
        match &mut self.editing {
            Some(song) => if index < song.verses.len() {
                song.verses[index].content = content;
            },
            None => {},
        }
    }

    /// Sets the label of verse `index`, when it exists.
    pub fn verse_label_changed(&mut self, index: usize, label: String)
        ensures
            match old(self).editing {
                Some(o) => final(self).editing matches Some(s) && s.id == o.id && if index
                    < o.verses@.len() {
                    s.verses@ == o.verses@.update(
                        index as int,
                        Verse { label, ..o.verses@[index as int] },
                    )
                } else {
                    s.verses == o.verses
                },
                None => final(self).editing is None,
            },
            only_verses_change(*old(self), *final(self)),
    {
        match &mut self.editing {
            Some(song) => if index < song.verses.len() {
                song.verses[index].label = label;
            },
            None => {},
        }
    }

    /// After song `id` was deleted: it is closed when it was open.
    pub fn song_deleted(&mut self, id: &String)
        ensures
            match old(self).editing {
                Some(s) => if s.id@ == id@ {
                    final(self).editing is None
                } else {
                    final(self).editing == old(self).editing
                },
                None => final(self).editing is None,
            },
    {
        let matches = match &self.editing {
            Some(s) => s.id == *id,
            None => false,
        };
        if matches {
            self.editing = None;
        }
    }
}

/// The slide a verse becomes: its content as text, its label as the group,
/// faded in over half a second.
pub open spec fn verse_slide(v: Verse, id: Seq<char>) -> SlideView {
    SlideView {
        id: id,
        group: Some(v.label@),
        notes: None,
        transition: Transition::Fade { duration_ms: 500 },
        content: ContentView::Text { text: v.content@ },
        layers: Seq::empty(),
    }
}

/// The slides of a song, one per verse in order, each with a fresh id.
pub fn song_slides(song: &Song) -> (slides: Vec<Slide>)
    ensures
        slides@.len() == song.verses@.len(),
        forall|i: int|
            0 <= i < slides@.len() ==> (#[trigger] slides@[i])@ == verse_slide(
                song.verses@[i],
                slides@[i].id@,
            ) && is_uuid_text(slides@[i].id@),
{
    let mut slides: Vec<Slide> = Vec::new();
    for i in 0..song.verses.len()
        invariant
            slides@.len() == i,
            forall|k: int|
                0 <= k < i ==> (#[trigger] slides@[k])@ == verse_slide(
                    song.verses@[k],
                    slides@[k].id@,
                ) && is_uuid_text(slides@[k].id@),
    {
        let v = &song.verses[i];
        let s = Slide {
            id: new_id(),
            group: Some(v.label.clone()),
            notes: None,
            transition: Transition::Fade { duration_ms: 500 },
            content: SlideContent::Text { text: v.content.clone() },
            layers: Vec::new(),
        };
        slides.push(s);
    }
    slides
}

/// Moving a verse up and back down restores the verses, numbered.
pub proof fn law_verse_up_then_down(vs: Seq<Verse>, index: int)
    requires
        0 < index < vs.len(),
    ensures
        swapped(swapped(vs, index - 1, index), index - 1, index) == vs,
{
    assert(swapped(swapped(vs, index - 1, index), index - 1, index) =~= vs);
}

} // verus!
