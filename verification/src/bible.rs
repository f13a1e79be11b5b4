//! The Bible panel: browsing a translation, picking verses, and turning the
//! picked verses into a presentation with a given number of verses per slide.
use vstd::prelude::*;
use crate::domain::{ContentView, Slide, SlideContent, SlideView, Transition};
use crate::ids::{is_uuid_text, new_id};
use crate::numbers::{decimal, push_decimal, push_signed, signed_decimal};
use crate::text::{is_blank, owned, push_str, trim};

verus! {

broadcast use vstd::multiset::group_multiset_axioms;

/// One verse of a translation.
#[derive(Debug)]
pub struct BibleVerse {
    pub book: String,
    pub chapter: i32,
    pub verse: i32,
    pub text: String,
}

/// A verse as plain values.
pub struct VerseView {
    pub book: Seq<char>,
    pub chapter: i32,
    pub verse: i32,
    pub text: Seq<char>,
}

impl View for BibleVerse {
    type V = VerseView;

    open spec fn view(&self) -> VerseView {
        VerseView { book: self.book@, chapter: self.chapter, verse: self.verse, text: self.text@ }
    }
}

/// The views of a list of verses.
pub open spec fn verses_view(vs: Seq<BibleVerse>) -> Seq<VerseView> {
    vs.map_values(|v: BibleVerse| v@)
}

/// The picked verses: for each selected index, in order, the verse at it
/// (indexes past the end are passed over).
pub open spec fn picked(verses: Seq<VerseView>, indices: Seq<usize>) -> Seq<VerseView>
    decreases indices.len(),
{
    if indices.len() == 0 {
        Seq::empty()
    } else {
        let rest = picked(verses, indices.drop_last());
        let i = indices.last();
        if i < verses.len() {
            rest.push(verses[i as int])
        } else {
            rest
        }
    }
}

/// The verses cut into consecutive runs of `n` (the last run may be shorter).
pub open spec fn chunks(s: Seq<VerseView>, n: nat) -> Seq<Seq<VerseView>>
    decreases s.len(),
{
    if s.len() == 0 || n == 0 {
        Seq::empty()
    } else if s.len() <= n {
        seq![s]
    } else {
        seq![s.take(n as int)] + chunks(s.skip(n as int), n)
    }
}

/// "book chapter:verse".
pub open spec fn reference(v: VerseView) -> Seq<char> {
    v.book + " "@ + signed_decimal(v.chapter as int) + ":"@ + signed_decimal(v.verse as int)
}

/// A verse as a line of a slide: its number, two spaces, its text.
pub open spec fn verse_line(v: VerseView) -> Seq<char> {
    signed_decimal(v.verse as int) + "  "@ + v.text
}

/// The lines of the verses, separated by blank lines.
pub open spec fn joined_lines(vs: Seq<VerseView>) -> Seq<char>
    decreases vs.len(),
{
    if vs.len() == 0 {
        Seq::empty()
    } else if vs.len() == 1 {
        verse_line(vs[0])
    } else {
        joined_lines(vs.drop_last()) + "\n\n"@ + verse_line(vs.last())
    }
}

/// The group label of a slide holding the run `c`: the reference of its
/// first verse, with "-last" when it ends on another verse number.
pub open spec fn run_label(c: Seq<VerseView>) -> Seq<char> {
    let f = c[0];
    let l = c.last();
    if f.verse == l.verse {
        reference(f)
    } else {
        reference(f) + "-"@ + signed_decimal(l.verse as int)
    }
}

/// The name of the presentation made of the picked verses `sel`: a verse
/// range within one chapter, or the references of both ends joined by a dash.
pub open spec fn passage_name(sel: Seq<VerseView>) -> Seq<char> {
    let f = sel[0];
    let l = sel.last();
    if f.book == l.book && f.chapter == l.chapter {
        reference(f) + "-"@ + signed_decimal(l.verse as int)
    } else {
        reference(f) + " \u{2013} "@ + reference(l)
    }
}

/// The slide made of the run `c`.
pub open spec fn run_slide(c: Seq<VerseView>, id: Seq<char>) -> SlideView {
    SlideView {
        id: id,
        group: Some(run_label(c)),
        notes: None,
        transition: Transition::Fade { duration_ms: 500 },
        content: ContentView::Text { text: joined_lines(c) },
        layers: Seq::empty(),
    }
}

/// A presentation drafted from picked verses, not stored yet.
#[derive(Debug)]
pub struct PassageDraft {
    pub name: String,
    pub slides: Vec<Slide>,
}

/// Whether the verse selection lists distinct indexes in increasing order.
pub open spec fn strictly_sorted(s: Seq<usize>) -> bool {
    forall|i: int, j: int| 0 <= i < j < s.len() ==> s[i] < s[j]
}

/// Whether selection `after` is `before` with verse `idx` picked when it was
/// not, and dropped when it was.
pub open spec fn toggled_from(before: Seq<usize>, after: Seq<usize>, idx: usize) -> bool {
    forall|x: usize|
        #![trigger after.contains(x)]
        after.contains(x) == (if x == idx {
            !before.contains(x)
        } else {
            before.contains(x)
        })
}

/// Whether `s` is in non-decreasing order.
pub open spec fn sorted_up(s: Seq<usize>) -> bool {
    forall|i: int, j: int| 0 <= i < j < s.len() ==> s[i] <= s[j]
}

/// The position of the first `x` in `s`, if any.
pub open spec fn first_at(s: Seq<usize>, x: usize) -> Option<int>
    decreases s.len(),
{
    if s.len() == 0 {
        None
    } else if s[0] == x {
        Some(0)
    } else {
        match first_at(s.drop_first(), x) {
            Some(p) => Some(p + 1),
            None => None,
        }
    }
}

/// Inserts `x` into the ordered `v`, behind every element not above it.
fn insert_in_order(v: &mut Vec<usize>, x: usize)
    requires
        sorted_up(old(v)@),
    ensures
        sorted_up(final(v)@),
        final(v)@.to_multiset() == old(v)@.to_multiset().insert(x),
{
    let n = v.len();
    let mut p: usize = 0;
    while p < n && v[p] <= x
        invariant
            p <= n,
            n == v@.len(),
            v@ == old(v)@,
            forall|k: int| 0 <= k < p ==> v@[k] <= x,
        decreases n - p,
    {
        p = p + 1;
    }
    let ghost s = v@;
    v.insert(p, x);
    proof {
        vstd::seq_lib::to_multiset_insert(s, p as int, x);
        assert(v@ == s.insert(p as int, x));
        assert forall|i: int, j: int| 0 <= i < j < v@.len() implies v@[i] <= v@[j] by {
            if j < p {
                assert(v@[i] == s[i] && v@[j] == s[j]);
            } else if j == p {
                assert(v@[i] == s[i]);
            } else {
                assert(v@[j] == s[j - 1]);
                assert(p < n);
                if i < p {
                    assert(v@[i] == s[i]);
                } else if i == p {
                    assert(s[p as int] <= s[j - 1] || p as int == j - 1);
                } else {
                    assert(v@[i] == s[i - 1]);
                }
            }
        }
    }
}

/// The elements of `v` and `x`, in non-decreasing order.
fn sorted_with(v: &Vec<usize>, x: usize) -> (r: Vec<usize>)
    ensures
        sorted_up(r@),
        r@.to_multiset() == v@.push(x).to_multiset(),
{
    let mut r: Vec<usize> = Vec::new();
    let n = v.len();
    assert(r@ =~= v@.take(0));
    for i in 0..n
        invariant
            n == v@.len(),
            sorted_up(r@),
            r@.to_multiset() == v@.take(i as int).to_multiset(),
    {
        insert_in_order(&mut r, v[i]);
        proof {
            v@.take(i as int).to_multiset_ensures();
            assert(v@.take(i + 1) =~= v@.take(i as int).push(v@[i as int]));
        }
    }
    insert_in_order(&mut r, x);
    proof {
        assert(v@.take(n as int) =~= v@);
        v@.to_multiset_ensures();
    }
    r
}

/// In a sequence without repeats every value occurs at most once.
proof fn lemma_distinct_counts(t: Seq<usize>)
    requires
        forall|a: int, b: int| 0 <= a < b < t.len() ==> t[a] != t[b],
    ensures
        forall|x: usize| #[trigger] t.to_multiset().count(x) <= 1,
    decreases t.len(),
{
    if t.len() == 0 {
        assert(t.to_multiset() =~= vstd::multiset::Multiset::empty()) by {
            t.to_multiset_ensures();
        }
    } else {
        let d = t.drop_last();
        let l = t.last();
        lemma_distinct_counts(d);
        d.to_multiset_ensures();
        assert(d.push(l) =~= t);
        assert(!d.contains(l)) by {
            if d.contains(l) {
                let k = choose|k: int| 0 <= k < d.len() && d[k] == l;
                assert(t[k] == t[t.len() - 1]);
            }
        }
        assert forall|x: usize| #[trigger] t.to_multiset().count(x) <= 1 by {
            assert(t.to_multiset() == d.to_multiset().insert(l));
        }
    }
}

/// An ordered sequence in which every value occurs at most once is in
/// strictly increasing order.
proof fn lemma_sorted_single_counts_strict(r: Seq<usize>)
    requires
        sorted_up(r),
        forall|x: usize| #[trigger] r.to_multiset().count(x) <= 1,
    ensures
        strictly_sorted(r),
{
    assert forall|i: int, j: int| 0 <= i < j < r.len() implies r[i] < r[j] by {
        if r[i] == r[j] {
            let a = r[i];
            vstd::seq_lib::to_multiset_remove(r, j);
            let q = r.remove(j);
            assert(q[i] == a);
            q.to_multiset_ensures();
            assert(q.contains(a));
            assert(q.to_multiset().count(a) > 0);
            assert(r.to_multiset().count(a) <= 1);
        }
    }
}

/// What the verse list shows after the search field changed.
#[derive(Debug)]
pub enum SearchAction {
    /// Reload this chapter of this translation.
    RestoreChapter { translation: String, book: String, chapter: i32 },
    /// Empty the verse list.
    ClearVerses,
    /// Search this translation for the query.
    Search { translation: String },
    /// Leave the verse list.
    Nothing,
}

/// The state of the Bible panel.
pub struct BibleState {
    pub selected_translation: Option<String>,
    pub selected_book: Option<String>,
    pub selected_chapter: Option<i32>,
    pub books: Vec<String>,
    pub chapters: Vec<i32>,
    pub verses: Vec<BibleVerse>,
    pub selected_verse_indices: Vec<usize>,
    pub search: String,
    pub verses_per_slide: usize,
    pub translation_to_delete: Option<String>,
}

fn push_reference(out: &mut String, v: &BibleVerse)
    ensures
        final(out)@ == old(out)@ + reference(v@),
{
    push_str(out, v.book.as_str());
    push_str(out, " ");
    push_signed(out, v.chapter as i64);
    push_str(out, ":");
    push_signed(out, v.verse as i64);
    proof {
        reveal_strlit(" ");
        reveal_strlit(":");
    }
    assert(final(out)@ =~= old(out)@ + reference(v@));
}

fn push_verse_line(out: &mut String, v: &BibleVerse)
    ensures
        final(out)@ == old(out)@ + verse_line(v@),
{
    push_signed(out, v.verse as i64);
    push_str(out, "  ");
    push_str(out, v.text.as_str());
    assert(final(out)@ =~= old(out)@ + verse_line(v@));
}

/// The group label of the run `c`; see [`run_label`].
pub fn run_label_of(c: &[&BibleVerse]) -> (s: String)
    requires
        c@.len() > 0,
    ensures
        s@ == run_label(c@.map_values(|v: &BibleVerse| v@)),
{
    let ghost cv = c@.map_values(|v: &BibleVerse| v@);
    let f = c[0];
    let l = c[c.len() - 1];
    assert(cv[0] == f@);
    assert(cv.last() == l@);
    let mut s = String::new();
    push_reference(&mut s, f);
    if f.verse != l.verse {
        push_str(&mut s, "-");
        push_signed(&mut s, l.verse as i64);
    }
    assert(s@ =~= run_label(cv));
    s
}

/// The text of the run `c`; see [`joined_lines`].
pub fn joined_lines_of(c: &[&BibleVerse]) -> (s: String)
    ensures
        s@ == joined_lines(c@.map_values(|v: &BibleVerse| v@)),
{
    let ghost cv = c@.map_values(|v: &BibleVerse| v@);
    let mut s = String::new();
    let n = c.len();
    let mut i: usize = 0;
    while i < n
        invariant
            i <= n,
            n == c@.len(),
            cv == c@.map_values(|v: &BibleVerse| v@),
            s@ == joined_lines(cv.take(i as int)),
        decreases n - i,
    {
        assert(cv.take(i + 1).drop_last() =~= cv.take(i as int));
        assert(cv.take(i + 1).last() == c@[i as int]@);
        if i > 0 {
            push_str(&mut s, "\n\n");
        } else {
            assert(cv.take(1)[0] == c@[0]@);
        }
        push_verse_line(&mut s, c[i]);
        assert(s@ =~= joined_lines(cv.take(i + 1)));
        i = i + 1;
    }
    assert(cv.take(n as int) =~= cv);
    s
}

/// The name of the presentation made of the picked verses; see [`passage_name`].
pub fn passage_name_of(sel: &[&BibleVerse]) -> (s: String)
    requires
        sel@.len() > 0,
    ensures
        s@ == passage_name(sel@.map_values(|v: &BibleVerse| v@)),
{
    let ghost sv = sel@.map_values(|v: &BibleVerse| v@);
    let f = sel[0];
    let l = sel[sel.len() - 1];
    assert(sv[0] == f@);
    assert(sv.last() == l@);
    let mut s = String::new();
    push_reference(&mut s, f);
    if f.book == l.book && f.chapter == l.chapter {
        push_str(&mut s, "-");
        push_signed(&mut s, l.verse as i64);
    } else {
        push_str(&mut s, " \u{2013} ");
        push_reference(&mut s, l);
    }
    assert(s@ =~= passage_name(sv));
    s
}

/// Lemma: the first chunk and the rest.
proof fn lemma_chunks_step(s: Seq<VerseView>, n: nat)
    requires
        n > 0,
        s.len() > 0,
    ensures
        chunks(s, n) == seq![s.take(if s.len() <= n { s.len() as int } else { n as int })]
            + chunks(s.skip(if s.len() <= n { s.len() as int } else { n as int }), n),
{
    if s.len() <= n {
        assert(s.take(s.len() as int) =~= s);
        assert(s.skip(s.len() as int) =~= Seq::<VerseView>::empty());
        assert(chunks(s.skip(s.len() as int), n) =~= Seq::<Seq<VerseView>>::empty());
        assert(seq![s] + Seq::<Seq<VerseView>>::empty() =~= seq![s]);
    }
}

impl BibleState {
    /// Chooses translation `id`: everything below it is cleared until its
    /// books are loaded.
    pub fn translation_selected(&mut self, id: String)
        ensures
            final(self).selected_translation == Some(id),
            final(self).selected_book is None,
            final(self).selected_chapter is None,
            final(self).books@.len() == 0,
            final(self).chapters@.len() == 0,
            final(self).verses@.len() == 0,
            final(self).selected_verse_indices@.len() == 0,
            final(self).search@.len() == 0,
            final(self).verses_per_slide == old(self).verses_per_slide,
    {
        self.selected_translation = Some(id);
        self.selected_book = None;
        self.selected_chapter = None;
        self.books.clear();
        self.chapters.clear();
        self.verses.clear();
        self.selected_verse_indices.clear();
        self.search = String::new();
    }

    /// Chooses book `book`: chapters, verses, selection and search are
    /// cleared until its chapters are loaded.
    pub fn book_selected(&mut self, book: String)
        ensures
            final(self).selected_book == Some(book),
            final(self).selected_translation == old(self).selected_translation,
            final(self).selected_chapter is None,
            final(self).books == old(self).books,
            final(self).chapters@.len() == 0,
            final(self).verses@.len() == 0,
            final(self).selected_verse_indices@.len() == 0,
            final(self).search@.len() == 0,
            final(self).verses_per_slide == old(self).verses_per_slide,
    {
        self.selected_book = Some(book);
        self.selected_chapter = None;
        self.chapters.clear();
        self.verses.clear();
        self.selected_verse_indices.clear();
        self.search = String::new();
    }

    /// Chooses chapter `chapter`: verses, selection and search are cleared
    /// until its verses are loaded.
    pub fn chapter_selected(&mut self, chapter: i32)
        ensures
            final(self).selected_chapter == Some(chapter),
            final(self).selected_translation == old(self).selected_translation,
            final(self).selected_book == old(self).selected_book,
            final(self).books == old(self).books,
            final(self).chapters == old(self).chapters,
            final(self).verses@.len() == 0,
            final(self).selected_verse_indices@.len() == 0,
            final(self).search@.len() == 0,
            final(self).verses_per_slide == old(self).verses_per_slide,
    {
        self.selected_chapter = Some(chapter);
        self.verses.clear();
        self.selected_verse_indices.clear();
        self.search = String::new();
    }

    /// Takes a new search text: the selection is cleared, and the verse list
    /// is to show the chapter again when the search is blank (or nothing when
    /// no chapter is chosen), and the translation's matches otherwise.
    pub fn search_changed(&mut self, query: String) -> (a: SearchAction)
        ensures
            final(self).search@ == query@,
            final(self).selected_verse_indices@.len() == 0,
            trim(query@).len() == 0 ==> match (
                old(self).selected_translation,
                old(self).selected_book,
                old(self).selected_chapter,
            ) {
                (Some(t), Some(b), Some(c)) => a matches SearchAction::RestoreChapter {
                    translation,
                    book,
                    chapter,
                } && translation@ == t@ && book@ == b@ && chapter == c,
                _ => a is ClearVerses,
            },
            trim(query@).len() > 0 ==> match old(self).selected_translation {
                Some(t) => a matches SearchAction::Search { translation } && translation@ == t@,
                None => a is Nothing,
            },
            final(self).verses == old(self).verses,
    {
        let blank = is_blank(query.as_str());
        self.search = query;
        self.selected_verse_indices.clear();
        if blank {
            match (&self.selected_translation, &self.selected_book, self.selected_chapter) {
                (Some(t), Some(b), Some(c)) => SearchAction::RestoreChapter {
                    translation: t.clone(),
                    book: b.clone(),
                    chapter: c,
                },
                _ => SearchAction::ClearVerses,
            }
        } else {
            match &self.selected_translation {
                Some(t) => SearchAction::Search { translation: t.clone() },
                None => SearchAction::Nothing,
            }
        }
    }

    /// Drops the first pick of verse `idx` when it is picked; otherwise picks
    /// it and puts the selection in increasing order. A selection in strictly
    /// increasing order stays so, and then picks `idx` exactly when it did not.
    pub fn verse_toggled(&mut self, idx: usize)
        ensures
            match first_at(old(self).selected_verse_indices@, idx) {
                Some(p) => final(self).selected_verse_indices@
                    == old(self).selected_verse_indices@.remove(p),
                None => sorted_up(final(self).selected_verse_indices@)
                    && final(self).selected_verse_indices@.to_multiset()
                    == old(self).selected_verse_indices@.push(idx).to_multiset(),
            },
            strictly_sorted(old(self).selected_verse_indices@) ==> strictly_sorted(
                final(self).selected_verse_indices@,
            ) && toggled_from(
                old(self).selected_verse_indices@,
                final(self).selected_verse_indices@,
                idx,
            ),
            final(self).selected_translation == old(self).selected_translation,
            final(self).selected_book == old(self).selected_book,
            final(self).selected_chapter == old(self).selected_chapter,
            final(self).books == old(self).books,
            final(self).chapters == old(self).chapters,
            final(self).verses == old(self).verses,
            final(self).search == old(self).search,
            final(self).verses_per_slide == old(self).verses_per_slide,
            final(self).translation_to_delete == old(self).translation_to_delete,
    {
        let ghost s0 = self.selected_verse_indices@;
        let n = self.selected_verse_indices.len();
        let mut i: usize = 0;
        assert(s0.skip(0) =~= s0);
        while i < n && self.selected_verse_indices[i] != idx
            invariant
                i <= n,
                n == s0.len(),
                self.selected_verse_indices@ == s0,
                forall|k: int| 0 <= k < i ==> s0[k] != idx,
                first_at(s0, idx) == match first_at(s0.skip(i as int), idx) {
                    Some(p) => Some(p + i),
                    None => None::<int>,
                },
            decreases n - i,
        {
            assert(s0.skip(i as int).drop_first() =~= s0.skip(i + 1));
            i = i + 1;
        }
        if i < n {
            assert(s0.skip(i as int)[0] == idx);
            self.selected_verse_indices.remove(i);
            let ghost s1 = self.selected_verse_indices@;
            assert(s1 == s0.remove(i as int));
            proof {
                if strictly_sorted(s0) {
                    assert forall|x: usize| #![trigger s1.contains(x)] s1.contains(x) == (if x == idx {
                        !s0.contains(x)
                    } else {
                        s0.contains(x)
                    }) by {
                        assert(s0[i as int] == idx);
                        assert(s0.contains(idx));
                        if s1.contains(x) {
                            let k = choose|k: int| 0 <= k < s1.len() && s1[k] == x;
                            if k < i {
                                assert(s0[k] == x);
                            } else {
                                assert(s0[k + 1] == x);
                                assert(s0[i as int] < s0[k + 1]);
                            }
                        }
                        if s0.contains(x) && x != idx {
                            let k = choose|k: int| 0 <= k < s0.len() && s0[k] == x;
                            if k < i {
                                assert(s1[k] == x);
                            } else {
                                assert(k != i);
                                assert(s1[k - 1] == x);
                            }
                        }
                    }
                }
            }
        } else {
            assert(s0.skip(n as int) =~= Seq::<usize>::empty());
            let r = sorted_with(&self.selected_verse_indices, idx);
            self.selected_verse_indices = r;
            proof {
                if strictly_sorted(s0) {
                    let t = s0.push(idx);
                    assert(!s0.contains(idx));
                    assert forall|a: int, b: int| 0 <= a < b < t.len() implies t[a] != t[b] by {
                        if b == t.len() - 1 {
                            assert(t[a] == s0[a]);
                        } else {
                            assert(t[a] == s0[a] && t[b] == s0[b]);
                        }
                    }
                    lemma_distinct_counts(t);
                    lemma_sorted_single_counts_strict(r@);
                    r@.to_multiset_ensures();
                    t.to_multiset_ensures();
                    s0.to_multiset_ensures();
                    assert forall|x: usize| #![trigger r@.contains(x)] r@.contains(x) == (if x
                        == idx {
                        !s0.contains(x)
                    } else {
                        s0.contains(x)
                    }) by {
                        assert(r@.contains(x) == (t.to_multiset().count(x) > 0));
                        assert(t.contains(x) == (t.to_multiset().count(x) > 0));
                        if x == idx {
                            assert(t[t.len() - 1] == idx);
                        } else {
                            if t.contains(x) {
                                let k = choose|k: int| 0 <= k < t.len() && t[k] == x;
                                assert(s0[k] == x);
                            }
                            if s0.contains(x) {
                                let k = choose|k: int| 0 <= k < s0.len() && s0[k] == x;
                                assert(t[k] == x);
                            }
                        }
                    }
                }
            }
        }
    }

    /// Picks every verse of the list, in order.
    pub fn select_all(&mut self)
        ensures
            final(self).selected_verse_indices@.len() == old(self).verses@.len(),
            forall|k: int|
                0 <= k < final(self).selected_verse_indices@.len()
                    ==> #[trigger] final(self).selected_verse_indices@[k] == k,
            strictly_sorted(final(self).selected_verse_indices@),
            final(self).verses == old(self).verses,
    {
        let n = self.verses.len();
        let mut v: Vec<usize> = Vec::new();
        for i in 0..n
            invariant
                v@.len() == i,
                forall|k: int| 0 <= k < i ==> #[trigger] v@[k] == k,
        {
            v.push(i);
        }
        self.selected_verse_indices = v;
    }

    /// Drops the whole selection.
    pub fn clear_selection(&mut self)
        ensures
            final(self).selected_verse_indices@.len() == 0,
            final(self).verses == old(self).verses,
    {
        self.selected_verse_indices.clear();
    }

    /// Sets the number of verses per slide, kept between 1 and 10.
    pub fn verses_per_slide_changed(&mut self, n: usize)
        ensures
            final(self).verses_per_slide == if n < 1 {
                1
            } else if n > 10 {
                10
            } else {
                n
            },
    {
        self.verses_per_slide = if n < 1 {
            1
        } else if n > 10 {
            10
        } else {
            n
        };
    }

    /// The verses picked by the selection, in selection order.
    pub fn picked_verses(&self) -> (r: Vec<&BibleVerse>)
        ensures
            r@.map_values(|v: &BibleVerse| v@) == picked(
                verses_view(self.verses@),
                self.selected_verse_indices@,
            ),
    {
        let ghost vv = verses_view(self.verses@);
        let ghost idx = self.selected_verse_indices@;
        let mut r: Vec<&BibleVerse> = Vec::new();
        let n = self.selected_verse_indices.len();
        for k in 0..n
            invariant
                n == idx.len(),
                idx == self.selected_verse_indices@,
                vv == verses_view(self.verses@),
                r@.map_values(|v: &BibleVerse| v@) == picked(vv, idx.take(k as int)),
        {
            let i = self.selected_verse_indices[k];
            assert(idx.take(k + 1).drop_last() =~= idx.take(k as int));
            assert(idx.take(k + 1).last() == i);
            if i < self.verses.len() {
                let ghost before = r@;
                r.push(&self.verses[i]);
                assert(r@.map_values(|v: &BibleVerse| v@) =~= before.map_values(
                    |v: &BibleVerse| v@,
                ).push(vv[i as int]));
            }
        }
        assert(idx.take(n as int) =~= idx);
        r
    }

    /// Drafts a presentation from the picked verses: named after the passage,
    /// one slide per run of `verses_per_slide` verses, each slide holding its
    /// verses' lines, labelled with the run's reference and faded in over half
    /// a second. `None` when no verse is picked.
    pub fn passage_draft(&self) -> (r: Option<PassageDraft>)
        requires
            self.verses_per_slide > 0 || picked(
                verses_view(self.verses@),
                self.selected_verse_indices@,
            ).len() == 0,
        ensures
            ({
                let sel = picked(verses_view(self.verses@), self.selected_verse_indices@);
                let cs = chunks(sel, self.verses_per_slide as nat);
                &&& r is Some <==> sel.len() > 0
                &&& r is Some ==> {
                    let d = r->0;
                    &&& d.name@ == passage_name(sel)
                    &&& d.slides@.len() == cs.len()
                    &&& forall|k: int|
                        0 <= k < cs.len() ==> (#[trigger] d.slides@[k])@ == run_slide(
                            cs[k],
                            d.slides@[k].id@,
                        ) && is_uuid_text(d.slides@[k].id@)
                }
            }),
    {
        let sel = self.picked_verses();
        let ghost sv = sel@.map_values(|v: &BibleVerse| v@);
        if sel.len() == 0 {
            return None;
        }
        let name = passage_name_of(sel.as_slice());
        let vps = self.verses_per_slide;
        let n = sel.len();
        let mut slides: Vec<Slide> = Vec::new();
        let mut start: usize = 0;
        assert(sv.skip(0) =~= sv);
        while start < n
            invariant
                start <= n,
                n == sel@.len(),
                vps > 0,
                sv == sel@.map_values(|v: &BibleVerse| v@),
                slides@.len() + chunks(sv.skip(start as int), vps as nat).len() == chunks(
                    sv,
                    vps as nat,
                ).len(),
                forall|k: int| 0 <= k < slides@.len() ==> is_uuid_text(#[trigger] slides@[k].id@),
                forall|k: int|
                    0 <= k < slides@.len() ==> (#[trigger] slides@[k])@ == run_slide(
                        chunks(sv, vps as nat)[k],
                        slides@[k].id@,
                    ),
                forall|k: int|
                    0 <= k < chunks(sv.skip(start as int), vps as nat).len() ==> #[trigger] chunks(
                        sv.skip(start as int),
                        vps as nat,
                    )[k] == chunks(sv, vps as nat)[slides@.len() + k],
            decreases n - start,
        {
            let end = if n - start <= vps {
                n
            } else {
                start + vps
            };
            let mut run: Vec<&BibleVerse> = Vec::new();
            let mut j: usize = start;
            while j < end
                invariant
                    start <= j <= end <= n,
                    n == sel@.len(),
                    run@ == sel@.subrange(start as int, j as int),
                decreases end - j,
            {
                run.push(sel[j]);
                j = j + 1;
            }
            let ghost rest = sv.skip(start as int);
            proof {
                lemma_chunks_step(rest, vps as nat);
                assert(run@.map_values(|v: &BibleVerse| v@) =~= rest.take(end - start));
                assert(rest.skip(end - start) =~= sv.skip(end as int));
                assert(chunks(rest, vps as nat)[0] == rest.take(end - start));
            }
            let text = joined_lines_of(run.as_slice());
            let label = run_label_of(run.as_slice());
            let slide = Slide {
                id: new_id(),
                group: Some(label),
                notes: None,
                transition: Transition::Fade { duration_ms: 500 },
                content: SlideContent::Text { text },
                layers: Vec::new(),
            };
            let ghost before = slides@;
            slides.push(slide);
            proof {
                let cs = chunks(sv, vps as nat);
                let cr = chunks(rest, vps as nat);
                let cn = chunks(sv.skip(end as int), vps as nat);
                assert(cr =~= seq![rest.take(end - start)] + cn);
                assert(cr[0] == cs[before.len() as int]);
                assert forall|k: int| 0 <= k < cn.len() implies #[trigger] cn[k] == cs[slides@.len() + k] by {
                    assert(cn[k] == cr[k + 1]);
                }
            }
            start = end;
        }
        proof {
            assert(sv.skip(n as int) =~= Seq::<VerseView>::empty());
        }
        Some(PassageDraft { name, slides })
    }

    /// After translation `id` was deleted: when it was the chosen one, it is
    /// unchosen and everything below it cleared.
    pub fn translation_deleted(&mut self, id: &String)
        ensures
            match old(self).selected_translation {
                Some(t) => if t@ == id@ {
                    &&& final(self).selected_translation is None
                    &&& final(self).books@.len() == 0
                    &&& final(self).chapters@.len() == 0
                    &&& final(self).verses@.len() == 0
                    &&& final(self).selected_verse_indices@.len() == 0
                } else {
                    final(self).selected_translation == old(self).selected_translation
                        && final(self).verses == old(self).verses
                },
                None => final(self).selected_translation is None && final(self).verses == old(
                    self,
                ).verses,
            },
    {
        let matches = match &self.selected_translation {
            Some(t) => *t == *id,
            None => false,
        };
        if matches {
            self.selected_translation = None;
            self.books.clear();
            self.chapters.clear();
            self.verses.clear();
            self.selected_verse_indices.clear();
        }
    }
}

/// The label of a verse row of the browser: its full reference among search
/// results, else "v" and its number.
pub open spec fn row_label(v: VerseView, searching: bool) -> Seq<char> {
    if searching {
        reference(v)
    } else {
        "v"@ + signed_decimal(v.verse as int)
    }
}

/// The label of verse row `v` while the search field reads `search`.
pub fn verse_row_label(v: &BibleVerse, search: &str) -> (s: String)
    ensures
        s@ == row_label(v@, trim(search@).len() > 0),
{
    let mut s = String::new();
    if is_blank(search) {
        push_str(&mut s, "v");
        push_signed(&mut s, v.verse as i64);
        proof {
            reveal_strlit("v");
        }
    } else {
        push_reference(&mut s, v);
    }
    s
}

/// What the browser says of a selection of `n` verses.
pub open spec fn selection_label(n: nat) -> Seq<char> {
    if n == 0 {
        "No verses selected"@
    } else if n == 1 {
        "1 verse selected"@
    } else {
        decimal(n) + " verses selected"@
    }
}

/// The selection label for `n` picked verses; see [`selection_label`].
pub fn selection_label_of(n: usize) -> (s: String)
    ensures
        s@ == selection_label(n as nat),
{
    if n == 0 {
        owned("No verses selected")
    } else {
        let mut s = String::new();
        push_decimal(&mut s, n as u64);
        if n > 1 {
            push_str(&mut s, " verses selected");
        } else {
            push_str(&mut s, " verse selected");
        }
        proof {
            reveal_strlit("1 verse selected");
            reveal_strlit(" verse selected");
            if n == 1 {
                assert(decimal(1) == seq!['1']);
            }
        }
        s
    }
}

/// The verses per slide that the minus button asks for: one fewer, but at
/// least one.
pub fn fewer_verses_per_slide(n: usize) -> (r: usize)
    ensures
        r == if n > 2 {
            (n - 1) as usize
        } else {
            1usize
        },
{
    if n > 2 {
        n - 1
    } else {
        1
    }
}

/// The verses per slide that the plus button asks for: one more, but at most
/// ten.
pub fn more_verses_per_slide(n: usize) -> (r: usize)
    requires
        n < usize::MAX,
    ensures
        r == if n + 1 < 10 {
            (n + 1) as usize
        } else {
            10usize
        },
{
    if n + 1 < 10 {
        n + 1
    } else {
        10
    }
}

/// Two selections in increasing order that pick the same verses are the
/// same selection.
proof fn lemma_sorted_same_members(a: Seq<usize>, b: Seq<usize>)
    requires
        strictly_sorted(a),
        strictly_sorted(b),
        forall|x: usize| #![trigger a.contains(x), b.contains(x)] a.contains(x) == b.contains(x),
    ensures
        a == b,
    decreases a.len(),
{
    if a.len() == 0 {
        if b.len() > 0 {
            assert(b.contains(b[0]));
            assert(a.contains(b[0]));
        }
        assert(a =~= b);
    } else {
        assert(a.contains(a[0]));
        assert(b.contains(a[0]));
        assert(b.contains(b[0]));
        assert(a.contains(b[0]));
        let ka = choose|k: int| 0 <= k < a.len() && a[k] == b[0];
        let kb = choose|k: int| 0 <= k < b.len() && b[k] == a[0];
        assert(a[0] <= b[0]) by {
            if ka > 0 {
                assert(a[0] < a[ka]);
            }
        }
        assert(b[0] <= a[0]) by {
            if kb > 0 {
                assert(b[0] < b[kb]);
            }
        }
        let a1 = a.drop_first();
        let b1 = b.drop_first();
        assert forall|x: usize| #![trigger a1.contains(x), b1.contains(x)] a1.contains(x) == b1.contains(x) by {
            if a1.contains(x) {
                let k = choose|k: int| 0 <= k < a1.len() && a1[k] == x;
                assert(a[k + 1] == x);
                assert(a[0] < a[k + 1]);
                assert(a.contains(x));
                assert(b.contains(x));
                let j = choose|j: int| 0 <= j < b.len() && b[j] == x;
                assert(j != 0);
                assert(b1[j - 1] == x);
            }
            if b1.contains(x) {
                let k = choose|k: int| 0 <= k < b1.len() && b1[k] == x;
                assert(b[k + 1] == x);
                assert(b[0] < b[k + 1]);
                assert(b.contains(x));
                assert(a.contains(x));
                let j = choose|j: int| 0 <= j < a.len() && a[j] == x;
                assert(j != 0);
                assert(a1[j - 1] == x);
            }
        }
        lemma_sorted_same_members(a1, b1);
        assert(a =~= seq![a[0]] + a1);
        assert(b =~= seq![b[0]] + b1);
    }
}

/// Toggling the same verse twice gives the selection back.
pub proof fn law_toggle_twice_restores(s0: Seq<usize>, s1: Seq<usize>, s2: Seq<usize>, idx: usize)
    requires
        strictly_sorted(s0),
        strictly_sorted(s1),
        strictly_sorted(s2),
        toggled_from(s0, s1, idx),
        toggled_from(s1, s2, idx),
    ensures
        s2 == s0,
{
    assert forall|x: usize| #![trigger s0.contains(x), s2.contains(x)] s2.contains(x) == s0.contains(x) by {
        assert(s1.contains(x) == (if x == idx { !s0.contains(x) } else { s0.contains(x) }));
        assert(s2.contains(x) == (if x == idx { !s1.contains(x) } else { s1.contains(x) }));
    }
    lemma_sorted_same_members(s2, s0);
}

/// The runs put back together, in order.
pub open spec fn concat_runs(cs: Seq<Seq<VerseView>>) -> Seq<VerseView>
    decreases cs.len(),
{
    if cs.len() == 0 {
        Seq::empty()
    } else {
        cs[0] + concat_runs(cs.drop_first())
    }
}

/// Every picked verse lands on exactly one slide: the runs put back together
/// give the picked verses, and no run is empty or longer than the verses per
/// slide.
pub proof fn law_runs_cover_passage(s: Seq<VerseView>, n: nat)
    requires
        n > 0,
    ensures
        concat_runs(chunks(s, n)) == s,
        forall|k: int| 0 <= k < chunks(s, n).len() ==> 0 < (#[trigger] chunks(s, n)[k]).len() <= n,
    decreases s.len(),
{
    if s.len() == 0 {
        assert(concat_runs(chunks(s, n)) =~= s);
    } else if s.len() <= n {
        let all = chunks(s, n);
        assert(all =~= seq![s]);
        assert(all.drop_first() =~= Seq::<Seq<VerseView>>::empty());
        assert(concat_runs(all.drop_first()) == Seq::<VerseView>::empty());
        assert(s + Seq::<VerseView>::empty() =~= s);
    } else {
        law_runs_cover_passage(s.skip(n as int), n);
        let rest = chunks(s.skip(n as int), n);
        let all = chunks(s, n);
        assert(all =~= seq![s.take(n as int)] + rest);
        assert(all.drop_first() =~= rest);
        assert(all[0] == s.take(n as int));
        assert(concat_runs(all) == all[0] + concat_runs(rest));
        assert(s.take(n as int) + s.skip(n as int) =~= s);
        assert forall|k: int| 0 <= k < all.len() implies 0 < (#[trigger] all[k]).len() <= n by {
            if k > 0 {
                assert(all[k] == rest[k - 1]);
            }
        }
    }
}

} // verus!
