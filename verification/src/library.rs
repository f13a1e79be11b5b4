//! The media library: what kind of asset a file is, the recently used list,
//! and picking, applying and deleting assets.
use vstd::prelude::*;
use crate::colors::same_text;
use crate::lists::{first_pos, strings_view};
use crate::text::{chars_of, lowercase, to_lowercase};

verus! {

/// What `Path::extension` gives for the path `p`: the text after the last
/// dot of the file name, if any.
pub uninterp spec fn path_extension(p: Seq<char>) -> Option<Seq<char>>;

/// `std::path::Path::extension`, as text. Which part of the path it is, is
/// named rather than spelled out.
#[verifier::external_body]
fn extension_of(path: &str) -> (r: Option<String>)
    ensures
        match r {
            Some(e) => path_extension(path@) == Some(e@),
            None => path_extension(path@) is None,
        },
{
    std::path::Path::new(path).extension().and_then(|e| e.to_str()).map(|e| e.to_owned())
}

/// The kinds of library asset.
#[derive(Clone, Copy, Debug, PartialEq, Eq, Structural)]
pub enum MediaType {
    Image,
    Video,
}

/// The image file extensions.
pub open spec fn is_image_ext(e: Seq<char>) -> bool {
    e == "png"@ || e == "jpg"@ || e == "jpeg"@ || e == "gif"@ || e == "bmp"@ || e == "webp"@
}

/// The video file extensions.
pub open spec fn is_video_ext(e: Seq<char>) -> bool {
    e == "mp4"@ || e == "mov"@ || e == "avi"@ || e == "mkv"@ || e == "webm"@
}

/// The kind of asset a file is by its lowercased extension: a video for the
/// video extensions, an image otherwise.
pub open spec fn media_type_spec(path: Seq<char>) -> MediaType {
    let ext = match path_extension(path) {
        Some(e) => lowercase(e),
        None => Seq::empty(),
    };
    if is_image_ext(ext) {
        MediaType::Image
    } else if is_video_ext(ext) {
        MediaType::Video
    } else {
        MediaType::Image
    }
}

/// The kind of asset the file at `path` is; see [`media_type_spec`].
pub fn media_type_of(path: &str) -> (t: MediaType)
    ensures
        t == media_type_spec(path@),
{
    let ext = match extension_of(path) {
        Some(e) => to_lowercase(e.as_str()),
        None => String::new(),
    };
    let e = ext.as_str();
    if same_text(e, "png") || same_text(e, "jpg") || same_text(e, "jpeg") || same_text(e, "gif")
        || same_text(e, "bmp") || same_text(e, "webp") {
        MediaType::Image
    } else if same_text(e, "mp4") || same_text(e, "mov") || same_text(e, "avi") || same_text(
        e,
        "mkv",
    ) || same_text(e, "webm") {
        MediaType::Video
    } else {
        MediaType::Image
    }
}

/// A file is a video exactly when its extension, lowercased, is mp4, mov,
/// avi, mkv or webm; every other file, and a file without extension, is an
/// image.
pub proof fn law_media_kind_by_extension(p: Seq<char>)
    ensures
        match path_extension(p) {
            Some(e) => {
                let l = lowercase(e);
                media_type_spec(p) == if l == "mp4"@ || l == "mov"@ || l == "avi"@ || l == "mkv"@
                    || l == "webm"@ {
                    MediaType::Video
                } else {
                    MediaType::Image
                }
            },
            None => media_type_spec(p) == MediaType::Image,
        },
{
    reveal_strlit("mp4");
    reveal_strlit("mov");
    reveal_strlit("avi");
    reveal_strlit("mkv");
    reveal_strlit("webm");
    reveal_strlit("png");
    reveal_strlit("jpg");
    reveal_strlit("jpeg");
    reveal_strlit("gif");
    reveal_strlit("bmp");
    reveal_strlit("webp");
    assert("png"@[0] == 'p' && "jpg"@[0] == 'j' && "jpeg"@[0] == 'j' && "gif"@[0] == 'g'
        && "bmp"@[0] == 'b' && "webp"@[0] == 'w' && "webp"@[3] == 'p');
    assert("mp4"@[0] == 'm' && "mov"@[0] == 'm' && "avi"@[0] == 'a' && "mkv"@[0] == 'm'
        && "webm"@[0] == 'w' && "webm"@[3] == 'm');
    match path_extension(p) {
        Some(e) => {
            let l = lowercase(e);
            if l == "mp4"@ || l == "mov"@ || l == "avi"@ || l == "mkv"@ || l == "webm"@ {
                assert(l[0] == 'm' || l[0] == 'a' || (l[0] == 'w' && l[3] == 'm'));
                assert(!is_image_ext(l));
                assert(is_video_ext(l));
            } else {
                assert(!is_video_ext(l));
            }
        },
        None => {
            let z = Seq::<char>::empty();
            assert(z.len() == 0);
            assert("png"@.len() == 3 && "jpg"@.len() == 3 && "jpeg"@.len() == 4 && "gif"@.len()
                == 3 && "bmp"@.len() == 3 && "webp"@.len() == 4);
            assert(!is_image_ext(z));
            assert(!is_video_ext(z));
        },
    }
}

/// The number of recently used assets kept.
pub const RECENT_LIMIT: usize = 6;

/// `v` without the ids equal to `id`, in order.
pub open spec fn without(v: Seq<Seq<char>>, id: Seq<char>) -> Seq<Seq<char>>
    decreases v.len(),
{
    if v.len() == 0 {
        v
    } else {
        let rest = without(v.drop_last(), id);
        if v.last() == id {
            rest
        } else {
            rest.push(v.last())
        }
    }
}

/// The recently used list after using `id`: it moves to the front, and the
/// list keeps its first six entries.
pub open spec fn used_first(recent: Seq<Seq<char>>, id: Seq<char>) -> Seq<Seq<char>> {
    let l = seq![id] + without(recent, id);
    if l.len() > RECENT_LIMIT {
        l.take(RECENT_LIMIT as int)
    } else {
        l
    }
}

/// Removes every entry equal to `id`, keeping the order of the others.
pub fn remove_id(v: &mut Vec<String>, id: &String)
    ensures
        strings_view(final(v)@) == without(strings_view(old(v)@), id@),
{
    let ghost orig = strings_view(v@);
    let mut kept: Vec<String> = Vec::new();
    let n = v.len();
    for i in 0..n
        invariant
            n == v@.len(),
            orig == strings_view(v@),
            strings_view(kept@) == without(orig.take(i as int), id@),
    {
        assert(orig.take(i + 1).drop_last() =~= orig.take(i as int));
        assert(orig.take(i + 1).last() == v@[i as int]@);
        if v[i] != *id {
            let ghost before = kept@;
            kept.push(v[i].clone());
            assert(strings_view(kept@) =~= strings_view(before).push(v@[i as int]@));
        }
    }
    assert(orig.take(n as int) =~= orig);
    *v = kept;
}

/// Records that asset `id` was used: it moves to the front of the recently
/// used list, which keeps at most six entries.
pub fn mark_used(recent: &mut Vec<String>, id: String)
    ensures
        strings_view(final(recent)@) == used_first(strings_view(old(recent)@), id@),
{
    remove_id(recent, &id);
    let ghost mid = recent@;
    recent.insert(0, id);
    assert(strings_view(recent@) =~= seq![id@] + strings_view(mid));
    if recent.len() > RECENT_LIMIT {
        let ghost before = strings_view(recent@);
        recent.truncate(RECENT_LIMIT);
        assert(strings_view(recent@) =~= before.take(RECENT_LIMIT as int));
    }
}

proof fn lemma_without_drops(v: Seq<Seq<char>>, id: Seq<char>)
    ensures
        !without(v, id).contains(id),
        without(v, id).len() <= v.len(),
    decreases v.len(),
{
    if v.len() > 0 {
        lemma_without_drops(v.drop_last(), id);
        let rest = without(v.drop_last(), id);
        if v.last() != id {
            assert forall|k: int| 0 <= k < rest.push(v.last()).len() implies rest.push(v.last())[k]
                != id by {
                if k < rest.len() {
                    assert(rest.push(v.last())[k] == rest[k]);
                }
            }
        }
    }
}

/// After use, the asset heads the recent list exactly once and the list
/// stays within six entries.
pub proof fn law_used_asset_first_once(recent: Seq<Seq<char>>, id: Seq<char>)
    ensures
        used_first(recent, id).len() <= RECENT_LIMIT,
        used_first(recent, id)[0] == id,
        forall|k: int| 1 <= k < used_first(recent, id).len() ==> #[trigger] used_first(recent, id)[k] != id,
{
    lemma_without_drops(recent, id);
    let w = without(recent, id);
    let l = seq![id] + w;
    assert forall|k: int| 1 <= k < used_first(recent, id).len() implies #[trigger] used_first(
        recent,
        id,
    )[k] != id by {
        assert(l[k] == w[k - 1]);
    }
}

/// Whether no id occurs twice in `s`.
pub open spec fn distinct_ids(s: Seq<Seq<char>>) -> bool {
    forall|i: int, j: int| 0 <= i < j < s.len() ==> s[i] != s[j]
}

proof fn lemma_without_within(v: Seq<Seq<char>>, id: Seq<char>)
    ensures
        forall|x: Seq<char>| #[trigger] without(v, id).contains(x) ==> v.contains(x) && x != id,
    decreases v.len(),
{
    if v.len() > 0 {
        lemma_without_within(v.drop_last(), id);
        let rest = without(v.drop_last(), id);
        assert forall|x: Seq<char>| #[trigger] without(v, id).contains(x) implies v.contains(x)
            && x != id by {
            let w = without(v, id);
            let k = choose|k: int| 0 <= k < w.len() && w[k] == x;
            if k < rest.len() {
                assert(rest[k] == x);
                assert(rest.contains(x));
                let j = choose|j: int| 0 <= j < v.drop_last().len() && v.drop_last()[j] == x;
                assert(v[j] == x);
            } else {
                assert(x == v.last());
                assert(v[v.len() - 1] == x);
            }
        }
    }
}

proof fn lemma_without_distinct(v: Seq<Seq<char>>, id: Seq<char>)
    requires
        distinct_ids(v),
    ensures
        distinct_ids(without(v, id)),
    decreases v.len(),
{
    if v.len() > 0 {
        let d = v.drop_last();
        assert(distinct_ids(d)) by {
            assert forall|i: int, j: int| 0 <= i < j < d.len() implies d[i] != d[j] by {
                assert(d[i] == v[i] && d[j] == v[j]);
            }
        }
        lemma_without_distinct(d, id);
        lemma_without_within(d, id);
        let rest = without(d, id);
        if v.last() != id {
            assert(!rest.contains(v.last())) by {
                if rest.contains(v.last()) {
                    assert(d.contains(v.last()));
                    let j = choose|j: int| 0 <= j < d.len() && d[j] == v.last();
                    assert(v[j] == v[v.len() - 1]);
                }
            }
            let w = rest.push(v.last());
            assert forall|i: int, j: int| 0 <= i < j < w.len() implies w[i] != w[j] by {
                if j == w.len() - 1 {
                    assert(w[i] == rest[i]);
                    assert(rest.contains(rest[i]));
                } else {
                    assert(w[i] == rest[i] && w[j] == rest[j]);
                }
            }
        }
    }
}

/// The recently used list never names an asset twice: using an asset keeps a
/// list without repeats free of them.
pub proof fn law_recent_stays_distinct(recent: Seq<Seq<char>>, id: Seq<char>)
    requires
        distinct_ids(recent),
    ensures
        distinct_ids(used_first(recent, id)),
{
    lemma_without_distinct(recent, id);
    lemma_without_within(recent, id);
    let w = without(recent, id);
    let l = seq![id] + w;
    assert forall|i: int, j: int| 0 <= i < j < l.len() implies l[i] != l[j] by {
        if i == 0 {
            assert(l[j] == w[j - 1]);
            assert(w.contains(w[j - 1]));
        } else {
            assert(l[i] == w[i - 1] && l[j] == w[j - 1]);
        }
    }
    if l.len() > RECENT_LIMIT {
        let t = l.take(RECENT_LIMIT as int);
        assert forall|i: int, j: int| 0 <= i < j < t.len() implies t[i] != t[j] by {
            assert(t[i] == l[i] && t[j] == l[j]);
        }
    }
}

/// A library asset.
#[derive(Debug)]
pub struct Asset {
    pub id: String,
    pub name: String,
    pub path: String,
    pub media_type: MediaType,
}

impl Asset {
    /// A copy of this asset.
    pub fn copy(&self) -> (r: Asset)
        ensures
            r.id@ == self.id@,
            r.name@ == self.name@,
            r.path@ == self.path@,
            r.media_type == self.media_type,
    {
        Asset {
            id: self.id.clone(),
            name: self.name.clone(),
            path: self.path.clone(),
            media_type: self.media_type,
        }
    }
}

/// The ids of a list of assets.
pub open spec fn asset_ids(s: Seq<Asset>) -> Seq<Seq<char>> {
    s.map_values(|a: Asset| a.id@)
}

/// The names of a list of assets.
pub open spec fn asset_names(s: Seq<Asset>) -> Seq<Seq<char>> {
    s.map_values(|a: Asset| a.name@)
}

/// Whether `t` occurs in `s` as a contiguous run of characters.
pub open spec fn has_infix(s: Seq<char>, t: Seq<char>) -> bool {
    exists|i: int| 0 <= i && i + t.len() <= s.len() && #[trigger] s.subrange(i, i + t.len()) == t
}

/// Whether an asset named `name` is listed under the search `query`: every
/// asset for an empty query, else those whose lowercased name contains the
/// lowercased query.
pub open spec fn listed_under(name: Seq<char>, query: Seq<char>) -> bool {
    lowercase(query).len() == 0 || has_infix(lowercase(name), lowercase(query))
}

/// The positions of the assets named `names` that are listed under `query`,
/// in library order.
pub open spec fn listed_positions(names: Seq<Seq<char>>, query: Seq<char>) -> Seq<int>
    decreases names.len(),
{
    if names.len() == 0 {
        Seq::empty()
    } else {
        let r = listed_positions(names.drop_last(), query);
        if listed_under(names.last(), query) {
            r.push(names.len() - 1)
        } else {
            r
        }
    }
}

/// The positions of the recently used assets that are still in the library
/// (`ids` are the library's asset ids), most recent first.
pub open spec fn recent_positions(recent: Seq<Seq<char>>, ids: Seq<Seq<char>>) -> Seq<int>
    decreases recent.len(),
{
    if recent.len() == 0 {
        Seq::empty()
    } else {
        let r = recent_positions(recent.drop_last(), ids);
        match first_pos(ids, recent.last()) {
            Some(k) => r.push(k),
            None => r,
        }
    }
}

/// `s` without the assets whose id is `id`, in order.
pub open spec fn without_asset(s: Seq<Asset>, id: Seq<char>) -> Seq<Asset>
    decreases s.len(),
{
    if s.len() == 0 {
        s
    } else {
        let rest = without_asset(s.drop_last(), id);
        if s.last().id@ == id {
            rest
        } else {
            rest.push(s.last())
        }
    }
}

/// The positions of a list of indices, as integers.
pub open spec fn positions(v: Seq<usize>) -> Seq<int> {
    v.map_values(|i: usize| i as int)
}

/// Whether `t` occurs in `s`.
pub fn contains_chars(s: &[char], t: &[char]) -> (b: bool)
    ensures
        b == has_infix(s@, t@),
{
    let n = s.len();
    let m = t.len();
    if m > n {
        return false;
    }
    let mut i: usize = 0;
    while i <= n - m
        invariant
            n == s@.len(),
            m == t@.len(),
            m <= n,
            i <= n - m + 1,
            forall|k: int| 0 <= k < i ==> #[trigger] s@.subrange(k, k + m) != t@,
        decreases n - i,
    {
        let mut j: usize = 0;
        while j < m && s[i + j] == t[j]
            invariant
                n == s@.len(),
                m == t@.len(),
                i + m <= n,
                j <= m,
                forall|q: int| 0 <= q < j ==> s@[i + q] == t@[q],
            decreases m - j,
        {
            j = j + 1;
        }
        if j == m {
            assert(s@.subrange(i as int, i + m) =~= t@);
            return true;
        }
        assert(s@.subrange(i as int, i + m)[j as int] != t@[j as int]);
        i = i + 1;
    }
    false
}

/// Whether an asset named `name` is listed under `query`; see
/// [`listed_under`].
pub fn is_listed_under(name: &str, query: &str) -> (b: bool)
    ensures
        b == listed_under(name@, query@),
{
    let q = chars_of(to_lowercase(query).as_str());
    if q.len() == 0 {
        return true;
    }
    let nm = chars_of(to_lowercase(name).as_str());
    contains_chars(nm.as_slice(), q.as_slice())
}

/// The position of the first asset with id `id`, if any.
pub fn asset_index(assets: &Vec<Asset>, id: &String) -> (r: Option<usize>)
    ensures
        match r {
            Some(k) => first_pos(asset_ids(assets@), id@) == Some(k as int),
            None => first_pos(asset_ids(assets@), id@) is None,
        },
{
    let ghost ids = asset_ids(assets@);
    let n = assets.len();
    assert(ids.skip(0) =~= ids);
    for i in 0..n
        invariant
            n == assets@.len(),
            ids == asset_ids(assets@),
            first_pos(ids, id@) == match first_pos(ids.skip(i as int), id@) {
                Some(p) => Some(p + i),
                None => None::<int>,
            },
    {
        assert(ids.skip(i as int).drop_first() =~= ids.skip(i + 1));
        assert(ids.skip(i as int)[0] == assets@[i as int].id@);
        if assets[i].id == *id {
            return Some(i);
        }
    }
    assert(ids.skip(n as int) =~= Seq::<Seq<char>>::empty());
    None
}

/// The media library: its assets, the selected one and the recently used
/// ones, most recent first.
pub struct LibraryState {
    pub assets: Vec<Asset>,
    pub selected_id: Option<String>,
    pub recently_used_ids: Vec<String>,
}

impl LibraryState {
    /// An empty library.
    pub fn new() -> (l: LibraryState)
        ensures
            l.assets@.len() == 0,
            l.selected_id is None,
            l.recently_used_ids@.len() == 0,
    {
        LibraryState { assets: Vec::new(), selected_id: None, recently_used_ids: Vec::new() }
    }

    /// The positions of the assets listed under the search `query`, in
    /// library order.
    pub fn listed(&self, query: &str) -> (r: Vec<usize>)
        ensures
            positions(r@) == listed_positions(asset_names(self.assets@), query@),
    {
        let ghost names = asset_names(self.assets@);
        let mut r: Vec<usize> = Vec::new();
        let n = self.assets.len();
        for i in 0..n
            invariant
                n == self.assets@.len(),
                names == asset_names(self.assets@),
                positions(r@) == listed_positions(names.take(i as int), query@),
        {
            let ghost before = r@;
            assert(names.take(i + 1).drop_last() =~= names.take(i as int));
            if is_listed_under(self.assets[i].name.as_str(), query) {
                r.push(i);
                assert(positions(r@) =~= positions(before).push(i as int));
            }
        }
        assert(names.take(n as int) =~= names);
        r
    }

    /// The positions of the recently used assets still in the library, most
    /// recent first.
    pub fn recent(&self) -> (r: Vec<usize>)
        ensures
            positions(r@) == recent_positions(
                strings_view(self.recently_used_ids@),
                asset_ids(self.assets@),
            ),
    {
        let ghost rec = strings_view(self.recently_used_ids@);
        let mut r: Vec<usize> = Vec::new();
        let n = self.recently_used_ids.len();
        for i in 0..n
            invariant
                n == self.recently_used_ids@.len(),
                rec == strings_view(self.recently_used_ids@),
                positions(r@) == recent_positions(rec.take(i as int), asset_ids(self.assets@)),
        {
            let ghost before = r@;
            assert(rec.take(i + 1).drop_last() =~= rec.take(i as int));
            assert(rec.take(i + 1).last() == self.recently_used_ids@[i as int]@);
            match asset_index(&self.assets, &self.recently_used_ids[i]) {
                Some(k) => {
                    r.push(k);
                    assert(positions(r@) =~= positions(before).push(k as int));
                },
                None => {},
            }
        }
        assert(rec.take(n as int) =~= rec);
        r
    }

    /// Selects asset `id`, or clears the selection when it is the selected one.
    pub fn select_asset(&mut self, id: String)
        ensures
            final(self).selected_id == match old(self).selected_id {
                Some(s) => if s@ == id@ {
                    None
                } else {
                    Some(id)
                },
                None => Some(id),
            },
            final(self).assets == old(self).assets,
            final(self).recently_used_ids == old(self).recently_used_ids,
    {
        let same = match &self.selected_id {
            Some(s) => *s == id,
            None => false,
        };
        if same {
            self.selected_id = None;
        } else {
            self.selected_id = Some(id);
        }
    }

    /// Asset `id` was put on a slide: it heads the recently used list.
    pub fn applied(&mut self, id: String)
        ensures
            strings_view(final(self).recently_used_ids@) == used_first(
                strings_view(old(self).recently_used_ids@),
                id@,
            ),
            final(self).assets == old(self).assets,
            final(self).selected_id == old(self).selected_id,
    {
        mark_used(&mut self.recently_used_ids, id);
    }

    /// Asset `id` was deleted from the store: it leaves the library and the
    /// recently used list, and the selection when it was selected.
    pub fn asset_deleted(&mut self, id: &String)
        ensures
            final(self).assets@ == without_asset(old(self).assets@, id@),
            strings_view(final(self).recently_used_ids@) == without(
                strings_view(old(self).recently_used_ids@),
                id@,
            ),
            final(self).selected_id == match old(self).selected_id {
                Some(s) => if s@ == id@ {
                    None
                } else {
                    Some(s)
                },
                None => None,
            },
    {
        let ghost orig = self.assets@;
        let mut kept: Vec<Asset> = Vec::new();
        while self.assets.len() > 0
            invariant
                orig.len() >= self.assets@.len(),
                self.assets@ == orig.skip(orig.len() - self.assets@.len()),
                kept@ == without_asset(orig.take(orig.len() - self.assets@.len()), id@),
                self.recently_used_ids == old(self).recently_used_ids,
                self.selected_id == old(self).selected_id,
            decreases self.assets@.len(),
        {
            let ghost k = orig.len() - self.assets@.len();
            let a = self.assets.remove(0);
            assert(a == orig[k]);
            assert(orig.take(k + 1).drop_last() =~= orig.take(k));
            assert(self.assets@ =~= orig.skip(k + 1));
            if a.id != *id {
                kept.push(a);
            }
        }
        assert(orig.take(orig.len() as int) =~= orig);
        self.assets = kept;
        remove_id(&mut self.recently_used_ids, id);
        let clear = match &self.selected_id {
            Some(s) => *s == *id,
            None => false,
        };
        if clear {
            self.selected_id = None;
        }
    }
}

} // verus!
