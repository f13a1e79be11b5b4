//! Reordering of the ordered lists the editors show: slides, verses, service
//! items and layers.
use vstd::prelude::*;

verus! {

/// `s` with the items at `i` and `j` exchanged.
pub open spec fn swapped<T>(s: Seq<T>, i: int, j: int) -> Seq<T> {
    s.update(i, s[j]).update(j, s[i])
}

/// `s` with the item at `from` taken out and put back at `to` (an index of
/// the shortened list).
pub open spec fn moved<T>(s: Seq<T>, from: int, to: int) -> Seq<T> {
    s.remove(from).insert(to, s[from])
}

/// Exchanges the items at `i` and `j`.
pub fn swap_items<T>(v: &mut Vec<T>, i: usize, j: usize)
    requires
        i < old(v)@.len(),
        j < old(v)@.len(),
    ensures
        final(v)@ == swapped(old(v)@, i as int, j as int),
{
    if i == j {
        assert(v@ =~= swapped(old(v)@, i as int, j as int));
        return;
    }
    let (lo, hi) = if i < j {
        (i, j)
    } else {
        (j, i)
    };
    let b = v.remove(hi);
    let a = v.remove(lo);
    v.insert(lo, b);
    v.insert(hi, a);
    assert(v@ =~= swapped(old(v)@, i as int, j as int));
}

/// Moves the item at `index` one place towards the front, when there is a
/// place; returns whether it moved.
pub fn move_up<T>(v: &mut Vec<T>, index: usize) -> (moved: bool)
    ensures
        moved == (0 < index < old(v)@.len()),
        moved ==> final(v)@ == swapped(old(v)@, index - 1, index as int),
        !moved ==> *final(v) == *old(v),
{
    if index > 0 && index < v.len() {
        swap_items(v, index - 1, index);
        true
    } else {
        false
    }
}

/// Moves the item at `index` one place towards the back, when there is a
/// place; returns whether it moved.
pub fn move_down<T>(v: &mut Vec<T>, index: usize) -> (moved: bool)
    ensures
        moved == (index + 1 < old(v)@.len()),
        moved ==> index + 1 < usize::MAX,
        moved ==> final(v)@ == swapped(old(v)@, index as int, index + 1),
        !moved ==> *final(v) == *old(v),
{
    if index < v.len() && index + 1 < v.len() {
        swap_items(v, index, index + 1);
        true
    } else {
        false
    }
}

/// Removes the item at `index` when there is one; returns whether it did.
pub fn remove_at<T>(v: &mut Vec<T>, index: usize) -> (removed: bool)
    ensures
        removed == (index < old(v)@.len()),
        removed ==> final(v)@ == old(v)@.remove(index as int),
        !removed ==> *final(v) == *old(v),
{
    if index < v.len() {
        v.remove(index);
        true
    } else {
        false
    }
}

/// Takes the item at `from` out and puts it back at `to`.
pub fn move_item<T>(v: &mut Vec<T>, from: usize, to: usize)
    requires
        from < old(v)@.len(),
        to < old(v)@.len(),
    ensures
        final(v)@ == moved(old(v)@, from as int, to as int),
{
    let x = v.remove(from);
    v.insert(to, x);
}

/// Moving an item up and then back down restores the list.
pub proof fn law_up_then_down_restores<T>(s: Seq<T>, index: int)
    requires
        0 < index < s.len(),
    ensures
        swapped(swapped(s, index - 1, index), index - 1, index) == s,
{
    assert(swapped(swapped(s, index - 1, index), index - 1, index) =~= s);
}

/// Moving an item keeps the length and puts it at its target.
pub proof fn law_moved_item_lands<T>(s: Seq<T>, from: int, to: int)
    requires
        0 <= from < s.len(),
        0 <= to < s.len(),
    ensures
        moved(s, from, to).len() == s.len(),
        moved(s, from, to)[to] == s[from],
{
}

/// The first position of `id` in `ids`, if any.
pub open spec fn first_pos(ids: Seq<Seq<char>>, id: Seq<char>) -> Option<int>
    decreases ids.len(),
{
    if ids.len() == 0 {
        None
    } else if ids[0] == id {
        Some(0)
    } else {
        match first_pos(ids.drop_first(), id) {
            Some(p) => Some(p + 1),
            None => None,
        }
    }
}

/// The views of a list of strings.
pub open spec fn strings_view(v: Seq<String>) -> Seq<Seq<char>> {
    v.map_values(|s: String| s@)
}

/// The position of the first id in `ids` equal to `id`.
pub fn position_of(ids: &Vec<String>, id: &String) -> (r: Option<usize>)
    ensures
        match r {
            Some(p) => p < ids@.len() && ids@[p as int]@ == id@ && forall|m: int|
                0 <= m < p ==> ids@[m]@ != id@,
            None => forall|m: int| 0 <= m < ids@.len() ==> ids@[m]@ != id@,
        },
        match r {
            Some(p) => first_pos(strings_view(ids@), id@) == Some(p as int),
            None => first_pos(strings_view(ids@), id@) is None,
        },
{
    let ghost sv = strings_view(ids@);
    let n = ids.len();
    assert(sv.skip(0) =~= sv);
    for i in 0..n
        invariant
            n == ids@.len(),
            sv == strings_view(ids@),
            forall|m: int| 0 <= m < i ==> ids@[m]@ != id@,
            first_pos(sv, id@) == match first_pos(sv.skip(i as int), id@) {
                Some(p) => Some(p + i),
                None => None::<int>,
            },
    {
        assert(sv.skip(i as int).drop_first() =~= sv.skip(i + 1));
        assert(sv.skip(i as int)[0] == ids@[i as int]@);
        if ids[i] == *id {
            return Some(i);
        }
    }
    assert(sv.skip(n as int) =~= Seq::<Seq<char>>::empty());
    None
}

} // verus!
