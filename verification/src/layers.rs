//! The layer stack of a slide: adding layers on top, selecting, deleting and
//! moving them through the stacking order.
use vstd::prelude::*;
use crate::domain::Layer;
use crate::lists::{remove_at, swapped};

verus! {

/// The text fields of the layer inspector.
#[derive(Clone, Debug)]
pub struct LayerPanelState {
    pub selected_layer_index: Option<usize>,
    pub editing_text: String,
    pub editing_font_size: String,
    pub editing_pos_x: String,
    pub editing_pos_y: String,
    pub editing_width: String,
    pub editing_height: String,
    pub editing_stroke_width: String,
    pub editing_font_family: String,
    pub editing_line_height: String,
    pub editing_letter_spacing: String,
    pub editing_glow_radius: String,
    pub editing_text_stroke_width: String,
}

impl Default for LayerPanelState {
    fn default() -> (s: LayerPanelState)
        ensures
            s.selected_layer_index is None,
            s.editing_text@.len() == 0,
            s.editing_font_size@.len() == 0,
            s.editing_pos_x@.len() == 0,
            s.editing_pos_y@.len() == 0,
            s.editing_width@.len() == 0,
            s.editing_height@.len() == 0,
            s.editing_stroke_width@.len() == 0,
            s.editing_font_family@.len() == 0,
            s.editing_line_height@.len() == 0,
            s.editing_letter_spacing@.len() == 0,
            s.editing_glow_radius@.len() == 0,
            s.editing_text_stroke_width@.len() == 0,
    {
        LayerPanelState {
            selected_layer_index: None,
            editing_text: String::new(),
            editing_font_size: String::new(),
            editing_pos_x: String::new(),
            editing_pos_y: String::new(),
            editing_width: String::new(),
            editing_height: String::new(),
            editing_stroke_width: String::new(),
            editing_font_family: String::new(),
            editing_line_height: String::new(),
            editing_letter_spacing: String::new(),
            editing_glow_radius: String::new(),
            editing_text_stroke_width: String::new(),
        }
    }
}

/// The highest z-order in `ls`, or -1 when there are no layers.
pub open spec fn max_z(ls: Seq<Layer>) -> int
    decreases ls.len(),
{
    if ls.len() == 0 {
        -1
    } else if ls.len() == 1 {
        ls[0].z_order as int
    } else {
        let rest = max_z(ls.drop_last());
        if ls.last().z_order > rest {
            ls.last().z_order as int
        } else {
            rest
        }
    }
}

proof fn lemma_max_z_bounds(ls: Seq<Layer>)
    ensures
        forall|k: int| 0 <= k < ls.len() ==> (#[trigger] ls[k]).z_order <= max_z(ls),
        ls.len() > 0 ==> exists|k: int| 0 <= k < ls.len() && (#[trigger] ls[k]).z_order == max_z(ls),
        max_z(ls) >= i32::MIN,
        max_z(ls) <= i32::MAX,
    decreases ls.len(),
{
    if ls.len() == 1 {
        assert(ls[0].z_order == max_z(ls));
    } else if ls.len() > 1 {
        lemma_max_z_bounds(ls.drop_last());
        assert forall|k: int| 0 <= k < ls.len() implies (#[trigger] ls[k]).z_order <= max_z(ls) by {
            if k < ls.len() - 1 {
                assert(ls[k] == ls.drop_last()[k]);
            }
        }
        if ls.last().z_order > max_z(ls.drop_last()) {
            assert(ls[ls.len() - 1].z_order == max_z(ls));
        } else {
            let k = choose|k: int| 0 <= k < ls.drop_last().len() && (#[trigger] ls.drop_last()[k]).z_order == max_z(ls.drop_last());
            assert(ls[k] == ls.drop_last()[k]);
        }
    }
}

/// The highest z-order among the layers, -1 for none.
pub fn max_z_order(ls: &Vec<Layer>) -> (m: i32)
    ensures
        m as int == max_z(ls@),
{
    if ls.len() == 0 {
        return -1;
    }
    let mut m: i32 = ls[0].z_order;
    let mut i: usize = 1;
    assert(ls@.take(1) =~= seq![ls@[0]]);
    while i < ls.len()
        invariant
            1 <= i <= ls@.len(),
            m as int == max_z(ls@.take(i as int)),
        decreases ls@.len() - i,
    {
        assert(ls@.take(i + 1).drop_last() =~= ls@.take(i as int));
        if ls[i].z_order > m {
            m = ls[i].z_order;
        }
        i = i + 1;
    }
    assert(ls@.take(ls@.len() as int) =~= ls@);
    m
}

/// Puts `layer` on top of the stack, one above the highest z-order, and
/// returns the index to select: the new last layer.
pub fn add_on_top(ls: &mut Vec<Layer>, layer: Layer) -> (idx: usize)
    requires
        max_z(old(ls)@) < i32::MAX,
    ensures
        final(ls)@ == old(ls)@.push(Layer { z_order: (max_z(old(ls)@) + 1) as i32, ..layer }),
        idx == old(ls)@.len(),
{
    let m = max_z_order(ls);
    let mut l = layer;
    l.z_order = m + 1;
    ls.push(l);
    ls.len() - 1
}

/// A selection request checked against the layer count: kept only when it
/// names an existing layer.
pub open spec fn checked_selection(idx: Option<usize>, len: nat) -> Option<usize> {
    match idx {
        Some(i) => if i < len {
            Some(i)
        } else {
            None
        },
        None => None,
    }
}

/// The selection to keep after selecting `idx` among `len` layers.
pub fn select_layer(idx: Option<usize>, len: usize) -> (r: Option<usize>)
    ensures
        r == checked_selection(idx, len as nat),
{
    match idx {
        Some(i) => if i < len {
            Some(i)
        } else {
            None
        },
        None => None,
    }
}

/// Deletes the selected layer, when the selection names one, and returns the
/// new selection: the layer below it (or the first), or none when the stack
/// became empty. `None` when nothing was deleted.
pub fn delete_selected(ls: &mut Vec<Layer>, idx: usize) -> (r: Option<Option<usize>>)
    ensures
        idx < old(ls)@.len() ==> final(ls)@ == old(ls)@.remove(idx as int) && r == Some(
            if old(ls)@.len() == 1 {
                None::<usize>
            } else {
                Some(if idx > 0 {
                    (idx - 1) as usize
                } else {
                    0usize
                })
            },
        ),
        idx >= old(ls)@.len() ==> *final(ls) == *old(ls) && r is None,
{
    if remove_at(ls, idx) {
        if ls.len() == 0 {
            Some(None)
        } else {
            Some(Some(
                if idx > 0 {
                    idx - 1
                } else {
                    0
                },
            ))
        }
    } else {
        None
    }
}

/// The stack after raising layer `idx` one step: it takes one z-order more,
/// the layer above it one less, and the two change places.
pub open spec fn raised(ls: Seq<Layer>, idx: int) -> Seq<Layer> {
    let a = ls[idx];
    let b = ls[idx + 1];
    swapped(
        ls.update(idx, Layer { z_order: (a.z_order + 1) as i32, ..a }).update(
            idx + 1,
            Layer { z_order: (b.z_order - 1) as i32, ..b },
        ),
        idx,
        idx + 1,
    )
}

/// The stack after lowering layer `idx` one step: it takes one z-order less,
/// the layer below it one more, and the two change places.
pub open spec fn lowered(ls: Seq<Layer>, idx: int) -> Seq<Layer> {
    let a = ls[idx];
    let b = ls[idx - 1];
    swapped(
        ls.update(idx, Layer { z_order: (a.z_order - 1) as i32, ..a }).update(
            idx - 1,
            Layer { z_order: (b.z_order + 1) as i32, ..b },
        ),
        idx,
        idx - 1,
    )
}

/// Whether the z-orders of layers `i` and `j` leave room for a step.
pub open spec fn room_to_step(ls: Seq<Layer>, up: int, down: int) -> bool {
    ls[up].z_order < i32::MAX && ls[down].z_order > i32::MIN
}

/// Raises the selected layer one step when there is a layer above it, and
/// returns the new selection.
pub fn move_selected_up(ls: &mut Vec<Layer>, idx: usize) -> (r: Option<usize>)
    requires
        idx + 1 < old(ls)@.len() ==> room_to_step(old(ls)@, idx as int, idx + 1),
    ensures
        idx + 1 < old(ls)@.len() ==> final(ls)@ == raised(old(ls)@, idx as int) && r == Some(
            (idx + 1) as usize,
        ),
        !(idx + 1 < old(ls)@.len()) ==> *final(ls) == *old(ls) && r is None,
{
    if idx < ls.len() && idx + 1 < ls.len() {
        let mut a = ls[idx];
        let mut b = ls[idx + 1];
        a.z_order = a.z_order + 1;
        b.z_order = b.z_order - 1;
        ls.set(idx, b);
        ls.set(idx + 1, a);
        assert(ls@ =~= raised(old(ls)@, idx as int));
        Some(idx + 1)
    } else {
        None
    }
}

/// Lowers the selected layer one step, and returns the new selection. The
/// bottom layer stays where it is.
pub fn move_selected_down(ls: &mut Vec<Layer>, idx: usize) -> (r: Option<usize>)
    requires
        idx == 0 || idx < old(ls)@.len(),
        0 < idx < old(ls)@.len() ==> room_to_step(old(ls)@, idx - 1, idx as int),
    ensures
        idx > 0 ==> final(ls)@ == lowered(old(ls)@, idx as int) && r == Some((idx - 1) as usize),
        idx == 0 ==> *final(ls) == *old(ls) && r is None,
{
    if idx == 0 {
        return None;
    }
    let mut a = ls[idx];
    let mut b = ls[idx - 1];
    a.z_order = a.z_order - 1;
    b.z_order = b.z_order + 1;
    ls.set(idx, b);
    ls.set(idx - 1, a);
    assert(ls@ =~= lowered(old(ls)@, idx as int));
    Some(idx - 1)
}

/// Flips the visibility of the selected layer, when there is one.
pub fn toggle_visibility(ls: &mut Vec<Layer>, idx: usize)
    ensures
        idx < old(ls)@.len() ==> final(ls)@ == old(ls)@.update(
            idx as int,
            Layer { visible: !old(ls)@[idx as int].visible, ..old(ls)@[idx as int] },
        ),
        idx >= old(ls)@.len() ==> final(ls)@ == old(ls)@,
{
    if idx < ls.len() {
        let mut l = ls[idx];
        l.visible = !l.visible;
        ls.set(idx, l);
    }
}

/// Flips the lock of the selected layer, when there is one.
pub fn toggle_lock(ls: &mut Vec<Layer>, idx: usize)
    ensures
        idx < old(ls)@.len() ==> final(ls)@ == old(ls)@.update(
            idx as int,
            Layer { locked: !old(ls)@[idx as int].locked, ..old(ls)@[idx as int] },
        ),
        idx >= old(ls)@.len() ==> final(ls)@ == old(ls)@,
{
    if idx < ls.len() {
        let mut l = ls[idx];
        l.locked = !l.locked;
        ls.set(idx, l);
    }
}

/// Whether layer `i` can be picked with the pointer: it lies under the
/// pointer (`hit`), is visible and is not locked.
pub open spec fn pickable(ls: Seq<Layer>, hit: Seq<bool>, i: int) -> bool {
    hit[i] && ls[i].visible && !ls[i].locked
}

/// The layer a click on the canvas picks, where `hit` tells which layers lie
/// under the pointer: among the pickable ones, the one highest in the
/// stacking order, and the first in the list among equals. `None` when no
/// layer is pickable.
pub fn topmost_hit(ls: &Vec<Layer>, hit: &Vec<bool>) -> (r: Option<usize>)
    requires
        hit@.len() == ls@.len(),
    ensures
        match r {
            Some(i) => {
                &&& i < ls@.len()
                &&& pickable(ls@, hit@, i as int)
                &&& forall|j: int|
                    0 <= j < ls@.len() && pickable(ls@, hit@, j) ==> ls@[j].z_order <= ls@[i as int].z_order
                        && (ls@[j].z_order == ls@[i as int].z_order ==> i <= j)
            },
            None => forall|j: int| 0 <= j < ls@.len() ==> !pickable(ls@, hit@, j),
        },
{
    let n = ls.len();
    let mut best: Option<usize> = None;
    for i in 0..n
        invariant
            n == ls@.len(),
            hit@.len() == n,
            match best {
                Some(b) => {
                    &&& b < i
                    &&& pickable(ls@, hit@, b as int)
                    &&& forall|j: int|
                        0 <= j < i && pickable(ls@, hit@, j) ==> ls@[j].z_order <= ls@[b as int].z_order
                            && (ls@[j].z_order == ls@[b as int].z_order ==> b <= j)
                },
                None => forall|j: int| 0 <= j < i ==> !pickable(ls@, hit@, j),
            },
    {
        if hit[i] && ls[i].visible && !ls[i].locked {
            match best {
                Some(b) => if ls[i].z_order > ls[b].z_order {
                    best = Some(i);
                },
                None => {
                    best = Some(i);
                },
            }
        }
    }
    best
}

/// Raising a layer and then lowering it back restores the stack.
pub proof fn law_raise_then_lower_restores(ls: Seq<Layer>, idx: int)
    requires
        0 <= idx,
        idx + 1 < ls.len(),
        room_to_step(ls, idx, idx + 1),
    ensures
        lowered(raised(ls, idx), idx + 1) == ls,
{
    let r = raised(ls, idx);
    assert(lowered(r, idx + 1) =~= ls);
}

/// A new layer lands above every other.
pub proof fn law_added_layer_on_top(ls: Seq<Layer>, layer: Layer)
    requires
        max_z(ls) < i32::MAX,
    ensures
        ({
            let top = Layer { z_order: (max_z(ls) + 1) as i32, ..layer };
            forall|k: int| 0 <= k < ls.len() ==> (#[trigger] ls[k]).z_order < top.z_order
        }),
{
    lemma_max_z_bounds(ls);
}

/// Raising a layer moves it one place up with one z-order more, moves the
/// layer it passes one place down with one z-order less, and leaves every
/// other layer alone.
pub proof fn law_raise_swaps_neighbours(ls: Seq<Layer>, idx: int)
    requires
        0 <= idx,
        idx + 1 < ls.len(),
        room_to_step(ls, idx, idx + 1),
    ensures
        raised(ls, idx)[idx + 1].z_order == ls[idx].z_order + 1,
        raised(ls, idx)[idx].z_order == ls[idx + 1].z_order - 1,
        raised(ls, idx).len() == ls.len(),
        forall|k: int| 0 <= k < ls.len() && k != idx && k != idx + 1 ==> #[trigger] raised(ls, idx)[k] == ls[k],
{
}

} // verus!
