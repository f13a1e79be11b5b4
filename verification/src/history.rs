//! Undo and redo of edits to the presentation being edited.
use vstd::prelude::*;

verus! {

/// How many snapshots the undo stack keeps; the oldest is dropped beyond it.
pub const UNDO_LIMIT: usize = 50;

/// Undo and redo stacks of snapshots, the most recent last.
pub struct EditHistory<T> {
    pub undo_stack: Vec<T>,
    pub redo_stack: Vec<T>,
}

/// The undo stack after recording `snapshot`: pushed, and trimmed from the
/// front to the limit.
pub open spec fn recorded_undo<T>(undo: Seq<T>, snapshot: T) -> Seq<T> {
    let pushed = undo.push(snapshot);
    if pushed.len() > UNDO_LIMIT {
        pushed.drop_first()
    } else {
        pushed
    }
}

/// One step back: the last snapshot becomes current and the current value,
/// if any, goes onto the redo stack. `None` when there is nothing to undo.
pub open spec fn step_spec<T>(from: Seq<T>, to: Seq<T>, current: Option<T>) -> Option<
    (Seq<T>, Seq<T>, Option<T>),
> {
    if from.len() == 0 {
        None
    } else {
        let to2 = match current {
            Some(c) => to.push(c),
            None => to,
        };
        Some((from.drop_last(), to2, Some(from.last())))
    }
}

impl<T> EditHistory<T> {
    /// An empty history.
    pub fn new() -> (h: Self)
        ensures
            h.undo_stack@.len() == 0,
            h.redo_stack@.len() == 0,
    {
        EditHistory { undo_stack: Vec::new(), redo_stack: Vec::new() }
    }

    /// Records `snapshot` (the state before an edit): it goes onto the undo
    /// stack, the oldest snapshot is dropped past the limit, and the redo
    /// stack is cleared.
    pub fn record(&mut self, snapshot: T)
        ensures
            final(self).undo_stack@ == recorded_undo(old(self).undo_stack@, snapshot),
            final(self).redo_stack@.len() == 0,
    {
        self.undo_stack.push(snapshot);
        if self.undo_stack.len() > UNDO_LIMIT {
            self.undo_stack.remove(0);
            assert(self.undo_stack@ =~= old(self).undo_stack@.push(snapshot).drop_first());
        }
        self.redo_stack.clear();
    }

    /// Undoes one edit: `current` becomes the last snapshot, and its old value
    /// goes onto the redo stack. Returns whether there was anything to undo;
    /// when not, nothing changes.
    pub fn undo(&mut self, current: &mut Option<T>) -> (done: bool)
        ensures
            done == (old(self).undo_stack@.len() > 0),
            match step_spec(old(self).undo_stack@, old(self).redo_stack@, *old(current)) {
                Some((u, r, c)) => final(self).undo_stack@ == u && final(self).redo_stack@ == r
                    && *final(current) == c,
                None => final(self).undo_stack@ == old(self).undo_stack@
                    && final(self).redo_stack@ == old(self).redo_stack@ && *final(current)
                    == *old(current),
            },
    {
        match self.undo_stack.pop() {
            Some(snapshot) => {
                match current.take() {
                    Some(c) => self.redo_stack.push(c),
                    None => {},
                }
                *current = Some(snapshot);
                true
            },
            None => false,
        }
    }

    /// Redoes one undone edit: `current` becomes the last redo snapshot, and
    /// its old value goes onto the undo stack. Returns whether there was
    /// anything to redo; when not, nothing changes.
    pub fn redo(&mut self, current: &mut Option<T>) -> (done: bool)
        ensures
            done == (old(self).redo_stack@.len() > 0),
            match step_spec(old(self).redo_stack@, old(self).undo_stack@, *old(current)) {
                Some((r, u, c)) => final(self).undo_stack@ == u && final(self).redo_stack@ == r
                    && *final(current) == c,
                None => final(self).undo_stack@ == old(self).undo_stack@
                    && final(self).redo_stack@ == old(self).redo_stack@ && *final(current)
                    == *old(current),
            },
    {
        match self.redo_stack.pop() {
            Some(snapshot) => {
                match current.take() {
                    Some(c) => self.undo_stack.push(c),
                    None => {},
                }
                *current = Some(snapshot);
                true
            },
            None => false,
        }
    }
}

/// Recording keeps the undo stack within its limit.
pub proof fn law_record_keeps_limit<T>(undo: Seq<T>, snapshot: T)
    requires
        undo.len() <= UNDO_LIMIT,
    ensures
        recorded_undo(undo, snapshot).len() <= UNDO_LIMIT,
        recorded_undo(undo, snapshot).last() == snapshot,
{
}

/// Undo right after recording a snapshot brings that snapshot back, and puts
/// the value it replaced on the redo stack.
pub proof fn law_undo_after_record<T>(undo: Seq<T>, snapshot: T, current: T)
    ensures
        step_spec(recorded_undo(undo, snapshot), Seq::empty(), Some(current)) == Some(
            (recorded_undo(undo, snapshot).drop_last(), seq![current], Some(snapshot)),
        ),
{
    assert(Seq::<T>::empty().push(current) =~= seq![current]);
}

/// Redo right after an undo restores the value and both stacks as they were.
pub proof fn law_redo_undoes_undo<T>(undo: Seq<T>, redo: Seq<T>, current: T)
    requires
        undo.len() > 0,
    ensures
        ({
            let (u1, r1, c1) = step_spec(undo, redo, Some(current))->0;
            step_spec(r1, u1, c1) == Some((redo, undo, Some(current)))
        }),
{
    let (u1, r1, c1) = step_spec(undo, redo, Some(current))->0;
    assert(r1.drop_last() =~= redo);
    assert(u1.push(undo.last()) =~= undo);
}

/// Undo right after a redo restores the value and both stacks as they were.
pub proof fn law_undo_undoes_redo<T>(undo: Seq<T>, redo: Seq<T>, current: T)
    requires
        redo.len() > 0,
    ensures
        ({
            let (r1, u1, c1) = step_spec(redo, undo, Some(current))->0;
            step_spec(u1, r1, c1) == Some((undo, redo, Some(current)))
        }),
{
    let (r1, u1, c1) = step_spec(redo, undo, Some(current))->0;
    assert(u1.drop_last() =~= undo);
    assert(r1.push(redo.last()) =~= redo);
}

} // verus!
