use vstd::prelude::*;

verus! {

/// Maximum number of snapshots retained on the undo stack.
pub const MAX_HISTORY: usize = 50;

/// Linear undo / redo history of snapshots of type `S`.
///
/// Snapshots are recorded *before* a mutation; recording clears the redo
/// stack, and only the most recent [`MAX_HISTORY`] snapshots are kept.
pub struct History<S> {
    undo_stack: Vec<S>,
    redo_stack: Vec<S>,
}

/// The two stacks of a history, oldest first.
pub struct HistoryView<S> {
    pub undo: Seq<S>,
    pub redo: Seq<S>,
}

/// Stacks after recording `snap`: pushed on the undo stack (dropping the
/// oldest snapshot beyond the limit), redo cleared.
pub open spec fn recorded<S>(h: HistoryView<S>, snap: S) -> HistoryView<S> {
    let pushed = h.undo.push(snap);
    HistoryView {
        undo: if pushed.len() > MAX_HISTORY { pushed.drop_first() } else { pushed },
        redo: Seq::empty(),
    }
}

/// Stacks after undoing with `current` as the present state, and the
/// snapshot to restore (none when there is nothing to undo).
pub open spec fn undone<S>(h: HistoryView<S>, current: S) -> (HistoryView<S>, Option<S>) {
    if h.undo.len() == 0 {
        (h, None)
    } else {
        (HistoryView { undo: h.undo.drop_last(), redo: h.redo.push(current) }, Some(h.undo.last()))
    }
}

/// Stacks after redoing with `current` as the present state, and the
/// snapshot to restore (none when there is nothing to redo).
pub open spec fn redone<S>(h: HistoryView<S>, current: S) -> (HistoryView<S>, Option<S>) {
    if h.redo.len() == 0 {
        (h, None)
    } else {
        (HistoryView { undo: h.undo.push(current), redo: h.redo.drop_last() }, Some(h.redo.last()))
    }
}

/// Redo takes back an undo: undoing with `current` and then redoing with the
/// snapshot that undo restored gives back `current` and the very same stacks.
pub proof fn lemma_redo_reverts_undo<S>(h: HistoryView<S>, current: S)
    requires
        h.undo.len() > 0,
    ensures
        ({
            let (after_undo, restored) = undone(h, current);
            let (after_redo, back) = redone(after_undo, restored.unwrap());
            &&& back == Some(current)
            &&& after_redo.undo == h.undo
            &&& after_redo.redo == h.redo
        }),
{
    let (after_undo, restored) = undone(h, current);
    assert(after_undo.undo.push(restored.unwrap()) =~= h.undo);
    assert(after_undo.redo.drop_last() =~= h.redo);
}

/// Undo takes back a redo, in the same way.
pub proof fn lemma_undo_reverts_redo<S>(h: HistoryView<S>, current: S)
    requires
        h.redo.len() > 0,
    ensures
        ({
            let (after_redo, restored) = redone(h, current);
            let (after_undo, back) = undone(after_redo, restored.unwrap());
            &&& back == Some(current)
            &&& after_undo.undo == h.undo
            &&& after_undo.redo == h.redo
        }),
{
    let (after_redo, restored) = redone(h, current);
    assert(after_redo.undo.drop_last() =~= h.undo);
    assert(after_redo.redo.push(restored.unwrap()) =~= h.redo);
}

/// Undo right after recording restores the recorded state, and a new
/// recording leaves nothing to redo.
pub proof fn lemma_undo_after_record<S>(h: HistoryView<S>, snap: S, current: S)
    ensures
        undone(recorded(h, snap), current).1 == Some(snap),
        recorded(h, snap).redo.len() == 0,
{
    let pushed = h.undo.push(snap);
    if pushed.len() > MAX_HISTORY {
        assert(pushed.drop_first().last() == snap);
    }
}

impl<S> History<S> {
    /// The stacks of this history.
    pub closed spec fn view(&self) -> HistoryView<S> {
        HistoryView { undo: self.undo_stack@, redo: self.redo_stack@ }
    }

    /// The two stacks together never hold more than [`MAX_HISTORY`]
    /// snapshots: recording trims the undo stack and clears the redo stack,
    /// and undo and redo only move a snapshot from one stack to the other.
    pub closed spec fn wf(&self) -> bool {
        self.undo_stack@.len() + self.redo_stack@.len() <= MAX_HISTORY
    }

    /// An empty history.
    pub fn new() -> (h: History<S>)
        ensures
            h.wf(),
            h.view().undo.len() == 0,
            h.view().redo.len() == 0,
    {
        History { undo_stack: Vec::new(), redo_stack: Vec::new() }
    }

    /// Whether there is anything to undo.
    pub fn can_undo(&self) -> (b: bool)
        ensures
            b == (self.view().undo.len() > 0),
    {
        self.undo_stack.len() > 0
    }

    /// Whether there is anything to redo.
    pub fn can_redo(&self) -> (b: bool)
        ensures
            b == (self.view().redo.len() > 0),
    {
        self.redo_stack.len() > 0
    }

    /// Number of snapshots on the undo stack.
    pub fn undo_len(&self) -> (n: usize)
        ensures
            n == self.view().undo.len(),
    {
        self.undo_stack.len()
    }

    /// Number of snapshots on the redo stack.
    pub fn redo_len(&self) -> (n: usize)
        ensures
            n == self.view().redo.len(),
    {
        self.redo_stack.len()
    }

    /// Record the state before a mutation.
    pub fn record(&mut self, snap: S)
        requires
            old(self).wf(),
        ensures
            final(self).wf(),
            final(self).view() == recorded(old(self).view(), snap),
    {
        self.undo_stack.push(snap);
        if self.undo_stack.len() > MAX_HISTORY {
            let _ = self.undo_stack.remove(0);
        }
        self.redo_stack.clear();
        proof {
            let pushed = old(self).view().undo.push(snap);
            if pushed.len() > MAX_HISTORY {
                assert(self.undo_stack@ =~= pushed.drop_first());
            }
            assert(self.view() =~= recorded(old(self).view(), snap));
        }
    }

    /// Drop the most recent snapshot (a recorded action that changed nothing).
    pub fn discard_last(&mut self)
        requires
            old(self).wf(),
        ensures
            final(self).wf(),
            final(self).view().redo == old(self).view().redo,
            final(self).view().undo == if old(self).view().undo.len() == 0 {
                old(self).view().undo
            } else {
                old(self).view().undo.drop_last()
            },
    {
        let _ = self.undo_stack.pop();
    }

    /// Undo: hand back the snapshot to restore, keeping `current` for redo.
    pub fn undo(&mut self, current: S) -> (r: Option<S>)
        requires
            old(self).wf(),
        ensures
            final(self).wf(),
            (final(self).view(), r) == undone(old(self).view(), current),
    {
        match self.undo_stack.pop() {
            Some(snap) => {
                self.redo_stack.push(current);
                proof {
                    assert(self.view() =~= undone(old(self).view(), current).0);
                }
                Some(snap)
            },
            None => None,
        }
    }

    /// Redo: hand back the snapshot to restore, keeping `current` for undo.
    pub fn redo(&mut self, current: S) -> (r: Option<S>)
        requires
            old(self).wf(),
        ensures
            final(self).wf(),
            (final(self).view(), r) == redone(old(self).view(), current),
    {
        match self.redo_stack.pop() {
            Some(snap) => {
                self.undo_stack.push(current);
                proof {
                    assert(self.view() =~= redone(old(self).view(), current).0);
                }
                Some(snap)
            },
            None => None,
        }
    }
}

} // verus!
