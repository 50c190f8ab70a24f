//! A linear undo log over full-document snapshots.

use vstd::prelude::*;

verus! {

/// Mathematical model of an [`EditHistory`]: the snapshots, oldest first,
/// and the index of the one the document currently shows.
pub struct HistoryView {
    pub snapshots: Seq<Seq<char>>,
    pub index: nat,
}

impl HistoryView {
    /// The index always points into the snapshots.
    pub open spec fn wf(self) -> bool {
        self.index < self.snapshots.len()
    }

    /// A history holding only `text`, the baseline.
    pub open spec fn baseline(text: Seq<char>) -> HistoryView {
        HistoryView { snapshots: seq![text], index: 0 }
    }

    /// Records `text`: every snapshot after the current one is dropped, then
    /// `text` becomes the new last snapshot and the current one.
    pub open spec fn record(self, text: Seq<char>) -> HistoryView {
        HistoryView {
            snapshots: self.snapshots.take((self.index + 1) as int).push(text),
            index: self.index + 1,
        }
    }

    /// The history after one undo: one step back, unless at the baseline.
    pub open spec fn undo(self) -> HistoryView {
        if self.index > 0 {
            HistoryView { snapshots: self.snapshots, index: (self.index - 1) as nat }
        } else {
            self
        }
    }

    /// What one undo hands back: the snapshot stepped back to, if any.
    pub open spec fn undo_result(self) -> Option<Seq<char>> {
        if self.index > 0 {
            Some(self.snapshots[self.index - 1])
        } else {
            None
        }
    }

    pub open spec fn is_clean(self) -> bool {
        self.index == 0
    }
}

/// One call on a history, for reasoning about sequences of calls.
pub enum HistoryOp {
    Record(Seq<char>),
    Undo,
}

impl HistoryView {
    pub open spec fn apply(self, op: HistoryOp) -> HistoryView {
        match op {
            HistoryOp::Record(text) => self.record(text),
            HistoryOp::Undo => self.undo(),
        }
    }

    /// The history after the calls in `ops`, first to last.
    pub open spec fn run(self, ops: Seq<HistoryOp>) -> HistoryView
        decreases ops.len(),
    {
        if ops.len() == 0 {
            self
        } else {
            self.run(ops.drop_last()).apply(ops.last())
        }
    }

    /// The history after `n` undos in a row.
    pub open spec fn undo_times(self, n: nat) -> HistoryView
        decreases n,
    {
        if n == 0 {
            self
        } else {
            self.undo_times((n - 1) as nat).undo()
        }
    }
}

/// The text of the last `Record` in `ops`, if there is one.
pub open spec fn last_recorded(ops: Seq<HistoryOp>) -> Option<Seq<char>>
    decreases ops.len(),
{
    if ops.len() == 0 {
        None
    } else {
        match ops.last() {
            HistoryOp::Record(text) => Some(text),
            HistoryOp::Undo => last_recorded(ops.drop_last()),
        }
    }
}

/// Whatever records and undos are made, the history stays well formed, the
/// last snapshot is the text recorded last, and an undo hands back a snapshot
/// that stands strictly before it: never one newer than the last recorded.
pub proof fn lemma_undo_never_newer(h: HistoryView, ops: Seq<HistoryOp>)
    requires
        h.wf(),
    ensures
        h.run(ops).wf(),
        last_recorded(ops) matches Some(t) ==> h.run(ops).snapshots.last() == t,
        h.run(ops).undo_result() matches Some(s) ==> {
            let g = h.run(ops);
            &&& 0 < g.index
            &&& s == g.snapshots[g.index - 1]
            &&& g.index - 1 < g.snapshots.len() - 1
        },
    decreases ops.len(),
{
    if ops.len() > 0 {
        lemma_undo_never_newer(h, ops.drop_last());
    }
}

/// Undo called again and again steps back one snapshot at a time, handing
/// back each earlier snapshot in turn, and once the index has reached the
/// baseline it returns nothing.
pub proof fn lemma_undo_reaches_baseline(h: HistoryView)
    requires
        h.wf(),
    ensures
        h.undo_times(h.index).is_clean(),
        h.undo_times(h.index).undo_result() is None,
        forall|k: nat| k < h.index ==> #[trigger] h.undo_times(k).undo_result() == Some(
            h.snapshots[h.index - 1 - k],
        ),
{
    assert forall|k: nat| k <= h.index implies #[trigger] h.undo_times(k) == (HistoryView {
        snapshots: h.snapshots,
        index: (h.index - k) as nat,
    }) by {
        lemma_undo_times(h, k);
    }
    assert forall|k: nat| k < h.index implies #[trigger] h.undo_times(k).undo_result() == Some(
        h.snapshots[h.index - 1 - k],
    ) by {
        assert(h.undo_times(k).index == h.index - k);
    }
}

/// Recording after an undo discards every snapshot after the current index:
/// the new text takes the place of the first undone snapshot.
pub proof fn lemma_record_after_undo(h: HistoryView, text: Seq<char>)
    requires
        h.wf(),
        h.index > 0,
    ensures
        h.undo().record(text).snapshots == h.snapshots.take(h.index as int).push(text),
        h.undo().record(text).index == h.index,
        h.undo().record(text).snapshots.len() == h.index + 1,
{
    assert(h.undo().record(text).snapshots =~= h.snapshots.take(h.index as int).push(text));
}

proof fn lemma_undo_times(h: HistoryView, k: nat)
    requires
        k <= h.index,
    ensures
        h.undo_times(k) == (HistoryView { snapshots: h.snapshots, index: (h.index - k) as nat }),
    decreases k,
{
    if k > 0 {
        lemma_undo_times(h, (k - 1) as nat);
    }
}

/// A linear undo log: snapshots of the whole document and a current index.
/// There is no redo: recording after an undo discards the snapshots ahead.
pub struct EditHistory {
    history: Vec<String>,
    current_index: usize,
}

impl View for EditHistory {
    type V = HistoryView;

    closed spec fn view(&self) -> HistoryView {
        HistoryView {
            snapshots: self.history@.map_values(|s: String| s@),
            index: self.current_index as nat,
        }
    }
}

impl EditHistory {
    /// A history holding only the baseline `initial_text`.
    pub fn new(initial_text: String) -> (r: Self)
        ensures
            r@ == HistoryView::baseline(initial_text@),
            r@.wf(),
    {
        let r = EditHistory { history: vec![initial_text], current_index: 0 };
        assert(r@.snapshots =~= seq![initial_text@]);
        r
    }

    /// Records `text` as the newest snapshot, discarding any undone ones.
    pub fn add_edit(&mut self, text: String)
        requires
            old(self)@.wf(),
        ensures
            final(self)@ == old(self)@.record(text@),
            final(self)@.wf(),
    {
        let ghost before = self@;
        if self.current_index < self.history.len() - 1 {
            self.history.truncate(self.current_index + 1);
        }
        self.history.push(text);
        self.current_index = self.current_index + 1;
        assert(self@.snapshots =~= before.record(text@).snapshots);
    }

    /// Steps back one snapshot and returns it; `None` at the baseline.
    pub fn undo(&mut self) -> (r: Option<String>)
        requires
            old(self)@.wf(),
        ensures
            final(self)@ == old(self)@.undo(),
            final(self)@.wf(),
            r matches Some(s) ==> old(self)@.undo_result() == Some(s@),
            r is None <==> old(self)@.undo_result() is None,
    {
        if self.current_index > 0 {
            self.current_index = self.current_index - 1;
            Some(self.history[self.current_index].clone())
        } else {
            None
        }
    }

    /// True exactly when the current snapshot is the baseline.
    pub fn is_clean(&self) -> (r: bool)
        ensures
            r == self@.is_clean(),
    {
        self.current_index == 0
    }

    /// Number of snapshots held.
    pub fn len(&self) -> (r: usize)
        ensures
            r == self@.snapshots.len(),
    {
        self.history.len()
    }

    /// Index of the snapshot the document currently shows.
    pub fn current_index(&self) -> (r: usize)
        ensures
            r == self@.index,
    {
        self.current_index
    }

    /// The snapshot at `i`.
    pub fn snapshot(&self, i: usize) -> (r: &String)
        requires
            i < self@.snapshots.len(),
        ensures
            r@ == self@.snapshots[i as int],
    {
        &self.history[i]
    }
}

} // verus!
