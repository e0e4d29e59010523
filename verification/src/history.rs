//! Undo and redo over full snapshots of a project.
use vstd::prelude::*;
use crate::project::{Project, ProjectView};
use crate::textutil::{owned, push_str};

verus! {

/// How many steps the history keeps at most.
pub const MAX_STEPS: usize = 50;

/// A saved state: the project as it was, and what was about to be done to it.
#[derive(Debug)]
pub struct HistoryEntry {
    /// The project before the operation.
    pub snapshot: Project,
    /// What the operation was.
    pub description: String,
}

/// The content of a history entry.
pub struct EntryView {
    pub snapshot: ProjectView,
    pub description: Seq<char>,
}

impl View for HistoryEntry {
    type V = EntryView;

    open spec fn view(&self) -> EntryView {
        EntryView { snapshot: self.snapshot@, description: self.description@ }
    }
}

impl Clone for HistoryEntry {
    fn clone(&self) -> (r: Self)
        ensures
            r@ == self@,
    {
        HistoryEntry { snapshot: self.snapshot.clone(), description: self.description.clone() }
    }
}

/// Views of history entries.
pub open spec fn entry_views(v: Seq<HistoryEntry>) -> Seq<EntryView> {
    v.map_values(|e: HistoryEntry| e@)
}

/// The undo and redo stacks; the last entry of each is the top.
#[derive(Debug)]
pub struct History {
    past: Vec<HistoryEntry>,
    future: Vec<HistoryEntry>,
}

/// The content of a history: the states that undo and redo give back, oldest first.
pub struct HistoryView {
    pub past: Seq<EntryView>,
    pub future: Seq<EntryView>,
}

impl View for History {
    type V = HistoryView;

    closed spec fn view(&self) -> HistoryView {
        HistoryView { past: entry_views(self.past@), future: entry_views(self.future@) }
    }
}

/// The past after `e` is recorded: `e` on top, and the oldest entry dropped once
/// there are more than `MAX_STEPS`.
pub open spec fn record(past: Seq<EntryView>, e: EntryView) -> Seq<EntryView> {
    let p = past.push(e);
    if p.len() > MAX_STEPS {
        p.drop_first()
    } else {
        p
    }
}

/// The history after a push of `e`: recorded, with nothing left to redo.
pub open spec fn after_push(h: HistoryView, e: EntryView) -> HistoryView {
    HistoryView { past: record(h.past, e), future: Seq::empty() }
}

/// The history after an undo from the state `cur`.
pub open spec fn after_undo(h: HistoryView, cur: ProjectView) -> HistoryView {
    if h.past.len() == 0 {
        h
    } else {
        HistoryView {
            past: h.past.drop_last(),
            future: h.future.push(
                EntryView { snapshot: cur, description: "undo: "@ + h.past.last().description },
            ),
        }
    }
}

/// What an undo gives back: the top of the past, if any.
pub open spec fn undo_result(h: HistoryView) -> Option<ProjectView> {
    if h.past.len() == 0 {
        None
    } else {
        Some(h.past.last().snapshot)
    }
}

/// The history after a redo from the state `cur`.
pub open spec fn after_redo(h: HistoryView, cur: ProjectView) -> HistoryView {
    if h.future.len() == 0 {
        h
    } else {
        HistoryView {
            past: h.past.push(
                EntryView { snapshot: cur, description: "redo: "@ + h.future.last().description },
            ),
            future: h.future.drop_last(),
        }
    }
}

/// What a redo gives back: the top of the future, if any.
pub open spec fn redo_result(h: HistoryView) -> Option<ProjectView> {
    if h.future.len() == 0 {
        None
    } else {
        Some(h.future.last().snapshot)
    }
}

/// A history within its bound: at most `MAX_STEPS` entries in both stacks together.
pub open spec fn bounded(h: HistoryView) -> bool {
    h.past.len() + h.future.len() <= MAX_STEPS
}

impl History {
    /// An empty history.
    pub fn new() -> (r: Self)
        ensures
            r@.past.len() == 0,
            r@.future.len() == 0,
    {
        let r = History { past: Vec::new(), future: Vec::new() };
        assert(r@.past =~= Seq::<EntryView>::empty());
        assert(r@.future =~= Seq::<EntryView>::empty());
        r
    }

    /// A history made of the given stacks, as read back from storage.
    pub fn from_parts(past: Vec<HistoryEntry>, future: Vec<HistoryEntry>) -> (r: Self)
        ensures
            r@.past == entry_views(past@),
            r@.future == entry_views(future@),
    {
        History { past, future }
    }

    /// The undo stack, oldest first.
    pub fn past_entries(&self) -> (r: &Vec<HistoryEntry>)
        ensures
            entry_views(r@) == self@.past,
    {
        &self.past
    }

    /// The redo stack, oldest first.
    pub fn future_entries(&self) -> (r: &Vec<HistoryEntry>)
        ensures
            entry_views(r@) == self@.future,
    {
        &self.future
    }

    /// Records the state of `project` before an operation described by
    /// `description`. The oldest step is dropped beyond `MAX_STEPS`, and what
    /// could be redone is forgotten.
    pub fn push(&mut self, project: &Project, description: &str)
        ensures
            final(self)@ == after_push(
                old(self)@,
                EntryView { snapshot: project@, description: description@ },
            ),
    {
        let ghost e = EntryView { snapshot: project@, description: description@ };
        let ghost p0 = self@.past;
        self.past.push(HistoryEntry { snapshot: project.clone(), description: owned(description) });
        assert(entry_views(self.past@) =~= p0.push(e));
        if self.past.len() > MAX_STEPS {
            let _ = self.past.remove(0);
            assert(entry_views(self.past@) =~= p0.push(e).drop_first());
        }
        self.future.clear();
        assert(self@.future =~= Seq::<EntryView>::empty());
    }

    /// Undoes the last operation from the state `current`: gives back the state
    /// before it and makes `current` the next redo.
    pub fn undo(&mut self, current: &Project) -> (r: Option<Project>)
        ensures
            final(self)@ == after_undo(old(self)@, current@),
            match undo_result(old(self)@) {
                Some(p) => r matches Some(q) && q@ == p,
                None => r is None,
            },
    {
        let ghost h = self@;
        match self.past.pop() {
            None => {
                assert(h.past.len() == 0);
                None
            },
            Some(entry) => {
                assert(entry_views(self.past@) =~= h.past.drop_last());
                let mut d = owned("undo: ");
                push_str(&mut d, entry.description.as_str());
                self.future.push(HistoryEntry { snapshot: current.clone(), description: d });
                assert(entry_views(self.future@) =~= h.future.push(
                    EntryView { snapshot: current@, description: "undo: "@ + h.past.last().description },
                ));
                Some(entry.snapshot)
            },
        }
    }

    /// Redoes the last undone operation from the state `current`: gives back the
    /// state it led to and makes `current` the next undo.
    pub fn redo(&mut self, current: &Project) -> (r: Option<Project>)
        ensures
            final(self)@ == after_redo(old(self)@, current@),
            match redo_result(old(self)@) {
                Some(p) => r matches Some(q) && q@ == p,
                None => r is None,
            },
    {
        let ghost h = self@;
        match self.future.pop() {
            None => {
                assert(h.future.len() == 0);
                None
            },
            Some(entry) => {
                assert(entry_views(self.future@) =~= h.future.drop_last());
                let mut d = owned("redo: ");
                push_str(&mut d, entry.description.as_str());
                self.past.push(HistoryEntry { snapshot: current.clone(), description: d });
                assert(entry_views(self.past@) =~= h.past.push(
                    EntryView { snapshot: current@, description: "redo: "@ + h.future.last().description },
                ));
                Some(entry.snapshot)
            },
        }
    }

    /// Whether there is something to undo.
    pub fn can_undo(&self) -> (r: bool)
        ensures
            r == (self@.past.len() > 0),
    {
        self.past.len() > 0
    }

    /// Whether there is something to redo.
    pub fn can_redo(&self) -> (r: bool)
        ensures
            r == (self@.future.len() > 0),
    {
        self.future.len() > 0
    }

    /// The description of the operation that an undo would revert.
    pub fn undo_description(&self) -> (r: Option<&str>)
        ensures
            self@.past.len() == 0 ==> r is None,
            self@.past.len() > 0 ==> (r matches Some(d) && d@ == self@.past.last().description),
    {
        let n = self.past.len();
        if n == 0 {
            None
        } else {
            Some(self.past[n - 1].description.as_str())
        }
    }
}

impl Default for History {
    fn default() -> (r: Self)
        ensures
            r@.past.len() == 0,
            r@.future.len() == 0,
    {
        History::new()
    }
}

impl Clone for History {
    fn clone(&self) -> (r: Self)
        ensures
            r@ == self@,
    {
        History { past: clone_entries(&self.past), future: clone_entries(&self.future) }
    }
}

fn clone_entries(v: &Vec<HistoryEntry>) -> (r: Vec<HistoryEntry>)
    ensures
        entry_views(r@) == entry_views(v@),
{
    let mut out: Vec<HistoryEntry> = Vec::new();
    let mut i: usize = 0;
    while i < v.len()
        invariant
            0 <= i <= v@.len(),
            entry_views(out@) == entry_views(v@).take(i as int),
        decreases v.len() - i,
    {
        let ghost before = entry_views(out@);
        out.push(v[i].clone());
        assert(entry_views(out@) =~= before.push(v@[i as int]@));
        assert(entry_views(v@).take(i + 1) =~= entry_views(v@).take(i as int).push(v@[i as int]@));
        i = i + 1;
    }
    assert(entry_views(v@).take(v@.len() as int) =~= entry_views(v@));
    out
}

/// An undo right after a push gives back the state that was pushed, and leaves
/// the past as it was before the push when the push dropped nothing.
pub proof fn law_undo_after_push(h: HistoryView, e: EntryView, cur: ProjectView)
    ensures
        undo_result(after_push(h, e)) == Some(e.snapshot),
        h.past.len() < MAX_STEPS ==> after_undo(after_push(h, e), cur).past == h.past,
{
    let p = h.past.push(e);
    if p.len() > MAX_STEPS {
        assert(p.drop_first().last() == p.last());
    } else {
        assert(after_push(h, e).past.drop_last() =~= h.past);
    }
}

/// A redo right after an undo gives back the state the undo started from, and
/// restores the redo stack and the depth of the undo stack.
pub proof fn law_redo_after_undo(h: HistoryView, cur: ProjectView)
    requires
        h.past.len() > 0,
    ensures
        ({
            let u = after_undo(h, cur);
            let back = undo_result(h)->0;
            &&& redo_result(u) == Some(cur)
            &&& after_redo(u, back).future == h.future
            &&& after_redo(u, back).past.len() == h.past.len()
        }),
{
    let u = after_undo(h, cur);
    assert(u.future.drop_last() =~= h.future);
}

/// After a push there is nothing to redo, and something to undo.
pub proof fn law_push_clears_redo(h: HistoryView, e: EntryView)
    ensures
        after_push(h, e).future.len() == 0,
        after_push(h, e).past.len() > 0,
        after_push(h, e).past.last() == e,
{
}

/// Undo and redo on an empty stack give nothing and change nothing.
pub proof fn law_nothing_to_undo_or_redo(h: HistoryView, cur: ProjectView)
    ensures
        h.past.len() == 0 ==> undo_result(h) is None && after_undo(h, cur) == h,
        h.future.len() == 0 ==> redo_result(h) is None && after_redo(h, cur) == h,
{
}

/// Push, undo and redo keep a history within `MAX_STEPS` entries in all.
pub proof fn law_bound_kept(h: HistoryView, e: EntryView, cur: ProjectView)
    requires
        bounded(h),
    ensures
        bounded(after_push(h, e)),
        bounded(after_undo(h, cur)),
        bounded(after_redo(h, cur)),
{
}

/// The history after pushing `es` in turn.
pub open spec fn pushes(h: HistoryView, es: Seq<EntryView>) -> HistoryView
    decreases es.len(),
{
    if es.len() == 0 {
        h
    } else {
        after_push(pushes(h, es.drop_last()), es.last())
    }
}

/// The history after undoing once from each state of `curs` in turn.
pub open spec fn undos(h: HistoryView, curs: Seq<ProjectView>) -> HistoryView
    decreases curs.len(),
{
    if curs.len() == 0 {
        h
    } else {
        after_undo(undos(h, curs.drop_last()), curs.last())
    }
}

proof fn lemma_pushes_depth(h: HistoryView, es: Seq<EntryView>)
    requires
        h.past.len() <= MAX_STEPS,
    ensures
        pushes(h, es).past.len() == (if h.past.len() + es.len() > MAX_STEPS {
            MAX_STEPS as int
        } else {
            (h.past.len() + es.len()) as int
        }),
    decreases es.len(),
{
    if es.len() > 0 {
        lemma_pushes_depth(h, es.drop_last());
    }
}

proof fn lemma_undos_depth(h: HistoryView, curs: Seq<ProjectView>)
    requires
        curs.len() <= h.past.len(),
    ensures
        undos(h, curs).past.len() == h.past.len() - curs.len(),
    decreases curs.len(),
{
    if curs.len() > 0 {
        lemma_undos_depth(h, curs.drop_last());
    }
}

/// At most 50 states are kept: after 50 or more pushes onto a history within
/// its bound, exactly 50 undos in a row give a state back, and the next one
/// gives nothing.
pub proof fn law_fifty_undos(h: HistoryView, es: Seq<EntryView>, curs: Seq<ProjectView>)
    requires
        h.past.len() <= MAX_STEPS,
        es.len() >= MAX_STEPS,
        curs.len() == MAX_STEPS,
    ensures
        forall|k: int| 0 <= k < MAX_STEPS ==> #[trigger] undo_result(undos(pushes(h, es), curs.take(k))) is Some,
        undo_result(undos(pushes(h, es), curs)) is None,
{
    let p = pushes(h, es);
    lemma_pushes_depth(h, es);
    assert forall|k: int| 0 <= k < MAX_STEPS implies #[trigger] undo_result(undos(p, curs.take(k))) is Some by {
        lemma_undos_depth(p, curs.take(k));
    }
    lemma_undos_depth(p, curs);
}

} // verus!
