//! The agent's running memory: a write-once goal and an append-only history
//! of completed cycles.

use vstd::prelude::*;

verus! {

/// Spec-level image of a [`HistoryEntry`].
pub struct HistoryEntryView {
    pub action: Seq<char>,
    pub observation: Seq<char>,
}

/// Spec-level image of an [`AgentContext`].
pub struct AgentContextView {
    pub goal: Seq<char>,
    pub history: Seq<HistoryEntryView>,
}

/// A single completed cycle's record: the action taken, rendered as text, and
/// the observation it produced. Immutable once created.
#[derive(Debug, Clone, PartialEq, Eq)]
pub struct HistoryEntry {
    pub action: String,
    pub observation: String,
}

impl View for HistoryEntry {
    type V = HistoryEntryView;

    open spec fn view(&self) -> HistoryEntryView {
        HistoryEntryView { action: self.action@, observation: self.observation@ }
    }
}

/// The agent's memory: the goal it works toward and the ordered history of
/// completed cycles. History order is chronological; `append` is the only
/// mutator, so the history is a permanent audit trail of the run.
#[derive(Debug)]
pub struct AgentContext {
    pub goal: String,
    pub history: Vec<HistoryEntry>,
}

impl View for AgentContext {
    type V = AgentContextView;

    open spec fn view(&self) -> AgentContextView {
        AgentContextView {
            goal: self.goal@,
            history: self.history@.map_values(|e: HistoryEntry| e@),
        }
    }
}

impl AgentContext {
    /// A fresh context with the given goal and no history.
    pub fn new(goal: String) -> (c: AgentContext)
        ensures
            c@.goal == goal@,
            c@.history == Seq::<HistoryEntryView>::empty(),
    {
        let c = AgentContext { goal, history: Vec::new() };
        proof {
            assert(c@.history =~= Seq::<HistoryEntryView>::empty());
        }
        c
    }

    /// The number of completed cycles on record.
    pub fn history_len(&self) -> (n: usize)
        ensures
            n == self@.history.len(),
    {
        self.history.len()
    }

    /// Records one completed cycle. This is the only mutator: the new history
    /// is the old one with `entry` at the end.
    pub fn append(&mut self, entry: HistoryEntry)
        ensures
            final(self)@.goal == old(self)@.goal,
            final(self)@.history == old(self)@.history.push(entry@),
    {
        self.history.push(entry);
        proof {
            assert(final(self)@.history =~= old(self)@.history.push(entry@));
        }
    }
}

} // verus!
