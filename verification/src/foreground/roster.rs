//! Agents, decisions, and the selection shown by the agent dashboard's diagnostic pages.
use std::collections::VecDeque;
use vstd::prelude::*;
use crate::diagnostics::identity::AgentId;

verus! {

/// Most agents the dashboard tracks at once.
pub const MAX_VISIBLE_AGENTS: usize = 32;

/// Most recent decisions the dashboard keeps per agent.
pub const DECISION_HISTORY_CAPACITY: usize = 128;

/// Whether a record of an agent is kept: always for an agent already shown, and for a
/// new agent only while fewer than the maximum are shown.
pub fn admits_agent(known: bool, visible: usize) -> (admitted: bool)
    ensures
        admitted == (known || visible != MAX_VISIBLE_AGENTS),
        visible <= MAX_VISIBLE_AGENTS && admitted && !known ==> visible + 1 <= MAX_VISIBLE_AGENTS,
{
    known || visible != MAX_VISIBLE_AGENTS
}

/// Status line of the agent dashboard's diagnostic stream.
pub open spec fn stream_status_text(configured: bool, disconnected: bool, has_agents: bool) -> Seq<char> {
    if !configured {
        "diagnostic stream unavailable: process-only shell"@
    } else if disconnected {
        "diagnostic stream closed"@
    } else if !has_agents {
        "diagnostic stream live: waiting for runtime records"@
    } else {
        "diagnostic stream live"@
    }
}

/// Describe the diagnostic stream: absent without a configured runtime, closed once the
/// runtime has gone, and live otherwise, waiting until a first agent reports.
pub fn diagnostic_stream_status(configured: bool, disconnected: bool, has_agents: bool) -> (status: &'static str)
    ensures
        status@ == stream_status_text(configured, disconnected, has_agents),
{
    proof {
        reveal_strlit("diagnostic stream unavailable: process-only shell");
        reveal_strlit("diagnostic stream closed");
        reveal_strlit("diagnostic stream live: waiting for runtime records");
        reveal_strlit("diagnostic stream live");
    }
    if !configured {
        "diagnostic stream unavailable: process-only shell"
    } else if disconnected {
        "diagnostic stream closed"
    } else if !has_agents {
        "diagnostic stream live: waiting for runtime records"
    } else {
        "diagnostic stream live"
    }
}

/// Position of the first occurrence of an agent in a list, if any.
pub open spec fn position_of(ids: Seq<AgentId>, id: AgentId) -> Option<nat>
    decreases ids.len(),
{
    if ids.len() == 0 {
        None
    } else if ids[0] == id {
        Some(0)
    } else {
        match position_of(ids.drop_first(), id) {
            Some(i) => Some(i + 1),
            None => None,
        }
    }
}

/// Index of the agent after the selected one in a non-empty list, wrapping around; the
/// first agent when none is selected or the selected agent is not listed.
pub open spec fn next_index(ids: Seq<AgentId>, selected: Option<AgentId>) -> nat {
    match selected {
        Some(id) => match position_of(ids, id) {
            Some(i) => (i + 1) % ids.len(),
            None => 0,
        },
        None => 0,
    }
}

/// Index of the agent before the selected one in a non-empty list, wrapping around; the
/// first agent when none is selected or the selected agent is not listed.
pub open spec fn previous_index(ids: Seq<AgentId>, selected: Option<AgentId>) -> nat {
    match selected {
        Some(id) => match position_of(ids, id) {
            Some(i) => ((i + ids.len() - 1) % (ids.len() as int)) as nat,
            None => 0,
        },
        None => 0,
    }
}

proof fn lemma_position_of(ids: Seq<AgentId>, id: AgentId)
    ensures
        match position_of(ids, id) {
            Some(i) => i < ids.len() && ids[i as int] == id && forall|j: int|
                0 <= j < i ==> ids[j] != id,
            None => forall|j: int| 0 <= j < ids.len() ==> ids[j] != id,
        },
    decreases ids.len(),
{
    if ids.len() > 0 {
        lemma_position_of(ids.drop_first(), id);
        match position_of(ids.drop_first(), id) {
            Some(i) => {
                assert forall|j: int| 0 <= j < i + 1 && ids[0] != id implies #[trigger] ids[j] != id by {
                    if j > 0 {
                        assert(ids[j] == ids.drop_first()[j - 1]);
                    }
                }
            },
            None => {
                assert forall|j: int| 0 <= j < ids.len() && ids[0] != id implies #[trigger] ids[j] != id by {
                    if j > 0 {
                        assert(ids[j] == ids.drop_first()[j - 1]);
                    }
                }
            },
        }
    }
}

fn find_position(ids: &[AgentId], id: AgentId) -> (found: Option<usize>)
    ensures
        match found {
            Some(i) => position_of(ids@, id) == Some(i as nat),
            None => position_of(ids@, id) is None,
        },
{
    proof {
        lemma_position_of(ids@, id);
    }
    let mut i: usize = 0;
    while i < ids.len()
        invariant
            i <= ids@.len(),
            forall|j: int| 0 <= j < i ==> ids@[j] != id,
            match position_of(ids@, id) {
                Some(p) => p < ids@.len() && ids@[p as int] == id && forall|j: int|
                    0 <= j < p ==> ids@[j] != id,
                None => forall|j: int| 0 <= j < ids@.len() ==> ids@[j] != id,
            },
        decreases ids@.len() - i,
    {
        if ids[i] == id {
            return Some(i);
        }
        i = i + 1;
    }
    None
}

proof fn lemma_position_of_distinct(ids: Seq<AgentId>, k: int)
    requires
        ids.no_duplicates(),
        0 <= k < ids.len(),
    ensures
        position_of(ids, ids[k]) == Some(k as nat),
{
    lemma_position_of(ids, ids[k]);
}

/// Among distinct listed agents, moving the selection down and then up, or up and then
/// down, returns to the agent that was selected.
pub proof fn lemma_agent_selection_round_trip(ids: Seq<AgentId>, k: int)
    requires
        ids.no_duplicates(),
        0 <= k < ids.len(),
    ensures
        ids[previous_index(ids, Some(ids[next_index(ids, Some(ids[k])) as int])) as int] == ids[k],
        ids[next_index(ids, Some(ids[previous_index(ids, Some(ids[k])) as int])) as int] == ids[k],
{
    let n = ids.len() as int;
    lemma_position_of_distinct(ids, k);
    let next = next_index(ids, Some(ids[k])) as int;
    let previous = previous_index(ids, Some(ids[k])) as int;
    if k + 1 < n {
        vstd::arithmetic::div_mod::lemma_small_mod((k + 1) as nat, n as nat);
    } else {
        vstd::arithmetic::div_mod::lemma_mod_self_0(n);
    }
    if k == 0 {
        vstd::arithmetic::div_mod::lemma_small_mod((n - 1) as nat, n as nat);
    } else {
        vstd::arithmetic::div_mod::lemma_mod_add_multiples_vanish(k - 1, n);
        vstd::arithmetic::div_mod::lemma_small_mod((k - 1) as nat, n as nat);
    }
    lemma_position_of_distinct(ids, next);
    lemma_position_of_distinct(ids, previous);
    if next == 0 {
        vstd::arithmetic::div_mod::lemma_small_mod((n - 1) as nat, n as nat);
    } else {
        vstd::arithmetic::div_mod::lemma_mod_add_multiples_vanish(next - 1, n);
        vstd::arithmetic::div_mod::lemma_small_mod((next - 1) as nat, n as nat);
    }
    if previous + 1 < n {
        vstd::arithmetic::div_mod::lemma_small_mod((previous + 1) as nat, n as nat);
    } else {
        vstd::arithmetic::div_mod::lemma_mod_self_0(n);
    }
}

/// The agent, and the decision of that agent, selected on the diagnostic pages.
#[derive(Debug, Clone, Copy, PartialEq, Eq, Structural)]
pub struct AgentSelection {
    /// The agent whose records are shown.
    pub selected: Option<AgentId>,
    /// How many decisions back from the newest the selected decision lies.
    pub decision_offset: usize,
}

impl AgentSelection {
    /// No agent selected, newest decision.
    pub fn new() -> (selection: Self)
        ensures
            selection == (AgentSelection { selected: None, decision_offset: 0 }),
    {
        AgentSelection { selected: None, decision_offset: 0 }
    }

    /// Note that a record of an agent was kept: the first agent seen becomes selected.
    pub fn observe(&mut self, id: AgentId)
        ensures
            final(self).selected == (if old(self).selected is None {
                Some(id)
            } else {
                old(self).selected
            }),
            final(self).decision_offset == old(self).decision_offset,
    {
        if self.selected.is_none() {
            self.selected = Some(id);
        }
    }

    /// Select the agent after the selected one among the shown agents, in their order,
    /// and its newest decision; nothing changes while no agent is shown.
    pub fn select_next(&mut self, ids: &[AgentId])
        ensures
            ids@.len() == 0 ==> *final(self) == *old(self),
            ids@.len() > 0 ==> *final(self) == (AgentSelection {
                selected: Some(ids@[next_index(ids@, old(self).selected) as int]),
                decision_offset: 0,
            }),
    {
        if ids.len() == 0 {
            return;
        }
        proof {
            match self.selected {
                Some(id) => lemma_position_of(ids@, id),
                None => {},
            }
        }
        let next = match self.selected {
            Some(id) => match find_position(ids, id) {
                Some(i) => (i + 1) % ids.len(),
                None => 0,
            },
            None => 0,
        };
        self.selected = Some(ids[next]);
        self.decision_offset = 0;
    }

    /// Select the agent before the selected one among the shown agents, in their order,
    /// and its newest decision; nothing changes while no agent is shown.
    pub fn select_previous(&mut self, ids: &[AgentId])
        ensures
            ids@.len() == 0 ==> *final(self) == *old(self),
            ids@.len() > 0 ==> *final(self) == (AgentSelection {
                selected: Some(ids@[previous_index(ids@, old(self).selected) as int]),
                decision_offset: 0,
            }),
    {
        if ids.len() == 0 {
            return;
        }
        proof {
            match self.selected {
                Some(id) => lemma_position_of(ids@, id),
                None => {},
            }
        }
        let previous = match self.selected {
            Some(id) => match find_position(ids, id) {
                Some(i) => if i == 0 {
                    ids.len() - 1
                } else {
                    i - 1
                },
                None => 0,
            },
            None => 0,
        };
        proof {
            let n = ids@.len() as int;
            if let Some(id) = self.selected {
                if let Some(i) = position_of(ids@, id) {
                    if i == 0 {
                        vstd::arithmetic::div_mod::lemma_small_mod((n - 1) as nat, n as nat);
                    } else {
                        vstd::arithmetic::div_mod::lemma_mod_add_multiples_vanish(i - 1, n);
                        vstd::arithmetic::div_mod::lemma_small_mod((i - 1) as nat, n as nat);
                    }
                }
            }
        }
        self.selected = Some(ids[previous]);
        self.decision_offset = 0;
    }

    /// Select the next older decision of the selected agent, which holds `decisions`
    /// decisions (`None` while the selected agent shows no records), stopping at the
    /// oldest.
    pub fn select_older(&mut self, decisions: Option<usize>)
        ensures
            match decisions {
                None => *final(self) == *old(self),
                Some(count) => final(self).selected == old(self).selected
                    && final(self).decision_offset == vstd::math::min(
                    if old(self).decision_offset < usize::MAX {
                        old(self).decision_offset + 1
                    } else {
                        usize::MAX as int
                    },
                    if count > 0 {
                        count - 1
                    } else {
                        0
                    },
                ),
            },
    {
        if let Some(count) = decisions {
            let older = self.decision_offset.saturating_add(1);
            let oldest = count.saturating_sub(1);
            self.decision_offset = if older < oldest {
                older
            } else {
                oldest
            };
        }
    }

    /// Select the next newer decision, stopping at the newest.
    pub fn select_newer(&mut self)
        ensures
            final(self).selected == old(self).selected,
            final(self).decision_offset == (if old(self).decision_offset > 0 {
                old(self).decision_offset - 1
            } else {
                0
            }),
    {
        self.decision_offset = self.decision_offset.saturating_sub(1);
    }

    /// Select the newest decision.
    pub fn select_newest(&mut self)
        ensures
            final(self).selected == old(self).selected,
            final(self).decision_offset == 0,
    {
        self.decision_offset = 0;
    }

    /// Index, oldest first, of the selected decision among `decisions` kept decisions,
    /// if the selection lies within them.
    pub fn decision_index(&self, decisions: usize) -> (index: Option<usize>)
        ensures
            index == (if self.decision_offset < decisions {
                Some((decisions - self.decision_offset - 1) as usize)
            } else {
                None::<usize>
            }),
    {
        if self.decision_offset < decisions {
            Some(decisions - self.decision_offset - 1)
        } else {
            None
        }
    }
}

/// Content of a decision history after one more decision: the oldest leaves a full one.
pub open spec fn with_decision<T>(records: Seq<T>, record: T) -> Seq<T> {
    if records.len() == DECISION_HISTORY_CAPACITY {
        records.drop_first().push(record)
    } else {
        records.push(record)
    }
}

/// The most recent decisions of one agent, oldest first.
#[derive(Debug)]
pub struct DecisionHistory<T> {
    records: VecDeque<T>,
}

impl<T> View for DecisionHistory<T> {
    type V = Seq<T>;

    closed spec fn view(&self) -> Seq<T> {
        self.records@
    }
}

impl<T> DecisionHistory<T> {
    #[verifier::type_invariant]
    spec fn bounded(self) -> bool {
        self.records@.len() <= DECISION_HISTORY_CAPACITY
    }

    /// An empty history.
    pub fn new() -> (history: Self)
        ensures
            history@ == Seq::<T>::empty(),
    {
        DecisionHistory { records: VecDeque::new() }
    }

    /// Append one decision, dropping the oldest when the history is full.
    pub fn push(&mut self, record: T)
        ensures
            final(self)@ == with_decision(old(self)@, record),
            final(self)@.len() <= DECISION_HISTORY_CAPACITY,
    {
        proof {
            use_type_invariant(&*self);
        }
        let mut records = VecDeque::new();
        std::mem::swap(&mut records, &mut self.records);
        if records.len() == DECISION_HISTORY_CAPACITY {
            let _oldest = records.pop_front();
        }
        records.push_back(record);
        self.records = records;
    }

    /// Number of kept decisions.
    pub fn len(&self) -> (count: usize)
        ensures
            count == self@.len(),
            count <= DECISION_HISTORY_CAPACITY,
    {
        proof {
            use_type_invariant(self);
        }
        self.records.len()
    }

    /// The decision at an index, oldest first, if there is one.
    pub fn get(&self, index: usize) -> (record: Option<&T>)
        ensures
            record == (if index < self@.len() {
                Some(&self@[index as int])
            } else {
                None::<&T>
            }),
    {
        if index < self.records.len() {
            Some(&self.records[index])
        } else {
            None
        }
    }
}

/// Content of a decision history that started empty and received `records` in order.
pub open spec fn decisions_of<T>(records: Seq<T>) -> Seq<T>
    decreases records.len(),
{
    if records.len() == 0 {
        Seq::empty()
    } else {
        with_decision(decisions_of(records.drop_last()), records.last())
    }
}

/// A decision history that received any sequence of decisions holds exactly the most
/// recent `DECISION_HISTORY_CAPACITY` of them, oldest first.
pub proof fn lemma_decisions_keep_most_recent<T>(records: Seq<T>)
    ensures
        decisions_of(records) == (if records.len() <= DECISION_HISTORY_CAPACITY {
            records
        } else {
            records.subrange(records.len() - DECISION_HISTORY_CAPACITY, records.len() as int)
        }),
    decreases records.len(),
{
    if records.len() > 0 {
        let prefix = records.drop_last();
        lemma_decisions_keep_most_recent(prefix);
        if prefix.len() < DECISION_HISTORY_CAPACITY {
            assert(prefix.push(records.last()) =~= records);
        } else if prefix.len() == DECISION_HISTORY_CAPACITY {
            assert(prefix.drop_first().push(records.last()) =~= records.subrange(
                records.len() - DECISION_HISTORY_CAPACITY,
                records.len() as int,
            ));
        } else {
            let kept = prefix.subrange(prefix.len() - DECISION_HISTORY_CAPACITY, prefix.len() as int);
            assert(kept.drop_first().push(records.last()) =~= records.subrange(
                records.len() - DECISION_HISTORY_CAPACITY,
                records.len() as int,
            ));
        }
    }
}

} // verus!
