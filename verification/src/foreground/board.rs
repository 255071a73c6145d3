//! The agent dashboard's record of every shown agent: its latest status and sensorium and
//! its recent decisions, kept in agent order.
use vstd::prelude::*;
use vstd::string::StringExecFns;
use crate::diagnostics::identity::{lemma_agent_value_identifies, AgentId};
use crate::diagnostics::kinds::SessionState;
use crate::text::{decimal_pad2, push_decimal_pad2};
use super::panels::{dash, text_string};
use crate::diagnostics::snapshots::{
    AgentDiagnosticRecord, AgentStatusSnapshot, DecisionRecord, SensoriumSnapshot,
};
use super::roster::{
    with_decision, AgentSelection, DecisionHistory, DECISION_HISTORY_CAPACITY,
    MAX_VISIBLE_AGENTS,
};

verus! {

/// What the dashboard shows of one agent: latest status, latest sensorium, and recent
/// decisions, oldest first.
pub type AgentViewSpec<S, F> = (
    Option<AgentStatusSnapshot<S>>,
    Option<SensoriumSnapshot<F>>,
    Seq<DecisionRecord<F>>,
);

/// The agent a record belongs to.
pub open spec fn record_agent<S: Copy, F: Copy>(record: AgentDiagnosticRecord<S, F>) -> AgentId {
    match record {
        AgentDiagnosticRecord::Status(status) => status.spec_descriptor().spec_id(),
        AgentDiagnosticRecord::Sensorium(snapshot) => snapshot.spec_agent_id(),
        AgentDiagnosticRecord::Decision(decision) => decision.spec_agent_id(),
    }
}

/// An agent's view after one of its records: status and sensorium replace the previous
/// one, and a decision joins the bounded decision history.
pub open spec fn view_with<S, F>(view: AgentViewSpec<S, F>, record: AgentDiagnosticRecord<S, F>) -> AgentViewSpec<S, F> {
    match record {
        AgentDiagnosticRecord::Status(status) => (Some(status), view.1, view.2),
        AgentDiagnosticRecord::Sensorium(snapshot) => (view.0, Some(snapshot), view.2),
        AgentDiagnosticRecord::Decision(decision) => (view.0, view.1, with_decision(view.2, decision)),
    }
}

/// The view of an agent before any record.
pub open spec fn empty_view<S, F>() -> AgentViewSpec<S, F> {
    (None, None, Seq::empty())
}

/// Whether agents are listed in strictly increasing order of their numbers.
pub open spec fn strictly_ordered<V>(agents: Seq<(AgentId, V)>) -> bool {
    forall|i: int, j: int| 0 <= i < j < agents.len() ==> (#[trigger] agents[i]).0.value() < (#[trigger] agents[j]).0.value()
}

/// Position of an agent in the listing, if shown.
pub open spec fn agent_position<V>(agents: Seq<(AgentId, V)>, id: AgentId) -> Option<int> {
    if exists|i: int| 0 <= i < agents.len() && agents[i].0 == id {
        Some(choose|i: int| 0 <= i < agents.len() && agents[i].0 == id)
    } else {
        None
    }
}

/// Number of shown agents ordered before `id`: where a new agent is listed.
pub open spec fn insertion_point<V>(agents: Seq<(AgentId, V)>, id: AgentId) -> int
    decreases agents.len(),
{
    if agents.len() == 0 {
        0
    } else {
        insertion_point(agents.drop_last(), id) + if agents.last().0.value() < id.value() {
            1int
        } else {
            0int
        }
    }
}

/// The listing after one record: a shown agent's view takes the record; a new agent is
/// listed in order with a view of just that record, unless the maximum is shown, in
/// which case the record is dropped.
pub open spec fn board_with<S, F>(
    agents: Seq<(AgentId, AgentViewSpec<S, F>)>,
    id: AgentId,
    record: AgentDiagnosticRecord<S, F>,
) -> Seq<(AgentId, AgentViewSpec<S, F>)> {
    match agent_position(agents, id) {
        Some(i) => agents.update(i, (id, view_with(agents[i].1, record))),
        None => if agents.len() == MAX_VISIBLE_AGENTS {
            agents
        } else {
            agents.insert(insertion_point(agents, id), (id, view_with(empty_view(), record)))
        },
    }
}

/// One shown agent.
pub struct AgentView<S, F> {
    pub status: Option<AgentStatusSnapshot<S>>,
    pub sensorium: Option<SensoriumSnapshot<F>>,
    pub decisions: DecisionHistory<DecisionRecord<F>>,
}

/// Abstract value of one shown agent.
pub open spec fn agent_view_spec<S, F>(view: AgentView<S, F>) -> AgentViewSpec<S, F> {
    (view.status, view.sensorium, view.decisions@)
}

/// Views of a listing.
pub open spec fn listing_spec<S, F>(agents: Seq<(AgentId, AgentView<S, F>)>) -> Seq<(AgentId, AgentViewSpec<S, F>)> {
    agents.map_values(|entry: (AgentId, AgentView<S, F>)| (entry.0, agent_view_spec(entry.1)))
}

/// Every agent the agent dashboard shows, in agent order, and the selection among them.
pub struct AgentBoard<S, F> {
    agents: Vec<(AgentId, AgentView<S, F>)>,
    selection: AgentSelection,
}

/// Abstract value of the board.
pub struct AgentBoardView<S, F> {
    pub agents: Seq<(AgentId, AgentViewSpec<S, F>)>,
    pub selection: AgentSelection,
}

impl<S, F> View for AgentBoard<S, F> {
    type V = AgentBoardView<S, F>;

    closed spec fn view(&self) -> AgentBoardView<S, F> {
        AgentBoardView { agents: listing_spec(self.agents@), selection: self.selection }
    }
}

proof fn lemma_position_in_ordered<V>(agents: Seq<(AgentId, V)>, k: int)
    requires
        strictly_ordered(agents),
        0 <= k < agents.len(),
    ensures
        agent_position(agents, agents[k].0) == Some(k),
{
    let id = agents[k].0;
    assert(exists|i: int| 0 <= i < agents.len() && agents[i].0 == id);
    let c = choose|i: int| 0 <= i < agents.len() && agents[i].0 == id;
    if c != k {
        if c < k {
            assert(agents[c].0.value() < agents[k].0.value());
        } else {
            assert(agents[k].0.value() < agents[c].0.value());
        }
    }
}

proof fn lemma_insertion_point<V>(agents: Seq<(AgentId, V)>, id: AgentId, k: int)
    requires
        strictly_ordered(agents),
        0 <= k <= agents.len(),
        forall|j: int| 0 <= j < k ==> (#[trigger] agents[j]).0.value() < id.value(),
        forall|j: int| k <= j < agents.len() ==> (#[trigger] agents[j]).0.value() > id.value(),
    ensures
        insertion_point(agents, id) == k,
    decreases agents.len(),
{
    if agents.len() > 0 {
        let prefix = agents.drop_last();
        if k == agents.len() {
            lemma_insertion_point(prefix, id, k - 1);
        } else {
            lemma_insertion_point(prefix, id, k);
        }
    }
}

impl<S, F> AgentBoard<S, F> {
    /// Agents are listed in order, at most the maximum of them.
    #[verifier::type_invariant]
    spec fn well_formed(self) -> bool {
        &&& self.agents@.len() <= MAX_VISIBLE_AGENTS
        &&& strictly_ordered(self.agents@)
    }
}

impl<S: Copy, F: Copy> AgentBoard<S, F> {
    /// A board that shows no agent and selects none.
    pub fn new() -> (board: Self)
        ensures
            board@.agents == Seq::<(AgentId, AgentViewSpec<S, F>)>::empty(),
            board@.selection == (AgentSelection { selected: None, decision_offset: 0 }),
    {
        let board = AgentBoard { agents: Vec::new(), selection: AgentSelection::new() };
        proof {
            assert(listing_spec(board.agents@) =~= Seq::<(AgentId, AgentViewSpec<S, F>)>::empty());
        }
        board
    }

    /// The shown agents, in agent order.
    pub fn ids(&self) -> (ids: Vec<AgentId>)
        ensures
            ids@ == self@.agents.map_values(|entry: (AgentId, AgentViewSpec<S, F>)| entry.0),
    {
        let mut ids: Vec<AgentId> = Vec::new();
        let mut i: usize = 0;
        while i < self.agents.len()
            invariant
                i <= self.agents@.len(),
                ids@.len() == i,
                forall|j: int| 0 <= j < i ==> ids@[j] == (#[trigger] self.agents@[j]).0,
            decreases self.agents@.len() - i,
        {
            ids.push(self.agents[i].0);
            i = i + 1;
        }
        proof {
            assert(ids@ =~= self@.agents.map_values(|entry: (AgentId, AgentViewSpec<S, F>)| entry.0));
        }
        ids
    }

    /// The current selection.
    pub fn selection(&self) -> (selection: AgentSelection)
        ensures
            selection == self@.selection,
    {
        self.selection
    }

    /// Take one record into the board: its agent's view takes it, a new agent is listed
    /// in order unless the maximum is already shown (then the record is dropped), and the
    /// first agent kept becomes selected.
    pub fn accept(&mut self, record: AgentDiagnosticRecord<S, F>)
        ensures
            final(self)@.agents == board_with(old(self)@.agents, record_agent(record), record),
            final(self)@.selection == (if agent_position(old(self)@.agents, record_agent(record))
                is None && old(self)@.agents.len() == MAX_VISIBLE_AGENTS {
                old(self)@.selection
            } else {
                AgentSelection {
                    selected: if old(self)@.selection.selected is None {
                        Some(record_agent(record))
                    } else {
                        old(self)@.selection.selected
                    },
                    decision_offset: old(self)@.selection.decision_offset,
                }
            }),
            final(self)@.agents.len() <= MAX_VISIBLE_AGENTS,
    {
        proof {
            use_type_invariant(&*self);
        }
        let id = match &record {
            AgentDiagnosticRecord::Status(status) => status.descriptor().id(),
            AgentDiagnosticRecord::Sensorium(snapshot) => snapshot.agent_id(),
            AgentDiagnosticRecord::Decision(decision) => decision.agent_id(),
        };
        let ghost old_list = listing_spec(self.agents@);
        let ghost rec = record;
        let mut agents: Vec<(AgentId, AgentView<S, F>)> = Vec::new();
        std::mem::swap(&mut agents, &mut self.agents);
        let ghost old_agents = agents@;
        let n = agents.len();
        let mut k: usize = 0;
        while k < n && agents[k].0.get() < id.get()
            invariant
                n == agents@.len(),
                agents@ == old_agents,
                k <= n,
                forall|j: int| 0 <= j < k ==> (#[trigger] agents@[j]).0.value() < id.value(),
            decreases n - k,
        {
            k = k + 1;
        }
        let known = k < n && agents[k].0 == id;
        proof {
            assert(id == record_agent(rec));
            assert(old_list == listing_spec(old_agents));
            assert forall|i: int| 0 <= i < old_list.len() implies (#[trigger] old_list[i]).0 == old_agents[i].0 by {}
            if known {
                lemma_position_in_ordered(old_list, k as int);
            } else {
                assert forall|j: int| k <= j < n implies (#[trigger] old_agents[j]).0.value() > id.value() by {
                    lemma_agent_value_identifies(old_agents[k as int].0, id);
                    if j > k {
                        assert(old_agents[k as int].0.value() < old_agents[j].0.value());
                    }
                }
                assert(agent_position(old_list, id) is None) by {
                    if exists|i: int| 0 <= i < old_list.len() && old_list[i].0 == id {
                        let i = choose|i: int| 0 <= i < old_list.len() && old_list[i].0 == id;
                        assert(old_agents[i].0 == id);
                        if i < k {
                            assert(old_agents[i].0.value() < id.value());
                        } else {
                            assert(old_agents[i].0.value() > id.value());
                        }
                    }
                }
                assert forall|j: int| k <= j < old_list.len() implies (#[trigger] old_list[j]).0.value() > id.value() by {
                    assert(old_list[j].0 == old_agents[j].0);
                }
                assert forall|j: int| 0 <= j < k implies (#[trigger] old_list[j]).0.value() < id.value() by {
                    assert(old_list[j].0 == old_agents[j].0);
                }
                lemma_insertion_point(old_list, id, k as int);
            }
        }
        if !known && n == MAX_VISIBLE_AGENTS {
            self.agents = agents;
            return;
        }
        let entry = if known {
            agents.remove(k)
        } else {
            (id, AgentView { status: None, sensorium: None, decisions: DecisionHistory::new() })
        };
        let ghost before = agent_view_spec(entry.1);
        proof {
            if known {
                assert(before == old_list[k as int].1);
            } else {
                assert(before =~= empty_view::<S, F>());
            }
        }
        let (_, mut view) = entry;
        match record {
            AgentDiagnosticRecord::Status(status) => {
                view.status = Some(status);
                assert(agent_view_spec(view) == view_with(before, rec));
            },
            AgentDiagnosticRecord::Sensorium(snapshot) => {
                view.sensorium = Some(snapshot);
                assert(agent_view_spec(view) == view_with(before, rec));
            },
            AgentDiagnosticRecord::Decision(decision) => {
                view.decisions.push(decision);
                assert(agent_view_spec(view) == view_with(before, rec));
            },
        }
        let ghost updated = (id, view);
        agents.insert(k, (id, view));
        proof {
            let new_agents = agents@;
            if known {
                assert(new_agents =~= old_agents.update(k as int, updated));
                assert(listing_spec(new_agents) =~= old_list.update(k as int, (id, view_with(old_list[k as int].1, rec))));
            } else {
                assert(new_agents =~= old_agents.insert(k as int, updated));
                assert(listing_spec(new_agents) =~= old_list.insert(k as int, (id, view_with(empty_view(), rec))));
            }
            assert forall|i: int, j: int| 0 <= i < j < new_agents.len() implies (#[trigger] new_agents[i]).0.value() < (#[trigger] new_agents[j]).0.value() by {
                if known {
                    assert(new_agents[i].0 == old_agents[i].0);
                    assert(new_agents[j].0 == old_agents[j].0);
                } else {
                    if i < k && j < k {
                        assert(new_agents[i] == old_agents[i] && new_agents[j] == old_agents[j]);
                    } else if i < k && j == k {
                        assert(new_agents[i] == old_agents[i]);
                    } else if i < k {
                        assert(new_agents[i] == old_agents[i] && new_agents[j] == old_agents[j - 1]);
                        assert(old_agents[j - 1].0.value() > id.value());
                    } else if i == k {
                        assert(new_agents[j] == old_agents[j - 1]);
                    } else {
                        assert(new_agents[i] == old_agents[i - 1] && new_agents[j] == old_agents[j - 1]);
                    }
                }
            }
        }
        self.agents = agents;
        let mut selection = self.selection;
        selection.observe(id);
        self.selection = selection;
    }
}

/// The listing after a sequence of records, starting from an empty board.
pub open spec fn board_after<S: Copy, F: Copy>(records: Seq<AgentDiagnosticRecord<S, F>>) -> Seq<(AgentId, AgentViewSpec<S, F>)>
    decreases records.len(),
{
    if records.len() == 0 {
        Seq::empty()
    } else {
        board_with(board_after(records.drop_last()), record_agent(records.last()), records.last())
    }
}

/// Whatever records arrive, the board shows at most the maximum number of agents and keeps
/// at most the decision-history capacity of decisions for each.
pub proof fn lemma_board_stays_bounded<S: Copy, F: Copy>(records: Seq<AgentDiagnosticRecord<S, F>>)
    ensures
        board_after(records).len() <= MAX_VISIBLE_AGENTS,
        forall|i: int|
            0 <= i < board_after(records).len() ==> (#[trigger] board_after(records)[i]).1.2.len()
                <= DECISION_HISTORY_CAPACITY,
    decreases records.len(),
{
    if records.len() > 0 {
        let before = board_after(records.drop_last());
        lemma_board_stays_bounded(records.drop_last());
        let record = records.last();
        let id = record_agent(record);
        let after = board_after(records);
        assert(after == board_with(before, id, record));
        match agent_position(before, id) {
            Some(p) => {
                assert(0 <= p < before.len());
                assert forall|i: int| 0 <= i < after.len() implies (#[trigger] after[i]).1.2.len()
                    <= DECISION_HISTORY_CAPACITY by {
                    if i != p {
                        assert(after[i] == before[i]);
                    } else {
                        assert(before[p].1.2.len() <= DECISION_HISTORY_CAPACITY);
                    }
                }
            },
            None => {
                if before.len() != MAX_VISIBLE_AGENTS {
                    let k = insertion_point(before, id);
                    lemma_insertion_point_bound(before, id);
                    assert forall|i: int| 0 <= i < after.len() implies (#[trigger] after[i]).1.2.len()
                        <= DECISION_HISTORY_CAPACITY by {
                        if i < k {
                            assert(after[i] == before[i]);
                        } else if i > k {
                            assert(after[i] == before[i - 1]);
                        }
                    }
                }
            },
        }
    }
}

proof fn lemma_insertion_point_bound<V>(agents: Seq<(AgentId, V)>, id: AgentId)
    ensures
        0 <= insertion_point(agents, id) <= agents.len(),
    decreases agents.len(),
{
    if agents.len() > 0 {
        lemma_insertion_point_bound(agents.drop_last(), id);
    }
}

/// One row of the agents table; the two age cells are formatted by the caller from the
/// capture times.
pub struct AgentRow {
    /// Whether this is the selected agent.
    pub selected: bool,
    /// `›` for the selected agent (a space otherwise), a space, and the agent number.
    pub agent: String,
    pub session: String,
    pub difficulty: String,
    pub policy: String,
    /// Intent of the latest decision.
    pub intent: String,
    /// Policy source of the latest decision.
    pub source: String,
    /// Capture time of the latest decision, if any.
    pub decided_at: Option<u64>,
    /// Capture time of the latest sensorium, if any.
    pub observed_at: Option<u64>,
    pub health: String,
}

/// The marker and number of an agent in the first column.
pub open spec fn agent_cell(id: AgentId, selected: bool) -> Seq<char> {
    (if selected {
        "›"@
    } else {
        " "@
    }) + " "@ + decimal_pad2(id.value() as nat)
}

/// Whether a row of the agents table shows one agent: the status cells come from the latest
/// status, the intent and source from the newest decision, and each missing value shows
/// the placeholder.
pub open spec fn agent_row_shows<F: Copy>(
    row: AgentRow,
    id: AgentId,
    view: AgentViewSpec<SessionState, F>,
    selected: bool,
) -> bool {
    &&& row.selected == selected
    &&& row.agent@ == agent_cell(id, selected)
    &&& row.session@ == (match view.0 {
        Some(status) => status.spec_session_state().label(),
        None => dash(),
    })
    &&& row.difficulty@ == (match view.0 {
        Some(status) => status.spec_descriptor().spec_difficulty()@,
        None => dash(),
    })
    &&& row.policy@ == (match view.0 {
        Some(status) => status.spec_descriptor().spec_policy_version()@,
        None => dash(),
    })
    &&& row.health@ == (match view.0 {
        Some(status) => status.spec_health().label(),
        None => dash(),
    })
    &&& row.intent@ == (if view.2.len() > 0 {
        view.2.last().spec_current_intent()@
    } else {
        dash()
    })
    &&& row.source@ == (if view.2.len() > 0 {
        view.2.last().spec_source().label()
    } else {
        dash()
    })
    &&& row.decided_at == (if view.2.len() > 0 {
        Some(view.2.last().spec_recorded_at())
    } else {
        None
    })
    &&& row.observed_at == (match view.1 {
        Some(snapshot) => Some(snapshot.spec_recorded_at()),
        None => None,
    })
}

/// The agents table: one row per shown agent, in agent order, the selected one marked.
pub fn agent_rows<F: Copy>(board: &AgentBoard<SessionState, F>) -> (rows: Vec<AgentRow>)
    ensures
        rows@.len() == board@.agents.len(),
        forall|i: int|
            0 <= i < rows@.len() ==> agent_row_shows(
                #[trigger] rows@[i],
                board@.agents[i].0,
                board@.agents[i].1,
                board@.selection.selected == Some(board@.agents[i].0),
            ),
{
    let mut rows: Vec<AgentRow> = Vec::new();
    let mut i: usize = 0;
    while i < board.agents.len()
        invariant
            i <= board.agents@.len(),
            rows@.len() == i,
            forall|j: int|
                0 <= j < i ==> agent_row_shows(
                    #[trigger] rows@[j],
                    board@.agents[j].0,
                    board@.agents[j].1,
                    board@.selection.selected == Some(board@.agents[j].0),
                ),
        decreases board.agents@.len() - i,
    {
        let entry = &board.agents[i];
        let id = entry.0;
        let view = &entry.1;
        let ghost spec_view = board@.agents[i as int].1;
        assert(board@.agents[i as int] == (id, agent_view_spec(*view)));
        let selected = match board.selection.selected {
            Some(s) => s.get() == id.get(),
            None => false,
        };
        proof {
            match board.selection.selected {
                Some(s) => lemma_agent_value_identifies(s, id),
                None => {},
            }
        }
        let mut agent = if selected {
            String::from_str("›")
        } else {
            String::from_str(" ")
        };
        agent.append(" ");
        push_decimal_pad2(&mut agent, id.get() as u64);
        proof {
            assert(agent@ =~= agent_cell(id, selected));
        }
        let (session, difficulty, policy, health) = match &view.status {
            Some(status) => (
                String::from_str(status.session_state().as_str()),
                text_string(status.descriptor().difficulty()),
                text_string(status.descriptor().policy_version()),
                String::from_str(status.health().as_str()),
            ),
            None => (
                String::from_str("—"),
                String::from_str("—"),
                String::from_str("—"),
                String::from_str("—"),
            ),
        };
        let count = view.decisions.len();
        let (intent, source, decided_at) = if count > 0 {
            let latest = view.decisions.get(count - 1).unwrap();
            (
                text_string(latest.current_intent()),
                String::from_str(latest.source().as_str()),
                Some(latest.recorded_at()),
            )
        } else {
            (String::from_str("—"), String::from_str("—"), None)
        };
        let observed_at = match &view.sensorium {
            Some(snapshot) => Some(snapshot.recorded_at()),
            None => None,
        };
        let row = AgentRow {
            selected,
            agent,
            session,
            difficulty,
            policy,
            intent,
            source,
            decided_at,
            observed_at,
            health,
        };
        assert(agent_row_shows(row, id, spec_view, board@.selection.selected == Some(id)));
        rows.push(row);
        i = i + 1;
    }
    rows
}

} // verus!
