//! Text of the agent dashboard's sensorium and decision panels, computed from the records.
//!
//! Cells whose text needs a clock or floating point (ages, durations in milliseconds,
//! percentages, scores) carry the raw value for the caller to format.
use vstd::prelude::*;
use vstd::string::StringExecFns;
use crate::diagnostics::identity::{DecisionConstraint, DiagnosticText, SensoriumChannelSnapshot};
use crate::diagnostics::snapshots::{
    DecisionCandidate, DecisionRecord, Elapsed, MemoryItemSnapshot, SensoriumSnapshot,
};
use crate::text::{decimal, push_decimal};
use super::board::AgentView;
use super::roster::AgentSelection;

verus! {

/// The placeholder of an empty cell.
pub open spec fn dash() -> Seq<char> {
    "—"@
}

/// Copy diagnostic text into an owned string.
pub fn text_string(text: &DiagnosticText) -> (s: String)
    ensures
        s@ == text@,
{
    String::from_str(text.as_str())
}

/// The decimal rendering of a number as an owned string.
pub fn decimal_string(n: u64) -> (s: String)
    ensures
        s@ == decimal(n as nat),
{
    let mut s = String::new();
    push_decimal(&mut s, n);
    s
}

/// One row of the decision feed.
pub struct DecisionRow {
    pub sequence: String,
    pub source: String,
    pub action: String,
    pub outcome: String,
    /// Capture time, for the caller's age cell.
    pub recorded_at: u64,
    /// Whether this is the selected decision.
    pub highlighted: bool,
}

/// The sequence of the selected decision among `decisions` (oldest first), if any.
pub open spec fn selected_sequence<F: Copy>(decisions: Seq<DecisionRecord<F>>, selection: AgentSelection) -> Option<u64> {
    if selection.decision_offset < decisions.len() {
        Some(decisions[decisions.len() - 1 - selection.decision_offset].spec_decision_sequence())
    } else {
        None
    }
}

/// Whether a feed row shows a decision's cells, highlighted as the view's selection says.
pub open spec fn decision_row_shows<F: Copy>(row: DecisionRow, d: DecisionRecord<F>, highlighted: bool) -> bool {
    &&& row.sequence@ == decimal(d.spec_decision_sequence() as nat)
    &&& row.source@ == d.spec_source().label()
    &&& row.action@ == d.spec_selected_action()@
    &&& row.outcome@ == d.spec_outcome().label()
    &&& row.recorded_at == d.spec_recorded_at()
    &&& row.highlighted == highlighted
}

/// The decision feed of the selected agent, newest first; the selected decision (by its
/// sequence) is highlighted.
pub fn decision_rows<S: Copy, F: Copy>(view: &AgentView<S, F>, selection: AgentSelection) -> (rows: Vec<DecisionRow>)
    ensures
        rows@.len() == view.decisions@.len(),
        forall|k: int|
            0 <= k < rows@.len() ==> decision_row_shows(
                #[trigger] rows@[k],
                view.decisions@[view.decisions@.len() - 1 - k],
                selected_sequence(view.decisions@, selection) == Some(
                    view.decisions@[view.decisions@.len() - 1 - k].spec_decision_sequence(),
                ),
            ),
{
    let n = view.decisions.len();
    let selected: Option<u64> = match selection.decision_index(n) {
        Some(index) => {
            let record = view.decisions.get(index).unwrap();
            Some(record.decision_sequence())
        },
        None => None,
    };
    assert(selected == selected_sequence(view.decisions@, selection));
    let mut rows: Vec<DecisionRow> = Vec::new();
    let mut k: usize = 0;
    while k < n
        invariant
            n == view.decisions@.len(),
            k <= n,
            rows@.len() == k,
            selected == selected_sequence(view.decisions@, selection),
            forall|j: int|
                0 <= j < k ==> decision_row_shows(
                    #[trigger] rows@[j],
                    view.decisions@[n - 1 - j],
                    selected == Some(view.decisions@[n - 1 - j].spec_decision_sequence()),
                ),
        decreases n - k,
    {
        let d = view.decisions.get(n - 1 - k).unwrap();
        let sequence = d.decision_sequence();
        let row = DecisionRow {
            sequence: decimal_string(sequence),
            source: String::from_str(d.source().as_str()),
            action: text_string(d.selected_action()),
            outcome: String::from_str(d.outcome().as_str()),
            recorded_at: d.recorded_at(),
            highlighted: match selected {
                Some(s) => s == sequence,
                None => false,
            },
        };
        rows.push(row);
        k = k + 1;
    }
    rows
}

/// A duration cell: a measured duration for the caller to format, or fixed text.
pub enum DurationCell {
    Measured(Elapsed),
    Text(String),
}

/// One policy candidate line; the score is formatted by the caller.
pub struct CandidateLine<F> {
    pub action: String,
    pub score: F,
    pub disposition: String,
}

/// The causal detail of the selected decision.
pub struct DecisionDetail<F> {
    pub selected_action: String,
    pub emission: String,
    /// `Intent … · source … · outcome … · observation … @ tick …`.
    pub summary: String,
    /// The decision duration, for the caller's millisecond cell.
    pub decision_duration: Elapsed,
    /// The inference duration, or `not used`.
    pub inference: DurationCell,
    /// `EXHAUSTED` or `within limit`.
    pub budget: String,
    /// One line per candidate, in evaluation order.
    pub candidates: Vec<CandidateLine<F>>,
    /// The line shown in place of candidates when there are none.
    pub no_candidates: Option<String>,
    /// One line per constraint (`  stage → effect`), or `  none`.
    pub constraints: Vec<String>,
    /// `Fallback: reason`, shown only when the decision has a reason.
    pub fallback: Option<String>,
}

/// The one-line summary of a decision.
pub open spec fn decision_summary<F: Copy>(d: DecisionRecord<F>) -> Seq<char> {
    "Intent "@ + d.spec_current_intent()@ + " · source "@ + d.spec_source().label() + " · outcome "@
        + d.spec_outcome().label() + " · observation "@ + decimal(
        d.spec_observation_sequence() as nat,
    ) + " @ tick "@ + decimal(d.spec_observation_tick() as nat)
}

/// The line of one downstream constraint.
pub open spec fn constraint_line(c: DecisionConstraint) -> Seq<char> {
    "  "@ + c.spec_stage()@ + " → "@ + c.spec_effect()@
}

/// The lines of the constraint list.
pub open spec fn constraint_lines(cs: Seq<DecisionConstraint>) -> Seq<Seq<char>> {
    if cs.len() == 0 {
        seq!["  none"@]
    } else {
        cs.map_values(|c: DecisionConstraint| constraint_line(c))
    }
}

/// Build the causal detail of one decision.
pub fn decision_detail<F: Copy>(d: &DecisionRecord<F>) -> (detail: DecisionDetail<F>)
    ensures
        detail.selected_action@ == d.spec_selected_action()@,
        detail.emission@ == d.spec_emission()@,
        detail.summary@ == decision_summary(*d),
        detail.decision_duration == d.spec_decision_duration(),
        match d.spec_inference_duration() {
            Some(duration) => detail.inference matches DurationCell::Measured(m) && m == duration,
            None => detail.inference matches DurationCell::Text(t) && t@ == "not used"@,
        },
        detail.budget@ == (if d.spec_budget_exhausted() {
            "EXHAUSTED"@
        } else {
            "within limit"@
        }),
        detail.candidates@.len() == d.spec_candidates().len(),
        forall|i: int|
            0 <= i < detail.candidates@.len() ==> (#[trigger] detail.candidates@[i]).action@
                == d.spec_candidates()[i].spec_action()@ && detail.candidates@[i].score
                == d.spec_candidates()[i].spec_score() && detail.candidates@[i].disposition@
                == d.spec_candidates()[i].spec_disposition()@,
        d.spec_candidates().len() == 0 ==> (detail.no_candidates matches Some(t) && t@ == "  —"@),
        d.spec_candidates().len() > 0 ==> detail.no_candidates is None,
        detail.constraints@.map_values(|line: String| line@) == constraint_lines(
            d.spec_constraints(),
        ),
        match d.spec_fallback_reason() {
            Some(reason) => detail.fallback matches Some(line) && line@ == "Fallback: "@
                + reason.label(),
            None => detail.fallback is None,
        },
{
    proof {
        reveal_strlit("Intent ");
        reveal_strlit(" · source ");
        reveal_strlit(" · outcome ");
        reveal_strlit(" · observation ");
        reveal_strlit(" @ tick ");
        reveal_strlit("  ");
        reveal_strlit(" → ");
    }
    let mut summary = String::from_str("Intent ");
    summary.append(d.current_intent().as_str());
    summary.append(" · source ");
    summary.append(d.source().as_str());
    summary.append(" · outcome ");
    summary.append(d.outcome().as_str());
    summary.append(" · observation ");
    push_decimal(&mut summary, d.observation_sequence());
    summary.append(" @ tick ");
    push_decimal(&mut summary, d.observation_tick());
    proof {
        assert(summary@ =~= decision_summary(*d));
    }
    let inference = match d.inference_duration() {
        Some(duration) => DurationCell::Measured(duration),
        None => DurationCell::Text(String::from_str("not used")),
    };
    let budget = if d.budget_exhausted() {
        String::from_str("EXHAUSTED")
    } else {
        String::from_str("within limit")
    };
    let candidates_in = d.candidates();
    let mut candidates: Vec<CandidateLine<F>> = Vec::new();
    let mut i: usize = 0;
    while i < candidates_in.len()
        invariant
            candidates_in@ == d.spec_candidates(),
            i <= candidates_in@.len(),
            candidates@.len() == i,
            forall|j: int|
                0 <= j < i ==> (#[trigger] candidates@[j]).action@
                    == candidates_in@[j].spec_action()@ && candidates@[j].score
                    == candidates_in@[j].spec_score() && candidates@[j].disposition@
                    == candidates_in@[j].spec_disposition()@,
        decreases candidates_in@.len() - i,
    {
        let c = &candidates_in[i];
        candidates.push(
            CandidateLine {
                action: text_string(c.action()),
                score: c.score(),
                disposition: text_string(c.disposition()),
            },
        );
        i = i + 1;
    }
    let no_candidates = if candidates_in.len() == 0 {
        Some(String::from_str("  —"))
    } else {
        None
    };
    let constraints_in = d.constraints();
    let mut constraints: Vec<String> = Vec::new();
    if constraints_in.len() == 0 {
        constraints.push(String::from_str("  none"));
        proof {
            assert(constraints@.map_values(|line: String| line@) =~= constraint_lines(
                d.spec_constraints(),
            ));
        }
    } else {
        let mut k: usize = 0;
        while k < constraints_in.len()
            invariant
                constraints_in@ == d.spec_constraints(),
                k <= constraints_in@.len(),
                constraints@.len() == k,
                forall|j: int|
                    0 <= j < k ==> (#[trigger] constraints@[j])@ == constraint_line(
                        constraints_in@[j],
                    ),
            decreases constraints_in@.len() - k,
        {
            let c = &constraints_in[k];
            let mut line = String::from_str("  ");
            line.append(c.stage().as_str());
            line.append(" → ");
            line.append(c.effect().as_str());
            proof {
                assert(line@ =~= constraint_line(*c));
            }
            constraints.push(line);
            k = k + 1;
        }
        proof {
            assert(constraints@.map_values(|line: String| line@) =~= constraint_lines(
                d.spec_constraints(),
            ));
        }
    }
    let fallback = match d.fallback_reason() {
        Some(reason) => {
            let mut line = String::from_str("Fallback: ");
            line.append(reason.as_str());
            Some(line)
        },
        None => None,
    };
    DecisionDetail {
        selected_action: text_string(d.selected_action()),
        emission: text_string(d.emission()),
        summary,
        decision_duration: d.decision_duration(),
        inference,
        budget,
        candidates,
        no_candidates,
        constraints,
        fallback,
    }
}

/// One row of the channel table.
pub struct ChannelRow {
    pub kind: String,
    pub availability: String,
    pub summary: String,
    /// `applied` or `available`.
    pub decision: String,
}

/// One row of the memory table; percentages and the age are formatted by the caller.
pub struct MemoryRow<F> {
    pub token: String,
    pub kind: String,
    pub status: String,
    pub summary: String,
    pub confidence: F,
    pub uncertainty: F,
    pub age: Elapsed,
    /// `used` or `unused`.
    pub policy: String,
}

/// The sensorium panel of the selected agent.
pub struct SensoriumRows<F> {
    pub observation: String,
    pub tick: String,
    /// Capture time, for the caller's freshness cell.
    pub recorded_at: u64,
    /// `schema / policy`.
    pub schema_policy: String,
    /// Title of the channel table, naming the perceived count.
    pub channel_title: String,
    pub channels: Vec<ChannelRow>,
    pub memory: Vec<MemoryRow<F>>,
}

/// Whether a channel row shows a channel.
pub open spec fn channel_row_shows(row: ChannelRow, c: SensoriumChannelSnapshot) -> bool {
    &&& row.kind@ == c.spec_kind().label()
    &&& row.availability@ == c.spec_availability().label()
    &&& row.summary@ == c.spec_summary()@
    &&& row.decision@ == (if c.spec_affected_decision() {
        "applied"@
    } else {
        "available"@
    })
}

/// Whether a memory row shows a memory item.
pub open spec fn memory_row_shows<F: Copy>(row: MemoryRow<F>, item: MemoryItemSnapshot<F>) -> bool {
    &&& row.token@ == decimal(item.spec_token() as nat)
    &&& row.kind@ == item.spec_kind().label()
    &&& row.status@ == item.spec_status().label()
    &&& row.summary@ == item.spec_summary()@
    &&& row.confidence == item.spec_confidence()
    &&& row.uncertainty == item.spec_uncertainty()
    &&& row.age == item.spec_age()
    &&& row.policy@ == (if item.spec_consumed_by_decision() {
        "used"@
    } else {
        "unused"@
    })
}

/// Build the sensorium panel of one snapshot: its identity cells, one row per channel,
/// and one row per memory item, in order.
pub fn sensorium_rows<F: Copy>(s: &SensoriumSnapshot<F>) -> (rows: SensoriumRows<F>)
    ensures
        rows.observation@ == decimal(s.spec_observation_sequence() as nat),
        rows.tick@ == decimal(s.spec_observation_tick() as nat),
        rows.recorded_at == s.spec_recorded_at(),
        rows.schema_policy@ == decimal(s.spec_schema_version() as nat) + " / "@
            + s.spec_policy_version()@,
        rows.channel_title@ == "Senses, body, capacity, performance · "@ + decimal(
            s.spec_perceived_entities() as nat,
        ) + " perceived"@,
        rows.channels@.len() == s.spec_channels().len(),
        forall|i: int|
            0 <= i < rows.channels@.len() ==> channel_row_shows(
                #[trigger] rows.channels@[i],
                s.spec_channels()[i],
            ),
        rows.memory@.len() == s.spec_memory().len(),
        forall|i: int|
            0 <= i < rows.memory@.len() ==> memory_row_shows(
                #[trigger] rows.memory@[i],
                s.spec_memory()[i],
            ),
{
    proof {
        reveal_strlit(" / ");
        reveal_strlit("Senses, body, capacity, performance · ");
        reveal_strlit(" perceived");
    }
    let mut schema_policy = decimal_string(s.schema_version() as u64);
    schema_policy.append(" / ");
    schema_policy.append(s.policy_version().as_str());
    let mut channel_title = String::from_str("Senses, body, capacity, performance · ");
    push_decimal(&mut channel_title, s.perceived_entities() as u64);
    channel_title.append(" perceived");
    let channels_in = s.channels();
    let mut channels: Vec<ChannelRow> = Vec::new();
    let mut i: usize = 0;
    while i < channels_in.len()
        invariant
            channels_in@ == s.spec_channels(),
            i <= channels_in@.len(),
            channels@.len() == i,
            forall|j: int| 0 <= j < i ==> channel_row_shows(#[trigger] channels@[j], channels_in@[j]),
        decreases channels_in@.len() - i,
    {
        let c = &channels_in[i];
        channels.push(
            ChannelRow {
                kind: String::from_str(c.kind().as_str()),
                availability: String::from_str(c.availability().as_str()),
                summary: text_string(c.summary()),
                decision: if c.affected_decision() {
                    String::from_str("applied")
                } else {
                    String::from_str("available")
                },
            },
        );
        i = i + 1;
    }
    let memory_in = s.memory();
    let mut memory: Vec<MemoryRow<F>> = Vec::new();
    let mut k: usize = 0;
    while k < memory_in.len()
        invariant
            memory_in@ == s.spec_memory(),
            k <= memory_in@.len(),
            memory@.len() == k,
            forall|j: int| 0 <= j < k ==> memory_row_shows(#[trigger] memory@[j], memory_in@[j]),
        decreases memory_in@.len() - k,
    {
        let item = &memory_in[k];
        memory.push(
            MemoryRow {
                token: decimal_string(item.token()),
                kind: String::from_str(item.kind().as_str()),
                status: String::from_str(item.status().as_str()),
                summary: text_string(item.summary()),
                confidence: item.confidence(),
                uncertainty: item.uncertainty(),
                age: item.age(),
                policy: if item.consumed_by_decision() {
                    String::from_str("used")
                } else {
                    String::from_str("unused")
                },
            },
        );
        k = k + 1;
    }
    SensoriumRows {
        observation: decimal_string(s.observation_sequence()),
        tick: decimal_string(s.observation_tick()),
        recorded_at: s.recorded_at(),
        schema_policy,
        channel_title,
        channels,
        memory,
    }
}

} // verus!
