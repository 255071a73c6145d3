//! Validation rules of sensorium snapshots, decision records, and their observers.
use vstd::prelude::*;
use super::identity::{AgentDiagnosticError, AgentId};
use super::kinds::{DecisionOutcome, FallbackReason, SensoriumChannelKind};

verus! {

/// Largest number of channels in one sensorium snapshot.
pub const MAX_SENSORIUM_CHANNELS: usize = 8;

/// Largest number of semantic-memory items in one sensorium snapshot.
pub const MAX_MEMORY_ITEMS: usize = 32;

/// Largest number of policy candidates in one decision record.
pub const MAX_DECISION_CANDIDATES: usize = 8;

/// Largest number of downstream constraints in one decision record.
pub const MAX_DECISION_CONSTRAINTS: usize = 12;

/// Whether some value occurs twice in a sequence.
pub open spec fn has_duplicate<T>(s: Seq<T>) -> bool {
    exists|i: int, j: int| 0 <= i < j < s.len() && #[trigger] s[i] == #[trigger] s[j]
}

/// The first rule, in checking order, that a sensorium snapshot breaks, if any.
pub open spec fn sensorium_shape_error(
    observation_sequence: u64,
    schema_version: u16,
    channels: Seq<SensoriumChannelKind>,
    memory_tokens: Seq<u64>,
) -> Option<AgentDiagnosticError> {
    if observation_sequence == 0 {
        Some(AgentDiagnosticError::ZeroObservationSequence)
    } else if schema_version == 0 {
        Some(AgentDiagnosticError::ZeroSchemaVersion)
    } else if channels.len() > MAX_SENSORIUM_CHANNELS {
        Some(
            AgentDiagnosticError::CollectionTooLarge {
                collection: "sensorium channels",
                actual: channels.len() as usize,
                maximum: MAX_SENSORIUM_CHANNELS,
            },
        )
    } else if memory_tokens.len() > MAX_MEMORY_ITEMS {
        Some(
            AgentDiagnosticError::CollectionTooLarge {
                collection: "memory items",
                actual: memory_tokens.len() as usize,
                maximum: MAX_MEMORY_ITEMS,
            },
        )
    } else if has_duplicate(channels) {
        Some(AgentDiagnosticError::DuplicateSensoriumChannel)
    } else if has_duplicate(memory_tokens) {
        Some(AgentDiagnosticError::DuplicateMemoryToken)
    } else {
        None
    }
}

/// The first rule, in checking order, that a decision record breaks, if any.
pub open spec fn decision_shape_error(
    decision_sequence: u64,
    observation_sequence: u64,
    candidate_count: usize,
    constraint_count: usize,
    outcome: DecisionOutcome,
    fallback_reason: Option<FallbackReason>,
) -> Option<AgentDiagnosticError> {
    if decision_sequence == 0 {
        Some(AgentDiagnosticError::ZeroDecisionSequence)
    } else if observation_sequence == 0 {
        Some(AgentDiagnosticError::ZeroObservationSequence)
    } else if candidate_count > MAX_DECISION_CANDIDATES {
        Some(
            AgentDiagnosticError::CollectionTooLarge {
                collection: "decision candidates",
                actual: candidate_count,
                maximum: MAX_DECISION_CANDIDATES,
            },
        )
    } else if constraint_count > MAX_DECISION_CONSTRAINTS {
        Some(
            AgentDiagnosticError::CollectionTooLarge {
                collection: "decision constraints",
                actual: constraint_count,
                maximum: MAX_DECISION_CONSTRAINTS,
            },
        )
    } else if outcome == DecisionOutcome::Fallback && fallback_reason is None {
        Some(AgentDiagnosticError::MissingFallbackReason)
    } else {
        None
    }
}

/// The result a validation returns for the first broken rule, if any.
pub open spec fn as_result(error: Option<AgentDiagnosticError>) -> Result<(), AgentDiagnosticError> {
    match error {
        Some(error) => Err(error),
        None => Ok(()),
    }
}

fn has_duplicate_channel(items: &[SensoriumChannelKind]) -> (duplicate: bool)
    ensures
        duplicate == has_duplicate(items@),
{
    let mut i: usize = 0;
    while i < items.len()
        invariant
            i <= items@.len(),
            forall|a: int, b: int| 0 <= a < b < items@.len() && a < i ==> items@[a] != items@[b],
        decreases items@.len() - i,
    {
        let mut j: usize = i + 1;
        while j < items.len()
            invariant
                i < j <= items@.len(),
                i < items@.len(),
                forall|a: int, b: int| 0 <= a < b < items@.len() && a < i ==> items@[a] != items@[b],
                forall|b: int| i < b < j ==> items@[i as int] != items@[b],
            decreases items@.len() - j,
        {
            if items[i] == items[j] {
                assert(items@[i as int] == items@[j as int]);
                return true;
            }
            j = j + 1;
        }
        i = i + 1;
    }
    false
}

fn has_duplicate_token(items: &[u64]) -> (duplicate: bool)
    ensures
        duplicate == has_duplicate(items@),
{
    let mut i: usize = 0;
    while i < items.len()
        invariant
            i <= items@.len(),
            forall|a: int, b: int| 0 <= a < b < items@.len() && a < i ==> items@[a] != items@[b],
        decreases items@.len() - i,
    {
        let mut j: usize = i + 1;
        while j < items.len()
            invariant
                i < j <= items@.len(),
                i < items@.len(),
                forall|a: int, b: int| 0 <= a < b < items@.len() && a < i ==> items@[a] != items@[b],
                forall|b: int| i < b < j ==> items@[i as int] != items@[b],
            decreases items@.len() - j,
        {
            if items[i] == items[j] {
                assert(items@[i as int] == items@[j as int]);
                return true;
            }
            j = j + 1;
        }
        i = i + 1;
    }
    false
}

/// Validate the identity, versioning, size, and uniqueness rules of one sensorium
/// snapshot, given its channel kinds and memory tokens in order.
pub fn validate_sensorium_shape(
    observation_sequence: u64,
    schema_version: u16,
    channel_kinds: &[SensoriumChannelKind],
    memory_tokens: &[u64],
) -> (result: Result<(), AgentDiagnosticError>)
    ensures
        result == as_result(
            sensorium_shape_error(
                observation_sequence,
                schema_version,
                channel_kinds@,
                memory_tokens@,
            ),
        ),
{
    if observation_sequence == 0 {
        return Err(AgentDiagnosticError::ZeroObservationSequence);
    }
    if schema_version == 0 {
        return Err(AgentDiagnosticError::ZeroSchemaVersion);
    }
    if channel_kinds.len() > MAX_SENSORIUM_CHANNELS {
        return Err(
            AgentDiagnosticError::CollectionTooLarge {
                collection: "sensorium channels",
                actual: channel_kinds.len(),
                maximum: MAX_SENSORIUM_CHANNELS,
            },
        );
    }
    if memory_tokens.len() > MAX_MEMORY_ITEMS {
        return Err(
            AgentDiagnosticError::CollectionTooLarge {
                collection: "memory items",
                actual: memory_tokens.len(),
                maximum: MAX_MEMORY_ITEMS,
            },
        );
    }
    if has_duplicate_channel(channel_kinds) {
        return Err(AgentDiagnosticError::DuplicateSensoriumChannel);
    }
    if has_duplicate_token(memory_tokens) {
        return Err(AgentDiagnosticError::DuplicateMemoryToken);
    }
    Ok(())
}

/// Validate the sequencing, size, and fallback rules of one decision record.
pub fn validate_decision_shape(
    decision_sequence: u64,
    observation_sequence: u64,
    candidate_count: usize,
    constraint_count: usize,
    outcome: DecisionOutcome,
    fallback_reason: Option<FallbackReason>,
) -> (result: Result<(), AgentDiagnosticError>)
    ensures
        result == as_result(
            decision_shape_error(
                decision_sequence,
                observation_sequence,
                candidate_count,
                constraint_count,
                outcome,
                fallback_reason,
            ),
        ),
{
    if decision_sequence == 0 {
        return Err(AgentDiagnosticError::ZeroDecisionSequence);
    }
    if observation_sequence == 0 {
        return Err(AgentDiagnosticError::ZeroObservationSequence);
    }
    if candidate_count > MAX_DECISION_CANDIDATES {
        return Err(
            AgentDiagnosticError::CollectionTooLarge {
                collection: "decision candidates",
                actual: candidate_count,
                maximum: MAX_DECISION_CANDIDATES,
            },
        );
    }
    if constraint_count > MAX_DECISION_CONSTRAINTS {
        return Err(
            AgentDiagnosticError::CollectionTooLarge {
                collection: "decision constraints",
                actual: constraint_count,
                maximum: MAX_DECISION_CONSTRAINTS,
            },
        );
    }
    validate_fallback_reason(outcome, fallback_reason)
}

/// A fallback outcome must carry its bounded reason; other outcomes need none.
pub fn validate_fallback_reason(outcome: DecisionOutcome, fallback_reason: Option<FallbackReason>) -> (result: Result<(), AgentDiagnosticError>)
    ensures
        result == (if outcome == DecisionOutcome::Fallback && fallback_reason is None {
            Err(AgentDiagnosticError::MissingFallbackReason)
        } else {
            Ok(())
        }),
{
    if outcome == DecisionOutcome::Fallback && fallback_reason.is_none() {
        return Err(AgentDiagnosticError::MissingFallbackReason);
    }
    Ok(())
}

/// Memory tokens are process-local non-zero identities.
pub fn validate_memory_token(token: u64) -> (result: Result<(), AgentDiagnosticError>)
    ensures
        result == (if token == 0 {
            Err(AgentDiagnosticError::ZeroMemoryToken)
        } else {
            Ok(())
        }),
{
    if token == 0 {
        return Err(AgentDiagnosticError::ZeroMemoryToken);
    }
    Ok(())
}

/// A runtime bound to one agent accepts only that agent's records; an unbound
/// runtime accepts any agent.
pub fn ensure_agent(expected: Option<AgentId>, actual: AgentId) -> (result: Result<(), AgentDiagnosticError>)
    ensures
        result == (match expected {
            Some(id) if id != actual => Err(
                AgentDiagnosticError::AgentIdentityMismatch { expected: id, actual },
            ),
            _ => Ok(()),
        }),
{
    if let Some(id) = expected {
        if id != actual {
            return Err(AgentDiagnosticError::AgentIdentityMismatch { expected: id, actual });
        }
    }
    Ok(())
}

} // verus!
