//! Agent identities, bounded operator text, and the diagnostic validation error.
use vstd::prelude::*;
use vstd::string::StrSliceExecFns;
use vstd::utf8::encode_utf8;
use super::kinds::{SensoriumAvailability, SensoriumChannelKind};
use crate::text::{decimal_pad2, push_decimal_pad2};

verus! {

/// Largest accepted diagnostic text, in UTF-8 bytes.
pub const MAX_DIAGNOSTIC_TEXT_BYTES: usize = 96;

/// Process-local pseudonymous identity used only by agent diagnostics.
#[derive(Debug, Clone, Copy, PartialEq, Eq, PartialOrd, Ord, Hash, Structural)]
pub struct AgentId(u32);

impl AgentId {
    #[verifier::type_invariant]
    spec fn non_zero(self) -> bool {
        self.0 != 0
    }

    /// The numeric identity.
    pub closed spec fn value(self) -> u32 {
        self.0
    }

    /// Construct a non-zero process-local agent identity.
    pub fn new(value: u32) -> (id: Self)
        requires
            value != 0,
        ensures
            id.value() == value,
    {
        AgentId(value)
    }

    /// Return the numeric process-local identity.
    pub fn get(self) -> (value: u32)
        ensures
            value == self.value(),
            value != 0,
    {
        proof {
            use_type_invariant(&self);
        }
        self.0
    }

    /// Render the identity as operator text, padded to at least two digits.
    pub fn to_text(self) -> (text: String)
        ensures
            text@ == decimal_pad2(self.value() as nat),
    {
        let mut text = String::new();
        push_decimal_pad2(&mut text, self.0 as u64);
        text
    }
}

/// Identities are told apart by their numbers: two identities are equal exactly when
/// their numbers are.
pub proof fn lemma_agent_value_identifies(a: AgentId, b: AgentId)
    ensures
        (a.value() == b.value()) == (a == b),
{
}

/// Validation failure for bounded process-local diagnostic records.
#[derive(Debug, Clone, PartialEq, Eq)]
pub enum AgentDiagnosticError {
    /// A bounded diagnostic string was empty or too large.
    InvalidTextLength { actual: usize, maximum: usize },
    /// Terminal control characters are not valid operator-facing values.
    InvalidTextCharacter,
    /// A bounded diagnostic collection exceeded its contract.
    CollectionTooLarge { collection: &'static str, actual: usize, maximum: usize },
    /// Observation sequence zero is reserved for unavailable data.
    ZeroObservationSequence,
    /// Decision sequence zero is reserved for unavailable data.
    ZeroDecisionSequence,
    /// Sensorium schema version zero is reserved.
    ZeroSchemaVersion,
    /// Process-local memory tokens must be non-zero.
    ZeroMemoryToken,
    /// Confidence and uncertainty must be finite normalized values.
    InvalidNormalizedValue,
    /// A sensorium snapshot repeated one semantic channel.
    DuplicateSensoriumChannel,
    /// A sensorium snapshot repeated one process-local memory token.
    DuplicateMemoryToken,
    /// Candidate scores must be finite.
    NonFiniteScore,
    /// Fallback decisions must classify their reason.
    MissingFallbackReason,
    /// A runtime observer received a record for another process-local agent.
    AgentIdentityMismatch { expected: AgentId, actual: AgentId },
}

/// Unicode general category Cc: the C0 and C1 control characters and DELETE.
pub open spec fn is_control(c: char) -> bool {
    (c as u32) <= 0x1f || (0x7f <= (c as u32) && (c as u32) <= 0x9f)
}

/// Length of the UTF-8 encoding of a character sequence, as `str::len` reports it.
pub open spec fn utf8_len(s: Seq<char>) -> usize {
    encode_utf8(s).len() as usize
}

/// Why a value is not acceptable diagnostic text, if it is not.
pub open spec fn text_error(s: Seq<char>) -> Option<AgentDiagnosticError> {
    if s.len() == 0 || utf8_len(s) > MAX_DIAGNOSTIC_TEXT_BYTES {
        Some(
            AgentDiagnosticError::InvalidTextLength {
                actual: utf8_len(s),
                maximum: MAX_DIAGNOSTIC_TEXT_BYTES,
            },
        )
    } else if exists|i: int| 0 <= i < s.len() && is_control(#[trigger] s[i]) {
        Some(AgentDiagnosticError::InvalidTextCharacter)
    } else {
        None
    }
}

/// Bounded operator-facing text carried by the process-local diagnostic stream.
#[derive(Debug, Clone, PartialEq, Eq, PartialOrd, Ord)]
pub struct DiagnosticText(String);

impl View for DiagnosticText {
    type V = Seq<char>;

    closed spec fn view(&self) -> Seq<char> {
        self.0@
    }
}

impl DiagnosticText {
    /// Validate one non-empty bounded diagnostic value.
    pub fn new(value: String) -> (result: Result<Self, AgentDiagnosticError>)
        ensures
            match result {
                Ok(text) => text_error(value@) is None && text@ == value@,
                Err(error) => text_error(value@) == Some(error),
            },
    {
        let bytes = value.as_str().len();
        if value.as_str().is_empty() || bytes > MAX_DIAGNOSTIC_TEXT_BYTES {
            return Err(
                AgentDiagnosticError::InvalidTextLength {
                    actual: bytes,
                    maximum: MAX_DIAGNOSTIC_TEXT_BYTES,
                },
            );
        }
        let length = value.as_str().unicode_len();
        let mut i: usize = 0;
        while i < length
            invariant
                length == value@.len(),
                i <= length,
                value@.len() > 0,
                utf8_len(value@) <= MAX_DIAGNOSTIC_TEXT_BYTES,
                forall|j: int| 0 <= j < i ==> !is_control(#[trigger] value@[j]),
            decreases length - i,
        {
            let c = value.as_str().get_char(i);
            let code = c as u32;
            if code <= 0x1f || (0x7f <= code && code <= 0x9f) {
                assert(is_control(value@[i as int]));
                return Err(AgentDiagnosticError::InvalidTextCharacter);
            }
            i = i + 1;
        }
        Ok(DiagnosticText(value))
    }

    /// An owned copy of the text.
    pub fn duplicate(&self) -> (copy: Self)
        ensures
            copy == *self,
    {
        DiagnosticText(self.0.clone())
    }

    /// Borrow the validated text.
    pub fn as_str(&self) -> (text: &str)
        ensures
            text@ == self@,
    {
        self.0.as_str()
    }
}

/// Static operator identity supplied by the real agent controller.
#[derive(Debug, Clone, PartialEq, Eq)]
pub struct AgentDescriptor {
    id: AgentId,
    difficulty: DiagnosticText,
    policy_version: DiagnosticText,
}

impl AgentDescriptor {
    /// The identity the descriptor binds.
    pub closed spec fn spec_id(&self) -> AgentId {
        self.id
    }

    /// The configured difficulty label.
    pub closed spec fn spec_difficulty(&self) -> DiagnosticText {
        self.difficulty
    }

    /// The active policy or model version.
    pub closed spec fn spec_policy_version(&self) -> DiagnosticText {
        self.policy_version
    }

    /// Bind a process-local identity to configured difficulty and policy versions.
    pub fn new(
        id: AgentId,
        difficulty: DiagnosticText,
        policy_version: DiagnosticText,
    ) -> (descriptor: Self)
        ensures
            descriptor.spec_id() == id,
            descriptor.spec_difficulty() == difficulty,
            descriptor.spec_policy_version() == policy_version,
    {
        AgentDescriptor { id, difficulty, policy_version }
    }

    /// An owned copy of the descriptor.
    pub fn duplicate(&self) -> (copy: Self)
        ensures
            copy == *self,
    {
        AgentDescriptor {
            id: self.id,
            difficulty: self.difficulty.duplicate(),
            policy_version: self.policy_version.duplicate(),
        }
    }

    /// Return the process-local identity.
    pub fn id(&self) -> (id: AgentId)
        ensures
            id == self.spec_id(),
    {
        self.id
    }

    /// Return the configured difficulty label.
    pub fn difficulty(&self) -> (difficulty: &DiagnosticText)
        ensures
            *difficulty == self.spec_difficulty(),
    {
        &self.difficulty
    }

    /// Return the active policy or model version.
    pub fn policy_version(&self) -> (version: &DiagnosticText)
        ensures
            *version == self.spec_policy_version(),
    {
        &self.policy_version
    }
}

/// Exact bounded summary of one sensorium channel produced by gameplay.
#[derive(Debug, Clone, PartialEq, Eq)]
pub struct SensoriumChannelSnapshot {
    kind: SensoriumChannelKind,
    availability: SensoriumAvailability,
    summary: DiagnosticText,
    affected_decision: bool,
}

impl SensoriumChannelSnapshot {
    /// The semantic channel.
    pub closed spec fn spec_kind(&self) -> SensoriumChannelKind {
        self.kind
    }

    /// The capability and freshness state.
    pub closed spec fn spec_availability(&self) -> SensoriumAvailability {
        self.availability
    }

    /// The gameplay-produced bounded summary.
    pub closed spec fn spec_summary(&self) -> DiagnosticText {
        self.summary
    }

    /// Whether a deterministic constraint applied this channel to the decision.
    pub closed spec fn spec_affected_decision(&self) -> bool {
        self.affected_decision
    }

    /// Construct a channel projection without recomputing gameplay semantics.
    pub fn new(
        kind: SensoriumChannelKind,
        availability: SensoriumAvailability,
        summary: DiagnosticText,
        affected_decision: bool,
    ) -> (snapshot: Self)
        ensures
            snapshot.spec_kind() == kind,
            snapshot.spec_availability() == availability,
            snapshot.spec_summary() == summary,
            snapshot.spec_affected_decision() == affected_decision,
    {
        SensoriumChannelSnapshot { kind, availability, summary, affected_decision }
    }

    /// Return the semantic channel.
    pub fn kind(&self) -> (kind: SensoriumChannelKind)
        ensures
            kind == self.spec_kind(),
    {
        self.kind
    }

    /// Return the capability/freshness state.
    pub fn availability(&self) -> (availability: SensoriumAvailability)
        ensures
            availability == self.spec_availability(),
    {
        self.availability
    }

    /// Return the gameplay-produced bounded summary.
    pub fn summary(&self) -> (summary: &DiagnosticText)
        ensures
            *summary == self.spec_summary(),
    {
        &self.summary
    }

    /// Return whether a deterministic constraint applied this channel to the decision.
    pub fn affected_decision(&self) -> (affected: bool)
        ensures
            affected == self.spec_affected_decision(),
    {
        self.affected_decision
    }
}

/// One deterministic downstream change to a selected semantic action.
#[derive(Debug, Clone, PartialEq, Eq)]
pub struct DecisionConstraint {
    stage: DiagnosticText,
    effect: DiagnosticText,
}

impl DecisionConstraint {
    /// The stable constraint stage.
    pub closed spec fn spec_stage(&self) -> DiagnosticText {
        self.stage
    }

    /// The exact bounded effect applied at that stage.
    pub closed spec fn spec_effect(&self) -> DiagnosticText {
        self.effect
    }

    /// Construct an ordered constraint projection.
    pub fn new(stage: DiagnosticText, effect: DiagnosticText) -> (constraint: Self)
        ensures
            constraint.spec_stage() == stage,
            constraint.spec_effect() == effect,
    {
        DecisionConstraint { stage, effect }
    }

    /// Return the stable constraint stage.
    pub fn stage(&self) -> (stage: &DiagnosticText)
        ensures
            *stage == self.spec_stage(),
    {
        &self.stage
    }

    /// Return the exact bounded effect applied at that stage.
    pub fn effect(&self) -> (effect: &DiagnosticText)
        ensures
            *effect == self.spec_effect(),
    {
        &self.effect
    }
}

} // verus!
