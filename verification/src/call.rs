use vstd::prelude::*;
use crate::error::{DurableStoreError, or_corrupt};
use crate::text::text_eq;
use crate::error::DurableRecordStatus;
use crate::conversation::{ConversationKind, is_group_kind, spec_is_group_kind};
use crate::group::GroupMemberState;
use crate::codec::{decode_u64, spec_decode_u64};
use crate::conversation::{call_conversation_kind_from_text, parse_call_conversation_kind};
use crate::journal::{clone_opt_text, opt_text, opt_text_eq};
use crate::group_record::{ConversationRecord, GroupRecord};
use crate::text::bytes_eq;
use crate::principal::{parse_principal_kind, principal_kind_from_text, same_principal, PrincipalRef, PrincipalView};
use crate::scope::{scope_eq, ScopeView, TenantScope};

verus! {

/// Signalling state of a call session.
#[derive(Clone, Copy, PartialEq, Eq, Debug, Structural)]
pub enum CallSignallingState {
    Inviting,
    Ringing,
    Active,
    Reconnecting,
    Terminated,
}

/// The text stored for a signalling state.
pub open spec fn signalling_state_text(value: CallSignallingState) -> Seq<char> {
    match value {
        CallSignallingState::Inviting => "inviting"@,
        CallSignallingState::Ringing => "ringing"@,
        CallSignallingState::Active => "active"@,
        CallSignallingState::Reconnecting => "reconnecting"@,
        CallSignallingState::Terminated => "terminated"@,
    }
}

/// The signalling state that a stored text names, if any.
pub open spec fn signalling_state_from_text(text: Seq<char>) -> Option<CallSignallingState> {
    if text == "inviting"@ {
        Some(CallSignallingState::Inviting)
    } else if text == "ringing"@ {
        Some(CallSignallingState::Ringing)
    } else if text == "active"@ {
        Some(CallSignallingState::Active)
    } else if text == "reconnecting"@ {
        Some(CallSignallingState::Reconnecting)
    } else if text == "terminated"@ {
        Some(CallSignallingState::Terminated)
    } else {
        None
    }
}

/// The text stored for a signalling state.
pub fn signalling_state_name(value: CallSignallingState) -> (r: &'static str)
    ensures
        r@ == signalling_state_text(value),
{
    match value {
        CallSignallingState::Inviting => "inviting",
        CallSignallingState::Ringing => "ringing",
        CallSignallingState::Active => "active",
        CallSignallingState::Reconnecting => "reconnecting",
        CallSignallingState::Terminated => "terminated",
    }
}

/// Reads a stored signalling state; unrecognised text is corrupt.
pub fn parse_signalling_state(value: &str) -> (r: Result<CallSignallingState, DurableStoreError>)
    ensures
        r == or_corrupt(signalling_state_from_text(value@)),
{
    if text_eq(value, "inviting") {
        Ok(CallSignallingState::Inviting)
    } else if text_eq(value, "ringing") {
        Ok(CallSignallingState::Ringing)
    } else if text_eq(value, "active") {
        Ok(CallSignallingState::Active)
    } else if text_eq(value, "reconnecting") {
        Ok(CallSignallingState::Reconnecting)
    } else if text_eq(value, "terminated") {
        Ok(CallSignallingState::Terminated)
    } else {
        Err(DurableStoreError::Corrupt)
    }
}

/// Every signalling state reads back unchanged from the text stored for it.
pub proof fn lemma_signalling_state_text_round_trip(value: CallSignallingState)
    ensures
        signalling_state_from_text(signalling_state_text(value)) == Some(value),
{
    reveal_strlit("inviting");
    reveal_strlit("ringing");
    reveal_strlit("active");
    reveal_strlit("reconnecting");
    reveal_strlit("terminated");
    match value {
        CallSignallingState::Inviting => {
        },
        CallSignallingState::Ringing => {
            assert("ringing"@.len() != "inviting"@.len());
        },
        CallSignallingState::Active => {
            assert("active"@.len() != "inviting"@.len());
            assert("active"@.len() != "ringing"@.len());
        },
        CallSignallingState::Reconnecting => {
            assert("reconnecting"@.len() != "inviting"@.len());
            assert("reconnecting"@.len() != "ringing"@.len());
            assert("reconnecting"@.len() != "active"@.len());
        },
        CallSignallingState::Terminated => {
            assert("terminated"@.len() != "inviting"@.len());
            assert("terminated"@.len() != "ringing"@.len());
            assert("terminated"@.len() != "active"@.len());
            assert("terminated"@.len() != "reconnecting"@.len());
        },
    }
}

/// State of one participant of a call.
#[derive(Clone, Copy, PartialEq, Eq, Debug, Structural)]
pub enum CallParticipantState {
    Invited,
    Ringing,
    Accepted,
    Rejected,
    Busy,
    Left,
}

/// The text stored for a participant state.
pub open spec fn participant_state_text(value: CallParticipantState) -> Seq<char> {
    match value {
        CallParticipantState::Invited => "invited"@,
        CallParticipantState::Ringing => "ringing"@,
        CallParticipantState::Accepted => "accepted"@,
        CallParticipantState::Rejected => "rejected"@,
        CallParticipantState::Busy => "busy"@,
        CallParticipantState::Left => "left"@,
    }
}

/// The participant state that a stored text names, if any.
pub open spec fn participant_state_from_text(text: Seq<char>) -> Option<CallParticipantState> {
    if text == "invited"@ {
        Some(CallParticipantState::Invited)
    } else if text == "ringing"@ {
        Some(CallParticipantState::Ringing)
    } else if text == "accepted"@ {
        Some(CallParticipantState::Accepted)
    } else if text == "rejected"@ {
        Some(CallParticipantState::Rejected)
    } else if text == "busy"@ {
        Some(CallParticipantState::Busy)
    } else if text == "left"@ {
        Some(CallParticipantState::Left)
    } else {
        None
    }
}

/// The text stored for a participant state.
pub fn participant_state_name(value: CallParticipantState) -> (r: &'static str)
    ensures
        r@ == participant_state_text(value),
{
    match value {
        CallParticipantState::Invited => "invited",
        CallParticipantState::Ringing => "ringing",
        CallParticipantState::Accepted => "accepted",
        CallParticipantState::Rejected => "rejected",
        CallParticipantState::Busy => "busy",
        CallParticipantState::Left => "left",
    }
}

/// Reads a stored participant state; unrecognised text is corrupt.
pub fn parse_participant_state(value: &str) -> (r: Result<CallParticipantState, DurableStoreError>)
    ensures
        r == or_corrupt(participant_state_from_text(value@)),
{
    if text_eq(value, "invited") {
        Ok(CallParticipantState::Invited)
    } else if text_eq(value, "ringing") {
        Ok(CallParticipantState::Ringing)
    } else if text_eq(value, "accepted") {
        Ok(CallParticipantState::Accepted)
    } else if text_eq(value, "rejected") {
        Ok(CallParticipantState::Rejected)
    } else if text_eq(value, "busy") {
        Ok(CallParticipantState::Busy)
    } else if text_eq(value, "left") {
        Ok(CallParticipantState::Left)
    } else {
        Err(DurableStoreError::Corrupt)
    }
}

/// Every participant state reads back unchanged from the text stored for it.
pub proof fn lemma_participant_state_text_round_trip(value: CallParticipantState)
    ensures
        participant_state_from_text(participant_state_text(value)) == Some(value),
{
    reveal_strlit("invited");
    reveal_strlit("ringing");
    reveal_strlit("accepted");
    reveal_strlit("rejected");
    reveal_strlit("busy");
    reveal_strlit("left");
    match value {
        CallParticipantState::Invited => {
        },
        CallParticipantState::Ringing => {
            assert("ringing"@[0] != "invited"@[0]);
        },
        CallParticipantState::Accepted => {
            assert("accepted"@.len() != "invited"@.len());
            assert("accepted"@.len() != "ringing"@.len());
        },
        CallParticipantState::Rejected => {
            assert("rejected"@.len() != "invited"@.len());
            assert("rejected"@.len() != "ringing"@.len());
            assert("rejected"@[0] != "accepted"@[0]);
        },
        CallParticipantState::Busy => {
            assert("busy"@.len() != "invited"@.len());
            assert("busy"@.len() != "ringing"@.len());
            assert("busy"@.len() != "accepted"@.len());
            assert("busy"@.len() != "rejected"@.len());
        },
        CallParticipantState::Left => {
            assert("left"@.len() != "invited"@.len());
            assert("left"@.len() != "ringing"@.len());
            assert("left"@.len() != "accepted"@.len());
            assert("left"@.len() != "rejected"@.len());
            assert("left"@[0] != "busy"@[0]);
        },
    }
}

/// Why a call ended.
#[derive(Clone, Copy, PartialEq, Eq, Debug, Structural)]
pub enum CallTerminationReason {
    Rejected,
    Busy,
    Cancelled,
    TimedOut,
    Completed,
    Failed,
}

/// The text stored for a termination reason.
pub open spec fn termination_reason_text(value: CallTerminationReason) -> Seq<char> {
    match value {
        CallTerminationReason::Rejected => "rejected"@,
        CallTerminationReason::Busy => "busy"@,
        CallTerminationReason::Cancelled => "cancelled"@,
        CallTerminationReason::TimedOut => "timed_out"@,
        CallTerminationReason::Completed => "completed"@,
        CallTerminationReason::Failed => "failed"@,
    }
}

/// The termination reason that a stored text names, if any.
pub open spec fn termination_reason_from_text(text: Seq<char>) -> Option<CallTerminationReason> {
    if text == "rejected"@ {
        Some(CallTerminationReason::Rejected)
    } else if text == "busy"@ {
        Some(CallTerminationReason::Busy)
    } else if text == "cancelled"@ {
        Some(CallTerminationReason::Cancelled)
    } else if text == "timed_out"@ {
        Some(CallTerminationReason::TimedOut)
    } else if text == "completed"@ {
        Some(CallTerminationReason::Completed)
    } else if text == "failed"@ {
        Some(CallTerminationReason::Failed)
    } else {
        None
    }
}

/// The text stored for a termination reason.
pub fn termination_reason_name(value: CallTerminationReason) -> (r: &'static str)
    ensures
        r@ == termination_reason_text(value),
{
    match value {
        CallTerminationReason::Rejected => "rejected",
        CallTerminationReason::Busy => "busy",
        CallTerminationReason::Cancelled => "cancelled",
        CallTerminationReason::TimedOut => "timed_out",
        CallTerminationReason::Completed => "completed",
        CallTerminationReason::Failed => "failed",
    }
}

/// Reads a stored termination reason; unrecognised text is corrupt.
pub fn parse_termination_reason(value: &str) -> (r: Result<CallTerminationReason, DurableStoreError>)
    ensures
        r == or_corrupt(termination_reason_from_text(value@)),
{
    if text_eq(value, "rejected") {
        Ok(CallTerminationReason::Rejected)
    } else if text_eq(value, "busy") {
        Ok(CallTerminationReason::Busy)
    } else if text_eq(value, "cancelled") {
        Ok(CallTerminationReason::Cancelled)
    } else if text_eq(value, "timed_out") {
        Ok(CallTerminationReason::TimedOut)
    } else if text_eq(value, "completed") {
        Ok(CallTerminationReason::Completed)
    } else if text_eq(value, "failed") {
        Ok(CallTerminationReason::Failed)
    } else {
        Err(DurableStoreError::Corrupt)
    }
}

/// Every termination reason reads back unchanged from the text stored for it.
pub proof fn lemma_termination_reason_text_round_trip(value: CallTerminationReason)
    ensures
        termination_reason_from_text(termination_reason_text(value)) == Some(value),
{
    reveal_strlit("rejected");
    reveal_strlit("busy");
    reveal_strlit("cancelled");
    reveal_strlit("timed_out");
    reveal_strlit("completed");
    reveal_strlit("failed");
    match value {
        CallTerminationReason::Rejected => {
        },
        CallTerminationReason::Busy => {
            assert("busy"@.len() != "rejected"@.len());
        },
        CallTerminationReason::Cancelled => {
            assert("cancelled"@.len() != "rejected"@.len());
            assert("cancelled"@.len() != "busy"@.len());
        },
        CallTerminationReason::TimedOut => {
            assert("timed_out"@.len() != "rejected"@.len());
            assert("timed_out"@.len() != "busy"@.len());
            assert("timed_out"@[0] != "cancelled"@[0]);
        },
        CallTerminationReason::Completed => {
            assert("completed"@.len() != "rejected"@.len());
            assert("completed"@.len() != "busy"@.len());
            assert("completed"@[1] != "cancelled"@[1]);
            assert("completed"@[0] != "timed_out"@[0]);
        },
        CallTerminationReason::Failed => {
            assert("failed"@.len() != "rejected"@.len());
            assert("failed"@.len() != "busy"@.len());
            assert("failed"@.len() != "cancelled"@.len());
            assert("failed"@.len() != "timed_out"@.len());
            assert("failed"@.len() != "completed"@.len());
        },
    }
}


/// A participant's stored state and the revision at which it left, if it did.
#[derive(Clone, Copy, PartialEq, Eq, Debug, Structural)]
pub struct ParticipantRecord {
    pub state: CallParticipantState,
    pub left_revision: Option<u64>,
}

/// Whether an actor may replay a signal it already recorded at `applied_revision`.
/// An active participant may; one who rejected or was busy may while it has not
/// left and the call has not moved back before that revision; one who left may
/// replay only the signal by which it left. An actor who is not a participant may not.
pub open spec fn spec_duplicate_actor_allowed(
    participant: Option<ParticipantRecord>,
    actor_active: bool,
    session_revision: u64,
    applied_revision: u64,
) -> bool {
    match participant {
        None => false,
        Some(p) => actor_active || match p.state {
            CallParticipantState::Rejected | CallParticipantState::Busy => p.left_revision is None
                && session_revision >= applied_revision,
            CallParticipantState::Left => p.left_revision == Some(applied_revision),
            _ => false,
        },
    }
}

/// Decides whether an actor may replay a recorded signal; `actor_active` is whether
/// the actor is an active participant of the call.
pub fn duplicate_actor_allowed(
    participant: Option<ParticipantRecord>,
    actor_active: bool,
    session_revision: u64,
    applied_revision: u64,
) -> (r: bool)
    ensures
        r == spec_duplicate_actor_allowed(
            participant,
            actor_active,
            session_revision,
            applied_revision,
        ),
{
    match participant {
        None => false,
        Some(p) => {
            if actor_active {
                return true;
            }
            match p.state {
                CallParticipantState::Rejected | CallParticipantState::Busy => p.left_revision.is_none()
                    && session_revision >= applied_revision,
                CallParticipantState::Left => match p.left_revision {
                    Some(left) => left == applied_revision,
                    None => false,
                },
                _ => false,
            }
        },
    }
}

/// The answer to a signal whose event id is already recorded: only the recording
/// actor, still allowed to replay it, gets a duplicate, and only for the same signal
/// fingerprint.
pub open spec fn spec_recorded_signal_outcome(
    recorded_actor: PrincipalView,
    recorded_fingerprint: Seq<u8>,
    actor: PrincipalView,
    duplicate_allowed: bool,
    fingerprint: Seq<u8>,
) -> Result<DurableRecordStatus, DurableStoreError> {
    if recorded_actor != actor || !duplicate_allowed {
        Err(DurableStoreError::PermissionDenied)
    } else if recorded_fingerprint == fingerprint {
        Ok(DurableRecordStatus::Duplicate)
    } else {
        Err(DurableStoreError::Conflict)
    }
}

/// Decides the answer to a signal whose event id is already recorded;
/// `duplicate_allowed` is whether the actor may still replay what it recorded.
pub fn recorded_signal_outcome(
    recorded_actor: &PrincipalRef,
    recorded_fingerprint: &[u8],
    actor: &PrincipalRef,
    duplicate_allowed: bool,
    fingerprint: &[u8],
) -> (r: Result<DurableRecordStatus, DurableStoreError>)
    ensures
        r == spec_recorded_signal_outcome(
            recorded_actor@,
            recorded_fingerprint@,
            actor@,
            duplicate_allowed,
            fingerprint@,
        ),
{
    if !same_principal(recorded_actor, actor) || !duplicate_allowed {
        return Err(DurableStoreError::PermissionDenied);
    }
    if bytes_eq(recorded_fingerprint, fingerprint) {
        Ok(DurableRecordStatus::Duplicate)
    } else {
        Err(DurableStoreError::Conflict)
    }
}

/// A recorded call signal is bound to the actor that sent it: replaying it is a
/// duplicate only for that actor while it may still replay, anyone else is refused,
/// and a different signal under the recorded event id conflicts.
pub proof fn lemma_call_signal_bound_to_actor(
    actor: PrincipalView,
    fingerprint: Seq<u8>,
    other_actor: PrincipalView,
    other_fingerprint: Seq<u8>,
    duplicate_allowed: bool,
)
    ensures
        spec_recorded_signal_outcome(actor, fingerprint, actor, true, fingerprint) == Ok::<
            DurableRecordStatus,
            DurableStoreError,
        >(DurableRecordStatus::Duplicate),
        spec_recorded_signal_outcome(actor, fingerprint, actor, false, fingerprint) == Err::<
            DurableRecordStatus,
            DurableStoreError,
        >(DurableStoreError::PermissionDenied),
        other_actor != actor ==> spec_recorded_signal_outcome(
            actor,
            fingerprint,
            other_actor,
            duplicate_allowed,
            fingerprint,
        ) == Err::<DurableRecordStatus, DurableStoreError>(DurableStoreError::PermissionDenied),
        other_fingerprint != fingerprint ==> spec_recorded_signal_outcome(
            actor,
            fingerprint,
            actor,
            true,
            other_fingerprint,
        ) == Err::<DurableRecordStatus, DurableStoreError>(DurableStoreError::Conflict),
{
}

/// Whether an actor is a current member where the call's conversation is a group:
/// for a direct call anyone passes; for a group call the group must exist and the
/// actor's membership must be active.
pub open spec fn spec_group_actor_current(
    kind: ConversationKind,
    group_found: bool,
    membership: Option<GroupMemberState>,
) -> bool {
    !spec_is_group_kind(kind) || (group_found && membership == Some(GroupMemberState::Active))
}

/// Decides whether an actor is a current member for the call's conversation.
pub fn group_actor_current(
    kind: ConversationKind,
    group_found: bool,
    membership: Option<GroupMemberState>,
) -> (r: bool)
    ensures
        r == spec_group_actor_current(kind, group_found, membership),
{
    if !is_group_kind(kind) {
        return true;
    }
    group_found && match membership {
        Some(GroupMemberState::Active) => true,
        _ => false,
    }
}

/// Errors of the call signalling protocol.
#[derive(Clone, Copy, PartialEq, Eq, Debug, Structural)]
pub enum CallSignallingError {
    PermissionDenied,
    RevisionMismatch,
    InvalidTransition,
    ParticipantAlreadyExists,
    WouldRemoveInitiator,
    TooManyParticipants,
    /// Any other malformed signal or session.
    Other,
}

/// How a call signalling error is reported by the store.
pub open spec fn spec_map_call_error(error: CallSignallingError) -> DurableStoreError {
    match error {
        CallSignallingError::PermissionDenied => DurableStoreError::PermissionDenied,
        CallSignallingError::RevisionMismatch | CallSignallingError::InvalidTransition
        | CallSignallingError::ParticipantAlreadyExists
        | CallSignallingError::WouldRemoveInitiator => DurableStoreError::Conflict,
        CallSignallingError::TooManyParticipants => DurableStoreError::Full,
        CallSignallingError::Other => DurableStoreError::InvalidRecord,
    }
}

/// Maps a call signalling error to the store error reported for it.
pub fn map_call_error(error: CallSignallingError) -> (r: DurableStoreError)
    ensures
        r == spec_map_call_error(error),
{
    match error {
        CallSignallingError::PermissionDenied => DurableStoreError::PermissionDenied,
        CallSignallingError::RevisionMismatch | CallSignallingError::InvalidTransition
        | CallSignallingError::ParticipantAlreadyExists
        | CallSignallingError::WouldRemoveInitiator => DurableStoreError::Conflict,
        CallSignallingError::TooManyParticipants => DurableStoreError::Full,
        CallSignallingError::Other => DurableStoreError::InvalidRecord,
    }
}

/// A call belongs to a stored conversation and describes exactly that
/// conversation: its id and kind.
pub open spec fn call_conversation_ok(conversation: Option<ConversationRecord>, session: SessionView) -> bool {
    conversation matches Some(c) && c.conversation.conversation_id@ == session.conversation_id
        && c.conversation.kind == session.conversation_kind
}

/// Checks a call against its stored conversation.
pub fn check_call_conversation(conversation: Option<&ConversationRecord>, session: &CallSession) -> (r:
    Result<(), DurableStoreError>)
    ensures
        call_conversation_ok(
            match conversation {
                Some(c) => Some(*c),
                None => None,
            },
            session@,
        ) ==> r is Ok,
        !call_conversation_ok(
            match conversation {
                Some(c) => Some(*c),
                None => None,
            },
            session@,
        ) ==> r == Err::<(), DurableStoreError>(DurableStoreError::InvalidRecord),
{
    match conversation {
        Some(c) => {
            if c.conversation.conversation_id == session.conversation_id && c.conversation.kind
                == session.conversation_kind {
                Ok(())
            } else {
                Err(DurableStoreError::InvalidRecord)
            }
        },
        None => Err(DurableStoreError::InvalidRecord),
    }
}

/// Whether every participant of a call has an active membership: `memberships[i]`
/// is the stored membership state of participant `i`, if any.
pub open spec fn participants_active(session: SessionView, memberships: Seq<Option<GroupMemberState>>) -> bool {
    forall|i: int|
        0 <= i < session.participants.len() ==> i < memberships.len() && #[trigger] memberships[i]
            == Some(GroupMemberState::Active)
}

/// The participants of a call in a group conversation must all be active members
/// of the conversation's group, which must exist and describe the same
/// conversation. Calls outside group conversations are not constrained.
pub open spec fn spec_require_group_participants(
    session: SessionView,
    group: Option<GroupRecord>,
    memberships: Seq<Option<GroupMemberState>>,
) -> Result<(), DurableStoreError> {
    if !spec_is_group_kind(session.conversation_kind) {
        Ok(())
    } else {
        match group {
            None => Err(DurableStoreError::PermissionDenied),
            Some(g) => if !(g.conversation.conversation_id@ == session.conversation_id
                && g.conversation.kind == session.conversation_kind) {
                Err(DurableStoreError::InvalidRecord)
            } else if !participants_active(session, memberships) {
                Err(DurableStoreError::PermissionDenied)
            } else {
                Ok(())
            },
        }
    }
}

/// Checks the participants of a call against the group of its conversation.
pub fn require_group_participants(
    session: &CallSession,
    group: Option<&GroupRecord>,
    memberships: &Vec<Option<GroupMemberState>>,
) -> (r: Result<(), DurableStoreError>)
    ensures
        r == spec_require_group_participants(
            session@,
            match group {
                Some(g) => Some(*g),
                None => None,
            },
            memberships@,
        ),
{
    if !is_group_kind(session.conversation_kind) {
        return Ok(());
    }
    match group {
        None => Err(DurableStoreError::PermissionDenied),
        Some(g) => {
            if !(g.conversation.conversation_id == session.conversation_id && g.conversation.kind
                == session.conversation_kind) {
                return Err(DurableStoreError::InvalidRecord);
            }
            let mut i: usize = 0;
            while i < session.participants.len()
                invariant
                    spec_is_group_kind(session.conversation_kind),
                    group == Some(g),
                    g.conversation.conversation_id@ == session.conversation_id@,
                    g.conversation.kind == session.conversation_kind,
                    session@.participants.len() == session.participants@.len(),
                    i <= session.participants@.len(),
                    forall|j: int|
                        0 <= j < i ==> j < memberships@.len() && #[trigger] memberships@[j]
                            == Some(GroupMemberState::Active),
                decreases session.participants@.len() - i,
            {
                if i >= memberships.len() {
                    assert(!(i < memberships@.len() && memberships@[i as int] == Some(
                        GroupMemberState::Active,
                    )));
                    return Err(DurableStoreError::PermissionDenied);
                }
                match memberships[i] {
                    Some(GroupMemberState::Active) => {},
                    _ => {
                        assert(memberships@[i as int] != Some(GroupMemberState::Active));
                        return Err(DurableStoreError::PermissionDenied);
                    },
                }
                i = i + 1;
            }
            Ok(())
        },
    }
}

/// A participant added to a call in a group conversation must be an active member
/// of the group, which must exist; other signals are not constrained.
/// `membership` is the added participant's stored membership state, if any.
pub fn require_group_signal_target(
    adds_participant: bool,
    kind: ConversationKind,
    group_found: bool,
    membership: Option<GroupMemberState>,
) -> (r: Result<(), DurableStoreError>)
    ensures
        (!adds_participant || !spec_is_group_kind(kind) || (group_found && membership == Some(
            GroupMemberState::Active,
        ))) ==> r is Ok,
        !(!adds_participant || !spec_is_group_kind(kind) || (group_found && membership == Some(
            GroupMemberState::Active,
        ))) ==> r == Err::<(), DurableStoreError>(DurableStoreError::PermissionDenied),
{
    if !adds_participant || !is_group_kind(kind) {
        return Ok(());
    }
    if group_found && membership == Some(GroupMemberState::Active) {
        Ok(())
    } else {
        Err(DurableStoreError::PermissionDenied)
    }
}

/// A new call signal may not reuse an event id taken by the journal or by a group change.
pub fn check_signal_event_id_unused(journal_has_event: bool, group_change_has_event: bool) -> (r:
    Result<(), DurableStoreError>)
    ensures
        !journal_has_event && !group_change_has_event ==> r is Ok,
        journal_has_event || group_change_has_event ==> r == Err::<(), DurableStoreError>(
            DurableStoreError::Conflict,
        ),
{
    if journal_has_event || group_change_has_event {
        Err(DurableStoreError::Conflict)
    } else {
        Ok(())
    }
}

/// A participant of a call.
#[derive(Clone, Debug)]
pub struct CallParticipant {
    pub principal: PrincipalRef,
    pub state: CallParticipantState,
    pub joined_revision: u64,
    pub left_revision: Option<u64>,
}

/// The mathematical content of a [`CallParticipant`].
pub struct ParticipantView {
    pub principal: PrincipalView,
    pub state: CallParticipantState,
    pub joined_revision: u64,
    pub left_revision: Option<u64>,
}

impl View for CallParticipant {
    type V = ParticipantView;

    open spec fn view(&self) -> ParticipantView {
        ParticipantView {
            principal: self.principal@,
            state: self.state,
            joined_revision: self.joined_revision,
            left_revision: self.left_revision,
        }
    }
}

/// The mathematical content of a list of participants.
pub open spec fn participants_view(participants: Seq<CallParticipant>) -> Seq<ParticipantView> {
    participants.map_values(|p: CallParticipant| p@)
}

/// A call session: its conversation, initiator, participants and signalling state.
#[derive(Clone, Debug)]
pub struct CallSession {
    pub scope: TenantScope,
    pub call_id: String,
    pub conversation_id: String,
    pub conversation_kind: ConversationKind,
    pub initiated_by: PrincipalRef,
    pub participants: Vec<CallParticipant>,
    pub signalling_state: CallSignallingState,
    pub media_negotiation_ref: Option<String>,
    pub media_negotiation_generation: u64,
    pub replication_generation: u64,
    pub revision: u64,
    pub termination_reason: Option<CallTerminationReason>,
}

/// The mathematical content of a [`CallSession`].
pub struct SessionView {
    pub scope: ScopeView,
    pub call_id: Seq<char>,
    pub conversation_id: Seq<char>,
    pub conversation_kind: ConversationKind,
    pub initiated_by: PrincipalView,
    pub participants: Seq<ParticipantView>,
    pub signalling_state: CallSignallingState,
    pub media_negotiation_ref: Option<Seq<char>>,
    pub media_negotiation_generation: u64,
    pub replication_generation: u64,
    pub revision: u64,
    pub termination_reason: Option<CallTerminationReason>,
}

impl View for CallSession {
    type V = SessionView;

    open spec fn view(&self) -> SessionView {
        SessionView {
            scope: self.scope@,
            call_id: self.call_id@,
            conversation_id: self.conversation_id@,
            conversation_kind: self.conversation_kind,
            initiated_by: self.initiated_by@,
            participants: participants_view(self.participants@),
            signalling_state: self.signalling_state,
            media_negotiation_ref: opt_text(self.media_negotiation_ref),
            media_negotiation_generation: self.media_negotiation_generation,
            replication_generation: self.replication_generation,
            revision: self.revision,
            termination_reason: self.termination_reason,
        }
    }
}

/// Whether two participants are equal in every field.
pub fn participant_eq(a: &CallParticipant, b: &CallParticipant) -> (r: bool)
    ensures
        r == (a@ == b@),
{
    same_principal(&a.principal, &b.principal) && a.state == b.state && a.joined_revision
        == b.joined_revision && a.left_revision == b.left_revision
}

/// Whether two call sessions are equal in every field, participants in order.
pub fn session_eq(a: &CallSession, b: &CallSession) -> (r: bool)
    ensures
        r == (a@ == b@),
{
    if !(scope_eq(&a.scope, &b.scope) && a.call_id == b.call_id && a.conversation_id
        == b.conversation_id && a.conversation_kind == b.conversation_kind && same_principal(
        &a.initiated_by,
        &b.initiated_by,
    ) && a.signalling_state == b.signalling_state && opt_text_eq(
        &a.media_negotiation_ref,
        &b.media_negotiation_ref,
    ) && a.media_negotiation_generation == b.media_negotiation_generation
        && a.replication_generation == b.replication_generation && a.revision == b.revision
        && a.termination_reason == b.termination_reason) {
        return false;
    }
    if a.participants.len() != b.participants.len() {
        assert(participants_view(a.participants@).len() != participants_view(b.participants@).len());
        return false;
    }
    let mut i: usize = 0;
    while i < a.participants.len()
        invariant
            a.participants@.len() == b.participants@.len(),
            i <= a.participants@.len(),
            forall|j: int| 0 <= j < i ==> a.participants@[j]@ == b.participants@[j]@,
        decreases a.participants@.len() - i,
    {
        if !participant_eq(&a.participants[i], &b.participants[i]) {
            assert(participants_view(a.participants@)[i as int] != participants_view(
                b.participants@,
            )[i as int]);
            return false;
        }
        i = i + 1;
    }
    assert(participants_view(a.participants@) =~= participants_view(b.participants@));
    true
}

/// The answer to creating a call whose id is already stored: the same session
/// created by the same initiator is a duplicate, anything else a conflict.
pub fn existing_call_outcome(existing: &CallSession, session: &CallSession, creator: &PrincipalRef) -> (r:
    Result<DurableRecordStatus, DurableStoreError>)
    ensures
        (existing@ == session@ && creator@ == existing@.initiated_by) ==> r == Ok::<
            DurableRecordStatus,
            DurableStoreError,
        >(DurableRecordStatus::Duplicate),
        !(existing@ == session@ && creator@ == existing@.initiated_by) ==> r == Err::<
            DurableRecordStatus,
            DurableStoreError,
        >(DurableStoreError::Conflict),
{
    if session_eq(existing, session) && same_principal(creator, &existing.initiated_by) {
        Ok(DurableRecordStatus::Duplicate)
    } else {
        Err(DurableStoreError::Conflict)
    }
}

/// The first participant of a session that is `actor`, as its stored state and
/// leaving revision; `None` when the actor is not a participant.
pub fn find_participant(session: &CallSession, actor: &PrincipalRef) -> (r: Option<ParticipantRecord>)
    ensures
        r is None <==> forall|i: int|
            0 <= i < session.participants@.len() ==> #[trigger] session.participants@[i].principal@
                != actor@,
        r matches Some(p) ==> exists|i: int|
            0 <= i < session.participants@.len() && #[trigger] session.participants@[i].principal@
                == actor@ && p.state == session.participants@[i].state && p.left_revision
                == session.participants@[i].left_revision && forall|j: int|
                0 <= j < i ==> session.participants@[j].principal@ != actor@,
{
    let mut i: usize = 0;
    while i < session.participants.len()
        invariant
            i <= session.participants@.len(),
            forall|j: int| 0 <= j < i ==> #[trigger] session.participants@[j].principal@ != actor@,
        decreases session.participants@.len() - i,
    {
        let p = &session.participants[i];
        if same_principal(&p.principal, actor) {
            return Some(ParticipantRecord { state: p.state, left_revision: p.left_revision });
        }
        i = i + 1;
    }
    None
}

/// The columns of a stored participant, as read.
#[derive(Clone, Debug)]
pub struct StoredParticipantRow {
    pub principal_id: String,
    pub principal_kind: String,
    pub state: String,
    pub joined_revision: Vec<u8>,
    pub left_revision: Option<Vec<u8>>,
}

/// The participant read back from its columns, if every column decodes.
pub open spec fn spec_decode_participant(row: StoredParticipantRow) -> Option<ParticipantView> {
    match (
        principal_kind_from_text(row.principal_kind@),
        participant_state_from_text(row.state@),
        spec_decode_u64(row.joined_revision@),
    ) {
        (Some(kind), Some(state), Ok(joined)) => match row.left_revision {
            None => Some(
                ParticipantView {
                    principal: PrincipalView { principal_id: row.principal_id@, kind },
                    state,
                    joined_revision: joined,
                    left_revision: None,
                },
            ),
            Some(left) => match spec_decode_u64(left@) {
                Ok(l) => Some(
                    ParticipantView {
                        principal: PrincipalView { principal_id: row.principal_id@, kind },
                        state,
                        joined_revision: joined,
                        left_revision: Some(l),
                    },
                ),
                Err(_) => None,
            },
        },
        _ => None,
    }
}

/// Rebuilds a stored participant; anything unrecognised is corrupt.
pub fn decode_participant(row: &StoredParticipantRow) -> (r: Result<CallParticipant, DurableStoreError>)
    ensures
        match (r, spec_decode_participant(*row)) {
            (Ok(p), Some(v)) => p@ == v,
            (Err(e), None) => e == DurableStoreError::Corrupt,
            _ => false,
        },
{
    let kind = parse_principal_kind(row.principal_kind.as_str())?;
    let state = parse_participant_state(row.state.as_str())?;
    let joined_revision = decode_u64(row.joined_revision.as_slice())?;
    let left_revision = match &row.left_revision {
        Some(left) => Some(decode_u64(left.as_slice())?),
        None => None,
    };
    Ok(
        CallParticipant {
            principal: PrincipalRef { principal_id: row.principal_id.clone(), kind },
            state,
            joined_revision,
            left_revision,
        },
    )
}

/// Rebuilds the stored participants of a call, in order.
pub fn decode_participants(rows: &Vec<StoredParticipantRow>) -> (r: Result<
    Vec<CallParticipant>,
    DurableStoreError,
>)
    ensures
        (forall|i: int| 0 <= i < rows@.len() ==> #[trigger] spec_decode_participant(rows@[i]) is Some)
            <==> r is Ok,
        r is Err ==> r == Err::<Vec<CallParticipant>, DurableStoreError>(DurableStoreError::Corrupt),
        r matches Ok(ps) ==> ps@.len() == rows@.len() && forall|i: int|
            0 <= i < rows@.len() ==> spec_decode_participant(rows@[i]) == Some(#[trigger] ps@[i]@),
{
    let mut out: Vec<CallParticipant> = Vec::new();
    let mut i: usize = 0;
    while i < rows.len()
        invariant
            i <= rows@.len(),
            out@.len() == i,
            forall|j: int| 0 <= j < i ==> #[trigger] spec_decode_participant(rows@[j]) is Some,
            forall|j: int| 0 <= j < i ==> spec_decode_participant(rows@[j]) == Some(#[trigger] out@[j]@),
        decreases rows@.len() - i,
    {
        let p = decode_participant(&rows[i])?;
        out.push(p);
        i = i + 1;
    }
    Ok(out)
}

/// The columns of a stored call, as read.
#[derive(Clone, Debug)]
pub struct StoredCallRow {
    pub conversation_id: String,
    pub conversation_kind: String,
    pub initiated_by_principal_id: String,
    pub initiated_by_principal_kind: String,
    pub signalling_state: String,
    pub media_negotiation_ref: Option<String>,
    pub media_negotiation_generation: Vec<u8>,
    pub replication_generation: Vec<u8>,
    pub revision: Vec<u8>,
    pub termination_reason: Option<String>,
}

/// Whether every column of a stored call decodes.
pub open spec fn call_row_ok(row: StoredCallRow) -> bool {
    &&& call_conversation_kind_from_text(row.conversation_kind@) is Some
    &&& principal_kind_from_text(row.initiated_by_principal_kind@) is Some
    &&& signalling_state_from_text(row.signalling_state@) is Some
    &&& spec_decode_u64(row.media_negotiation_generation@) is Ok
    &&& spec_decode_u64(row.replication_generation@) is Ok
    &&& spec_decode_u64(row.revision@) is Ok
    &&& (row.termination_reason matches Some(t) ==> termination_reason_from_text(t@) is Some)
}

/// Rebuilds a stored call from its columns and its decoded participants;
/// anything unrecognised is corrupt.
pub fn decode_call(
    scope: &TenantScope,
    call_id: &str,
    row: StoredCallRow,
    participants: Vec<CallParticipant>,
) -> (r: Result<CallSession, DurableStoreError>)
    ensures
        call_row_ok(row) <==> r is Ok,
        r is Err ==> r == Err::<CallSession, DurableStoreError>(DurableStoreError::Corrupt),
        r matches Ok(s) ==> {
            &&& s@.scope == scope@
            &&& s@.call_id == call_id@
            &&& s@.conversation_id == row.conversation_id@
            &&& Some(s@.conversation_kind) == call_conversation_kind_from_text(row.conversation_kind@)
            &&& s@.initiated_by.principal_id == row.initiated_by_principal_id@
            &&& Some(s@.initiated_by.kind) == principal_kind_from_text(row.initiated_by_principal_kind@)
            &&& s@.participants == participants_view(participants@)
            &&& Some(s@.signalling_state) == signalling_state_from_text(row.signalling_state@)
            &&& s@.media_negotiation_ref == opt_text(row.media_negotiation_ref)
            &&& Ok::<u64, DurableStoreError>(s@.media_negotiation_generation) == spec_decode_u64(row.media_negotiation_generation@)
            &&& Ok::<u64, DurableStoreError>(s@.replication_generation) == spec_decode_u64(row.replication_generation@)
            &&& Ok::<u64, DurableStoreError>(s@.revision) == spec_decode_u64(row.revision@)
            &&& match row.termination_reason {
                Some(t) => s@.termination_reason == termination_reason_from_text(t@),
                None => s@.termination_reason is None,
            }
        },
{
    let conversation_kind = parse_call_conversation_kind(row.conversation_kind.as_str())?;
    let initiator_kind = parse_principal_kind(row.initiated_by_principal_kind.as_str())?;
    let signalling_state = parse_signalling_state(row.signalling_state.as_str())?;
    let media_negotiation_generation = decode_u64(row.media_negotiation_generation.as_slice())?;
    let replication_generation = decode_u64(row.replication_generation.as_slice())?;
    let revision = decode_u64(row.revision.as_slice())?;
    let termination_reason = match &row.termination_reason {
        Some(t) => Some(parse_termination_reason(t.as_str())?),
        None => None,
    };
    Ok(
        CallSession {
            scope: TenantScope {
                tenant_id: scope.tenant_id.clone(),
                namespace_id: clone_opt_text(&scope.namespace_id),
            },
            call_id: call_id.to_owned(),
            conversation_id: row.conversation_id,
            conversation_kind,
            initiated_by: PrincipalRef { principal_id: row.initiated_by_principal_id, kind: initiator_kind },
            participants,
            signalling_state,
            media_negotiation_ref: row.media_negotiation_ref,
            media_negotiation_generation,
            replication_generation,
            revision,
            termination_reason,
        },
    )
}

} // verus!
