use vstd::prelude::*;
use crate::error::{DurableStoreError, or_corrupt};
use crate::text::text_eq;
use crate::error::DurableRecordStatus;
use crate::record::WriteStep;
use crate::codec::{decode_u64, spec_decode_u64};
use crate::journal::clone_opt_text;
use crate::scope::{scope_eq, ScopeView, TenantScope};

verus! {

/// Delivery state of a message delivery attempt.
#[derive(Clone, Copy, PartialEq, Eq, Debug, Structural)]
pub enum DeliveryState {
    Persisted,
    Encrypted,
    Queued,
    RoutePlanned,
    InFlight,
    Acknowledged,
    Delivered,
    Read,
    Failed,
    Expired,
    Created,
}

/// The text stored for a delivery state.
pub open spec fn delivery_state_text(value: DeliveryState) -> Seq<char> {
    match value {
        DeliveryState::Persisted => "persisted"@,
        DeliveryState::Encrypted => "encrypted"@,
        DeliveryState::Queued => "queued"@,
        DeliveryState::RoutePlanned => "route_planned"@,
        DeliveryState::InFlight => "in_flight"@,
        DeliveryState::Acknowledged => "acknowledged"@,
        DeliveryState::Delivered => "delivered"@,
        DeliveryState::Read => "read"@,
        DeliveryState::Failed => "failed"@,
        DeliveryState::Expired => "expired"@,
        DeliveryState::Created => "created"@,
    }
}

/// The delivery state that a stored text names, if any.
pub open spec fn delivery_state_from_text(text: Seq<char>) -> Option<DeliveryState> {
    if text == "persisted"@ {
        Some(DeliveryState::Persisted)
    } else if text == "encrypted"@ {
        Some(DeliveryState::Encrypted)
    } else if text == "queued"@ {
        Some(DeliveryState::Queued)
    } else if text == "route_planned"@ {
        Some(DeliveryState::RoutePlanned)
    } else if text == "in_flight"@ {
        Some(DeliveryState::InFlight)
    } else if text == "acknowledged"@ {
        Some(DeliveryState::Acknowledged)
    } else if text == "delivered"@ {
        Some(DeliveryState::Delivered)
    } else if text == "read"@ {
        Some(DeliveryState::Read)
    } else if text == "failed"@ {
        Some(DeliveryState::Failed)
    } else if text == "expired"@ {
        Some(DeliveryState::Expired)
    } else {
        None
    }
}

/// The text stored for a delivery state.
pub fn delivery_state_name(value: DeliveryState) -> (r: &'static str)
    ensures
        r@ == delivery_state_text(value),
{
    match value {
        DeliveryState::Persisted => "persisted",
        DeliveryState::Encrypted => "encrypted",
        DeliveryState::Queued => "queued",
        DeliveryState::RoutePlanned => "route_planned",
        DeliveryState::InFlight => "in_flight",
        DeliveryState::Acknowledged => "acknowledged",
        DeliveryState::Delivered => "delivered",
        DeliveryState::Read => "read",
        DeliveryState::Failed => "failed",
        DeliveryState::Expired => "expired",
        DeliveryState::Created => "created",
    }
}

/// Reads a stored delivery state; unrecognised text is corrupt.
pub fn parse_delivery_state(value: &str) -> (r: Result<DeliveryState, DurableStoreError>)
    ensures
        r == or_corrupt(delivery_state_from_text(value@)),
{
    if text_eq(value, "persisted") {
        Ok(DeliveryState::Persisted)
    } else if text_eq(value, "encrypted") {
        Ok(DeliveryState::Encrypted)
    } else if text_eq(value, "queued") {
        Ok(DeliveryState::Queued)
    } else if text_eq(value, "route_planned") {
        Ok(DeliveryState::RoutePlanned)
    } else if text_eq(value, "in_flight") {
        Ok(DeliveryState::InFlight)
    } else if text_eq(value, "acknowledged") {
        Ok(DeliveryState::Acknowledged)
    } else if text_eq(value, "delivered") {
        Ok(DeliveryState::Delivered)
    } else if text_eq(value, "read") {
        Ok(DeliveryState::Read)
    } else if text_eq(value, "failed") {
        Ok(DeliveryState::Failed)
    } else if text_eq(value, "expired") {
        Ok(DeliveryState::Expired)
    } else {
        Err(DurableStoreError::Corrupt)
    }
}

/// Every delivery state that an attempt can be stored in reads back unchanged from its text; `Created` is written as `created` but never read back.
pub proof fn lemma_delivery_state_text_round_trip(value: DeliveryState)
    requires
        value == DeliveryState::Persisted || value == DeliveryState::Encrypted || value == DeliveryState::Queued || value == DeliveryState::RoutePlanned || value == DeliveryState::InFlight || value == DeliveryState::Acknowledged || value == DeliveryState::Delivered || value == DeliveryState::Read || value == DeliveryState::Failed || value == DeliveryState::Expired,
    ensures
        delivery_state_from_text(delivery_state_text(value)) == Some(value),
{
    reveal_strlit("persisted");
    reveal_strlit("encrypted");
    reveal_strlit("queued");
    reveal_strlit("route_planned");
    reveal_strlit("in_flight");
    reveal_strlit("acknowledged");
    reveal_strlit("delivered");
    reveal_strlit("read");
    reveal_strlit("failed");
    reveal_strlit("expired");
    reveal_strlit("created");
    match value {
        DeliveryState::Persisted => {
        },
        DeliveryState::Encrypted => {
            assert("encrypted"@[0] != "persisted"@[0]);
        },
        DeliveryState::Queued => {
            assert("queued"@.len() != "persisted"@.len());
            assert("queued"@.len() != "encrypted"@.len());
        },
        DeliveryState::RoutePlanned => {
            assert("route_planned"@.len() != "persisted"@.len());
            assert("route_planned"@.len() != "encrypted"@.len());
            assert("route_planned"@.len() != "queued"@.len());
        },
        DeliveryState::InFlight => {
            assert("in_flight"@[0] != "persisted"@[0]);
            assert("in_flight"@[0] != "encrypted"@[0]);
            assert("in_flight"@.len() != "queued"@.len());
            assert("in_flight"@.len() != "route_planned"@.len());
        },
        DeliveryState::Acknowledged => {
            assert("acknowledged"@.len() != "persisted"@.len());
            assert("acknowledged"@.len() != "encrypted"@.len());
            assert("acknowledged"@.len() != "queued"@.len());
            assert("acknowledged"@.len() != "route_planned"@.len());
            assert("acknowledged"@.len() != "in_flight"@.len());
        },
        DeliveryState::Delivered => {
            assert("delivered"@[0] != "persisted"@[0]);
            assert("delivered"@[0] != "encrypted"@[0]);
            assert("delivered"@.len() != "queued"@.len());
            assert("delivered"@.len() != "route_planned"@.len());
            assert("delivered"@[0] != "in_flight"@[0]);
            assert("delivered"@.len() != "acknowledged"@.len());
        },
        DeliveryState::Read => {
            assert("read"@.len() != "persisted"@.len());
            assert("read"@.len() != "encrypted"@.len());
            assert("read"@.len() != "queued"@.len());
            assert("read"@.len() != "route_planned"@.len());
            assert("read"@.len() != "in_flight"@.len());
            assert("read"@.len() != "acknowledged"@.len());
            assert("read"@.len() != "delivered"@.len());
        },
        DeliveryState::Failed => {
            assert("failed"@.len() != "persisted"@.len());
            assert("failed"@.len() != "encrypted"@.len());
            assert("failed"@[0] != "queued"@[0]);
            assert("failed"@.len() != "route_planned"@.len());
            assert("failed"@.len() != "in_flight"@.len());
            assert("failed"@.len() != "acknowledged"@.len());
            assert("failed"@.len() != "delivered"@.len());
            assert("failed"@.len() != "read"@.len());
        },
        DeliveryState::Expired => {
            assert("expired"@.len() != "persisted"@.len());
            assert("expired"@.len() != "encrypted"@.len());
            assert("expired"@.len() != "queued"@.len());
            assert("expired"@.len() != "route_planned"@.len());
            assert("expired"@.len() != "in_flight"@.len());
            assert("expired"@.len() != "acknowledged"@.len());
            assert("expired"@.len() != "delivered"@.len());
            assert("expired"@.len() != "read"@.len());
            assert("expired"@.len() != "failed"@.len());
        },
        _ => {},
    }
}

/// Kind of evidence recorded along a delivery attempt.
#[derive(Clone, Copy, PartialEq, Eq, Debug, Structural)]
pub enum DeliveryEvidenceKind {
    CreatedLocal,
    PersistedLocal,
    AcceptedByTransport,
    ReplicatedToRelay,
    ReceivedByDevice,
    DecryptedByDevice,
    PresentedToUser,
    ReadByUser,
}

/// The text stored for a evidence kind.
pub open spec fn evidence_kind_text(value: DeliveryEvidenceKind) -> Seq<char> {
    match value {
        DeliveryEvidenceKind::CreatedLocal => "created_local"@,
        DeliveryEvidenceKind::PersistedLocal => "persisted_local"@,
        DeliveryEvidenceKind::AcceptedByTransport => "accepted_by_transport"@,
        DeliveryEvidenceKind::ReplicatedToRelay => "replicated_to_relay"@,
        DeliveryEvidenceKind::ReceivedByDevice => "received_by_device"@,
        DeliveryEvidenceKind::DecryptedByDevice => "decrypted_by_device"@,
        DeliveryEvidenceKind::PresentedToUser => "presented_to_user"@,
        DeliveryEvidenceKind::ReadByUser => "read_by_user"@,
    }
}

/// The evidence kind that a stored text names, if any.
pub open spec fn evidence_kind_from_text(text: Seq<char>) -> Option<DeliveryEvidenceKind> {
    if text == "created_local"@ {
        Some(DeliveryEvidenceKind::CreatedLocal)
    } else if text == "persisted_local"@ {
        Some(DeliveryEvidenceKind::PersistedLocal)
    } else if text == "accepted_by_transport"@ {
        Some(DeliveryEvidenceKind::AcceptedByTransport)
    } else if text == "replicated_to_relay"@ {
        Some(DeliveryEvidenceKind::ReplicatedToRelay)
    } else if text == "received_by_device"@ {
        Some(DeliveryEvidenceKind::ReceivedByDevice)
    } else if text == "decrypted_by_device"@ {
        Some(DeliveryEvidenceKind::DecryptedByDevice)
    } else if text == "presented_to_user"@ {
        Some(DeliveryEvidenceKind::PresentedToUser)
    } else if text == "read_by_user"@ {
        Some(DeliveryEvidenceKind::ReadByUser)
    } else {
        None
    }
}

/// The text stored for a evidence kind.
pub fn evidence_kind_name(value: DeliveryEvidenceKind) -> (r: &'static str)
    ensures
        r@ == evidence_kind_text(value),
{
    match value {
        DeliveryEvidenceKind::CreatedLocal => "created_local",
        DeliveryEvidenceKind::PersistedLocal => "persisted_local",
        DeliveryEvidenceKind::AcceptedByTransport => "accepted_by_transport",
        DeliveryEvidenceKind::ReplicatedToRelay => "replicated_to_relay",
        DeliveryEvidenceKind::ReceivedByDevice => "received_by_device",
        DeliveryEvidenceKind::DecryptedByDevice => "decrypted_by_device",
        DeliveryEvidenceKind::PresentedToUser => "presented_to_user",
        DeliveryEvidenceKind::ReadByUser => "read_by_user",
    }
}

/// Reads a stored evidence kind; unrecognised text is corrupt.
pub fn parse_evidence_kind(value: &str) -> (r: Result<DeliveryEvidenceKind, DurableStoreError>)
    ensures
        r == or_corrupt(evidence_kind_from_text(value@)),
{
    if text_eq(value, "created_local") {
        Ok(DeliveryEvidenceKind::CreatedLocal)
    } else if text_eq(value, "persisted_local") {
        Ok(DeliveryEvidenceKind::PersistedLocal)
    } else if text_eq(value, "accepted_by_transport") {
        Ok(DeliveryEvidenceKind::AcceptedByTransport)
    } else if text_eq(value, "replicated_to_relay") {
        Ok(DeliveryEvidenceKind::ReplicatedToRelay)
    } else if text_eq(value, "received_by_device") {
        Ok(DeliveryEvidenceKind::ReceivedByDevice)
    } else if text_eq(value, "decrypted_by_device") {
        Ok(DeliveryEvidenceKind::DecryptedByDevice)
    } else if text_eq(value, "presented_to_user") {
        Ok(DeliveryEvidenceKind::PresentedToUser)
    } else if text_eq(value, "read_by_user") {
        Ok(DeliveryEvidenceKind::ReadByUser)
    } else {
        Err(DurableStoreError::Corrupt)
    }
}

/// Every evidence kind reads back unchanged from the text stored for it.
pub proof fn lemma_evidence_kind_text_round_trip(value: DeliveryEvidenceKind)
    ensures
        evidence_kind_from_text(evidence_kind_text(value)) == Some(value),
{
    reveal_strlit("created_local");
    reveal_strlit("persisted_local");
    reveal_strlit("accepted_by_transport");
    reveal_strlit("replicated_to_relay");
    reveal_strlit("received_by_device");
    reveal_strlit("decrypted_by_device");
    reveal_strlit("presented_to_user");
    reveal_strlit("read_by_user");
    match value {
        DeliveryEvidenceKind::CreatedLocal => {
        },
        DeliveryEvidenceKind::PersistedLocal => {
            assert("persisted_local"@.len() != "created_local"@.len());
        },
        DeliveryEvidenceKind::AcceptedByTransport => {
            assert("accepted_by_transport"@.len() != "created_local"@.len());
            assert("accepted_by_transport"@.len() != "persisted_local"@.len());
        },
        DeliveryEvidenceKind::ReplicatedToRelay => {
            assert("replicated_to_relay"@.len() != "created_local"@.len());
            assert("replicated_to_relay"@.len() != "persisted_local"@.len());
            assert("replicated_to_relay"@.len() != "accepted_by_transport"@.len());
        },
        DeliveryEvidenceKind::ReceivedByDevice => {
            assert("received_by_device"@.len() != "created_local"@.len());
            assert("received_by_device"@.len() != "persisted_local"@.len());
            assert("received_by_device"@.len() != "accepted_by_transport"@.len());
            assert("received_by_device"@.len() != "replicated_to_relay"@.len());
        },
        DeliveryEvidenceKind::DecryptedByDevice => {
            assert("decrypted_by_device"@.len() != "created_local"@.len());
            assert("decrypted_by_device"@.len() != "persisted_local"@.len());
            assert("decrypted_by_device"@.len() != "accepted_by_transport"@.len());
            assert("decrypted_by_device"@[0] != "replicated_to_relay"@[0]);
            assert("decrypted_by_device"@.len() != "received_by_device"@.len());
        },
        DeliveryEvidenceKind::PresentedToUser => {
            assert("presented_to_user"@.len() != "created_local"@.len());
            assert("presented_to_user"@.len() != "persisted_local"@.len());
            assert("presented_to_user"@.len() != "accepted_by_transport"@.len());
            assert("presented_to_user"@.len() != "replicated_to_relay"@.len());
            assert("presented_to_user"@.len() != "received_by_device"@.len());
            assert("presented_to_user"@.len() != "decrypted_by_device"@.len());
        },
        DeliveryEvidenceKind::ReadByUser => {
            assert("read_by_user"@.len() != "created_local"@.len());
            assert("read_by_user"@.len() != "persisted_local"@.len());
            assert("read_by_user"@.len() != "accepted_by_transport"@.len());
            assert("read_by_user"@.len() != "replicated_to_relay"@.len());
            assert("read_by_user"@.len() != "received_by_device"@.len());
            assert("read_by_user"@.len() != "decrypted_by_device"@.len());
            assert("read_by_user"@.len() != "presented_to_user"@.len());
        },
    }
}


/// Whether moving a delivery into `state` must be backed by evidence.
pub open spec fn spec_proof_required(state: DeliveryState) -> bool {
    state == DeliveryState::Acknowledged || state == DeliveryState::Delivered || state
        == DeliveryState::Read
}

/// Whether moving a delivery into `state` must be backed by evidence.
pub fn proof_required(state: DeliveryState) -> (r: bool)
    ensures
        r == spec_proof_required(state),
{
    match state {
        DeliveryState::Acknowledged | DeliveryState::Delivered | DeliveryState::Read => true,
        _ => false,
    }
}

/// A delivery transition from the stored state: the stored attempt must exist and be
/// in the expected state, the protocol must allow the move, and acknowledgement,
/// delivery and read must come with valid evidence. `evidence` is whether evidence
/// was supplied and, if so, whether it is valid for the move. The result says
/// whether the evidence is to be appended.
pub open spec fn spec_delivery_transition(
    current: Option<DeliveryState>,
    expected_state: DeliveryState,
    next_state: DeliveryState,
    transition_allowed: bool,
    evidence: Option<bool>,
) -> Result<bool, DurableStoreError> {
    match current {
        None => Err(DurableStoreError::InvalidRecord),
        Some(state) => if state != expected_state {
            Err(DurableStoreError::Conflict)
        } else if !transition_allowed {
            Err(DurableStoreError::InvalidRecord)
        } else if spec_proof_required(next_state) && evidence is None {
            Err(DurableStoreError::InvalidRecord)
        } else if evidence == Some(false) {
            Err(DurableStoreError::InvalidRecord)
        } else {
            Ok(evidence is Some)
        },
    }
}

/// Decides a delivery state transition; the result says whether to append the evidence.
pub fn delivery_transition(
    current: Option<DeliveryState>,
    expected_state: DeliveryState,
    next_state: DeliveryState,
    transition_allowed: bool,
    evidence: Option<bool>,
) -> (r: Result<bool, DurableStoreError>)
    ensures
        r == spec_delivery_transition(
            current,
            expected_state,
            next_state,
            transition_allowed,
            evidence,
        ),
{
    match current {
        None => Err(DurableStoreError::InvalidRecord),
        Some(state) => {
            if state != expected_state {
                return Err(DurableStoreError::Conflict);
            }
            if !transition_allowed {
                return Err(DurableStoreError::InvalidRecord);
            }
            if proof_required(next_state) && evidence.is_none() {
                return Err(DurableStoreError::InvalidRecord);
            }
            match evidence {
                Some(false) => Err(DurableStoreError::InvalidRecord),
                Some(true) => Ok(true),
                None => Ok(false),
            }
        },
    }
}

/// Appending evidence to an attempt: the evidence must be bound to the attempt.
/// Evidence already stored at the same logical order (its message id and kind
/// text) is a duplicate if it names the same message and kind, a conflict if it
/// names another message, and corrupt if its kind text is unknown; new evidence
/// must follow the latest stored evidence in logical order.
pub open spec fn spec_append_evidence_step(
    binding_valid: bool,
    existing: Option<(Seq<char>, Seq<char>)>,
    message_id: Seq<char>,
    kind: DeliveryEvidenceKind,
    order_allowed: bool,
) -> Result<WriteStep, DurableStoreError> {
    if !binding_valid {
        Err(DurableStoreError::InvalidRecord)
    } else {
        match existing {
            Some((stored_message, stored_kind)) => if stored_message != message_id {
                Err(DurableStoreError::Conflict)
            } else {
                match evidence_kind_from_text(stored_kind) {
                    None => Err(DurableStoreError::Corrupt),
                    Some(k) => if k == kind {
                        Ok(WriteStep::Duplicate)
                    } else {
                        Err(DurableStoreError::Conflict)
                    },
                }
            },
            None => if !order_allowed {
                Err(DurableStoreError::Conflict)
            } else {
                Ok(WriteStep::Insert)
            },
        }
    }
}

/// Decides how to append delivery evidence naming `message_id` with `kind`.
/// `existing` is the evidence stored at the same logical order (its message id
/// and kind text); `order_allowed` whether the new order follows the latest stored one.
pub fn append_evidence_step(
    binding_valid: bool,
    existing: Option<(&str, &str)>,
    message_id: &str,
    kind: DeliveryEvidenceKind,
    order_allowed: bool,
) -> (r: Result<WriteStep, DurableStoreError>)
    ensures
        r == spec_append_evidence_step(
            binding_valid,
            match existing {
                Some((m, k)) => Some((m@, k@)),
                None => None,
            },
            message_id@,
            kind,
            order_allowed,
        ),
{
    if !binding_valid {
        return Err(DurableStoreError::InvalidRecord);
    }
    match existing {
        Some((stored_message, stored_kind)) => {
            if !text_eq(stored_message, message_id) {
                return Err(DurableStoreError::Conflict);
            }
            let stored_kind = parse_evidence_kind(stored_kind)?;
            if stored_kind == kind {
                Ok(WriteStep::Duplicate)
            } else {
                Err(DurableStoreError::Conflict)
            }
        },
        None => {
            if !order_allowed {
                Err(DurableStoreError::Conflict)
            } else {
                Ok(WriteStep::Insert)
            }
        },
    }
}

/// The logical order of the latest stored evidence, read back from its column;
/// `None` when the attempt has no evidence yet, corrupt when not eight bytes.
pub fn decode_previous_order(latest: &Option<Vec<u8>>) -> (r: Result<Option<u64>, DurableStoreError>)
    ensures
        r == match *latest {
            None => Ok::<Option<u64>, DurableStoreError>(None),
            Some(b) => match spec_decode_u64(b@) {
                Ok(v) => Ok(Some(v)),
                Err(e) => Err(e),
            },
        },
{
    match latest {
        None => Ok(None),
        Some(b) => {
            let v = decode_u64(b.as_slice())?;
            Ok(Some(v))
        },
    }
}

/// A delivery attempt of a persisted message.
#[derive(Clone, Debug)]
pub struct DeliveryAttempt {
    pub scope: TenantScope,
    pub delivery_id: String,
    pub message_id: String,
    pub state: DeliveryState,
}

/// The mathematical content of a [`DeliveryAttempt`].
pub struct AttemptView {
    pub scope: ScopeView,
    pub delivery_id: Seq<char>,
    pub message_id: Seq<char>,
    pub state: DeliveryState,
}

impl View for DeliveryAttempt {
    type V = AttemptView;

    open spec fn view(&self) -> AttemptView {
        AttemptView {
            scope: self.scope@,
            delivery_id: self.delivery_id@,
            message_id: self.message_id@,
            state: self.state,
        }
    }
}

/// Whether two delivery attempts are equal in every field.
pub fn attempt_eq(a: &DeliveryAttempt, b: &DeliveryAttempt) -> (r: bool)
    ensures
        r == (a@ == b@),
{
    scope_eq(&a.scope, &b.scope) && a.delivery_id == b.delivery_id && a.message_id
        == b.message_id && a.state == b.state
}

/// Rebuilds a stored attempt from its columns; an unknown state text is corrupt.
pub fn attempt_from_row(scope: &TenantScope, delivery_id: &str, message_id: &str, state: &str) -> (r:
    Result<DeliveryAttempt, DurableStoreError>)
    ensures
        match (r, delivery_state_from_text(state@)) {
            (Ok(a), Some(st)) => a@ == (AttemptView {
                scope: scope@,
                delivery_id: delivery_id@,
                message_id: message_id@,
                state: st,
            }),
            (Err(e), None) => e == DurableStoreError::Corrupt,
            _ => false,
        },
{
    let state = parse_delivery_state(state)?;
    Ok(
        DeliveryAttempt {
            scope: TenantScope {
                tenant_id: scope.tenant_id.clone(),
                namespace_id: clone_opt_text(&scope.namespace_id),
            },
            delivery_id: delivery_id.to_owned(),
            message_id: message_id.to_owned(),
            state,
        },
    )
}

/// What creating a delivery attempt does.
#[derive(Clone, Copy, PartialEq, Eq, Debug, Structural)]
pub enum CreateAttemptStep {
    /// Insert the attempt and append its persisted evidence.
    Insert,
    /// The identical attempt exists: append the evidence to it, which must turn out a duplicate.
    Existing,
}

/// Creating a delivery attempt: the attempt and its persisted-local evidence must be
/// valid, the message must exist in the persisted state, and an existing attempt
/// under the same id must be identical.
pub open spec fn spec_create_attempt_step(
    attempt_valid: bool,
    evidence_valid: bool,
    message_persisted: bool,
    existing: Option<AttemptView>,
    attempt: AttemptView,
) -> Result<CreateAttemptStep, DurableStoreError> {
    if !attempt_valid || !evidence_valid || !message_persisted {
        Err(DurableStoreError::InvalidRecord)
    } else {
        match existing {
            None => Ok(CreateAttemptStep::Insert),
            Some(e) => if e == attempt {
                Ok(CreateAttemptStep::Existing)
            } else {
                Err(DurableStoreError::Conflict)
            },
        }
    }
}

/// Decides how to create a delivery attempt from the protocol's verdicts on the
/// attempt and its evidence, whether the message is persisted, and the attempt
/// stored under the same id.
pub fn create_attempt_step(
    attempt_valid: bool,
    evidence_valid: bool,
    message_persisted: bool,
    existing: Option<&DeliveryAttempt>,
    attempt: &DeliveryAttempt,
) -> (r: Result<CreateAttemptStep, DurableStoreError>)
    ensures
        r == spec_create_attempt_step(
            attempt_valid,
            evidence_valid,
            message_persisted,
            match existing {
                Some(e) => Some(e@),
                None => None,
            },
            attempt@,
        ),
{
    if !attempt_valid || !evidence_valid || !message_persisted {
        return Err(DurableStoreError::InvalidRecord);
    }
    match existing {
        None => Ok(CreateAttemptStep::Insert),
        Some(e) => {
            if attempt_eq(e, attempt) {
                Ok(CreateAttemptStep::Existing)
            } else {
                Err(DurableStoreError::Conflict)
            }
        },
    }
}

/// The outcome of re-creating an existing attempt, from the outcome of appending its
/// evidence: only a duplicate of the stored evidence is a duplicate creation; new
/// evidence on an existing attempt means the creation request disagrees with it.
pub fn existing_attempt_status(evidence_status: WriteStep) -> (r: Result<
    DurableRecordStatus,
    DurableStoreError,
>)
    ensures
        evidence_status == WriteStep::Duplicate ==> r == Ok::<
            DurableRecordStatus,
            DurableStoreError,
        >(DurableRecordStatus::Duplicate),
        evidence_status == WriteStep::Insert ==> r == Err::<
            DurableRecordStatus,
            DurableStoreError,
        >(DurableStoreError::Conflict),
{
    match evidence_status {
        WriteStep::Duplicate => Ok(DurableRecordStatus::Duplicate),
        WriteStep::Insert => Err(DurableStoreError::Conflict),
    }
}

/// The check of an attempt's stored evidence chain: every row must be bound to the
/// attempt, and the chain must be non-empty and start with persisted-local evidence.
pub open spec fn spec_evidence_chain_valid(kinds: Seq<DeliveryEvidenceKind>, bindings_valid: bool) -> bool {
    bindings_valid && kinds.len() > 0 && kinds[0] == DeliveryEvidenceKind::PersistedLocal
}

/// Checks an attempt's stored evidence chain, in logical order; anything else is corrupt.
pub fn verify_evidence_chain(kinds: &Vec<DeliveryEvidenceKind>, bindings_valid: bool) -> (r: Result<
    (),
    DurableStoreError,
>)
    ensures
        spec_evidence_chain_valid(kinds@, bindings_valid) ==> r == Ok::<(), DurableStoreError>(()),
        !spec_evidence_chain_valid(kinds@, bindings_valid) ==> r == Err::<(), DurableStoreError>(
            DurableStoreError::Corrupt,
        ),
{
    if !bindings_valid || kinds.len() == 0 || kinds[0] != DeliveryEvidenceKind::PersistedLocal {
        return Err(DurableStoreError::Corrupt);
    }
    Ok(())
}

/// Checks the outcome of a guarded single-row update: exactly one row must change,
/// otherwise a concurrent writer got there first.
pub fn check_guarded_update(changed: usize) -> (r: Result<(), DurableStoreError>)
    ensures
        changed == 1 ==> r == Ok::<(), DurableStoreError>(()),
        changed != 1 ==> r == Err::<(), DurableStoreError>(DurableStoreError::Conflict),
{
    if changed == 1 {
        Ok(())
    } else {
        Err(DurableStoreError::Conflict)
    }
}

/// Evidence is append-only and idempotent: once evidence is stored at a logical
/// order, appending it again is a duplicate whatever the order check now says,
/// and evidence of another message at that order is a conflict.
pub proof fn lemma_evidence_retry_is_duplicate(
    message_id: Seq<char>,
    kind: DeliveryEvidenceKind,
    other_message: Seq<char>,
    order_allowed: bool,
)
    ensures
        spec_append_evidence_step(
            true,
            Some((message_id, evidence_kind_text(kind))),
            message_id,
            kind,
            order_allowed,
        ) == Ok::<WriteStep, DurableStoreError>(WriteStep::Duplicate),
        other_message != message_id ==> spec_append_evidence_step(
            true,
            Some((message_id, evidence_kind_text(kind))),
            other_message,
            kind,
            order_allowed,
        ) == Err::<WriteStep, DurableStoreError>(DurableStoreError::Conflict),
{
    lemma_evidence_kind_text_round_trip(kind);
}

/// A move the protocol forbids is never applied: whatever the stored state, the
/// expected state, the next state and the evidence, the transition is refused; it is
/// refused as an invalid record unless the attempt has moved on from the expected
/// state, which is a conflict.
pub proof fn lemma_forbidden_transition_refused(
    current: Option<DeliveryState>,
    expected_state: DeliveryState,
    next_state: DeliveryState,
    evidence: Option<bool>,
)
    ensures
        spec_delivery_transition(current, expected_state, next_state, false, evidence) is Err,
        (current matches Some(state) && state != expected_state) ==> spec_delivery_transition(
            current,
            expected_state,
            next_state,
            false,
            evidence,
        ) == Err::<bool, DurableStoreError>(DurableStoreError::Conflict),
        !(current matches Some(state) && state != expected_state) ==> spec_delivery_transition(
            current,
            expected_state,
            next_state,
            false,
            evidence,
        ) == Err::<bool, DurableStoreError>(DurableStoreError::InvalidRecord),
{
}

/// A transition is applied only from the expected stored state, only when the
/// protocol allows the move, and only with valid evidence where the next state needs
/// proof; the evidence is appended exactly when it was supplied.
pub proof fn lemma_applied_transition_is_allowed(
    current: Option<DeliveryState>,
    expected_state: DeliveryState,
    next_state: DeliveryState,
    transition_allowed: bool,
    evidence: Option<bool>,
)
    ensures
        spec_delivery_transition(current, expected_state, next_state, transition_allowed, evidence) matches Ok(
            append,
        ) ==> current == Some(expected_state) && transition_allowed && evidence != Some(false) && (
        spec_proof_required(next_state) ==> evidence == Some(true)) && append == (evidence is Some),
{
}

} // verus!
