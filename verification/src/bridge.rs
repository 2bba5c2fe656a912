use vstd::prelude::*;
use crate::error::{DurableStoreError, or_corrupt};
use crate::text::{bytes_eq, text_eq};
use crate::record::{WriteStep, spec_write_once_step, write_once_step};
use crate::codec::{decode_u64, spec_decode_u64, version, ProtocolVersion};
use crate::command::{extensions_eq, extensions_view, ExtensionView, ProtocolExtension};
use crate::journal::clone_opt_text;
use crate::scope::{scope_eq, ScopeView, TenantScope};

verus! {

/// State of a bridge provider registration.
#[derive(Clone, Copy, PartialEq, Eq, Debug, Structural)]
pub enum BridgeRegistrationState {
    Active,
    Disabled,
    Revoked,
}

/// The text stored for a registration state.
pub open spec fn registration_state_text(value: BridgeRegistrationState) -> Seq<char> {
    match value {
        BridgeRegistrationState::Active => "active"@,
        BridgeRegistrationState::Disabled => "disabled"@,
        BridgeRegistrationState::Revoked => "revoked"@,
    }
}

/// The registration state that a stored text names, if any.
pub open spec fn registration_state_from_text(text: Seq<char>) -> Option<BridgeRegistrationState> {
    if text == "active"@ {
        Some(BridgeRegistrationState::Active)
    } else if text == "disabled"@ {
        Some(BridgeRegistrationState::Disabled)
    } else if text == "revoked"@ {
        Some(BridgeRegistrationState::Revoked)
    } else {
        None
    }
}

/// The text stored for a registration state.
pub fn encode_registration_state(value: BridgeRegistrationState) -> (r: &'static str)
    ensures
        r@ == registration_state_text(value),
{
    match value {
        BridgeRegistrationState::Active => "active",
        BridgeRegistrationState::Disabled => "disabled",
        BridgeRegistrationState::Revoked => "revoked",
    }
}

/// Reads a stored registration state; unrecognised text is corrupt.
pub fn decode_registration_state(value: &str) -> (r: Result<BridgeRegistrationState, DurableStoreError>)
    ensures
        r == or_corrupt(registration_state_from_text(value@)),
{
    if text_eq(value, "active") {
        Ok(BridgeRegistrationState::Active)
    } else if text_eq(value, "disabled") {
        Ok(BridgeRegistrationState::Disabled)
    } else if text_eq(value, "revoked") {
        Ok(BridgeRegistrationState::Revoked)
    } else {
        Err(DurableStoreError::Corrupt)
    }
}

/// Every registration state reads back unchanged from the text stored for it.
pub proof fn lemma_registration_state_text_round_trip(value: BridgeRegistrationState)
    ensures
        registration_state_from_text(registration_state_text(value)) == Some(value),
{
    reveal_strlit("active");
    reveal_strlit("disabled");
    reveal_strlit("revoked");
    match value {
        BridgeRegistrationState::Active => {
        },
        BridgeRegistrationState::Disabled => {
            assert("disabled"@.len() != "active"@.len());
        },
        BridgeRegistrationState::Revoked => {
            assert("revoked"@.len() != "active"@.len());
            assert("revoked"@.len() != "disabled"@.len());
        },
    }
}

/// State of a provider action started through a bridge.
#[derive(Clone, Copy, PartialEq, Eq, Debug, Structural)]
pub enum BridgeActionState {
    Prepared,
    InFlight,
    Accepted,
    FailedNotAccepted,
    AcceptanceUnknown,
}

/// The text stored for a action state.
pub open spec fn action_state_text(value: BridgeActionState) -> Seq<char> {
    match value {
        BridgeActionState::Prepared => "prepared"@,
        BridgeActionState::InFlight => "in_flight"@,
        BridgeActionState::Accepted => "accepted"@,
        BridgeActionState::FailedNotAccepted => "failed_not_accepted"@,
        BridgeActionState::AcceptanceUnknown => "acceptance_unknown"@,
    }
}

/// The action state that a stored text names, if any.
pub open spec fn action_state_from_text(text: Seq<char>) -> Option<BridgeActionState> {
    if text == "prepared"@ {
        Some(BridgeActionState::Prepared)
    } else if text == "in_flight"@ {
        Some(BridgeActionState::InFlight)
    } else if text == "accepted"@ {
        Some(BridgeActionState::Accepted)
    } else if text == "failed_not_accepted"@ {
        Some(BridgeActionState::FailedNotAccepted)
    } else if text == "acceptance_unknown"@ {
        Some(BridgeActionState::AcceptanceUnknown)
    } else {
        None
    }
}

/// The text stored for a action state.
pub fn encode_action_state(value: BridgeActionState) -> (r: &'static str)
    ensures
        r@ == action_state_text(value),
{
    match value {
        BridgeActionState::Prepared => "prepared",
        BridgeActionState::InFlight => "in_flight",
        BridgeActionState::Accepted => "accepted",
        BridgeActionState::FailedNotAccepted => "failed_not_accepted",
        BridgeActionState::AcceptanceUnknown => "acceptance_unknown",
    }
}

/// Reads a stored action state; unrecognised text is corrupt.
pub fn decode_action_state(value: &str) -> (r: Result<BridgeActionState, DurableStoreError>)
    ensures
        r == or_corrupt(action_state_from_text(value@)),
{
    if text_eq(value, "prepared") {
        Ok(BridgeActionState::Prepared)
    } else if text_eq(value, "in_flight") {
        Ok(BridgeActionState::InFlight)
    } else if text_eq(value, "accepted") {
        Ok(BridgeActionState::Accepted)
    } else if text_eq(value, "failed_not_accepted") {
        Ok(BridgeActionState::FailedNotAccepted)
    } else if text_eq(value, "acceptance_unknown") {
        Ok(BridgeActionState::AcceptanceUnknown)
    } else {
        Err(DurableStoreError::Corrupt)
    }
}

/// Every action state reads back unchanged from the text stored for it.
pub proof fn lemma_action_state_text_round_trip(value: BridgeActionState)
    ensures
        action_state_from_text(action_state_text(value)) == Some(value),
{
    reveal_strlit("prepared");
    reveal_strlit("in_flight");
    reveal_strlit("accepted");
    reveal_strlit("failed_not_accepted");
    reveal_strlit("acceptance_unknown");
    match value {
        BridgeActionState::Prepared => {
        },
        BridgeActionState::InFlight => {
            assert("in_flight"@.len() != "prepared"@.len());
        },
        BridgeActionState::Accepted => {
            assert("accepted"@[0] != "prepared"@[0]);
            assert("accepted"@.len() != "in_flight"@.len());
        },
        BridgeActionState::FailedNotAccepted => {
            assert("failed_not_accepted"@.len() != "prepared"@.len());
            assert("failed_not_accepted"@.len() != "in_flight"@.len());
            assert("failed_not_accepted"@.len() != "accepted"@.len());
        },
        BridgeActionState::AcceptanceUnknown => {
            assert("acceptance_unknown"@.len() != "prepared"@.len());
            assert("acceptance_unknown"@.len() != "in_flight"@.len());
            assert("acceptance_unknown"@.len() != "accepted"@.len());
            assert("acceptance_unknown"@.len() != "failed_not_accepted"@.len());
        },
    }
}

/// Why a provider accepted an action in a degraded form.
#[derive(Clone, Copy, PartialEq, Eq, Debug, Structural)]
pub enum BridgeDegradationReason {
    UnsupportedCapability,
    PolicyRestricted,
    ProviderLimited,
}

/// The text stored for a degradation reason.
pub open spec fn degradation_reason_text(value: BridgeDegradationReason) -> Seq<char> {
    match value {
        BridgeDegradationReason::UnsupportedCapability => "unsupported_capability"@,
        BridgeDegradationReason::PolicyRestricted => "policy_restricted"@,
        BridgeDegradationReason::ProviderLimited => "provider_limited"@,
    }
}

/// The degradation reason that a stored text names, if any.
pub open spec fn degradation_reason_from_text(text: Seq<char>) -> Option<BridgeDegradationReason> {
    if text == "unsupported_capability"@ {
        Some(BridgeDegradationReason::UnsupportedCapability)
    } else if text == "policy_restricted"@ {
        Some(BridgeDegradationReason::PolicyRestricted)
    } else if text == "provider_limited"@ {
        Some(BridgeDegradationReason::ProviderLimited)
    } else {
        None
    }
}

/// The text stored for a degradation reason.
pub fn encode_degradation_reason(value: BridgeDegradationReason) -> (r: &'static str)
    ensures
        r@ == degradation_reason_text(value),
{
    match value {
        BridgeDegradationReason::UnsupportedCapability => "unsupported_capability",
        BridgeDegradationReason::PolicyRestricted => "policy_restricted",
        BridgeDegradationReason::ProviderLimited => "provider_limited",
    }
}

/// Reads a stored degradation reason; unrecognised text is corrupt.
pub fn decode_degradation_reason(value: &str) -> (r: Result<BridgeDegradationReason, DurableStoreError>)
    ensures
        r == or_corrupt(degradation_reason_from_text(value@)),
{
    if text_eq(value, "unsupported_capability") {
        Ok(BridgeDegradationReason::UnsupportedCapability)
    } else if text_eq(value, "policy_restricted") {
        Ok(BridgeDegradationReason::PolicyRestricted)
    } else if text_eq(value, "provider_limited") {
        Ok(BridgeDegradationReason::ProviderLimited)
    } else {
        Err(DurableStoreError::Corrupt)
    }
}

/// Every degradation reason reads back unchanged from the text stored for it.
pub proof fn lemma_degradation_reason_text_round_trip(value: BridgeDegradationReason)
    ensures
        degradation_reason_from_text(degradation_reason_text(value)) == Some(value),
{
    reveal_strlit("unsupported_capability");
    reveal_strlit("policy_restricted");
    reveal_strlit("provider_limited");
    match value {
        BridgeDegradationReason::UnsupportedCapability => {
        },
        BridgeDegradationReason::PolicyRestricted => {
            assert("policy_restricted"@.len() != "unsupported_capability"@.len());
        },
        BridgeDegradationReason::ProviderLimited => {
            assert("provider_limited"@.len() != "unsupported_capability"@.len());
            assert("provider_limited"@.len() != "policy_restricted"@.len());
        },
    }
}

/// A capability a bridge provider may offer.
#[derive(Clone, Copy, PartialEq, Eq, Debug, Structural)]
pub enum BridgeCapability {
    Text,
    Edit,
    Delete,
    Reaction,
    Files,
    Audio,
    Video,
    Group,
    Presence,
    Typing,
    Calls,
    Threads,
    Reply,
}

/// The integer stored for a capability, from 1 upwards in declaration order.
pub open spec fn capability_code(value: BridgeCapability) -> i64 {
    match value {
        BridgeCapability::Text => 1,
        BridgeCapability::Edit => 2,
        BridgeCapability::Delete => 3,
        BridgeCapability::Reaction => 4,
        BridgeCapability::Files => 5,
        BridgeCapability::Audio => 6,
        BridgeCapability::Video => 7,
        BridgeCapability::Group => 8,
        BridgeCapability::Presence => 9,
        BridgeCapability::Typing => 10,
        BridgeCapability::Calls => 11,
        BridgeCapability::Threads => 12,
        BridgeCapability::Reply => 13,
    }
}

/// The capability that a stored integer names, if any.
pub open spec fn capability_from_code(code: i64) -> Option<BridgeCapability> {
    if code == 1 {
        Some(BridgeCapability::Text)
    } else if code == 2 {
        Some(BridgeCapability::Edit)
    } else if code == 3 {
        Some(BridgeCapability::Delete)
    } else if code == 4 {
        Some(BridgeCapability::Reaction)
    } else if code == 5 {
        Some(BridgeCapability::Files)
    } else if code == 6 {
        Some(BridgeCapability::Audio)
    } else if code == 7 {
        Some(BridgeCapability::Video)
    } else if code == 8 {
        Some(BridgeCapability::Group)
    } else if code == 9 {
        Some(BridgeCapability::Presence)
    } else if code == 10 {
        Some(BridgeCapability::Typing)
    } else if code == 11 {
        Some(BridgeCapability::Calls)
    } else if code == 12 {
        Some(BridgeCapability::Threads)
    } else if code == 13 {
        Some(BridgeCapability::Reply)
    } else {
        None
    }
}

/// The integer stored for a capability.
pub fn encode_capability(value: BridgeCapability) -> (r: i64)
    ensures
        r == capability_code(value),
{
    match value {
        BridgeCapability::Text => 1,
        BridgeCapability::Edit => 2,
        BridgeCapability::Delete => 3,
        BridgeCapability::Reaction => 4,
        BridgeCapability::Files => 5,
        BridgeCapability::Audio => 6,
        BridgeCapability::Video => 7,
        BridgeCapability::Group => 8,
        BridgeCapability::Presence => 9,
        BridgeCapability::Typing => 10,
        BridgeCapability::Calls => 11,
        BridgeCapability::Threads => 12,
        BridgeCapability::Reply => 13,
    }
}

/// Reads a stored capability; an unknown integer is corrupt.
pub fn decode_capability(value: i64) -> (r: Result<BridgeCapability, DurableStoreError>)
    ensures
        r == or_corrupt(capability_from_code(value)),
{
    if value == 1 {
        Ok(BridgeCapability::Text)
    } else if value == 2 {
        Ok(BridgeCapability::Edit)
    } else if value == 3 {
        Ok(BridgeCapability::Delete)
    } else if value == 4 {
        Ok(BridgeCapability::Reaction)
    } else if value == 5 {
        Ok(BridgeCapability::Files)
    } else if value == 6 {
        Ok(BridgeCapability::Audio)
    } else if value == 7 {
        Ok(BridgeCapability::Video)
    } else if value == 8 {
        Ok(BridgeCapability::Group)
    } else if value == 9 {
        Ok(BridgeCapability::Presence)
    } else if value == 10 {
        Ok(BridgeCapability::Typing)
    } else if value == 11 {
        Ok(BridgeCapability::Calls)
    } else if value == 12 {
        Ok(BridgeCapability::Threads)
    } else if value == 13 {
        Ok(BridgeCapability::Reply)
    } else {
        Err(DurableStoreError::Corrupt)
    }
}

/// Every capability reads back unchanged from the integer stored for it.
pub proof fn lemma_capability_code_round_trip(value: BridgeCapability)
    ensures
        capability_from_code(capability_code(value)) == Some(value),
{
}

/// A kind of data a bridge provider may receive.
#[derive(Clone, Copy, PartialEq, Eq, Debug, Structural)]
pub enum BridgeDataPermission {
    MessageContent,
    AttachmentReferences,
    ExternalIdentityReferences,
    InboundEvents,
}

/// The integer stored for a data permission, from 1 upwards in declaration order.
pub open spec fn data_permission_code(value: BridgeDataPermission) -> i64 {
    match value {
        BridgeDataPermission::MessageContent => 1,
        BridgeDataPermission::AttachmentReferences => 2,
        BridgeDataPermission::ExternalIdentityReferences => 3,
        BridgeDataPermission::InboundEvents => 4,
    }
}

/// The data permission that a stored integer names, if any.
pub open spec fn data_permission_from_code(code: i64) -> Option<BridgeDataPermission> {
    if code == 1 {
        Some(BridgeDataPermission::MessageContent)
    } else if code == 2 {
        Some(BridgeDataPermission::AttachmentReferences)
    } else if code == 3 {
        Some(BridgeDataPermission::ExternalIdentityReferences)
    } else if code == 4 {
        Some(BridgeDataPermission::InboundEvents)
    } else {
        None
    }
}

/// The integer stored for a data permission.
pub fn encode_permission(value: BridgeDataPermission) -> (r: i64)
    ensures
        r == data_permission_code(value),
{
    match value {
        BridgeDataPermission::MessageContent => 1,
        BridgeDataPermission::AttachmentReferences => 2,
        BridgeDataPermission::ExternalIdentityReferences => 3,
        BridgeDataPermission::InboundEvents => 4,
    }
}

/// Reads a stored data permission; an unknown integer is corrupt.
pub fn decode_permission(value: i64) -> (r: Result<BridgeDataPermission, DurableStoreError>)
    ensures
        r == or_corrupt(data_permission_from_code(value)),
{
    if value == 1 {
        Ok(BridgeDataPermission::MessageContent)
    } else if value == 2 {
        Ok(BridgeDataPermission::AttachmentReferences)
    } else if value == 3 {
        Ok(BridgeDataPermission::ExternalIdentityReferences)
    } else if value == 4 {
        Ok(BridgeDataPermission::InboundEvents)
    } else {
        Err(DurableStoreError::Corrupt)
    }
}

/// Every data permission reads back unchanged from the integer stored for it.
pub proof fn lemma_data_permission_code_round_trip(value: BridgeDataPermission)
    ensures
        data_permission_from_code(data_permission_code(value)) == Some(value),
{
}

/// How a provider accepted an action in a degraded form.
#[derive(Clone, Copy, PartialEq, Eq, Debug, Structural)]
pub struct BridgeDegradation {
    pub requested: BridgeCapability,
    pub fallback: Option<BridgeCapability>,
    pub reason: BridgeDegradationReason,
}

/// The provider's acceptance of an action: the provider's message id, and the
/// degradation applied, if any.
#[derive(Clone, Debug)]
pub struct BridgeProviderAcceptance {
    pub external_message_id: Option<Vec<u8>>,
    pub degradation: Option<BridgeDegradation>,
}

/// The mathematical content of a [`BridgeProviderAcceptance`].
pub struct AcceptanceView {
    pub external_message_id: Option<Seq<u8>>,
    pub degradation: Option<BridgeDegradation>,
}

impl View for BridgeProviderAcceptance {
    type V = AcceptanceView;

    open spec fn view(&self) -> AcceptanceView {
        AcceptanceView {
            external_message_id: match self.external_message_id {
                Some(v) => Some(v@),
                None => None,
            },
            degradation: self.degradation,
        }
    }
}

/// The view of an optional acceptance.
pub open spec fn opt_acceptance_view(value: Option<BridgeProviderAcceptance>) -> Option<
    AcceptanceView,
> {
    match value {
        Some(a) => Some(a@),
        None => None,
    }
}

/// The nullable acceptance columns of a stored bridge action.
pub struct BridgeAcceptanceColumns {
    pub external_message_id: Option<Vec<u8>>,
    pub degradation_requested: Option<i64>,
    pub degradation_fallback: Option<i64>,
    pub degradation_reason: Option<&'static str>,
}

/// The mathematical content of [`BridgeAcceptanceColumns`].
pub struct AcceptanceColumnsView {
    pub external_message_id: Option<Seq<u8>>,
    pub degradation_requested: Option<i64>,
    pub degradation_fallback: Option<i64>,
    pub degradation_reason: Option<Seq<char>>,
}

impl View for BridgeAcceptanceColumns {
    type V = AcceptanceColumnsView;

    open spec fn view(&self) -> AcceptanceColumnsView {
        AcceptanceColumnsView {
            external_message_id: match self.external_message_id {
                Some(v) => Some(v@),
                None => None,
            },
            degradation_requested: self.degradation_requested,
            degradation_fallback: self.degradation_fallback,
            degradation_reason: match self.degradation_reason {
                Some(t) => Some(t@),
                None => None,
            },
        }
    }
}

/// The stored capability of an optional fallback.
pub open spec fn opt_capability_code(value: Option<BridgeCapability>) -> Option<i64> {
    match value {
        Some(c) => Some(capability_code(c)),
        None => None,
    }
}

/// The columns stored for an optional acceptance: all null for none.
pub open spec fn spec_acceptance_columns(acceptance: Option<AcceptanceView>) -> AcceptanceColumnsView {
    match acceptance {
        None => AcceptanceColumnsView {
            external_message_id: None,
            degradation_requested: None,
            degradation_fallback: None,
            degradation_reason: None,
        },
        Some(a) => match a.degradation {
            None => AcceptanceColumnsView {
                external_message_id: a.external_message_id,
                degradation_requested: None,
                degradation_fallback: None,
                degradation_reason: None,
            },
            Some(d) => AcceptanceColumnsView {
                external_message_id: a.external_message_id,
                degradation_requested: Some(capability_code(d.requested)),
                degradation_fallback: opt_capability_code(d.fallback),
                degradation_reason: Some(degradation_reason_text(d.reason)),
            },
        },
    }
}

/// The degradation read back from its three stored columns: all null, or a
/// requested capability and a reason with an optional fallback.
pub open spec fn spec_decode_degradation(
    requested: Option<i64>,
    fallback: Option<i64>,
    reason: Option<Seq<char>>,
) -> Result<Option<BridgeDegradation>, DurableStoreError> {
    match (requested, fallback, reason) {
        (None, None, None) => Ok(None),
        (Some(r), f, Some(t)) => match (capability_from_code(r), degradation_reason_from_text(t)) {
            (Some(rc), Some(rs)) => match f {
                None => Ok(Some(BridgeDegradation { requested: rc, fallback: None, reason: rs })),
                Some(fc) => match capability_from_code(fc) {
                    Some(fcap) => Ok(
                        Some(BridgeDegradation { requested: rc, fallback: Some(fcap), reason: rs }),
                    ),
                    None => Err(DurableStoreError::Corrupt),
                },
            },
            _ => Err(DurableStoreError::Corrupt),
        },
        _ => Err(DurableStoreError::Corrupt),
    }
}

/// The acceptance read back from the stored columns of an action in `state`:
/// only an accepted action carries acceptance columns.
pub open spec fn spec_decode_acceptance(state: BridgeActionState, columns: AcceptanceColumnsView) -> Result<
    Option<AcceptanceView>,
    DurableStoreError,
> {
    if state != BridgeActionState::Accepted {
        if columns.external_message_id is Some || columns.degradation_requested is Some
            || columns.degradation_fallback is Some || columns.degradation_reason is Some {
            Err(DurableStoreError::Corrupt)
        } else {
            Ok(None)
        }
    } else {
        match spec_decode_degradation(
            columns.degradation_requested,
            columns.degradation_fallback,
            columns.degradation_reason,
        ) {
            Ok(d) => Ok(
                Some(AcceptanceView { external_message_id: columns.external_message_id, degradation: d }),
            ),
            Err(e) => Err(e),
        }
    }
}

/// Copies an optional byte string.
fn clone_opt_bytes(value: &Option<Vec<u8>>) -> (r: Option<Vec<u8>>)
    ensures
        match (r, *value) {
            (Some(a), Some(b)) => a@ == b@,
            (None, None) => true,
            _ => false,
        },
{
    match value {
        Some(v) => {
            let mut out: Vec<u8> = Vec::new();
            let mut i: usize = 0;
            while i < v.len()
                invariant
                    i <= v@.len(),
                    out@ == v@.subrange(0, i as int),
                decreases v@.len() - i,
            {
                out.push(v[i]);
                i = i + 1;
                assert(out@ =~= v@.subrange(0, i as int));
            }
            assert(out@ =~= v@);
            Some(out)
        },
        None => None,
    }
}

/// The columns stored for an optional provider acceptance.
pub fn encode_acceptance_columns(acceptance: Option<&BridgeProviderAcceptance>) -> (r:
    BridgeAcceptanceColumns)
    ensures
        r@ == spec_acceptance_columns(
            match acceptance {
                Some(a) => Some(a@),
                None => None,
            },
        ),
{
    match acceptance {
        None => BridgeAcceptanceColumns {
            external_message_id: None,
            degradation_requested: None,
            degradation_fallback: None,
            degradation_reason: None,
        },
        Some(a) => {
            let external_message_id = clone_opt_bytes(&a.external_message_id);
            match a.degradation {
                None => BridgeAcceptanceColumns {
                    external_message_id,
                    degradation_requested: None,
                    degradation_fallback: None,
                    degradation_reason: None,
                },
                Some(d) => BridgeAcceptanceColumns {
                    external_message_id,
                    degradation_requested: Some(encode_capability(d.requested)),
                    degradation_fallback: match d.fallback {
                        Some(f) => Some(encode_capability(f)),
                        None => None,
                    },
                    degradation_reason: Some(encode_degradation_reason(d.reason)),
                },
            }
        },
    }
}

/// Reads the acceptance of an action in `state` back from its stored columns;
/// columns that do not fit the state are corrupt.
pub fn decode_acceptance_columns(
    state: BridgeActionState,
    external_message_id: Option<Vec<u8>>,
    requested: Option<i64>,
    fallback: Option<i64>,
    reason: Option<&str>,
) -> (r: Result<Option<BridgeProviderAcceptance>, DurableStoreError>)
    ensures
        match (
            r,
            spec_decode_acceptance(
                state,
                AcceptanceColumnsView {
                    external_message_id: match external_message_id {
                        Some(v) => Some(v@),
                        None => None,
                    },
                    degradation_requested: requested,
                    degradation_fallback: fallback,
                    degradation_reason: match reason {
                        Some(t) => Some(t@),
                        None => None,
                    },
                },
            ),
        ) {
            (Ok(a), Ok(v)) => opt_acceptance_view(a) == v,
            (Err(e), Err(f)) => e == f,
            _ => false,
        },
{
    if state != BridgeActionState::Accepted {
        if external_message_id.is_some() || requested.is_some() || fallback.is_some()
            || reason.is_some() {
            return Err(DurableStoreError::Corrupt);
        }
        return Ok(None);
    }
    let degradation = match (requested, fallback, reason) {
        (None, None, None) => None,
        (Some(requested), fallback, Some(reason)) => {
            let requested = decode_capability(requested)?;
            let reason = decode_degradation_reason(reason)?;
            let fallback = match fallback {
                Some(f) => Some(decode_capability(f)?),
                None => None,
            };
            Some(BridgeDegradation { requested, fallback, reason })
        },
        _ => {
            return Err(DurableStoreError::Corrupt);
        },
    };
    Ok(Some(BridgeProviderAcceptance { external_message_id, degradation }))
}

/// The acceptance of an accepted action, and the absence of one for any other
/// state, read back unchanged from the columns stored for it.
pub proof fn lemma_acceptance_columns_round_trip(
    state: BridgeActionState,
    acceptance: Option<AcceptanceView>,
)
    requires
        (state == BridgeActionState::Accepted) == (acceptance is Some),
    ensures
        spec_decode_acceptance(state, spec_acceptance_columns(acceptance)) == Ok::<
            Option<AcceptanceView>,
            DurableStoreError,
        >(acceptance),
{
    if let Some(a) = acceptance {
        if let Some(d) = a.degradation {
            lemma_capability_code_round_trip(d.requested);
            lemma_degradation_reason_text_round_trip(d.reason);
            if let Some(f) = d.fallback {
                lemma_capability_code_round_trip(f);
            }
        }
    }
}

/// What a compare-and-swap transition of a generation-stamped record does.
#[derive(Clone, Copy, PartialEq, Eq, Debug, Structural)]
pub enum TransitionStep {
    /// The requested transition was already applied: report a duplicate.
    Duplicate,
    /// Apply the transition and stamp the record with this generation.
    Apply(u64),
}

/// `generation + 1`, saturating at the largest generation.
pub open spec fn saturating_next(generation: u64) -> u64 {
    if generation == u64::MAX {
        u64::MAX
    } else {
        (generation + 1) as u64
    }
}

/// The transition of a bridge registration from `(current_generation, current_state)`
/// to `next_state`, requested against `expected_generation`. A retry of an applied
/// transition is a duplicate; any other stale request conflicts.
pub open spec fn spec_registration_transition(
    current_generation: u64,
    current_state: BridgeRegistrationState,
    expected_generation: u64,
    next_state: BridgeRegistrationState,
    transition_allowed: bool,
) -> Result<TransitionStep, DurableStoreError> {
    if current_generation != expected_generation {
        if current_generation == saturating_next(expected_generation) && current_state
            == next_state {
            Ok(TransitionStep::Duplicate)
        } else {
            Err(DurableStoreError::Conflict)
        }
    } else if !transition_allowed {
        Err(DurableStoreError::InvalidRecord)
    } else if expected_generation == u64::MAX {
        Err(DurableStoreError::Full)
    } else {
        Ok(TransitionStep::Apply((expected_generation + 1) as u64))
    }
}

/// Decides a state transition of the stored registration; an unknown
/// registration is an invalid request. `transition_allowed` says whether the
/// protocol permits moving from the current state to `next_state`.
pub fn registration_transition(
    current: Option<&BridgeRegistration>,
    expected_generation: u64,
    next_state: BridgeRegistrationState,
    transition_allowed: bool,
) -> (r: Result<TransitionStep, DurableStoreError>)
    ensures
        current is None ==> r == Err::<TransitionStep, DurableStoreError>(
            DurableStoreError::InvalidRecord,
        ),
        current matches Some(c) ==> r == spec_registration_transition(
            c.generation,
            c.state,
            expected_generation,
            next_state,
            transition_allowed,
        ),
{
    let current = match current {
        Some(c) => c,
        None => return Err(DurableStoreError::InvalidRecord),
    };
    if current.generation != expected_generation {
        let retried = if expected_generation == u64::MAX {
            u64::MAX
        } else {
            expected_generation + 1
        };
        if current.generation == retried && current.state == next_state {
            return Ok(TransitionStep::Duplicate);
        }
        return Err(DurableStoreError::Conflict);
    }
    if !transition_allowed {
        return Err(DurableStoreError::InvalidRecord);
    }
    if expected_generation == u64::MAX {
        return Err(DurableStoreError::Full);
    }
    Ok(TransitionStep::Apply(expected_generation + 1))
}

/// A registration transition that was applied is reported as a duplicate when
/// retried against the record it produced.
pub proof fn lemma_registration_transition_retry_is_duplicate(
    current_generation: u64,
    current_state: BridgeRegistrationState,
    expected_generation: u64,
    next_state: BridgeRegistrationState,
    transition_allowed: bool,
    retry_allowed: bool,
    applied: u64,
)
    requires
        spec_registration_transition(
            current_generation,
            current_state,
            expected_generation,
            next_state,
            transition_allowed,
        ) == Ok::<TransitionStep, DurableStoreError>(TransitionStep::Apply(applied)),
    ensures
        spec_registration_transition(
            applied,
            next_state,
            expected_generation,
            next_state,
            retry_allowed,
        ) == Ok::<TransitionStep, DurableStoreError>(TransitionStep::Duplicate),
{
}

/// The check that an action may start before it is recorded: the record must be a
/// fresh prepared action, and its provider's registration must be active and
/// support the action's capability.
pub open spec fn spec_prepare_action_step(
    record_valid: bool,
    generation: u64,
    state: BridgeActionState,
    has_acceptance: bool,
    registration: Option<(BridgeRegistrationState, bool)>,
    existing_equal: Option<bool>,
) -> Result<WriteStep, DurableStoreError> {
    if !record_valid || generation != 1 || state != BridgeActionState::Prepared || has_acceptance {
        Err(DurableStoreError::InvalidRecord)
    } else {
        match registration {
            None => Err(DurableStoreError::PermissionDenied),
            Some((registration_state, supports_capability)) => if registration_state
                != BridgeRegistrationState::Active || !supports_capability {
                Err(DurableStoreError::PermissionDenied)
            } else {
                spec_write_once_step(existing_equal)
            },
        }
    }
}

/// A provider action started through a bridge: which capability it uses, the
/// fingerprint of its request, its state with the generation of its last change,
/// and the provider's acceptance once accepted.
#[derive(Clone, Debug)]
pub struct BridgeActionRecord {
    pub scope: TenantScope,
    pub action_id: String,
    pub integration_id: String,
    pub capability: BridgeCapability,
    pub fingerprint: Vec<u8>,
    pub state: BridgeActionState,
    pub generation: u64,
    pub acceptance: Option<BridgeProviderAcceptance>,
}

/// The mathematical content of a [`BridgeActionRecord`].
pub struct ActionView {
    pub scope: ScopeView,
    pub action_id: Seq<char>,
    pub integration_id: Seq<char>,
    pub capability: BridgeCapability,
    pub fingerprint: Seq<u8>,
    pub state: BridgeActionState,
    pub generation: u64,
    pub acceptance: Option<AcceptanceView>,
}

impl View for BridgeActionRecord {
    type V = ActionView;

    open spec fn view(&self) -> ActionView {
        ActionView {
            scope: self.scope@,
            action_id: self.action_id@,
            integration_id: self.integration_id@,
            capability: self.capability,
            fingerprint: self.fingerprint@,
            state: self.state,
            generation: self.generation,
            acceptance: match self.acceptance {
                Some(a) => Some(a@),
                None => None,
            },
        }
    }
}

/// Whether two bridge actions are equal in every field.
pub fn action_eq(a: &BridgeActionRecord, b: &BridgeActionRecord) -> (r: bool)
    ensures
        r == (a@ == b@),
{
    scope_eq(&a.scope, &b.scope) && a.action_id == b.action_id && a.integration_id
        == b.integration_id && a.capability == b.capability && bytes_eq(
        a.fingerprint.as_slice(),
        b.fingerprint.as_slice(),
    ) && a.state == b.state && a.generation == b.generation && acceptance_eq(
        a.acceptance.as_ref(),
        b.acceptance.as_ref(),
    )
}

/// Decides how to record a prepared bridge action. `record_valid` is the
/// protocol's verdict on the record; `registration` is the stored registration's
/// state and whether its manifest supports the action's capability; `existing`
/// is the action stored under the same id.
pub fn prepare_action_step(
    record_valid: bool,
    record: &BridgeActionRecord,
    registration: Option<(BridgeRegistrationState, bool)>,
    existing: Option<&BridgeActionRecord>,
) -> (r: Result<WriteStep, DurableStoreError>)
    ensures
        r == spec_prepare_action_step(
            record_valid,
            record.generation,
            record.state,
            record.acceptance is Some,
            registration,
            match existing {
                Some(e) => Some(e@ == record@),
                None => None,
            },
        ),
{
    if !record_valid || record.generation != 1 || record.state != BridgeActionState::Prepared
        || record.acceptance.is_some() {
        return Err(DurableStoreError::InvalidRecord);
    }
    match registration {
        None => Err(DurableStoreError::PermissionDenied),
        Some((registration_state, supports_capability)) => {
            if registration_state != BridgeRegistrationState::Active || !supports_capability {
                return Err(DurableStoreError::PermissionDenied);
            }
            match existing {
                Some(e) => write_once_step(Some(action_eq(e, record))),
                None => write_once_step(None),
            }
        },
    }
}

/// What a bridge provider declares it supports and needs.
#[derive(Clone, Debug)]
pub struct BridgeProviderManifest {
    pub provider_id: String,
    pub sdk_min: ProtocolVersion,
    pub sdk_max: ProtocolVersion,
    pub protocol_min: ProtocolVersion,
    pub protocol_max: ProtocolVersion,
    pub capabilities: Vec<BridgeCapability>,
    pub permissions: Vec<BridgeDataPermission>,
    pub extensions: Vec<ProtocolExtension>,
}

/// The registration of a bridge provider for an integration.
#[derive(Clone, Debug)]
pub struct BridgeRegistration {
    pub scope: TenantScope,
    pub integration_id: String,
    pub manifest: BridgeProviderManifest,
    pub state: BridgeRegistrationState,
    pub generation: u64,
}

/// The mathematical content of a [`BridgeRegistration`].
pub struct RegistrationView {
    pub scope: ScopeView,
    pub integration_id: Seq<char>,
    pub provider_id: Seq<char>,
    pub sdk_min: ProtocolVersion,
    pub sdk_max: ProtocolVersion,
    pub protocol_min: ProtocolVersion,
    pub protocol_max: ProtocolVersion,
    pub capabilities: Seq<BridgeCapability>,
    pub permissions: Seq<BridgeDataPermission>,
    pub extensions: Seq<ExtensionView>,
    pub state: BridgeRegistrationState,
    pub generation: u64,
}

impl View for BridgeRegistration {
    type V = RegistrationView;

    open spec fn view(&self) -> RegistrationView {
        RegistrationView {
            scope: self.scope@,
            integration_id: self.integration_id@,
            provider_id: self.manifest.provider_id@,
            sdk_min: self.manifest.sdk_min,
            sdk_max: self.manifest.sdk_max,
            protocol_min: self.manifest.protocol_min,
            protocol_max: self.manifest.protocol_max,
            capabilities: self.manifest.capabilities@,
            permissions: self.manifest.permissions@,
            extensions: extensions_view(self.manifest.extensions@),
            state: self.state,
            generation: self.generation,
        }
    }
}

/// Whether two lists of capabilities are equal, element by element.
pub fn capabilities_eq(a: &Vec<BridgeCapability>, b: &Vec<BridgeCapability>) -> (r: bool)
    ensures
        r == (a@ == b@),
{
    if a.len() != b.len() {
        return false;
    }
    let mut i: usize = 0;
    while i < a.len()
        invariant
            a@.len() == b@.len(),
            i <= a@.len(),
            forall|j: int| 0 <= j < i ==> a@[j] == b@[j],
        decreases a@.len() - i,
    {
        if a[i] != b[i] {
            return false;
        }
        i = i + 1;
    }
    assert(a@ =~= b@);
    true
}

/// Whether two lists of data permissions are equal, element by element.
pub fn permissions_eq(a: &Vec<BridgeDataPermission>, b: &Vec<BridgeDataPermission>) -> (r: bool)
    ensures
        r == (a@ == b@),
{
    if a.len() != b.len() {
        return false;
    }
    let mut i: usize = 0;
    while i < a.len()
        invariant
            a@.len() == b@.len(),
            i <= a@.len(),
            forall|j: int| 0 <= j < i ==> a@[j] == b@[j],
        decreases a@.len() - i,
    {
        if a[i] != b[i] {
            return false;
        }
        i = i + 1;
    }
    assert(a@ =~= b@);
    true
}

/// Whether two registrations are equal in every field.
pub fn registration_eq(a: &BridgeRegistration, b: &BridgeRegistration) -> (r: bool)
    ensures
        r == (a@ == b@),
{
    scope_eq(&a.scope, &b.scope) && a.integration_id == b.integration_id
        && a.manifest.provider_id == b.manifest.provider_id && a.manifest.sdk_min
        == b.manifest.sdk_min && a.manifest.sdk_max == b.manifest.sdk_max
        && a.manifest.protocol_min == b.manifest.protocol_min && a.manifest.protocol_max
        == b.manifest.protocol_max && capabilities_eq(
        &a.manifest.capabilities,
        &b.manifest.capabilities,
    ) && permissions_eq(&a.manifest.permissions, &b.manifest.permissions) && extensions_eq(
        &a.manifest.extensions,
        &b.manifest.extensions,
    ) && a.state == b.state && a.generation == b.generation
}

/// Decides how to install a bridge registration: only a fresh, active registration
/// at generation 1 may be installed, and installation is write-once per integration.
pub fn install_registration_step(existing: Option<&BridgeRegistration>, canonical: &BridgeRegistration) -> (r:
    Result<WriteStep, DurableStoreError>)
    ensures
        (canonical.generation != 1 || canonical.state != BridgeRegistrationState::Active) ==> r
            == Err::<WriteStep, DurableStoreError>(DurableStoreError::InvalidRecord),
        (canonical.generation == 1 && canonical.state == BridgeRegistrationState::Active) ==> r
            == spec_write_once_step(
            match existing {
                Some(e) => Some(e@ == canonical@),
                None => None,
            },
        ),
{
    if canonical.generation != 1 || canonical.state != BridgeRegistrationState::Active {
        return Err(DurableStoreError::InvalidRecord);
    }
    match existing {
        Some(e) => write_once_step(Some(registration_eq(e, canonical))),
        None => write_once_step(None),
    }
}

/// Decodes the stored capability codes of a registration, in order; an unknown code is corrupt.
pub fn decode_capability_list(codes: &Vec<i64>) -> (r: Result<Vec<BridgeCapability>, DurableStoreError>)
    ensures
        (forall|i: int| 0 <= i < codes@.len() ==> #[trigger] capability_from_code(codes@[i]) is Some)
            <==> r is Ok,
        r is Err ==> r == Err::<Vec<BridgeCapability>, DurableStoreError>(
            DurableStoreError::Corrupt,
        ),
        r matches Ok(v) ==> v@.len() == codes@.len() && forall|i: int|
            0 <= i < codes@.len() ==> capability_from_code(codes@[i]) == Some(#[trigger] v@[i]),
{
    let mut out: Vec<BridgeCapability> = Vec::new();
    let mut i: usize = 0;
    while i < codes.len()
        invariant
            i <= codes@.len(),
            out@.len() == i,
            forall|j: int| 0 <= j < i ==> #[trigger] capability_from_code(codes@[j]) is Some,
            forall|j: int| 0 <= j < i ==> capability_from_code(codes@[j]) == Some(#[trigger] out@[j]),
        decreases codes@.len() - i,
    {
        let c = decode_capability(codes[i])?;
        out.push(c);
        i = i + 1;
    }
    Ok(out)
}

/// Decodes the stored permission codes of a registration, in order; an unknown code is corrupt.
pub fn decode_permission_list(codes: &Vec<i64>) -> (r: Result<Vec<BridgeDataPermission>, DurableStoreError>)
    ensures
        (forall|i: int| 0 <= i < codes@.len() ==> #[trigger] data_permission_from_code(codes@[i]) is Some)
            <==> r is Ok,
        r is Err ==> r == Err::<Vec<BridgeDataPermission>, DurableStoreError>(
            DurableStoreError::Corrupt,
        ),
        r matches Ok(v) ==> v@.len() == codes@.len() && forall|i: int|
            0 <= i < codes@.len() ==> data_permission_from_code(codes@[i]) == Some(#[trigger] v@[i]),
{
    let mut out: Vec<BridgeDataPermission> = Vec::new();
    let mut i: usize = 0;
    while i < codes.len()
        invariant
            i <= codes@.len(),
            out@.len() == i,
            forall|j: int| 0 <= j < i ==> #[trigger] data_permission_from_code(codes@[j]) is Some,
            forall|j: int| 0 <= j < i ==> data_permission_from_code(codes@[j]) == Some(#[trigger] out@[j]),
        decreases codes@.len() - i,
    {
        let p = decode_permission(codes[i])?;
        out.push(p);
        i = i + 1;
    }
    Ok(out)
}

/// Whether two optional acceptances are the same.
pub fn acceptance_eq(a: Option<&BridgeProviderAcceptance>, b: Option<&BridgeProviderAcceptance>) -> (r:
    bool)
    ensures
        r == (match a {
            Some(x) => Some(x@),
            None => None,
        } == match b {
            Some(x) => Some(x@),
            None => None,
        }),
{
    match (a, b) {
        (None, None) => true,
        (Some(x), Some(y)) => {
            let same_id = match (&x.external_message_id, &y.external_message_id) {
                (None, None) => true,
                (Some(p), Some(q)) => bytes_eq(p.as_slice(), q.as_slice()),
                _ => false,
            };
            same_id && x.degradation == y.degradation
        },
        _ => false,
    }
}

/// The transition of a bridge action, requested against an expected generation and
/// state. `registration` is the provider registration's state and whether it
/// supports the action's capability; only an in-flight action may finish after its
/// registration was disabled or stopped supporting the capability.
pub open spec fn spec_action_transition(
    current_generation: u64,
    current_state: BridgeActionState,
    current_acceptance: Option<AcceptanceView>,
    expected_generation: u64,
    expected_state: BridgeActionState,
    next_state: BridgeActionState,
    desired_acceptance: Option<AcceptanceView>,
    registration: Option<(BridgeRegistrationState, bool)>,
    transition_allowed: bool,
    next_record_valid: bool,
) -> Result<TransitionStep, DurableStoreError> {
    if current_generation != expected_generation || current_state != expected_state {
        if current_generation == saturating_next(expected_generation) && current_state
            == next_state && current_acceptance == desired_acceptance {
            Ok(TransitionStep::Duplicate)
        } else {
            Err(DurableStoreError::Conflict)
        }
    } else {
        match registration {
            None => Err(DurableStoreError::PermissionDenied),
            Some((registration_state, supports_capability)) => if expected_state
                != BridgeActionState::InFlight && (registration_state
                != BridgeRegistrationState::Active || !supports_capability) {
                Err(DurableStoreError::PermissionDenied)
            } else if !transition_allowed {
                Err(DurableStoreError::InvalidRecord)
            } else if expected_generation == u64::MAX {
                Err(DurableStoreError::Full)
            } else if !next_record_valid {
                Err(DurableStoreError::InvalidRecord)
            } else {
                Ok(TransitionStep::Apply((expected_generation + 1) as u64))
            },
        }
    }
}

/// Decides a transition of the stored bridge action; an unknown action is an
/// invalid request. `transition_allowed` says whether the protocol permits the state
/// change, `next_record_valid` whether the resulting record (see
/// [`next_action_record`]) is valid.
pub fn action_transition(
    current: Option<&BridgeActionRecord>,
    expected_generation: u64,
    expected_state: BridgeActionState,
    next_state: BridgeActionState,
    desired_acceptance: Option<&BridgeProviderAcceptance>,
    registration: Option<(BridgeRegistrationState, bool)>,
    transition_allowed: bool,
    next_record_valid: bool,
) -> (r: Result<TransitionStep, DurableStoreError>)
    ensures
        current is None ==> r == Err::<TransitionStep, DurableStoreError>(
            DurableStoreError::InvalidRecord,
        ),
        current matches Some(c) ==> r == spec_action_transition(
            c.generation,
            c.state,
            c@.acceptance,
            expected_generation,
            expected_state,
            next_state,
            match desired_acceptance {
                Some(a) => Some(a@),
                None => None,
            },
            registration,
            transition_allowed,
            next_record_valid,
        ),
{
    let current = match current {
        Some(c) => c,
        None => return Err(DurableStoreError::InvalidRecord),
    };
    if current.generation != expected_generation || current.state != expected_state {
        let retried = if expected_generation == u64::MAX {
            u64::MAX
        } else {
            expected_generation + 1
        };
        if current.generation == retried && current.state == next_state && acceptance_eq(
            current.acceptance.as_ref(),
            desired_acceptance,
        ) {
            return Ok(TransitionStep::Duplicate);
        }
        return Err(DurableStoreError::Conflict);
    }
    match registration {
        None => Err(DurableStoreError::PermissionDenied),
        Some((registration_state, supports_capability)) => {
            if expected_state != BridgeActionState::InFlight && (registration_state
                != BridgeRegistrationState::Active || !supports_capability) {
                return Err(DurableStoreError::PermissionDenied);
            }
            if !transition_allowed {
                return Err(DurableStoreError::InvalidRecord);
            }
            if expected_generation == u64::MAX {
                return Err(DurableStoreError::Full);
            }
            if !next_record_valid {
                return Err(DurableStoreError::InvalidRecord);
            }
            Ok(TransitionStep::Apply(expected_generation + 1))
        },
    }
}

/// Copies an optional provider acceptance.
pub fn clone_acceptance(value: &Option<BridgeProviderAcceptance>) -> (r: Option<
    BridgeProviderAcceptance,
>)
    ensures
        match (r, *value) {
            (Some(a), Some(b)) => a@ == b@,
            (None, None) => true,
            _ => false,
        },
{
    match value {
        Some(a) => Some(
            BridgeProviderAcceptance {
                external_message_id: clone_opt_bytes(&a.external_message_id),
                degradation: a.degradation,
            },
        ),
        None => None,
    }
}

/// The action after a transition: the stored action in `next_state`, stamped
/// with `next_generation` and carrying the desired acceptance.
pub fn next_action_record(
    current: &BridgeActionRecord,
    next_state: BridgeActionState,
    next_generation: u64,
    desired_acceptance: &Option<BridgeProviderAcceptance>,
) -> (r: BridgeActionRecord)
    ensures
        r@ == (ActionView {
            state: next_state,
            generation: next_generation,
            acceptance: match *desired_acceptance {
                Some(a) => Some(a@),
                None => None,
            },
            ..current@
        }),
{
    BridgeActionRecord {
        scope: TenantScope {
            tenant_id: current.scope.tenant_id.clone(),
            namespace_id: clone_opt_text(&current.scope.namespace_id),
        },
        action_id: current.action_id.clone(),
        integration_id: current.integration_id.clone(),
        capability: current.capability,
        fingerprint: current.fingerprint.clone(),
        state: next_state,
        generation: next_generation,
        acceptance: clone_acceptance(desired_acceptance),
    }
}

/// An action transition that was applied is reported as a duplicate when retried
/// against the record it produced, whatever the registration has become since.
pub proof fn lemma_action_transition_retry_is_duplicate(
    current_generation: u64,
    current_state: BridgeActionState,
    current_acceptance: Option<AcceptanceView>,
    expected_generation: u64,
    expected_state: BridgeActionState,
    next_state: BridgeActionState,
    desired_acceptance: Option<AcceptanceView>,
    registration: Option<(BridgeRegistrationState, bool)>,
    retry_registration: Option<(BridgeRegistrationState, bool)>,
    transition_allowed: bool,
    next_record_valid: bool,
    retry_allowed: bool,
    retry_valid: bool,
    applied: u64,
)
    requires
        spec_action_transition(
            current_generation,
            current_state,
            current_acceptance,
            expected_generation,
            expected_state,
            next_state,
            desired_acceptance,
            registration,
            transition_allowed,
            next_record_valid,
        ) == Ok::<TransitionStep, DurableStoreError>(TransitionStep::Apply(applied)),
    ensures
        spec_action_transition(
            applied,
            next_state,
            desired_acceptance,
            expected_generation,
            expected_state,
            next_state,
            desired_acceptance,
            retry_registration,
            retry_allowed,
            retry_valid,
        ) == Ok::<TransitionStep, DurableStoreError>(TransitionStep::Duplicate),
{
}

/// The columns of a stored bridge action, as read.
#[derive(Clone, Debug)]
pub struct StoredActionRow {
    pub integration_id: String,
    pub capability: i64,
    pub fingerprint: Vec<u8>,
    pub state: String,
    pub external_message_id: Option<Vec<u8>>,
    pub degradation_requested: Option<i64>,
    pub degradation_fallback: Option<i64>,
    pub degradation_reason: Option<String>,
    pub generation: Vec<u8>,
}

/// The action read back from its columns: capability and state must be known,
/// the fingerprint must have its fixed length, the acceptance columns must fit the
/// state and the generation must be eight bytes.
pub open spec fn spec_decode_action(
    scope: ScopeView,
    action_id: Seq<char>,
    row: StoredActionRow,
    fingerprint_len: nat,
) -> Result<ActionView, DurableStoreError> {
    match (capability_from_code(row.capability), action_state_from_text(row.state@)) {
        (Some(capability), Some(state)) => {
            let acceptance = spec_decode_acceptance(
                state,
                AcceptanceColumnsView {
                    external_message_id: match row.external_message_id {
                        Some(v) => Some(v@),
                        None => None,
                    },
                    degradation_requested: row.degradation_requested,
                    degradation_fallback: row.degradation_fallback,
                    degradation_reason: match row.degradation_reason {
                        Some(t) => Some(t@),
                        None => None,
                    },
                },
            );
            if row.fingerprint@.len() != fingerprint_len || acceptance is Err || spec_decode_u64(
                row.generation@,
            ) is Err {
                Err(DurableStoreError::Corrupt)
            } else {
                Ok(
                    ActionView {
                        scope,
                        action_id,
                        integration_id: row.integration_id@,
                        capability,
                        fingerprint: row.fingerprint@,
                        state,
                        generation: spec_decode_u64(row.generation@)->Ok_0,
                        acceptance: acceptance->Ok_0,
                    },
                )
            }
        },
        _ => Err(DurableStoreError::Corrupt),
    }
}

/// Rebuilds a stored bridge action from its columns; anything unrecognised or
/// inconsistent is corrupt. `fingerprint_len` is the fixed length of a request
/// fingerprint.
pub fn decode_action(
    scope: &TenantScope,
    action_id: &str,
    row: StoredActionRow,
    fingerprint_len: usize,
) -> (r: Result<BridgeActionRecord, DurableStoreError>)
    ensures
        match (r, spec_decode_action(scope@, action_id@, row, fingerprint_len as nat)) {
            (Ok(a), Ok(v)) => a@ == v,
            (Err(e), Err(f)) => e == f,
            _ => false,
        },
{
    let capability = decode_capability(row.capability)?;
    let state = decode_action_state(row.state.as_str())?;
    if row.fingerprint.len() != fingerprint_len {
        return Err(DurableStoreError::Corrupt);
    }
    let reason = match &row.degradation_reason {
        Some(t) => Some(t.as_str()),
        None => None,
    };
    let acceptance = decode_acceptance_columns(
        state,
        row.external_message_id,
        row.degradation_requested,
        row.degradation_fallback,
        reason,
    )?;
    let generation = decode_u64(row.generation.as_slice())?;
    Ok(
        BridgeActionRecord {
            scope: TenantScope {
                tenant_id: scope.tenant_id.clone(),
                namespace_id: clone_opt_text(&scope.namespace_id),
            },
            action_id: action_id.to_owned(),
            integration_id: row.integration_id,
            capability,
            fingerprint: row.fingerprint,
            state,
            generation,
            acceptance,
        },
    )
}

/// The columns of a stored registration, as read, with its capability and
/// permission codes and its extension rows `(name, critical, payload)` in order.
#[derive(Debug)]
pub struct StoredRegistrationRow {
    pub provider_id: String,
    pub sdk_min: (i64, i64),
    pub sdk_max: (i64, i64),
    pub protocol_min: (i64, i64),
    pub protocol_max: (i64, i64),
    pub state: String,
    pub generation: Vec<u8>,
    pub capabilities: Vec<i64>,
    pub permissions: Vec<i64>,
    pub extensions: Vec<(String, i64, Vec<u8>)>,
}

/// A stored version pair read back; components outside `u32` are corrupt.
pub open spec fn spec_version_columns(columns: (i64, i64)) -> Option<ProtocolVersion> {
    if 0 <= columns.0 <= u32::MAX && 0 <= columns.1 <= u32::MAX {
        Some(ProtocolVersion { major: columns.0 as u32, minor: columns.1 as u32 })
    } else {
        None
    }
}

/// Whether every stored registration extension carries a `0`/`1` critical flag.
pub open spec fn registration_extensions_ok(rows: Seq<(String, i64, Vec<u8>)>) -> bool {
    forall|i: int| 0 <= i < rows.len() ==> (#[trigger] rows[i]).1 == 0 || rows[i].1 == 1
}

/// The extension stored in a registration extension row.
pub open spec fn registration_extension_of_row(row: (String, i64, Vec<u8>)) -> ExtensionView {
    ExtensionView { name: row.0@, critical: row.1 == 1, payload: row.2@ }
}

/// Whether every column of a stored registration decodes.
pub open spec fn registration_row_ok(row: StoredRegistrationRow) -> bool {
    &&& spec_version_columns(row.sdk_min) is Some
    &&& spec_version_columns(row.sdk_max) is Some
    &&& spec_version_columns(row.protocol_min) is Some
    &&& spec_version_columns(row.protocol_max) is Some
    &&& registration_state_from_text(row.state@) is Some
    &&& spec_decode_u64(row.generation@) is Ok
    &&& forall|i: int| 0 <= i < row.capabilities@.len() ==> #[trigger] capability_from_code(row.capabilities@[i]) is Some
    &&& forall|i: int| 0 <= i < row.permissions@.len() ==> #[trigger] data_permission_from_code(row.permissions@[i]) is Some
    &&& registration_extensions_ok(row.extensions@)
}

/// Rebuilds a stored registration from its columns; anything unrecognised is corrupt.
pub fn decode_registration(scope: &TenantScope, integration_id: &str, row: StoredRegistrationRow) -> (r:
    Result<BridgeRegistration, DurableStoreError>)
    ensures
        registration_row_ok(row) <==> r is Ok,
        r is Err ==> r == Err::<BridgeRegistration, DurableStoreError>(DurableStoreError::Corrupt),
        r matches Ok(reg) ==> {
            &&& reg@.scope == scope@
            &&& reg@.integration_id == integration_id@
            &&& reg@.provider_id == row.provider_id@
            &&& Some(reg@.sdk_min) == spec_version_columns(row.sdk_min)
            &&& Some(reg@.sdk_max) == spec_version_columns(row.sdk_max)
            &&& Some(reg@.protocol_min) == spec_version_columns(row.protocol_min)
            &&& Some(reg@.protocol_max) == spec_version_columns(row.protocol_max)
            &&& Some(reg@.state) == registration_state_from_text(row.state@)
            &&& Ok::<u64, DurableStoreError>(reg@.generation) == spec_decode_u64(row.generation@)
            &&& reg@.capabilities.len() == row.capabilities@.len()
            &&& (forall|i: int| 0 <= i < row.capabilities@.len() ==> capability_from_code(row.capabilities@[i]) == Some(#[trigger] reg@.capabilities[i]))
            &&& reg@.permissions.len() == row.permissions@.len()
            &&& (forall|i: int| 0 <= i < row.permissions@.len() ==> data_permission_from_code(row.permissions@[i]) == Some(#[trigger] reg@.permissions[i]))
            &&& reg@.extensions == row.extensions@.map_values(|e: (String, i64, Vec<u8>)| registration_extension_of_row(e))
        },
{
    let sdk_min = version(row.sdk_min.0, row.sdk_min.1)?;
    let sdk_max = version(row.sdk_max.0, row.sdk_max.1)?;
    let protocol_min = version(row.protocol_min.0, row.protocol_min.1)?;
    let protocol_max = version(row.protocol_max.0, row.protocol_max.1)?;
    let state = decode_registration_state(row.state.as_str())?;
    let generation = decode_u64(row.generation.as_slice())?;
    let capabilities = decode_capability_list(&row.capabilities)?;
    let permissions = decode_permission_list(&row.permissions)?;
    let mut extensions: Vec<ProtocolExtension> = Vec::new();
    let mut i: usize = 0;
    while i < row.extensions.len()
        invariant
            i <= row.extensions@.len(),
            extensions@.len() == i,
            forall|j: int| 0 <= j < i ==> (#[trigger] row.extensions@[j]).1 == 0 || row.extensions@[j].1 == 1,
            forall|j: int| 0 <= j < i ==> #[trigger] extensions@[j]@ == registration_extension_of_row(row.extensions@[j]),
        decreases row.extensions@.len() - i,
    {
        let (name, critical, payload) = &row.extensions[i];
        let critical = if *critical == 0 {
            false
        } else if *critical == 1 {
            true
        } else {
            return Err(DurableStoreError::Corrupt);
        };
        extensions.push(ProtocolExtension { name: name.clone(), critical, payload: payload.clone() });
        i = i + 1;
    }
    assert(extensions_view(extensions@) =~= row.extensions@.map_values(
        |e: (String, i64, Vec<u8>)| registration_extension_of_row(e),
    ));
    Ok(
        BridgeRegistration {
            scope: TenantScope {
                tenant_id: scope.tenant_id.clone(),
                namespace_id: clone_opt_text(&scope.namespace_id),
            },
            integration_id: integration_id.to_owned(),
            manifest: BridgeProviderManifest {
                provider_id: row.provider_id,
                sdk_min,
                sdk_max,
                protocol_min,
                protocol_max,
                capabilities,
                permissions,
                extensions,
            },
            state,
            generation,
        },
    )
}

/// A provider action is only recorded for an active registration whose manifest
/// supports the action's capability: a registration that lacks the capability, is not
/// active, or is missing refuses a fresh prepared action with permission denied,
/// whatever is stored; and any action that is recorded (or confirmed) is a fresh,
/// valid prepared action.
pub proof fn lemma_prepare_needs_supporting_active_registration(
    record_valid: bool,
    generation: u64,
    state: BridgeActionState,
    has_acceptance: bool,
    registration: Option<(BridgeRegistrationState, bool)>,
    existing_equal: Option<bool>,
)
    ensures
        spec_prepare_action_step(
            record_valid,
            generation,
            state,
            has_acceptance,
            registration,
            existing_equal,
        ) is Ok ==> registration == Some((BridgeRegistrationState::Active, true)) && record_valid
            && generation == 1 && state == BridgeActionState::Prepared && !has_acceptance,
        (record_valid && generation == 1 && state == BridgeActionState::Prepared && !has_acceptance
            && registration != Some((BridgeRegistrationState::Active, true))) ==> spec_prepare_action_step(
            record_valid,
            generation,
            state,
            has_acceptance,
            registration,
            existing_equal,
        ) == Err::<WriteStep, DurableStoreError>(DurableStoreError::PermissionDenied),
{
}

} // verus!
