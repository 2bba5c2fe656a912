use vstd::prelude::*;
use crate::device::DeviceDescriptor;
use crate::group_record::{group_eq_but_crypto, GroupRecord, GroupView};
use crate::error::{DurableRecordStatus, DurableStoreError};
use crate::journal::{opt_text, opt_text_eq};
use crate::principal::{PrincipalKind, PrincipalRef, PrincipalView};
use crate::scope::{scope_eq, TenantScope};
use crate::text::{bytes_eq, text_eq};

verus! {

/// Failure of an MLS-backed group operation.
#[derive(Clone, Copy, PartialEq, Eq, Debug, Structural)]
pub enum GroupMlsStoreError {
    /// A failure of the durable store itself.
    Durable(DurableStoreError),
    /// The group template already carries cryptographic state.
    InvalidBootstrap,
    /// The change request does not fit the group's MLS state.
    InvalidChangeMaterial,
    /// The acting device is not the device the MLS group belongs to.
    ActorDeviceMismatch,
    /// A target device does not exist, is not usable, or belongs to someone else.
    TargetDeviceMismatch,
}

/// The cryptographic state recorded on a group.
#[derive(Clone, Debug)]
pub struct GroupCryptoState {
    pub capability_id: Option<String>,
    pub epoch: u64,
    pub state_ref: Option<String>,
}

/// The mathematical content of a [`GroupCryptoState`].
pub struct CryptoStateView {
    pub capability_id: Option<Seq<char>>,
    pub epoch: u64,
    pub state_ref: Option<Seq<char>>,
}

impl View for GroupCryptoState {
    type V = CryptoStateView;

    open spec fn view(&self) -> CryptoStateView {
        CryptoStateView {
            capability_id: opt_text(self.capability_id),
            epoch: self.epoch,
            state_ref: opt_text(self.state_ref),
        }
    }
}

/// Whether two recorded cryptographic states are equal.
pub fn crypto_state_eq(a: &GroupCryptoState, b: &GroupCryptoState) -> (r: bool)
    ensures
        r == (a@ == b@),
{
    opt_text_eq(&a.capability_id, &b.capability_id) && a.epoch == b.epoch && opt_text_eq(
        &a.state_ref,
        &b.state_ref,
    )
}

/// A group template can bootstrap an MLS group only while it carries no
/// cryptographic state: no capability, epoch zero, no state reference.
pub fn check_bootstrap_template(state: &GroupCryptoState) -> (r: Result<(), GroupMlsStoreError>)
    ensures
        (state.capability_id is None && state.epoch == 0 && state.state_ref is None) ==> r is Ok,
        !(state.capability_id is None && state.epoch == 0 && state.state_ref is None) ==> r
            == Err::<(), GroupMlsStoreError>(GroupMlsStoreError::InvalidBootstrap),
{
    if state.capability_id.is_some() || state.epoch != 0 || state.state_ref.is_some() {
        return Err(GroupMlsStoreError::InvalidBootstrap);
    }
    Ok(())
}

/// How a request to create an MLS-backed group proceeds.
#[derive(Clone, Copy, PartialEq, Eq, Debug, Structural)]
pub enum CreateGroupPlan {
    /// Neither the group record nor the MLS group exists: create both.
    CreateNew,
    /// Both exist and agree with the request: confirm the stored group.
    Reconfirm,
}

/// How an MLS-backed group creation proceeds from the stored group record and the
/// current state of the MLS group, if they exist: neither existing means a new
/// group; both existing must agree, the stored group being the template with the
/// MLS group's current state adopted (else a conflict); only one of the two
/// existing means damaged state.
pub open spec fn spec_create_group_plan(
    existing: Option<GroupView>,
    template: GroupView,
    mls_state: Option<CryptoStateView>,
) -> Result<CreateGroupPlan, GroupMlsStoreError> {
    match (existing, mls_state) {
        (None, None) => Ok(CreateGroupPlan::CreateNew),
        (Some(e), Some(state)) => if e == (GroupView { crypto_state: state, ..template }) {
            Ok(CreateGroupPlan::Reconfirm)
        } else {
            Err(GroupMlsStoreError::Durable(DurableStoreError::Conflict))
        },
        _ => Err(GroupMlsStoreError::Durable(DurableStoreError::Corrupt)),
    }
}

/// Decides an MLS-backed group creation.
pub fn create_group_plan(
    existing: Option<&GroupRecord>,
    template: &GroupRecord,
    mls_state: Option<&GroupCryptoState>,
) -> (r: Result<CreateGroupPlan, GroupMlsStoreError>)
    ensures
        r == spec_create_group_plan(
            match existing {
                Some(e) => Some(e@),
                None => None,
            },
            template@,
            match mls_state {
                Some(m) => Some(m@),
                None => None,
            },
        ),
{
    match (existing, mls_state) {
        (None, None) => Ok(CreateGroupPlan::CreateNew),
        (Some(e), Some(state)) => {
            if group_eq_but_crypto(e, template) && crypto_state_eq(&e.crypto_state, state) {
                Ok(CreateGroupPlan::Reconfirm)
            } else {
                Err(GroupMlsStoreError::Durable(DurableStoreError::Conflict))
            }
        },
        _ => Err(GroupMlsStoreError::Durable(DurableStoreError::Corrupt)),
    }
}

/// A change request carries no precomputed cryptographic state and stays in the
/// actor's scope.
pub fn check_change_request(
    has_next_crypto_state: bool,
    actor_scope: &TenantScope,
    change_scope: &TenantScope,
) -> (r: Result<(), GroupMlsStoreError>)
    ensures
        (!has_next_crypto_state && actor_scope@ == change_scope@) ==> r is Ok,
        !(!has_next_crypto_state && actor_scope@ == change_scope@) ==> r == Err::<
            (),
            GroupMlsStoreError,
        >(GroupMlsStoreError::InvalidChangeMaterial),
{
    if has_next_crypto_state || !scope_eq(actor_scope, change_scope) {
        return Err(GroupMlsStoreError::InvalidChangeMaterial);
    }
    Ok(())
}

/// What the store holds for the event id of a change request.
#[derive(Clone, Copy, PartialEq, Eq, Debug, Structural)]
pub enum TransitionLookup {
    /// An MLS transition is stored for the event: check the request is its retry.
    CheckRetry,
    /// Nothing is stored for the event: apply the change as new.
    ApplyNew,
}

/// Decides how a change request proceeds: a stored MLS transition makes it a
/// possible retry; a change recorded without an MLS transition is a conflict.
pub fn transition_lookup(transition_stored: bool, change_recorded: bool) -> (r: Result<
    TransitionLookup,
    GroupMlsStoreError,
>)
    ensures
        transition_stored ==> r == Ok::<TransitionLookup, GroupMlsStoreError>(
            TransitionLookup::CheckRetry,
        ),
        !transition_stored && change_recorded ==> r == Err::<TransitionLookup, GroupMlsStoreError>(
            GroupMlsStoreError::Durable(DurableStoreError::Conflict),
        ),
        !transition_stored && !change_recorded ==> r == Ok::<
            TransitionLookup,
            GroupMlsStoreError,
        >(TransitionLookup::ApplyNew),
{
    if transition_stored {
        Ok(TransitionLookup::CheckRetry)
    } else if change_recorded {
        Err(GroupMlsStoreError::Durable(DurableStoreError::Conflict))
    } else {
        Ok(TransitionLookup::ApplyNew)
    }
}

/// The identity of a stored MLS transition: its group, acting device and
/// request fingerprint.
#[derive(Clone, Debug)]
pub struct StoredTransition {
    pub group_id: String,
    pub actor_device_id: String,
    pub request_fingerprint: Vec<u8>,
}

/// A retry must repeat the stored transition exactly: same group, same acting
/// device and same request fingerprint; anything else is a conflict.
pub fn check_stored_transition(
    stored: &StoredTransition,
    group_id: &str,
    actor_device_id: &str,
    request_fingerprint: &[u8],
) -> (r: Result<(), GroupMlsStoreError>)
    ensures
        (stored.group_id@ == group_id@ && stored.actor_device_id@ == actor_device_id@
            && stored.request_fingerprint@ == request_fingerprint@) ==> r is Ok,
        !(stored.group_id@ == group_id@ && stored.actor_device_id@ == actor_device_id@
            && stored.request_fingerprint@ == request_fingerprint@) ==> r == Err::<
            (),
            GroupMlsStoreError,
        >(GroupMlsStoreError::Durable(DurableStoreError::Conflict)),
{
    if !text_eq(stored.group_id.as_str(), group_id) || !text_eq(
        stored.actor_device_id.as_str(),
        actor_device_id,
    ) || !bytes_eq(stored.request_fingerprint.as_slice(), request_fingerprint) {
        return Err(GroupMlsStoreError::Durable(DurableStoreError::Conflict));
    }
    Ok(())
}

/// The outcome of confirming a retried change against the change record stored
/// with its transition.
pub open spec fn spec_confirm_retry(
    recorded: Option<(PrincipalView, Seq<u8>)>,
    actor: PrincipalView,
    expected_fingerprint: Option<Seq<u8>>,
) -> Result<DurableRecordStatus, GroupMlsStoreError> {
    match recorded {
        None => Err(GroupMlsStoreError::Durable(DurableStoreError::Corrupt)),
        Some((recorded_actor, recorded_fingerprint)) => if recorded_actor != actor {
            Err(GroupMlsStoreError::Durable(DurableStoreError::PermissionDenied))
        } else {
            match expected_fingerprint {
                Some(f) => if f == recorded_fingerprint {
                    Ok(DurableRecordStatus::Duplicate)
                } else {
                    Err(GroupMlsStoreError::Durable(DurableStoreError::Corrupt))
                },
                None => Err(GroupMlsStoreError::Durable(DurableStoreError::Corrupt)),
            }
        },
    }
}

/// Confirms a retried change. The stored change record must exist, must have
/// been made by the same actor (another actor is refused), and its fingerprint
/// must equal the fingerprint of the change with the stored cryptographic state
/// (`expected_fingerprint`, `None` when it cannot be computed).
pub fn confirm_retry(
    recorded: Option<(&PrincipalRef, &[u8])>,
    actor: &PrincipalRef,
    expected_fingerprint: Option<&[u8]>,
) -> (r: Result<DurableRecordStatus, GroupMlsStoreError>)
    ensures
        r == spec_confirm_retry(
            match recorded {
                Some((a, f)) => Some((a@, f@)),
                None => None,
            },
            actor@,
            match expected_fingerprint {
                Some(f) => Some(f@),
                None => None,
            },
        ),
{
    match recorded {
        None => Err(GroupMlsStoreError::Durable(DurableStoreError::Corrupt)),
        Some((recorded_actor, recorded_fingerprint)) => {
            if !(recorded_actor.kind == actor.kind && recorded_actor.principal_id
                == actor.principal_id) {
                return Err(GroupMlsStoreError::Durable(DurableStoreError::PermissionDenied));
            }
            match expected_fingerprint {
                Some(f) => {
                    if bytes_eq(f, recorded_fingerprint) {
                        Ok(DurableRecordStatus::Duplicate)
                    } else {
                        Err(GroupMlsStoreError::Durable(DurableStoreError::Corrupt))
                    }
                },
                None => Err(GroupMlsStoreError::Durable(DurableStoreError::Corrupt)),
            }
        },
    }
}

/// A change of an MLS-backed group needs the group to carry the MLS capability.
pub fn require_mls_capability(capability: &Option<String>, mls_capability: &str) -> (r: Result<
    (),
    GroupMlsStoreError,
>)
    ensures
        opt_text(*capability) == Some(mls_capability@) ==> r is Ok,
        opt_text(*capability) != Some(mls_capability@) ==> r == Err::<(), GroupMlsStoreError>(
            GroupMlsStoreError::InvalidChangeMaterial,
        ),
{
    match capability {
        Some(c) => {
            if text_eq(c.as_str(), mls_capability) {
                Ok(())
            } else {
                Err(GroupMlsStoreError::InvalidChangeMaterial)
            }
        },
        None => Err(GroupMlsStoreError::InvalidChangeMaterial),
    }
}

/// The rule that ties a device to a principal. The device must exist and, when
/// required, allow protected access. A device principal is the device itself;
/// any other principal is bound to an identity, which must own the device.
pub open spec fn spec_device_for_principal(
    device: Option<(Seq<char>, bool)>,
    require_active: bool,
    principal: PrincipalView,
    device_id: Seq<char>,
    bound_identity: Option<Seq<char>>,
) -> Result<(), GroupMlsStoreError> {
    match device {
        None => Err(GroupMlsStoreError::TargetDeviceMismatch),
        Some((identity, allows)) => if require_active && !allows {
            Err(GroupMlsStoreError::TargetDeviceMismatch)
        } else if principal.kind == PrincipalKind::Device {
            if principal.principal_id == device_id {
                Ok(())
            } else {
                Err(GroupMlsStoreError::TargetDeviceMismatch)
            }
        } else {
            match bound_identity {
                Some(b) => if b == identity {
                    Ok(())
                } else {
                    Err(GroupMlsStoreError::TargetDeviceMismatch)
                },
                None => Err(GroupMlsStoreError::TargetDeviceMismatch),
            }
        },
    }
}

/// Checks that `device_id` is a device of `principal`, given the stored device,
/// the protocol's verdict on whether it may access protected material, and the
/// identity the principal is bound to, if any.
pub fn require_device_for_principal(
    device: Option<&DeviceDescriptor>,
    allows_protected_access: bool,
    require_active: bool,
    principal: &PrincipalRef,
    device_id: &str,
    bound_identity: Option<&str>,
) -> (r: Result<(), GroupMlsStoreError>)
    ensures
        r == spec_device_for_principal(
            match device {
                Some(d) => Some((d.identity_id@, allows_protected_access)),
                None => None,
            },
            require_active,
            principal@,
            device_id@,
            match bound_identity {
                Some(b) => Some(b@),
                None => None,
            },
        ),
{
    let device = match device {
        Some(d) => d,
        None => return Err(GroupMlsStoreError::TargetDeviceMismatch),
    };
    if require_active && !allows_protected_access {
        return Err(GroupMlsStoreError::TargetDeviceMismatch);
    }
    if principal.kind == PrincipalKind::Device {
        if text_eq(principal.principal_id.as_str(), device_id) {
            return Ok(());
        }
        return Err(GroupMlsStoreError::TargetDeviceMismatch);
    }
    match bound_identity {
        Some(b) => {
            if text_eq(b, device.identity_id.as_str()) {
                Ok(())
            } else {
                Err(GroupMlsStoreError::TargetDeviceMismatch)
            }
        },
        None => Err(GroupMlsStoreError::TargetDeviceMismatch),
    }
}

/// Whether a device belongs to a principal: a target mismatch answers `false`,
/// any other failure is passed on.
pub fn device_belongs(check: Result<(), GroupMlsStoreError>) -> (r: Result<bool, GroupMlsStoreError>)
    ensures
        r == match check {
            Ok(()) => Ok(true),
            Err(GroupMlsStoreError::TargetDeviceMismatch) => Ok(false),
            Err(e) => Err(e),
        },
{
    match check {
        Ok(()) => Ok(true),
        Err(GroupMlsStoreError::TargetDeviceMismatch) => Ok(false),
        Err(e) => Err(e),
    }
}

/// The kinds of group change.
#[derive(Clone, Copy, PartialEq, Eq, Debug, Structural)]
pub enum GroupChangeKind {
    AddMember,
    RemoveMember,
    ChangeRole,
    TransferOwnership,
    SetHistoryPolicy,
    SetPublicPolicy,
    SetDeliveryPolicy,
}

/// The MLS transition a change needs.
#[derive(Clone, Copy, PartialEq, Eq, Debug, Structural)]
pub enum TransitionPlan {
    /// Add the admitted devices.
    Add,
    /// Remove every current device of the removed member.
    Remove,
    /// Rotate the group's keys.
    Rekey,
}

/// The transition rule: adding a member needs at least one admitted device;
/// removing a member or changing roles or ownership admits none; policy
/// changes carry no MLS transition at all.
pub open spec fn spec_transition_plan(kind: GroupChangeKind, admitted: nat) -> Result<
    TransitionPlan,
    GroupMlsStoreError,
> {
    match kind {
        GroupChangeKind::AddMember => if admitted == 0 {
            Err(GroupMlsStoreError::InvalidChangeMaterial)
        } else {
            Ok(TransitionPlan::Add)
        },
        GroupChangeKind::RemoveMember => if admitted != 0 {
            Err(GroupMlsStoreError::InvalidChangeMaterial)
        } else {
            Ok(TransitionPlan::Remove)
        },
        GroupChangeKind::ChangeRole | GroupChangeKind::TransferOwnership => if admitted != 0 {
            Err(GroupMlsStoreError::InvalidChangeMaterial)
        } else {
            Ok(TransitionPlan::Rekey)
        },
        _ => Err(GroupMlsStoreError::InvalidChangeMaterial),
    }
}

/// Chooses the MLS transition for a change with `admitted` admitted devices.
pub fn transition_plan(kind: GroupChangeKind, admitted: usize) -> (r: Result<
    TransitionPlan,
    GroupMlsStoreError,
>)
    ensures
        r == spec_transition_plan(kind, admitted as nat),
{
    match kind {
        GroupChangeKind::AddMember => {
            if admitted == 0 {
                Err(GroupMlsStoreError::InvalidChangeMaterial)
            } else {
                Ok(TransitionPlan::Add)
            }
        },
        GroupChangeKind::RemoveMember => {
            if admitted != 0 {
                Err(GroupMlsStoreError::InvalidChangeMaterial)
            } else {
                Ok(TransitionPlan::Remove)
            }
        },
        GroupChangeKind::ChangeRole | GroupChangeKind::TransferOwnership => {
            if admitted != 0 {
                Err(GroupMlsStoreError::InvalidChangeMaterial)
            } else {
                Ok(TransitionPlan::Rekey)
            }
        },
        GroupChangeKind::SetHistoryPolicy
        | GroupChangeKind::SetPublicPolicy
        | GroupChangeKind::SetDeliveryPolicy => Err(GroupMlsStoreError::InvalidChangeMaterial),
    }
}

/// Whether `value` is one of `values`.
pub fn contains_text(values: &Vec<String>, value: &str) -> (r: bool)
    ensures
        r == exists|i: int| 0 <= i < values@.len() && #[trigger] values@[i]@ == value@,
{
    let mut i: usize = 0;
    while i < values.len()
        invariant
            i <= values@.len(),
            forall|j: int| 0 <= j < i ==> #[trigger] values@[j]@ != value@,
        decreases values@.len() - i,
    {
        if text_eq(values[i].as_str(), value) {
            return true;
        }
        i = i + 1;
    }
    false
}

/// Admitted devices must be new to the group: a device already among its
/// current members is refused.
pub fn check_admissions(current: &Vec<String>, admitted: &Vec<String>) -> (r: Result<
    (),
    GroupMlsStoreError,
>)
    ensures
        (forall|i: int, j: int|
            0 <= i < admitted@.len() && 0 <= j < current@.len() ==> #[trigger] admitted@[i]@
                != #[trigger] current@[j]@) ==> r is Ok,
        !(forall|i: int, j: int|
            0 <= i < admitted@.len() && 0 <= j < current@.len() ==> #[trigger] admitted@[i]@
                != #[trigger] current@[j]@) ==> r == Err::<(), GroupMlsStoreError>(
            GroupMlsStoreError::TargetDeviceMismatch,
        ),
{
    let mut i: usize = 0;
    while i < admitted.len()
        invariant
            i <= admitted@.len(),
            forall|k: int, j: int|
                0 <= k < i && 0 <= j < current@.len() ==> #[trigger] admitted@[k]@
                    != #[trigger] current@[j]@,
        decreases admitted@.len() - i,
    {
        if contains_text(current, admitted[i].as_str()) {
            return Err(GroupMlsStoreError::TargetDeviceMismatch);
        }
        i = i + 1;
    }
    Ok(())
}

/// The current devices that belong to the removed member, in order; a removal
/// that would remove no device is refused. `belongs[i]` says whether
/// `current[i]` belongs to the member.
pub fn select_removed_devices(current: &Vec<String>, belongs: &Vec<bool>) -> (r: Result<
    Vec<String>,
    GroupMlsStoreError,
>)
    requires
        current@.len() == belongs@.len(),
    ensures
        (exists|i: int| 0 <= i < belongs@.len() && #[trigger] belongs@[i]) <==> r is Ok,
        r is Err ==> r == Err::<Vec<String>, GroupMlsStoreError>(
            GroupMlsStoreError::TargetDeviceMismatch,
        ),
        r matches Ok(removed) ==> removed@.map_values(|s: String| s@) == selected_devices(
            current@,
            belongs@,
        ),
{
    let mut removed: Vec<String> = Vec::new();
    let mut i: usize = 0;
    while i < current.len()
        invariant
            current@.len() == belongs@.len(),
            i <= current@.len(),
            removed@.map_values(|s: String| s@) == selected_devices(
                current@.take(i as int),
                belongs@.take(i as int),
            ),
            (removed@.len() > 0) <==> (exists|j: int| 0 <= j < i && #[trigger] belongs@[j]),
        decreases current@.len() - i,
    {
        proof {
            assert(current@.take(i as int + 1).drop_last() =~= current@.take(i as int));
            assert(belongs@.take(i as int + 1).drop_last() =~= belongs@.take(i as int));
        }
        if belongs[i] {
            removed.push(current[i].clone());
            proof {
                assert(removed@.map_values(|s: String| s@) =~= removed@.drop_last().map_values(
                    |s: String| s@,
                ).push(current@[i as int]@));
            }
        }
        i = i + 1;
    }
    proof {
        assert(current@.take(current@.len() as int) =~= current@);
        assert(belongs@.take(belongs@.len() as int) =~= belongs@);
    }
    if removed.len() == 0 {
        return Err(GroupMlsStoreError::TargetDeviceMismatch);
    }
    Ok(removed)
}

/// The devices of `current` whose flag in `belongs` is set, in order.
pub open spec fn selected_devices(current: Seq<String>, belongs: Seq<bool>) -> Seq<Seq<char>>
    decreases current.len(),
{
    if current.len() == 0 || belongs.len() == 0 {
        Seq::empty()
    } else {
        let earlier = selected_devices(current.drop_last(), belongs.drop_last());
        if belongs.last() {
            earlier.push(current.last()@)
        } else {
            earlier
        }
    }
}

/// The MLS group's current state must be the one recorded on the group.
pub fn check_mls_state(current: &GroupCryptoState, recorded: &GroupCryptoState) -> (r: Result<
    (),
    GroupMlsStoreError,
>)
    ensures
        current@ == recorded@ ==> r is Ok,
        current@ != recorded@ ==> r == Err::<(), GroupMlsStoreError>(
            GroupMlsStoreError::Durable(DurableStoreError::Corrupt),
        ),
{
    if crypto_state_eq(current, recorded) {
        Ok(())
    } else {
        Err(GroupMlsStoreError::Durable(DurableStoreError::Corrupt))
    }
}

/// Only the device that owns the local MLS group state may act on it.
pub fn check_own_device(own_device_id: &str, actor_device_id: &str) -> (r: Result<
    (),
    GroupMlsStoreError,
>)
    ensures
        own_device_id@ == actor_device_id@ ==> r is Ok,
        own_device_id@ != actor_device_id@ ==> r == Err::<(), GroupMlsStoreError>(
            GroupMlsStoreError::ActorDeviceMismatch,
        ),
{
    if text_eq(own_device_id, actor_device_id) {
        Ok(())
    } else {
        Err(GroupMlsStoreError::ActorDeviceMismatch)
    }
}

/// A new transition must have recorded a new group change; finding it already
/// recorded means another writer got there first.
pub fn check_applied_status(status: DurableRecordStatus) -> (r: Result<(), GroupMlsStoreError>)
    ensures
        status == DurableRecordStatus::Persisted ==> r is Ok,
        status != DurableRecordStatus::Persisted ==> r == Err::<(), GroupMlsStoreError>(
            GroupMlsStoreError::Durable(DurableStoreError::Conflict),
        ),
{
    match status {
        DurableRecordStatus::Persisted => Ok(()),
        DurableRecordStatus::Duplicate => Err(
            GroupMlsStoreError::Durable(DurableStoreError::Conflict),
        ),
    }
}

/// Policy changes carry no MLS transition: a history, public or delivery policy change
/// is refused as invalid change material whatever devices it admits, and only member,
/// role and ownership changes get a plan. A plan adds devices exactly for a member
/// addition that admits some, and every other plan admits none.
pub proof fn lemma_only_membership_changes_transition(kind: GroupChangeKind, admitted: nat)
    ensures
        (kind == GroupChangeKind::SetHistoryPolicy || kind == GroupChangeKind::SetPublicPolicy
            || kind == GroupChangeKind::SetDeliveryPolicy) ==> spec_transition_plan(kind, admitted)
            == Err::<TransitionPlan, GroupMlsStoreError>(GroupMlsStoreError::InvalidChangeMaterial),
        spec_transition_plan(kind, admitted) is Ok ==> (kind == GroupChangeKind::AddMember || kind
            == GroupChangeKind::RemoveMember || kind == GroupChangeKind::ChangeRole || kind
            == GroupChangeKind::TransferOwnership),
        spec_transition_plan(kind, admitted) == Ok::<TransitionPlan, GroupMlsStoreError>(
            TransitionPlan::Add,
        ) ==> kind == GroupChangeKind::AddMember && admitted > 0,
        (spec_transition_plan(kind, admitted) is Ok && kind != GroupChangeKind::AddMember) ==> admitted
            == 0,
        spec_transition_plan(kind, admitted) is Err ==> spec_transition_plan(kind, admitted) == Err::<
            TransitionPlan,
            GroupMlsStoreError,
        >(GroupMlsStoreError::InvalidChangeMaterial),
{
}

} // verus!
