use vstd::prelude::*;
use crate::codec::{decode_u64, spec_decode_u64};
use crate::conversation::{
    group_conversation_kind_from_text, is_group_kind, parse_conversation_kind, spec_is_group_kind,
    ConversationKind,
};
use crate::error::{DurableRecordStatus, DurableStoreError};
use crate::group::{
    history_allows, spec_history_allows, decode_history, decode_ownership, decode_public_policy, delivery_policy_from_text,
    member_state_from_text, parse_delivery_policy, parse_member_state, parse_role, role_from_text,
    spec_decode_history, spec_decode_ownership, spec_decode_public_policy, DeliveryPolicy,
    GroupHistoryPolicy, GroupMemberState, GroupOwnership, GroupRole, HistoryView, OwnershipView,
    PublicGroupPolicy,
};
use crate::group_mls::{crypto_state_eq, CryptoStateView, GroupCryptoState};
use crate::journal::{clone_opt_text, opt_text, opt_text_eq};
use crate::principal::{same_principal, PrincipalRef, PrincipalView};
use crate::scope::{scope_eq, ScopeView, TenantScope};
use crate::text::{bytes_eq, text_eq};

verus! {

/// A conversation as a group refers to it: its id and kind.
#[derive(Clone, Debug)]
pub struct ConversationRef {
    pub conversation_id: String,
    pub kind: ConversationKind,
}

/// The mathematical content of a [`ConversationRef`].
pub struct ConversationRefView {
    pub conversation_id: Seq<char>,
    pub kind: ConversationKind,
}

impl View for ConversationRef {
    type V = ConversationRefView;

    open spec fn view(&self) -> ConversationRefView {
        ConversationRefView { conversation_id: self.conversation_id@, kind: self.kind }
    }
}

/// Whether two conversation references are equal.
pub fn conversation_ref_eq(a: &ConversationRef, b: &ConversationRef) -> (r: bool)
    ensures
        r == (a@ == b@),
{
    a.kind == b.kind && a.conversation_id == b.conversation_id
}

/// A stored conversation: its scope, its reference and the conversation it is
/// nested in, if any.
#[derive(Clone, Debug)]
pub struct ConversationRecord {
    pub scope: TenantScope,
    pub conversation: ConversationRef,
    pub parent_conversation_id: Option<String>,
}

/// The mathematical content of a [`ConversationRecord`].
pub struct ConversationRecordView {
    pub scope: ScopeView,
    pub conversation: ConversationRefView,
    pub parent_conversation_id: Option<Seq<char>>,
}

impl View for ConversationRecord {
    type V = ConversationRecordView;

    open spec fn view(&self) -> ConversationRecordView {
        ConversationRecordView {
            scope: self.scope@,
            conversation: self.conversation@,
            parent_conversation_id: opt_text(self.parent_conversation_id),
        }
    }
}

/// Whether two conversation records are equal.
pub fn conversation_record_eq(a: &ConversationRecord, b: &ConversationRecord) -> (r: bool)
    ensures
        r == (a@ == b@),
{
    scope_eq(&a.scope, &b.scope) && conversation_ref_eq(&a.conversation, &b.conversation)
        && opt_text_eq(&a.parent_conversation_id, &b.parent_conversation_id)
}

/// A group's mapping to a group on an external integration.
#[derive(Clone, Debug)]
pub struct GroupBridgeMapping {
    pub integration_id: String,
    pub external_group_id: Vec<u8>,
}

/// The mathematical content of a [`GroupBridgeMapping`].
pub struct BridgeMappingView {
    pub integration_id: Seq<char>,
    pub external_group_id: Seq<u8>,
}

impl View for GroupBridgeMapping {
    type V = BridgeMappingView;

    open spec fn view(&self) -> BridgeMappingView {
        BridgeMappingView {
            integration_id: self.integration_id@,
            external_group_id: self.external_group_id@,
        }
    }
}

/// The content of a list of bridge mappings.
pub open spec fn bridges_view(mappings: Seq<GroupBridgeMapping>) -> Seq<BridgeMappingView> {
    mappings.map_values(|m: GroupBridgeMapping| m@)
}

/// Whether two lists of bridge mappings are equal, element by element and in order.
pub fn bridges_eq(a: &Vec<GroupBridgeMapping>, b: &Vec<GroupBridgeMapping>) -> (r: bool)
    ensures
        r == (bridges_view(a@) == bridges_view(b@)),
{
    if a.len() != b.len() {
        return false;
    }
    let mut i: usize = 0;
    while i < a.len()
        invariant
            a@.len() == b@.len(),
            i <= a@.len(),
            forall|j: int| 0 <= j < i ==> a@[j]@ == b@[j]@,
        decreases a@.len() - i,
    {
        if !(a[i].integration_id == b[i].integration_id && bytes_eq(
            a[i].external_group_id.as_slice(),
            b[i].external_group_id.as_slice(),
        )) {
            assert(bridges_view(a@)[i as int] != bridges_view(b@)[i as int]);
            return false;
        }
        i = i + 1;
    }
    assert(bridges_view(a@) =~= bridges_view(b@));
    true
}

/// Whether two group ownerships are equal.
pub fn ownership_eq(a: &GroupOwnership, b: &GroupOwnership) -> (r: bool)
    ensures
        r == (a@ == b@),
{
    match (a, b) {
        (GroupOwnership::PersonOwned(x), GroupOwnership::PersonOwned(y)) => same_principal(x, y),
        (GroupOwnership::OrganizationOwned(x), GroupOwnership::OrganizationOwned(y)) =>
            same_principal(x, y),
        (GroupOwnership::SharedAdmin, GroupOwnership::SharedAdmin) => true,
        (GroupOwnership::OwnerlessFederated, GroupOwnership::OwnerlessFederated) => true,
        (
            GroupOwnership::Temporary { owner: x, expires_at_unix_ms: ex },
            GroupOwnership::Temporary { owner: y, expires_at_unix_ms: ey },
        ) => {
            *ex == *ey && match (x, y) {
                (None, None) => true,
                (Some(p), Some(q)) => same_principal(p, q),
                _ => false,
            }
        },
        _ => false,
    }
}

/// Whether two history policies are equal.
pub fn history_eq(a: &GroupHistoryPolicy, b: &GroupHistoryPolicy) -> (r: bool)
    ensures
        r == (a@ == b@),
{
    match (a, b) {
        (GroupHistoryPolicy::NoHistory, GroupHistoryPolicy::NoHistory) => true,
        (GroupHistoryPolicy::FromJoin, GroupHistoryPolicy::FromJoin) => true,
        (GroupHistoryPolicy::LastNMessages(x), GroupHistoryPolicy::LastNMessages(y)) => *x == *y,
        (GroupHistoryPolicy::FromTimestamp(x), GroupHistoryPolicy::FromTimestamp(y)) => *x == *y,
        (GroupHistoryPolicy::FullHistory, GroupHistoryPolicy::FullHistory) => true,
        (GroupHistoryPolicy::CustomPolicy(x), GroupHistoryPolicy::CustomPolicy(y)) => *x == *y,
        _ => false,
    }
}

/// A group: the conversation it describes, how it is owned, what history its
/// members see, how its messages are delivered, its cryptographic state, its
/// public settings, its bridges and its revision counters.
#[derive(Clone, Debug)]
pub struct GroupRecord {
    pub scope: TenantScope,
    pub group_id: String,
    pub conversation: ConversationRef,
    pub ownership: GroupOwnership,
    pub history_policy: GroupHistoryPolicy,
    pub delivery_policy: DeliveryPolicy,
    pub crypto_state: GroupCryptoState,
    pub public_policy: Option<PublicGroupPolicy>,
    pub bridge_mappings: Vec<GroupBridgeMapping>,
    pub replication_generation: u64,
    pub revision: u64,
}

/// The mathematical content of a [`GroupRecord`].
pub struct GroupView {
    pub scope: ScopeView,
    pub group_id: Seq<char>,
    pub conversation: ConversationRefView,
    pub ownership: OwnershipView,
    pub history_policy: HistoryView,
    pub delivery_policy: DeliveryPolicy,
    pub crypto_state: CryptoStateView,
    pub public_policy: Option<PublicGroupPolicy>,
    pub bridge_mappings: Seq<BridgeMappingView>,
    pub replication_generation: u64,
    pub revision: u64,
}

impl View for GroupRecord {
    type V = GroupView;

    open spec fn view(&self) -> GroupView {
        GroupView {
            scope: self.scope@,
            group_id: self.group_id@,
            conversation: self.conversation@,
            ownership: self.ownership@,
            history_policy: self.history_policy@,
            delivery_policy: self.delivery_policy,
            crypto_state: self.crypto_state@,
            public_policy: self.public_policy,
            bridge_mappings: bridges_view(self.bridge_mappings@),
            replication_generation: self.replication_generation,
            revision: self.revision,
        }
    }
}

/// Whether two groups are equal in every field.
pub fn group_eq(a: &GroupRecord, b: &GroupRecord) -> (r: bool)
    ensures
        r == (a@ == b@),
{
    scope_eq(&a.scope, &b.scope) && a.group_id == b.group_id && conversation_ref_eq(
        &a.conversation,
        &b.conversation,
    ) && ownership_eq(&a.ownership, &b.ownership) && history_eq(
        &a.history_policy,
        &b.history_policy,
    ) && a.delivery_policy == b.delivery_policy && crypto_state_eq(
        &a.crypto_state,
        &b.crypto_state,
    ) && a.public_policy == b.public_policy && bridges_eq(&a.bridge_mappings, &b.bridge_mappings)
        && a.replication_generation == b.replication_generation && a.revision == b.revision
}

/// Whether two groups agree in everything but their cryptographic state.
pub open spec fn same_group_but_crypto(a: GroupView, b: GroupView) -> bool {
    a == GroupView { crypto_state: a.crypto_state, ..b }
}

/// Whether two groups are equal in every field except the cryptographic state.
pub fn group_eq_but_crypto(a: &GroupRecord, b: &GroupRecord) -> (r: bool)
    ensures
        r == same_group_but_crypto(a@, b@),
{
    scope_eq(&a.scope, &b.scope) && a.group_id == b.group_id && conversation_ref_eq(
        &a.conversation,
        &b.conversation,
    ) && ownership_eq(&a.ownership, &b.ownership) && history_eq(
        &a.history_policy,
        &b.history_policy,
    ) && a.delivery_policy == b.delivery_policy && a.public_policy == b.public_policy
        && bridges_eq(&a.bridge_mappings, &b.bridge_mappings) && a.replication_generation
        == b.replication_generation && a.revision == b.revision
}

/// A permission a group role grants. The store itself consults only the right to
/// send messages and to read history.
#[derive(Clone, Copy, PartialEq, Eq, Debug, Structural)]
pub enum GroupPermission {
    SendMessage,
    ReadHistory,
    /// Any permission the store does not consult.
    Other,
}

/// A principal's membership in a group.
#[derive(Clone, Debug)]
pub struct GroupMembership {
    pub scope: TenantScope,
    pub group_id: String,
    pub member: PrincipalRef,
    pub role: GroupRole,
    pub permissions: Vec<GroupPermission>,
    pub state: GroupMemberState,
    pub joined_revision: u64,
    pub removed_revision: Option<u64>,
    pub history_floor_logical_order: u64,
}

/// The mathematical content of a [`GroupMembership`].
pub struct MembershipView {
    pub scope: ScopeView,
    pub group_id: Seq<char>,
    pub member: PrincipalView,
    pub role: GroupRole,
    pub permissions: Seq<GroupPermission>,
    pub state: GroupMemberState,
    pub joined_revision: u64,
    pub removed_revision: Option<u64>,
    pub history_floor_logical_order: u64,
}

impl View for GroupMembership {
    type V = MembershipView;

    open spec fn view(&self) -> MembershipView {
        MembershipView {
            scope: self.scope@,
            group_id: self.group_id@,
            member: self.member@,
            role: self.role,
            permissions: self.permissions@,
            state: self.state,
            joined_revision: self.joined_revision,
            removed_revision: self.removed_revision,
            history_floor_logical_order: self.history_floor_logical_order,
        }
    }
}

/// Whether two permission lists are equal, element by element and in order.
pub fn permissions_eq(a: &Vec<GroupPermission>, b: &Vec<GroupPermission>) -> (r: bool)
    ensures
        r == (a@ == b@),
{
    if a.len() != b.len() {
        return false;
    }
    let mut i: usize = 0;
    while i < a.len()
        invariant
            a@.len() == b@.len(),
            i <= a@.len(),
            forall|j: int| 0 <= j < i ==> a@[j] == b@[j],
        decreases a@.len() - i,
    {
        if a[i] != b[i] {
            return false;
        }
        i = i + 1;
    }
    assert(a@ =~= b@);
    true
}

/// Whether a permission list holds a permission.
pub fn has_permission(permissions: &Vec<GroupPermission>, wanted: GroupPermission) -> (r: bool)
    ensures
        r == permissions@.contains(wanted),
{
    let mut i: usize = 0;
    while i < permissions.len()
        invariant
            i <= permissions@.len(),
            forall|j: int| 0 <= j < i ==> permissions@[j] != wanted,
        decreases permissions@.len() - i,
    {
        if permissions[i] == wanted {
            return true;
        }
        i = i + 1;
    }
    false
}

/// Whether two memberships agree in everything but the history floor.
pub open spec fn same_membership_but_floor(a: MembershipView, b: MembershipView) -> bool {
    a == MembershipView { history_floor_logical_order: a.history_floor_logical_order, ..b }
}

/// Whether two memberships are equal in every field except the history floor.
pub fn membership_eq_but_floor(a: &GroupMembership, b: &GroupMembership) -> (r: bool)
    ensures
        r == same_membership_but_floor(a@, b@),
{
    scope_eq(&a.scope, &b.scope) && a.group_id == b.group_id && same_principal(&a.member, &b.member)
        && a.role == b.role && permissions_eq(&a.permissions, &b.permissions) && a.state == b.state
        && a.joined_revision == b.joined_revision && a.removed_revision == b.removed_revision
}

/// The columns of a stored group row, as read.
#[derive(Clone, Debug)]
pub struct GroupRow {
    pub conversation_id: String,
    pub conversation_kind: String,
    pub ownership_kind: String,
    pub owner_principal_id: Option<String>,
    pub owner_principal_kind: Option<String>,
    pub ownership_expires_at_unix_ms: Option<i64>,
    pub history_kind: String,
    pub history_value: Option<i64>,
    pub history_custom: Option<String>,
    pub delivery_policy: String,
    pub crypto_capability_id: Option<String>,
    pub crypto_epoch: Vec<u8>,
    pub crypto_state_ref: Option<String>,
    pub public_join_policy: Option<String>,
    pub public_discovery: Option<String>,
    pub public_indexed: Option<i64>,
    pub media_state: String,
    pub replication_generation: Vec<u8>,
    pub revision: Vec<u8>,
}

/// The group a stored row describes, with its bridges: every column must decode
/// and the media state must be idle, otherwise the row is corrupt.
pub open spec fn spec_decode_group(
    scope: ScopeView,
    group_id: Seq<char>,
    row: GroupRow,
    bridges: Seq<BridgeMappingView>,
) -> Result<GroupView, DurableStoreError> {
    let kind = group_conversation_kind_from_text(row.conversation_kind@);
    let ownership = spec_decode_ownership(
        row.ownership_kind@,
        opt_text(row.owner_principal_id),
        opt_text(row.owner_principal_kind),
        row.ownership_expires_at_unix_ms,
    );
    let history = spec_decode_history(
        row.history_kind@,
        row.history_value,
        opt_text(row.history_custom),
    );
    let policy = delivery_policy_from_text(row.delivery_policy@);
    let epoch = spec_decode_u64(row.crypto_epoch@);
    let public = spec_decode_public_policy(
        opt_text(row.public_join_policy),
        opt_text(row.public_discovery),
        row.public_indexed,
    );
    let generation = spec_decode_u64(row.replication_generation@);
    let revision = spec_decode_u64(row.revision@);
    if row.media_state@ == "idle"@ && kind is Some && ownership is Ok && history is Ok && policy is Some
        && epoch is Ok && public is Ok && generation is Ok && revision is Ok {
        Ok(
            GroupView {
                scope,
                group_id,
                conversation: ConversationRefView {
                    conversation_id: row.conversation_id@,
                    kind: kind->Some_0,
                },
                ownership: ownership->Ok_0,
                history_policy: history->Ok_0,
                delivery_policy: policy->Some_0,
                crypto_state: CryptoStateView {
                    capability_id: opt_text(row.crypto_capability_id),
                    epoch: epoch->Ok_0,
                    state_ref: opt_text(row.crypto_state_ref),
                },
                public_policy: public->Ok_0,
                bridge_mappings: bridges,
                replication_generation: generation->Ok_0,
                revision: revision->Ok_0,
            },
        )
    } else {
        Err(DurableStoreError::Corrupt)
    }
}

/// Rebuilds a stored group from its row and its bridge mappings.
pub fn decode_group(scope: &TenantScope, group_id: &str, row: GroupRow, bridges: Vec<GroupBridgeMapping>) -> (r:
    Result<GroupRecord, DurableStoreError>)
    ensures
        match (r, spec_decode_group(scope@, group_id@, row, bridges_view(bridges@))) {
            (Ok(g), Ok(v)) => g@ == v,
            (Err(e), Err(f)) => e == f,
            _ => false,
        },
{
    proof {
        reveal_strlit("idle");
    }
    if !text_eq(row.media_state.as_str(), "idle") {
        return Err(DurableStoreError::Corrupt);
    }
    let kind = parse_conversation_kind(row.conversation_kind.as_str())?;
    let ownership = decode_ownership(
        row.ownership_kind.as_str(),
        row.owner_principal_id,
        row.owner_principal_kind,
        row.ownership_expires_at_unix_ms,
    )?;
    let history_policy = decode_history(row.history_kind.as_str(), row.history_value, row.history_custom)?;
    let delivery_policy = parse_delivery_policy(row.delivery_policy.as_str())?;
    let epoch = decode_u64(row.crypto_epoch.as_slice())?;
    let public_policy = decode_public_policy(
        match &row.public_join_policy {
            Some(t) => Some(t.as_str()),
            None => None,
        },
        match &row.public_discovery {
            Some(t) => Some(t.as_str()),
            None => None,
        },
        row.public_indexed,
    )?;
    let replication_generation = decode_u64(row.replication_generation.as_slice())?;
    let revision = decode_u64(row.revision.as_slice())?;
    Ok(
        GroupRecord {
            scope: TenantScope {
                tenant_id: scope.tenant_id.clone(),
                namespace_id: clone_opt_text(&scope.namespace_id),
            },
            group_id: group_id.to_owned(),
            conversation: ConversationRef { conversation_id: row.conversation_id, kind },
            ownership,
            history_policy,
            delivery_policy,
            crypto_state: GroupCryptoState {
                capability_id: row.crypto_capability_id,
                epoch,
                state_ref: row.crypto_state_ref,
            },
            public_policy,
            bridge_mappings: bridges,
            replication_generation,
            revision,
        },
    )
}

/// Every stored bridge mapping names a non-empty external group id of at most
/// `max_len` bytes.
pub open spec fn bridges_ok(bridges: Seq<GroupBridgeMapping>, max_len: nat) -> bool {
    forall|i: int|
        0 <= i < bridges.len() ==> 0 < #[trigger] bridges[i].external_group_id@.len() <= max_len
}

/// Checks the stored bridge mappings of a group; an empty or oversized external
/// group id is corrupt.
pub fn check_bridges(bridges: &Vec<GroupBridgeMapping>, max_external_group_id_len: usize) -> (r:
    Result<(), DurableStoreError>)
    ensures
        bridges_ok(bridges@, max_external_group_id_len as nat) ==> r is Ok,
        !bridges_ok(bridges@, max_external_group_id_len as nat) ==> r == Err::<(), DurableStoreError>(
            DurableStoreError::Corrupt,
        ),
{
    let mut i: usize = 0;
    while i < bridges.len()
        invariant
            i <= bridges@.len(),
            forall|j: int|
                0 <= j < i ==> 0 < #[trigger] bridges@[j].external_group_id@.len()
                    <= max_external_group_id_len,
        decreases bridges@.len() - i,
    {
        let len = bridges[i].external_group_id.len();
        if len == 0 || len > max_external_group_id_len {
            return Err(DurableStoreError::Corrupt);
        }
        i = i + 1;
    }
    Ok(())
}

/// The columns of a stored membership row, as read.
#[derive(Clone, Debug)]
pub struct MembershipRow {
    pub role: String,
    pub state: String,
    pub joined_revision: Vec<u8>,
    pub removed_revision: Option<Vec<u8>>,
    pub history_floor_logical_order: Vec<u8>,
}

/// The removed revision read back from its optional column.
pub open spec fn spec_decode_removed(value: Option<Vec<u8>>) -> Result<Option<u64>, DurableStoreError> {
    match value {
        None => Ok(None),
        Some(b) => match spec_decode_u64(b@) {
            Ok(v) => Ok(Some(v)),
            Err(e) => Err(e),
        },
    }
}

/// The membership of `member` in `group` that a stored row describes, with the
/// permissions the protocol grants the stored role: every column must decode,
/// otherwise the row is corrupt.
pub open spec fn spec_decode_membership(
    group: GroupView,
    member: PrincipalView,
    row: MembershipRow,
    permissions: Seq<GroupPermission>,
) -> Result<MembershipView, DurableStoreError> {
    let role = role_from_text(row.role@);
    let state = member_state_from_text(row.state@);
    let joined = spec_decode_u64(row.joined_revision@);
    let removed = spec_decode_removed(row.removed_revision);
    let floor = spec_decode_u64(row.history_floor_logical_order@);
    if role is Some && state is Some && joined is Ok && removed is Ok && floor is Ok {
        Ok(
            MembershipView {
                scope: group.scope,
                group_id: group.group_id,
                member,
                role: role->Some_0,
                permissions,
                state: state->Some_0,
                joined_revision: joined->Ok_0,
                removed_revision: removed->Ok_0,
                history_floor_logical_order: floor->Ok_0,
            },
        )
    } else {
        Err(DurableStoreError::Corrupt)
    }
}

/// Rebuilds a stored membership. `permissions` are the permissions the protocol
/// grants the role stored in the row.
pub fn decode_membership(
    group: &GroupRecord,
    member: PrincipalRef,
    row: MembershipRow,
    permissions: Vec<GroupPermission>,
) -> (r: Result<GroupMembership, DurableStoreError>)
    ensures
        match (r, spec_decode_membership(group@, member@, row, permissions@)) {
            (Ok(m), Ok(v)) => m@ == v,
            (Err(e), Err(f)) => e == f,
            _ => false,
        },
{
    let role = parse_role(row.role.as_str())?;
    let state = parse_member_state(row.state.as_str())?;
    let joined_revision = decode_u64(row.joined_revision.as_slice())?;
    let removed_revision = match &row.removed_revision {
        None => None,
        Some(b) => Some(decode_u64(b.as_slice())?),
    };
    let history_floor_logical_order = decode_u64(row.history_floor_logical_order.as_slice())?;
    Ok(
        GroupMembership {
            scope: TenantScope {
                tenant_id: group.scope.tenant_id.clone(),
                namespace_id: clone_opt_text(&group.scope.namespace_id),
            },
            group_id: group.group_id.clone(),
            member,
            role,
            permissions,
            state,
            joined_revision,
            removed_revision,
            history_floor_logical_order,
        },
    )
}

/// The row limit of a membership page: one more than asked for (saturating), so
/// that an oversized group is noticed, and at most what SQLite takes.
pub open spec fn spec_member_page_limit(max_items: usize) -> int {
    let limit: int = if max_items < usize::MAX {
        max_items + 1
    } else {
        usize::MAX as int
    };
    if limit <= i64::MAX {
        limit
    } else {
        i64::MAX as int
    }
}

/// The row limit of a membership page.
pub fn member_page_sql_limit(max_items: usize) -> (r: i64)
    ensures
        r == spec_member_page_limit(max_items),
{
    let limit = max_items.saturating_add(1);
    if limit as u64 <= i64::MAX as u64 {
        limit as i64
    } else {
        i64::MAX
    }
}

/// A membership page holding more than `max_items` rows means the group is larger
/// than the caller can take.
pub fn check_member_page(count: usize, max_items: usize) -> (r: Result<(), DurableStoreError>)
    ensures
        count <= max_items ==> r is Ok,
        count > max_items ==> r == Err::<(), DurableStoreError>(DurableStoreError::Full),
{
    if count > max_items {
        Err(DurableStoreError::Full)
    } else {
        Ok(())
    }
}

/// A group is created for a top-level group conversation of its own scope, and
/// describes that very conversation.
pub open spec fn group_creation_ok(conversation: ConversationRecordView, group: GroupView) -> bool {
    &&& conversation.parent_conversation_id is None
    &&& spec_is_group_kind(conversation.conversation.kind)
    &&& conversation.scope == group.scope
    &&& conversation.conversation == group.conversation
}

/// Checks a group creation request against its conversation.
pub fn check_group_creation(conversation: &ConversationRecord, group: &GroupRecord) -> (r: Result<
    (),
    DurableStoreError,
>)
    ensures
        group_creation_ok(conversation@, group@) ==> r is Ok,
        !group_creation_ok(conversation@, group@) ==> r == Err::<(), DurableStoreError>(
            DurableStoreError::InvalidRecord,
        ),
{
    if conversation.parent_conversation_id.is_some() || !is_group_kind(conversation.conversation.kind)
        || !scope_eq(&conversation.scope, &group.scope) || !conversation_ref_eq(
        &conversation.conversation,
        &group.conversation,
    ) {
        return Err(DurableStoreError::InvalidRecord);
    }
    Ok(())
}

/// What creating a group writes.
#[derive(Clone, Copy, PartialEq, Eq, Debug, Structural)]
pub enum GroupCreateStep {
    /// The same group with the same creator membership exists: nothing to write.
    Duplicate,
    /// Insert the group and its creator, and the conversation when it is not stored yet.
    Insert { insert_conversation: bool },
}

/// The creation rule over what is stored. A group already stored under the id is a
/// duplicate when it equals the canonical group and its creator's membership equals
/// the creator membership up to the history floor, else a conflict. Otherwise a
/// conversation that already has a group, or a stored conversation that differs
/// from the request, is a conflict.
pub open spec fn spec_create_group_step(
    existing: Option<(GroupView, Option<MembershipView>)>,
    group: GroupView,
    creator: MembershipView,
    conversation_has_group: bool,
    stored_conversation: Option<ConversationRecordView>,
    conversation: ConversationRecordView,
) -> Result<GroupCreateStep, DurableStoreError> {
    match existing {
        Some((stored_group, stored_creator)) => if stored_group == group && (stored_creator matches Some(
            m,
        ) && same_membership_but_floor(m, creator)) {
            Ok(GroupCreateStep::Duplicate)
        } else {
            Err(DurableStoreError::Conflict)
        },
        None => if conversation_has_group {
            Err(DurableStoreError::Conflict)
        } else {
            match stored_conversation {
                Some(c) => if c == conversation {
                    Ok(GroupCreateStep::Insert { insert_conversation: false })
                } else {
                    Err(DurableStoreError::Conflict)
                },
                None => Ok(GroupCreateStep::Insert { insert_conversation: true }),
            }
        },
    }
}

/// Decides a group creation from what the store holds: the group under the id with
/// the creator's stored membership, whether the conversation already has a group,
/// and the stored conversation.
pub fn create_group_step(
    existing: Option<(&GroupRecord, Option<&GroupMembership>)>,
    group: &GroupRecord,
    creator: &GroupMembership,
    conversation_has_group: bool,
    stored_conversation: Option<&ConversationRecord>,
    conversation: &ConversationRecord,
) -> (r: Result<GroupCreateStep, DurableStoreError>)
    ensures
        r == spec_create_group_step(
            match existing {
                Some((g, m)) => Some(
                    (
                        g@,
                        match m {
                            Some(p) => Some(p@),
                            None => None,
                        },
                    ),
                ),
                None => None,
            },
            group@,
            creator@,
            conversation_has_group,
            match stored_conversation {
                Some(c) => Some(c@),
                None => None,
            },
            conversation@,
        ),
{
    match existing {
        Some((stored_group, stored_creator)) => {
            let same_creator = match stored_creator {
                Some(m) => membership_eq_but_floor(m, creator),
                None => false,
            };
            if group_eq(stored_group, group) && same_creator {
                Ok(GroupCreateStep::Duplicate)
            } else {
                Err(DurableStoreError::Conflict)
            }
        },
        None => {
            if conversation_has_group {
                return Err(DurableStoreError::Conflict);
            }
            match stored_conversation {
                Some(c) => {
                    if conversation_record_eq(c, conversation) {
                        Ok(GroupCreateStep::Insert { insert_conversation: false })
                    } else {
                        Err(DurableStoreError::Conflict)
                    }
                },
                None => Ok(GroupCreateStep::Insert { insert_conversation: true }),
            }
        },
    }
}

/// Group creation is idempotent: once the group is stored with its creator,
/// repeating the creation is a duplicate, whatever history floor the creator was
/// given, and a request for a different group under its id is a conflict.
pub proof fn lemma_group_creation_idempotent(
    group: GroupView,
    creator: MembershipView,
    stored_floor: u64,
    other: GroupView,
    conversation_has_group: bool,
    stored_conversation: Option<ConversationRecordView>,
    conversation: ConversationRecordView,
)
    ensures
        spec_create_group_step(
            Some(
                (
                    group,
                    Some(MembershipView { history_floor_logical_order: stored_floor, ..creator }),
                ),
            ),
            group,
            creator,
            conversation_has_group,
            stored_conversation,
            conversation,
        ) == Ok::<GroupCreateStep, DurableStoreError>(GroupCreateStep::Duplicate),
        other != group ==> spec_create_group_step(
            Some(
                (
                    group,
                    Some(MembershipView { history_floor_logical_order: stored_floor, ..creator }),
                ),
            ),
            other,
            creator,
            conversation_has_group,
            stored_conversation,
            conversation,
        ) == Err::<GroupCreateStep, DurableStoreError>(DurableStoreError::Conflict),
{
}

/// The answer to a group change whose event id is already recorded: only the actor
/// that recorded it may replay it, and only with the same change fingerprint.
pub open spec fn spec_recorded_change_outcome(
    recorded_actor: PrincipalView,
    recorded_fingerprint: Seq<u8>,
    actor: PrincipalView,
    fingerprint: Seq<u8>,
) -> Result<DurableRecordStatus, DurableStoreError> {
    if recorded_actor != actor {
        Err(DurableStoreError::PermissionDenied)
    } else if recorded_fingerprint == fingerprint {
        Ok(DurableRecordStatus::Duplicate)
    } else {
        Err(DurableStoreError::Conflict)
    }
}

/// Answers a group change whose event id is already recorded.
pub fn recorded_change_outcome(
    recorded_actor: &PrincipalRef,
    recorded_fingerprint: &[u8],
    actor: &PrincipalRef,
    fingerprint: &[u8],
) -> (r: Result<DurableRecordStatus, DurableStoreError>)
    ensures
        r == spec_recorded_change_outcome(
            recorded_actor@,
            recorded_fingerprint@,
            actor@,
            fingerprint@,
        ),
{
    if !same_principal(recorded_actor, actor) {
        return Err(DurableStoreError::PermissionDenied);
    }
    if bytes_eq(recorded_fingerprint, fingerprint) {
        Ok(DurableRecordStatus::Duplicate)
    } else {
        Err(DurableStoreError::Conflict)
    }
}

/// A recorded group change is bound to the actor that made it: replaying the same
/// change is a duplicate for that actor and refused for anyone else, and a
/// different change under the recorded event id conflicts.
pub proof fn lemma_group_change_bound_to_actor(
    actor: PrincipalView,
    fingerprint: Seq<u8>,
    other_actor: PrincipalView,
    other_fingerprint: Seq<u8>,
)
    ensures
        spec_recorded_change_outcome(actor, fingerprint, actor, fingerprint) == Ok::<
            DurableRecordStatus,
            DurableStoreError,
        >(DurableRecordStatus::Duplicate),
        other_actor != actor ==> spec_recorded_change_outcome(
            actor,
            fingerprint,
            other_actor,
            fingerprint,
        ) == Err::<DurableRecordStatus, DurableStoreError>(DurableStoreError::PermissionDenied),
        other_fingerprint != fingerprint ==> spec_recorded_change_outcome(
            actor,
            fingerprint,
            actor,
            other_fingerprint,
        ) == Err::<DurableRecordStatus, DurableStoreError>(DurableStoreError::Conflict),
{
}

/// The group of a posted message must exist (else the poster may not post) and must
/// describe the message's conversation and delivery policy.
pub fn check_group_message_target(
    group: Option<&GroupRecord>,
    conversation: &ConversationRef,
    delivery_policy: DeliveryPolicy,
) -> (r: Result<(), DurableStoreError>)
    ensures
        group is None ==> r == Err::<(), DurableStoreError>(DurableStoreError::PermissionDenied),
        (group matches Some(g) && g@.conversation == conversation@ && g.delivery_policy
            == delivery_policy) ==> r is Ok,
        (group matches Some(g) && !(g@.conversation == conversation@ && g.delivery_policy
            == delivery_policy)) ==> r == Err::<(), DurableStoreError>(
            DurableStoreError::InvalidRecord,
        ),
{
    match group {
        None => Err(DurableStoreError::PermissionDenied),
        Some(g) => {
            if conversation_ref_eq(&g.conversation, conversation) && g.delivery_policy
                == delivery_policy {
                Ok(())
            } else {
                Err(DurableStoreError::InvalidRecord)
            }
        },
    }
}

/// Whether a membership is active and grants a permission.
pub open spec fn active_with(membership: Option<MembershipView>, permission: GroupPermission) -> bool {
    membership matches Some(m) && m.state == GroupMemberState::Active && m.permissions.contains(
        permission,
    )
}

/// A member may post a group message only while its membership is active and its
/// role grants sending; otherwise the post is refused.
pub fn group_message_sender_allowed(membership: Option<&GroupMembership>) -> (r: Result<
    (),
    DurableStoreError,
>)
    ensures
        active_with(
            match membership {
                Some(m) => Some(m@),
                None => None,
            },
            GroupPermission::SendMessage,
        ) ==> r is Ok,
        !active_with(
            match membership {
                Some(m) => Some(m@),
                None => None,
            },
            GroupPermission::SendMessage,
        ) ==> r == Err::<(), DurableStoreError>(DurableStoreError::PermissionDenied),
{
    match membership {
        Some(m) => {
            if m.state == GroupMemberState::Active && has_permission(
                &m.permissions,
                GroupPermission::SendMessage,
            ) {
                Ok(())
            } else {
                Err(DurableStoreError::PermissionDenied)
            }
        },
        None => Err(DurableStoreError::PermissionDenied),
    }
}

/// Whether a member may read a group message: its membership must be active and
/// grant reading history, and the group's history policy must allow the message
/// from the member's history floor on. Anything else reads as if the message did
/// not exist.
pub open spec fn spec_group_message_visible(
    membership: Option<MembershipView>,
    policy: HistoryView,
    message_order: u64,
) -> bool {
    active_with(membership, GroupPermission::ReadHistory) && spec_history_allows(
        policy,
        membership->Some_0.history_floor_logical_order,
        message_order,
    )
}

/// Decides whether a member may read a group message.
pub fn group_message_visible(
    membership: Option<&GroupMembership>,
    policy: &GroupHistoryPolicy,
    message_order: u64,
) -> (r: bool)
    ensures
        r == spec_group_message_visible(
            match membership {
                Some(m) => Some(m@),
                None => None,
            },
            policy@,
            message_order,
        ),
{
    match membership {
        Some(m) => m.state == GroupMemberState::Active && has_permission(
            &m.permissions,
            GroupPermission::ReadHistory,
        ) && history_allows(policy, m.history_floor_logical_order, message_order),
        None => false,
    }
}

/// A membership that is no longer active can neither post nor read, whatever its
/// role grants and whatever the history policy allows.
pub proof fn lemma_inactive_member_is_gated(
    membership: MembershipView,
    policy: HistoryView,
    message_order: u64,
)
    requires
        membership.state != GroupMemberState::Active,
    ensures
        !active_with(Some(membership), GroupPermission::SendMessage),
        !spec_group_message_visible(Some(membership), policy, message_order),
{
}

} // verus!
