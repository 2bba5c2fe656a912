use vstd::prelude::*;
use crate::error::{DurableStoreError, or_corrupt};
use crate::text::text_eq;
use crate::conversation::{is_group_kind, spec_is_group_kind, ConversationKind};
use crate::delivery::DeliveryState;
use crate::scope::{scope_eq, TenantScope};
use crate::principal::{PrincipalRef, PrincipalView, principal_kind_text, principal_kind_name, parse_principal_kind, principal_kind_from_text, lemma_principal_kind_text_round_trip};

verus! {

/// Role of a member in a group.
#[derive(Clone, Copy, PartialEq, Eq, Debug, Structural)]
pub enum GroupRole {
    Owner,
    Admin,
    Member,
}

/// The text stored for a role.
pub open spec fn role_text(value: GroupRole) -> Seq<char> {
    match value {
        GroupRole::Owner => "owner"@,
        GroupRole::Admin => "admin"@,
        GroupRole::Member => "member"@,
    }
}

/// The role that a stored text names, if any.
pub open spec fn role_from_text(text: Seq<char>) -> Option<GroupRole> {
    if text == "owner"@ {
        Some(GroupRole::Owner)
    } else if text == "admin"@ {
        Some(GroupRole::Admin)
    } else if text == "member"@ {
        Some(GroupRole::Member)
    } else {
        None
    }
}

/// The text stored for a role.
pub fn role_name(value: GroupRole) -> (r: &'static str)
    ensures
        r@ == role_text(value),
{
    match value {
        GroupRole::Owner => "owner",
        GroupRole::Admin => "admin",
        GroupRole::Member => "member",
    }
}

/// Reads a stored role; unrecognised text is corrupt.
pub fn parse_role(value: &str) -> (r: Result<GroupRole, DurableStoreError>)
    ensures
        r == or_corrupt(role_from_text(value@)),
{
    if text_eq(value, "owner") {
        Ok(GroupRole::Owner)
    } else if text_eq(value, "admin") {
        Ok(GroupRole::Admin)
    } else if text_eq(value, "member") {
        Ok(GroupRole::Member)
    } else {
        Err(DurableStoreError::Corrupt)
    }
}

/// Every role reads back unchanged from the text stored for it.
pub proof fn lemma_role_text_round_trip(value: GroupRole)
    ensures
        role_from_text(role_text(value)) == Some(value),
{
    reveal_strlit("owner");
    reveal_strlit("admin");
    reveal_strlit("member");
    match value {
        GroupRole::Owner => {
        },
        GroupRole::Admin => {
            assert("admin"@[0] != "owner"@[0]);
        },
        GroupRole::Member => {
            assert("member"@.len() != "owner"@.len());
            assert("member"@.len() != "admin"@.len());
        },
    }
}

/// Whether a group membership is current or a tombstone.
#[derive(Clone, Copy, PartialEq, Eq, Debug, Structural)]
pub enum GroupMemberState {
    Active,
    Removed,
}

/// The text stored for a member state.
pub open spec fn member_state_text(value: GroupMemberState) -> Seq<char> {
    match value {
        GroupMemberState::Active => "active"@,
        GroupMemberState::Removed => "removed"@,
    }
}

/// The member state that a stored text names, if any.
pub open spec fn member_state_from_text(text: Seq<char>) -> Option<GroupMemberState> {
    if text == "active"@ {
        Some(GroupMemberState::Active)
    } else if text == "removed"@ {
        Some(GroupMemberState::Removed)
    } else {
        None
    }
}

/// The text stored for a member state.
pub fn member_state_name(value: GroupMemberState) -> (r: &'static str)
    ensures
        r@ == member_state_text(value),
{
    match value {
        GroupMemberState::Active => "active",
        GroupMemberState::Removed => "removed",
    }
}

/// Reads a stored member state; unrecognised text is corrupt.
pub fn parse_member_state(value: &str) -> (r: Result<GroupMemberState, DurableStoreError>)
    ensures
        r == or_corrupt(member_state_from_text(value@)),
{
    if text_eq(value, "active") {
        Ok(GroupMemberState::Active)
    } else if text_eq(value, "removed") {
        Ok(GroupMemberState::Removed)
    } else {
        Err(DurableStoreError::Corrupt)
    }
}

/// Every member state reads back unchanged from the text stored for it.
pub proof fn lemma_member_state_text_round_trip(value: GroupMemberState)
    ensures
        member_state_from_text(member_state_text(value)) == Some(value),
{
    reveal_strlit("active");
    reveal_strlit("removed");
    match value {
        GroupMemberState::Active => {
        },
        GroupMemberState::Removed => {
            assert("removed"@.len() != "active"@.len());
        },
    }
}

/// Delivery policy of a group's messages.
#[derive(Clone, Copy, PartialEq, Eq, Debug, Structural)]
pub enum DeliveryPolicy {
    BestEffort,
    Durable,
    Urgent,
    Expiring,
    LocalOnly,
    DirectOnly,
    NoRelay,
    NoExternalBridge,
    PrivateNetworkOnly,
}

/// The text stored for a delivery policy.
pub open spec fn delivery_policy_text(value: DeliveryPolicy) -> Seq<char> {
    match value {
        DeliveryPolicy::BestEffort => "best_effort"@,
        DeliveryPolicy::Durable => "durable"@,
        DeliveryPolicy::Urgent => "urgent"@,
        DeliveryPolicy::Expiring => "expiring"@,
        DeliveryPolicy::LocalOnly => "local_only"@,
        DeliveryPolicy::DirectOnly => "direct_only"@,
        DeliveryPolicy::NoRelay => "no_relay"@,
        DeliveryPolicy::NoExternalBridge => "no_external_bridge"@,
        DeliveryPolicy::PrivateNetworkOnly => "private_network_only"@,
    }
}

/// The delivery policy that a stored text names, if any.
pub open spec fn delivery_policy_from_text(text: Seq<char>) -> Option<DeliveryPolicy> {
    if text == "best_effort"@ {
        Some(DeliveryPolicy::BestEffort)
    } else if text == "durable"@ {
        Some(DeliveryPolicy::Durable)
    } else if text == "urgent"@ {
        Some(DeliveryPolicy::Urgent)
    } else if text == "expiring"@ {
        Some(DeliveryPolicy::Expiring)
    } else if text == "local_only"@ {
        Some(DeliveryPolicy::LocalOnly)
    } else if text == "direct_only"@ {
        Some(DeliveryPolicy::DirectOnly)
    } else if text == "no_relay"@ {
        Some(DeliveryPolicy::NoRelay)
    } else if text == "no_external_bridge"@ {
        Some(DeliveryPolicy::NoExternalBridge)
    } else if text == "private_network_only"@ {
        Some(DeliveryPolicy::PrivateNetworkOnly)
    } else {
        None
    }
}

/// The text stored for a delivery policy.
pub fn delivery_policy_name(value: DeliveryPolicy) -> (r: &'static str)
    ensures
        r@ == delivery_policy_text(value),
{
    match value {
        DeliveryPolicy::BestEffort => "best_effort",
        DeliveryPolicy::Durable => "durable",
        DeliveryPolicy::Urgent => "urgent",
        DeliveryPolicy::Expiring => "expiring",
        DeliveryPolicy::LocalOnly => "local_only",
        DeliveryPolicy::DirectOnly => "direct_only",
        DeliveryPolicy::NoRelay => "no_relay",
        DeliveryPolicy::NoExternalBridge => "no_external_bridge",
        DeliveryPolicy::PrivateNetworkOnly => "private_network_only",
    }
}

/// Reads a stored delivery policy; unrecognised text is corrupt.
pub fn parse_delivery_policy(value: &str) -> (r: Result<DeliveryPolicy, DurableStoreError>)
    ensures
        r == or_corrupt(delivery_policy_from_text(value@)),
{
    if text_eq(value, "best_effort") {
        Ok(DeliveryPolicy::BestEffort)
    } else if text_eq(value, "durable") {
        Ok(DeliveryPolicy::Durable)
    } else if text_eq(value, "urgent") {
        Ok(DeliveryPolicy::Urgent)
    } else if text_eq(value, "expiring") {
        Ok(DeliveryPolicy::Expiring)
    } else if text_eq(value, "local_only") {
        Ok(DeliveryPolicy::LocalOnly)
    } else if text_eq(value, "direct_only") {
        Ok(DeliveryPolicy::DirectOnly)
    } else if text_eq(value, "no_relay") {
        Ok(DeliveryPolicy::NoRelay)
    } else if text_eq(value, "no_external_bridge") {
        Ok(DeliveryPolicy::NoExternalBridge)
    } else if text_eq(value, "private_network_only") {
        Ok(DeliveryPolicy::PrivateNetworkOnly)
    } else {
        Err(DurableStoreError::Corrupt)
    }
}

/// Every delivery policy reads back unchanged from the text stored for it.
pub proof fn lemma_delivery_policy_text_round_trip(value: DeliveryPolicy)
    ensures
        delivery_policy_from_text(delivery_policy_text(value)) == Some(value),
{
    reveal_strlit("best_effort");
    reveal_strlit("durable");
    reveal_strlit("urgent");
    reveal_strlit("expiring");
    reveal_strlit("local_only");
    reveal_strlit("direct_only");
    reveal_strlit("no_relay");
    reveal_strlit("no_external_bridge");
    reveal_strlit("private_network_only");
    match value {
        DeliveryPolicy::BestEffort => {
        },
        DeliveryPolicy::Durable => {
            assert("durable"@.len() != "best_effort"@.len());
        },
        DeliveryPolicy::Urgent => {
            assert("urgent"@.len() != "best_effort"@.len());
            assert("urgent"@.len() != "durable"@.len());
        },
        DeliveryPolicy::Expiring => {
            assert("expiring"@.len() != "best_effort"@.len());
            assert("expiring"@.len() != "durable"@.len());
            assert("expiring"@.len() != "urgent"@.len());
        },
        DeliveryPolicy::LocalOnly => {
            assert("local_only"@.len() != "best_effort"@.len());
            assert("local_only"@.len() != "durable"@.len());
            assert("local_only"@.len() != "urgent"@.len());
            assert("local_only"@.len() != "expiring"@.len());
        },
        DeliveryPolicy::DirectOnly => {
            assert("direct_only"@[0] != "best_effort"@[0]);
            assert("direct_only"@.len() != "durable"@.len());
            assert("direct_only"@.len() != "urgent"@.len());
            assert("direct_only"@.len() != "expiring"@.len());
            assert("direct_only"@.len() != "local_only"@.len());
        },
        DeliveryPolicy::NoRelay => {
            assert("no_relay"@.len() != "best_effort"@.len());
            assert("no_relay"@.len() != "durable"@.len());
            assert("no_relay"@.len() != "urgent"@.len());
            assert("no_relay"@[0] != "expiring"@[0]);
            assert("no_relay"@.len() != "local_only"@.len());
            assert("no_relay"@.len() != "direct_only"@.len());
        },
        DeliveryPolicy::NoExternalBridge => {
            assert("no_external_bridge"@.len() != "best_effort"@.len());
            assert("no_external_bridge"@.len() != "durable"@.len());
            assert("no_external_bridge"@.len() != "urgent"@.len());
            assert("no_external_bridge"@.len() != "expiring"@.len());
            assert("no_external_bridge"@.len() != "local_only"@.len());
            assert("no_external_bridge"@.len() != "direct_only"@.len());
            assert("no_external_bridge"@.len() != "no_relay"@.len());
        },
        DeliveryPolicy::PrivateNetworkOnly => {
            assert("private_network_only"@.len() != "best_effort"@.len());
            assert("private_network_only"@.len() != "durable"@.len());
            assert("private_network_only"@.len() != "urgent"@.len());
            assert("private_network_only"@.len() != "expiring"@.len());
            assert("private_network_only"@.len() != "local_only"@.len());
            assert("private_network_only"@.len() != "direct_only"@.len());
            assert("private_network_only"@.len() != "no_relay"@.len());
            assert("private_network_only"@.len() != "no_external_bridge"@.len());
        },
    }
}

/// How new members join a public group.
#[derive(Clone, Copy, PartialEq, Eq, Debug, Structural)]
pub enum PublicGroupJoinPolicy {
    Open,
    ApprovalRequired,
    InviteOnly,
}

/// The text stored for a join policy.
pub open spec fn join_policy_text(value: PublicGroupJoinPolicy) -> Seq<char> {
    match value {
        PublicGroupJoinPolicy::Open => "open"@,
        PublicGroupJoinPolicy::ApprovalRequired => "approval_required"@,
        PublicGroupJoinPolicy::InviteOnly => "invite_only"@,
    }
}

/// The join policy that a stored text names, if any.
pub open spec fn join_policy_from_text(text: Seq<char>) -> Option<PublicGroupJoinPolicy> {
    if text == "open"@ {
        Some(PublicGroupJoinPolicy::Open)
    } else if text == "approval_required"@ {
        Some(PublicGroupJoinPolicy::ApprovalRequired)
    } else if text == "invite_only"@ {
        Some(PublicGroupJoinPolicy::InviteOnly)
    } else {
        None
    }
}

/// The text stored for a join policy.
pub fn join_policy_name(value: PublicGroupJoinPolicy) -> (r: &'static str)
    ensures
        r@ == join_policy_text(value),
{
    match value {
        PublicGroupJoinPolicy::Open => "open",
        PublicGroupJoinPolicy::ApprovalRequired => "approval_required",
        PublicGroupJoinPolicy::InviteOnly => "invite_only",
    }
}

/// Reads a stored join policy; unrecognised text is corrupt.
pub fn parse_join_policy(value: &str) -> (r: Result<PublicGroupJoinPolicy, DurableStoreError>)
    ensures
        r == or_corrupt(join_policy_from_text(value@)),
{
    if text_eq(value, "open") {
        Ok(PublicGroupJoinPolicy::Open)
    } else if text_eq(value, "approval_required") {
        Ok(PublicGroupJoinPolicy::ApprovalRequired)
    } else if text_eq(value, "invite_only") {
        Ok(PublicGroupJoinPolicy::InviteOnly)
    } else {
        Err(DurableStoreError::Corrupt)
    }
}

/// Every join policy reads back unchanged from the text stored for it.
pub proof fn lemma_join_policy_text_round_trip(value: PublicGroupJoinPolicy)
    ensures
        join_policy_from_text(join_policy_text(value)) == Some(value),
{
    reveal_strlit("open");
    reveal_strlit("approval_required");
    reveal_strlit("invite_only");
    match value {
        PublicGroupJoinPolicy::Open => {
        },
        PublicGroupJoinPolicy::ApprovalRequired => {
            assert("approval_required"@.len() != "open"@.len());
        },
        PublicGroupJoinPolicy::InviteOnly => {
            assert("invite_only"@.len() != "open"@.len());
            assert("invite_only"@.len() != "approval_required"@.len());
        },
    }
}

/// Whether a public group can be discovered.
#[derive(Clone, Copy, PartialEq, Eq, Debug, Structural)]
pub enum PublicGroupDiscovery {
    Unlisted,
    Discoverable,
}

/// The text stored for a discovery.
pub open spec fn discovery_text(value: PublicGroupDiscovery) -> Seq<char> {
    match value {
        PublicGroupDiscovery::Unlisted => "unlisted"@,
        PublicGroupDiscovery::Discoverable => "discoverable"@,
    }
}

/// The discovery that a stored text names, if any.
pub open spec fn discovery_from_text(text: Seq<char>) -> Option<PublicGroupDiscovery> {
    if text == "unlisted"@ {
        Some(PublicGroupDiscovery::Unlisted)
    } else if text == "discoverable"@ {
        Some(PublicGroupDiscovery::Discoverable)
    } else {
        None
    }
}

/// The text stored for a discovery.
pub fn discovery_name(value: PublicGroupDiscovery) -> (r: &'static str)
    ensures
        r@ == discovery_text(value),
{
    match value {
        PublicGroupDiscovery::Unlisted => "unlisted",
        PublicGroupDiscovery::Discoverable => "discoverable",
    }
}

/// Reads a stored discovery; unrecognised text is corrupt.
pub fn parse_discovery(value: &str) -> (r: Result<PublicGroupDiscovery, DurableStoreError>)
    ensures
        r == or_corrupt(discovery_from_text(value@)),
{
    if text_eq(value, "unlisted") {
        Ok(PublicGroupDiscovery::Unlisted)
    } else if text_eq(value, "discoverable") {
        Ok(PublicGroupDiscovery::Discoverable)
    } else {
        Err(DurableStoreError::Corrupt)
    }
}

/// Every discovery reads back unchanged from the text stored for it.
pub proof fn lemma_discovery_text_round_trip(value: PublicGroupDiscovery)
    ensures
        discovery_from_text(discovery_text(value)) == Some(value),
{
    reveal_strlit("unlisted");
    reveal_strlit("discoverable");
    match value {
        PublicGroupDiscovery::Unlisted => {
        },
        PublicGroupDiscovery::Discoverable => {
            assert("discoverable"@.len() != "unlisted"@.len());
        },
    }
}


/// Which past messages a group member may read.
#[derive(Clone, Debug)]
pub enum GroupHistoryPolicy {
    NoHistory,
    FromJoin,
    LastNMessages(u32),
    FromTimestamp(i64),
    FullHistory,
    CustomPolicy(String),
}

/// The mathematical content of a [`GroupHistoryPolicy`].
pub enum HistoryView {
    NoHistory,
    FromJoin,
    LastNMessages(u32),
    FromTimestamp(i64),
    FullHistory,
    CustomPolicy(Seq<char>),
}

impl View for GroupHistoryPolicy {
    type V = HistoryView;

    open spec fn view(&self) -> HistoryView {
        match self {
            GroupHistoryPolicy::NoHistory => HistoryView::NoHistory,
            GroupHistoryPolicy::FromJoin => HistoryView::FromJoin,
            GroupHistoryPolicy::LastNMessages(n) => HistoryView::LastNMessages(*n),
            GroupHistoryPolicy::FromTimestamp(t) => HistoryView::FromTimestamp(*t),
            GroupHistoryPolicy::FullHistory => HistoryView::FullHistory,
            GroupHistoryPolicy::CustomPolicy(c) => HistoryView::CustomPolicy(c@),
        }
    }
}

/// The `(kind, value, custom)` columns stored for a history policy.
pub open spec fn spec_history_columns(policy: HistoryView) -> (Seq<char>, Option<i64>, Option<Seq<char>>) {
    match policy {
        HistoryView::NoHistory => ("none"@, None, None),
        HistoryView::FromJoin => ("from_join"@, None, None),
        HistoryView::LastNMessages(n) => ("last_n"@, Some(n as i64), None),
        HistoryView::FromTimestamp(t) => ("from_timestamp"@, Some(t), None),
        HistoryView::FullHistory => ("full"@, None, None),
        HistoryView::CustomPolicy(c) => ("custom"@, None, Some(c)),
    }
}

/// The history policy read back from its stored columns; columns that do not fit
/// the kind are corrupt.
pub open spec fn spec_decode_history(kind: Seq<char>, value: Option<i64>, custom: Option<Seq<char>>) -> Result<
    HistoryView,
    DurableStoreError,
> {
    if kind == "none"@ && value is None && custom is None {
        Ok(HistoryView::NoHistory)
    } else if kind == "from_join"@ && value is None && custom is None {
        Ok(HistoryView::FromJoin)
    } else if kind == "last_n"@ && custom is None {
        match value {
            Some(v) => if 0 <= v <= u32::MAX {
                Ok(HistoryView::LastNMessages(v as u32))
            } else {
                Err(DurableStoreError::Corrupt)
            },
            None => Err(DurableStoreError::Corrupt),
        }
    } else if kind == "from_timestamp"@ && custom is None {
        match value {
            Some(v) => Ok(HistoryView::FromTimestamp(v)),
            None => Err(DurableStoreError::Corrupt),
        }
    } else if kind == "full"@ && value is None && custom is None {
        Ok(HistoryView::FullHistory)
    } else if kind == "custom"@ && value is None {
        match custom {
            Some(c) => Ok(HistoryView::CustomPolicy(c)),
            None => Err(DurableStoreError::Corrupt),
        }
    } else {
        Err(DurableStoreError::Corrupt)
    }
}

/// The columns stored for a history policy.
pub fn encode_history(value: &GroupHistoryPolicy) -> (r: (&'static str, Option<i64>, Option<&str>))
    ensures
        (r.0@, r.1, match r.2 {
            Some(c) => Some(c@),
            None => None,
        }) == spec_history_columns(value@),
{
    match value {
        GroupHistoryPolicy::NoHistory => ("none", None, None),
        GroupHistoryPolicy::FromJoin => ("from_join", None, None),
        GroupHistoryPolicy::LastNMessages(count) => ("last_n", Some(*count as i64), None),
        GroupHistoryPolicy::FromTimestamp(value) => ("from_timestamp", Some(*value), None),
        GroupHistoryPolicy::FullHistory => ("full", None, None),
        GroupHistoryPolicy::CustomPolicy(value) => ("custom", None, Some(value.as_str())),
    }
}

/// Reads a history policy back from its stored columns.
pub fn decode_history(kind: &str, value: Option<i64>, custom: Option<String>) -> (r: Result<
    GroupHistoryPolicy,
    DurableStoreError,
>)
    ensures
        match (
            r,
            spec_decode_history(
                kind@,
                value,
                match custom {
                    Some(c) => Some(c@),
                    None => None,
                },
            ),
        ) {
            (Ok(p), Ok(v)) => p@ == v,
            (Err(e), Err(f)) => e == f,
            _ => false,
        },
{
    if text_eq(kind, "none") && value.is_none() && custom.is_none() {
        Ok(GroupHistoryPolicy::NoHistory)
    } else if text_eq(kind, "from_join") && value.is_none() && custom.is_none() {
        Ok(GroupHistoryPolicy::FromJoin)
    } else if text_eq(kind, "last_n") && custom.is_none() {
        match value {
            Some(v) => {
                if 0 <= v && v <= u32::MAX as i64 {
                    Ok(GroupHistoryPolicy::LastNMessages(v as u32))
                } else {
                    Err(DurableStoreError::Corrupt)
                }
            },
            None => Err(DurableStoreError::Corrupt),
        }
    } else if text_eq(kind, "from_timestamp") && custom.is_none() {
        match value {
            Some(v) => Ok(GroupHistoryPolicy::FromTimestamp(v)),
            None => Err(DurableStoreError::Corrupt),
        }
    } else if text_eq(kind, "full") && value.is_none() && custom.is_none() {
        Ok(GroupHistoryPolicy::FullHistory)
    } else if text_eq(kind, "custom") && value.is_none() {
        match custom {
            Some(c) => Ok(GroupHistoryPolicy::CustomPolicy(c)),
            None => Err(DurableStoreError::Corrupt),
        }
    } else {
        Err(DurableStoreError::Corrupt)
    }
}

/// Every history policy reads back unchanged from the columns stored for it.
pub proof fn lemma_history_round_trip(policy: HistoryView)
    ensures
        spec_decode_history(
            spec_history_columns(policy).0,
            spec_history_columns(policy).1,
            spec_history_columns(policy).2,
        ) == Ok::<HistoryView, DurableStoreError>(policy),
{
    reveal_strlit("none");
    reveal_strlit("from_join");
    reveal_strlit("last_n");
    reveal_strlit("from_timestamp");
    reveal_strlit("full");
    reveal_strlit("custom");
    match policy {
        HistoryView::NoHistory => {},
        HistoryView::FromJoin => {
            assert("from_join"@.len() != "none"@.len());
        },
        HistoryView::LastNMessages(n) => {
            assert("last_n"@.len() != "none"@.len());
            assert("last_n"@.len() != "from_join"@.len());
        },
        HistoryView::FromTimestamp(t) => {
            assert("from_timestamp"@.len() != "none"@.len());
            assert("from_timestamp"@.len() != "from_join"@.len());
            assert("from_timestamp"@.len() != "last_n"@.len());
        },
        HistoryView::FullHistory => {
            assert("full"@[0] != "none"@[0]);
            assert("full"@.len() != "from_join"@.len());
            assert("full"@.len() != "last_n"@.len());
            assert("full"@.len() != "from_timestamp"@.len());
        },
        HistoryView::CustomPolicy(c) => {
            assert("custom"@.len() != "none"@.len());
            assert("custom"@.len() != "from_join"@.len());
            assert("custom"@[0] != "last_n"@[0]);
            assert("custom"@.len() != "from_timestamp"@.len());
            assert("custom"@.len() != "full"@.len());
        },
    }
}

/// Whether a member may read a message under the group's history policy: never
/// below the member's history floor, and never under a timestamp or custom policy,
/// whose message times the store does not trust.
pub open spec fn spec_history_allows(policy: HistoryView, history_floor: u64, message_order: u64) -> bool {
    if message_order < history_floor {
        false
    } else {
        match policy {
            HistoryView::FromTimestamp(_) | HistoryView::CustomPolicy(_) => false,
            _ => true,
        }
    }
}

/// Decides whether a member may read a message with the given logical order.
pub fn history_allows(policy: &GroupHistoryPolicy, history_floor: u64, message_order: u64) -> (r:
    bool)
    ensures
        r == spec_history_allows(policy@, history_floor, message_order),
{
    if message_order < history_floor {
        return false;
    }
    match policy {
        GroupHistoryPolicy::FromTimestamp(_) | GroupHistoryPolicy::CustomPolicy(_) => false,
        _ => true,
    }
}

/// What a new member's history floor is derived from.
#[derive(Clone, Copy, PartialEq, Eq, Debug, Structural)]
pub enum HistoryFloorSource {
    /// The floor is 0: all history is in scope.
    Zero,
    /// The floor is the largest logical order: nothing is readable.
    Closed,
    /// The floor is just above the conversation's latest message.
    AfterLatest,
    /// The floor is derived from the `n`-th latest message.
    LastN(u32),
}

/// Where the history floor of a member added under `policy` comes from.
pub open spec fn spec_history_floor_source(policy: HistoryView) -> HistoryFloorSource {
    match policy {
        HistoryView::FullHistory | HistoryView::FromTimestamp(_) => HistoryFloorSource::Zero,
        HistoryView::NoHistory | HistoryView::FromJoin => HistoryFloorSource::AfterLatest,
        HistoryView::LastNMessages(n) => HistoryFloorSource::LastN(n),
        HistoryView::CustomPolicy(_) => HistoryFloorSource::Closed,
    }
}

/// Where the history floor of a member added under `policy` comes from.
pub fn history_floor_source(policy: &GroupHistoryPolicy) -> (r: HistoryFloorSource)
    ensures
        r == spec_history_floor_source(policy@),
{
    match policy {
        GroupHistoryPolicy::FullHistory | GroupHistoryPolicy::FromTimestamp(_) => HistoryFloorSource::Zero,
        GroupHistoryPolicy::NoHistory | GroupHistoryPolicy::FromJoin => HistoryFloorSource::AfterLatest,
        GroupHistoryPolicy::LastNMessages(n) => HistoryFloorSource::LastN(*n),
        GroupHistoryPolicy::CustomPolicy(_) => HistoryFloorSource::Closed,
    }
}

/// The floor of a member that sees only messages after joining: just above the
/// conversation's latest logical order, or 0 for an empty conversation.
pub fn floor_after_latest(latest_order: Option<u64>) -> (r: Result<u64, DurableStoreError>)
    ensures
        r == match latest_order {
            None => Ok::<u64, DurableStoreError>(0),
            Some(o) => if o < u64::MAX {
                Ok::<u64, DurableStoreError>((o + 1) as u64)
            } else {
                Err::<u64, DurableStoreError>(DurableStoreError::InvalidRecord)
            },
        },
{
    match latest_order {
        None => Ok(0),
        Some(o) => {
            if o == u64::MAX {
                Err(DurableStoreError::InvalidRecord)
            } else {
                Ok(o + 1)
            }
        },
    }
}

/// The floor of a member that may see the last `count` messages, from the logical
/// order `cutoff` of the `count`-th latest message and the number of messages at or
/// above it. When ties at the cutoff would reveal more than `count` messages the
/// floor moves above the cutoff, so the member never sees more than `count`.
pub open spec fn spec_floor_for_last_n(count: u32, cutoff: Option<u64>, visible_at_or_above: i64) -> Result<
    u64,
    DurableStoreError,
> {
    match cutoff {
        None => Ok(0),
        Some(c) => if visible_at_or_above > count {
            if c == u64::MAX {
                Err(DurableStoreError::InvalidRecord)
            } else {
                Ok((c + 1) as u64)
            }
        } else {
            Ok(c)
        },
    }
}

/// Decides the floor of a member added under a last-`count` policy.
pub fn floor_for_last_n(count: u32, cutoff: Option<u64>, visible_at_or_above: i64) -> (r: Result<
    u64,
    DurableStoreError,
>)
    ensures
        r == spec_floor_for_last_n(count, cutoff, visible_at_or_above),
{
    match cutoff {
        None => Ok(0),
        Some(c) => {
            if visible_at_or_above > count as i64 {
                if c == u64::MAX {
                    Err(DurableStoreError::InvalidRecord)
                } else {
                    Ok(c + 1)
                }
            } else {
                Ok(c)
            }
        },
    }
}

/// The history floor of a member added under `policy`: 0 for full or
/// timestamp-bounded history, the largest logical order for a custom policy (so
/// that nothing is readable), just above the latest message for no or from-join
/// history, and from the `count`-th latest message for a last-`count` policy.
/// `latest_order` is the latest message's logical order; `cutoff` the logical
/// order of the `count`-th latest message and `visible_at_or_above` the number of
/// messages at or above it.
pub open spec fn spec_history_floor_for_add(
    policy: HistoryView,
    latest_order: Option<u64>,
    cutoff: Option<u64>,
    visible_at_or_above: i64,
) -> Result<u64, DurableStoreError> {
    match spec_history_floor_source(policy) {
        HistoryFloorSource::Zero => Ok(0),
        HistoryFloorSource::Closed => Ok(u64::MAX),
        HistoryFloorSource::AfterLatest => match latest_order {
            None => Ok(0),
            Some(o) => if o < u64::MAX {
                Ok((o + 1) as u64)
            } else {
                Err(DurableStoreError::InvalidRecord)
            },
        },
        HistoryFloorSource::LastN(count) => spec_floor_for_last_n(count, cutoff, visible_at_or_above),
    }
}

/// Decides the history floor of a member added under `policy`.
pub fn history_floor_for_add(
    policy: &GroupHistoryPolicy,
    latest_order: Option<u64>,
    cutoff: Option<u64>,
    visible_at_or_above: i64,
) -> (r: Result<u64, DurableStoreError>)
    ensures
        r == spec_history_floor_for_add(policy@, latest_order, cutoff, visible_at_or_above),
{
    match history_floor_source(policy) {
        HistoryFloorSource::Zero => Ok(0),
        HistoryFloorSource::Closed => Ok(u64::MAX),
        HistoryFloorSource::AfterLatest => floor_after_latest(latest_order),
        HistoryFloorSource::LastN(count) => floor_for_last_n(count, cutoff, visible_at_or_above),
    }
}

/// The number of messages, given by their logical orders, at or above `floor`.
pub open spec fn count_at_or_above(orders: Seq<u64>, floor: u64) -> nat {
    orders.filter(|m: u64| m >= floor).len()
}

/// The number of messages, given by their logical orders, strictly above `cutoff`.
pub open spec fn count_above(orders: Seq<u64>, cutoff: u64) -> nat {
    orders.filter(|m: u64| m > cutoff).len()
}

/// A last-`n` policy never discloses more than `n` messages: when `cutoff` is the
/// `n`-th latest message (at most `n` messages lie strictly above it), or there is
/// none because the conversation holds at most `n` messages, the floor derived
/// from it leaves at most `n` messages at or above it.
pub proof fn lemma_last_n_floor_discloses_at_most_n(orders: Seq<u64>, n: u32, cutoff: Option<u64>)
    requires
        orders.len() <= i64::MAX,
        match cutoff {
            None => orders.len() <= n,
            Some(c) => count_above(orders, c) <= n,
        },
    ensures
        spec_floor_for_last_n(
            n,
            cutoff,
            count_at_or_above(orders, cutoff.unwrap_or(0)) as i64,
        ) matches Ok(f) ==> count_at_or_above(orders, f) <= n,
{
    lemma_filter_len_bound(orders, |m: u64| m >= cutoff.unwrap_or(0));
    match cutoff {
        None => {
            assert(orders.filter(|m: u64| m >= 0u64) =~= orders) by {
                lemma_filter_all(orders, |m: u64| m >= 0u64);
            }
        },
        Some(c) => {
            if c < u64::MAX {
                let above = |m: u64| m > c;
                let from_next = |m: u64| m >= (c + 1) as u64;
                assert(above =~= from_next);
            }
        },
    }
}

/// A filter keeps at most every element.
proof fn lemma_filter_len_bound(s: Seq<u64>, p: spec_fn(u64) -> bool)
    ensures
        s.filter(p).len() <= s.len(),
    decreases s.len(),
{
    reveal(Seq::filter);
    if s.len() > 0 {
        lemma_filter_len_bound(s.drop_last(), p);
    }
}

/// A filter that keeps every element keeps the sequence.
proof fn lemma_filter_all(s: Seq<u64>, p: spec_fn(u64) -> bool)
    requires
        forall|x: u64| #[trigger] p(x),
    ensures
        s.filter(p) == s,
    decreases s.len(),
{
    reveal(Seq::filter);
    if s.len() > 0 {
        lemma_filter_all(s.drop_last(), p);
        assert(s.drop_last().push(s.last()) =~= s);
    }
}

/// The row offset of the `count`-th latest message for a last-`count` policy.
pub fn last_n_offset(count: u32) -> (r: i64)
    ensures
        r == (if count == 0 { 0 } else { count - 1 }),
{
    if count == 0 {
        0
    } else {
        (count - 1) as i64
    }
}

/// How a group is owned.
#[derive(Clone, Debug)]
pub enum GroupOwnership {
    PersonOwned(PrincipalRef),
    OrganizationOwned(PrincipalRef),
    SharedAdmin,
    OwnerlessFederated,
    Temporary { owner: Option<PrincipalRef>, expires_at_unix_ms: i64 },
}

/// The mathematical content of a [`GroupOwnership`].
pub enum OwnershipView {
    PersonOwned(PrincipalView),
    OrganizationOwned(PrincipalView),
    SharedAdmin,
    OwnerlessFederated,
    Temporary { owner: Option<PrincipalView>, expires_at_unix_ms: i64 },
}

impl View for GroupOwnership {
    type V = OwnershipView;

    open spec fn view(&self) -> OwnershipView {
        match self {
            GroupOwnership::PersonOwned(p) => OwnershipView::PersonOwned(p@),
            GroupOwnership::OrganizationOwned(p) => OwnershipView::OrganizationOwned(p@),
            GroupOwnership::SharedAdmin => OwnershipView::SharedAdmin,
            GroupOwnership::OwnerlessFederated => OwnershipView::OwnerlessFederated,
            GroupOwnership::Temporary { owner, expires_at_unix_ms } => OwnershipView::Temporary {
                owner: match owner {
                    Some(p) => Some(p@),
                    None => None,
                },
                expires_at_unix_ms: *expires_at_unix_ms,
            },
        }
    }
}

/// The `(kind, owner id, owner kind, expiry)` columns stored for an ownership.
pub open spec fn spec_ownership_columns(value: OwnershipView) -> (
    Seq<char>,
    Option<Seq<char>>,
    Option<Seq<char>>,
    Option<i64>,
) {
    match value {
        OwnershipView::PersonOwned(o) => (
            "person"@,
            Some(o.principal_id),
            Some(principal_kind_text(o.kind)),
            None,
        ),
        OwnershipView::OrganizationOwned(o) => (
            "organization"@,
            Some(o.principal_id),
            Some(principal_kind_text(o.kind)),
            None,
        ),
        OwnershipView::SharedAdmin => ("shared_admin"@, None, None, None),
        OwnershipView::OwnerlessFederated => ("ownerless_federated"@, None, None, None),
        OwnershipView::Temporary { owner, expires_at_unix_ms } => (
            "temporary"@,
            match owner {
                Some(o) => Some(o.principal_id),
                None => None,
            },
            match owner {
                Some(o) => Some(principal_kind_text(o.kind)),
                None => None,
            },
            Some(expires_at_unix_ms),
        ),
    }
}

/// The optional owner read back from its id and kind columns: both or neither.
pub open spec fn spec_decode_owner(id: Option<Seq<char>>, kind: Option<Seq<char>>) -> Result<
    Option<PrincipalView>,
    DurableStoreError,
> {
    match (id, kind) {
        (None, None) => Ok(None),
        (Some(i), Some(k)) => match principal_kind_from_text(k) {
            Some(pk) => Ok(Some(PrincipalView { principal_id: i, kind: pk })),
            None => Err(DurableStoreError::Corrupt),
        },
        _ => Err(DurableStoreError::Corrupt),
    }
}

/// The ownership read back from its stored columns; columns that do not fit the
/// kind are corrupt.
pub open spec fn spec_decode_ownership(
    kind: Seq<char>,
    id: Option<Seq<char>>,
    owner_kind: Option<Seq<char>>,
    expires: Option<i64>,
) -> Result<OwnershipView, DurableStoreError> {
    match spec_decode_owner(id, owner_kind) {
        Err(e) => Err(e),
        Ok(owner) => if kind == "person"@ {
            match owner {
                Some(o) => Ok(OwnershipView::PersonOwned(o)),
                None => Err(DurableStoreError::Corrupt),
            }
        } else if kind == "organization"@ {
            match owner {
                Some(o) => Ok(OwnershipView::OrganizationOwned(o)),
                None => Err(DurableStoreError::Corrupt),
            }
        } else if kind == "shared_admin"@ && owner is None && expires is None {
            Ok(OwnershipView::SharedAdmin)
        } else if kind == "ownerless_federated"@ && owner is None && expires is None {
            Ok(OwnershipView::OwnerlessFederated)
        } else if kind == "temporary"@ {
            match expires {
                Some(e) => Ok(OwnershipView::Temporary { owner, expires_at_unix_ms: e }),
                None => Err(DurableStoreError::Corrupt),
            }
        } else {
            Err(DurableStoreError::Corrupt)
        },
    }
}

/// The columns stored for a group ownership.
pub fn encode_ownership(value: &GroupOwnership) -> (r: (
    &'static str,
    Option<&str>,
    Option<&'static str>,
    Option<i64>,
))
    ensures
        (
            r.0@,
            match r.1 {
                Some(i) => Some(i@),
                None => None,
            },
            match r.2 {
                Some(k) => Some(k@),
                None => None,
            },
            r.3,
        ) == spec_ownership_columns(value@),
{
    match value {
        GroupOwnership::PersonOwned(owner) => (
            "person",
            Some(owner.principal_id.as_str()),
            Some(principal_kind_name(owner.kind)),
            None,
        ),
        GroupOwnership::OrganizationOwned(owner) => (
            "organization",
            Some(owner.principal_id.as_str()),
            Some(principal_kind_name(owner.kind)),
            None,
        ),
        GroupOwnership::SharedAdmin => ("shared_admin", None, None, None),
        GroupOwnership::OwnerlessFederated => ("ownerless_federated", None, None, None),
        GroupOwnership::Temporary { owner, expires_at_unix_ms } => (
            "temporary",
            match owner {
                Some(v) => Some(v.principal_id.as_str()),
                None => None,
            },
            match owner {
                Some(v) => Some(principal_kind_name(v.kind)),
                None => None,
            },
            Some(*expires_at_unix_ms),
        ),
    }
}

/// Reads a group ownership back from its stored columns.
pub fn decode_ownership(
    kind: &str,
    id: Option<String>,
    principal_kind: Option<String>,
    expires: Option<i64>,
) -> (r: Result<GroupOwnership, DurableStoreError>)
    ensures
        match (
            r,
            spec_decode_ownership(
                kind@,
                match id {
                    Some(i) => Some(i@),
                    None => None,
                },
                match principal_kind {
                    Some(k) => Some(k@),
                    None => None,
                },
                expires,
            ),
        ) {
            (Ok(o), Ok(v)) => o@ == v,
            (Err(e), Err(f)) => e == f,
            _ => false,
        },
{
    let owner = match (id, principal_kind) {
        (None, None) => None,
        (Some(id), Some(k)) => {
            let kind = parse_principal_kind(k.as_str())?;
            Some(PrincipalRef { principal_id: id, kind })
        },
        _ => {
            return Err(DurableStoreError::Corrupt);
        },
    };
    if text_eq(kind, "person") {
        match owner {
            Some(o) => Ok(GroupOwnership::PersonOwned(o)),
            None => Err(DurableStoreError::Corrupt),
        }
    } else if text_eq(kind, "organization") {
        match owner {
            Some(o) => Ok(GroupOwnership::OrganizationOwned(o)),
            None => Err(DurableStoreError::Corrupt),
        }
    } else if text_eq(kind, "shared_admin") && owner.is_none() && expires.is_none() {
        Ok(GroupOwnership::SharedAdmin)
    } else if text_eq(kind, "ownerless_federated") && owner.is_none() && expires.is_none() {
        Ok(GroupOwnership::OwnerlessFederated)
    } else if text_eq(kind, "temporary") {
        match expires {
            Some(e) => Ok(GroupOwnership::Temporary { owner, expires_at_unix_ms: e }),
            None => Err(DurableStoreError::Corrupt),
        }
    } else {
        Err(DurableStoreError::Corrupt)
    }
}

/// Every group ownership reads back unchanged from the columns stored for it.
pub proof fn lemma_ownership_round_trip(value: OwnershipView)
    ensures
        spec_decode_ownership(
            spec_ownership_columns(value).0,
            spec_ownership_columns(value).1,
            spec_ownership_columns(value).2,
            spec_ownership_columns(value).3,
        ) == Ok::<OwnershipView, DurableStoreError>(value),
{
    reveal_strlit("person");
    reveal_strlit("organization");
    reveal_strlit("shared_admin");
    reveal_strlit("ownerless_federated");
    reveal_strlit("temporary");
    match value {
        OwnershipView::PersonOwned(o) => {
            lemma_principal_kind_text_round_trip(o.kind);
        },
        OwnershipView::OrganizationOwned(o) => {
            lemma_principal_kind_text_round_trip(o.kind);
            assert("organization"@.len() != "person"@.len());
        },
        OwnershipView::SharedAdmin => {
            assert("shared_admin"@.len() != "person"@.len());
            assert("shared_admin"@[0] != "organization"@[0]);
        },
        OwnershipView::OwnerlessFederated => {
            assert("ownerless_federated"@.len() != "person"@.len());
            assert("ownerless_federated"@.len() != "organization"@.len());
            assert("ownerless_federated"@.len() != "shared_admin"@.len());
        },
        OwnershipView::Temporary { owner, expires_at_unix_ms } => {
            if let Some(o) = owner {
                lemma_principal_kind_text_round_trip(o.kind);
            }
            assert("temporary"@.len() != "person"@.len());
            assert("temporary"@.len() != "organization"@.len());
            assert("temporary"@.len() != "shared_admin"@.len());
            assert("temporary"@.len() != "ownerless_federated"@.len());
        },
    }
}

/// The settings of a public group.
#[derive(Clone, Copy, PartialEq, Eq, Debug, Structural)]
pub struct PublicGroupPolicy {
    pub join_policy: PublicGroupJoinPolicy,
    pub discovery: PublicGroupDiscovery,
    pub indexed: bool,
}

/// The `(join, discovery, indexed)` columns stored for an optional public policy.
pub open spec fn spec_public_policy_columns(value: Option<PublicGroupPolicy>) -> (
    Option<Seq<char>>,
    Option<Seq<char>>,
    Option<i64>,
) {
    match value {
        None => (None, None, None),
        Some(p) => (
            Some(join_policy_text(p.join_policy)),
            Some(discovery_text(p.discovery)),
            Some(if p.indexed { 1i64 } else { 0i64 }),
        ),
    }
}

/// The optional public policy read back from its columns: all null or all set.
pub open spec fn spec_decode_public_policy(
    join: Option<Seq<char>>,
    discovery: Option<Seq<char>>,
    indexed: Option<i64>,
) -> Result<Option<PublicGroupPolicy>, DurableStoreError> {
    match (join, discovery, indexed) {
        (None, None, None) => Ok(None),
        (Some(j), Some(d), Some(i)) => if i == 0 || i == 1 {
            match (join_policy_from_text(j), discovery_from_text(d)) {
                (Some(jp), Some(dp)) => Ok(
                    Some(PublicGroupPolicy { join_policy: jp, discovery: dp, indexed: i == 1 }),
                ),
                _ => Err(DurableStoreError::Corrupt),
            }
        } else {
            Err(DurableStoreError::Corrupt)
        },
        _ => Err(DurableStoreError::Corrupt),
    }
}

/// The columns stored for an optional public group policy.
pub fn encode_public_policy(value: Option<PublicGroupPolicy>) -> (r: (
    Option<&'static str>,
    Option<&'static str>,
    Option<i64>,
))
    ensures
        (
            match r.0 {
                Some(t) => Some(t@),
                None => None,
            },
            match r.1 {
                Some(t) => Some(t@),
                None => None,
            },
            r.2,
        ) == spec_public_policy_columns(value),
{
    match value {
        None => (None, None, None),
        Some(policy) => (
            Some(join_policy_name(policy.join_policy)),
            Some(discovery_name(policy.discovery)),
            Some(
                if policy.indexed {
                    1
                } else {
                    0
                },
            ),
        ),
    }
}

/// Reads an optional public group policy back from its stored columns.
pub fn decode_public_policy(join: Option<&str>, discovery: Option<&str>, indexed: Option<i64>) -> (r:
    Result<Option<PublicGroupPolicy>, DurableStoreError>)
    ensures
        r == spec_decode_public_policy(
            match join {
                Some(t) => Some(t@),
                None => None,
            },
            match discovery {
                Some(t) => Some(t@),
                None => None,
            },
            indexed,
        ),
{
    match (join, discovery, indexed) {
        (None, None, None) => Ok(None),
        (Some(join), Some(discovery), Some(indexed)) => {
            if indexed != 0 && indexed != 1 {
                return Err(DurableStoreError::Corrupt);
            }
            let join_policy = parse_join_policy(join)?;
            let discovery = parse_discovery(discovery)?;
            Ok(Some(PublicGroupPolicy { join_policy, discovery, indexed: indexed == 1 }))
        },
        _ => Err(DurableStoreError::Corrupt),
    }
}

/// Every optional public group policy reads back unchanged from its columns.
pub proof fn lemma_public_policy_round_trip(value: Option<PublicGroupPolicy>)
    ensures
        spec_decode_public_policy(
            spec_public_policy_columns(value).0,
            spec_public_policy_columns(value).1,
            spec_public_policy_columns(value).2,
        ) == Ok::<Option<PublicGroupPolicy>, DurableStoreError>(value),
{
    if let Some(p) = value {
        lemma_join_policy_text_round_trip(p.join_policy);
        lemma_discovery_text_round_trip(p.discovery);
    }
}

/// Errors of the group protocol.
#[derive(Clone, Copy, PartialEq, Eq, Debug, Structural)]
pub enum GroupError {
    PermissionDenied,
    RevisionMismatch,
    MemberAlreadyActive,
    MemberNotActive,
    InvalidRoleTransition,
    OwnershipTransferNotSupported,
    WouldOrphanGroup,
    TooManyMembers,
    /// Any other malformed group, membership or change.
    Other,
}

/// How a group protocol error is reported by the store.
pub open spec fn spec_map_group_error(error: GroupError) -> DurableStoreError {
    match error {
        GroupError::PermissionDenied => DurableStoreError::PermissionDenied,
        GroupError::RevisionMismatch | GroupError::MemberAlreadyActive
        | GroupError::MemberNotActive | GroupError::InvalidRoleTransition
        | GroupError::OwnershipTransferNotSupported
        | GroupError::WouldOrphanGroup => DurableStoreError::Conflict,
        GroupError::TooManyMembers => DurableStoreError::Full,
        GroupError::Other => DurableStoreError::InvalidRecord,
    }
}

/// Maps a group protocol error to the store error reported for it.
pub fn map_group_error(error: GroupError) -> (r: DurableStoreError)
    ensures
        r == spec_map_group_error(error),
{
    match error {
        GroupError::PermissionDenied => DurableStoreError::PermissionDenied,
        GroupError::RevisionMismatch | GroupError::MemberAlreadyActive
        | GroupError::MemberNotActive | GroupError::InvalidRoleTransition
        | GroupError::OwnershipTransferNotSupported
        | GroupError::WouldOrphanGroup => DurableStoreError::Conflict,
        GroupError::TooManyMembers => DurableStoreError::Full,
        GroupError::Other => DurableStoreError::InvalidRecord,
    }
}

/// A new group change may not reuse the id of an event already in the journal.
pub fn check_change_event_id_unused(event_id_taken: bool) -> (r: Result<(), DurableStoreError>)
    ensures
        !event_id_taken ==> r is Ok,
        event_id_taken ==> r == Err::<(), DurableStoreError>(DurableStoreError::Conflict),
{
    if event_id_taken {
        Err(DurableStoreError::Conflict)
    } else {
        Ok(())
    }
}

/// A group message must be in a group conversation, be freshly created or
/// persisted, belong to the poster's scope and name the poster as its origin.
pub open spec fn group_message_request_ok(
    kind: ConversationKind,
    state: DeliveryState,
    message_scope: TenantScope,
    subject_scope: TenantScope,
    origin: Option<Seq<char>>,
    subject: Seq<char>,
) -> Result<(), DurableStoreError> {
    if !spec_is_group_kind(kind) || !(state == DeliveryState::Created || state
        == DeliveryState::Persisted) {
        Err(DurableStoreError::InvalidRecord)
    } else if message_scope@ != subject_scope@ || origin != Some(subject) {
        Err(DurableStoreError::PermissionDenied)
    } else {
        Ok(())
    }
}

/// Checks a group message against its poster before the group is consulted.
pub fn check_group_message_request(
    kind: ConversationKind,
    state: DeliveryState,
    message_scope: &TenantScope,
    subject_scope: &TenantScope,
    origin: Option<&str>,
    subject: &str,
) -> (r: Result<(), DurableStoreError>)
    ensures
        r == group_message_request_ok(
            kind,
            state,
            *message_scope,
            *subject_scope,
            match origin {
                Some(o) => Some(o@),
                None => None,
            },
            subject@,
        ),
{
    let fresh = match state {
        DeliveryState::Created | DeliveryState::Persisted => true,
        _ => false,
    };
    if !is_group_kind(kind) || !fresh {
        return Err(DurableStoreError::InvalidRecord);
    }
    if !scope_eq(message_scope, subject_scope) {
        return Err(DurableStoreError::PermissionDenied);
    }
    match origin {
        Some(o) => {
            if text_eq(o, subject) {
                Ok(())
            } else {
                Err(DurableStoreError::PermissionDenied)
            }
        },
        None => Err(DurableStoreError::PermissionDenied),
    }
}

/// A member added under no-history or from-join history sees nothing stored before
/// it joined and everything after: its floor lies above the conversation's latest
/// logical order (0 for an empty conversation), so no message up to that order is
/// readable and every later one is.
pub proof fn lemma_join_floor_hides_earlier_messages(
    policy: HistoryView,
    latest_order: Option<u64>,
    cutoff: Option<u64>,
    visible_at_or_above: i64,
    message_order: u64,
)
    requires
        policy == HistoryView::NoHistory || policy == HistoryView::FromJoin,
    ensures
        latest_order is None ==> spec_history_floor_for_add(
            policy,
            latest_order,
            cutoff,
            visible_at_or_above,
        ) == Ok::<u64, DurableStoreError>(0),
        spec_history_floor_for_add(policy, latest_order, cutoff, visible_at_or_above) matches Ok(floor)
            ==> (latest_order matches Some(latest) ==> (floor > latest && (message_order <= latest
            ==> !spec_history_allows(policy, floor, message_order)) && (message_order > latest
            ==> spec_history_allows(policy, floor, message_order)))),
        latest_order == Some(u64::MAX) ==> spec_history_floor_for_add(
            policy,
            latest_order,
            cutoff,
            visible_at_or_above,
        ) == Err::<u64, DurableStoreError>(DurableStoreError::InvalidRecord),
{
}

} // verus!
