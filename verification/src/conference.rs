use vstd::prelude::*;
use crate::error::{DurableStoreError, or_corrupt};
use crate::text::text_eq;
use crate::codec::parse_bool;
use crate::journal::clone_opt_text;
use crate::principal::{parse_principal_kind, principal_kind_from_text, PrincipalRef, PrincipalView};
use crate::record::{WriteStep, spec_write_once_step, write_once_step};
use crate::scope::{scope_eq, ScopeView, TenantScope};

verus! {

/// Whether a conference join grant may be redeemed once or many times.
#[derive(Clone, Copy, PartialEq, Eq, Debug, Structural)]
pub enum ConferenceJoinGrantUsePolicy {
    SingleUse,
    Reusable,
}

/// The text stored for a grant use policy.
pub open spec fn grant_use_policy_text(value: ConferenceJoinGrantUsePolicy) -> Seq<char> {
    match value {
        ConferenceJoinGrantUsePolicy::SingleUse => "single_use"@,
        ConferenceJoinGrantUsePolicy::Reusable => "reusable"@,
    }
}

/// The grant use policy that a stored text names, if any.
pub open spec fn grant_use_policy_from_text(text: Seq<char>) -> Option<ConferenceJoinGrantUsePolicy> {
    if text == "single_use"@ {
        Some(ConferenceJoinGrantUsePolicy::SingleUse)
    } else if text == "reusable"@ {
        Some(ConferenceJoinGrantUsePolicy::Reusable)
    } else {
        None
    }
}

/// The text stored for a grant use policy.
pub fn use_policy_text(value: ConferenceJoinGrantUsePolicy) -> (r: &'static str)
    ensures
        r@ == grant_use_policy_text(value),
{
    match value {
        ConferenceJoinGrantUsePolicy::SingleUse => "single_use",
        ConferenceJoinGrantUsePolicy::Reusable => "reusable",
    }
}

/// Reads a stored grant use policy; unrecognised text is corrupt.
pub fn parse_use_policy(value: &str) -> (r: Result<ConferenceJoinGrantUsePolicy, DurableStoreError>)
    ensures
        r == or_corrupt(grant_use_policy_from_text(value@)),
{
    if text_eq(value, "single_use") {
        Ok(ConferenceJoinGrantUsePolicy::SingleUse)
    } else if text_eq(value, "reusable") {
        Ok(ConferenceJoinGrantUsePolicy::Reusable)
    } else {
        Err(DurableStoreError::Corrupt)
    }
}

/// Every grant use policy reads back unchanged from the text stored for it.
pub proof fn lemma_grant_use_policy_text_round_trip(value: ConferenceJoinGrantUsePolicy)
    ensures
        grant_use_policy_from_text(grant_use_policy_text(value)) == Some(value),
{
    reveal_strlit("single_use");
    reveal_strlit("reusable");
    match value {
        ConferenceJoinGrantUsePolicy::SingleUse => {
        },
        ConferenceJoinGrantUsePolicy::Reusable => {
            assert("reusable"@.len() != "single_use"@.len());
        },
    }
}


/// A grant that lets one participant device join one conference call.
#[derive(Clone, Debug)]
pub struct ConferenceJoinGrantRecord {
    pub scope: TenantScope,
    pub session_id: String,
    pub conference_id: String,
    pub integration_id: String,
    pub call_id: String,
    pub participant: PrincipalRef,
    pub device_id: String,
    pub issued_at_unix_ms: i64,
    pub not_before_unix_ms: i64,
    pub expires_at_unix_ms: i64,
    pub use_policy: ConferenceJoinGrantUsePolicy,
    pub revoked: bool,
    pub redeemed: bool,
}

/// The mathematical content of a [`ConferenceJoinGrantRecord`].
pub struct GrantView {
    pub scope: ScopeView,
    pub session_id: Seq<char>,
    pub conference_id: Seq<char>,
    pub integration_id: Seq<char>,
    pub call_id: Seq<char>,
    pub participant: PrincipalView,
    pub device_id: Seq<char>,
    pub issued_at_unix_ms: i64,
    pub not_before_unix_ms: i64,
    pub expires_at_unix_ms: i64,
    pub use_policy: ConferenceJoinGrantUsePolicy,
    pub revoked: bool,
    pub redeemed: bool,
}

impl View for ConferenceJoinGrantRecord {
    type V = GrantView;

    open spec fn view(&self) -> GrantView {
        GrantView {
            scope: self.scope@,
            session_id: self.session_id@,
            conference_id: self.conference_id@,
            integration_id: self.integration_id@,
            call_id: self.call_id@,
            participant: self.participant@,
            device_id: self.device_id@,
            issued_at_unix_ms: self.issued_at_unix_ms,
            not_before_unix_ms: self.not_before_unix_ms,
            expires_at_unix_ms: self.expires_at_unix_ms,
            use_policy: self.use_policy,
            revoked: self.revoked,
            redeemed: self.redeemed,
        }
    }
}

/// Whether two grants are equal in every field.
pub fn grant_eq(a: &ConferenceJoinGrantRecord, b: &ConferenceJoinGrantRecord) -> (r: bool)
    ensures
        r == (a@ == b@),
{
    scope_eq(&a.scope, &b.scope) && a.session_id == b.session_id && a.conference_id
        == b.conference_id && a.integration_id == b.integration_id && a.call_id == b.call_id
        && a.participant.kind == b.participant.kind && a.participant.principal_id
        == b.participant.principal_id && a.device_id == b.device_id && a.issued_at_unix_ms
        == b.issued_at_unix_ms && a.not_before_unix_ms == b.not_before_unix_ms
        && a.expires_at_unix_ms == b.expires_at_unix_ms && a.use_policy == b.use_policy
        && a.revoked == b.revoked && a.redeemed == b.redeemed
}

/// Whether a grant may be stored: issued at a non-negative time, valid from no
/// earlier than its issue, expiring strictly after it becomes valid, and neither
/// revoked nor redeemed yet.
pub open spec fn spec_grant_valid(grant: GrantView) -> bool {
    &&& grant.issued_at_unix_ms >= 0
    &&& grant.not_before_unix_ms >= grant.issued_at_unix_ms
    &&& grant.expires_at_unix_ms > grant.not_before_unix_ms
    &&& !grant.revoked
    &&& !grant.redeemed
}

/// Checks a grant before it is stored.
pub fn validate_grant(grant: &ConferenceJoinGrantRecord) -> (r: Result<(), DurableStoreError>)
    ensures
        spec_grant_valid(grant@) ==> r == Ok::<(), DurableStoreError>(()),
        !spec_grant_valid(grant@) ==> r == Err::<(), DurableStoreError>(
            DurableStoreError::InvalidRecord,
        ),
{
    if grant.issued_at_unix_ms < 0 || grant.not_before_unix_ms < grant.issued_at_unix_ms
        || grant.expires_at_unix_ms <= grant.not_before_unix_ms || grant.revoked || grant.redeemed {
        return Err(DurableStoreError::InvalidRecord);
    }
    Ok(())
}

/// Decides how to store a new grant: it must be valid, and grants are write-once
/// per scoped session id.
pub fn persist_grant_step(existing: Option<&ConferenceJoinGrantRecord>, grant: &ConferenceJoinGrantRecord) -> (r:
    Result<WriteStep, DurableStoreError>)
    ensures
        !spec_grant_valid(grant@) ==> r == Err::<WriteStep, DurableStoreError>(
            DurableStoreError::InvalidRecord,
        ),
        spec_grant_valid(grant@) ==> r == spec_write_once_step(
            match existing {
                Some(e) => Some(e@ == grant@),
                None => None,
            },
        ),
{
    validate_grant(grant)?;
    match existing {
        Some(e) => write_once_step(Some(grant_eq(e, grant))),
        None => write_once_step(None),
    }
}

/// The columns of a stored grant, as read.
#[derive(Clone, Debug)]
pub struct StoredGrantRow {
    pub conference_id: String,
    pub integration_id: String,
    pub call_id: String,
    pub participant_kind: String,
    pub participant_id: String,
    pub device_id: String,
    pub issued_at_unix_ms: i64,
    pub not_before_unix_ms: i64,
    pub expires_at_unix_ms: i64,
    pub use_policy: String,
    pub revoked: i64,
    pub redeemed: i64,
}

/// The grant read back from its columns: the principal kind, use policy and flags
/// must be recognised and the validity window must be well ordered.
pub open spec fn spec_decode_grant(scope: ScopeView, session_id: Seq<char>, row: StoredGrantRow) -> Result<
    GrantView,
    DurableStoreError,
> {
    match (
        principal_kind_from_text(row.participant_kind@),
        grant_use_policy_from_text(row.use_policy@),
    ) {
        (Some(kind), Some(policy)) => if (row.revoked == 0 || row.revoked == 1) && (row.redeemed
            == 0 || row.redeemed == 1) && row.not_before_unix_ms >= row.issued_at_unix_ms
            && row.expires_at_unix_ms > row.not_before_unix_ms {
            Ok(
                GrantView {
                    scope,
                    session_id,
                    conference_id: row.conference_id@,
                    integration_id: row.integration_id@,
                    call_id: row.call_id@,
                    participant: PrincipalView { principal_id: row.participant_id@, kind },
                    device_id: row.device_id@,
                    issued_at_unix_ms: row.issued_at_unix_ms,
                    not_before_unix_ms: row.not_before_unix_ms,
                    expires_at_unix_ms: row.expires_at_unix_ms,
                    use_policy: policy,
                    revoked: row.revoked == 1,
                    redeemed: row.redeemed == 1,
                },
            )
        } else {
            Err(DurableStoreError::Corrupt)
        },
        _ => Err(DurableStoreError::Corrupt),
    }
}

/// Rebuilds a stored grant from its columns; anything unrecognised or a
/// malformed validity window is corrupt.
pub fn decode_grant(scope: &TenantScope, session_id: &str, row: StoredGrantRow) -> (r: Result<
    ConferenceJoinGrantRecord,
    DurableStoreError,
>)
    ensures
        match (r, spec_decode_grant(scope@, session_id@, row)) {
            (Ok(g), Ok(v)) => g@ == v,
            (Err(e), Err(f)) => e == f,
            _ => false,
        },
{
    let kind = parse_principal_kind(row.participant_kind.as_str())?;
    let use_policy = parse_use_policy(row.use_policy.as_str())?;
    let revoked = parse_bool(row.revoked)?;
    let redeemed = parse_bool(row.redeemed)?;
    if row.not_before_unix_ms < row.issued_at_unix_ms || row.expires_at_unix_ms
        <= row.not_before_unix_ms {
        return Err(DurableStoreError::Corrupt);
    }
    Ok(
        ConferenceJoinGrantRecord {
            scope: TenantScope {
                tenant_id: scope.tenant_id.clone(),
                namespace_id: clone_opt_text(&scope.namespace_id),
            },
            session_id: session_id.to_owned(),
            conference_id: row.conference_id,
            integration_id: row.integration_id,
            call_id: row.call_id,
            participant: PrincipalRef { principal_id: row.participant_id, kind },
            device_id: row.device_id,
            issued_at_unix_ms: row.issued_at_unix_ms,
            not_before_unix_ms: row.not_before_unix_ms,
            expires_at_unix_ms: row.expires_at_unix_ms,
            use_policy,
            revoked,
            redeemed,
        },
    )
}

/// Revoking a grant: an unknown grant conflicts; otherwise the grant is revoked
/// (revoking again changes nothing).
pub open spec fn spec_revoke_grant(current: Option<GrantView>) -> Result<GrantView, DurableStoreError> {
    match current {
        None => Err(DurableStoreError::Conflict),
        Some(g) => Ok(GrantView { revoked: true, ..g }),
    }
}

/// Redeeming a grant: an unknown grant conflicts, a revoked one is refused, and a
/// single-use grant that was already redeemed conflicts; otherwise the grant is
/// marked redeemed.
pub open spec fn spec_redeem_grant(current: Option<GrantView>) -> Result<GrantView, DurableStoreError> {
    match current {
        None => Err(DurableStoreError::Conflict),
        Some(g) => if g.revoked {
            Err(DurableStoreError::PermissionDenied)
        } else if g.use_policy == ConferenceJoinGrantUsePolicy::SingleUse && g.redeemed {
            Err(DurableStoreError::Conflict)
        } else {
            Ok(GrantView { redeemed: true, ..g })
        },
    }
}

/// The grant after revocation, from the stored grant.
pub fn revoke_grant(current: Option<ConferenceJoinGrantRecord>) -> (r: Result<
    ConferenceJoinGrantRecord,
    DurableStoreError,
>)
    ensures
        match (r, spec_revoke_grant(
            match current {
                Some(g) => Some(g@),
                None => None,
            },
        )) {
            (Ok(g), Ok(v)) => g@ == v,
            (Err(e), Err(f)) => e == f,
            _ => false,
        },
{
    match current {
        None => Err(DurableStoreError::Conflict),
        Some(g) => Ok(ConferenceJoinGrantRecord { revoked: true, ..g }),
    }
}

/// The grant after redemption, from the stored grant.
pub fn redeem_grant(current: Option<ConferenceJoinGrantRecord>) -> (r: Result<
    ConferenceJoinGrantRecord,
    DurableStoreError,
>)
    ensures
        match (r, spec_redeem_grant(
            match current {
                Some(g) => Some(g@),
                None => None,
            },
        )) {
            (Ok(g), Ok(v)) => g@ == v,
            (Err(e), Err(f)) => e == f,
            _ => false,
        },
{
    match current {
        None => Err(DurableStoreError::Conflict),
        Some(g) => {
            if g.revoked {
                return Err(DurableStoreError::PermissionDenied);
            }
            if g.use_policy == ConferenceJoinGrantUsePolicy::SingleUse && g.redeemed {
                return Err(DurableStoreError::Conflict);
            }
            Ok(ConferenceJoinGrantRecord { redeemed: true, ..g })
        },
    }
}

/// Revocation is idempotent, and a revoked grant can never be redeemed.
pub proof fn lemma_revoked_grant_stays_unredeemable(current: Option<GrantView>)
    ensures
        spec_revoke_grant(current) matches Ok(g) ==> spec_revoke_grant(Some(g)) == Ok::<
            GrantView,
            DurableStoreError,
        >(g) && spec_redeem_grant(Some(g)) == Err::<GrantView, DurableStoreError>(
            DurableStoreError::PermissionDenied,
        ),
{
}

/// A single-use grant redeems at most once; a reusable grant redeems again and
/// again without changing.
pub proof fn lemma_grant_redemption_count(current: Option<GrantView>)
    ensures
        spec_redeem_grant(current) matches Ok(g) ==> (if g.use_policy
            == ConferenceJoinGrantUsePolicy::SingleUse {
            spec_redeem_grant(Some(g)) == Err::<GrantView, DurableStoreError>(
                DurableStoreError::Conflict,
            )
        } else {
            spec_redeem_grant(Some(g)) == Ok::<GrantView, DurableStoreError>(g)
        }),
{
}

/// A stored grant reads back from the columns written for it: the principal
/// kind, use policy and flags round-trip and a stored grant's window is well ordered.
pub proof fn lemma_grant_columns_round_trip(grant: GrantView, row: StoredGrantRow)
    requires
        spec_grant_valid(grant),
        row.conference_id@ == grant.conference_id,
        row.integration_id@ == grant.integration_id,
        row.call_id@ == grant.call_id,
        row.participant_kind@ == crate::principal::principal_kind_text(grant.participant.kind),
        row.participant_id@ == grant.participant.principal_id,
        row.device_id@ == grant.device_id,
        row.issued_at_unix_ms == grant.issued_at_unix_ms,
        row.not_before_unix_ms == grant.not_before_unix_ms,
        row.expires_at_unix_ms == grant.expires_at_unix_ms,
        row.use_policy@ == grant_use_policy_text(grant.use_policy),
        row.revoked == 0,
        row.redeemed == 0,
    ensures
        spec_decode_grant(grant.scope, grant.session_id, row) == Ok::<GrantView, DurableStoreError>(
            grant,
        ),
{
    crate::principal::lemma_principal_kind_text_round_trip(grant.participant.kind);
    lemma_grant_use_policy_text_round_trip(grant.use_policy);
}

} // verus!
