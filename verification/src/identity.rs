use vstd::prelude::*;
use crate::error::{DurableStoreError, or_corrupt};
use crate::journal::clone_opt_text;
use crate::record::{spec_write_once_step, write_once_step, WriteStep};
use crate::scope::{scope_eq, ScopeView, TenantScope};
use crate::text::{bytes_eq, text_eq};
use vstd::slice::slice_to_vec;

verus! {

/// Who manages an identity.
#[derive(Clone, Copy, PartialEq, Eq, Debug, Structural)]
pub enum IdentityOwnership {
    UcrNative,
    UserManaged,
    PlatformManaged,
    OrganizationManaged,
    Federated,
    Temporary,
}

/// The text stored for a identity ownership.
pub open spec fn identity_ownership_text(value: IdentityOwnership) -> Seq<char> {
    match value {
        IdentityOwnership::UcrNative => "ucr_native"@,
        IdentityOwnership::UserManaged => "user_managed"@,
        IdentityOwnership::PlatformManaged => "platform_managed"@,
        IdentityOwnership::OrganizationManaged => "organization_managed"@,
        IdentityOwnership::Federated => "federated"@,
        IdentityOwnership::Temporary => "temporary"@,
    }
}

/// The identity ownership that a stored text names, if any.
pub open spec fn identity_ownership_from_text(text: Seq<char>) -> Option<IdentityOwnership> {
    if text == "ucr_native"@ {
        Some(IdentityOwnership::UcrNative)
    } else if text == "user_managed"@ {
        Some(IdentityOwnership::UserManaged)
    } else if text == "platform_managed"@ {
        Some(IdentityOwnership::PlatformManaged)
    } else if text == "organization_managed"@ {
        Some(IdentityOwnership::OrganizationManaged)
    } else if text == "federated"@ {
        Some(IdentityOwnership::Federated)
    } else if text == "temporary"@ {
        Some(IdentityOwnership::Temporary)
    } else {
        None
    }
}

/// The text stored for a identity ownership.
pub fn encode_ownership(value: IdentityOwnership) -> (r: &'static str)
    ensures
        r@ == identity_ownership_text(value),
{
    match value {
        IdentityOwnership::UcrNative => "ucr_native",
        IdentityOwnership::UserManaged => "user_managed",
        IdentityOwnership::PlatformManaged => "platform_managed",
        IdentityOwnership::OrganizationManaged => "organization_managed",
        IdentityOwnership::Federated => "federated",
        IdentityOwnership::Temporary => "temporary",
    }
}

/// Reads a stored identity ownership; unrecognised text is corrupt.
pub fn decode_ownership(value: &str) -> (r: Result<IdentityOwnership, DurableStoreError>)
    ensures
        r == or_corrupt(identity_ownership_from_text(value@)),
{
    if text_eq(value, "ucr_native") {
        Ok(IdentityOwnership::UcrNative)
    } else if text_eq(value, "user_managed") {
        Ok(IdentityOwnership::UserManaged)
    } else if text_eq(value, "platform_managed") {
        Ok(IdentityOwnership::PlatformManaged)
    } else if text_eq(value, "organization_managed") {
        Ok(IdentityOwnership::OrganizationManaged)
    } else if text_eq(value, "federated") {
        Ok(IdentityOwnership::Federated)
    } else if text_eq(value, "temporary") {
        Ok(IdentityOwnership::Temporary)
    } else {
        Err(DurableStoreError::Corrupt)
    }
}

/// Every identity ownership reads back unchanged from the text stored for it.
pub proof fn lemma_identity_ownership_text_round_trip(value: IdentityOwnership)
    ensures
        identity_ownership_from_text(identity_ownership_text(value)) == Some(value),
{
    reveal_strlit("ucr_native");
    reveal_strlit("user_managed");
    reveal_strlit("platform_managed");
    reveal_strlit("organization_managed");
    reveal_strlit("federated");
    reveal_strlit("temporary");
    match value {
        IdentityOwnership::UcrNative => {
        },
        IdentityOwnership::UserManaged => {
            assert("user_managed"@.len() != "ucr_native"@.len());
        },
        IdentityOwnership::PlatformManaged => {
            assert("platform_managed"@.len() != "ucr_native"@.len());
            assert("platform_managed"@.len() != "user_managed"@.len());
        },
        IdentityOwnership::OrganizationManaged => {
            assert("organization_managed"@.len() != "ucr_native"@.len());
            assert("organization_managed"@.len() != "user_managed"@.len());
            assert("organization_managed"@.len() != "platform_managed"@.len());
        },
        IdentityOwnership::Federated => {
            assert("federated"@.len() != "ucr_native"@.len());
            assert("federated"@.len() != "user_managed"@.len());
            assert("federated"@.len() != "platform_managed"@.len());
            assert("federated"@.len() != "organization_managed"@.len());
        },
        IdentityOwnership::Temporary => {
            assert("temporary"@.len() != "ucr_native"@.len());
            assert("temporary"@.len() != "user_managed"@.len());
            assert("temporary"@.len() != "platform_managed"@.len());
            assert("temporary"@.len() != "organization_managed"@.len());
            assert("temporary"@[0] != "federated"@[0]);
        },
    }
}

/// How strongly an identity has been verified.
#[derive(Clone, Copy, PartialEq, Eq, Debug, Structural)]
pub enum IdentityEvidence {
    Unverified,
    SelfAsserted,
    DeviceVerified,
    ContactVerified,
    OrganizationVerified,
    ExternalProviderVerified,
}

/// The text stored for a identity evidence.
pub open spec fn identity_evidence_text(value: IdentityEvidence) -> Seq<char> {
    match value {
        IdentityEvidence::Unverified => "unverified"@,
        IdentityEvidence::SelfAsserted => "self_asserted"@,
        IdentityEvidence::DeviceVerified => "device_verified"@,
        IdentityEvidence::ContactVerified => "contact_verified"@,
        IdentityEvidence::OrganizationVerified => "organization_verified"@,
        IdentityEvidence::ExternalProviderVerified => "external_provider_verified"@,
    }
}

/// The identity evidence that a stored text names, if any.
pub open spec fn identity_evidence_from_text(text: Seq<char>) -> Option<IdentityEvidence> {
    if text == "unverified"@ {
        Some(IdentityEvidence::Unverified)
    } else if text == "self_asserted"@ {
        Some(IdentityEvidence::SelfAsserted)
    } else if text == "device_verified"@ {
        Some(IdentityEvidence::DeviceVerified)
    } else if text == "contact_verified"@ {
        Some(IdentityEvidence::ContactVerified)
    } else if text == "organization_verified"@ {
        Some(IdentityEvidence::OrganizationVerified)
    } else if text == "external_provider_verified"@ {
        Some(IdentityEvidence::ExternalProviderVerified)
    } else {
        None
    }
}

/// The text stored for a identity evidence.
pub fn encode_evidence(value: IdentityEvidence) -> (r: &'static str)
    ensures
        r@ == identity_evidence_text(value),
{
    match value {
        IdentityEvidence::Unverified => "unverified",
        IdentityEvidence::SelfAsserted => "self_asserted",
        IdentityEvidence::DeviceVerified => "device_verified",
        IdentityEvidence::ContactVerified => "contact_verified",
        IdentityEvidence::OrganizationVerified => "organization_verified",
        IdentityEvidence::ExternalProviderVerified => "external_provider_verified",
    }
}

/// Reads a stored identity evidence; unrecognised text is corrupt.
pub fn decode_evidence(value: &str) -> (r: Result<IdentityEvidence, DurableStoreError>)
    ensures
        r == or_corrupt(identity_evidence_from_text(value@)),
{
    if text_eq(value, "unverified") {
        Ok(IdentityEvidence::Unverified)
    } else if text_eq(value, "self_asserted") {
        Ok(IdentityEvidence::SelfAsserted)
    } else if text_eq(value, "device_verified") {
        Ok(IdentityEvidence::DeviceVerified)
    } else if text_eq(value, "contact_verified") {
        Ok(IdentityEvidence::ContactVerified)
    } else if text_eq(value, "organization_verified") {
        Ok(IdentityEvidence::OrganizationVerified)
    } else if text_eq(value, "external_provider_verified") {
        Ok(IdentityEvidence::ExternalProviderVerified)
    } else {
        Err(DurableStoreError::Corrupt)
    }
}

/// Every identity evidence reads back unchanged from the text stored for it.
pub proof fn lemma_identity_evidence_text_round_trip(value: IdentityEvidence)
    ensures
        identity_evidence_from_text(identity_evidence_text(value)) == Some(value),
{
    reveal_strlit("unverified");
    reveal_strlit("self_asserted");
    reveal_strlit("device_verified");
    reveal_strlit("contact_verified");
    reveal_strlit("organization_verified");
    reveal_strlit("external_provider_verified");
    match value {
        IdentityEvidence::Unverified => {
        },
        IdentityEvidence::SelfAsserted => {
            assert("self_asserted"@.len() != "unverified"@.len());
        },
        IdentityEvidence::DeviceVerified => {
            assert("device_verified"@.len() != "unverified"@.len());
            assert("device_verified"@.len() != "self_asserted"@.len());
        },
        IdentityEvidence::ContactVerified => {
            assert("contact_verified"@.len() != "unverified"@.len());
            assert("contact_verified"@.len() != "self_asserted"@.len());
            assert("contact_verified"@.len() != "device_verified"@.len());
        },
        IdentityEvidence::OrganizationVerified => {
            assert("organization_verified"@.len() != "unverified"@.len());
            assert("organization_verified"@.len() != "self_asserted"@.len());
            assert("organization_verified"@.len() != "device_verified"@.len());
            assert("organization_verified"@.len() != "contact_verified"@.len());
        },
        IdentityEvidence::ExternalProviderVerified => {
            assert("external_provider_verified"@.len() != "unverified"@.len());
            assert("external_provider_verified"@.len() != "self_asserted"@.len());
            assert("external_provider_verified"@.len() != "device_verified"@.len());
            assert("external_provider_verified"@.len() != "contact_verified"@.len());
            assert("external_provider_verified"@.len() != "organization_verified"@.len());
        },
    }
}

/// A binding of an identity on an external integration to a local identity.
#[derive(Clone, Debug)]
pub struct ExternalIdentityBinding {
    pub scope: TenantScope,
    pub integration_id: String,
    pub external_namespace: String,
    pub external_entity_id: Vec<u8>,
    pub identity_id: String,
}

/// The mathematical content of an [`ExternalIdentityBinding`].
pub struct BindingView {
    pub scope: ScopeView,
    pub integration_id: Seq<char>,
    pub external_namespace: Seq<char>,
    pub external_entity_id: Seq<u8>,
    pub identity_id: Seq<char>,
}

impl View for ExternalIdentityBinding {
    type V = BindingView;

    open spec fn view(&self) -> BindingView {
        BindingView {
            scope: self.scope@,
            integration_id: self.integration_id@,
            external_namespace: self.external_namespace@,
            external_entity_id: self.external_entity_id@,
            identity_id: self.identity_id@,
        }
    }
}

/// Whether two bindings are equal in every field.
pub fn binding_eq(a: &ExternalIdentityBinding, b: &ExternalIdentityBinding) -> (r: bool)
    ensures
        r == (a@ == b@),
{
    scope_eq(&a.scope, &b.scope) && a.integration_id == b.integration_id && a.external_namespace
        == b.external_namespace && bytes_eq(
        a.external_entity_id.as_slice(),
        b.external_entity_id.as_slice(),
    ) && a.identity_id == b.identity_id
}

/// An external entity id longer than the protocol allows cannot be looked up.
pub fn check_external_entity_id(external_entity_id: &[u8], max_len: usize) -> (r: Result<
    (),
    DurableStoreError,
>)
    ensures
        external_entity_id@.len() <= max_len ==> r is Ok,
        external_entity_id@.len() > max_len ==> r == Err::<(), DurableStoreError>(
            DurableStoreError::InvalidRecord,
        ),
{
    if external_entity_id.len() > max_len {
        Err(DurableStoreError::InvalidRecord)
    } else {
        Ok(())
    }
}

/// The binding rule: a binding refused by protocol validation is invalid; a
/// binding is write-once per external key (an identical retry is a duplicate, a
/// different identity a conflict); a new binding needs its local identity to exist.
pub open spec fn spec_persist_binding_step(
    binding_valid: bool,
    existing_equal: Option<bool>,
    identity_exists: bool,
) -> Result<WriteStep, DurableStoreError> {
    if !binding_valid {
        Err(DurableStoreError::InvalidRecord)
    } else if existing_equal is None && !identity_exists {
        Err(DurableStoreError::InvalidRecord)
    } else {
        spec_write_once_step(existing_equal)
    }
}

/// Decides a binding write from validation, the binding stored under the same
/// external key, and whether the bound identity exists.
pub fn persist_binding_step(
    binding_valid: bool,
    existing: Option<&ExternalIdentityBinding>,
    incoming: &ExternalIdentityBinding,
    identity_exists: bool,
) -> (r: Result<WriteStep, DurableStoreError>)
    ensures
        r == spec_persist_binding_step(
            binding_valid,
            match existing {
                Some(e) => Some(e@ == incoming@),
                None => None,
            },
            identity_exists,
        ),
{
    if !binding_valid {
        return Err(DurableStoreError::InvalidRecord);
    }
    match existing {
        Some(e) => write_once_step(Some(binding_eq(e, incoming))),
        None => {
            if identity_exists {
                Ok(WriteStep::Insert)
            } else {
                Err(DurableStoreError::InvalidRecord)
            }
        },
    }
}

/// The binding read back for an external key: the key as asked for, bound to the
/// stored identity, or `None` when nothing is stored under the key.
pub fn binding_from_row(
    scope: &TenantScope,
    integration_id: &str,
    external_namespace: &str,
    external_entity_id: &[u8],
    identity_id: Option<String>,
) -> (r: Option<ExternalIdentityBinding>)
    ensures
        identity_id is None ==> r is None,
        identity_id matches Some(id) ==> (r matches Some(b) && b@ == (BindingView {
            scope: scope@,
            integration_id: integration_id@,
            external_namespace: external_namespace@,
            external_entity_id: external_entity_id@,
            identity_id: id@,
        })),
{
    match identity_id {
        None => None,
        Some(id) => Some(
            ExternalIdentityBinding {
                scope: TenantScope {
                    tenant_id: scope.tenant_id.clone(),
                    namespace_id: clone_opt_text(&scope.namespace_id),
                },
                integration_id: integration_id.to_owned(),
                external_namespace: external_namespace.to_owned(),
                external_entity_id: slice_to_vec(external_entity_id),
                identity_id: id,
            },
        ),
    }
}

/// Binding writes are idempotent: once a binding is persisted, retrying it is a
/// duplicate, and binding the same external key to another identity is a conflict.
pub proof fn lemma_binding_write_once(identity_exists: bool, other_identity_exists: bool)
    ensures
        spec_persist_binding_step(true, None, identity_exists) is Ok ==> spec_persist_binding_step(
            true,
            Some(true),
            other_identity_exists,
        ) == Ok::<WriteStep, DurableStoreError>(WriteStep::Duplicate),
        spec_persist_binding_step(true, Some(false), other_identity_exists) == Err::<
            WriteStep,
            DurableStoreError,
        >(DurableStoreError::Conflict),
{
}

/// A local identity as stored.
#[derive(Clone, Debug)]
pub struct IdentityRecord {
    pub scope: TenantScope,
    pub identity_id: String,
    pub ownership: IdentityOwnership,
    pub evidence: IdentityEvidence,
    pub expires_at_unix_ms: Option<i64>,
}

/// The mathematical content of an [`IdentityRecord`].
pub struct IdentityView {
    pub scope: ScopeView,
    pub identity_id: Seq<char>,
    pub ownership: IdentityOwnership,
    pub evidence: IdentityEvidence,
    pub expires_at_unix_ms: Option<i64>,
}

impl View for IdentityRecord {
    type V = IdentityView;

    open spec fn view(&self) -> IdentityView {
        IdentityView {
            scope: self.scope@,
            identity_id: self.identity_id@,
            ownership: self.ownership,
            evidence: self.evidence,
            expires_at_unix_ms: self.expires_at_unix_ms,
        }
    }
}

/// Whether two identities are equal in every field.
pub fn identity_eq(a: &IdentityRecord, b: &IdentityRecord) -> (r: bool)
    ensures
        r == (a@ == b@),
{
    scope_eq(&a.scope, &b.scope) && a.identity_id == b.identity_id && a.ownership == b.ownership
        && a.evidence == b.evidence && a.expires_at_unix_ms == b.expires_at_unix_ms
}

/// Decides an identity write: an identity refused by protocol validation is
/// invalid; identities are write-once per scoped id.
pub fn persist_identity_step(
    identity_valid: bool,
    existing: Option<&IdentityRecord>,
    incoming: &IdentityRecord,
) -> (r: Result<WriteStep, DurableStoreError>)
    ensures
        !identity_valid ==> r == Err::<WriteStep, DurableStoreError>(
            DurableStoreError::InvalidRecord,
        ),
        identity_valid ==> r == spec_write_once_step(
            match existing {
                Some(e) => Some(e@ == incoming@),
                None => None,
            },
        ),
{
    if !identity_valid {
        return Err(DurableStoreError::InvalidRecord);
    }
    match existing {
        Some(e) => write_once_step(Some(identity_eq(e, incoming))),
        None => write_once_step(None),
    }
}

/// The `(ownership, evidence, expires_at_unix_ms)` columns stored for an identity.
pub fn identity_columns(identity: &IdentityRecord) -> (r: (&'static str, &'static str, Option<i64>))
    ensures
        r.0@ == identity_ownership_text(identity.ownership),
        r.1@ == identity_evidence_text(identity.evidence),
        r.2 == identity.expires_at_unix_ms,
{
    (encode_ownership(identity.ownership), encode_evidence(identity.evidence), identity.expires_at_unix_ms)
}

/// The identity read back from its stored columns, before protocol validation.
pub open spec fn spec_identity_from_row(
    scope: ScopeView,
    identity_id: Seq<char>,
    ownership: Seq<char>,
    evidence: Seq<char>,
    expiry: Option<i64>,
) -> Result<IdentityView, DurableStoreError> {
    match (identity_ownership_from_text(ownership), identity_evidence_from_text(evidence)) {
        (Some(o), Some(e)) => Ok(
            IdentityView {
                scope,
                identity_id,
                ownership: o,
                evidence: e,
                expires_at_unix_ms: expiry,
            },
        ),
        _ => Err(DurableStoreError::Corrupt),
    }
}

/// Rebuilds a stored identity from its columns; unknown ownership or evidence
/// text is corrupt.
pub fn identity_from_row(
    scope: &TenantScope,
    identity_id: &str,
    ownership: &str,
    evidence: &str,
    expiry: Option<i64>,
) -> (r: Result<IdentityRecord, DurableStoreError>)
    ensures
        match (r, spec_identity_from_row(scope@, identity_id@, ownership@, evidence@, expiry)) {
            (Ok(rec), Ok(v)) => rec@ == v,
            (Err(e), Err(f)) => e == f,
            _ => false,
        },
{
    let ownership = decode_ownership(ownership)?;
    let evidence = decode_evidence(evidence)?;
    Ok(
        IdentityRecord {
            scope: TenantScope {
                tenant_id: scope.tenant_id.clone(),
                namespace_id: clone_opt_text(&scope.namespace_id),
            },
            identity_id: identity_id.to_owned(),
            ownership,
            evidence,
            expires_at_unix_ms: expiry,
        },
    )
}

/// A stored identity that fails protocol validation is corrupt.
pub fn check_stored_identity(record: IdentityRecord, record_valid: bool) -> (r: Result<
    IdentityRecord,
    DurableStoreError,
>)
    ensures
        record_valid ==> (r matches Ok(rec) && rec@ == record@),
        !record_valid ==> r == Err::<IdentityRecord, DurableStoreError>(DurableStoreError::Corrupt),
{
    if record_valid {
        Ok(record)
    } else {
        Err(DurableStoreError::Corrupt)
    }
}

/// Every identity reads back unchanged from the columns stored for it.
pub proof fn lemma_identity_row_round_trip(identity: IdentityView)
    ensures
        spec_identity_from_row(
            identity.scope,
            identity.identity_id,
            identity_ownership_text(identity.ownership),
            identity_evidence_text(identity.evidence),
            identity.expires_at_unix_ms,
        ) == Ok::<IdentityView, DurableStoreError>(identity),
{
    lemma_identity_ownership_text_round_trip(identity.ownership);
    lemma_identity_evidence_text_round_trip(identity.evidence);
}

} // verus!
