use vstd::prelude::*;
use crate::error::{DurableStoreError, or_corrupt};
use crate::text::text_eq;
use crate::record::{WriteStep, spec_write_once_step, write_once_step};
use crate::codec::{decode_u64, spec_decode_u64};
use crate::intent::{texts_eq, texts_view};
use crate::journal::clone_opt_text;
use crate::scope::{scope_eq, ScopeView, TenantScope};

verus! {

/// Kind of endpoint a federation peer is reached at.
#[derive(Clone, Copy, PartialEq, Eq, Debug, Structural)]
pub enum EndpointKind {
    PersonalNode,
    OrganizationNode,
    Device,
    ExternalAccount,
    WebSession,
    TemporaryPeer,
}

/// The text stored for a peer endpoint kind.
pub open spec fn peer_endpoint_kind_text(value: EndpointKind) -> Seq<char> {
    match value {
        EndpointKind::PersonalNode => "personal_node"@,
        EndpointKind::OrganizationNode => "organization_node"@,
        _ => "invalid"@,
    }
}

/// The peer endpoint kind that a stored text names, if any.
pub open spec fn peer_endpoint_kind_from_text(text: Seq<char>) -> Option<EndpointKind> {
    if text == "personal_node"@ {
        Some(EndpointKind::PersonalNode)
    } else if text == "organization_node"@ {
        Some(EndpointKind::OrganizationNode)
    } else {
        None
    }
}

/// The text stored for a peer endpoint kind.
pub fn endpoint_kind_text(value: EndpointKind) -> (r: &'static str)
    ensures
        r@ == peer_endpoint_kind_text(value),
{
    match value {
        EndpointKind::PersonalNode => "personal_node",
        EndpointKind::OrganizationNode => "organization_node",
        _ => "invalid",
    }
}

/// Reads a stored peer endpoint kind; unrecognised text is corrupt.
pub fn parse_endpoint_kind(value: &str) -> (r: Result<EndpointKind, DurableStoreError>)
    ensures
        r == or_corrupt(peer_endpoint_kind_from_text(value@)),
{
    if text_eq(value, "personal_node") {
        Ok(EndpointKind::PersonalNode)
    } else if text_eq(value, "organization_node") {
        Ok(EndpointKind::OrganizationNode)
    } else {
        Err(DurableStoreError::Corrupt)
    }
}

/// Every node endpoint kind reads back unchanged from its text; other kinds are written as `invalid` and never read back.
pub proof fn lemma_peer_endpoint_kind_text_round_trip(value: EndpointKind)
    requires
        value == EndpointKind::PersonalNode || value == EndpointKind::OrganizationNode,
    ensures
        peer_endpoint_kind_from_text(peer_endpoint_kind_text(value)) == Some(value),
{
    reveal_strlit("personal_node");
    reveal_strlit("organization_node");
    reveal_strlit("invalid");
    match value {
        EndpointKind::PersonalNode => {
        },
        EndpointKind::OrganizationNode => {
            assert("organization_node"@.len() != "personal_node"@.len());
        },
        _ => {},
    }
}

/// Trust state of a federation peer.
#[derive(Clone, Copy, PartialEq, Eq, Debug, Structural)]
pub enum FederationTrustState {
    Known,
    Authenticated,
    Authorized,
    Trusted,
    Revoked,
    Blocked,
}

/// The text stored for a trust state.
pub open spec fn trust_state_text(value: FederationTrustState) -> Seq<char> {
    match value {
        FederationTrustState::Known => "known"@,
        FederationTrustState::Authenticated => "authenticated"@,
        FederationTrustState::Authorized => "authorized"@,
        FederationTrustState::Trusted => "trusted"@,
        FederationTrustState::Revoked => "revoked"@,
        FederationTrustState::Blocked => "blocked"@,
    }
}

/// The trust state that a stored text names, if any.
pub open spec fn trust_state_from_text(text: Seq<char>) -> Option<FederationTrustState> {
    if text == "known"@ {
        Some(FederationTrustState::Known)
    } else if text == "authenticated"@ {
        Some(FederationTrustState::Authenticated)
    } else if text == "authorized"@ {
        Some(FederationTrustState::Authorized)
    } else if text == "trusted"@ {
        Some(FederationTrustState::Trusted)
    } else if text == "revoked"@ {
        Some(FederationTrustState::Revoked)
    } else if text == "blocked"@ {
        Some(FederationTrustState::Blocked)
    } else {
        None
    }
}

/// The text stored for a trust state.
pub fn state_text(value: FederationTrustState) -> (r: &'static str)
    ensures
        r@ == trust_state_text(value),
{
    match value {
        FederationTrustState::Known => "known",
        FederationTrustState::Authenticated => "authenticated",
        FederationTrustState::Authorized => "authorized",
        FederationTrustState::Trusted => "trusted",
        FederationTrustState::Revoked => "revoked",
        FederationTrustState::Blocked => "blocked",
    }
}

/// Reads a stored trust state; unrecognised text is corrupt.
pub fn parse_state(value: &str) -> (r: Result<FederationTrustState, DurableStoreError>)
    ensures
        r == or_corrupt(trust_state_from_text(value@)),
{
    if text_eq(value, "known") {
        Ok(FederationTrustState::Known)
    } else if text_eq(value, "authenticated") {
        Ok(FederationTrustState::Authenticated)
    } else if text_eq(value, "authorized") {
        Ok(FederationTrustState::Authorized)
    } else if text_eq(value, "trusted") {
        Ok(FederationTrustState::Trusted)
    } else if text_eq(value, "revoked") {
        Ok(FederationTrustState::Revoked)
    } else if text_eq(value, "blocked") {
        Ok(FederationTrustState::Blocked)
    } else {
        Err(DurableStoreError::Corrupt)
    }
}

/// Every trust state reads back unchanged from the text stored for it.
pub proof fn lemma_trust_state_text_round_trip(value: FederationTrustState)
    ensures
        trust_state_from_text(trust_state_text(value)) == Some(value),
{
    reveal_strlit("known");
    reveal_strlit("authenticated");
    reveal_strlit("authorized");
    reveal_strlit("trusted");
    reveal_strlit("revoked");
    reveal_strlit("blocked");
    match value {
        FederationTrustState::Known => {
        },
        FederationTrustState::Authenticated => {
            assert("authenticated"@.len() != "known"@.len());
        },
        FederationTrustState::Authorized => {
            assert("authorized"@.len() != "known"@.len());
            assert("authorized"@.len() != "authenticated"@.len());
        },
        FederationTrustState::Trusted => {
            assert("trusted"@.len() != "known"@.len());
            assert("trusted"@.len() != "authenticated"@.len());
            assert("trusted"@.len() != "authorized"@.len());
        },
        FederationTrustState::Revoked => {
            assert("revoked"@.len() != "known"@.len());
            assert("revoked"@.len() != "authenticated"@.len());
            assert("revoked"@.len() != "authorized"@.len());
            assert("revoked"@[0] != "trusted"@[0]);
        },
        FederationTrustState::Blocked => {
            assert("blocked"@.len() != "known"@.len());
            assert("blocked"@.len() != "authenticated"@.len());
            assert("blocked"@.len() != "authorized"@.len());
            assert("blocked"@[0] != "trusted"@[0]);
            assert("blocked"@[0] != "revoked"@[0]);
        },
    }
}


/// What a federation peer transition does.
#[derive(Clone, Copy, PartialEq, Eq, Debug, Structural)]
pub enum PeerTransitionStep {
    /// The transition was already applied: report a duplicate.
    Duplicate,
    /// Apply the transition and stamp the peer with this generation.
    Apply(u64),
}

/// The transition of a federation peer from `(current_generation, current_state)` to
/// `next_state`, requested against `expected_generation`. A peer already at the
/// requested state one generation later is a duplicate; any other stale request conflicts.
pub open spec fn spec_peer_transition(
    current_generation: u64,
    current_state: FederationTrustState,
    expected_generation: u64,
    next_state: FederationTrustState,
    transition_allowed: bool,
) -> Result<PeerTransitionStep, DurableStoreError> {
    if expected_generation == u64::MAX {
        Err(DurableStoreError::InvalidRecord)
    } else if current_generation == expected_generation + 1 && current_state == next_state {
        Ok(PeerTransitionStep::Duplicate)
    } else if current_generation != expected_generation {
        Err(DurableStoreError::Conflict)
    } else if !transition_allowed {
        Err(DurableStoreError::InvalidRecord)
    } else {
        Ok(PeerTransitionStep::Apply((expected_generation + 1) as u64))
    }
}

/// Decides a federation trust transition of the stored peer; an unknown peer
/// conflicts. `transition_allowed` says whether the protocol permits moving from
/// the peer's current state to `next_state`.
pub fn peer_transition(
    current: Option<&FederationPeerRecord>,
    expected_generation: u64,
    next_state: FederationTrustState,
    transition_allowed: bool,
) -> (r: Result<PeerTransitionStep, DurableStoreError>)
    ensures
        current is None ==> r == Err::<PeerTransitionStep, DurableStoreError>(
            DurableStoreError::Conflict,
        ),
        current matches Some(p) ==> r == spec_peer_transition(
            p.generation,
            p.state,
            expected_generation,
            next_state,
            transition_allowed,
        ),
{
    let current = match current {
        Some(p) => p,
        None => return Err(DurableStoreError::Conflict),
    };
    if expected_generation == u64::MAX {
        return Err(DurableStoreError::InvalidRecord);
    }
    let next_generation = expected_generation + 1;
    if current.generation == next_generation && current.state == next_state {
        return Ok(PeerTransitionStep::Duplicate);
    }
    if current.generation != expected_generation {
        return Err(DurableStoreError::Conflict);
    }
    if !transition_allowed {
        return Err(DurableStoreError::InvalidRecord);
    }
    Ok(PeerTransitionStep::Apply(next_generation))
}

/// A peer transition that was applied is a duplicate when retried against the
/// peer it produced.
pub proof fn lemma_peer_transition_retry_is_duplicate(
    current_generation: u64,
    current_state: FederationTrustState,
    expected_generation: u64,
    next_state: FederationTrustState,
    transition_allowed: bool,
    retry_allowed: bool,
    applied: u64,
)
    requires
        spec_peer_transition(
            current_generation,
            current_state,
            expected_generation,
            next_state,
            transition_allowed,
        ) == Ok::<PeerTransitionStep, DurableStoreError>(PeerTransitionStep::Apply(applied)),
    ensures
        spec_peer_transition(applied, next_state, expected_generation, next_state, retry_allowed)
            == Ok::<PeerTransitionStep, DurableStoreError>(PeerTransitionStep::Duplicate),
{
}

/// A federation peer: a remote endpoint trusted from a local scope, the device and
/// signing key it is expected to present, its allowed capabilities and its trust
/// state with the generation of its last change.
#[derive(Clone, Debug)]
pub struct FederationPeerRecord {
    pub local_scope: TenantScope,
    pub remote_scope: TenantScope,
    pub local_endpoint_id: String,
    pub remote_endpoint_id: String,
    pub remote_endpoint_kind: EndpointKind,
    pub expected_device_id: String,
    pub expected_signing_key_id: String,
    pub allowed_capabilities: Vec<String>,
    pub state: FederationTrustState,
    pub generation: u64,
}

/// The mathematical content of a [`FederationPeerRecord`].
pub struct PeerView {
    pub local_scope: ScopeView,
    pub remote_scope: ScopeView,
    pub local_endpoint_id: Seq<char>,
    pub remote_endpoint_id: Seq<char>,
    pub remote_endpoint_kind: EndpointKind,
    pub expected_device_id: Seq<char>,
    pub expected_signing_key_id: Seq<char>,
    pub allowed_capabilities: Seq<Seq<char>>,
    pub state: FederationTrustState,
    pub generation: u64,
}

impl View for FederationPeerRecord {
    type V = PeerView;

    open spec fn view(&self) -> PeerView {
        PeerView {
            local_scope: self.local_scope@,
            remote_scope: self.remote_scope@,
            local_endpoint_id: self.local_endpoint_id@,
            remote_endpoint_id: self.remote_endpoint_id@,
            remote_endpoint_kind: self.remote_endpoint_kind,
            expected_device_id: self.expected_device_id@,
            expected_signing_key_id: self.expected_signing_key_id@,
            allowed_capabilities: texts_view(self.allowed_capabilities@),
            state: self.state,
            generation: self.generation,
        }
    }
}

/// Whether two peers are equal in every field.
pub fn peer_eq(a: &FederationPeerRecord, b: &FederationPeerRecord) -> (r: bool)
    ensures
        r == (a@ == b@),
{
    scope_eq(&a.local_scope, &b.local_scope) && scope_eq(&a.remote_scope, &b.remote_scope)
        && a.local_endpoint_id == b.local_endpoint_id && a.remote_endpoint_id
        == b.remote_endpoint_id && a.remote_endpoint_kind == b.remote_endpoint_kind
        && a.expected_device_id == b.expected_device_id && a.expected_signing_key_id
        == b.expected_signing_key_id && texts_eq(&a.allowed_capabilities, &b.allowed_capabilities)
        && a.state == b.state && a.generation == b.generation
}

/// Decides how to install a federation peer: only a newly known peer at generation 1
/// may be installed, and installation is write-once per peer key.
pub fn install_peer_step(existing: Option<&FederationPeerRecord>, canonical: &FederationPeerRecord) -> (r:
    Result<WriteStep, DurableStoreError>)
    ensures
        (canonical.state != FederationTrustState::Known || canonical.generation != 1) ==> r
            == Err::<WriteStep, DurableStoreError>(DurableStoreError::InvalidRecord),
        (canonical.state == FederationTrustState::Known && canonical.generation == 1) ==> r
            == spec_write_once_step(
            match existing {
                Some(e) => Some(e@ == canonical@),
                None => None,
            },
        ),
{
    if canonical.state != FederationTrustState::Known || canonical.generation != 1 {
        return Err(DurableStoreError::InvalidRecord);
    }
    match existing {
        Some(e) => write_once_step(Some(peer_eq(e, canonical))),
        None => write_once_step(None),
    }
}

/// What rotating a peer's credential does.
#[derive(Clone, Copy, PartialEq, Eq, Debug, Structural)]
pub enum RotationStep {
    /// The stored peer already carries the replacement credential.
    Duplicate,
    /// Replace the credential of the stored peer.
    Apply,
}

/// The rotation rule over the stored peer: an unknown peer conflicts, a stored
/// replacement is a duplicate, and any stored peer other than the one rotated
/// from conflicts.
pub open spec fn spec_rotation_step(stored: Option<PeerView>, current: PeerView, replacement: PeerView) -> Result<
    RotationStep,
    DurableStoreError,
> {
    match stored {
        None => Err(DurableStoreError::Conflict),
        Some(p) => if p == replacement {
            Ok(RotationStep::Duplicate)
        } else if p != current {
            Err(DurableStoreError::Conflict)
        } else {
            Ok(RotationStep::Apply)
        },
    }
}

/// Decides a credential rotation from the stored peer, the peer the caller
/// rotates from and the replacement.
pub fn rotation_step(
    stored: Option<&FederationPeerRecord>,
    current: &FederationPeerRecord,
    replacement: &FederationPeerRecord,
) -> (r: Result<RotationStep, DurableStoreError>)
    ensures
        r == spec_rotation_step(
            match stored {
                Some(p) => Some(p@),
                None => None,
            },
            current@,
            replacement@,
        ),
{
    match stored {
        None => Err(DurableStoreError::Conflict),
        Some(p) => {
            if peer_eq(p, replacement) {
                Ok(RotationStep::Duplicate)
            } else if !peer_eq(p, current) {
                Err(DurableStoreError::Conflict)
            } else {
                Ok(RotationStep::Apply)
            }
        },
    }
}

/// A rotation is idempotent: once the stored peer is the replacement, rotating
/// again is a duplicate; a peer that moved on since is never overwritten.
pub proof fn lemma_rotation_retry_is_duplicate(current: PeerView, replacement: PeerView, other: PeerView)
    ensures
        spec_rotation_step(Some(replacement), current, replacement) == Ok::<
            RotationStep,
            DurableStoreError,
        >(RotationStep::Duplicate),
        (other != current && other != replacement) ==> spec_rotation_step(
            Some(other),
            current,
            replacement,
        ) == Err::<RotationStep, DurableStoreError>(DurableStoreError::Conflict),
{
}

/// The columns of a stored peer, as read.
#[derive(Clone, Debug)]
pub struct StoredPeerRow {
    pub local_endpoint_id: String,
    pub remote_endpoint_kind: String,
    pub expected_device_id: String,
    pub expected_signing_key_id: String,
    pub state: String,
    pub generation: Vec<u8>,
    pub capabilities: Vec<String>,
}

/// The peer read back from its columns under its key: the endpoint kind and
/// state must be recognised and the generation must be eight bytes.
pub open spec fn spec_decode_peer(
    local_scope: ScopeView,
    remote_scope: ScopeView,
    remote_endpoint_id: Seq<char>,
    row: StoredPeerRow,
) -> Result<PeerView, DurableStoreError> {
    match (
        peer_endpoint_kind_from_text(row.remote_endpoint_kind@),
        trust_state_from_text(row.state@),
        spec_decode_u64(row.generation@),
    ) {
        (Some(kind), Some(state), Ok(generation)) => Ok(
            PeerView {
                local_scope,
                remote_scope,
                local_endpoint_id: row.local_endpoint_id@,
                remote_endpoint_id,
                remote_endpoint_kind: kind,
                expected_device_id: row.expected_device_id@,
                expected_signing_key_id: row.expected_signing_key_id@,
                allowed_capabilities: texts_view(row.capabilities@),
                state,
                generation,
            },
        ),
        _ => Err(DurableStoreError::Corrupt),
    }
}

/// Rebuilds a stored peer from its columns; anything unrecognised is corrupt.
pub fn decode_peer(
    local_scope: &TenantScope,
    remote_scope: &TenantScope,
    remote_endpoint_id: &str,
    row: StoredPeerRow,
) -> (r: Result<FederationPeerRecord, DurableStoreError>)
    ensures
        match (r, spec_decode_peer(local_scope@, remote_scope@, remote_endpoint_id@, row)) {
            (Ok(p), Ok(v)) => p@ == v,
            (Err(e), Err(f)) => e == f,
            _ => false,
        },
{
    let kind = parse_endpoint_kind(row.remote_endpoint_kind.as_str())?;
    let state = parse_state(row.state.as_str())?;
    let generation = decode_u64(row.generation.as_slice())?;
    Ok(
        FederationPeerRecord {
            local_scope: TenantScope {
                tenant_id: local_scope.tenant_id.clone(),
                namespace_id: clone_opt_text(&local_scope.namespace_id),
            },
            remote_scope: TenantScope {
                tenant_id: remote_scope.tenant_id.clone(),
                namespace_id: clone_opt_text(&remote_scope.namespace_id),
            },
            local_endpoint_id: row.local_endpoint_id,
            remote_endpoint_id: remote_endpoint_id.to_owned(),
            remote_endpoint_kind: kind,
            expected_device_id: row.expected_device_id,
            expected_signing_key_id: row.expected_signing_key_id,
            allowed_capabilities: row.capabilities,
            state,
            generation,
        },
    )
}

} // verus!
