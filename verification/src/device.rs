use vstd::prelude::*;
use crate::error::{DurableStoreError, or_corrupt};
use crate::text::text_eq;

verus! {

/// Lifecycle state of a registered device.
#[derive(Clone, Copy, PartialEq, Eq, Debug, Structural)]
pub enum DeviceLifecycleState {
    Active,
    Stale,
    ReverificationRequired,
    Expired,
    Revoked,
}

/// The text stored for a device state.
pub open spec fn device_state_text(value: DeviceLifecycleState) -> Seq<char> {
    match value {
        DeviceLifecycleState::Active => "active"@,
        DeviceLifecycleState::Stale => "stale"@,
        DeviceLifecycleState::ReverificationRequired => "reverification_required"@,
        DeviceLifecycleState::Expired => "expired"@,
        DeviceLifecycleState::Revoked => "revoked"@,
    }
}

/// The device state that a stored text names, if any.
pub open spec fn device_state_from_text(text: Seq<char>) -> Option<DeviceLifecycleState> {
    if text == "active"@ {
        Some(DeviceLifecycleState::Active)
    } else if text == "stale"@ {
        Some(DeviceLifecycleState::Stale)
    } else if text == "reverification_required"@ {
        Some(DeviceLifecycleState::ReverificationRequired)
    } else if text == "expired"@ {
        Some(DeviceLifecycleState::Expired)
    } else if text == "revoked"@ {
        Some(DeviceLifecycleState::Revoked)
    } else {
        None
    }
}

/// The text stored for a device state.
pub fn encode_state(value: DeviceLifecycleState) -> (r: &'static str)
    ensures
        r@ == device_state_text(value),
{
    match value {
        DeviceLifecycleState::Active => "active",
        DeviceLifecycleState::Stale => "stale",
        DeviceLifecycleState::ReverificationRequired => "reverification_required",
        DeviceLifecycleState::Expired => "expired",
        DeviceLifecycleState::Revoked => "revoked",
    }
}

/// Reads a stored device state; unrecognised text is corrupt.
pub fn decode_state(value: &str) -> (r: Result<DeviceLifecycleState, DurableStoreError>)
    ensures
        r == or_corrupt(device_state_from_text(value@)),
{
    if text_eq(value, "active") {
        Ok(DeviceLifecycleState::Active)
    } else if text_eq(value, "stale") {
        Ok(DeviceLifecycleState::Stale)
    } else if text_eq(value, "reverification_required") {
        Ok(DeviceLifecycleState::ReverificationRequired)
    } else if text_eq(value, "expired") {
        Ok(DeviceLifecycleState::Expired)
    } else if text_eq(value, "revoked") {
        Ok(DeviceLifecycleState::Revoked)
    } else {
        Err(DurableStoreError::Corrupt)
    }
}

/// Every device state reads back unchanged from the text stored for it.
pub proof fn lemma_device_state_text_round_trip(value: DeviceLifecycleState)
    ensures
        device_state_from_text(device_state_text(value)) == Some(value),
{
    reveal_strlit("active");
    reveal_strlit("stale");
    reveal_strlit("reverification_required");
    reveal_strlit("expired");
    reveal_strlit("revoked");
    match value {
        DeviceLifecycleState::Active => {
        },
        DeviceLifecycleState::Stale => {
            assert("stale"@.len() != "active"@.len());
        },
        DeviceLifecycleState::ReverificationRequired => {
            assert("reverification_required"@.len() != "active"@.len());
            assert("reverification_required"@.len() != "stale"@.len());
        },
        DeviceLifecycleState::Expired => {
            assert("expired"@.len() != "active"@.len());
            assert("expired"@.len() != "stale"@.len());
            assert("expired"@.len() != "reverification_required"@.len());
        },
        DeviceLifecycleState::Revoked => {
            assert("revoked"@.len() != "active"@.len());
            assert("revoked"@.len() != "stale"@.len());
            assert("revoked"@.len() != "reverification_required"@.len());
            assert("revoked"@[0] != "expired"@[0]);
        },
    }
}


/// A registered device: its id, the identity that owns it and its lifecycle state.
#[derive(Clone, Debug)]
pub struct DeviceDescriptor {
    pub device_id: String,
    pub identity_id: String,
    pub state: DeviceLifecycleState,
}

/// The mathematical content of a [`DeviceDescriptor`].
pub struct DeviceView {
    pub device_id: Seq<char>,
    pub identity_id: Seq<char>,
    pub state: DeviceLifecycleState,
}

impl View for DeviceDescriptor {
    type V = DeviceView;

    open spec fn view(&self) -> DeviceView {
        DeviceView { device_id: self.device_id@, identity_id: self.identity_id@, state: self.state }
    }
}

/// Whether two device descriptors are equal in every field.
pub fn device_eq(a: &DeviceDescriptor, b: &DeviceDescriptor) -> (r: bool)
    ensures
        r == (a@ == b@),
{
    a.device_id == b.device_id && a.identity_id == b.identity_id && a.state == b.state
}

/// What revoking a device does.
#[derive(Clone, Copy, PartialEq, Eq, Debug, Structural)]
pub enum RevokeStep {
    /// The device is already revoked and holds no active key: nothing to write.
    AlreadyRevoked,
    /// Revoke the device's active signing key and mark the device revoked.
    Revoke,
}

/// Revoking a device on behalf of `expected_identity`: the device must exist and
/// belong to that identity; an already revoked device is left as is, unless it
/// still holds an active signing key (`active_key_count`), which is corrupt.
pub open spec fn spec_revoke_device_step(
    device: Option<DeviceView>,
    expected_identity: Seq<char>,
    active_key_count: i64,
) -> Result<RevokeStep, DurableStoreError> {
    match device {
        None => Err(DurableStoreError::Conflict),
        Some(d) => if d.identity_id != expected_identity {
            Err(DurableStoreError::Conflict)
        } else if d.state == DeviceLifecycleState::Revoked {
            if active_key_count != 0 {
                Err(DurableStoreError::Corrupt)
            } else {
                Ok(RevokeStep::AlreadyRevoked)
            }
        } else {
            Ok(RevokeStep::Revoke)
        },
    }
}

/// Decides a device revocation. `active_key_count` is only consulted for a device
/// that is already revoked.
pub fn revoke_device_step(
    device: Option<&DeviceDescriptor>,
    expected_identity: &str,
    active_key_count: i64,
) -> (r: Result<RevokeStep, DurableStoreError>)
    ensures
        r == spec_revoke_device_step(
            match device {
                Some(d) => Some(d@),
                None => None,
            },
            expected_identity@,
            active_key_count,
        ),
{
    match device {
        None => Err(DurableStoreError::Conflict),
        Some(d) => {
            if !text_eq(d.identity_id.as_str(), expected_identity) {
                return Err(DurableStoreError::Conflict);
            }
            if d.state == DeviceLifecycleState::Revoked {
                if active_key_count != 0 {
                    return Err(DurableStoreError::Corrupt);
                }
                return Ok(RevokeStep::AlreadyRevoked);
            }
            Ok(RevokeStep::Revoke)
        },
    }
}

/// Revocation is idempotent: once a device is revoked together with its active
/// key, revoking it again on behalf of the same identity changes nothing.
pub proof fn lemma_revoke_device_idempotent(device: DeviceView, expected_identity: Seq<char>, count: i64)
    ensures
        spec_revoke_device_step(Some(device), expected_identity, count) == Ok::<
            RevokeStep,
            DurableStoreError,
        >(RevokeStep::Revoke) ==> spec_revoke_device_step(
            Some(DeviceView { state: DeviceLifecycleState::Revoked, ..device }),
            expected_identity,
            0,
        ) == Ok::<RevokeStep, DurableStoreError>(RevokeStep::AlreadyRevoked),
{
}

/// What registering a device does.
#[derive(Clone, Copy, PartialEq, Eq, Debug, Structural)]
pub enum RegisterStep {
    /// The identical device is already registered: nothing to write.
    Unchanged,
    /// Insert the device; when it may not access protected material, also revoke any
    /// signing key still active for its identifier.
    Insert { revoke_active_key: bool },
}

/// The registration rule: devices are write-once per id; an identical
/// registration changes nothing, a different one conflicts.
pub open spec fn spec_register_device_step(
    existing: Option<DeviceView>,
    incoming: DeviceView,
    allows_protected_access: bool,
) -> Result<RegisterStep, DurableStoreError> {
    match existing {
        Some(e) => if e == incoming {
            Ok(RegisterStep::Unchanged)
        } else {
            Err(DurableStoreError::Conflict)
        },
        None => Ok(RegisterStep::Insert { revoke_active_key: !allows_protected_access }),
    }
}

/// Decides a device registration from the stored device under the same id and
/// whether the new device may access protected material.
pub fn register_device_step(
    existing: Option<&DeviceDescriptor>,
    incoming: &DeviceDescriptor,
    allows_protected_access: bool,
) -> (r: Result<RegisterStep, DurableStoreError>)
    ensures
        r == spec_register_device_step(
            match existing {
                Some(e) => Some(e@),
                None => None,
            },
            incoming@,
            allows_protected_access,
        ),
{
    match existing {
        Some(e) => {
            if device_eq(e, incoming) {
                Ok(RegisterStep::Unchanged)
            } else {
                Err(DurableStoreError::Conflict)
            }
        },
        None => Ok(RegisterStep::Insert { revoke_active_key: !allows_protected_access }),
    }
}

/// Registration is idempotent: registering the stored device again changes
/// nothing, and a different device under its id conflicts.
pub proof fn lemma_register_device_idempotent(device: DeviceView, other: DeviceView, allows: bool)
    ensures
        spec_register_device_step(Some(device), device, allows) == Ok::<
            RegisterStep,
            DurableStoreError,
        >(RegisterStep::Unchanged),
        other != device ==> spec_register_device_step(Some(device), other, allows) == Err::<
            RegisterStep,
            DurableStoreError,
        >(DurableStoreError::Conflict),
{
}

/// Whether a stored device grants protected access, optionally only for an
/// expected identity. `allows_protected_access` is the protocol's verdict on the
/// stored device; an unknown device allows nothing.
pub fn protected_device_allows(
    device: Option<&DeviceDescriptor>,
    allows_protected_access: bool,
    expected_identity: Option<&str>,
) -> (r: bool)
    ensures
        r == match device {
            None => false,
            Some(d) => allows_protected_access && match expected_identity {
                Some(i) => d.identity_id@ == i@,
                None => true,
            },
        },
{
    match device {
        None => false,
        Some(d) => {
            allows_protected_access && match expected_identity {
                Some(i) => text_eq(d.identity_id.as_str(), i),
                None => true,
            }
        },
    }
}

/// The state check of the stored devices: any device that is not active but still
/// holds an active signing key is corrupt.
pub fn verify_non_active_devices_have_no_active_keys(count: i64) -> (r: Result<
    (),
    DurableStoreError,
>)
    ensures
        count == 0 ==> r == Ok::<(), DurableStoreError>(()),
        count != 0 ==> r == Err::<(), DurableStoreError>(DurableStoreError::Corrupt),
{
    if count == 0 {
        Ok(())
    } else {
        Err(DurableStoreError::Corrupt)
    }
}

/// Rebuilds a stored device from its columns; an unknown state text is corrupt.
pub fn device_from_row(device_id: &str, identity_id: &str, state: &str) -> (r: Result<
    DeviceDescriptor,
    DurableStoreError,
>)
    ensures
        match (r, device_state_from_text(state@)) {
            (Ok(d), Some(st)) => d@ == (DeviceView {
                device_id: device_id@,
                identity_id: identity_id@,
                state: st,
            }),
            (Err(e), None) => e == DurableStoreError::Corrupt,
            _ => false,
        },
{
    let state = decode_state(state)?;
    Ok(DeviceDescriptor { device_id: device_id.to_owned(), identity_id: identity_id.to_owned(), state })
}

} // verus!
