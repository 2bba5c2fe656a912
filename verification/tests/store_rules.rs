use ucr_storage_sqlite::anti_entropy::{
    check_distinct_ids, classify_summary, cut_page, decode_cursor, encode_cursor, page_query_limit,
    page_window, reconcile_step, snapshot_boundary, EventReplicaState, PageCut,
};
use ucr_storage_sqlite::bridge::{
    action_eq, action_transition, decode_action, decode_registration, decode_registration_state,
    encode_capability, encode_permission, encode_registration_state, install_registration_step,
    next_action_record, prepare_action_step, registration_eq, registration_transition,
    BridgeActionRecord, BridgeActionState, BridgeCapability, BridgeDataPermission,
    BridgeProviderAcceptance, BridgeProviderManifest, BridgeRegistration, BridgeRegistrationState,
    StoredActionRow, StoredRegistrationRow, TransitionStep,
};
use ucr_storage_sqlite::codec::ProtocolVersion;
use ucr_storage_sqlite::call::{
    check_call_conversation, check_signal_event_id_unused, decode_call, decode_participants,
    duplicate_actor_allowed, existing_call_outcome, find_participant, participant_state_name,
    recorded_signal_outcome,
    require_group_participants, require_group_signal_target, session_eq, signalling_state_name,
    CallParticipant, CallParticipantState, CallSession, CallSignallingState, ParticipantRecord,
    StoredCallRow, StoredParticipantRow,
};
use ucr_storage_sqlite::conference::{
    decode_grant, grant_eq, parse_use_policy, persist_grant_step, redeem_grant, revoke_grant,
    use_policy_text, validate_grant, ConferenceJoinGrantRecord, ConferenceJoinGrantUsePolicy,
    StoredGrantRow,
};
use ucr_storage_sqlite::principal::{PrincipalKind, PrincipalRef};
use ucr_storage_sqlite::conversation::{is_group_kind, ConversationKind};
use ucr_storage_sqlite::delivery::{
    append_evidence_step, attempt_eq, attempt_from_row, create_attempt_step, decode_previous_order,
    delivery_state_name, delivery_transition, evidence_kind_name, existing_attempt_status,
    parse_delivery_state, proof_required, verify_evidence_chain, CreateAttemptStep,
    DeliveryAttempt, DeliveryEvidenceKind, DeliveryState,
};
use ucr_storage_sqlite::device::{
    decode_state, device_from_row, encode_state, protected_device_allows, register_device_step,
    revoke_device_step, DeviceDescriptor, DeviceLifecycleState, RegisterStep, RevokeStep,
};
use ucr_storage_sqlite::error::{DurableRecordStatus, DurableStoreError, StorageHealth};
use ucr_storage_sqlite::codec::encode_u64;
use ucr_storage_sqlite::federation::{
    decode_peer, endpoint_kind_text, install_peer_step, peer_eq, peer_transition, rotation_step,
    state_text, EndpointKind, FederationPeerRecord, FederationTrustState, PeerTransitionStep,
    RotationStep, StoredPeerRow,
};
use ucr_storage_sqlite::group::{
    history_floor_for_add, check_change_event_id_unused, decode_history, encode_history, floor_after_latest,
    floor_for_last_n, history_allows, map_group_error, DeliveryPolicy, GroupError,
    GroupHistoryPolicy, GroupMemberState, GroupOwnership, GroupRole,
};
use ucr_storage_sqlite::group_mls::GroupCryptoState;
use ucr_storage_sqlite::group_record::{
    check_bridges, check_group_creation, check_group_message_target, check_member_page,
    create_group_step, decode_group, decode_membership, group_eq, group_message_sender_allowed,
    group_message_visible, member_page_sql_limit, recorded_change_outcome, ConversationRecord,
    ConversationRef, GroupBridgeMapping, GroupCreateStep, GroupMembership, GroupPermission,
    GroupRecord, GroupRow, MembershipRow,
};
use ucr_storage_sqlite::record::{write_once_step, WriteStep};
use ucr_storage_sqlite::schema::{
    check_fresh_database, health_from_quick_check, migration_steps, schema_open_plan,
    verify_table_columns, ColumnInfo, SchemaOpenPlan, SQLITE_SCHEMA_VERSION,
    UCR_SQLITE_APPLICATION_ID,
};
use ucr_storage_sqlite::scope::TenantScope;

#[test]
fn schema_plan_refuses_foreign_and_newer_stores() {
    assert_eq!(schema_open_plan(0, 0), Ok(SchemaOpenPlan::InitializeIfEmpty));
    assert_eq!(schema_open_plan(7, 0), Err(DurableStoreError::ForeignStore));
    assert_eq!(
        schema_open_plan(UCR_SQLITE_APPLICATION_ID, SQLITE_SCHEMA_VERSION + 1),
        Err(DurableStoreError::UnsupportedSchemaVersion)
    );
    assert_eq!(
        schema_open_plan(UCR_SQLITE_APPLICATION_ID, SQLITE_SCHEMA_VERSION),
        Ok(SchemaOpenPlan::VerifyCurrent)
    );
    assert_eq!(schema_open_plan(UCR_SQLITE_APPLICATION_ID, 8), Ok(SchemaOpenPlan::MigrateFrom(8)));
    assert_eq!(check_fresh_database(0), Ok(()));
    assert_eq!(check_fresh_database(1), Err(DurableStoreError::ForeignStore));
}

#[test]
fn migrations_step_through_every_version() {
    let steps = migration_steps(16).expect("known version");
    assert_eq!(steps, vec![16, 17, 18]);
    assert_eq!(migration_steps(SQLITE_SCHEMA_VERSION), Ok(vec![]));
    assert_eq!(migration_steps(0), Err(DurableStoreError::UnsupportedSchemaVersion));
    assert_eq!(migration_steps(1).expect("v1").len(), (SQLITE_SCHEMA_VERSION - 1) as usize);
}

fn column(name: &str, declared_type: &str, not_null: i64, primary_key: i64) -> ColumnInfo {
    ColumnInfo {
        name: name.to_owned(),
        declared_type: declared_type.to_owned(),
        not_null,
        primary_key,
    }
}

#[test]
fn schema_shape_drift_is_corrupt() {
    let expected = vec![column("tenant_id", "TEXT", 1, 1), column("payload", "BLOB", 1, 0)];
    let same = vec![column("tenant_id", "TEXT", 1, 1), column("payload", "BLOB", 1, 0)];
    assert_eq!(verify_table_columns(&same, &expected), Ok(()));
    let drifted = vec![column("tenant_id", "TEXT", 1, 1), column("payload", "BLOB", 0, 0)];
    assert_eq!(verify_table_columns(&drifted, &expected), Err(DurableStoreError::Corrupt));
    assert_eq!(verify_table_columns(&vec![], &expected), Err(DurableStoreError::Corrupt));
    assert_eq!(health_from_quick_check("ok"), StorageHealth::Healthy);
    assert_eq!(health_from_quick_check("*** in database main ***"), StorageHealth::Corrupt);
}

#[test]
fn write_once_rule() {
    assert_eq!(write_once_step(None), Ok(WriteStep::Insert));
    assert_eq!(write_once_step(Some(true)), Ok(WriteStep::Duplicate));
    assert_eq!(write_once_step(Some(false)), Err(DurableStoreError::Conflict));
}

#[test]
fn delivery_states_round_trip_except_created() {
    let states = [
        DeliveryState::Persisted,
        DeliveryState::Encrypted,
        DeliveryState::Queued,
        DeliveryState::RoutePlanned,
        DeliveryState::InFlight,
        DeliveryState::Acknowledged,
        DeliveryState::Delivered,
        DeliveryState::Read,
        DeliveryState::Failed,
        DeliveryState::Expired,
    ];
    for state in states {
        assert_eq!(parse_delivery_state(delivery_state_name(state)), Ok(state));
    }
    assert_eq!(delivery_state_name(DeliveryState::Created), "created");
    assert_eq!(parse_delivery_state("created"), Err(DurableStoreError::Corrupt));
}

#[test]
fn delivery_transitions_need_evidence_for_proof_states() {
    assert!(proof_required(DeliveryState::Delivered));
    assert!(!proof_required(DeliveryState::Queued));
    assert_eq!(
        delivery_transition(Some(DeliveryState::InFlight), DeliveryState::InFlight, DeliveryState::Delivered, true, None),
        Err(DurableStoreError::InvalidRecord)
    );
    assert_eq!(
        delivery_transition(Some(DeliveryState::InFlight), DeliveryState::InFlight, DeliveryState::Delivered, true, Some(true)),
        Ok(true)
    );
    assert_eq!(
        delivery_transition(Some(DeliveryState::Queued), DeliveryState::InFlight, DeliveryState::Delivered, true, Some(true)),
        Err(DurableStoreError::Conflict)
    );
    assert_eq!(
        delivery_transition(None, DeliveryState::Queued, DeliveryState::RoutePlanned, true, None),
        Err(DurableStoreError::InvalidRecord)
    );
    assert_eq!(
        delivery_transition(Some(DeliveryState::Queued), DeliveryState::Queued, DeliveryState::RoutePlanned, true, None),
        Ok(false)
    );
}

fn device(state: DeviceLifecycleState) -> DeviceDescriptor {
    DeviceDescriptor { device_id: "device-1".to_owned(), identity_id: "identity-1".to_owned(), state }
}

#[test]
fn device_revocation_is_idempotent() {
    assert_eq!(decode_state(encode_state(DeviceLifecycleState::Revoked)), Ok(DeviceLifecycleState::Revoked));
    let active = device(DeviceLifecycleState::Active);
    let revoked = device(DeviceLifecycleState::Revoked);
    assert_eq!(revoke_device_step(Some(&active), "identity-1", 0), Ok(RevokeStep::Revoke));
    assert_eq!(revoke_device_step(Some(&revoked), "identity-1", 0), Ok(RevokeStep::AlreadyRevoked));
    assert_eq!(revoke_device_step(Some(&revoked), "identity-1", 1), Err(DurableStoreError::Corrupt));
    assert_eq!(revoke_device_step(Some(&active), "identity-2", 0), Err(DurableStoreError::Conflict));
    assert_eq!(revoke_device_step(None, "identity-1", 0), Err(DurableStoreError::Conflict));
}

#[test]
fn device_registration_is_write_once() {
    let active = device(DeviceLifecycleState::Active);
    let stale = device(DeviceLifecycleState::Stale);
    assert_eq!(
        register_device_step(None, &stale, false),
        Ok(RegisterStep::Insert { revoke_active_key: true })
    );
    assert_eq!(
        register_device_step(None, &active, true),
        Ok(RegisterStep::Insert { revoke_active_key: false })
    );
    assert_eq!(register_device_step(Some(&active.clone()), &active, true), Ok(RegisterStep::Unchanged));
    assert_eq!(register_device_step(Some(&stale), &active, true), Err(DurableStoreError::Conflict));
    let read = device_from_row("device-1", "identity-1", "stale").expect("known state");
    assert_eq!(read.state, DeviceLifecycleState::Stale);
    assert!(matches!(device_from_row("device-1", "identity-1", "lost"), Err(DurableStoreError::Corrupt)));
    assert!(protected_device_allows(Some(&active), true, Some("identity-1")));
    assert!(!protected_device_allows(Some(&active), true, Some("identity-2")));
    assert!(protected_device_allows(Some(&active), true, None));
    assert!(!protected_device_allows(Some(&active), false, None));
    assert!(!protected_device_allows(None, true, None));
}

fn grant(use_policy: ConferenceJoinGrantUsePolicy) -> ConferenceJoinGrantRecord {
    ConferenceJoinGrantRecord {
        scope: TenantScope { tenant_id: "tenant-conf".to_owned(), namespace_id: None },
        session_id: "session-1".to_owned(),
        conference_id: "conference-1".to_owned(),
        integration_id: "integration-1".to_owned(),
        call_id: "call-1".to_owned(),
        participant: PrincipalRef { principal_id: "person-1".to_owned(), kind: PrincipalKind::Person },
        device_id: "device-1".to_owned(),
        issued_at_unix_ms: 0,
        not_before_unix_ms: 10,
        expires_at_unix_ms: 20,
        use_policy,
        revoked: false,
        redeemed: false,
    }
}

fn grant_row(g: &ConferenceJoinGrantRecord) -> StoredGrantRow {
    StoredGrantRow {
        conference_id: g.conference_id.clone(),
        integration_id: g.integration_id.clone(),
        call_id: g.call_id.clone(),
        participant_kind: "person".to_owned(),
        participant_id: g.participant.principal_id.clone(),
        device_id: g.device_id.clone(),
        issued_at_unix_ms: g.issued_at_unix_ms,
        not_before_unix_ms: g.not_before_unix_ms,
        expires_at_unix_ms: g.expires_at_unix_ms,
        use_policy: use_policy_text(g.use_policy).to_owned(),
        revoked: 0,
        redeemed: 0,
    }
}

#[test]
fn conference_grants_are_single_use_and_revocation_is_final() {
    assert_eq!(parse_use_policy(use_policy_text(ConferenceJoinGrantUsePolicy::Reusable)), Ok(ConferenceJoinGrantUsePolicy::Reusable));
    let single = grant(ConferenceJoinGrantUsePolicy::SingleUse);
    assert_eq!(validate_grant(&single), Ok(()));
    let empty_window = ConferenceJoinGrantRecord { expires_at_unix_ms: 10, ..single.clone() };
    assert_eq!(validate_grant(&empty_window), Err(DurableStoreError::InvalidRecord));
    let redeemed = redeem_grant(Some(single.clone())).expect("first redemption");
    assert!(redeemed.redeemed);
    assert!(matches!(redeem_grant(Some(redeemed)), Err(DurableStoreError::Conflict)));
    let reusable = grant(ConferenceJoinGrantUsePolicy::Reusable);
    let once = redeem_grant(Some(reusable.clone())).expect("reusable");
    let twice = redeem_grant(Some(once.clone())).expect("reusable again");
    assert!(grant_eq(&once, &twice));
    let revoked = revoke_grant(Some(reusable)).expect("revocation");
    assert!(revoked.revoked);
    assert!(matches!(redeem_grant(Some(revoked.clone())), Err(DurableStoreError::PermissionDenied)));
    let again = revoke_grant(Some(revoked.clone())).expect("revocation is idempotent");
    assert!(grant_eq(&again, &revoked));
    assert!(matches!(revoke_grant(None), Err(DurableStoreError::Conflict)));
    assert!(matches!(redeem_grant(None), Err(DurableStoreError::Conflict)));
}

#[test]
fn conference_grants_are_write_once_and_round_trip() {
    let g = grant(ConferenceJoinGrantUsePolicy::SingleUse);
    assert_eq!(persist_grant_step(None, &g), Ok(WriteStep::Insert));
    assert_eq!(persist_grant_step(Some(&g.clone()), &g), Ok(WriteStep::Duplicate));
    let other = ConferenceJoinGrantRecord { device_id: "device-2".to_owned(), ..g.clone() };
    assert_eq!(persist_grant_step(Some(&other), &g), Err(DurableStoreError::Conflict));
    let pre_revoked = ConferenceJoinGrantRecord { revoked: true, ..g.clone() };
    assert_eq!(persist_grant_step(None, &pre_revoked), Err(DurableStoreError::InvalidRecord));
    let read = decode_grant(&g.scope, "session-1", grant_row(&g)).expect("stored grant");
    assert!(grant_eq(&read, &g));
    let mut bad = grant_row(&g);
    bad.not_before_unix_ms = 30;
    assert!(matches!(decode_grant(&g.scope, "session-1", bad), Err(DurableStoreError::Corrupt)));
    let mut flag = grant_row(&g);
    flag.revoked = 2;
    assert!(matches!(decode_grant(&g.scope, "session-1", flag), Err(DurableStoreError::Corrupt)));
}

fn peer(state: FederationTrustState, generation: u64, key: &str) -> FederationPeerRecord {
    FederationPeerRecord {
        local_scope: TenantScope { tenant_id: "tenant-local".to_owned(), namespace_id: None },
        remote_scope: TenantScope { tenant_id: "tenant-remote".to_owned(), namespace_id: Some("ns".to_owned()) },
        local_endpoint_id: "endpoint-local".to_owned(),
        remote_endpoint_id: "endpoint-remote".to_owned(),
        remote_endpoint_kind: EndpointKind::OrganizationNode,
        expected_device_id: "device-remote".to_owned(),
        expected_signing_key_id: key.to_owned(),
        allowed_capabilities: vec!["ucr.sync".to_owned()],
        state,
        generation,
    }
}

#[test]
fn federation_transitions_are_generation_checked() {
    let known = peer(FederationTrustState::Known, 1, "key-1");
    assert_eq!(
        peer_transition(Some(&known), 1, FederationTrustState::Authenticated, true),
        Ok(PeerTransitionStep::Apply(2))
    );
    let authenticated = peer(FederationTrustState::Authenticated, 2, "key-1");
    assert_eq!(
        peer_transition(Some(&authenticated), 1, FederationTrustState::Authenticated, true),
        Ok(PeerTransitionStep::Duplicate)
    );
    let trusted = peer(FederationTrustState::Trusted, 3, "key-1");
    assert_eq!(
        peer_transition(Some(&trusted), 1, FederationTrustState::Authenticated, true),
        Err(DurableStoreError::Conflict)
    );
    assert_eq!(
        peer_transition(Some(&known), 1, FederationTrustState::Trusted, false),
        Err(DurableStoreError::InvalidRecord)
    );
    assert_eq!(
        peer_transition(None, 1, FederationTrustState::Trusted, true),
        Err(DurableStoreError::Conflict)
    );
    assert_eq!(
        peer_transition(Some(&known), u64::MAX, FederationTrustState::Trusted, true),
        Err(DurableStoreError::InvalidRecord)
    );
}

#[test]
fn federation_peers_install_once_and_rotate_once() {
    let known = peer(FederationTrustState::Known, 1, "key-1");
    assert_eq!(install_peer_step(None, &known), Ok(WriteStep::Insert));
    assert_eq!(install_peer_step(Some(&known.clone()), &known), Ok(WriteStep::Duplicate));
    assert_eq!(
        install_peer_step(Some(&peer(FederationTrustState::Known, 1, "key-9")), &known),
        Err(DurableStoreError::Conflict)
    );
    assert_eq!(
        install_peer_step(None, &peer(FederationTrustState::Trusted, 1, "key-1")),
        Err(DurableStoreError::InvalidRecord)
    );
    let replacement = peer(FederationTrustState::Known, 4, "key-2");
    let current = peer(FederationTrustState::Trusted, 3, "key-1");
    assert_eq!(rotation_step(Some(&current.clone()), &current, &replacement), Ok(RotationStep::Apply));
    assert_eq!(rotation_step(Some(&replacement.clone()), &current, &replacement), Ok(RotationStep::Duplicate));
    assert_eq!(rotation_step(Some(&known), &current, &replacement), Err(DurableStoreError::Conflict));
    assert_eq!(rotation_step(None, &current, &replacement), Err(DurableStoreError::Conflict));
    let row = StoredPeerRow {
        local_endpoint_id: "endpoint-local".to_owned(),
        remote_endpoint_kind: endpoint_kind_text(EndpointKind::OrganizationNode).to_owned(),
        expected_device_id: "device-remote".to_owned(),
        expected_signing_key_id: "key-1".to_owned(),
        state: state_text(FederationTrustState::Known).to_owned(),
        generation: encode_u64(1),
        capabilities: vec!["ucr.sync".to_owned()],
    };
    let read = decode_peer(&known.local_scope, &known.remote_scope, "endpoint-remote", row.clone())
        .expect("stored peer");
    assert!(peer_eq(&read, &known));
    let short = StoredPeerRow { generation: vec![1], ..row };
    assert!(matches!(
        decode_peer(&known.local_scope, &known.remote_scope, "endpoint-remote", short),
        Err(DurableStoreError::Corrupt)
    ));
}

fn bridge_scope() -> TenantScope {
    TenantScope { tenant_id: "tenant-bridge".to_owned(), namespace_id: Some("ns".to_owned()) }
}

fn registration(state: BridgeRegistrationState, generation: u64) -> BridgeRegistration {
    BridgeRegistration {
        scope: bridge_scope(),
        integration_id: "integration-1".to_owned(),
        manifest: BridgeProviderManifest {
            provider_id: "provider-1".to_owned(),
            sdk_min: ProtocolVersion { major: 1, minor: 0 },
            sdk_max: ProtocolVersion { major: 1, minor: 4 },
            protocol_min: ProtocolVersion { major: 1, minor: 0 },
            protocol_max: ProtocolVersion { major: 2, minor: 0 },
            capabilities: vec![BridgeCapability::Text, BridgeCapability::Files],
            permissions: vec![BridgeDataPermission::MessageContent],
            extensions: vec![],
        },
        state,
        generation,
    }
}

fn action(state: BridgeActionState, generation: u64) -> BridgeActionRecord {
    BridgeActionRecord {
        scope: bridge_scope(),
        action_id: "action-1".to_owned(),
        integration_id: "integration-1".to_owned(),
        capability: BridgeCapability::Text,
        fingerprint: vec![5; 32],
        state,
        generation,
        acceptance: None,
    }
}

#[test]
fn bridge_registrations_start_active_and_transition_once() {
    assert_eq!(
        decode_registration_state(encode_registration_state(BridgeRegistrationState::Disabled)),
        Ok(BridgeRegistrationState::Disabled)
    );
    let fresh = registration(BridgeRegistrationState::Active, 1);
    assert_eq!(install_registration_step(None, &fresh), Ok(WriteStep::Insert));
    assert_eq!(install_registration_step(Some(&fresh.clone()), &fresh), Ok(WriteStep::Duplicate));
    let mut changed = fresh.clone();
    changed.manifest.capabilities.push(BridgeCapability::Video);
    assert_eq!(install_registration_step(Some(&changed), &fresh), Err(DurableStoreError::Conflict));
    assert_eq!(
        install_registration_step(None, &registration(BridgeRegistrationState::Active, 2)),
        Err(DurableStoreError::InvalidRecord)
    );
    assert_eq!(
        registration_transition(Some(&fresh), 1, BridgeRegistrationState::Disabled, true),
        Ok(TransitionStep::Apply(2))
    );
    let disabled = registration(BridgeRegistrationState::Disabled, 2);
    assert_eq!(
        registration_transition(Some(&disabled), 1, BridgeRegistrationState::Disabled, true),
        Ok(TransitionStep::Duplicate)
    );
    assert_eq!(
        registration_transition(Some(&disabled), 1, BridgeRegistrationState::Revoked, true),
        Err(DurableStoreError::Conflict)
    );
    assert_eq!(
        registration_transition(None, 1, BridgeRegistrationState::Disabled, true),
        Err(DurableStoreError::InvalidRecord)
    );
}

#[test]
fn bridge_registration_rows_decode() {
    let row = StoredRegistrationRow {
        provider_id: "provider-1".to_owned(),
        sdk_min: (1, 0),
        sdk_max: (1, 4),
        protocol_min: (1, 0),
        protocol_max: (2, 0),
        state: "active".to_owned(),
        generation: encode_u64(1),
        capabilities: vec![encode_capability(BridgeCapability::Text), encode_capability(BridgeCapability::Files)],
        permissions: vec![encode_permission(BridgeDataPermission::MessageContent)],
        extensions: vec![],
    };
    let read = decode_registration(&bridge_scope(), "integration-1", row).expect("stored registration");
    assert!(registration_eq(&read, &registration(BridgeRegistrationState::Active, 1)));
    let bad = StoredRegistrationRow {
        provider_id: "provider-1".to_owned(),
        sdk_min: (1, 0),
        sdk_max: (1, 4),
        protocol_min: (1, 0),
        protocol_max: (2, 0),
        state: "active".to_owned(),
        generation: encode_u64(1),
        capabilities: vec![999],
        permissions: vec![],
        extensions: vec![("x".to_owned(), 2, vec![])],
    };
    assert!(matches!(decode_registration(&bridge_scope(), "integration-1", bad), Err(DurableStoreError::Corrupt)));
}

#[test]
fn bridge_actions_prepare_once_and_retry_transitions() {
    let prepared = action(BridgeActionState::Prepared, 1);
    let active = Some((BridgeRegistrationState::Active, true));
    assert_eq!(prepare_action_step(true, &prepared, active, None), Ok(WriteStep::Insert));
    assert_eq!(prepare_action_step(true, &prepared, active, Some(&prepared.clone())), Ok(WriteStep::Duplicate));
    assert_eq!(
        prepare_action_step(true, &prepared, active, Some(&action(BridgeActionState::Prepared, 2))),
        Err(DurableStoreError::Conflict)
    );
    assert_eq!(
        prepare_action_step(true, &prepared, Some((BridgeRegistrationState::Disabled, true)), None),
        Err(DurableStoreError::PermissionDenied)
    );
    assert_eq!(prepare_action_step(true, &prepared, None, None), Err(DurableStoreError::PermissionDenied));
    assert_eq!(
        prepare_action_step(false, &prepared, active, None),
        Err(DurableStoreError::InvalidRecord)
    );
    let step = action_transition(
        Some(&prepared), 1, BridgeActionState::Prepared, BridgeActionState::InFlight, None, active, true, true,
    );
    assert_eq!(step, Ok(TransitionStep::Apply(2)));
    let next = next_action_record(&prepared, BridgeActionState::InFlight, 2, &None);
    assert_eq!((next.state, next.generation), (BridgeActionState::InFlight, 2));
    assert!(action_eq(&next, &action(BridgeActionState::InFlight, 2)));
    assert_eq!(
        action_transition(
            Some(&next), 1, BridgeActionState::Prepared, BridgeActionState::InFlight, None,
            Some((BridgeRegistrationState::Revoked, false)), false, false,
        ),
        Ok(TransitionStep::Duplicate)
    );
    let accepted = Some(BridgeProviderAcceptance { external_message_id: Some(vec![1, 2]), degradation: None });
    assert_eq!(
        action_transition(
            Some(&next), 2, BridgeActionState::InFlight, BridgeActionState::Accepted, accepted.as_ref(),
            Some((BridgeRegistrationState::Disabled, false)), true, true,
        ),
        Ok(TransitionStep::Apply(3))
    );
    assert_eq!(
        action_transition(None, 1, BridgeActionState::Prepared, BridgeActionState::InFlight, None, active, true, true),
        Err(DurableStoreError::InvalidRecord)
    );
    let row = StoredActionRow {
        integration_id: "integration-1".to_owned(),
        capability: encode_capability(BridgeCapability::Text),
        fingerprint: vec![5; 32],
        state: "prepared".to_owned(),
        external_message_id: None,
        degradation_requested: None,
        degradation_fallback: None,
        degradation_reason: None,
        generation: encode_u64(1),
    };
    let read = decode_action(&bridge_scope(), "action-1", row.clone(), 32).expect("stored action");
    assert!(action_eq(&read, &prepared));
    assert!(matches!(decode_action(&bridge_scope(), "action-1", row.clone(), 16), Err(DurableStoreError::Corrupt)));
    let stray = StoredActionRow { external_message_id: Some(vec![1]), ..row };
    assert!(matches!(decode_action(&bridge_scope(), "action-1", stray, 32), Err(DurableStoreError::Corrupt)));
}

#[test]
fn anti_entropy_cursors_round_trip_and_stay_bound() {
    let binding = [7_u8; 32];
    let token = encode_cursor(&binding, 40, 12);
    assert_eq!(token.len(), 49);
    assert_eq!(decode_cursor(&binding, &token, true), Ok((40, 12)));
    assert_eq!(decode_cursor(&[8_u8; 32], &token, true), Err(DurableStoreError::InvalidRecord));
    assert_eq!(decode_cursor(&binding, &token, false), Err(DurableStoreError::InvalidRecord));
    assert_eq!(decode_cursor(&binding, &token[..48], true), Err(DurableStoreError::InvalidRecord));
    let backwards = encode_cursor(&binding, 5, 6);
    assert_eq!(decode_cursor(&binding, &backwards, true), Err(DurableStoreError::InvalidRecord));
    assert_eq!(snapshot_boundary(None), Ok(0));
    assert_eq!(snapshot_boundary(Some(-1)), Err(DurableStoreError::Corrupt));
    assert_eq!(page_window(None, 40), Ok((40, 0)));
    assert_eq!(page_window(Some((50, 3)), 40), Err(DurableStoreError::Corrupt));
    assert_eq!(page_query_limit(10), Ok(11));
    assert_eq!(
        cut_page(&vec![3, 5, 9], 2, 1),
        Ok(PageCut { has_more: true, kept: 2, last_position: 5 })
    );
    assert_eq!(cut_page(&vec![], 2, 7), Ok(PageCut { has_more: false, kept: 0, last_position: 7 }));
    assert_eq!(classify_summary(None, &[1]), EventReplicaState::Missing);
    assert_eq!(classify_summary(Some(&[1]), &[1]), EventReplicaState::Matching);
    assert_eq!(classify_summary(Some(&[2]), &[1]), EventReplicaState::Damaged);
}

fn scope(namespace: Option<&str>) -> TenantScope {
    TenantScope { tenant_id: "tenant-group".to_owned(), namespace_id: namespace.map(|n| n.to_owned()) }
}

fn group_conversation(kind: ConversationKind) -> ConversationRef {
    ConversationRef { conversation_id: "conversation-group".to_owned(), kind }
}

fn conversation_record(parent: Option<&str>, kind: ConversationKind) -> ConversationRecord {
    ConversationRecord {
        scope: scope(None),
        conversation: group_conversation(kind),
        parent_conversation_id: parent.map(|p| p.to_owned()),
    }
}

fn group_record(revision: u64) -> GroupRecord {
    GroupRecord {
        scope: scope(None),
        group_id: "group-a".to_owned(),
        conversation: group_conversation(ConversationKind::PrivateGroup),
        ownership: GroupOwnership::PersonOwned(PrincipalRef {
            principal_id: "alice".to_owned(),
            kind: PrincipalKind::Person,
        }),
        history_policy: GroupHistoryPolicy::FromJoin,
        delivery_policy: DeliveryPolicy::Durable,
        crypto_state: GroupCryptoState { capability_id: None, epoch: 0, state_ref: None },
        public_policy: None,
        bridge_mappings: vec![GroupBridgeMapping {
            integration_id: "matrix".to_owned(),
            external_group_id: b"!room".to_vec(),
        }],
        replication_generation: 1,
        revision,
    }
}

fn membership(state: GroupMemberState, permissions: Vec<GroupPermission>, floor: u64) -> GroupMembership {
    GroupMembership {
        scope: scope(None),
        group_id: "group-a".to_owned(),
        member: PrincipalRef { principal_id: "alice".to_owned(), kind: PrincipalKind::Person },
        role: GroupRole::Owner,
        permissions,
        state,
        joined_revision: 1,
        removed_revision: None,
        history_floor_logical_order: floor,
    }
}

#[test]
fn group_creation_rules() {
    assert!(is_group_kind(ConversationKind::PrivateGroup));
    assert!(!is_group_kind(ConversationKind::Direct));
    let group = group_record(1);
    let conversation = conversation_record(None, ConversationKind::PrivateGroup);
    assert_eq!(check_group_creation(&conversation, &group), Ok(()));
    assert_eq!(
        check_group_creation(&conversation_record(Some("parent"), ConversationKind::PrivateGroup), &group),
        Err(DurableStoreError::InvalidRecord)
    );
    assert_eq!(
        check_group_creation(&conversation_record(None, ConversationKind::PublicGroup), &group),
        Err(DurableStoreError::InvalidRecord)
    );
    let creator = membership(GroupMemberState::Active, vec![GroupPermission::SendMessage], 0);
    assert_eq!(
        create_group_step(None, &group, &creator, false, None, &conversation),
        Ok(GroupCreateStep::Insert { insert_conversation: true })
    );
    assert_eq!(
        create_group_step(None, &group, &creator, false, Some(&conversation), &conversation),
        Ok(GroupCreateStep::Insert { insert_conversation: false })
    );
    let other_conversation = conversation_record(Some("parent"), ConversationKind::PrivateGroup);
    assert_eq!(
        create_group_step(None, &group, &creator, false, Some(&other_conversation), &conversation),
        Err(DurableStoreError::Conflict)
    );
    assert_eq!(
        create_group_step(None, &group, &creator, true, None, &conversation),
        Err(DurableStoreError::Conflict)
    );
}

#[test]
fn group_creation_retry_is_duplicate_whatever_the_stored_floor() {
    let group = group_record(1);
    let conversation = conversation_record(None, ConversationKind::PrivateGroup);
    let creator = membership(GroupMemberState::Active, vec![GroupPermission::SendMessage], 0);
    let stored_creator = membership(GroupMemberState::Active, vec![GroupPermission::SendMessage], 42);
    assert_eq!(
        create_group_step(Some((&group, Some(&stored_creator))), &group, &creator, true, None, &conversation),
        Ok(GroupCreateStep::Duplicate)
    );
    assert_eq!(
        create_group_step(Some((&group, None)), &group, &creator, false, None, &conversation),
        Err(DurableStoreError::Conflict)
    );
    let newer = group_record(2);
    assert!(!group_eq(&group, &newer));
    assert_eq!(
        create_group_step(Some((&group, Some(&stored_creator))), &newer, &creator, false, None, &conversation),
        Err(DurableStoreError::Conflict)
    );
    let demoted = GroupMembership { role: GroupRole::Member, ..stored_creator.clone() };
    assert_eq!(
        create_group_step(Some((&group, Some(&demoted))), &group, &creator, false, None, &conversation),
        Err(DurableStoreError::Conflict)
    );
}

#[test]
fn group_changes_and_messages() {
    let alice = PrincipalRef { principal_id: "alice".to_owned(), kind: PrincipalKind::Person };
    let alice_bot = PrincipalRef { principal_id: "alice".to_owned(), kind: PrincipalKind::Bot };
    let fingerprint = [7u8; 32];
    let changed = [8u8; 32];
    assert_eq!(
        recorded_change_outcome(&alice, &fingerprint, &alice, &fingerprint),
        Ok(DurableRecordStatus::Duplicate)
    );
    assert_eq!(
        recorded_change_outcome(&alice, &fingerprint, &alice, &changed),
        Err(DurableStoreError::Conflict)
    );
    assert_eq!(
        recorded_change_outcome(&alice, &fingerprint, &alice_bot, &fingerprint),
        Err(DurableStoreError::PermissionDenied)
    );
    assert_eq!(check_change_event_id_unused(true), Err(DurableStoreError::Conflict));
    assert_eq!(map_group_error(GroupError::TooManyMembers), DurableStoreError::Full);
    assert_eq!(map_group_error(GroupError::PermissionDenied), DurableStoreError::PermissionDenied);
    assert_eq!(map_group_error(GroupError::RevisionMismatch), DurableStoreError::Conflict);
    let sender = membership(GroupMemberState::Active, vec![GroupPermission::ReadHistory, GroupPermission::SendMessage], 0);
    assert_eq!(group_message_sender_allowed(Some(&sender)), Ok(()));
    let reader = membership(GroupMemberState::Active, vec![GroupPermission::ReadHistory], 0);
    assert_eq!(group_message_sender_allowed(Some(&reader)), Err(DurableStoreError::PermissionDenied));
    let removed = membership(GroupMemberState::Removed, vec![GroupPermission::SendMessage], 0);
    assert_eq!(group_message_sender_allowed(Some(&removed)), Err(DurableStoreError::PermissionDenied));
    assert_eq!(group_message_sender_allowed(None), Err(DurableStoreError::PermissionDenied));
    let group = group_record(1);
    let conversation = group_conversation(ConversationKind::PrivateGroup);
    assert_eq!(
        check_group_message_target(None, &conversation, DeliveryPolicy::Durable),
        Err(DurableStoreError::PermissionDenied)
    );
    assert_eq!(
        check_group_message_target(Some(&group), &conversation, DeliveryPolicy::Urgent),
        Err(DurableStoreError::InvalidRecord)
    );
    assert_eq!(
        check_group_message_target(Some(&group), &group_conversation(ConversationKind::PublicGroup), DeliveryPolicy::Durable),
        Err(DurableStoreError::InvalidRecord)
    );
    assert_eq!(check_group_message_target(Some(&group), &conversation, DeliveryPolicy::Durable), Ok(()));
}

#[test]
fn membership_tombstone_gates_group_message_reads() {
    let reader = membership(GroupMemberState::Active, vec![GroupPermission::ReadHistory], 5);
    assert!(group_message_visible(Some(&reader), &GroupHistoryPolicy::FromJoin, 5));
    assert!(!group_message_visible(Some(&reader), &GroupHistoryPolicy::FromJoin, 4));
    assert!(!group_message_visible(Some(&reader), &GroupHistoryPolicy::FromTimestamp(0), 9));
    let removed = membership(GroupMemberState::Removed, vec![GroupPermission::ReadHistory], 0);
    assert!(!group_message_visible(Some(&removed), &GroupHistoryPolicy::FullHistory, 9));
    let sender_only = membership(GroupMemberState::Active, vec![GroupPermission::SendMessage], 0);
    assert!(!group_message_visible(Some(&sender_only), &GroupHistoryPolicy::FullHistory, 9));
    assert!(!group_message_visible(None, &GroupHistoryPolicy::FullHistory, 9));
}

fn group_row() -> GroupRow {
    GroupRow {
        conversation_id: "conversation-group".to_owned(),
        conversation_kind: "private_group".to_owned(),
        ownership_kind: "person".to_owned(),
        owner_principal_id: Some("alice".to_owned()),
        owner_principal_kind: Some("person".to_owned()),
        ownership_expires_at_unix_ms: None,
        history_kind: "from_join".to_owned(),
        history_value: None,
        history_custom: None,
        delivery_policy: "durable".to_owned(),
        crypto_capability_id: None,
        crypto_epoch: encode_u64(0),
        crypto_state_ref: None,
        public_join_policy: None,
        public_discovery: None,
        public_indexed: None,
        media_state: "idle".to_owned(),
        replication_generation: encode_u64(1),
        revision: encode_u64(1),
    }
}

#[test]
fn stored_group_rows_decode_or_are_corrupt() {
    let bridges = vec![GroupBridgeMapping { integration_id: "matrix".to_owned(), external_group_id: b"!room".to_vec() }];
    let decoded = decode_group(&scope(None), "group-a", group_row(), bridges.clone()).expect("stored group");
    assert!(group_eq(&decoded, &group_record(1)));
    let busy = GroupRow { media_state: "in_call".to_owned(), ..group_row() };
    assert!(matches!(decode_group(&scope(None), "group-a", busy, bridges.clone()), Err(DurableStoreError::Corrupt)));
    let short_epoch = GroupRow { crypto_epoch: vec![0; 7], ..group_row() };
    assert!(matches!(decode_group(&scope(None), "group-a", short_epoch, bridges.clone()), Err(DurableStoreError::Corrupt)));
    let direct = GroupRow { conversation_kind: "direct".to_owned(), ..group_row() };
    assert!(matches!(decode_group(&scope(None), "group-a", direct, bridges.clone()), Err(DurableStoreError::Corrupt)));
    assert_eq!(check_bridges(&bridges, 5), Ok(()));
    assert_eq!(check_bridges(&bridges, 4), Err(DurableStoreError::Corrupt));
    let empty = vec![GroupBridgeMapping { integration_id: "matrix".to_owned(), external_group_id: Vec::new() }];
    assert_eq!(check_bridges(&empty, 5), Err(DurableStoreError::Corrupt));
}

#[test]
fn stored_membership_rows_decode_or_are_corrupt() {
    let group = group_record(1);
    let alice = PrincipalRef { principal_id: "alice".to_owned(), kind: PrincipalKind::Person };
    let row = MembershipRow {
        role: "owner".to_owned(),
        state: "active".to_owned(),
        joined_revision: encode_u64(1),
        removed_revision: None,
        history_floor_logical_order: encode_u64(3),
    };
    let decoded = decode_membership(&group, alice.clone(), row.clone(), vec![GroupPermission::SendMessage])
        .expect("stored membership");
    assert_eq!(decoded.role, GroupRole::Owner);
    assert_eq!(decoded.history_floor_logical_order, 3);
    assert_eq!(decoded.permissions, vec![GroupPermission::SendMessage]);
    assert_eq!(decoded.group_id, "group-a");
    let bad_removed = MembershipRow { removed_revision: Some(vec![1, 2]), ..row.clone() };
    assert!(matches!(
        decode_membership(&group, alice.clone(), bad_removed, Vec::new()),
        Err(DurableStoreError::Corrupt)
    ));
    let bad_role = MembershipRow { role: "root".to_owned(), ..row };
    assert!(matches!(decode_membership(&group, alice, bad_role, Vec::new()), Err(DurableStoreError::Corrupt)));
    assert_eq!(member_page_sql_limit(10), 11);
    assert_eq!(member_page_sql_limit(usize::MAX), i64::MAX);
    assert_eq!(check_member_page(11, 10), Err(DurableStoreError::Full));
    assert_eq!(check_member_page(10, 10), Ok(()));
}

#[test]
fn group_history_policies_round_trip_and_bound_visibility() {
    let policy = GroupHistoryPolicy::LastNMessages(5);
    let (kind, value, custom) = encode_history(&policy);
    let back = decode_history(kind, value, custom.map(|c| c.to_owned())).expect("stored policy");
    assert!(matches!(back, GroupHistoryPolicy::LastNMessages(5)));
    assert!(matches!(decode_history("last_n", None, None), Err(DurableStoreError::Corrupt)));
    assert!(history_allows(&GroupHistoryPolicy::FullHistory, 3, 3));
    assert!(!history_allows(&GroupHistoryPolicy::FullHistory, 3, 2));
    assert!(!history_allows(&GroupHistoryPolicy::FromTimestamp(0), 0, 9));
    assert_eq!(floor_after_latest(None), Ok(0));
    assert_eq!(floor_after_latest(Some(41)), Ok(42));
    assert_eq!(floor_after_latest(Some(u64::MAX)), Err(DurableStoreError::InvalidRecord));
    assert_eq!(floor_for_last_n(2, Some(10), 2), Ok(10));
    assert_eq!(floor_for_last_n(2, Some(10), 3), Ok(11));
    assert_eq!(floor_for_last_n(2, None, 0), Ok(0));
}

#[test]
fn call_rules() {
    let direct = session();
    let stored = ConversationRecord {
        scope: direct.scope.clone(),
        conversation: ConversationRef { conversation_id: "conversation-1".to_owned(), kind: ConversationKind::Direct },
        parent_conversation_id: None,
    };
    assert_eq!(check_call_conversation(Some(&stored), &direct), Ok(()));
    let mismatched = ConversationRecord {
        conversation: ConversationRef { conversation_id: "conversation-1".to_owned(), kind: ConversationKind::PrivateGroup },
        ..stored.clone()
    };
    assert_eq!(check_call_conversation(Some(&mismatched), &direct), Err(DurableStoreError::InvalidRecord));
    assert_eq!(check_call_conversation(None, &direct), Err(DurableStoreError::InvalidRecord));
    assert_eq!(require_group_participants(&direct, None, &vec![]), Ok(()));
    let group_call = CallSession {
        conversation_id: "conversation-group".to_owned(),
        conversation_kind: ConversationKind::PrivateGroup,
        ..session()
    };
    let group = group_record(1);
    let active = Some(GroupMemberState::Active);
    assert_eq!(
        require_group_participants(&group_call, None, &vec![active, active]),
        Err(DurableStoreError::PermissionDenied)
    );
    let other_group = GroupRecord { conversation: group_conversation(ConversationKind::PublicGroup), ..group_record(1) };
    assert_eq!(
        require_group_participants(&group_call, Some(&other_group), &vec![active, active]),
        Err(DurableStoreError::InvalidRecord)
    );
    assert_eq!(
        require_group_participants(&group_call, Some(&group), &vec![active, Some(GroupMemberState::Removed)]),
        Err(DurableStoreError::PermissionDenied)
    );
    assert_eq!(
        require_group_participants(&group_call, Some(&group), &vec![active, None]),
        Err(DurableStoreError::PermissionDenied)
    );
    assert_eq!(require_group_participants(&group_call, Some(&group), &vec![active]), Err(DurableStoreError::PermissionDenied));
    assert_eq!(require_group_participants(&group_call, Some(&group), &vec![active, active]), Ok(()));
    assert_eq!(
        require_group_signal_target(true, ConversationKind::PublicGroup, true, Some(GroupMemberState::Removed)),
        Err(DurableStoreError::PermissionDenied)
    );
    assert_eq!(
        require_group_signal_target(true, ConversationKind::PublicGroup, false, active),
        Err(DurableStoreError::PermissionDenied)
    );
    assert_eq!(require_group_signal_target(true, ConversationKind::PublicGroup, true, active), Ok(()));
    assert_eq!(require_group_signal_target(false, ConversationKind::PublicGroup, false, None), Ok(()));
    assert_eq!(check_signal_event_id_unused(false, true), Err(DurableStoreError::Conflict));
    assert_eq!(check_signal_event_id_unused(false, false), Ok(()));
}

#[test]
fn recorded_call_signals_are_bound_to_their_actor() {
    let fingerprint = [3u8; 32];
    assert_eq!(
        recorded_signal_outcome(&person("bob"), &fingerprint, &person("bob"), true, &fingerprint),
        Ok(DurableRecordStatus::Duplicate)
    );
    assert_eq!(
        recorded_signal_outcome(&person("bob"), &fingerprint, &person("bob"), true, &[4u8; 32]),
        Err(DurableStoreError::Conflict)
    );
    assert_eq!(
        recorded_signal_outcome(&person("bob"), &fingerprint, &person("bob"), false, &fingerprint),
        Err(DurableStoreError::PermissionDenied)
    );
    assert_eq!(
        recorded_signal_outcome(&person("bob"), &fingerprint, &person("alice"), true, &fingerprint),
        Err(DurableStoreError::PermissionDenied)
    );
}

fn attempt(state: DeliveryState) -> DeliveryAttempt {
    DeliveryAttempt {
        scope: TenantScope { tenant_id: "tenant-delivery".to_owned(), namespace_id: None },
        delivery_id: "delivery-1".to_owned(),
        message_id: "message-1".to_owned(),
        state,
    }
}

#[test]
fn delivery_attempts_and_evidence_are_idempotent() {
    let persisted = attempt(DeliveryState::Persisted);
    assert_eq!(create_attempt_step(true, true, true, None, &persisted), Ok(CreateAttemptStep::Insert));
    assert_eq!(
        create_attempt_step(true, true, true, Some(&persisted.clone()), &persisted),
        Ok(CreateAttemptStep::Existing)
    );
    assert_eq!(
        create_attempt_step(true, true, true, Some(&attempt(DeliveryState::Queued)), &persisted),
        Err(DurableStoreError::Conflict)
    );
    assert_eq!(
        create_attempt_step(true, true, false, None, &persisted),
        Err(DurableStoreError::InvalidRecord)
    );
    assert_eq!(existing_attempt_status(WriteStep::Duplicate), Ok(DurableRecordStatus::Duplicate));
    assert_eq!(existing_attempt_status(WriteStep::Insert), Err(DurableStoreError::Conflict));
    let local = evidence_kind_name(DeliveryEvidenceKind::PersistedLocal);
    assert_eq!(
        append_evidence_step(true, Some(("message-1", local)), "message-1", DeliveryEvidenceKind::PersistedLocal, false),
        Ok(WriteStep::Duplicate)
    );
    assert_eq!(
        append_evidence_step(true, Some(("message-2", local)), "message-1", DeliveryEvidenceKind::PersistedLocal, true),
        Err(DurableStoreError::Conflict)
    );
    assert_eq!(
        append_evidence_step(true, Some(("message-1", "mystery")), "message-1", DeliveryEvidenceKind::PersistedLocal, true),
        Err(DurableStoreError::Corrupt)
    );
    assert_eq!(
        append_evidence_step(true, Some(("message-2", "mystery")), "message-1", DeliveryEvidenceKind::PersistedLocal, true),
        Err(DurableStoreError::Conflict)
    );
    assert_eq!(
        append_evidence_step(true, None, "message-1", DeliveryEvidenceKind::PersistedLocal, false),
        Err(DurableStoreError::Conflict)
    );
    assert_eq!(
        append_evidence_step(true, None, "message-1", DeliveryEvidenceKind::PersistedLocal, true),
        Ok(WriteStep::Insert)
    );
    assert_eq!(
        append_evidence_step(false, None, "message-1", DeliveryEvidenceKind::PersistedLocal, true),
        Err(DurableStoreError::InvalidRecord)
    );
    assert_eq!(decode_previous_order(&None), Ok(None));
    assert_eq!(decode_previous_order(&Some(encode_u64(9))), Ok(Some(9)));
    assert_eq!(decode_previous_order(&Some(vec![1])), Err(DurableStoreError::Corrupt));
    let read = attempt_from_row(&persisted.scope, "delivery-1", "message-1", "persisted").expect("stored");
    assert!(attempt_eq(&read, &persisted));
    assert!(matches!(
        attempt_from_row(&persisted.scope, "delivery-1", "message-1", "created"),
        Err(DurableStoreError::Corrupt)
    ));
    assert_eq!(verify_evidence_chain(&vec![DeliveryEvidenceKind::PersistedLocal], true), Ok(()));
    assert_eq!(verify_evidence_chain(&vec![], true), Err(DurableStoreError::Corrupt));
}

fn person(id: &str) -> PrincipalRef {
    PrincipalRef { principal_id: id.to_owned(), kind: PrincipalKind::Person }
}

fn session() -> CallSession {
    CallSession {
        scope: TenantScope { tenant_id: "tenant-call".to_owned(), namespace_id: None },
        call_id: "call-1".to_owned(),
        conversation_id: "conversation-1".to_owned(),
        conversation_kind: ConversationKind::Direct,
        initiated_by: person("alice"),
        participants: vec![
            CallParticipant { principal: person("alice"), state: CallParticipantState::Accepted, joined_revision: 1, left_revision: None },
            CallParticipant { principal: person("bob"), state: CallParticipantState::Left, joined_revision: 1, left_revision: Some(4) },
        ],
        signalling_state: CallSignallingState::Active,
        media_negotiation_ref: None,
        media_negotiation_generation: 0,
        replication_generation: 2,
        revision: 5,
        termination_reason: None,
    }
}

#[test]
fn call_sessions_are_write_once_per_initiator() {
    let s = session();
    assert_eq!(existing_call_outcome(&s, &s.clone(), &person("alice")), Ok(DurableRecordStatus::Duplicate));
    assert_eq!(existing_call_outcome(&s, &s.clone(), &person("bob")), Err(DurableStoreError::Conflict));
    let mut other = s.clone();
    other.revision = 6;
    assert_eq!(existing_call_outcome(&s, &other, &person("alice")), Err(DurableStoreError::Conflict));
    assert!(!session_eq(&s, &other));
    assert_eq!(
        find_participant(&s, &person("bob")),
        Some(ParticipantRecord { state: CallParticipantState::Left, left_revision: Some(4) })
    );
    assert_eq!(find_participant(&s, &person("carol")), None);
    let bob = find_participant(&s, &person("bob"));
    assert!(duplicate_actor_allowed(bob, false, 5, 4));
    assert!(!duplicate_actor_allowed(bob, false, 5, 3));
    assert!(!duplicate_actor_allowed(None, true, 5, 4));
}

#[test]
fn call_rows_decode() {
    let rows = vec![
        StoredParticipantRow {
            principal_id: "alice".to_owned(),
            principal_kind: "person".to_owned(),
            state: participant_state_name(CallParticipantState::Accepted).to_owned(),
            joined_revision: encode_u64(1),
            left_revision: None,
        },
        StoredParticipantRow {
            principal_id: "bob".to_owned(),
            principal_kind: "person".to_owned(),
            state: participant_state_name(CallParticipantState::Left).to_owned(),
            joined_revision: encode_u64(1),
            left_revision: Some(encode_u64(4)),
        },
    ];
    let participants = decode_participants(&rows).expect("stored participants");
    let row = StoredCallRow {
        conversation_id: "conversation-1".to_owned(),
        conversation_kind: "direct".to_owned(),
        initiated_by_principal_id: "alice".to_owned(),
        initiated_by_principal_kind: "person".to_owned(),
        signalling_state: signalling_state_name(CallSignallingState::Active).to_owned(),
        media_negotiation_ref: None,
        media_negotiation_generation: encode_u64(0),
        replication_generation: encode_u64(2),
        revision: encode_u64(5),
        termination_reason: None,
    };
    let s = session();
    let read = decode_call(&s.scope, "call-1", row.clone(), participants).expect("stored call");
    assert!(session_eq(&read, &s));
    let broken = StoredCallRow { revision: vec![0; 3], ..row };
    assert!(matches!(decode_call(&s.scope, "call-1", broken, vec![]), Err(DurableStoreError::Corrupt)));
    let bad_rows = vec![StoredParticipantRow {
        principal_id: "x".to_owned(),
        principal_kind: "robot".to_owned(),
        state: "left".to_owned(),
        joined_revision: encode_u64(1),
        left_revision: None,
    }];
    assert!(matches!(decode_participants(&bad_rows), Err(DurableStoreError::Corrupt)));
}

#[test]
fn reconciliation_never_overwrites_local_events() {
    let scope = TenantScope { tenant_id: "tenant-sync".to_owned(), namespace_id: None };
    let other = TenantScope { tenant_id: "tenant-other".to_owned(), namespace_id: None };
    let local = [1_u8, 2, 3];
    assert_eq!(reconcile_step(&scope, &scope, None, Some(&local[..])), Ok(WriteStep::Insert));
    assert_eq!(reconcile_step(&scope, &scope, Some(Some(&local[..])), Some(&local[..])), Ok(WriteStep::Duplicate));
    assert_eq!(
        reconcile_step(&scope, &scope, Some(Some(&local[..])), Some(&[9_u8][..])),
        Err(DurableStoreError::Conflict)
    );
    assert_eq!(reconcile_step(&scope, &scope, Some(None), Some(&local[..])), Err(DurableStoreError::Corrupt));
    assert_eq!(reconcile_step(&scope, &scope, Some(Some(&local[..])), None), Err(DurableStoreError::InvalidRecord));
    assert_eq!(reconcile_step(&other, &scope, None, Some(&local[..])), Err(DurableStoreError::InvalidRecord));
    assert_eq!(check_distinct_ids(&vec!["a".to_owned(), "b".to_owned()]), Ok(()));
    assert_eq!(
        check_distinct_ids(&vec!["a".to_owned(), "b".to_owned(), "a".to_owned()]),
        Err(DurableStoreError::InvalidRecord)
    );
}

#[test]
fn history_floor_of_a_new_member_follows_the_policy() {
    assert_eq!(history_floor_for_add(&GroupHistoryPolicy::FullHistory, Some(9), None, 0), Ok(0));
    assert_eq!(history_floor_for_add(&GroupHistoryPolicy::FromTimestamp(5), Some(9), None, 0), Ok(0));
    assert_eq!(history_floor_for_add(&GroupHistoryPolicy::FromJoin, Some(9), None, 0), Ok(10));
    assert_eq!(history_floor_for_add(&GroupHistoryPolicy::NoHistory, None, None, 0), Ok(0));
    assert_eq!(
        history_floor_for_add(&GroupHistoryPolicy::CustomPolicy("x".to_owned()), Some(9), None, 0),
        Ok(u64::MAX)
    );
    assert_eq!(history_floor_for_add(&GroupHistoryPolicy::LastNMessages(2), Some(9), Some(7), 3), Ok(8));
    assert_eq!(history_floor_for_add(&GroupHistoryPolicy::LastNMessages(2), Some(9), Some(7), 2), Ok(7));
}

#[test]
fn stored_u64_columns_sort_as_their_numbers() {
    assert!(encode_u64(255) < encode_u64(256));
    assert!(encode_u64(1) < encode_u64(u64::MAX));
    assert!(!(encode_u64(7) < encode_u64(7)));
    assert_eq!(encode_u64(258), vec![0, 0, 0, 0, 0, 0, 1, 2]);
}
