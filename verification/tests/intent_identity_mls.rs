use ucr_storage_sqlite::command::ProtocolExtension;
use ucr_storage_sqlite::device::{DeviceDescriptor, DeviceLifecycleState};
use ucr_storage_sqlite::error::{DurableRecordStatus, DurableStoreError};
use ucr_storage_sqlite::group_mls::{
    check_admissions, check_applied_status, check_bootstrap_template, check_change_request,
    check_mls_state, check_own_device, check_stored_transition, confirm_retry, create_group_plan,
    device_belongs, require_device_for_principal, require_mls_capability, select_removed_devices,
    transition_lookup, transition_plan, CreateGroupPlan, GroupChangeKind,
    GroupCryptoState, GroupMlsStoreError, StoredTransition, TransitionLookup, TransitionPlan,
};
use ucr_storage_sqlite::conversation::ConversationKind;
use ucr_storage_sqlite::group::{DeliveryPolicy, GroupHistoryPolicy, GroupOwnership};
use ucr_storage_sqlite::group_record::{ConversationRef, GroupRecord};
use ucr_storage_sqlite::identity::{
    binding_from_row, check_external_entity_id, check_stored_identity, identity_columns,
    identity_eq, identity_from_row, persist_binding_step, persist_identity_step,
    ExternalIdentityBinding, IdentityEvidence, IdentityOwnership, IdentityRecord,
};
use ucr_storage_sqlite::intent::{
    assemble_intent, check_canonical_intent, check_extension_payload_lengths,
    check_total_transports, decode_max_cost, decode_priority, decode_transport_rows,
    encode_max_cost, encode_priority, intent_eq, persist_intent_step,
    validate_root_field_lengths, CommunicationIntent, IntentLimits, IntentRootLengths,
    StoredIntentRow, TransportRow,
};
use ucr_storage_sqlite::principal::{PrincipalKind, PrincipalRef};
use ucr_storage_sqlite::record::WriteStep;
use ucr_storage_sqlite::scope::TenantScope;

fn scope(namespace: &str) -> TenantScope {
    TenantScope { tenant_id: "tenant-intent".to_owned(), namespace_id: Some(namespace.to_owned()) }
}

fn limits() -> IntentLimits {
    IntentLimits {
        max_payload_len: 64,
        max_policy_value_len: 16,
        max_idempotency_key_len: 32,
        max_transport_constraints: 3,
        max_extensions: 2,
        max_extension_payload_len: 8,
    }
}

fn intent_row() -> StoredIntentRow {
    StoredIntentRow {
        target_identity_id: "identity-target".to_owned(),
        payload: b"hello intent".to_vec(),
        privacy_profile: Some("vendor.private".to_owned()),
        region_constraint: Some("region-eu".to_owned()),
        max_cost_microunits: encode_max_cost(Some(u64::MAX)),
        priority_class: encode_priority(Some(u32::MAX)),
        correlation_id: "correlation-intent".to_owned(),
        causation_id: Some("causation-intent".to_owned()),
        idempotency_key: Some("intent-retry-key".to_owned()),
    }
}

fn assembled(namespace: &str) -> CommunicationIntent {
    assemble_intent(
        &scope(namespace),
        &"intent-a".to_owned(),
        intent_row(),
        vec!["ucr.transport.direct".to_owned(), "ucr.transport.wifi".to_owned()],
        vec!["ucr.transport.bridge".to_owned()],
        vec![ProtocolExtension { name: "ucr.intent.a".to_owned(), critical: false, payload: b"a".to_vec() }],
        limits().max_transport_constraints,
    )
    .expect("well-formed intent")
}

#[test]
fn intent_constraints_round_trip_through_their_columns() {
    let intent = assembled("namespace-a");
    assert_eq!(intent.constraints.max_cost_microunits, Some(u64::MAX));
    assert_eq!(intent.constraints.priority_class, Some(u32::MAX));
    assert_eq!(decode_max_cost(&encode_max_cost(Some(7))), Ok(Some(7)));
    assert_eq!(decode_max_cost(&None), Ok(None));
    assert_eq!(decode_max_cost(&Some(vec![1, 2])), Err(DurableStoreError::Corrupt));
    assert_eq!(decode_priority(encode_priority(Some(4))), Ok(Some(4)));
    assert_eq!(decode_priority(Some(-1)), Err(DurableStoreError::Corrupt));
    assert_eq!(decode_priority(Some(u32::MAX as i64 + 1)), Err(DurableStoreError::Corrupt));
}

#[test]
fn intent_retries_deduplicate_and_changes_conflict() {
    let first = assembled("namespace-a");
    assert_eq!(persist_intent_step(None, &first), Ok(WriteStep::Insert));
    assert_eq!(persist_intent_step(Some(&first.clone()), &first), Ok(WriteStep::Duplicate));
    let mut changed = first.clone();
    changed.payload.push(b'!');
    assert_eq!(persist_intent_step(Some(&first), &changed), Err(DurableStoreError::Conflict));
    assert!(!intent_eq(&first, &assembled("namespace-b")));
}

#[test]
fn stored_intents_must_be_canonical() {
    let raw = assembled("namespace-a");
    assert!(check_canonical_intent(raw.clone(), Some(raw.clone())).is_ok());
    let mut reordered = raw.clone();
    reordered.constraints.allowed_transport_capabilities.reverse();
    assert!(matches!(
        check_canonical_intent(reordered, Some(raw.clone())),
        Err(DurableStoreError::Corrupt)
    ));
    assert!(matches!(check_canonical_intent(raw, None), Err(DurableStoreError::Corrupt)));
}

#[test]
fn oversized_persisted_root_fields_are_corrupt() {
    let ok = IntentRootLengths { payload_len: 12, privacy_len: Some(16), region_len: None, idempotency_len: Some(32) };
    assert_eq!(validate_root_field_lengths(ok, limits()), Ok(()));
    let policy = IntentRootLengths { privacy_len: Some(17), ..ok };
    assert_eq!(validate_root_field_lengths(policy, limits()), Err(DurableStoreError::Corrupt));
    let payload = IntentRootLengths { payload_len: 65, ..ok };
    assert_eq!(validate_root_field_lengths(payload, limits()), Err(DurableStoreError::Corrupt));
    let negative = IntentRootLengths { payload_len: -1, ..ok };
    assert_eq!(validate_root_field_lengths(negative, limits()), Err(DurableStoreError::Corrupt));
    let key = IntentRootLengths { idempotency_len: Some(33), ..ok };
    assert_eq!(validate_root_field_lengths(key, limits()), Err(DurableStoreError::Corrupt));
}

#[test]
fn transport_rows_and_budgets_are_checked() {
    let rows = vec![
        TransportRow { position: 0, capability: "a".to_owned() },
        TransportRow { position: 1, capability: "b".to_owned() },
    ];
    assert_eq!(decode_transport_rows(&rows, 3), Ok(vec!["a".to_owned(), "b".to_owned()]));
    assert_eq!(decode_transport_rows(&rows, 1), Err(DurableStoreError::Corrupt));
    let gap = vec![TransportRow { position: 1, capability: "a".to_owned() }];
    assert_eq!(decode_transport_rows(&gap, 3), Err(DurableStoreError::Corrupt));
    assert_eq!(check_total_transports(2, 1, 3), Ok(()));
    assert_eq!(check_total_transports(2, 2, 3), Err(DurableStoreError::Corrupt));
    assert_eq!(check_total_transports(usize::MAX, 1, usize::MAX), Err(DurableStoreError::Corrupt));
    assert_eq!(check_extension_payload_lengths(&vec![0, 8], 8), Ok(()));
    assert_eq!(check_extension_payload_lengths(&vec![9], 8), Err(DurableStoreError::Corrupt));
    let too_many = assemble_intent(
        &scope("namespace-a"),
        &"intent-a".to_owned(),
        intent_row(),
        vec!["a".to_owned(), "b".to_owned()],
        vec!["c".to_owned(), "d".to_owned()],
        vec![],
        3,
    );
    assert!(matches!(too_many, Err(DurableStoreError::Corrupt)));
}

fn identity(id: &str, ownership: IdentityOwnership) -> IdentityRecord {
    IdentityRecord {
        scope: scope("namespace-identity"),
        identity_id: id.to_owned(),
        ownership,
        evidence: IdentityEvidence::DeviceVerified,
        expires_at_unix_ms: None,
    }
}

#[test]
fn identities_round_trip_through_their_columns() {
    let record = identity("identity-1", IdentityOwnership::PlatformManaged);
    let (ownership, evidence, expiry) = identity_columns(&record);
    assert_eq!((ownership, evidence), ("platform_managed", "device_verified"));
    let back = identity_from_row(&record.scope, "identity-1", ownership, evidence, expiry)
        .expect("known columns");
    assert!(identity_eq(&back, &record));
    assert!(matches!(
        identity_from_row(&record.scope, "identity-1", "alien", evidence, expiry),
        Err(DurableStoreError::Corrupt)
    ));
    assert!(matches!(check_stored_identity(back, false), Err(DurableStoreError::Corrupt)));
}

#[test]
fn identity_writes_are_write_once() {
    let record = identity("identity-1", IdentityOwnership::UcrNative);
    assert_eq!(persist_identity_step(true, None, &record), Ok(WriteStep::Insert));
    assert_eq!(persist_identity_step(true, Some(&record.clone()), &record), Ok(WriteStep::Duplicate));
    let other = identity("identity-1", IdentityOwnership::Temporary);
    assert_eq!(persist_identity_step(true, Some(&other), &record), Err(DurableStoreError::Conflict));
    assert_eq!(persist_identity_step(false, None, &record), Err(DurableStoreError::InvalidRecord));
}

fn binding(identity: &str) -> ExternalIdentityBinding {
    ExternalIdentityBinding {
        scope: scope("namespace-binding"),
        integration_id: "integration-1".to_owned(),
        external_namespace: "chat".to_owned(),
        external_entity_id: vec![0xff, 0x00, 0x10],
        identity_id: identity.to_owned(),
    }
}

#[test]
fn bindings_need_an_existing_identity_and_are_write_once() {
    let first = binding("identity-1");
    assert_eq!(persist_binding_step(true, None, &first, true), Ok(WriteStep::Insert));
    assert_eq!(persist_binding_step(true, None, &first, false), Err(DurableStoreError::InvalidRecord));
    assert_eq!(persist_binding_step(true, Some(&first.clone()), &first, false), Ok(WriteStep::Duplicate));
    assert_eq!(
        persist_binding_step(true, Some(&binding("identity-2")), &first, true),
        Err(DurableStoreError::Conflict)
    );
    assert_eq!(persist_binding_step(false, None, &first, true), Err(DurableStoreError::InvalidRecord));
    assert_eq!(check_external_entity_id(&[0; 4], 4), Ok(()));
    assert_eq!(check_external_entity_id(&[0; 5], 4), Err(DurableStoreError::InvalidRecord));
}

#[test]
fn binding_rows_read_back_the_requested_key() {
    let s = scope("namespace-binding");
    let read = binding_from_row(&s, "integration-1", "chat", &[0xff, 0x00, 0x10], Some("identity-1".to_owned()))
        .expect("stored binding");
    assert_eq!(read.identity_id, "identity-1");
    assert_eq!(read.external_entity_id, vec![0xff, 0x00, 0x10]);
    assert!(binding_from_row(&s, "integration-1", "chat", &[1], None).is_none());
}

fn crypto(capability: Option<&str>, epoch: u64) -> GroupCryptoState {
    GroupCryptoState { capability_id: capability.map(|c| c.to_owned()), epoch, state_ref: None }
}

#[test]
fn mls_bootstrap_and_creation_plans() {
    assert_eq!(check_bootstrap_template(&crypto(None, 0)), Ok(()));
    assert_eq!(check_bootstrap_template(&crypto(None, 1)), Err(GroupMlsStoreError::InvalidBootstrap));
    assert_eq!(check_bootstrap_template(&crypto(Some("mls"), 0)), Err(GroupMlsStoreError::InvalidBootstrap));
    let template = mls_group(crypto(None, 0), 1);
    let stored = mls_group(crypto(Some("mls"), 3), 1);
    let current = crypto(Some("mls"), 3);
    assert_eq!(create_group_plan(None, &template, None), Ok(CreateGroupPlan::CreateNew));
    assert_eq!(create_group_plan(Some(&stored), &template, Some(&current)), Ok(CreateGroupPlan::Reconfirm));
    assert_eq!(
        create_group_plan(Some(&stored), &template, Some(&crypto(Some("mls"), 4))),
        Err(GroupMlsStoreError::Durable(DurableStoreError::Conflict))
    );
    assert_eq!(
        create_group_plan(Some(&mls_group(crypto(Some("mls"), 3), 2)), &template, Some(&current)),
        Err(GroupMlsStoreError::Durable(DurableStoreError::Conflict))
    );
    assert_eq!(
        create_group_plan(None, &template, Some(&current)),
        Err(GroupMlsStoreError::Durable(DurableStoreError::Corrupt))
    );
    assert_eq!(
        create_group_plan(Some(&stored), &template, None),
        Err(GroupMlsStoreError::Durable(DurableStoreError::Corrupt))
    );
}

fn mls_group(crypto_state: GroupCryptoState, revision: u64) -> GroupRecord {
    GroupRecord {
        scope: TenantScope { tenant_id: "tenant-mls".to_owned(), namespace_id: None },
        group_id: "group-mls".to_owned(),
        conversation: ConversationRef { conversation_id: "conversation-mls".to_owned(), kind: ConversationKind::PrivateGroup },
        ownership: GroupOwnership::SharedAdmin,
        history_policy: GroupHistoryPolicy::NoHistory,
        delivery_policy: DeliveryPolicy::Durable,
        crypto_state,
        public_policy: None,
        bridge_mappings: Vec::new(),
        replication_generation: 1,
        revision,
    }
}

#[test]
fn mls_change_requests_and_retries() {
    let s = scope("namespace-mls");
    assert_eq!(check_change_request(false, &s, &s.clone()), Ok(()));
    assert_eq!(check_change_request(true, &s, &s.clone()), Err(GroupMlsStoreError::InvalidChangeMaterial));
    assert_eq!(transition_lookup(true, true), Ok(TransitionLookup::CheckRetry));
    assert_eq!(transition_lookup(false, false), Ok(TransitionLookup::ApplyNew));
    assert_eq!(
        transition_lookup(false, true),
        Err(GroupMlsStoreError::Durable(DurableStoreError::Conflict))
    );
    let stored = StoredTransition {
        group_id: "group-1".to_owned(),
        actor_device_id: "device-1".to_owned(),
        request_fingerprint: vec![7; 32],
    };
    assert_eq!(check_stored_transition(&stored, "group-1", "device-1", &[7; 32]), Ok(()));
    assert_eq!(
        check_stored_transition(&stored, "group-1", "device-1", &[8; 32]),
        Err(GroupMlsStoreError::Durable(DurableStoreError::Conflict))
    );
    let actor = PrincipalRef { principal_id: "person-1".to_owned(), kind: PrincipalKind::Person };
    let intruder = PrincipalRef { principal_id: "person-2".to_owned(), kind: PrincipalKind::Person };
    let fingerprint = vec![3_u8; 32];
    assert_eq!(
        confirm_retry(Some((&actor, fingerprint.as_slice())), &actor, Some(fingerprint.as_slice())),
        Ok(DurableRecordStatus::Duplicate)
    );
    assert_eq!(
        confirm_retry(Some((&intruder, fingerprint.as_slice())), &actor, Some(fingerprint.as_slice())),
        Err(GroupMlsStoreError::Durable(DurableStoreError::PermissionDenied))
    );
    assert_eq!(
        confirm_retry(Some((&actor, fingerprint.as_slice())), &actor, Some(&[4_u8; 32][..])),
        Err(GroupMlsStoreError::Durable(DurableStoreError::Corrupt))
    );
    assert_eq!(
        confirm_retry(None, &actor, Some(fingerprint.as_slice())),
        Err(GroupMlsStoreError::Durable(DurableStoreError::Corrupt))
    );
    assert_eq!(require_mls_capability(&Some("ucr.mls".to_owned()), "ucr.mls"), Ok(()));
    assert_eq!(
        require_mls_capability(&None, "ucr.mls"),
        Err(GroupMlsStoreError::InvalidChangeMaterial)
    );
}

#[test]
fn devices_must_belong_to_their_principal() {
    let device = DeviceDescriptor {
        device_id: "device-1".to_owned(),
        identity_id: "identity-1".to_owned(),
        state: DeviceLifecycleState::Active,
    };
    let person = PrincipalRef { principal_id: "person-1".to_owned(), kind: PrincipalKind::Person };
    let as_device = PrincipalRef { principal_id: "device-1".to_owned(), kind: PrincipalKind::Device };
    assert_eq!(require_device_for_principal(Some(&device), true, true, &person, "device-1", Some("identity-1")), Ok(()));
    assert_eq!(
        require_device_for_principal(Some(&device), true, true, &person, "device-1", Some("identity-2")),
        Err(GroupMlsStoreError::TargetDeviceMismatch)
    );
    assert_eq!(
        require_device_for_principal(Some(&device), true, true, &person, "device-1", None),
        Err(GroupMlsStoreError::TargetDeviceMismatch)
    );
    assert_eq!(require_device_for_principal(Some(&device), true, true, &as_device, "device-1", None), Ok(()));
    assert_eq!(
        require_device_for_principal(Some(&device), true, true, &as_device, "device-2", None),
        Err(GroupMlsStoreError::TargetDeviceMismatch)
    );
    assert_eq!(
        require_device_for_principal(Some(&device), false, true, &as_device, "device-1", None),
        Err(GroupMlsStoreError::TargetDeviceMismatch)
    );
    assert_eq!(require_device_for_principal(Some(&device), false, false, &as_device, "device-1", None), Ok(()));
    assert_eq!(
        require_device_for_principal(None, true, false, &as_device, "device-1", None),
        Err(GroupMlsStoreError::TargetDeviceMismatch)
    );
    assert_eq!(device_belongs(Ok(())), Ok(true));
    assert_eq!(device_belongs(Err(GroupMlsStoreError::TargetDeviceMismatch)), Ok(false));
    assert_eq!(
        device_belongs(Err(GroupMlsStoreError::ActorDeviceMismatch)),
        Err(GroupMlsStoreError::ActorDeviceMismatch)
    );
}

#[test]
fn mls_transitions_by_change_kind() {
    assert_eq!(transition_plan(GroupChangeKind::AddMember, 1), Ok(TransitionPlan::Add));
    assert_eq!(transition_plan(GroupChangeKind::AddMember, 0), Err(GroupMlsStoreError::InvalidChangeMaterial));
    assert_eq!(transition_plan(GroupChangeKind::RemoveMember, 0), Ok(TransitionPlan::Remove));
    assert_eq!(transition_plan(GroupChangeKind::RemoveMember, 1), Err(GroupMlsStoreError::InvalidChangeMaterial));
    assert_eq!(transition_plan(GroupChangeKind::ChangeRole, 0), Ok(TransitionPlan::Rekey));
    assert_eq!(transition_plan(GroupChangeKind::TransferOwnership, 0), Ok(TransitionPlan::Rekey));
    assert_eq!(transition_plan(GroupChangeKind::SetHistoryPolicy, 0), Err(GroupMlsStoreError::InvalidChangeMaterial));
    let current = vec!["d1".to_owned(), "d2".to_owned(), "d3".to_owned()];
    assert_eq!(check_admissions(&current, &vec!["d4".to_owned()]), Ok(()));
    assert_eq!(
        check_admissions(&current, &vec!["d4".to_owned(), "d2".to_owned()]),
        Err(GroupMlsStoreError::TargetDeviceMismatch)
    );
    assert_eq!(
        select_removed_devices(&current, &vec![true, false, true]),
        Ok(vec!["d1".to_owned(), "d3".to_owned()])
    );
    assert_eq!(
        select_removed_devices(&current, &vec![false, false, false]),
        Err(GroupMlsStoreError::TargetDeviceMismatch)
    );
    assert_eq!(check_mls_state(&crypto(Some("mls"), 3), &crypto(Some("mls"), 3)), Ok(()));
    assert_eq!(
        check_mls_state(&crypto(Some("mls"), 4), &crypto(Some("mls"), 3)),
        Err(GroupMlsStoreError::Durable(DurableStoreError::Corrupt))
    );
    assert_eq!(check_own_device("d1", "d1"), Ok(()));
    assert_eq!(check_own_device("d1", "d2"), Err(GroupMlsStoreError::ActorDeviceMismatch));
    assert_eq!(check_applied_status(DurableRecordStatus::Persisted), Ok(()));
    assert_eq!(
        check_applied_status(DurableRecordStatus::Duplicate),
        Err(GroupMlsStoreError::Durable(DurableStoreError::Conflict))
    );
}
