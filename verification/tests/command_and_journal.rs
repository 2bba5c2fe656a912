use ucr_storage_sqlite::codec::ProtocolVersion;
use ucr_storage_sqlite::command::{
    accept_command_step, admit_command, check_canonical_extensions, decode_extension_rows,
    decode_protocol_version, extensions_eq, map_command_error, AcceptStep, CommandEnvelope,
    CommandError, ExtensionRow, ProtocolExtension, StoredCommand, StoredCommandProtocol,
};
use ucr_storage_sqlite::error::DurableStoreError;
use ucr_storage_sqlite::journal::{
    append_event_step, check_terminal_request, confirm_existing_terminal, stored_event_eq,
    stored_event_from, terminal_event_step, EventAppendStatus, EventEnvelope, TerminalStep,
};
use ucr_storage_sqlite::principal::ActorKind;
use ucr_storage_sqlite::record::WriteStep;
use ucr_storage_sqlite::scope::TenantScope;

fn scope(namespace: Option<&str>) -> TenantScope {
    TenantScope {
        tenant_id: "tenant-a".to_owned(),
        namespace_id: namespace.map(|n| n.to_owned()),
    }
}

fn extension(name: &str, critical: bool, payload: &[u8]) -> ProtocolExtension {
    ProtocolExtension { name: name.to_owned(), critical, payload: payload.to_vec() }
}

fn command(id: &str, key: &str, payload: &[u8]) -> CommandEnvelope {
    CommandEnvelope {
        scope: scope(None),
        command_id: id.to_owned(),
        command_type: "message.send".to_owned(),
        payload: payload.to_vec(),
        idempotency_key: Some(key.to_owned()),
        schema_version: ProtocolVersion { major: 1, minor: 0 },
        extensions: vec![extension("ucr.a", false, b"a")],
    }
}

fn stored(command: &CommandEnvelope) -> StoredCommand {
    StoredCommand {
        command_id: command.command_id.clone(),
        command_type: command.command_type.clone(),
        payload: command.payload.clone(),
        protocol: Some(StoredCommandProtocol {
            schema_version: command.schema_version,
            extensions: command.extensions.clone(),
        }),
    }
}

fn event(id: &str, causation: Option<&str>, payload: &[u8]) -> EventEnvelope {
    EventEnvelope {
        scope: scope(Some("ns")),
        event_id: id.to_owned(),
        event_type: "command.completed".to_owned(),
        payload: payload.to_vec(),
        actor_id: "actor-1".to_owned(),
        actor_kind: ActorKind::System,
        on_behalf_of: None,
        source_device_id: "device-1".to_owned(),
        source_identity_id: "identity-1".to_owned(),
        wall_time_unix_ms: 1_700_000_000_000,
        logical_order: 258,
        correlation_id: "corr-1".to_owned(),
        causation_id: causation.map(|c| c.to_owned()),
        idempotency_key: None,
        schema_version: ProtocolVersion { major: 1, minor: 2 },
        integrity_metadata: vec![9, 9],
    }
}

#[test]
fn command_refusals_map_to_store_errors() {
    assert_eq!(map_command_error(CommandError::IdempotencyConflict), DurableStoreError::Conflict);
    for error in [
        CommandError::InvalidCommandType,
        CommandError::MissingIdempotencyKey,
        CommandError::EmptyIdempotencyKey,
        CommandError::IdempotencyKeyTooLong,
        CommandError::PayloadTooLarge,
        CommandError::InvalidSchemaVersion,
        CommandError::InvalidExtension,
        CommandError::DuplicateExtension,
        CommandError::TooManyExtensions,
        CommandError::ExtensionPayloadTooLarge,
    ] {
        assert_eq!(map_command_error(error), DurableStoreError::InvalidRecord);
    }
}

#[test]
fn admitted_commands_need_an_idempotency_key() {
    assert!(admit_command(Ok(command("c1", "k1", b"x"))).is_ok());
    let mut keyless = command("c1", "k1", b"x");
    keyless.idempotency_key = None;
    assert!(matches!(admit_command(Ok(keyless)), Err(DurableStoreError::InvalidRecord)));
    assert!(matches!(
        admit_command(Err(CommandError::PayloadTooLarge)),
        Err(DurableStoreError::InvalidRecord)
    ));
    assert!(matches!(
        admit_command(Err(CommandError::IdempotencyConflict)),
        Err(DurableStoreError::Conflict)
    ));
}

#[test]
fn accepted_command_is_deduplicated_on_retry() {
    let first = command("c1", "k1", b"payload");
    assert!(matches!(accept_command_step(&first, None, false), Ok(AcceptStep::Insert)));
    let row = stored(&first);
    let retry = command("c1-retry", "k1", b"payload");
    match accept_command_step(&retry, Some(&row), false) {
        Ok(AcceptStep::Duplicate(original)) => assert_eq!(original, "c1"),
        other => panic!("expected duplicate, got {other:?}"),
    }
}

#[test]
fn idempotency_key_reuse_with_other_content_conflicts() {
    let first = command("c1", "k1", b"payload");
    let row = stored(&first);
    let changed = command("c2", "k1", b"other payload");
    assert!(matches!(
        accept_command_step(&changed, Some(&row), false),
        Err(DurableStoreError::Conflict)
    ));
    let mut other_version = command("c1", "k1", b"payload");
    other_version.schema_version = ProtocolVersion { major: 1, minor: 1 };
    assert!(matches!(
        accept_command_step(&other_version, Some(&row), false),
        Err(DurableStoreError::Conflict)
    ));
    let mut other_extensions = command("c1", "k1", b"payload");
    other_extensions.extensions = vec![extension("ucr.a", true, b"a")];
    assert!(matches!(
        accept_command_step(&other_extensions, Some(&row), false),
        Err(DurableStoreError::Conflict)
    ));
}

#[test]
fn scoped_command_id_reuse_conflicts_with_a_new_key() {
    let reused = command("c1", "k2", b"payload");
    assert!(matches!(accept_command_step(&reused, None, true), Err(DurableStoreError::Conflict)));
}

#[test]
fn stored_command_without_protocol_metadata_is_corrupt() {
    let first = command("c1", "k1", b"payload");
    let mut row = stored(&first);
    row.protocol = None;
    assert!(matches!(accept_command_step(&first, Some(&row), false), Err(DurableStoreError::Corrupt)));
    let mut keyless = first.clone();
    keyless.idempotency_key = None;
    assert!(matches!(
        accept_command_step(&keyless, None, false),
        Err(DurableStoreError::InvalidRecord)
    ));
}

#[test]
fn protocol_versions_need_a_positive_major() {
    assert_eq!(decode_protocol_version(1, 0), Ok(ProtocolVersion { major: 1, minor: 0 }));
    assert_eq!(decode_protocol_version(0, 3), Err(DurableStoreError::Corrupt));
    assert_eq!(decode_protocol_version(1, -1), Err(DurableStoreError::Corrupt));
    assert_eq!(decode_protocol_version(i64::MAX, 0), Err(DurableStoreError::Corrupt));
}

fn row(position: i64, name: &str, critical: i64) -> ExtensionRow {
    ExtensionRow { position, name: name.to_owned(), critical, payload: vec![1] }
}

#[test]
fn extension_rows_decode_in_position_order() {
    let decoded = decode_extension_rows(&vec![row(0, "a", 0), row(1, "b", 1)], 4)
        .expect("contiguous rows");
    assert_eq!(decoded.len(), 2);
    assert_eq!(decoded[0].name, "a");
    assert!(!decoded[0].critical);
    assert!(decoded[1].critical);
    assert!(decode_extension_rows(&vec![], 0).expect("no rows").is_empty());
}

#[test]
fn malformed_extension_rows_are_corrupt() {
    let gap = vec![row(0, "a", 0), row(2, "b", 0)];
    assert!(matches!(decode_extension_rows(&gap, 4), Err(DurableStoreError::Corrupt)));
    let bad_flag = vec![row(0, "a", 2)];
    assert!(matches!(decode_extension_rows(&bad_flag, 4), Err(DurableStoreError::Corrupt)));
    let oversized = vec![row(0, "a", 0), row(1, "b", 0), row(2, "c", 0)];
    assert!(matches!(decode_extension_rows(&oversized, 2), Err(DurableStoreError::Corrupt)));
}

#[test]
fn only_canonical_extensions_are_accepted() {
    let stored = vec![extension("a", false, b"1"), extension("b", false, b"2")];
    assert!(check_canonical_extensions(stored.clone(), Some(stored.clone())).is_ok());
    let reordered = vec![extension("b", false, b"2"), extension("a", false, b"1")];
    assert!(matches!(
        check_canonical_extensions(reordered, Some(stored.clone())),
        Err(DurableStoreError::Corrupt)
    ));
    assert!(matches!(check_canonical_extensions(stored.clone(), None), Err(DurableStoreError::Corrupt)));
    assert!(extensions_eq(&stored, &stored.clone()));
    assert!(!extensions_eq(&stored, &vec![extension("a", false, b"1")]));
}

#[test]
fn journal_rows_encode_actor_order_and_version() {
    let row = stored_event_from(&event("e1", Some("c1"), b"done"));
    assert_eq!(row.actor_kind, "system");
    assert_eq!(row.logical_order, vec![0, 0, 0, 0, 0, 0, 1, 2]);
    assert_eq!((row.schema_major, row.schema_minor), (1, 2));
    assert_eq!(row.causation_id.as_deref(), Some("c1"));
    assert!(stored_event_eq(&row, &row.clone()));
    let other = stored_event_from(&event("e1", Some("c1"), b"different"));
    assert!(!stored_event_eq(&row, &other));
}

#[test]
fn event_append_is_idempotent_and_conflicts_on_change() {
    let expected = stored_event_from(&event("e1", None, b"x"));
    let changed = stored_event_from(&event("e1", None, b"y"));
    assert_eq!(append_event_step(true, None, &expected), Ok(WriteStep::Insert));
    assert_eq!(append_event_step(true, Some(&expected.clone()), &expected), Ok(WriteStep::Duplicate));
    assert_eq!(append_event_step(true, Some(&changed), &expected), Err(DurableStoreError::Conflict));
    assert_eq!(append_event_step(false, None, &expected), Err(DurableStoreError::InvalidRecord));
}

#[test]
fn terminal_event_requires_matching_scope_and_causation() {
    let e = event("e1", Some("c1"), b"x");
    assert_eq!(check_terminal_request(true, &e, &scope(Some("ns")), "c1"), Ok(()));
    assert_eq!(
        check_terminal_request(true, &e, &scope(None), "c1"),
        Err(DurableStoreError::InvalidRecord)
    );
    assert_eq!(
        check_terminal_request(true, &e, &scope(Some("ns")), "c2"),
        Err(DurableStoreError::InvalidRecord)
    );
    assert_eq!(
        check_terminal_request(false, &e, &scope(Some("ns")), "c1"),
        Err(DurableStoreError::InvalidRecord)
    );
    let uncaused = event("e1", None, b"x");
    assert_eq!(
        check_terminal_request(true, &uncaused, &scope(Some("ns")), "c1"),
        Err(DurableStoreError::InvalidRecord)
    );
}

#[test]
fn second_terminal_event_for_the_same_command_conflicts() {
    assert_eq!(terminal_event_step(true, None, "e1"), Ok(TerminalStep::Append));
    assert_eq!(terminal_event_step(true, Some("e1"), "e1"), Ok(TerminalStep::ConfirmExisting));
    assert_eq!(terminal_event_step(true, Some("e1"), "e2"), Err(DurableStoreError::Conflict));
    assert_eq!(terminal_event_step(false, None, "e1"), Err(DurableStoreError::InvalidRecord));
}

#[test]
fn retried_terminal_event_is_confirmed_against_the_journal() {
    let expected = stored_event_from(&event("e1", Some("c1"), b"x"));
    let damaged = stored_event_from(&event("e1", Some("c1"), b"tampered"));
    assert_eq!(
        confirm_existing_terminal(Some(&expected.clone()), &expected),
        Ok(EventAppendStatus::Duplicate)
    );
    assert_eq!(confirm_existing_terminal(Some(&damaged), &expected), Err(DurableStoreError::Corrupt));
    assert_eq!(confirm_existing_terminal(None, &expected), Err(DurableStoreError::Corrupt));
}
