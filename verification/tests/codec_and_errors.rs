use ucr_storage_sqlite::codec::{
    decode_u32, decode_u64, encode_bool, encode_u64, from_sql_seq, parse_bool, to_sql_seq, version,
    ProtocolVersion,
};
use ucr_storage_sqlite::error::DurableStoreError;
use ucr_storage_sqlite::principal::{
    actor_kind_name, parse_principal_kind, principal_kind_name, same_principal, ActorKind,
    PrincipalKind, PrincipalRef,
};
use ucr_storage_sqlite::scope::{
    namespace_storage_key, require_same_scope, scope_eq, stored_scope, TenantScope,
};
use ucr_storage_sqlite::sqlite_error::{
    classify_sqlite_error, harden_store_permissions, map_bounded_read_error, map_insert_error,
    map_io_error, map_schema_change_error, map_sqlite_error, prepare_new_store_file, SqliteCode,
    SqliteFailure,
};

fn scope(namespace: Option<&str>) -> TenantScope {
    TenantScope {
        tenant_id: "tenant-a".to_owned(),
        namespace_id: namespace.map(|n| n.to_owned()),
    }
}

fn sqlite_failure(code: i32) -> rusqlite::Error {
    rusqlite::Error::SqliteFailure(rusqlite::ffi::Error::new(code), None)
}

#[test]
fn u64_columns_are_big_endian_and_round_trip() {
    assert_eq!(encode_u64(0x0102_0304_0506_0708), vec![1, 2, 3, 4, 5, 6, 7, 8]);
    for value in [0_u64, 1, 255, 256, u64::MAX, 0x8000_0000_0000_0000] {
        assert_eq!(decode_u64(&encode_u64(value)), Ok(value));
    }
    assert_eq!(decode_u64(&[1, 2, 3]), Err(DurableStoreError::Corrupt));
    assert_eq!(decode_u64(&[0; 9]), Err(DurableStoreError::Corrupt));
}

#[test]
fn sql_sequences_stay_within_the_integer_range() {
    assert_eq!(to_sql_seq(42), Ok(42));
    assert_eq!(to_sql_seq(i64::MAX as u64), Ok(i64::MAX));
    assert_eq!(to_sql_seq(i64::MAX as u64 + 1), Err(DurableStoreError::Corrupt));
    assert_eq!(from_sql_seq(7), Ok(7));
    assert_eq!(from_sql_seq(-1), Err(DurableStoreError::Corrupt));
    assert_eq!(from_sql_seq(to_sql_seq(123).unwrap()), Ok(123));
}

#[test]
fn flags_and_versions_decode_only_valid_values() {
    assert_eq!(parse_bool(0), Ok(false));
    assert_eq!(parse_bool(1), Ok(true));
    assert_eq!(parse_bool(2), Err(DurableStoreError::Corrupt));
    assert_eq!(parse_bool(encode_bool(true)), Ok(true));
    assert_eq!(parse_bool(encode_bool(false)), Ok(false));
    assert_eq!(decode_u32(u32::MAX as i64), Ok(u32::MAX));
    assert_eq!(decode_u32(u32::MAX as i64 + 1), Err(DurableStoreError::Corrupt));
    assert_eq!(decode_u32(-5), Err(DurableStoreError::Corrupt));
    assert_eq!(version(1, 2), Ok(ProtocolVersion { major: 1, minor: 2 }));
    assert_eq!(version(-1, 2), Err(DurableStoreError::Corrupt));
}

#[test]
fn namespace_none_and_named_namespace_have_distinct_keys() {
    let root = scope(None);
    let named = scope(Some("namespace-a"));
    let root_key = namespace_storage_key(&root);
    let named_key = namespace_storage_key(&named);
    assert_eq!((root_key.present, root_key.value), (0, ""));
    assert_eq!((named_key.present, named_key.value), (1, "namespace-a"));
    assert!(!scope_eq(&root, &named));
    assert!(scope_eq(&named, &scope(Some("namespace-a"))));
}

#[test]
fn stored_scope_round_trips_and_rejects_inconsistent_flags() {
    let named = scope(Some("namespace-a"));
    let key = namespace_storage_key(&named);
    let back = stored_scope("tenant-a", key.present, key.value).expect("consistent scope");
    assert!(scope_eq(&back, &named));
    let root = stored_scope("tenant-a", 0, "").expect("root scope");
    assert!(root.namespace_id.is_none());
    assert!(matches!(stored_scope("tenant-a", 1, ""), Err(DurableStoreError::Corrupt)));
    assert!(matches!(stored_scope("tenant-a", 0, "x"), Err(DurableStoreError::Corrupt)));
    assert!(matches!(stored_scope("tenant-a", 2, "x"), Err(DurableStoreError::Corrupt)));
}

#[test]
fn acting_outside_the_own_scope_is_refused() {
    assert_eq!(require_same_scope(&scope(None), &scope(None)), Ok(()));
    assert_eq!(
        require_same_scope(&scope(None), &scope(Some("other"))),
        Err(DurableStoreError::PermissionDenied)
    );
}

#[test]
fn principal_kinds_round_trip_through_their_text() {
    let kinds = [
        PrincipalKind::Person,
        PrincipalKind::Device,
        PrincipalKind::ServiceAccount,
        PrincipalKind::AiAgent,
        PrincipalKind::Bot,
        PrincipalKind::Organization,
        PrincipalKind::Automation,
        PrincipalKind::ExternalPlatform,
    ];
    for kind in kinds {
        assert_eq!(parse_principal_kind(principal_kind_name(kind)), Ok(kind));
    }
    assert_eq!(principal_kind_name(PrincipalKind::ServiceAccount), "service_account");
    assert_eq!(parse_principal_kind("robot"), Err(DurableStoreError::Corrupt));
    assert_eq!(actor_kind_name(ActorKind::AiAgent), "ai_agent");
    let a = PrincipalRef { principal_id: "p1".to_owned(), kind: PrincipalKind::Person };
    let b = PrincipalRef { principal_id: "p1".to_owned(), kind: PrincipalKind::Bot };
    assert!(same_principal(&a, &a.clone()));
    assert!(!same_principal(&a, &b));
}

#[test]
fn sqlite_failures_map_to_explicit_store_errors() {
    assert_eq!(map_sqlite_error(&sqlite_failure(13)), DurableStoreError::Full);
    assert_eq!(map_sqlite_error(&sqlite_failure(11)), DurableStoreError::Corrupt);
    assert_eq!(map_sqlite_error(&sqlite_failure(26)), DurableStoreError::Corrupt);
    assert_eq!(map_sqlite_error(&sqlite_failure(8)), DurableStoreError::PermissionDenied);
    assert_eq!(map_sqlite_error(&sqlite_failure(3)), DurableStoreError::PermissionDenied);
    assert_eq!(map_sqlite_error(&sqlite_failure(23)), DurableStoreError::PermissionDenied);
    assert_eq!(map_sqlite_error(&sqlite_failure(5)), DurableStoreError::Unavailable);
    assert_eq!(map_sqlite_error(&sqlite_failure(6)), DurableStoreError::Unavailable);
    assert_eq!(map_sqlite_error(&sqlite_failure(10)), DurableStoreError::Unavailable);
    assert_eq!(map_sqlite_error(&sqlite_failure(14)), DurableStoreError::Unavailable);
    assert_eq!(map_sqlite_error(&sqlite_failure(19)), DurableStoreError::Internal);
    assert_eq!(map_sqlite_error(&rusqlite::Error::QueryReturnedNoRows), DurableStoreError::Corrupt);
    assert_eq!(map_sqlite_error(&rusqlite::Error::InvalidQuery), DurableStoreError::Internal);
    assert_eq!(
        classify_sqlite_error(&sqlite_failure(13)),
        SqliteFailure::Code(SqliteCode::DiskFull)
    );
    assert_eq!(
        classify_sqlite_error(&rusqlite::Error::InvalidQuery),
        SqliteFailure::InvalidQuery
    );
}

#[test]
fn constraint_violations_depend_on_the_operation() {
    let constraint = sqlite_failure(19);
    assert_eq!(map_schema_change_error(&constraint), DurableStoreError::Corrupt);
    assert_eq!(map_insert_error(&constraint), DurableStoreError::Conflict);
    assert_eq!(map_bounded_read_error(&rusqlite::Error::InvalidQuery), DurableStoreError::Corrupt);
    assert_eq!(map_bounded_read_error(&sqlite_failure(13)), DurableStoreError::Full);
    assert_eq!(map_insert_error(&sqlite_failure(13)), DurableStoreError::Full);
}

#[test]
fn file_system_failures_map_to_store_errors() {
    let denied = std::io::Error::new(std::io::ErrorKind::PermissionDenied, "denied");
    let other = std::io::Error::new(std::io::ErrorKind::NotFound, "missing");
    assert_eq!(map_io_error(&denied), DurableStoreError::PermissionDenied);
    assert_eq!(map_io_error(&other), DurableStoreError::Unavailable);
    assert_eq!(prepare_new_store_file(Ok(())), Ok(()));
    assert_eq!(
        prepare_new_store_file(Err(std::io::Error::new(std::io::ErrorKind::AlreadyExists, "x"))),
        Ok(())
    );
    assert_eq!(
        prepare_new_store_file(Err(denied)),
        Err(DurableStoreError::PermissionDenied)
    );
    assert_eq!(harden_store_permissions(Ok(())), Ok(()));
    assert_eq!(harden_store_permissions(Err(other)), Err(DurableStoreError::Unavailable));
}
