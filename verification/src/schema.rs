use vstd::prelude::*;
use crate::error::{DurableStoreError, StorageHealth};
use crate::text::text_eq;

verus! {

/// Schema version of a database created by this library.
pub const SQLITE_SCHEMA_VERSION: u32 = 19;

/// SQLite `application_id` that marks a database as a UCR store ("UCR1").
pub const UCR_SQLITE_APPLICATION_ID: u32 = 0x5543_5231;

/// What opening a database must do, decided from its `application_id` and `user_version`.
#[derive(Clone, Copy, PartialEq, Eq, Debug, Structural)]
pub enum SchemaOpenPlan {
    /// An unmarked, unversioned database: initialize it if it holds no tables.
    InitializeIfEmpty,
    /// The database is at the current version: verify its shape.
    VerifyCurrent,
    /// The database is older: migrate it step by step from this version.
    MigrateFrom(u32),
}

/// The plan for opening a database, or why it must be refused.
pub open spec fn spec_schema_open_plan(application_id: u32, version: u32) -> Result<
    SchemaOpenPlan,
    DurableStoreError,
> {
    if application_id == 0 && version == 0 {
        Ok(SchemaOpenPlan::InitializeIfEmpty)
    } else if application_id != UCR_SQLITE_APPLICATION_ID {
        Err(DurableStoreError::ForeignStore)
    } else if version > SQLITE_SCHEMA_VERSION {
        Err(DurableStoreError::UnsupportedSchemaVersion)
    } else if version == SQLITE_SCHEMA_VERSION {
        Ok(SchemaOpenPlan::VerifyCurrent)
    } else {
        Ok(SchemaOpenPlan::MigrateFrom(version))
    }
}

/// Decides how to open a database from its stored `application_id` and `user_version`.
/// A database of another application is refused, and one newer than this library
/// is never downgraded.
pub fn schema_open_plan(application_id: u32, version: u32) -> (r: Result<
    SchemaOpenPlan,
    DurableStoreError,
>)
    ensures
        r == spec_schema_open_plan(application_id, version),
{
    if application_id == 0 && version == 0 {
        return Ok(SchemaOpenPlan::InitializeIfEmpty);
    }
    if application_id != UCR_SQLITE_APPLICATION_ID {
        return Err(DurableStoreError::ForeignStore);
    }
    if version > SQLITE_SCHEMA_VERSION {
        return Err(DurableStoreError::UnsupportedSchemaVersion);
    }
    if version == SQLITE_SCHEMA_VERSION {
        return Ok(SchemaOpenPlan::VerifyCurrent);
    }
    Ok(SchemaOpenPlan::MigrateFrom(version))
}

/// An unmarked database may only be initialized when it holds no user tables;
/// otherwise it belongs to someone else and is left untouched.
pub fn check_fresh_database(user_table_count: u32) -> (r: Result<(), DurableStoreError>)
    ensures
        user_table_count == 0 ==> r == Ok::<(), DurableStoreError>(()),
        user_table_count != 0 ==> r == Err::<(), DurableStoreError>(
            DurableStoreError::ForeignStore,
        ),
{
    if user_table_count != 0 {
        Err(DurableStoreError::ForeignStore)
    } else {
        Ok(())
    }
}

/// The migration steps from `version` to the current version: step `v` migrates
/// the schema from `v` to `v + 1`. Version 0 is not a known schema.
pub open spec fn spec_migration_steps(version: u32) -> Result<Seq<u32>, DurableStoreError> {
    if version == 0 {
        Err(DurableStoreError::UnsupportedSchemaVersion)
    } else if version >= SQLITE_SCHEMA_VERSION {
        Ok(Seq::empty())
    } else {
        Ok(Seq::new((SQLITE_SCHEMA_VERSION - version) as nat, |i: int| (version + i) as u32))
    }
}

/// The migration steps that bring a known older schema to the current version, in order.
pub fn migration_steps(version: u32) -> (r: Result<Vec<u32>, DurableStoreError>)
    ensures
        match (r, spec_migration_steps(version)) {
            (Ok(steps), Ok(expected)) => steps@ == expected,
            (Err(e), Err(f)) => e == f,
            _ => false,
        },
{
    if version == 0 {
        return Err(DurableStoreError::UnsupportedSchemaVersion);
    }
    let mut steps: Vec<u32> = Vec::new();
    let mut current: u32 = version;
    while current < SQLITE_SCHEMA_VERSION
        invariant
            0 < version,
            version <= current || version >= SQLITE_SCHEMA_VERSION,
            version < SQLITE_SCHEMA_VERSION ==> current <= SQLITE_SCHEMA_VERSION,
            version < SQLITE_SCHEMA_VERSION ==> steps@.len() == current - version,
            version >= SQLITE_SCHEMA_VERSION ==> current == version && steps@.len() == 0,
            forall|i: int| 0 <= i < steps@.len() ==> steps@[i] == version + i,
        decreases SQLITE_SCHEMA_VERSION - current,
    {
        steps.push(current);
        current = current + 1;
    }
    proof {
        if version < SQLITE_SCHEMA_VERSION {
            assert(steps@ =~= Seq::new(
                (SQLITE_SCHEMA_VERSION - version) as nat,
                |i: int| (version + i) as u32,
            ));
        } else {
            assert(steps@ =~= Seq::<u32>::empty());
        }
    }
    Ok(steps)
}

/// Every plan to migrate runs through each intermediate version exactly once and
/// ends at the current version: the steps are consecutive, start at the stored
/// version and the last one migrates to the current version.
pub proof fn lemma_migration_reaches_current(application_id: u32, version: u32)
    requires
        spec_schema_open_plan(application_id, version) == Ok::<
            SchemaOpenPlan,
            DurableStoreError,
        >(SchemaOpenPlan::MigrateFrom(version)),
        version != 0,
    ensures
        spec_migration_steps(version) matches Ok(steps) && steps.len() > 0 && steps[0]
            == version && steps.last() + 1 == SQLITE_SCHEMA_VERSION && forall|i: int|
            0 <= i < steps.len() - 1 ==> #[trigger] steps[i + 1] == steps[i] + 1,
{
}

/// One column of a table as reported by `PRAGMA table_info`: name, declared type,
/// not-null flag and primary-key position.
pub struct ColumnInfo {
    pub name: String,
    pub declared_type: String,
    pub not_null: i64,
    pub primary_key: i64,
}

/// The mathematical content of a [`ColumnInfo`].
pub struct ColumnView {
    pub name: Seq<char>,
    pub declared_type: Seq<char>,
    pub not_null: i64,
    pub primary_key: i64,
}

impl View for ColumnInfo {
    type V = ColumnView;

    open spec fn view(&self) -> ColumnView {
        ColumnView {
            name: self.name@,
            declared_type: self.declared_type@,
            not_null: self.not_null,
            primary_key: self.primary_key,
        }
    }
}

/// Whether two lists of columns agree column by column, in order.
pub open spec fn columns_agree(actual: Seq<ColumnInfo>, expected: Seq<ColumnInfo>) -> bool {
    &&& actual.len() == expected.len()
    &&& forall|i: int| 0 <= i < actual.len() ==> actual[i]@ == expected[i]@
}

/// Checks that a table has exactly the expected columns, in order; any drift in
/// names, types, nullability or keys marks the store as corrupt.
pub fn verify_table_columns(actual: &Vec<ColumnInfo>, expected: &Vec<ColumnInfo>) -> (r: Result<
    (),
    DurableStoreError,
>)
    ensures
        columns_agree(actual@, expected@) ==> r == Ok::<(), DurableStoreError>(()),
        !columns_agree(actual@, expected@) ==> r == Err::<(), DurableStoreError>(
            DurableStoreError::Corrupt,
        ),
{
    if actual.len() != expected.len() {
        return Err(DurableStoreError::Corrupt);
    }
    let mut i: usize = 0;
    while i < actual.len()
        invariant
            actual@.len() == expected@.len(),
            i <= actual@.len(),
            forall|j: int| 0 <= j < i ==> actual@[j]@ == expected@[j]@,
        decreases actual@.len() - i,
    {
        let a = &actual[i];
        let e = &expected[i];
        if !(a.name == e.name) || !(a.declared_type == e.declared_type) || a.not_null
            != e.not_null || a.primary_key != e.primary_key {
            return Err(DurableStoreError::Corrupt);
        }
        i = i + 1;
    }
    Ok(())
}

/// The health reported for the result of SQLite's `quick_check`: only `ok` is healthy.
pub fn health_from_quick_check(result: &str) -> (r: StorageHealth)
    ensures
        result@ == "ok"@ ==> r == StorageHealth::Healthy,
        result@ != "ok"@ ==> r == StorageHealth::Corrupt,
{
    if text_eq(result, "ok") {
        StorageHealth::Healthy
    } else {
        StorageHealth::Corrupt
    }
}

} // verus!
