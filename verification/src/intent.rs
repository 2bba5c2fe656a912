use vstd::prelude::*;
use crate::codec::{decode_u32, decode_u64, encode_u64, spec_decode_u64, u64_be_bytes};
use crate::command::{extensions_eq, extensions_view, ExtensionView, ProtocolExtension};
use crate::error::{DurableRecordStatus, DurableStoreError};
use crate::journal::{clone_opt_text, opt_text, opt_text_eq};
use crate::record::{spec_write_once, spec_write_once_step, write_once_step, WriteStep};
use crate::scope::{scope_eq, ScopeView, TenantScope};
use crate::text::bytes_eq;

verus! {

/// The protocol limits that bound a stored communication intent.
#[derive(Clone, Copy, Debug)]
pub struct IntentLimits {
    /// Largest payload, in bytes.
    pub max_payload_len: u32,
    /// Largest privacy profile or region constraint, in bytes.
    pub max_policy_value_len: usize,
    /// Largest idempotency key, in bytes.
    pub max_idempotency_key_len: usize,
    /// Most transport capabilities, allowed and forbidden together.
    pub max_transport_constraints: usize,
    /// Most protocol extensions.
    pub max_extensions: usize,
    /// Largest extension payload, in bytes.
    pub max_extension_payload_len: usize,
}

/// A `usize` limit compared against an SQLite length, which is an `i64`.
pub open spec fn sql_limit(limit: usize) -> int {
    if limit <= i64::MAX {
        limit as int
    } else {
        i64::MAX as int
    }
}

/// The lengths SQLite reports for the bounded columns of a stored intent;
/// `None` for a column that is NULL.
#[derive(Clone, Copy, Debug)]
pub struct IntentRootLengths {
    pub payload_len: i64,
    pub privacy_len: Option<i64>,
    pub region_len: Option<i64>,
    pub idempotency_len: Option<i64>,
}

/// The length of an optional column, zero when it is NULL.
pub open spec fn len_or_zero(len: Option<i64>) -> int {
    match len {
        Some(n) => n as int,
        None => 0,
    }
}

/// Whether the bounded columns of a stored intent are within the protocol limits.
pub open spec fn root_lengths_ok(lengths: IntentRootLengths, limits: IntentLimits) -> bool {
    &&& 0 <= lengths.payload_len <= limits.max_payload_len
    &&& 0 <= len_or_zero(lengths.privacy_len) <= sql_limit(limits.max_policy_value_len)
    &&& 0 <= len_or_zero(lengths.region_len) <= sql_limit(limits.max_policy_value_len)
    &&& 0 <= len_or_zero(lengths.idempotency_len) <= sql_limit(limits.max_idempotency_key_len)
}

fn limit_as_sql(limit: usize) -> (r: i64)
    ensures
        r == sql_limit(limit),
{
    if limit as u64 <= i64::MAX as u64 {
        limit as i64
    } else {
        i64::MAX
    }
}

fn opt_len(len: Option<i64>) -> (r: i64)
    ensures
        r == len_or_zero(len),
{
    match len {
        Some(n) => n,
        None => 0,
    }
}

/// Checks the bounded columns of a stored intent; an oversized or negative
/// length means the row was tampered with.
pub fn validate_root_field_lengths(lengths: IntentRootLengths, limits: IntentLimits) -> (r: Result<
    (),
    DurableStoreError,
>)
    ensures
        root_lengths_ok(lengths, limits) ==> r is Ok,
        !root_lengths_ok(lengths, limits) ==> r == Err::<(), DurableStoreError>(
            DurableStoreError::Corrupt,
        ),
{
    let payload_len = lengths.payload_len;
    let privacy_len = opt_len(lengths.privacy_len);
    let region_len = opt_len(lengths.region_len);
    let idempotency_len = opt_len(lengths.idempotency_len);
    let policy_limit = limit_as_sql(limits.max_policy_value_len);
    let idempotency_limit = limit_as_sql(limits.max_idempotency_key_len);
    if payload_len < 0 || payload_len > limits.max_payload_len as i64 || privacy_len < 0
        || privacy_len > policy_limit || region_len < 0 || region_len > policy_limit
        || idempotency_len < 0 || idempotency_len > idempotency_limit {
        return Err(DurableStoreError::Corrupt);
    }
    Ok(())
}

/// The stored maximum cost: eight big-endian bytes, or NULL for no limit.
pub fn encode_max_cost(value: Option<u64>) -> (r: Option<Vec<u8>>)
    ensures
        match (value, r) {
            (Some(v), Some(b)) => b@ == u64_be_bytes(v),
            (None, None) => true,
            _ => false,
        },
{
    match value {
        Some(v) => Some(encode_u64(v)),
        None => None,
    }
}

/// The maximum cost read back from its column; a length other than eight is corrupt.
pub open spec fn spec_decode_max_cost(value: Option<Seq<u8>>) -> Result<Option<u64>, DurableStoreError> {
    match value {
        Some(b) => match spec_decode_u64(b) {
            Ok(v) => Ok(Some(v)),
            Err(e) => Err(e),
        },
        None => Ok(None),
    }
}

/// Decodes the stored maximum cost.
pub fn decode_max_cost(value: &Option<Vec<u8>>) -> (r: Result<Option<u64>, DurableStoreError>)
    ensures
        r == spec_decode_max_cost(
            match value {
                Some(b) => Some(b@),
                None => None,
            },
        ),
{
    match value {
        Some(b) => {
            let v = decode_u64(b.as_slice())?;
            Ok(Some(v))
        },
        None => Ok(None),
    }
}

/// The stored priority class: the `u32` as an integer, or NULL.
pub fn encode_priority(value: Option<u32>) -> (r: Option<i64>)
    ensures
        match (value, r) {
            (Some(v), Some(n)) => n == v as i64,
            (None, None) => true,
            _ => false,
        },
{
    match value {
        Some(v) => Some(v as i64),
        None => None,
    }
}

/// The priority class read back from its column; values outside `u32` are corrupt.
pub open spec fn spec_decode_priority(value: Option<i64>) -> Result<Option<u32>, DurableStoreError> {
    match value {
        Some(n) => if 0 <= n <= u32::MAX {
            Ok(Some(n as u32))
        } else {
            Err(DurableStoreError::Corrupt)
        },
        None => Ok(None),
    }
}

/// Decodes the stored priority class.
pub fn decode_priority(value: Option<i64>) -> (r: Result<Option<u32>, DurableStoreError>)
    ensures
        r == spec_decode_priority(value),
{
    match value {
        Some(n) => {
            let v = decode_u32(n)?;
            Ok(Some(v))
        },
        None => Ok(None),
    }
}

/// Optional cost and priority constraints read back unchanged from their columns.
pub proof fn lemma_constraint_columns_round_trip(cost: Option<u64>, priority: Option<u32>)
    ensures
        spec_decode_max_cost(
            match cost {
                Some(v) => Some(u64_be_bytes(v)),
                None => None,
            },
        ) == Ok::<Option<u64>, DurableStoreError>(cost),
        spec_decode_priority(
            match priority {
                Some(v) => Some(v as i64),
                None => None,
            },
        ) == Ok::<Option<u32>, DurableStoreError>(priority),
{
    if let Some(v) = cost {
        crate::codec::lemma_u64_bytes_round_trip(v);
    }
}

/// One stored transport row, read in position order: `(position, capability)`.
#[derive(Clone, Debug)]
pub struct TransportRow {
    pub position: i64,
    pub capability: String,
}

/// The stored transport rows of one disposition decode when their positions are
/// `0, 1, 2, ...` in order and there are at most `max` of them.
pub open spec fn transport_rows_ok(rows: Seq<TransportRow>, max: nat) -> bool {
    &&& rows.len() <= max
    &&& forall|i: int| 0 <= i < rows.len() ==> #[trigger] rows[i].position == i
}

/// The text content of a list of texts.
pub open spec fn texts_view(values: Seq<String>) -> Seq<Seq<char>> {
    values.map_values(|s: String| s@)
}

/// Decodes the stored transport capabilities of one disposition.
pub fn decode_transport_rows(rows: &Vec<TransportRow>, max: usize) -> (r: Result<
    Vec<String>,
    DurableStoreError,
>)
    ensures
        transport_rows_ok(rows@, max as nat) <==> r is Ok,
        r is Err ==> r == Err::<Vec<String>, DurableStoreError>(DurableStoreError::Corrupt),
        r matches Ok(v) ==> texts_view(v@) == rows@.map_values(|row: TransportRow| row.capability@),
{
    let mut values: Vec<String> = Vec::new();
    let mut i: usize = 0;
    while i < rows.len()
        invariant
            i <= rows@.len(),
            i <= max,
            values@.len() == i,
            forall|j: int| 0 <= j < i ==> #[trigger] rows@[j].position == j,
            forall|j: int| 0 <= j < i ==> #[trigger] values@[j]@ == rows@[j].capability@,
        decreases rows@.len() - i,
    {
        let row = &rows[i];
        if row.position < 0 || row.position as u64 != i as u64 || i >= max {
            return Err(DurableStoreError::Corrupt);
        }
        values.push(row.capability.clone());
        i = i + 1;
    }
    assert(texts_view(values@) =~= rows@.map_values(|row: TransportRow| row.capability@));
    Ok(values)
}

/// Checks that the allowed and forbidden capabilities together stay within the limit.
pub fn check_total_transports(allowed: usize, forbidden: usize, max: usize) -> (r: Result<
    (),
    DurableStoreError,
>)
    ensures
        allowed + forbidden <= max ==> r is Ok,
        allowed + forbidden > max ==> r == Err::<(), DurableStoreError>(DurableStoreError::Corrupt),
{
    match allowed.checked_add(forbidden) {
        Some(total) => {
            if total > max {
                Err(DurableStoreError::Corrupt)
            } else {
                Ok(())
            }
        },
        None => Err(DurableStoreError::Corrupt),
    }
}

/// Checks the payload lengths SQLite reports for the stored extensions of an intent.
pub fn check_extension_payload_lengths(lengths: &Vec<i64>, max: usize) -> (r: Result<
    (),
    DurableStoreError,
>)
    ensures
        (forall|i: int| 0 <= i < lengths@.len() ==> 0 <= #[trigger] lengths@[i] <= sql_limit(max))
            ==> r is Ok,
        !(forall|i: int| 0 <= i < lengths@.len() ==> 0 <= #[trigger] lengths@[i] <= sql_limit(max))
            ==> r == Err::<(), DurableStoreError>(DurableStoreError::Corrupt),
{
    let limit = limit_as_sql(max);
    let mut i: usize = 0;
    while i < lengths.len()
        invariant
            i <= lengths@.len(),
            limit == sql_limit(max),
            forall|j: int| 0 <= j < i ==> 0 <= #[trigger] lengths@[j] <= sql_limit(max),
        decreases lengths@.len() - i,
    {
        if lengths[i] < 0 || lengths[i] > limit {
            return Err(DurableStoreError::Corrupt);
        }
        i = i + 1;
    }
    Ok(())
}

/// The constraints a sender attaches to a communication intent.
#[derive(Clone, Debug)]
pub struct IntentConstraints {
    pub allowed_transport_capabilities: Vec<String>,
    pub forbidden_transport_capabilities: Vec<String>,
    pub privacy_profile: Option<String>,
    pub region_constraint: Option<String>,
    pub max_cost_microunits: Option<u64>,
    pub priority_class: Option<u32>,
}

/// A durable request to communicate with an identity.
#[derive(Clone, Debug)]
pub struct CommunicationIntent {
    pub intent_id: String,
    pub scope: TenantScope,
    pub target_identity_id: String,
    pub payload: Vec<u8>,
    pub constraints: IntentConstraints,
    pub correlation_id: String,
    pub causation_id: Option<String>,
    pub idempotency_key: Option<String>,
    pub extensions: Vec<ProtocolExtension>,
}

/// The mathematical content of a [`CommunicationIntent`].
pub struct IntentView {
    pub intent_id: Seq<char>,
    pub scope: ScopeView,
    pub target_identity_id: Seq<char>,
    pub payload: Seq<u8>,
    pub allowed: Seq<Seq<char>>,
    pub forbidden: Seq<Seq<char>>,
    pub privacy_profile: Option<Seq<char>>,
    pub region_constraint: Option<Seq<char>>,
    pub max_cost_microunits: Option<u64>,
    pub priority_class: Option<u32>,
    pub correlation_id: Seq<char>,
    pub causation_id: Option<Seq<char>>,
    pub idempotency_key: Option<Seq<char>>,
    pub extensions: Seq<ExtensionView>,
}

impl View for CommunicationIntent {
    type V = IntentView;

    open spec fn view(&self) -> IntentView {
        IntentView {
            intent_id: self.intent_id@,
            scope: self.scope@,
            target_identity_id: self.target_identity_id@,
            payload: self.payload@,
            allowed: texts_view(self.constraints.allowed_transport_capabilities@),
            forbidden: texts_view(self.constraints.forbidden_transport_capabilities@),
            privacy_profile: opt_text(self.constraints.privacy_profile),
            region_constraint: opt_text(self.constraints.region_constraint),
            max_cost_microunits: self.constraints.max_cost_microunits,
            priority_class: self.constraints.priority_class,
            correlation_id: self.correlation_id@,
            causation_id: opt_text(self.causation_id),
            idempotency_key: opt_text(self.idempotency_key),
            extensions: extensions_view(self.extensions@),
        }
    }
}

/// Whether two lists of texts are equal, element by element and in order.
pub fn texts_eq(a: &Vec<String>, b: &Vec<String>) -> (r: bool)
    ensures
        r == (texts_view(a@) == texts_view(b@)),
{
    if a.len() != b.len() {
        return false;
    }
    let mut i: usize = 0;
    while i < a.len()
        invariant
            a@.len() == b@.len(),
            i <= a@.len(),
            forall|j: int| 0 <= j < i ==> a@[j]@ == b@[j]@,
        decreases a@.len() - i,
    {
        if !(a[i] == b[i]) {
            assert(texts_view(a@)[i as int] != texts_view(b@)[i as int]);
            return false;
        }
        i = i + 1;
    }
    assert(texts_view(a@) =~= texts_view(b@));
    true
}

/// Whether two intents are equal in every field.
pub fn intent_eq(a: &CommunicationIntent, b: &CommunicationIntent) -> (r: bool)
    ensures
        r == (a@ == b@),
{
    a.intent_id == b.intent_id && scope_eq(&a.scope, &b.scope) && a.target_identity_id
        == b.target_identity_id && bytes_eq(a.payload.as_slice(), b.payload.as_slice()) && texts_eq(
        &a.constraints.allowed_transport_capabilities,
        &b.constraints.allowed_transport_capabilities,
    ) && texts_eq(
        &a.constraints.forbidden_transport_capabilities,
        &b.constraints.forbidden_transport_capabilities,
    ) && opt_text_eq(&a.constraints.privacy_profile, &b.constraints.privacy_profile)
        && opt_text_eq(&a.constraints.region_constraint, &b.constraints.region_constraint)
        && a.constraints.max_cost_microunits == b.constraints.max_cost_microunits
        && a.constraints.priority_class == b.constraints.priority_class && a.correlation_id
        == b.correlation_id && opt_text_eq(&a.causation_id, &b.causation_id) && opt_text_eq(
        &a.idempotency_key,
        &b.idempotency_key,
    ) && extensions_eq(&a.extensions, &b.extensions)
}

/// Decides a write of a canonical intent: intents are write-once per scoped
/// intent id, a canonical retry is a duplicate and changed content a conflict.
pub fn persist_intent_step(existing: Option<&CommunicationIntent>, canonical: &CommunicationIntent) -> (r:
    Result<WriteStep, DurableStoreError>)
    ensures
        r == spec_write_once_step(
            match existing {
                Some(e) => Some(e@ == canonical@),
                None => None,
            },
        ),
{
    let existing_equal = match existing {
        Some(e) => Some(intent_eq(e, canonical)),
        None => None,
    };
    write_once_step(existing_equal)
}

/// Persisting intents is idempotent: a persisted intent is stored as given, a
/// retry of it is a duplicate that changes nothing, and a different intent
/// under the same scoped id is a conflict that keeps the stored one.
pub proof fn lemma_persist_intent_idempotent(stored: Option<IntentView>, incoming: IntentView)
    ensures
        spec_write_once(stored, incoming).1 is Ok ==> spec_write_once(stored, incoming).0 == Some(
            incoming,
        ),
        spec_write_once(stored, incoming).1 is Ok ==> spec_write_once(
            spec_write_once(stored, incoming).0,
            incoming,
        ) == (Some(incoming), Ok::<DurableRecordStatus, DurableStoreError>(
            DurableRecordStatus::Duplicate,
        )),
        (stored matches Some(s) && s != incoming) ==> spec_write_once(stored, incoming) == (
            stored,
            Err::<DurableRecordStatus, DurableStoreError>(DurableStoreError::Conflict),
        ),
{
}

/// The root row of a stored intent, as read.
#[derive(Clone, Debug)]
pub struct StoredIntentRow {
    pub target_identity_id: String,
    pub payload: Vec<u8>,
    pub privacy_profile: Option<String>,
    pub region_constraint: Option<String>,
    pub max_cost_microunits: Option<Vec<u8>>,
    pub priority_class: Option<i64>,
    pub correlation_id: String,
    pub causation_id: Option<String>,
    pub idempotency_key: Option<String>,
}

/// Rebuilds a stored intent from its root row and its decoded transports and
/// extensions. The cost must be eight bytes, the priority a `u32`, and the
/// transports together within the limit; anything else is corrupt.
pub fn assemble_intent(
    scope: &TenantScope,
    intent_id: &String,
    row: StoredIntentRow,
    allowed: Vec<String>,
    forbidden: Vec<String>,
    extensions: Vec<ProtocolExtension>,
    max_transport_constraints: usize,
) -> (r: Result<CommunicationIntent, DurableStoreError>)
    ensures
        ({
            let cost = spec_decode_max_cost(
                match row.max_cost_microunits {
                    Some(b) => Some(b@),
                    None => None,
                },
            );
            let priority = spec_decode_priority(row.priority_class);
            &&& (cost is Ok && priority is Ok && allowed@.len() + forbidden@.len()
                <= max_transport_constraints) <==> r is Ok
            &&& r is Err ==> r == Err::<CommunicationIntent, DurableStoreError>(
                DurableStoreError::Corrupt,
            )
            &&& r matches Ok(i) ==> i@ == (IntentView {
                intent_id: intent_id@,
                scope: scope@,
                target_identity_id: row.target_identity_id@,
                payload: row.payload@,
                allowed: texts_view(allowed@),
                forbidden: texts_view(forbidden@),
                privacy_profile: opt_text(row.privacy_profile),
                region_constraint: opt_text(row.region_constraint),
                max_cost_microunits: cost->Ok_0,
                priority_class: priority->Ok_0,
                correlation_id: row.correlation_id@,
                causation_id: opt_text(row.causation_id),
                idempotency_key: opt_text(row.idempotency_key),
                extensions: extensions_view(extensions@),
            })
        }),
{
    let max_cost_microunits = decode_max_cost(&row.max_cost_microunits)?;
    let priority_class = decode_priority(row.priority_class)?;
    check_total_transports(allowed.len(), forbidden.len(), max_transport_constraints)?;
    let scope_copy = TenantScope {
        tenant_id: scope.tenant_id.clone(),
        namespace_id: clone_opt_text(&scope.namespace_id),
    };
    Ok(CommunicationIntent {
        intent_id: intent_id.clone(),
        scope: scope_copy,
        target_identity_id: row.target_identity_id,
        payload: row.payload,
        constraints: IntentConstraints {
            allowed_transport_capabilities: allowed,
            forbidden_transport_capabilities: forbidden,
            privacy_profile: row.privacy_profile,
            region_constraint: row.region_constraint,
            max_cost_microunits,
            priority_class,
        },
        correlation_id: row.correlation_id,
        causation_id: row.causation_id,
        idempotency_key: row.idempotency_key,
        extensions,
    })
}

/// Accepts a stored intent only when it already is in canonical form:
/// `canonical` is the canonical form computed from it, or `None` when it has none.
pub fn check_canonical_intent(raw: CommunicationIntent, canonical: Option<CommunicationIntent>) -> (r:
    Result<CommunicationIntent, DurableStoreError>)
    ensures
        (canonical matches Some(c) && c@ == raw@) <==> r is Ok,
        r is Err ==> r == Err::<CommunicationIntent, DurableStoreError>(DurableStoreError::Corrupt),
        r matches Ok(i) ==> i@ == raw@,
{
    match canonical {
        Some(c) => {
            if intent_eq(&c, &raw) {
                Ok(raw)
            } else {
                Err(DurableStoreError::Corrupt)
            }
        },
        None => Err(DurableStoreError::Corrupt),
    }
}

} // verus!
