use vstd::prelude::*;
use crate::codec::{decode_u32, ProtocolVersion};
use crate::error::DurableStoreError;
use crate::scope::{ScopeView, TenantScope};
use crate::text::bytes_eq;

verus! {

/// Reasons a command envelope is refused by protocol validation.
#[derive(Clone, Copy, PartialEq, Eq, Debug, Structural)]
pub enum CommandError {
    InvalidCommandType,
    MissingIdempotencyKey,
    EmptyIdempotencyKey,
    IdempotencyKeyTooLong,
    IdempotencyConflict,
    PayloadTooLarge,
    InvalidSchemaVersion,
    InvalidExtension,
    DuplicateExtension,
    TooManyExtensions,
    ExtensionPayloadTooLarge,
}

/// The store failure reported for a refused command: an idempotency conflict
/// stays a conflict, every other refusal is an invalid record.
pub open spec fn spec_command_error(error: CommandError) -> DurableStoreError {
    match error {
        CommandError::IdempotencyConflict => DurableStoreError::Conflict,
        _ => DurableStoreError::InvalidRecord,
    }
}

/// Maps a protocol refusal of a command to a store failure.
pub fn map_command_error(error: CommandError) -> (r: DurableStoreError)
    ensures
        r == spec_command_error(error),
{
    match error {
        CommandError::IdempotencyConflict => DurableStoreError::Conflict,
        CommandError::InvalidCommandType
        | CommandError::MissingIdempotencyKey
        | CommandError::EmptyIdempotencyKey
        | CommandError::IdempotencyKeyTooLong
        | CommandError::PayloadTooLarge
        | CommandError::InvalidSchemaVersion
        | CommandError::InvalidExtension
        | CommandError::DuplicateExtension
        | CommandError::TooManyExtensions
        | CommandError::ExtensionPayloadTooLarge => DurableStoreError::InvalidRecord,
    }
}

/// A protocol extension carried by a command or an event.
#[derive(Clone, Debug)]
pub struct ProtocolExtension {
    pub name: String,
    pub critical: bool,
    pub payload: Vec<u8>,
}

/// The mathematical content of a [`ProtocolExtension`].
pub struct ExtensionView {
    pub name: Seq<char>,
    pub critical: bool,
    pub payload: Seq<u8>,
}

impl View for ProtocolExtension {
    type V = ExtensionView;

    open spec fn view(&self) -> ExtensionView {
        ExtensionView { name: self.name@, critical: self.critical, payload: self.payload@ }
    }
}

/// The mathematical content of a list of extensions.
pub open spec fn extensions_view(extensions: Seq<ProtocolExtension>) -> Seq<ExtensionView> {
    extensions.map_values(|e: ProtocolExtension| e@)
}

/// Whether two extensions are equal: same name, criticality and payload.
pub fn extension_eq(a: &ProtocolExtension, b: &ProtocolExtension) -> (r: bool)
    ensures
        r == (a@ == b@),
{
    a.critical == b.critical && a.name == b.name && bytes_eq(a.payload.as_slice(), b.payload.as_slice())
}

/// Whether two extension lists are equal, element by element and in order.
pub fn extensions_eq(a: &Vec<ProtocolExtension>, b: &Vec<ProtocolExtension>) -> (r: bool)
    ensures
        r == (extensions_view(a@) == extensions_view(b@)),
{
    if a.len() != b.len() {
        return false;
    }
    let mut i: usize = 0;
    while i < a.len()
        invariant
            a@.len() == b@.len(),
            i <= a@.len(),
            forall|j: int| 0 <= j < i ==> a@[j]@ == b@[j]@,
        decreases a@.len() - i,
    {
        if !extension_eq(&a[i], &b[i]) {
            assert(extensions_view(a@)[i as int] != extensions_view(b@)[i as int]);
            return false;
        }
        i = i + 1;
    }
    assert(extensions_view(a@) =~= extensions_view(b@));
    true
}

/// One stored extension row, as read in position order:
/// `(position, name, critical, payload)`.
#[derive(Clone, Debug)]
pub struct ExtensionRow {
    pub position: i64,
    pub name: String,
    pub critical: i64,
    pub payload: Vec<u8>,
}

/// Whether a stored row is well formed at index `i`: its position is `i` and
/// its critical flag is `0` or `1`.
pub open spec fn extension_row_ok(row: ExtensionRow, i: int) -> bool {
    row.position == i && (row.critical == 0 || row.critical == 1)
}

/// The extension stored in a well-formed row.
pub open spec fn extension_of_row(row: ExtensionRow) -> ExtensionView {
    ExtensionView { name: row.name@, critical: row.critical == 1, payload: row.payload@ }
}

/// The stored extension rows of a command decode when there are at most
/// `max_extensions` of them, their positions are `0, 1, 2, ...` in order and
/// every critical flag is `0` or `1`.
pub open spec fn extension_rows_ok(rows: Seq<ExtensionRow>, max_extensions: nat) -> bool {
    &&& rows.len() <= max_extensions
    &&& forall|i: int| 0 <= i < rows.len() ==> #[trigger] extension_row_ok(rows[i], i)
}

/// Decodes the stored extension rows of a command, read in position order.
/// Rows beyond `max_extensions`, a gap or reordering in positions and a critical
/// flag other than `0`/`1` are corrupt.
pub fn decode_extension_rows(rows: &Vec<ExtensionRow>, max_extensions: usize) -> (r: Result<
    Vec<ProtocolExtension>,
    DurableStoreError,
>)
    ensures
        extension_rows_ok(rows@, max_extensions as nat) <==> r is Ok,
        r is Err ==> r == Err::<Vec<ProtocolExtension>, DurableStoreError>(
            DurableStoreError::Corrupt,
        ),
        r matches Ok(e) ==> extensions_view(e@) == rows@.map_values(
            |row: ExtensionRow| extension_of_row(row),
        ),
{
    let mut extensions: Vec<ProtocolExtension> = Vec::new();
    let mut i: usize = 0;
    while i < rows.len()
        invariant
            i <= rows@.len(),
            i <= max_extensions,
            extensions@.len() == i,
            forall|j: int| 0 <= j < i ==> #[trigger] extension_row_ok(rows@[j], j),
            forall|j: int|
                0 <= j < i ==> #[trigger] extensions@[j]@ == extension_of_row(rows@[j]),
        decreases rows@.len() - i,
    {
        if i >= max_extensions {
            return Err(DurableStoreError::Corrupt);
        }
        let row = &rows[i];
        if row.position < 0 || row.position as u64 != i as u64 {
            assert(!extension_row_ok(rows@[i as int], i as int));
            return Err(DurableStoreError::Corrupt);
        }
        let critical = if row.critical == 0 {
            false
        } else if row.critical == 1 {
            true
        } else {
            assert(!extension_row_ok(rows@[i as int], i as int));
            return Err(DurableStoreError::Corrupt);
        };
        extensions.push(
            ProtocolExtension { name: row.name.clone(), critical, payload: row.payload.clone() },
        );
        i = i + 1;
    }
    assert(extensions_view(extensions@) =~= rows@.map_values(
        |row: ExtensionRow| extension_of_row(row),
    ));
    Ok(extensions)
}


/// The protocol version stored with a command; a major version of zero, or a
/// component outside `u32`, is corrupt.
pub fn decode_protocol_version(major: i64, minor: i64) -> (r: Result<
    ProtocolVersion,
    DurableStoreError,
>)
    ensures
        (1 <= major <= u32::MAX && 0 <= minor <= u32::MAX) ==> r == Ok::<
            ProtocolVersion,
            DurableStoreError,
        >(ProtocolVersion { major: major as u32, minor: minor as u32 }),
        !(1 <= major <= u32::MAX && 0 <= minor <= u32::MAX) ==> r == Err::<
            ProtocolVersion,
            DurableStoreError,
        >(DurableStoreError::Corrupt),
{
    let major = decode_u32(major)?;
    let minor = decode_u32(minor)?;
    if major == 0 {
        return Err(DurableStoreError::Corrupt);
    }
    Ok(ProtocolVersion { major, minor })
}

/// Accepts decoded extensions only when they already are in canonical form:
/// `canonical` is the canonical form computed from them, or `None` when they
/// have none. Anything else means the stored rows were tampered with.
pub fn check_canonical_extensions(
    extensions: Vec<ProtocolExtension>,
    canonical: Option<Vec<ProtocolExtension>>,
) -> (r: Result<Vec<ProtocolExtension>, DurableStoreError>)
    ensures
        (canonical matches Some(c) && extensions_view(c@) == extensions_view(extensions@))
            <==> r is Ok,
        r is Err ==> r == Err::<Vec<ProtocolExtension>, DurableStoreError>(
            DurableStoreError::Corrupt,
        ),
        r matches Ok(e) ==> e@ == extensions@,
{
    match canonical {
        Some(c) => {
            if extensions_eq(&c, &extensions) {
                Ok(extensions)
            } else {
                Err(DurableStoreError::Corrupt)
            }
        },
        None => Err(DurableStoreError::Corrupt),
    }
}

/// The protocol metadata stored with an accepted command.
#[derive(Clone, Debug)]
pub struct StoredCommandProtocol {
    pub schema_version: ProtocolVersion,
    pub extensions: Vec<ProtocolExtension>,
}

/// A command as submitted to the store, after protocol canonicalisation.
#[derive(Clone, Debug)]
pub struct CommandEnvelope {
    pub scope: TenantScope,
    pub command_id: String,
    pub command_type: String,
    pub payload: Vec<u8>,
    pub idempotency_key: Option<String>,
    pub schema_version: ProtocolVersion,
    pub extensions: Vec<ProtocolExtension>,
}

/// The mathematical content of a [`CommandEnvelope`].
pub struct CommandView {
    pub scope: ScopeView,
    pub command_id: Seq<char>,
    pub command_type: Seq<char>,
    pub payload: Seq<u8>,
    pub idempotency_key: Option<Seq<char>>,
    pub schema_version: ProtocolVersion,
    pub extensions: Seq<ExtensionView>,
}

impl View for CommandEnvelope {
    type V = CommandView;

    open spec fn view(&self) -> CommandView {
        CommandView {
            scope: self.scope@,
            command_id: self.command_id@,
            command_type: self.command_type@,
            payload: self.payload@,
            idempotency_key: match self.idempotency_key {
                Some(k) => Some(k@),
                None => None,
            },
            schema_version: self.schema_version,
            extensions: extensions_view(self.extensions@),
        }
    }
}

/// The accepted command found under an idempotency key, with its protocol
/// metadata when that is present.
#[derive(Clone, Debug)]
pub struct StoredCommand {
    pub command_id: String,
    pub command_type: String,
    pub payload: Vec<u8>,
    pub protocol: Option<StoredCommandProtocol>,
}

/// The mathematical content of a [`StoredCommand`].
pub struct StoredCommandView {
    pub command_id: Seq<char>,
    pub command_type: Seq<char>,
    pub payload: Seq<u8>,
    pub protocol: Option<(ProtocolVersion, Seq<ExtensionView>)>,
}

impl View for StoredCommand {
    type V = StoredCommandView;

    open spec fn view(&self) -> StoredCommandView {
        StoredCommandView {
            command_id: self.command_id@,
            command_type: self.command_type@,
            payload: self.payload@,
            protocol: match self.protocol {
                Some(p) => Some((p.schema_version, extensions_view(p.extensions@))),
                None => None,
            },
        }
    }
}

/// What accepting a command does.
#[derive(Clone, Debug)]
pub enum AcceptStep {
    /// Nothing is stored under the key or the command id: insert the command.
    Insert,
    /// The same command was accepted before under the given original command id.
    Duplicate(String),
}

/// The mathematical content of an [`AcceptStep`].
pub enum AcceptOutcome {
    Insert,
    Duplicate(Seq<char>),
}

impl View for AcceptStep {
    type V = AcceptOutcome;

    open spec fn view(&self) -> AcceptOutcome {
        match self {
            AcceptStep::Insert => AcceptOutcome::Insert,
            AcceptStep::Duplicate(id) => AcceptOutcome::Duplicate(id@),
        }
    }
}

/// The mathematical content of the result of accepting a command.
pub open spec fn accept_result_view(r: Result<AcceptStep, DurableStoreError>) -> Result<
    AcceptOutcome,
    DurableStoreError,
> {
    match r {
        Ok(step) => Ok(step@),
        Err(e) => Err(e),
    }
}

/// The acceptance rule. A command needs an idempotency key. When a command is
/// already stored under the key, the incoming one is a duplicate of it if type,
/// payload, protocol version and extensions all agree, and a conflict otherwise
/// (stored without protocol metadata it is corrupt). With nothing under the key,
/// a command id already taken in the scope is a conflict; otherwise it is inserted.
pub open spec fn spec_accept_step(
    incoming: CommandView,
    existing: Option<StoredCommandView>,
    command_id_taken: bool,
) -> Result<AcceptOutcome, DurableStoreError> {
    if incoming.idempotency_key is None {
        Err(DurableStoreError::InvalidRecord)
    } else {
        match existing {
            Some(stored) => match stored.protocol {
                None => Err(DurableStoreError::Corrupt),
                Some((version, extensions)) => if stored.command_type == incoming.command_type
                    && stored.payload == incoming.payload && version == incoming.schema_version
                    && extensions == incoming.extensions {
                    Ok(AcceptOutcome::Duplicate(stored.command_id))
                } else {
                    Err(DurableStoreError::Conflict)
                },
            },
            None => if command_id_taken {
                Err(DurableStoreError::Conflict)
            } else {
                Ok(AcceptOutcome::Insert)
            },
        }
    }
}

/// Admits the result of canonicalising a submitted command: a refusal maps to
/// a store failure, and a command without idempotency key is invalid.
pub fn admit_command(canonical: Result<CommandEnvelope, CommandError>) -> (r: Result<
    CommandEnvelope,
    DurableStoreError,
>)
    ensures
        canonical matches Err(e) ==> r == Err::<CommandEnvelope, DurableStoreError>(
            spec_command_error(e),
        ),
        canonical matches Ok(c) ==> (c.idempotency_key is None ==> r == Err::<
            CommandEnvelope,
            DurableStoreError,
        >(DurableStoreError::InvalidRecord)),
        canonical matches Ok(c) ==> (c.idempotency_key is Some ==> (r matches Ok(d) && d@ == c@)),
{
    match canonical {
        Err(e) => Err(map_command_error(e)),
        Ok(c) => {
            if c.idempotency_key.is_none() {
                Err(DurableStoreError::InvalidRecord)
            } else {
                Ok(c)
            }
        },
    }
}

/// Decides the acceptance of a command from what the store holds: the command
/// stored under its idempotency key, if any, and whether its command id is
/// already taken in its scope.
pub fn accept_command_step(
    incoming: &CommandEnvelope,
    existing: Option<&StoredCommand>,
    command_id_taken: bool,
) -> (r: Result<AcceptStep, DurableStoreError>)
    ensures
        accept_result_view(r) == spec_accept_step(
            incoming@,
            match existing {
                Some(s) => Some(s@),
                None => None,
            },
            command_id_taken,
        ),
{
    if incoming.idempotency_key.is_none() {
        return Err(DurableStoreError::InvalidRecord);
    }
    match existing {
        Some(stored) => match &stored.protocol {
            None => Err(DurableStoreError::Corrupt),
            Some(protocol) => {
                if stored.command_type == incoming.command_type && bytes_eq(
                    stored.payload.as_slice(),
                    incoming.payload.as_slice(),
                ) && protocol.schema_version == incoming.schema_version && extensions_eq(
                    &protocol.extensions,
                    &incoming.extensions,
                ) {
                    Ok(AcceptStep::Duplicate(stored.command_id.clone()))
                } else {
                    Err(DurableStoreError::Conflict)
                }
            },
        },
        None => {
            if command_id_taken {
                Err(DurableStoreError::Conflict)
            } else {
                Ok(AcceptStep::Insert)
            }
        },
    }
}

/// One accepted command as held by the store: its scope and idempotency key,
/// its command id, and what a retry is compared against.
pub struct LedgerRow {
    pub scope: ScopeView,
    pub idempotency_key: Seq<char>,
    pub command_id: Seq<char>,
    pub command_type: Seq<char>,
    pub payload: Seq<u8>,
    pub schema_version: ProtocolVersion,
    pub extensions: Seq<ExtensionView>,
}

/// The row stored when a command is accepted.
pub open spec fn ledger_row(command: CommandView) -> LedgerRow {
    LedgerRow {
        scope: command.scope,
        idempotency_key: command.idempotency_key.unwrap(),
        command_id: command.command_id,
        command_type: command.command_type,
        payload: command.payload,
        schema_version: command.schema_version,
        extensions: command.extensions,
    }
}

/// What a lookup by idempotency key reads back from a stored row.
pub open spec fn stored_view(row: LedgerRow) -> StoredCommandView {
    StoredCommandView {
        command_id: row.command_id,
        command_type: row.command_type,
        payload: row.payload,
        protocol: Some((row.schema_version, row.extensions)),
    }
}

/// The first accepted command stored under `key` in `scope`.
pub open spec fn ledger_lookup(ledger: Seq<LedgerRow>, scope: ScopeView, key: Seq<char>) -> Option<
    StoredCommandView,
>
    decreases ledger.len(),
{
    if ledger.len() == 0 {
        None
    } else {
        let earlier = ledger_lookup(ledger.drop_last(), scope, key);
        if earlier is Some {
            earlier
        } else if ledger.last().scope == scope && ledger.last().idempotency_key == key {
            Some(stored_view(ledger.last()))
        } else {
            None
        }
    }
}

/// Whether `command_id` is already taken by an accepted command in `scope`.
pub open spec fn ledger_has_id(ledger: Seq<LedgerRow>, scope: ScopeView, command_id: Seq<char>) -> bool
    decreases ledger.len(),
{
    if ledger.len() == 0 {
        false
    } else {
        ledger_has_id(ledger.drop_last(), scope, command_id) || (ledger.last().scope == scope
            && ledger.last().command_id == command_id)
    }
}

/// Accepting `command` against the accepted commands `ledger`: the acceptance
/// rule applied to what the store holds, and the ledger afterwards (one row
/// more when the command is inserted, unchanged otherwise).
pub open spec fn spec_accept_command(ledger: Seq<LedgerRow>, command: CommandView) -> (
    Seq<LedgerRow>,
    Result<AcceptOutcome, DurableStoreError>,
) {
    let step = spec_accept_step(
        command,
        ledger_lookup(ledger, command.scope, command.idempotency_key.unwrap()),
        ledger_has_id(ledger, command.scope, command.command_id),
    );
    match step {
        Ok(AcceptOutcome::Insert) => (ledger.push(ledger_row(command)), step),
        _ => (ledger, step),
    }
}

proof fn lemma_lookup_after_push(ledger: Seq<LedgerRow>, row: LedgerRow, scope: ScopeView, key: Seq<char>)
    ensures
        ledger_lookup(ledger.push(row), scope, key) == (if ledger_lookup(ledger, scope, key) is Some {
            ledger_lookup(ledger, scope, key)
        } else if row.scope == scope && row.idempotency_key == key {
            Some(stored_view(row))
        } else {
            None
        }),
{
    assert(ledger.push(row).drop_last() =~= ledger);
}

proof fn lemma_has_id_after_push(ledger: Seq<LedgerRow>, row: LedgerRow, scope: ScopeView, id: Seq<char>)
    ensures
        ledger_has_id(ledger.push(row), scope, id) == (ledger_has_id(ledger, scope, id) || (
        row.scope == scope && row.command_id == id)),
{
    assert(ledger.push(row).drop_last() =~= ledger);
}

/// An accepted command is deduplicated: retrying it against the ledger it was
/// accepted into reports a duplicate of itself and stores nothing more.
pub proof fn lemma_accepted_command_is_deduplicated(ledger: Seq<LedgerRow>, command: CommandView)
    requires
        spec_accept_command(ledger, command).1 == Ok::<AcceptOutcome, DurableStoreError>(
            AcceptOutcome::Insert,
        ),
    ensures
        spec_accept_command(spec_accept_command(ledger, command).0, command) == (
            spec_accept_command(ledger, command).0,
            Ok::<AcceptOutcome, DurableStoreError>(AcceptOutcome::Duplicate(command.command_id)),
        ),
{
    let key = command.idempotency_key.unwrap();
    lemma_lookup_after_push(ledger, ledger_row(command), command.scope, key);
}

/// A refused or duplicate command leaves the accepted commands unchanged.
pub proof fn lemma_refused_command_changes_nothing(ledger: Seq<LedgerRow>, command: CommandView)
    ensures
        spec_accept_command(ledger, command).1 != Ok::<AcceptOutcome, DurableStoreError>(
            AcceptOutcome::Insert,
        ) ==> spec_accept_command(ledger, command).0 == ledger,
{
}

/// Reusing the idempotency key of an accepted command with different content is
/// a conflict, and stays one on every later retry.
pub proof fn lemma_idempotency_conflict_is_stable(
    ledger: Seq<LedgerRow>,
    command: CommandView,
    other: CommandView,
)
    requires
        spec_accept_command(ledger, command).1 == Ok::<AcceptOutcome, DurableStoreError>(
            AcceptOutcome::Insert,
        ),
        other.scope == command.scope,
        other.idempotency_key == command.idempotency_key,
        !(other.command_type == command.command_type && other.payload == command.payload
            && other.schema_version == command.schema_version && other.extensions
            == command.extensions),
    ensures
        spec_accept_command(spec_accept_command(ledger, command).0, other) == (
            spec_accept_command(ledger, command).0,
            Err::<AcceptOutcome, DurableStoreError>(DurableStoreError::Conflict),
        ),
{
    let key = command.idempotency_key.unwrap();
    lemma_lookup_after_push(ledger, ledger_row(command), command.scope, key);
}

/// A command id accepted in a scope cannot be accepted again under another
/// idempotency key in that scope.
pub proof fn lemma_command_id_reuse_conflicts(
    ledger: Seq<LedgerRow>,
    command: CommandView,
    other: CommandView,
)
    requires
        spec_accept_command(ledger, command).1 == Ok::<AcceptOutcome, DurableStoreError>(
            AcceptOutcome::Insert,
        ),
        other.scope == command.scope,
        other.command_id == command.command_id,
        other.idempotency_key is Some,
        other.idempotency_key != command.idempotency_key,
        ledger_lookup(ledger, other.scope, other.idempotency_key.unwrap()) is None,
    ensures
        spec_accept_command(spec_accept_command(ledger, command).0, other) == (
            spec_accept_command(ledger, command).0,
            Err::<AcceptOutcome, DurableStoreError>(DurableStoreError::Conflict),
        ),
{
    lemma_lookup_after_push(ledger, ledger_row(command), other.scope, other.idempotency_key.unwrap());
    lemma_has_id_after_push(ledger, ledger_row(command), other.scope, other.command_id);
}

/// Scopes are independent: accepting a command in one scope changes neither
/// the lookups nor the taken command ids of any other scope.
pub proof fn lemma_scopes_are_independent(
    ledger: Seq<LedgerRow>,
    command: CommandView,
    scope: ScopeView,
    key: Seq<char>,
    command_id: Seq<char>,
)
    requires
        scope != command.scope,
    ensures
        ledger_lookup(spec_accept_command(ledger, command).0, scope, key) == ledger_lookup(
            ledger,
            scope,
            key,
        ),
        ledger_has_id(spec_accept_command(ledger, command).0, scope, command_id) == ledger_has_id(
            ledger,
            scope,
            command_id,
        ),
{
    lemma_lookup_after_push(ledger, ledger_row(command), scope, key);
    lemma_has_id_after_push(ledger, ledger_row(command), scope, command_id);
}

} // verus!
