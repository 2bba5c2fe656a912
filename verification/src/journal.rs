use vstd::prelude::*;
use crate::codec::{encode_u64, u64_be_bytes, ProtocolVersion};
use crate::error::DurableStoreError;
use crate::principal::{actor_kind_name, actor_kind_text, ActorKind};
use crate::record::{WriteStep, spec_write_once_step, write_once_step};
use crate::scope::{scope_eq, TenantScope};
use crate::text::{bytes_eq, text_eq};

verus! {

/// An event submitted to the journal.
#[derive(Clone, Debug)]
pub struct EventEnvelope {
    pub scope: TenantScope,
    pub event_id: String,
    pub event_type: String,
    pub payload: Vec<u8>,
    pub actor_id: String,
    pub actor_kind: ActorKind,
    pub on_behalf_of: Option<String>,
    pub source_device_id: String,
    pub source_identity_id: String,
    pub wall_time_unix_ms: i64,
    pub logical_order: u64,
    pub correlation_id: String,
    pub causation_id: Option<String>,
    pub idempotency_key: Option<String>,
    pub schema_version: ProtocolVersion,
    pub integrity_metadata: Vec<u8>,
}

/// The columns of a journal row, as written and as read back.
#[derive(Clone, Debug)]
pub struct StoredEvent {
    pub event_type: String,
    pub payload: Vec<u8>,
    pub actor_id: String,
    pub actor_kind: String,
    pub on_behalf_of: Option<String>,
    pub source_device_id: String,
    pub source_identity_id: String,
    pub wall_time_unix_ms: i64,
    pub logical_order: Vec<u8>,
    pub correlation_id: String,
    pub causation_id: Option<String>,
    pub idempotency_key: Option<String>,
    pub schema_major: i64,
    pub schema_minor: i64,
    pub integrity_metadata: Vec<u8>,
}

/// The mathematical content of a [`StoredEvent`].
pub struct StoredEventView {
    pub event_type: Seq<char>,
    pub payload: Seq<u8>,
    pub actor_id: Seq<char>,
    pub actor_kind: Seq<char>,
    pub on_behalf_of: Option<Seq<char>>,
    pub source_device_id: Seq<char>,
    pub source_identity_id: Seq<char>,
    pub wall_time_unix_ms: i64,
    pub logical_order: Seq<u8>,
    pub correlation_id: Seq<char>,
    pub causation_id: Option<Seq<char>>,
    pub idempotency_key: Option<Seq<char>>,
    pub schema_major: i64,
    pub schema_minor: i64,
    pub integrity_metadata: Seq<u8>,
}

/// The text content of an optional text value.
pub open spec fn opt_text(value: Option<String>) -> Option<Seq<char>> {
    match value {
        Some(s) => Some(s@),
        None => None,
    }
}

impl View for StoredEvent {
    type V = StoredEventView;

    open spec fn view(&self) -> StoredEventView {
        StoredEventView {
            event_type: self.event_type@,
            payload: self.payload@,
            actor_id: self.actor_id@,
            actor_kind: self.actor_kind@,
            on_behalf_of: opt_text(self.on_behalf_of),
            source_device_id: self.source_device_id@,
            source_identity_id: self.source_identity_id@,
            wall_time_unix_ms: self.wall_time_unix_ms,
            logical_order: self.logical_order@,
            correlation_id: self.correlation_id@,
            causation_id: opt_text(self.causation_id),
            idempotency_key: opt_text(self.idempotency_key),
            schema_major: self.schema_major,
            schema_minor: self.schema_minor,
            integrity_metadata: self.integrity_metadata@,
        }
    }
}

/// The journal row of an event: its fields as columns, the actor kind as its
/// text, the logical order as eight big-endian bytes and the version components
/// as integers.
pub open spec fn spec_stored_event(event: EventEnvelope) -> StoredEventView {
    StoredEventView {
        event_type: event.event_type@,
        payload: event.payload@,
        actor_id: event.actor_id@,
        actor_kind: actor_kind_text(event.actor_kind),
        on_behalf_of: opt_text(event.on_behalf_of),
        source_device_id: event.source_device_id@,
        source_identity_id: event.source_identity_id@,
        wall_time_unix_ms: event.wall_time_unix_ms,
        logical_order: u64_be_bytes(event.logical_order),
        correlation_id: event.correlation_id@,
        causation_id: opt_text(event.causation_id),
        idempotency_key: opt_text(event.idempotency_key),
        schema_major: event.schema_version.major as i64,
        schema_minor: event.schema_version.minor as i64,
        integrity_metadata: event.integrity_metadata@,
    }
}

/// Copies an optional text value.
pub fn clone_opt_text(value: &Option<String>) -> (r: Option<String>)
    ensures
        opt_text(r) == opt_text(*value),
{
    match value {
        Some(s) => Some(s.clone()),
        None => None,
    }
}

/// Whether two optional text values are equal.
pub fn opt_text_eq(a: &Option<String>, b: &Option<String>) -> (r: bool)
    ensures
        r == (opt_text(*a) == opt_text(*b)),
{
    match (a, b) {
        (None, None) => true,
        (Some(x), Some(y)) => *x == *y,
        _ => false,
    }
}

/// The journal row written for an event.
pub fn stored_event_from(event: &EventEnvelope) -> (r: StoredEvent)
    ensures
        r@ == spec_stored_event(*event),
{
    StoredEvent {
        event_type: event.event_type.clone(),
        payload: event.payload.clone(),
        actor_id: event.actor_id.clone(),
        actor_kind: actor_kind_name(event.actor_kind).to_owned(),
        on_behalf_of: clone_opt_text(&event.on_behalf_of),
        source_device_id: event.source_device_id.clone(),
        source_identity_id: event.source_identity_id.clone(),
        wall_time_unix_ms: event.wall_time_unix_ms,
        logical_order: encode_u64(event.logical_order),
        correlation_id: event.correlation_id.clone(),
        causation_id: clone_opt_text(&event.causation_id),
        idempotency_key: clone_opt_text(&event.idempotency_key),
        schema_major: event.schema_version.major as i64,
        schema_minor: event.schema_version.minor as i64,
        integrity_metadata: event.integrity_metadata.clone(),
    }
}

/// Whether two journal rows are equal, column by column.
pub fn stored_event_eq(a: &StoredEvent, b: &StoredEvent) -> (r: bool)
    ensures
        r == (a@ == b@),
{
    a.event_type == b.event_type && bytes_eq(a.payload.as_slice(), b.payload.as_slice())
        && a.actor_id == b.actor_id && a.actor_kind == b.actor_kind && opt_text_eq(
        &a.on_behalf_of,
        &b.on_behalf_of,
    ) && a.source_device_id == b.source_device_id && a.source_identity_id
        == b.source_identity_id && a.wall_time_unix_ms == b.wall_time_unix_ms && bytes_eq(
        a.logical_order.as_slice(),
        b.logical_order.as_slice(),
    ) && a.correlation_id == b.correlation_id && opt_text_eq(&a.causation_id, &b.causation_id)
        && opt_text_eq(&a.idempotency_key, &b.idempotency_key) && a.schema_major
        == b.schema_major && a.schema_minor == b.schema_minor && bytes_eq(
        a.integrity_metadata.as_slice(),
        b.integrity_metadata.as_slice(),
    )
}

/// Outcome of an event append that succeeded.
#[derive(Clone, Copy, PartialEq, Eq, Debug, Structural)]
pub enum EventAppendStatus {
    /// The event was written now.
    Appended,
    /// The identical event was already in the journal.
    Duplicate,
}

/// Whether the row read back under an event id equals the row to be written;
/// `None` when nothing is stored under the id.
pub open spec fn stored_matches(stored: Option<StoredEventView>, expected: StoredEventView) -> Option<
    bool,
> {
    match stored {
        Some(s) => Some(s == expected),
        None => None,
    }
}

/// Decides an append to the journal. An event refused by protocol validation is
/// an invalid record; otherwise the journal is write-once per event id: a new id
/// is inserted, an identical row is a duplicate and a different row a conflict.
pub fn append_event_step(
    event_valid: bool,
    stored: Option<&StoredEvent>,
    expected: &StoredEvent,
) -> (r: Result<WriteStep, DurableStoreError>)
    ensures
        !event_valid ==> r == Err::<WriteStep, DurableStoreError>(DurableStoreError::InvalidRecord),
        event_valid ==> r == spec_write_once_step(
            stored_matches(
                match stored {
                    Some(s) => Some(s@),
                    None => None,
                },
                expected@,
            ),
        ),
{
    if !event_valid {
        return Err(DurableStoreError::InvalidRecord);
    }
    let existing_equal = match stored {
        Some(s) => Some(stored_event_eq(s, expected)),
        None => None,
    };
    write_once_step(existing_equal)
}

/// A terminal event must pass validation, belong to the command's scope and
/// name the command as its cause.
pub open spec fn terminal_request_ok(
    event_valid: bool,
    event: EventEnvelope,
    scope: TenantScope,
    command_id: Seq<char>,
) -> bool {
    event_valid && event.scope@ == scope@ && opt_text(event.causation_id) == Some(command_id)
}

/// Checks a terminal event against the command it closes.
pub fn check_terminal_request(
    event_valid: bool,
    event: &EventEnvelope,
    scope: &TenantScope,
    command_id: &str,
) -> (r: Result<(), DurableStoreError>)
    ensures
        terminal_request_ok(event_valid, *event, *scope, command_id@) ==> r is Ok,
        !terminal_request_ok(event_valid, *event, *scope, command_id@) ==> r == Err::<
            (),
            DurableStoreError,
        >(DurableStoreError::InvalidRecord),
{
    if !event_valid || !scope_eq(&event.scope, scope) {
        return Err(DurableStoreError::InvalidRecord);
    }
    match &event.causation_id {
        Some(cause) => {
            if text_eq(cause.as_str(), command_id) {
                Ok(())
            } else {
                Err(DurableStoreError::InvalidRecord)
            }
        },
        None => Err(DurableStoreError::InvalidRecord),
    }
}

/// What recording a terminal event does once the request is checked.
#[derive(Clone, Copy, PartialEq, Eq, Debug, Structural)]
pub enum TerminalStep {
    /// No terminal event is linked to the command yet: append the event and link it.
    Append,
    /// The command is already linked to this event id: confirm the journal row.
    ConfirmExisting,
}

/// The terminal-event rule: only an accepted command can be closed, and a
/// command closed by one event cannot be closed by another.
pub open spec fn spec_terminal_step(
    accepted: bool,
    linked: Option<Seq<char>>,
    event_id: Seq<char>,
) -> Result<TerminalStep, DurableStoreError> {
    if !accepted {
        Err(DurableStoreError::InvalidRecord)
    } else {
        match linked {
            Some(t) => if t == event_id {
                Ok(TerminalStep::ConfirmExisting)
            } else {
                Err(DurableStoreError::Conflict)
            },
            None => Ok(TerminalStep::Append),
        }
    }
}

/// Decides a terminal-event record from whether the command was accepted and
/// the event id already linked to it, if any.
pub fn terminal_event_step(accepted: bool, linked: Option<&str>, event_id: &str) -> (r: Result<
    TerminalStep,
    DurableStoreError,
>)
    ensures
        r == spec_terminal_step(
            accepted,
            match linked {
                Some(t) => Some(t@),
                None => None,
            },
            event_id@,
        ),
{
    if !accepted {
        return Err(DurableStoreError::InvalidRecord);
    }
    match linked {
        Some(t) => {
            if text_eq(t, event_id) {
                Ok(TerminalStep::ConfirmExisting)
            } else {
                Err(DurableStoreError::Conflict)
            }
        },
        None => Ok(TerminalStep::Append),
    }
}

/// The outcome when the command is already linked to the event id: the journal
/// must hold the identical row, else the link points at damaged data.
pub open spec fn spec_confirm_existing(
    stored: Option<StoredEventView>,
    expected: StoredEventView,
) -> Result<EventAppendStatus, DurableStoreError> {
    match stored {
        Some(s) => if s == expected {
            Ok(EventAppendStatus::Duplicate)
        } else {
            Err(DurableStoreError::Corrupt)
        },
        None => Err(DurableStoreError::Corrupt),
    }
}

/// Confirms a retried terminal event against the journal row of the linked id.
pub fn confirm_existing_terminal(stored: Option<&StoredEvent>, expected: &StoredEvent) -> (r:
    Result<EventAppendStatus, DurableStoreError>)
    ensures
        r == spec_confirm_existing(
            match stored {
                Some(s) => Some(s@),
                None => None,
            },
            expected@,
        ),
{
    match stored {
        Some(s) => {
            if stored_event_eq(s, expected) {
                Ok(EventAppendStatus::Duplicate)
            } else {
                Err(DurableStoreError::Corrupt)
            }
        },
        None => Err(DurableStoreError::Corrupt),
    }
}

/// Appending a journal row under `event_id` to the journal `events`.
pub open spec fn spec_append_event(
    events: Map<Seq<char>, StoredEventView>,
    event_id: Seq<char>,
    row: StoredEventView,
) -> (Map<Seq<char>, StoredEventView>, Result<EventAppendStatus, DurableStoreError>) {
    match spec_write_once_step(stored_matches(events.get(event_id), row)) {
        Ok(WriteStep::Insert) => (events.insert(event_id, row), Ok(EventAppendStatus::Appended)),
        Ok(WriteStep::Duplicate) => (events, Ok(EventAppendStatus::Duplicate)),
        Err(e) => (events, Err(e)),
    }
}

/// The journal is append-only and idempotent: appending the same event again is
/// a duplicate that changes nothing, a stored row is never replaced, and a
/// different row under a stored id is a conflict.
pub proof fn lemma_append_event_idempotent(
    events: Map<Seq<char>, StoredEventView>,
    event_id: Seq<char>,
    row: StoredEventView,
)
    ensures
        spec_append_event(events, event_id, row).1 is Ok ==> spec_append_event(
            spec_append_event(events, event_id, row).0,
            event_id,
            row,
        ) == (spec_append_event(events, event_id, row).0, Ok::<
            EventAppendStatus,
            DurableStoreError,
        >(EventAppendStatus::Duplicate)),
        spec_append_event(events, event_id, row).1 is Ok ==> spec_append_event(
            events,
            event_id,
            row,
        ).0.get(event_id) == Some(row),
        events.contains_key(event_id) ==> spec_append_event(events, event_id, row).0 == events,
        events.contains_key(event_id) && events[event_id] != row ==> spec_append_event(
            events,
            event_id,
            row,
        ).1 == Err::<EventAppendStatus, DurableStoreError>(DurableStoreError::Conflict),
{
    if !events.contains_key(event_id) {
        assert(events.insert(event_id, row).get(event_id) == Some(row));
    }
}

/// Recording `row` under `event_id` as the terminal event of a command: the
/// link of the command afterwards, the journal afterwards and the outcome.
/// A new link appends the event (or finds it already journaled) and links it.
pub open spec fn spec_record_terminal(
    accepted: bool,
    linked: Option<Seq<char>>,
    events: Map<Seq<char>, StoredEventView>,
    event_id: Seq<char>,
    row: StoredEventView,
) -> (Option<Seq<char>>, Map<Seq<char>, StoredEventView>, Result<
    EventAppendStatus,
    DurableStoreError,
>) {
    match spec_terminal_step(accepted, linked, event_id) {
        Err(e) => (linked, events, Err(e)),
        Ok(TerminalStep::ConfirmExisting) => (
            linked,
            events,
            spec_confirm_existing(events.get(event_id), row),
        ),
        Ok(TerminalStep::Append) => {
            let (journal, appended) = spec_append_event(events, event_id, row);
            match appended {
                Ok(_) => (Some(event_id), journal, Ok(EventAppendStatus::Appended)),
                Err(e) => (linked, events, Err(e)),
            }
        },
    }
}

/// A recorded terminal event survives retry: recording the same event again is a
/// duplicate that changes nothing, while any other event for the same command is
/// a conflict.
pub proof fn lemma_terminal_event_retry(
    linked: Option<Seq<char>>,
    events: Map<Seq<char>, StoredEventView>,
    event_id: Seq<char>,
    row: StoredEventView,
    other_id: Seq<char>,
    other_row: StoredEventView,
)
    requires
        spec_record_terminal(true, linked, events, event_id, row).2 is Ok,
    ensures
        ({
            let (l, j, _) = spec_record_terminal(true, linked, events, event_id, row);
            &&& spec_record_terminal(true, l, j, event_id, row) == (l, j, Ok::<
                EventAppendStatus,
                DurableStoreError,
            >(EventAppendStatus::Duplicate))
            &&& (other_id != event_id ==> spec_record_terminal(true, l, j, other_id, other_row)
                == (l, j, Err::<EventAppendStatus, DurableStoreError>(
                DurableStoreError::Conflict,
            )))
        }),
{
    lemma_append_event_idempotent(events, event_id, row);
}

/// Only an accepted command can be closed, and refusing changes nothing.
pub proof fn lemma_terminal_event_requires_acceptance(
    linked: Option<Seq<char>>,
    events: Map<Seq<char>, StoredEventView>,
    event_id: Seq<char>,
    row: StoredEventView,
)
    ensures
        spec_record_terminal(false, linked, events, event_id, row) == (linked, events, Err::<
            EventAppendStatus,
            DurableStoreError,
        >(DurableStoreError::InvalidRecord)),
{
}

/// A command's terminal event is the one its successful record named: after a
/// successful record the command is linked to that event id, also when the event
/// was already in the journal before (appended on its own); a command never closed
/// has no terminal event.
pub proof fn lemma_terminal_link_after_record(
    linked: Option<Seq<char>>,
    events: Map<Seq<char>, StoredEventView>,
    event_id: Seq<char>,
    row: StoredEventView,
)
    ensures
        spec_record_terminal(true, linked, events, event_id, row).2 is Ok ==> spec_record_terminal(
            true,
            linked,
            events,
            event_id,
            row,
        ).0 == Some(event_id),
        (events.get(event_id) == Some(row)) ==> spec_record_terminal(
            true,
            None,
            events,
            event_id,
            row,
        ) == (Some(event_id), events, Ok::<EventAppendStatus, DurableStoreError>(
            EventAppendStatus::Appended,
        )),
        spec_record_terminal(false, None, events, event_id, row).0 is None,
{
}

} // verus!
