use vstd::prelude::*;
use vstd::slice::slice_subrange;
use crate::codec::{
    decode_u64, encode_u64, from_sql_seq, lemma_u64_bytes_round_trip, spec_decode_u64,
    u64_be_bytes, u64_from_be_bytes,
};
use crate::error::DurableStoreError;
use crate::record::WriteStep;
use crate::scope::{scope_eq, TenantScope};
use crate::text::bytes_eq;

verus! {

/// Version byte that starts every anti-entropy cursor issued by this store.
pub const SQLITE_CURSOR_VERSION: u8 = 1;

/// Length of an anti-entropy cursor: version, 32-byte session binding, snapshot and position.
pub const SQLITE_CURSOR_LEN: usize = 49;

/// The cursor token for a page boundary: the version byte, the session binding,
/// then the snapshot and position as big-endian `u64`s.
pub open spec fn spec_encode_cursor(binding: Seq<u8>, snapshot: u64, position: u64) -> Seq<u8> {
    seq![SQLITE_CURSOR_VERSION] + binding + u64_be_bytes(snapshot) + u64_be_bytes(position)
}

/// The `(snapshot, position)` a cursor token names for the session with `binding`.
/// The token must pass the protocol's cursor check, have the exact length and
/// version, be bound to this session, and not point past its snapshot.
pub open spec fn spec_decode_cursor(binding: Seq<u8>, token: Seq<u8>, token_valid: bool) -> Result<
    (u64, u64),
    DurableStoreError,
> {
    if !token_valid || token.len() != SQLITE_CURSOR_LEN || token[0] != SQLITE_CURSOR_VERSION {
        Err(DurableStoreError::InvalidRecord)
    } else if token.subrange(1, 33) != binding {
        Err(DurableStoreError::InvalidRecord)
    } else {
        let snapshot = u64_from_be_bytes(token.subrange(33, 41));
        let position = u64_from_be_bytes(token.subrange(41, 49));
        if position > snapshot {
            Err(DurableStoreError::InvalidRecord)
        } else {
            Ok((snapshot, position))
        }
    }
}

/// Issues the cursor token for a page boundary of the session with `binding`.
pub fn encode_cursor(binding: &[u8], snapshot: u64, position: u64) -> (r: Vec<u8>)
    ensures
        r@ == spec_encode_cursor(binding@, snapshot, position),
{
    let mut token: Vec<u8> = Vec::new();
    token.push(SQLITE_CURSOR_VERSION);
    let mut i: usize = 0;
    while i < binding.len()
        invariant
            i <= binding@.len(),
            token@ == seq![SQLITE_CURSOR_VERSION] + binding@.subrange(0, i as int),
        decreases binding@.len() - i,
    {
        token.push(binding[i]);
        i = i + 1;
        assert(token@ =~= seq![SQLITE_CURSOR_VERSION] + binding@.subrange(0, i as int));
    }
    let mut s = encode_u64(snapshot);
    let mut p = encode_u64(position);
    assert(binding@.subrange(0, binding@.len() as int) =~= binding@);
    token.append(&mut s);
    token.append(&mut p);
    assert(token@ =~= spec_encode_cursor(binding@, snapshot, position));
    token
}

/// Reads the `(snapshot, position)` of a cursor token presented for the session with
/// `binding`; `token_valid` is the protocol's own check of the token.
pub fn decode_cursor(binding: &[u8], token: &[u8], token_valid: bool) -> (r: Result<
    (u64, u64),
    DurableStoreError,
>)
    ensures
        r == spec_decode_cursor(binding@, token@, token_valid),
{
    if !token_valid || token.len() != SQLITE_CURSOR_LEN || token[0] != SQLITE_CURSOR_VERSION {
        return Err(DurableStoreError::InvalidRecord);
    }
    if !bytes_eq(slice_subrange(token, 1, 33), binding) {
        return Err(DurableStoreError::InvalidRecord);
    }
    let snapshot = match decode_u64(slice_subrange(token, 33, 41)) {
        Ok(v) => v,
        Err(_) => {
            return Err(DurableStoreError::InvalidRecord);
        },
    };
    let position = match decode_u64(slice_subrange(token, 41, 49)) {
        Ok(v) => v,
        Err(_) => {
            return Err(DurableStoreError::InvalidRecord);
        },
    };
    if position > snapshot {
        return Err(DurableStoreError::InvalidRecord);
    }
    Ok((snapshot, position))
}

/// A cursor issued for a session reads back as the boundary it was issued for.
pub proof fn lemma_cursor_round_trip(binding: Seq<u8>, snapshot: u64, position: u64)
    requires
        binding.len() == 32,
        position <= snapshot,
    ensures
        spec_decode_cursor(binding, spec_encode_cursor(binding, snapshot, position), true) == Ok::<
            (u64, u64),
            DurableStoreError,
        >((snapshot, position)),
{
    let token = spec_encode_cursor(binding, snapshot, position);
    assert(token.subrange(1, 33) =~= binding);
    assert(token.subrange(33, 41) =~= u64_be_bytes(snapshot));
    assert(token.subrange(41, 49) =~= u64_be_bytes(position));
    lemma_u64_bytes_round_trip(snapshot);
    lemma_u64_bytes_round_trip(position);
}

/// A cursor presented for another session is refused.
pub proof fn lemma_cursor_bound_to_session(
    binding: Seq<u8>,
    other: Seq<u8>,
    snapshot: u64,
    position: u64,
    token_valid: bool,
)
    requires
        binding.len() == 32,
        other != binding,
    ensures
        spec_decode_cursor(other, spec_encode_cursor(binding, snapshot, position), token_valid)
            == Err::<(u64, u64), DurableStoreError>(DurableStoreError::InvalidRecord),
{
    let token = spec_encode_cursor(binding, snapshot, position);
    assert(token.subrange(1, 33) =~= binding);
}

/// The snapshot boundary of a scope: the largest journal sequence in it, or 0.
pub fn snapshot_boundary(max_journal_seq: Option<i64>) -> (r: Result<u64, DurableStoreError>)
    ensures
        r == match max_journal_seq {
            None => Ok::<u64, DurableStoreError>(0),
            Some(v) => if v >= 0 {
                Ok::<u64, DurableStoreError>(v as u64)
            } else {
                Err::<u64, DurableStoreError>(DurableStoreError::Corrupt)
            },
        },
{
    match max_journal_seq {
        None => Ok(0),
        Some(v) => from_sql_seq(v),
    }
}

/// The `(snapshot, position)` window of a summary page: a first page starts at the
/// scope's current boundary; a resumed page keeps the snapshot its cursor pins, so
/// events appended during a pass stay out of it, and a snapshot beyond the current
/// boundary means the journal lost events.
pub open spec fn spec_page_window(cursor: Option<(u64, u64)>, current_boundary: u64) -> Result<
    (u64, u64),
    DurableStoreError,
> {
    match cursor {
        None => Ok((current_boundary, 0)),
        Some((snapshot, position)) => if snapshot > current_boundary {
            Err(DurableStoreError::Corrupt)
        } else {
            Ok((snapshot, position))
        },
    }
}

/// Decides the window of a summary page from the decoded cursor, if any.
pub fn page_window(cursor: Option<(u64, u64)>, current_boundary: u64) -> (r: Result<
    (u64, u64),
    DurableStoreError,
>)
    ensures
        r == spec_page_window(cursor, current_boundary),
{
    match cursor {
        None => Ok((current_boundary, 0)),
        Some((snapshot, position)) => {
            if snapshot > current_boundary {
                Err(DurableStoreError::Corrupt)
            } else {
                Ok((snapshot, position))
            }
        },
    }
}

/// The SQL row limit for a page of `max_items` summaries: one more row than the page
/// holds, to learn whether another page follows.
pub fn page_query_limit(max_items: usize) -> (r: Result<i64, DurableStoreError>)
    ensures
        max_items + 1 <= i64::MAX ==> r == Ok::<i64, DurableStoreError>((max_items + 1) as i64),
        max_items + 1 > i64::MAX ==> r == Err::<i64, DurableStoreError>(
            DurableStoreError::InvalidRecord,
        ),
{
    if max_items as u64 >= i64::MAX as u64 {
        return Err(DurableStoreError::InvalidRecord);
    }
    Ok((max_items as u64 + 1) as i64)
}

/// How a page is cut from the rows read: whether another page follows, how many
/// rows the page keeps, and the journal position of its last kept row.
#[derive(Clone, Copy, PartialEq, Eq, Debug, Structural)]
pub struct PageCut {
    pub has_more: bool,
    pub kept: usize,
    pub last_position: u64,
}

/// The cut of a page from the journal sequences of the rows read (in journal
/// order), for at most `max_items` summaries starting after `position`. Every kept
/// sequence must be non-negative.
pub open spec fn spec_cut_page(sequences: Seq<i64>, max_items: usize, position: u64) -> Result<
    PageCut,
    DurableStoreError,
> {
    let kept = if sequences.len() > max_items {
        max_items as int
    } else {
        sequences.len() as int
    };
    if exists|i: int| 0 <= i < kept && sequences[i] < 0 {
        Err(DurableStoreError::Corrupt)
    } else {
        Ok(
            PageCut {
                has_more: sequences.len() > max_items,
                kept: kept as usize,
                last_position: if kept == 0 {
                    position
                } else {
                    sequences[kept - 1] as u64
                },
            },
        )
    }
}

/// Cuts a page from the journal sequences of the rows read.
pub fn cut_page(sequences: &Vec<i64>, max_items: usize, position: u64) -> (r: Result<
    PageCut,
    DurableStoreError,
>)
    ensures
        r == spec_cut_page(sequences@, max_items, position),
{
    let has_more = sequences.len() > max_items;
    let kept = if has_more {
        max_items
    } else {
        sequences.len()
    };
    let mut last_position = position;
    let mut i: usize = 0;
    while i < kept
        invariant
            kept <= sequences@.len(),
            kept == (if sequences@.len() > max_items {
                max_items as int
            } else {
                sequences@.len() as int
            }),
            i <= kept,
            forall|j: int| 0 <= j < i ==> sequences@[j] >= 0,
            last_position == (if i == 0 {
                position
            } else {
                sequences@[i - 1] as u64
            }),
        decreases kept - i,
    {
        last_position = from_sql_seq(sequences[i])?;
        i = i + 1;
    }
    Ok(PageCut { has_more, kept, last_position })
}

/// Paging never leaves the pinned snapshot: a page cut from rows inside the window
/// `(position, snapshot]` resumes from a position still inside the snapshot.
pub proof fn lemma_cut_page_stays_in_snapshot(
    sequences: Seq<i64>,
    max_items: usize,
    position: u64,
    snapshot: u64,
)
    requires
        position <= snapshot,
        forall|i: int| 0 <= i < sequences.len() ==> position < #[trigger] sequences[i] <= snapshot,
    ensures
        spec_cut_page(sequences, max_items, position) matches Ok(cut) && position
            <= cut.last_position <= snapshot,
{
}

/// How a remote event summary compares with the local replica.
#[derive(Clone, Copy, PartialEq, Eq, Debug, Structural)]
pub enum EventReplicaState {
    /// The event is not stored locally.
    Missing,
    /// The local event has the same fingerprint.
    Matching,
    /// The local event differs: it is reported, never overwritten.
    Damaged,
}

/// Classifies a remote summary against the fingerprint of the local event, if any.
pub fn classify_summary(local_fingerprint: Option<&[u8]>, remote_fingerprint: &[u8]) -> (r:
    EventReplicaState)
    ensures
        r == match local_fingerprint {
            None => EventReplicaState::Missing,
            Some(f) => if f@ == remote_fingerprint@ {
                EventReplicaState::Matching
            } else {
                EventReplicaState::Damaged
            },
        },
{
    match local_fingerprint {
        None => EventReplicaState::Missing,
        Some(f) => {
            if bytes_eq(f, remote_fingerprint) {
                EventReplicaState::Matching
            } else {
                EventReplicaState::Damaged
            }
        },
    }
}

/// Whether a list of event ids holds no id twice.
pub open spec fn spec_ids_distinct(ids: Seq<String>) -> bool {
    forall|i: int, j: int| 0 <= i < j < ids.len() ==> ids[i]@ != ids[j]@
}

/// Checks that a batch of summaries names every event at most once; a repeated id
/// makes the batch invalid.
pub fn check_distinct_ids(ids: &Vec<String>) -> (r: Result<(), DurableStoreError>)
    ensures
        spec_ids_distinct(ids@) ==> r == Ok::<(), DurableStoreError>(()),
        !spec_ids_distinct(ids@) ==> r == Err::<(), DurableStoreError>(
            DurableStoreError::InvalidRecord,
        ),
{
    let mut j: usize = 0;
    while j < ids.len()
        invariant
            j <= ids@.len(),
            forall|a: int, b: int| 0 <= a < b < j ==> ids@[a]@ != ids@[b]@,
        decreases ids@.len() - j,
    {
        let mut i: usize = 0;
        while i < j
            invariant
                i <= j < ids@.len(),
                forall|a: int, b: int| 0 <= a < b < j ==> ids@[a]@ != ids@[b]@,
                forall|a: int| 0 <= a < i ==> ids@[a]@ != ids@[j as int]@,
            decreases j - i,
        {
            if ids[i] == ids[j] {
                return Err(DurableStoreError::InvalidRecord);
            }
            i = i + 1;
        }
        j = j + 1;
    }
    Ok(())
}

/// The reconciliation rule for a remote event: it must belong to the requested
/// scope; with no local event under its id it is appended. Otherwise the local
/// event's fingerprint (unavailable means the local event is damaged) is compared
/// with the remote one's (unavailable means the remote event is invalid): equal is
/// a duplicate, different a conflict, and the local event is never overwritten.
pub open spec fn spec_reconcile_step(
    scope_matches: bool,
    local_fingerprint: Option<Option<Seq<u8>>>,
    remote_fingerprint: Option<Seq<u8>>,
) -> Result<WriteStep, DurableStoreError> {
    if !scope_matches {
        Err(DurableStoreError::InvalidRecord)
    } else {
        match local_fingerprint {
            None => Ok(WriteStep::Insert),
            Some(None) => Err(DurableStoreError::Corrupt),
            Some(Some(local)) => match remote_fingerprint {
                None => Err(DurableStoreError::InvalidRecord),
                Some(remote) => if local == remote {
                    Ok(WriteStep::Duplicate)
                } else {
                    Err(DurableStoreError::Conflict)
                },
            },
        }
    }
}

/// Decides how to reconcile a remote event into the local journal.
/// `local_fingerprint` is `None` when no local event has the id, and otherwise the
/// local event's fingerprint if it can be computed; `remote_fingerprint` is the
/// remote event's fingerprint if it can be computed.
pub fn reconcile_step(
    event_scope: &TenantScope,
    scope: &TenantScope,
    local_fingerprint: Option<Option<&[u8]>>,
    remote_fingerprint: Option<&[u8]>,
) -> (r: Result<WriteStep, DurableStoreError>)
    ensures
        r == spec_reconcile_step(
            event_scope@ == scope@,
            match local_fingerprint {
                None => None,
                Some(None) => Some(None),
                Some(Some(f)) => Some(Some(f@)),
            },
            match remote_fingerprint {
                None => None,
                Some(f) => Some(f@),
            },
        ),
{
    if !scope_eq(event_scope, scope) {
        return Err(DurableStoreError::InvalidRecord);
    }
    match local_fingerprint {
        None => Ok(WriteStep::Insert),
        Some(None) => Err(DurableStoreError::Corrupt),
        Some(Some(local)) => match remote_fingerprint {
            None => Err(DurableStoreError::InvalidRecord),
            Some(remote) => {
                if bytes_eq(local, remote) {
                    Ok(WriteStep::Duplicate)
                } else {
                    Err(DurableStoreError::Conflict)
                }
            },
        },
    }
}

/// Reconciliation never overwrites: once the remote event is in the local
/// journal, reconciling it again is a duplicate, and a differing remote event
/// under the same id is a conflict.
pub proof fn lemma_reconcile_is_idempotent(fingerprint: Seq<u8>, other: Seq<u8>)
    ensures
        spec_reconcile_step(true, Some(Some(fingerprint)), Some(fingerprint)) == Ok::<
            WriteStep,
            DurableStoreError,
        >(WriteStep::Duplicate),
        other != fingerprint ==> spec_reconcile_step(true, Some(Some(fingerprint)), Some(other))
            == Err::<WriteStep, DurableStoreError>(DurableStoreError::Conflict),
{
}

/// Whether journal sequences are in strictly ascending order, as a scope's journal is.
pub open spec fn strictly_increasing(journal: Seq<u64>) -> bool {
    forall|i: int, j: int| 0 <= i < j < journal.len() ==> journal[i] < journal[j]
}

/// The index of the first sequence of an ascending journal that lies after
/// `position` (the journal's length when there is none).
pub open spec fn first_after(journal: Seq<u64>, position: u64) -> nat
    decreases journal.len(),
{
    if journal.len() == 0 {
        0
    } else if journal[0] > position {
        0
    } else {
        1 + first_after(journal.drop_first(), position)
    }
}

/// The sequences of an ascending journal that lie after `position`, in journal
/// order: the rows a summary page reads from `position` on.
pub open spec fn events_after(journal: Seq<u64>, position: u64) -> Seq<u64> {
    journal.skip(first_after(journal, position) as int)
}

/// Resuming after the `k`-th sequence of an ascending journal starts exactly at the
/// sequence that follows it.
proof fn lemma_first_after_entry(journal: Seq<u64>, k: int)
    requires
        strictly_increasing(journal),
        0 <= k < journal.len(),
    ensures
        first_after(journal, journal[k]) == k + 1,
    decreases journal.len(),
{
    let rest = journal.drop_first();
    assert(strictly_increasing(rest)) by {
        assert forall|i: int, j: int| 0 <= i < j < rest.len() implies rest[i] < rest[j] by {
            assert(rest[i] == journal[i + 1] && rest[j] == journal[j + 1]);
        }
    }
    if k == 0 {
        if rest.len() > 0 {
            assert(rest[0] == journal[1]);
            assert(journal[0] < journal[1]);
        }
        assert(first_after(journal, journal[k]) == 1 + first_after(rest, journal[0]));
    } else {
        assert(journal[0] < journal[k]);
        assert(rest[k - 1] == journal[k]);
        lemma_first_after_entry(rest, k - 1);
        assert(first_after(journal, journal[k]) == 1 + first_after(rest, journal[k]));
    }
}

/// `first_after` never runs past the journal.
proof fn lemma_first_after_bound(journal: Seq<u64>, position: u64)
    ensures
        first_after(journal, position) <= journal.len(),
    decreases journal.len(),
{
    if journal.len() > 0 && journal[0] <= position {
        lemma_first_after_bound(journal.drop_first(), position);
    }
}

/// Resuming after the `k`-th sequence read from `position` reads exactly the rows
/// that followed it.
pub proof fn lemma_events_after_resume(journal: Seq<u64>, position: u64, k: int)
    requires
        strictly_increasing(journal),
        0 <= k < events_after(journal, position).len(),
    ensures
        events_after(journal, events_after(journal, position)[k]) =~= events_after(
            journal,
            position,
        ).skip(k + 1),
{
    lemma_first_after_bound(journal, position);
    let m = first_after(journal, position) as int;
    assert(events_after(journal, position)[k] == journal[m + k]);
    lemma_first_after_entry(journal, m + k);
}

/// The summaries of a whole pass, page after page, starting after `position` with
/// pages of `max_items`: each page keeps the next `max_items` rows, and a following
/// page resumes after the last row kept.
pub open spec fn summary_pass(journal: Seq<u64>, position: u64, max_items: nat) -> Seq<u64>
    decreases events_after(journal, position).len(),
    when strictly_increasing(journal) && max_items >= 1
{
    let rows = events_after(journal, position);
    if rows.len() <= max_items {
        rows
    } else {
        proof {
            lemma_events_after_resume(journal, position, max_items - 1);
        }
        rows.take(max_items as int) + summary_pass(journal, rows[max_items - 1], max_items)
    }
}

/// A chained pass reads every event of the pinned snapshot exactly once, in journal
/// order: the pages of a pass that starts after `position` concatenate to the
/// journal's sequences after `position`.
pub proof fn lemma_summary_pass_reads_each_event_once(
    journal: Seq<u64>,
    position: u64,
    max_items: nat,
)
    requires
        strictly_increasing(journal),
        max_items >= 1,
    ensures
        summary_pass(journal, position, max_items) =~= events_after(journal, position),
    decreases events_after(journal, position).len(),
{
    let rows = events_after(journal, position);
    if rows.len() > max_items {
        lemma_events_after_resume(journal, position, max_items - 1);
        lemma_summary_pass_reads_each_event_once(journal, rows[max_items - 1], max_items);
        assert(rows.take(max_items as int) + rows.skip(max_items as int) =~= rows);
    }
}

/// A summary page cut from the rows read after `position` (at most one more than
/// the page holds) keeps the next `max_items` rows, says that another page follows
/// exactly when more rows remain, and resumes at the last row it kept, where the
/// next page reads exactly the remaining rows.
pub proof fn lemma_summary_page_resumes_exactly(journal: Seq<u64>, position: u64, max_items: usize)
    requires
        strictly_increasing(journal),
        max_items >= 1,
        forall|i: int| 0 <= i < journal.len() ==> #[trigger] journal[i] <= i64::MAX,
    ensures
        ({
            let rows = events_after(journal, position);
            let read = rows.take(
                if rows.len() > max_items + 1 {
                    max_items + 1
                } else {
                    rows.len() as int
                },
            ).map_values(|v: u64| v as i64);
            spec_cut_page(read, max_items, position) matches Ok(cut) && cut.has_more == (rows.len()
                > max_items) && (cut.has_more ==> cut.kept == max_items && events_after(
                journal,
                cut.last_position,
            ) == rows.skip(max_items as int))
        }),
{
    lemma_first_after_bound(journal, position);
    let rows = events_after(journal, position);
    let read = rows.take(
        if rows.len() > max_items + 1 {
            max_items + 1
        } else {
            rows.len() as int
        },
    ).map_values(|v: u64| v as i64);
    let m = first_after(journal, position) as int;
    assert forall|i: int| 0 <= i < read.len() implies read[i] >= 0 && read[i] as u64 == rows[i] by {
        assert(rows[i] == journal[m + i]);
    }
    if rows.len() > max_items {
        lemma_events_after_resume(journal, position, max_items - 1);
        assert(read[max_items - 1] as u64 == rows[max_items - 1]);
    }
}

/// A resumed page keeps the snapshot its cursor pins: whatever the journal has grown
/// to since (any current boundary at or above the snapshot), the window is the
/// cursor's own snapshot and position, so events appended during a pass stay out of
/// it; a snapshot beyond the current boundary is corrupt, and a first page starts at
/// the current boundary from the beginning.
pub proof fn lemma_resumed_page_keeps_pinned_snapshot(
    snapshot: u64,
    position: u64,
    boundary: u64,
    later_boundary: u64,
)
    ensures
        snapshot <= boundary <= later_boundary ==> spec_page_window(
            Some((snapshot, position)),
            boundary,
        ) == Ok::<(u64, u64), DurableStoreError>((snapshot, position)) && spec_page_window(
            Some((snapshot, position)),
            later_boundary,
        ) == spec_page_window(Some((snapshot, position)), boundary),
        snapshot > boundary ==> spec_page_window(Some((snapshot, position)), boundary) == Err::<
            (u64, u64),
            DurableStoreError,
        >(DurableStoreError::Corrupt),
        spec_page_window(None, boundary) == Ok::<(u64, u64), DurableStoreError>((boundary, 0)),
{
}

} // verus!
