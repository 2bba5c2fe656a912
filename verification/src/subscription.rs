use vstd::prelude::*;
use crate::error::{DurableStoreError, or_corrupt};
use crate::text::text_eq;
use crate::text::bytes_eq;
use crate::error::DurableRecordStatus;
use vstd::slice::slice_to_vec;
use crate::scope::{stored_scope, spec_stored_scope, ScopeView, TenantScope};
use crate::principal::{same_principal, PrincipalKind, PrincipalRef, PrincipalView};
use crate::intent::{texts_eq, texts_view};
use crate::journal::{opt_text, opt_text_eq};
use crate::scope::scope_eq;
use crate::codec::decode_u32;
use crate::record::WriteStep;

verus! {

/// How events reach a subscription.
#[derive(Clone, Copy, PartialEq, Eq, Debug, Structural)]
pub enum EventSubscriptionMode {
    DurableStream,
    Webhook,
}

/// The text stored for a mode.
pub open spec fn mode_text(value: EventSubscriptionMode) -> Seq<char> {
    match value {
        EventSubscriptionMode::DurableStream => "durable_stream"@,
        EventSubscriptionMode::Webhook => "webhook"@,
    }
}

/// The mode that a stored text names, if any.
pub open spec fn mode_from_text(text: Seq<char>) -> Option<EventSubscriptionMode> {
    if text == "durable_stream"@ {
        Some(EventSubscriptionMode::DurableStream)
    } else if text == "webhook"@ {
        Some(EventSubscriptionMode::Webhook)
    } else {
        None
    }
}

/// The text stored for a mode.
pub fn mode_name(value: EventSubscriptionMode) -> (r: &'static str)
    ensures
        r@ == mode_text(value),
{
    match value {
        EventSubscriptionMode::DurableStream => "durable_stream",
        EventSubscriptionMode::Webhook => "webhook",
    }
}

/// Reads a stored mode; unrecognised text is corrupt.
pub fn parse_mode(value: &str) -> (r: Result<EventSubscriptionMode, DurableStoreError>)
    ensures
        r == or_corrupt(mode_from_text(value@)),
{
    if text_eq(value, "durable_stream") {
        Ok(EventSubscriptionMode::DurableStream)
    } else if text_eq(value, "webhook") {
        Ok(EventSubscriptionMode::Webhook)
    } else {
        Err(DurableStoreError::Corrupt)
    }
}

/// Every mode reads back unchanged from the text stored for it.
pub proof fn lemma_mode_text_round_trip(value: EventSubscriptionMode)
    ensures
        mode_from_text(mode_text(value)) == Some(value),
{
    reveal_strlit("durable_stream");
    reveal_strlit("webhook");
    match value {
        EventSubscriptionMode::DurableStream => {
        },
        EventSubscriptionMode::Webhook => {
            assert("webhook"@.len() != "durable_stream"@.len());
        },
    }
}

/// Where a new subscription starts reading the journal.
#[derive(Clone, Copy, PartialEq, Eq, Debug, Structural)]
pub enum EventSubscriptionStart {
    Beginning,
    Latest,
}

/// The text stored for a start.
pub open spec fn start_text(value: EventSubscriptionStart) -> Seq<char> {
    match value {
        EventSubscriptionStart::Beginning => "beginning"@,
        EventSubscriptionStart::Latest => "latest"@,
    }
}

/// The start that a stored text names, if any.
pub open spec fn start_from_text(text: Seq<char>) -> Option<EventSubscriptionStart> {
    if text == "beginning"@ {
        Some(EventSubscriptionStart::Beginning)
    } else if text == "latest"@ {
        Some(EventSubscriptionStart::Latest)
    } else {
        None
    }
}

/// The text stored for a start.
pub fn start_name(value: EventSubscriptionStart) -> (r: &'static str)
    ensures
        r@ == start_text(value),
{
    match value {
        EventSubscriptionStart::Beginning => "beginning",
        EventSubscriptionStart::Latest => "latest",
    }
}

/// Reads a stored start; unrecognised text is corrupt.
pub fn parse_start(value: &str) -> (r: Result<EventSubscriptionStart, DurableStoreError>)
    ensures
        r == or_corrupt(start_from_text(value@)),
{
    if text_eq(value, "beginning") {
        Ok(EventSubscriptionStart::Beginning)
    } else if text_eq(value, "latest") {
        Ok(EventSubscriptionStart::Latest)
    } else {
        Err(DurableStoreError::Corrupt)
    }
}

/// Every start reads back unchanged from the text stored for it.
pub proof fn lemma_start_text_round_trip(value: EventSubscriptionStart)
    ensures
        start_from_text(start_text(value)) == Some(value),
{
    reveal_strlit("beginning");
    reveal_strlit("latest");
    match value {
        EventSubscriptionStart::Beginning => {
        },
        EventSubscriptionStart::Latest => {
            assert("latest"@.len() != "beginning"@.len());
        },
    }
}

/// How a consumer rejected a delivered batch.
#[derive(Clone, Copy, PartialEq, Eq, Debug, Structural)]
pub enum EventDeliveryFailureKind {
    Retryable,
    Permanent,
}

/// The text stored for a failure.
pub open spec fn failure_text(value: EventDeliveryFailureKind) -> Seq<char> {
    match value {
        EventDeliveryFailureKind::Retryable => "retryable"@,
        EventDeliveryFailureKind::Permanent => "permanent"@,
    }
}

/// The failure that a stored text names, if any.
pub open spec fn failure_from_text(text: Seq<char>) -> Option<EventDeliveryFailureKind> {
    if text == "retryable"@ {
        Some(EventDeliveryFailureKind::Retryable)
    } else if text == "permanent"@ {
        Some(EventDeliveryFailureKind::Permanent)
    } else {
        None
    }
}

/// The text stored for a failure.
pub fn failure_name(value: EventDeliveryFailureKind) -> (r: &'static str)
    ensures
        r@ == failure_text(value),
{
    match value {
        EventDeliveryFailureKind::Retryable => "retryable",
        EventDeliveryFailureKind::Permanent => "permanent",
    }
}

/// Reads a stored failure; unrecognised text is corrupt.
pub fn parse_failure(value: &str) -> (r: Result<EventDeliveryFailureKind, DurableStoreError>)
    ensures
        r == or_corrupt(failure_from_text(value@)),
{
    if text_eq(value, "retryable") {
        Ok(EventDeliveryFailureKind::Retryable)
    } else if text_eq(value, "permanent") {
        Ok(EventDeliveryFailureKind::Permanent)
    } else {
        Err(DurableStoreError::Corrupt)
    }
}

/// Every failure reads back unchanged from the text stored for it.
pub proof fn lemma_failure_text_round_trip(value: EventDeliveryFailureKind)
    ensures
        failure_from_text(failure_text(value)) == Some(value),
{
    reveal_strlit("retryable");
    reveal_strlit("permanent");
    match value {
        EventDeliveryFailureKind::Retryable => {
        },
        EventDeliveryFailureKind::Permanent => {
            assert("permanent"@[0] != "retryable"@[0]);
        },
    }
}

/// The last action taken on a subscription cursor.
#[derive(Clone, Copy, PartialEq, Eq, Debug, Structural)]
pub enum CursorAction {
    Acknowledge,
    Reject,
}

/// The text stored for a cursor action.
pub open spec fn cursor_action_text(value: CursorAction) -> Seq<char> {
    match value {
        CursorAction::Acknowledge => "ack"@,
        CursorAction::Reject => "reject"@,
    }
}

/// The cursor action that a stored text names, if any.
pub open spec fn cursor_action_from_text(text: Seq<char>) -> Option<CursorAction> {
    if text == "ack"@ {
        Some(CursorAction::Acknowledge)
    } else if text == "reject"@ {
        Some(CursorAction::Reject)
    } else {
        None
    }
}

/// The text stored for a cursor action.
pub fn action_name(value: CursorAction) -> (r: &'static str)
    ensures
        r@ == cursor_action_text(value),
{
    match value {
        CursorAction::Acknowledge => "ack",
        CursorAction::Reject => "reject",
    }
}

/// Reads a stored cursor action; unrecognised text is corrupt.
pub fn parse_action(value: &str) -> (r: Result<CursorAction, DurableStoreError>)
    ensures
        r == or_corrupt(cursor_action_from_text(value@)),
{
    if text_eq(value, "ack") {
        Ok(CursorAction::Acknowledge)
    } else if text_eq(value, "reject") {
        Ok(CursorAction::Reject)
    } else {
        Err(DurableStoreError::Corrupt)
    }
}

/// Every cursor action reads back unchanged from the text stored for it.
pub proof fn lemma_cursor_action_text_round_trip(value: CursorAction)
    ensures
        cursor_action_from_text(cursor_action_text(value)) == Some(value),
{
    reveal_strlit("ack");
    reveal_strlit("reject");
    match value {
        CursorAction::Acknowledge => {
        },
        CursorAction::Reject => {
            assert("reject"@.len() != "ack"@.len());
        },
    }
}


/// The batch of events currently handed to a subscription's consumer.
#[derive(Clone, Copy, PartialEq, Eq, Debug, Structural)]
pub struct ActiveBatch {
    /// Generation of the subscription the batch was cut in.
    pub generation: u64,
    /// Journal sequence of the batch's last event.
    pub end_seq: u64,
    /// Delivery attempt of the batch, from 1.
    pub attempt: u32,
    /// Earliest time of the next delivery attempt.
    pub not_before_unix_ms: i64,
}

/// The position a consumer cursor token is cut for: generation, last event and attempt.
#[derive(Clone, Copy, PartialEq, Eq, Debug, Structural)]
pub struct CursorPosition {
    pub generation: u64,
    pub end_seq: u64,
    pub attempt: u32,
}

/// The delivery state of an event subscription.
pub struct SubscriptionCursor {
    /// Journal sequence up to which events are settled.
    pub committed_seq: u64,
    /// Bumped by every replay; cursors of older generations are stale.
    pub generation: u64,
    /// Identifier of the last replay applied.
    pub last_replay_id: Option<String>,
    /// The last cursor token acknowledged or rejected, and which of the two.
    pub last_cursor: Option<(Vec<u8>, CursorAction)>,
    /// The batch awaiting acknowledgement, if any.
    pub active: Option<ActiveBatch>,
    /// Attempts after which a rejected batch goes to the dead letters.
    pub max_attempts: u32,
    /// Largest number of events in one batch.
    pub max_in_flight: u32,
}

/// The mathematical content of a [`SubscriptionCursor`].
pub struct SubscriptionView {
    pub committed_seq: u64,
    pub generation: u64,
    pub last_replay_id: Option<Seq<char>>,
    pub last_cursor: Option<(Seq<u8>, CursorAction)>,
    pub active: Option<ActiveBatch>,
    pub max_attempts: u32,
    pub max_in_flight: u32,
}

impl View for SubscriptionCursor {
    type V = SubscriptionView;

    open spec fn view(&self) -> SubscriptionView {
        SubscriptionView {
            committed_seq: self.committed_seq,
            generation: self.generation,
            last_replay_id: match self.last_replay_id {
                Some(r) => Some(r@),
                None => None,
            },
            last_cursor: match self.last_cursor {
                Some((t, a)) => Some((t@, a)),
                None => None,
            },
            active: self.active,
            max_attempts: self.max_attempts,
            max_in_flight: self.max_in_flight,
        }
    }
}

/// The answer to a cursor that was already acted on: the same action again is a
/// duplicate, the other action conflicts; a different token is not answered here.
pub open spec fn spec_last_action_result(
    last_cursor: Option<(Seq<u8>, CursorAction)>,
    token: Seq<u8>,
    expected_action: CursorAction,
) -> Option<Result<DurableRecordStatus, DurableStoreError>> {
    match last_cursor {
        Some((t, action)) => if t == token {
            if action == expected_action {
                Some(Ok(DurableRecordStatus::Duplicate))
            } else {
                Some(Err(DurableStoreError::Conflict))
            }
        } else {
            None
        },
        None => None,
    }
}

/// Answers a cursor that was already acted on, if the token is the last one.
pub fn last_action_result(
    last_cursor: &Option<(Vec<u8>, CursorAction)>,
    token: &[u8],
    expected_action: CursorAction,
) -> (r: Option<Result<DurableRecordStatus, DurableStoreError>>)
    ensures
        r == spec_last_action_result(
            match *last_cursor {
                Some((t, a)) => Some((t@, a)),
                None => None,
            },
            token@,
            expected_action,
        ),
{
    match last_cursor {
        Some((t, action)) => {
            if bytes_eq(t.as_slice(), token) {
                if *action == expected_action {
                    Some(Ok(DurableRecordStatus::Duplicate))
                } else {
                    Some(Err(DurableStoreError::Conflict))
                }
            } else {
                None
            }
        },
        None => None,
    }
}

/// The position of the cursor the consumer must present for the active batch:
/// without a batch any cursor conflicts; a batch of another generation, or one that
/// ends at or before the committed sequence, is corrupt.
pub open spec fn spec_expected_active_cursor(s: SubscriptionView) -> Result<
    CursorPosition,
    DurableStoreError,
> {
    match s.active {
        None => Err(DurableStoreError::Conflict),
        Some(a) => if a.generation != s.generation || a.end_seq <= s.committed_seq {
            Err(DurableStoreError::Corrupt)
        } else {
            Ok(CursorPosition { generation: s.generation, end_seq: a.end_seq, attempt: a.attempt })
        },
    }
}

/// The position of the cursor the consumer must present for the active batch.
pub fn expected_active_cursor(state: &SubscriptionCursor) -> (r: Result<
    CursorPosition,
    DurableStoreError,
>)
    ensures
        r == spec_expected_active_cursor(state@),
{
    match state.active {
        None => Err(DurableStoreError::Conflict),
        Some(a) => {
            if a.generation != state.generation || a.end_seq <= state.committed_seq {
                return Err(DurableStoreError::Corrupt);
            }
            Ok(CursorPosition { generation: state.generation, end_seq: a.end_seq, attempt: a.attempt })
        },
    }
}

/// Acknowledging a cursor. `expected_token` is the token of the expected active
/// cursor position. A repeated acknowledgement is a duplicate; a token other than
/// the expected one conflicts; otherwise the batch is committed: the committed
/// sequence moves to the batch's end, the batch is cleared and the token remembered.
pub open spec fn spec_acknowledge(s: SubscriptionView, token: Seq<u8>, expected_token: Seq<u8>) -> Result<
    (DurableRecordStatus, SubscriptionView),
    DurableStoreError,
> {
    match spec_last_action_result(s.last_cursor, token, CursorAction::Acknowledge) {
        Some(Ok(status)) => Ok((status, s)),
        Some(Err(e)) => Err(e),
        None => match spec_expected_active_cursor(s) {
            Err(e) => Err(e),
            Ok(position) => if token != expected_token {
                Err(DurableStoreError::Conflict)
            } else {
                Ok(
                    (
                        DurableRecordStatus::Persisted,
                        SubscriptionView {
                            committed_seq: position.end_seq,
                            last_cursor: Some((token, CursorAction::Acknowledge)),
                            active: None,
                            ..s
                        },
                    ),
                )
            },
        },
    }
}

/// Acknowledges a consumer cursor, updating the subscription's delivery state; on
/// any error, and on a duplicate, the state is unchanged.
pub fn acknowledge(state: &mut SubscriptionCursor, token: &[u8], expected_token: &[u8]) -> (r: Result<
    DurableRecordStatus,
    DurableStoreError,
>)
    ensures
        match (r, spec_acknowledge(old(state)@, token@, expected_token@)) {
            (Ok(status), Ok((expected_status, next))) => status == expected_status && final(state)@
                == next,
            (Err(e), Err(f)) => e == f && final(state)@ == old(state)@,
            _ => false,
        },
{
    if let Some(result) = last_action_result(&state.last_cursor, token, CursorAction::Acknowledge) {
        return result;
    }
    let position = expected_active_cursor(state)?;
    if !bytes_eq(token, expected_token) {
        return Err(DurableStoreError::Conflict);
    }
    state.committed_seq = position.end_seq;
    state.last_cursor = Some((slice_to_vec(token), CursorAction::Acknowledge));
    state.active = None;
    Ok(DurableRecordStatus::Persisted)
}

/// Acknowledgement is idempotent: once a batch is committed, acknowledging the same
/// cursor again is a duplicate that changes nothing, and rejecting it (at a valid
/// time) conflicts.
pub proof fn lemma_acknowledge_idempotent(
    s: SubscriptionView,
    token: Seq<u8>,
    expected_token: Seq<u8>,
    later_expected: Seq<u8>,
    now: i64,
    failure: EventDeliveryFailureKind,
    delay: u64,
)
    requires
        now >= 0,
    ensures
        spec_acknowledge(s, token, expected_token) matches Ok((_, next)) ==> spec_acknowledge(
            next,
            token,
            later_expected,
        ) == Ok::<(DurableRecordStatus, SubscriptionView), DurableStoreError>(
            (DurableRecordStatus::Duplicate, next),
        ) && spec_reject(next, token, later_expected, failure, now, delay) == Err::<
            (RejectOutcome, SubscriptionView),
            DurableStoreError,
        >(DurableStoreError::Conflict),
{
}

/// An acknowledgement that commits a batch settles exactly that batch: the committed
/// sequence becomes the batch's last event and no batch remains active.
pub proof fn lemma_acknowledge_commits_batch(s: SubscriptionView, token: Seq<u8>, expected_token: Seq<u8>)
    ensures
        spec_acknowledge(s, token, expected_token) matches Ok((DurableRecordStatus::Persisted, next))
            ==> (s.active matches Some(a) && next.committed_seq == a.end_seq && next.active is None
            && next.generation == s.generation),
{
}

/// What a rejection did with the active batch.
#[derive(Clone, Copy, PartialEq, Eq, Debug, Structural)]
pub enum RejectOutcome {
    /// The rejection was already recorded.
    Duplicate,
    /// The batch is settled as dead letters: the events after `from_seq` through
    /// `through_seq`, each after `attempts` attempts.
    DeadLettered { from_seq: u64, through_seq: u64, attempts: u32 },
    /// The batch will be offered again as the given attempt, not before the given time.
    Retry { attempt: u32, not_before_unix_ms: i64 },
}

/// Rejecting a cursor at `now_unix_ms`. A repeated rejection is a duplicate; a token
/// other than the expected one conflicts. A permanent failure, or a batch out of
/// attempts, settles the batch as dead letters; otherwise the batch is scheduled
/// for its next attempt after `retry_delay_ms`.
pub open spec fn spec_reject(
    s: SubscriptionView,
    token: Seq<u8>,
    expected_token: Seq<u8>,
    failure: EventDeliveryFailureKind,
    now_unix_ms: i64,
    retry_delay_ms: u64,
) -> Result<(RejectOutcome, SubscriptionView), DurableStoreError> {
    if now_unix_ms < 0 {
        Err(DurableStoreError::InvalidRecord)
    } else {
        match spec_last_action_result(s.last_cursor, token, CursorAction::Reject) {
            Some(Ok(_)) => Ok((RejectOutcome::Duplicate, s)),
            Some(Err(e)) => Err(e),
            None => match spec_expected_active_cursor(s) {
                Err(e) => Err(e),
                Ok(position) => if token != expected_token {
                    Err(DurableStoreError::Conflict)
                } else {
                    let recorded = Some((token, CursorAction::Reject));
                    if failure == EventDeliveryFailureKind::Permanent || position.attempt
                        >= s.max_attempts {
                        Ok(
                            (
                                RejectOutcome::DeadLettered {
                                    from_seq: s.committed_seq,
                                    through_seq: position.end_seq,
                                    attempts: position.attempt,
                                },
                                SubscriptionView {
                                    committed_seq: position.end_seq,
                                    last_cursor: recorded,
                                    active: None,
                                    ..s
                                },
                            ),
                        )
                    } else if position.attempt == u32::MAX {
                        Err(DurableStoreError::Corrupt)
                    } else if retry_delay_ms > i64::MAX {
                        Err(DurableStoreError::Internal)
                    } else if now_unix_ms + retry_delay_ms > i64::MAX {
                        Err(DurableStoreError::InvalidRecord)
                    } else {
                        let attempt = (position.attempt + 1) as u32;
                        let not_before = (now_unix_ms + retry_delay_ms) as i64;
                        Ok(
                            (
                                RejectOutcome::Retry { attempt, not_before_unix_ms: not_before },
                                SubscriptionView {
                                    last_cursor: recorded,
                                    active: Some(
                                        ActiveBatch {
                                            attempt,
                                            not_before_unix_ms: not_before,
                                            ..s.active->0
                                        },
                                    ),
                                    ..s
                                },
                            ),
                        )
                    }
                },
            },
        }
    }
}

/// Rejects a consumer cursor, updating the subscription's delivery state; on any
/// error, and on a duplicate, the state is unchanged. `retry_delay_ms` is the delay
/// the protocol prescribes before the batch's next attempt.
pub fn reject(
    state: &mut SubscriptionCursor,
    token: &[u8],
    expected_token: &[u8],
    failure: EventDeliveryFailureKind,
    now_unix_ms: i64,
    retry_delay_ms: u64,
) -> (r: Result<RejectOutcome, DurableStoreError>)
    ensures
        match (
            r,
            spec_reject(old(state)@, token@, expected_token@, failure, now_unix_ms, retry_delay_ms),
        ) {
            (Ok(outcome), Ok((expected_outcome, next))) => outcome == expected_outcome
                && final(state)@ == next,
            (Err(e), Err(f)) => e == f && final(state)@ == old(state)@,
            _ => false,
        },
{
    if now_unix_ms < 0 {
        return Err(DurableStoreError::InvalidRecord);
    }
    if let Some(result) = last_action_result(&state.last_cursor, token, CursorAction::Reject) {
        return match result {
            Ok(_) => Ok(RejectOutcome::Duplicate),
            Err(e) => Err(e),
        };
    }
    let position = expected_active_cursor(state)?;
    if !bytes_eq(token, expected_token) {
        return Err(DurableStoreError::Conflict);
    }
    if failure == EventDeliveryFailureKind::Permanent || position.attempt >= state.max_attempts {
        let from_seq = state.committed_seq;
        state.committed_seq = position.end_seq;
        state.last_cursor = Some((slice_to_vec(token), CursorAction::Reject));
        state.active = None;
        return Ok(
            RejectOutcome::DeadLettered {
                from_seq,
                through_seq: position.end_seq,
                attempts: position.attempt,
            },
        );
    }
    if position.attempt == u32::MAX {
        return Err(DurableStoreError::Corrupt);
    }
    if retry_delay_ms > i64::MAX as u64 {
        return Err(DurableStoreError::Internal);
    }
    let delay = retry_delay_ms as i64;
    if now_unix_ms > i64::MAX - delay {
        return Err(DurableStoreError::InvalidRecord);
    }
    let attempt = position.attempt + 1;
    let not_before = now_unix_ms + delay;
    let batch = state.active.unwrap();
    state.last_cursor = Some((slice_to_vec(token), CursorAction::Reject));
    state.active = Some(ActiveBatch { attempt, not_before_unix_ms: not_before, ..batch });
    Ok(RejectOutcome::Retry { attempt, not_before_unix_ms: not_before })
}

/// A retryable rejection within the attempt budget keeps the batch and its settled
/// sequence, and schedules exactly the next attempt after the prescribed delay.
pub proof fn lemma_reject_retry_schedules_next_attempt(
    s: SubscriptionView,
    token: Seq<u8>,
    expected_token: Seq<u8>,
    now: i64,
    delay: u64,
)
    ensures
        spec_reject(s, token, expected_token, EventDeliveryFailureKind::Retryable, now, delay) matches Ok(
            (RejectOutcome::Retry { attempt, not_before_unix_ms }, next),
        ) ==> (s.active matches Some(a) && next.active == Some(
            ActiveBatch { attempt, not_before_unix_ms, ..a },
        ) && attempt == a.attempt + 1 && not_before_unix_ms == now + delay && attempt
            <= s.max_attempts && next.committed_seq == s.committed_seq),
{
}

/// Replaying a subscription with `replay_id`: the same replay again is a duplicate;
/// otherwise the subscription rewinds to the start of the journal under a new
/// generation, forgetting its active batch and last cursor.
pub open spec fn spec_replay(s: SubscriptionView, replay_id: Seq<char>) -> Result<
    (DurableRecordStatus, SubscriptionView),
    DurableStoreError,
> {
    if s.last_replay_id == Some(replay_id) {
        Ok((DurableRecordStatus::Duplicate, s))
    } else if s.generation == u64::MAX {
        Err(DurableStoreError::Corrupt)
    } else {
        Ok(
            (
                DurableRecordStatus::Persisted,
                SubscriptionView {
                    committed_seq: 0,
                    generation: (s.generation + 1) as u64,
                    last_replay_id: Some(replay_id),
                    last_cursor: None,
                    active: None,
                    ..s
                },
            ),
        )
    }
}

/// Replays a subscription from the start of the journal; on any error, and on a
/// duplicate, the state is unchanged.
pub fn replay(state: &mut SubscriptionCursor, replay_id: &str) -> (r: Result<
    DurableRecordStatus,
    DurableStoreError,
>)
    ensures
        match (r, spec_replay(old(state)@, replay_id@)) {
            (Ok(status), Ok((expected_status, next))) => status == expected_status && final(state)@
                == next,
            (Err(e), Err(f)) => e == f && final(state)@ == old(state)@,
            _ => false,
        },
{
    let same = match &state.last_replay_id {
        Some(id) => text_eq(id.as_str(), replay_id),
        None => false,
    };
    if same {
        return Ok(DurableRecordStatus::Duplicate);
    }
    if state.generation == u64::MAX {
        return Err(DurableStoreError::Corrupt);
    }
    state.committed_seq = 0;
    state.generation = state.generation + 1;
    state.last_replay_id = Some(replay_id.to_owned());
    state.last_cursor = None;
    state.active = None;
    Ok(DurableRecordStatus::Persisted)
}

/// Replay is idempotent per replay id, and every applied replay invalidates all
/// cursors cut before it by moving to a new generation.
pub proof fn lemma_replay_idempotent(s: SubscriptionView, replay_id: Seq<char>)
    ensures
        spec_replay(s, replay_id) matches Ok((_, next)) ==> spec_replay(next, replay_id) == Ok::<
            (DurableRecordStatus, SubscriptionView),
            DurableStoreError,
        >((DurableRecordStatus::Duplicate, next)),
        spec_replay(s, replay_id) matches Ok((DurableRecordStatus::Persisted, next)) ==> next.generation
            > s.generation && next.committed_seq == 0 && next.active is None,
{
}

/// What polling a subscription must do next.
#[derive(Clone, Copy, PartialEq, Eq, Debug, Structural)]
pub enum PollStep {
    /// The active batch may not be offered yet: retry after this many milliseconds.
    RetryAfter(u64),
    /// Offer the active batch again under the cursor at this position.
    Redeliver(CursorPosition),
    /// No batch is active: load at most this many new matching events.
    LoadNew(u64),
}

/// The first step of a poll at `now_unix_ms` for at most `max_items` events.
pub open spec fn spec_poll_step(
    s: SubscriptionView,
    batch_size_valid: bool,
    max_items: u64,
    now_unix_ms: i64,
) -> Result<PollStep, DurableStoreError> {
    if !batch_size_valid || now_unix_ms < 0 {
        Err(DurableStoreError::InvalidRecord)
    } else {
        match s.active {
            Some(a) => if now_unix_ms < a.not_before_unix_ms {
                Ok(PollStep::RetryAfter((a.not_before_unix_ms - now_unix_ms) as u64))
            } else {
                match spec_expected_active_cursor(s) {
                    Ok(position) => Ok(PollStep::Redeliver(position)),
                    Err(e) => Err(e),
                }
            },
            None => Ok(
                PollStep::LoadNew(
                    if max_items <= s.max_in_flight {
                        max_items
                    } else {
                        s.max_in_flight as u64
                    },
                ),
            ),
        }
    }
}

/// Decides the first step of a poll; `batch_size_valid` says whether `max_items` is an
/// allowed batch size.
pub fn poll_step(state: &SubscriptionCursor, batch_size_valid: bool, max_items: u64, now_unix_ms: i64) -> (r:
    Result<PollStep, DurableStoreError>)
    ensures
        r == spec_poll_step(state@, batch_size_valid, max_items, now_unix_ms),
{
    if !batch_size_valid || now_unix_ms < 0 {
        return Err(DurableStoreError::InvalidRecord);
    }
    match state.active {
        Some(a) => {
            if now_unix_ms < a.not_before_unix_ms {
                return Ok(PollStep::RetryAfter((a.not_before_unix_ms - now_unix_ms) as u64));
            }
            let position = expected_active_cursor(state)?;
            Ok(PollStep::Redeliver(position))
        },
        None => {
            let limit = if max_items <= state.max_in_flight as u64 {
                max_items
            } else {
                state.max_in_flight as u64
            };
            Ok(PollStep::LoadNew(limit))
        },
    }
}

/// A poll never redelivers a batch early: while a batch waits, the poll reports a
/// positive wait that ends exactly at the batch's earliest next attempt.
pub proof fn lemma_poll_waits_for_backoff(s: SubscriptionView, valid: bool, max_items: u64, now: i64)
    ensures
        spec_poll_step(s, valid, max_items, now) matches Ok(PollStep::RetryAfter(wait)) ==> (
        s.active matches Some(a) && wait > 0 && now + wait == a.not_before_unix_ms),
{
}

/// The outcome of a poll that loaded new events.
#[derive(Clone, Copy, PartialEq, Eq, Debug, Structural)]
pub enum PollOutcome {
    /// No new event matched: the subscription is caught up.
    Empty,
    /// A new batch was cut; offer it under the cursor at this position.
    Batch(CursorPosition),
}

/// Finishing a poll that loaded new events: with none, the settled sequence moves to
/// the journal's latest sequence; otherwise a first attempt of a batch ending at the
/// last loaded event becomes active, offered from `now_unix_ms`.
pub open spec fn spec_finish_poll(
    s: SubscriptionView,
    last_loaded_seq: Option<u64>,
    latest_journal_seq: u64,
    now_unix_ms: i64,
) -> (PollOutcome, SubscriptionView) {
    match last_loaded_seq {
        None => (PollOutcome::Empty, SubscriptionView { committed_seq: latest_journal_seq, ..s }),
        Some(end_seq) => (
            PollOutcome::Batch(CursorPosition { generation: s.generation, end_seq, attempt: 1 }),
            SubscriptionView {
                active: Some(
                    ActiveBatch {
                        generation: s.generation,
                        end_seq,
                        attempt: 1,
                        not_before_unix_ms: now_unix_ms,
                    },
                ),
                ..s
            },
        ),
    }
}

/// Finishes a poll that loaded new events, updating the subscription's state.
pub fn finish_poll(
    state: &mut SubscriptionCursor,
    last_loaded_seq: Option<u64>,
    latest_journal_seq: u64,
    now_unix_ms: i64,
) -> (r: PollOutcome)
    ensures
        (r, final(state)@) == spec_finish_poll(
            old(state)@,
            last_loaded_seq,
            latest_journal_seq,
            now_unix_ms,
        ),
{
    match last_loaded_seq {
        None => {
            state.committed_seq = latest_journal_seq;
            PollOutcome::Empty
        },
        Some(end_seq) => {
            state.active = Some(
                ActiveBatch {
                    generation: state.generation,
                    end_seq,
                    attempt: 1,
                    not_before_unix_ms: now_unix_ms,
                },
            );
            PollOutcome::Batch(CursorPosition { generation: state.generation, end_seq, attempt: 1 })
        },
    }
}

/// The page size of a webhook dispatch-target listing, as an SQL limit: from 1 to
/// the largest page.
pub fn dispatch_page_limit(max_items: usize) -> (r: Result<i64, DurableStoreError>)
    ensures
        (1 <= max_items <= MAX_WEBHOOK_DISPATCH_TARGET_PAGE) ==> r == Ok::<i64, DurableStoreError>(
            max_items as i64,
        ),
        !(1 <= max_items <= MAX_WEBHOOK_DISPATCH_TARGET_PAGE) ==> r == Err::<i64, DurableStoreError>(
            DurableStoreError::InvalidRecord,
        ),
{
    if max_items == 0 || max_items > MAX_WEBHOOK_DISPATCH_TARGET_PAGE {
        return Err(DurableStoreError::InvalidRecord);
    }
    Ok(max_items as i64)
}

/// Largest page of webhook dispatch targets listed at once.
pub const MAX_WEBHOOK_DISPATCH_TARGET_PAGE: usize = 256;

/// A webhook subscription to dispatch: its scope and id.
#[derive(Clone, Debug)]
pub struct WebhookDispatchTarget {
    pub scope: TenantScope,
    pub subscription_id: String,
}

/// One listed dispatch-target row: `(tenant, namespace_present, namespace, subscription_id)`.
#[derive(Clone, Debug)]
pub struct DispatchTargetRow {
    pub tenant_id: String,
    pub namespace_present: i64,
    pub namespace_id: String,
    pub subscription_id: String,
}

/// Whether every listed row carries a consistent scope.
pub open spec fn dispatch_rows_ok(rows: Seq<DispatchTargetRow>) -> bool {
    forall|i: int|
        0 <= i < rows.len() ==> #[trigger] spec_stored_scope(
            rows[i].tenant_id@,
            rows[i].namespace_present,
            rows[i].namespace_id@,
        ) is Ok
}

/// Turns the listed rows into dispatch targets, in order; a row with an
/// inconsistent namespace flag is corrupt.
pub fn collect_webhook_dispatch_targets(rows: &Vec<DispatchTargetRow>) -> (r: Result<
    Vec<WebhookDispatchTarget>,
    DurableStoreError,
>)
    ensures
        dispatch_rows_ok(rows@) <==> r is Ok,
        r is Err ==> r == Err::<Vec<WebhookDispatchTarget>, DurableStoreError>(
            DurableStoreError::Corrupt,
        ),
        r matches Ok(targets) ==> targets@.len() == rows@.len() && (forall|i: int|
            0 <= i < rows@.len() ==> Ok::<ScopeView, DurableStoreError>(#[trigger] targets@[i].scope@)
                == spec_stored_scope(
                rows@[i].tenant_id@,
                rows@[i].namespace_present,
                rows@[i].namespace_id@,
            ) && targets@[i].subscription_id@ == rows@[i].subscription_id@),
{
    let mut targets: Vec<WebhookDispatchTarget> = Vec::new();
    let mut i: usize = 0;
    while i < rows.len()
        invariant
            i <= rows@.len(),
            targets@.len() == i,
            forall|j: int|
                0 <= j < i ==> Ok::<ScopeView, DurableStoreError>(#[trigger] targets@[j].scope@)
                    == spec_stored_scope(
                    rows@[j].tenant_id@,
                    rows@[j].namespace_present,
                    rows@[j].namespace_id@,
                ) && targets@[j].subscription_id@ == rows@[j].subscription_id@,
            forall|j: int|
                0 <= j < i ==> #[trigger] spec_stored_scope(
                    rows@[j].tenant_id@,
                    rows@[j].namespace_present,
                    rows@[j].namespace_id@,
                ) is Ok,
        decreases rows@.len() - i,
    {
        let row = &rows[i];
        let scope = match stored_scope(
            row.tenant_id.as_str(),
            row.namespace_present,
            row.namespace_id.as_str(),
        ) {
            Ok(scope) => scope,
            Err(e) => {
                assert(spec_stored_scope(
                    rows@[i as int].tenant_id@,
                    rows@[i as int].namespace_present,
                    rows@[i as int].namespace_id@,
                ) is Err);
                return Err(e);
            },
        };
        let ghost old_targets = targets@;
        targets.push(WebhookDispatchTarget { scope, subscription_id: row.subscription_id.clone() });
        proof {
            assert(targets@[i as int].scope@ == scope@);
            assert forall|j: int| 0 <= j < i + 1 implies Ok::<ScopeView, DurableStoreError>(
                #[trigger] targets@[j].scope@,
            ) == spec_stored_scope(
                rows@[j].tenant_id@,
                rows@[j].namespace_present,
                rows@[j].namespace_id@,
            ) && targets@[j].subscription_id@ == rows@[j].subscription_id@ by {
                if j < i {
                    assert(targets@[j] == old_targets[j]);
                }
            }
        }
        i = i + 1;
    }
    Ok(targets)
}

/// The committed journal position a new subscription starts from: the beginning
/// of the journal, or its latest event. A position beyond the SQLite integer range
/// is an internal failure.
pub fn subscription_start_seq(start: EventSubscriptionStart, latest_journal_seq: u64) -> (r: Result<
    i64,
    DurableStoreError,
>)
    ensures
        start == EventSubscriptionStart::Beginning ==> r == Ok::<i64, DurableStoreError>(0),
        start == EventSubscriptionStart::Latest && latest_journal_seq <= i64::MAX ==> r == Ok::<
            i64,
            DurableStoreError,
        >(latest_journal_seq as i64),
        start == EventSubscriptionStart::Latest && latest_journal_seq > i64::MAX ==> r == Err::<
            i64,
            DurableStoreError,
        >(DurableStoreError::Internal),
{
    match start {
        EventSubscriptionStart::Beginning => Ok(0),
        EventSubscriptionStart::Latest => {
            if latest_journal_seq <= i64::MAX as u64 {
                Ok(latest_journal_seq as i64)
            } else {
                Err(DurableStoreError::Internal)
            }
        },
    }
}

/// An event subscription as configured by its owner.
#[derive(Clone, Debug)]
pub struct EventSubscription {
    pub scope: TenantScope,
    pub subscription_id: String,
    pub mode: EventSubscriptionMode,
    pub webhook_uri: Option<String>,
    pub event_types: Vec<String>,
    pub max_in_flight: u32,
    pub max_attempts: u32,
    pub start: EventSubscriptionStart,
}

/// The mathematical content of an [`EventSubscription`].
pub struct EventSubscriptionView {
    pub scope: ScopeView,
    pub subscription_id: Seq<char>,
    pub mode: EventSubscriptionMode,
    pub webhook_uri: Option<Seq<char>>,
    pub event_types: Seq<Seq<char>>,
    pub max_in_flight: u32,
    pub max_attempts: u32,
    pub start: EventSubscriptionStart,
}

impl View for EventSubscription {
    type V = EventSubscriptionView;

    open spec fn view(&self) -> EventSubscriptionView {
        EventSubscriptionView {
            scope: self.scope@,
            subscription_id: self.subscription_id@,
            mode: self.mode,
            webhook_uri: opt_text(self.webhook_uri),
            event_types: texts_view(self.event_types@),
            max_in_flight: self.max_in_flight,
            max_attempts: self.max_attempts,
            start: self.start,
        }
    }
}

/// Whether two subscriptions are equal in every field.
pub fn subscription_eq(a: &EventSubscription, b: &EventSubscription) -> (r: bool)
    ensures
        r == (a@ == b@),
{
    scope_eq(&a.scope, &b.scope) && a.subscription_id == b.subscription_id && a.mode == b.mode
        && opt_text_eq(&a.webhook_uri, &b.webhook_uri) && texts_eq(&a.event_types, &b.event_types)
        && a.max_in_flight == b.max_in_flight && a.max_attempts == b.max_attempts && a.start
        == b.start
}

/// Whether the stored subscription and its owner are the ones being persisted.
pub open spec fn same_stored_subscription(
    existing: EventSubscriptionView,
    existing_owner: Option<&PrincipalRef>,
    canonical: EventSubscriptionView,
    owner: PrincipalView,
) -> bool {
    existing == canonical && match existing_owner {
        Some(o) => o@ == owner,
        None => false,
    }
}

/// The answer to persisting a subscription whose id is already stored: the same
/// subscription with the same owner is a duplicate, anything else a conflict.
pub fn existing_subscription_outcome(
    existing: &EventSubscription,
    existing_owner: Option<&PrincipalRef>,
    canonical: &EventSubscription,
    owner: &PrincipalRef,
) -> (r: Result<DurableRecordStatus, DurableStoreError>)
    ensures
        same_stored_subscription(existing@, existing_owner, canonical@, owner@) ==> r == Ok::<
            DurableRecordStatus,
            DurableStoreError,
        >(DurableRecordStatus::Duplicate),
        !same_stored_subscription(existing@, existing_owner, canonical@, owner@) ==> r == Err::<
            DurableRecordStatus,
            DurableStoreError,
        >(DurableStoreError::Conflict),
{
    let same_owner = match existing_owner {
        Some(o) => same_principal(o, owner),
        None => false,
    };
    if subscription_eq(existing, canonical) && same_owner {
        Ok(DurableRecordStatus::Duplicate)
    } else {
        Err(DurableStoreError::Conflict)
    }
}

/// The owner restriction applied when matching journal events for a
/// subscription: `(1, owner id)` when a service account owns it (it only sees
/// system events on its behalf), `(0, "")` otherwise. A subscription without
/// owner may not be read; an owner from another scope means damaged state.
pub fn event_owner_filter(owner: Option<&PrincipalRef>, owner_scope_matches: bool) -> (r: Result<
    (i64, String),
    DurableStoreError,
>)
    ensures
        owner is None ==> r == Err::<(i64, String), DurableStoreError>(
            DurableStoreError::PermissionDenied,
        ),
        (owner is Some && !owner_scope_matches) ==> r == Err::<(i64, String), DurableStoreError>(
            DurableStoreError::Corrupt,
        ),
        owner matches Some(o) ==> (owner_scope_matches && o.kind == PrincipalKind::ServiceAccount
            ==> (r matches Ok((flag, id)) && flag == 1 && id@ == o.principal_id@)),
        owner matches Some(o) ==> (owner_scope_matches && o.kind != PrincipalKind::ServiceAccount
            ==> (r matches Ok((flag, id)) && flag == 0 && id@.len() == 0)),
{
    let owner = match owner {
        Some(o) => o,
        None => return Err(DurableStoreError::PermissionDenied),
    };
    if !owner_scope_matches {
        return Err(DurableStoreError::Corrupt);
    }
    if owner.kind == PrincipalKind::ServiceAccount {
        Ok((1, owner.principal_id.clone()))
    } else {
        Ok((0, String::new()))
    }
}

/// One step of filling a delivery batch under its byte budget. `next` is the
/// batch size with the next event added (`Ok(None)` when it would exceed the
/// budget, `Err` when the size cannot be computed). Returns the new size, or
/// `None` to stop; a first event that alone exceeds the budget is corrupt.
pub fn batch_budget_step(taken: usize, next: Result<Option<usize>, ()>) -> (r: Result<
    Option<usize>,
    DurableStoreError,
>)
    ensures
        next is Err ==> r == Err::<Option<usize>, DurableStoreError>(DurableStoreError::Corrupt),
        next == Ok::<Option<usize>, ()>(None) && taken == 0 ==> r == Err::<
            Option<usize>,
            DurableStoreError,
        >(DurableStoreError::Corrupt),
        next == Ok::<Option<usize>, ()>(None) && taken > 0 ==> r == Ok::<
            Option<usize>,
            DurableStoreError,
        >(None),
        next matches Ok(Some(n)) ==> r == Ok::<Option<usize>, DurableStoreError>(Some(n)),
{
    match next {
        Err(()) => Err(DurableStoreError::Corrupt),
        Ok(None) => {
            if taken == 0 {
                Err(DurableStoreError::Corrupt)
            } else {
                Ok(None)
            }
        },
        Ok(Some(n)) => Ok(Some(n)),
    }
}

/// Reloading an in-flight batch must end exactly at the batch's recorded end.
pub fn check_batch_end(last_seq: Option<u64>, end_seq: u64) -> (r: Result<(), DurableStoreError>)
    ensures
        last_seq == Some(end_seq) ==> r is Ok,
        last_seq != Some(end_seq) ==> r == Err::<(), DurableStoreError>(DurableStoreError::Corrupt),
{
    match last_seq {
        Some(s) => {
            if s == end_seq {
                Ok(())
            } else {
                Err(DurableStoreError::Corrupt)
            }
        },
        None => Err(DurableStoreError::Corrupt),
    }
}

/// The stored columns of a subscription's active batch.
#[derive(Clone, Copy, Debug)]
pub struct ActiveBatchRow {
    pub generation: i64,
    pub end_seq: i64,
    pub attempt: i64,
    pub not_before_unix_ms: i64,
}

/// The stored columns of a subscription's delivery state.
#[derive(Clone, Debug)]
pub struct SubscriptionStateRow {
    pub committed_seq: i64,
    pub generation: i64,
    pub max_in_flight: i64,
    pub max_attempts: i64,
    pub last_replay_id: Option<String>,
    pub last_cursor_token: Option<Vec<u8>>,
    pub last_cursor_action: Option<String>,
    pub active: Option<ActiveBatchRow>,
}

/// The active batch read back from its columns; counters outside their ranges are corrupt.
pub open spec fn spec_decode_active_batch(row: ActiveBatchRow) -> Result<ActiveBatch, DurableStoreError> {
    if row.generation >= 0 && row.end_seq >= 0 && 0 <= row.attempt <= u32::MAX {
        Ok(
            ActiveBatch {
                generation: row.generation as u64,
                end_seq: row.end_seq as u64,
                attempt: row.attempt as u32,
                not_before_unix_ms: row.not_before_unix_ms,
            },
        )
    } else {
        Err(DurableStoreError::Corrupt)
    }
}

/// The last cursor read back from its columns: a token and an action are stored
/// together or not at all.
pub open spec fn spec_decode_last_cursor(token: Option<Seq<u8>>, action: Option<Seq<char>>) -> Result<
    Option<(Seq<u8>, CursorAction)>,
    DurableStoreError,
> {
    match (token, action) {
        (None, None) => Ok(None),
        (Some(t), Some(a)) => match cursor_action_from_text(a) {
            Some(action) => Ok(Some((t, action))),
            None => Err(DurableStoreError::Corrupt),
        },
        _ => Err(DurableStoreError::Corrupt),
    }
}

/// The delivery state of a subscription read back from its columns.
pub open spec fn spec_decode_subscription_state(
    committed_seq: i64,
    generation: i64,
    max_in_flight: i64,
    max_attempts: i64,
    last_replay_id: Option<Seq<char>>,
    last_cursor: Result<Option<(Seq<u8>, CursorAction)>, DurableStoreError>,
    active: Option<Result<ActiveBatch, DurableStoreError>>,
) -> Result<SubscriptionView, DurableStoreError> {
    if committed_seq < 0 || generation < 0 || !(0 <= max_in_flight <= u32::MAX) || !(0
        <= max_attempts <= u32::MAX) || last_cursor is Err || (active matches Some(a) && a is Err) {
        Err(DurableStoreError::Corrupt)
    } else {
        Ok(
            SubscriptionView {
                committed_seq: committed_seq as u64,
                generation: generation as u64,
                last_replay_id,
                last_cursor: last_cursor->Ok_0,
                active: match active {
                    Some(a) => Some(a->Ok_0),
                    None => None,
                },
                max_attempts: max_attempts as u32,
                max_in_flight: max_in_flight as u32,
            },
        )
    }
}

fn decode_active_batch(row: ActiveBatchRow) -> (r: Result<ActiveBatch, DurableStoreError>)
    ensures
        r == spec_decode_active_batch(row),
{
    if row.generation < 0 || row.end_seq < 0 || row.attempt < 0 || row.attempt > u32::MAX as i64 {
        return Err(DurableStoreError::Corrupt);
    }
    Ok(
        ActiveBatch {
            generation: row.generation as u64,
            end_seq: row.end_seq as u64,
            attempt: row.attempt as u32,
            not_before_unix_ms: row.not_before_unix_ms,
        },
    )
}

/// Rebuilds the delivery state of a subscription from its stored columns; any
/// counter out of range, half-stored last cursor, unknown action or malformed
/// active batch is corrupt.
pub fn decode_subscription_state(row: SubscriptionStateRow) -> (r: Result<
    SubscriptionCursor,
    DurableStoreError,
>)
    ensures
        match (
            r,
            spec_decode_subscription_state(
                row.committed_seq,
                row.generation,
                row.max_in_flight,
                row.max_attempts,
                match row.last_replay_id {
                    Some(id) => Some(id@),
                    None => None,
                },
                spec_decode_last_cursor(
                    match row.last_cursor_token {
                        Some(t) => Some(t@),
                        None => None,
                    },
                    match row.last_cursor_action {
                        Some(a) => Some(a@),
                        None => None,
                    },
                ),
                match row.active {
                    Some(a) => Some(spec_decode_active_batch(a)),
                    None => None,
                },
            ),
        ) {
            (Ok(state), Ok(view)) => state@ == view,
            (Err(e), Err(f)) => e == f,
            _ => false,
        },
{
    if row.committed_seq < 0 || row.generation < 0 {
        return Err(DurableStoreError::Corrupt);
    }
    let max_in_flight = decode_u32(row.max_in_flight)?;
    let max_attempts = decode_u32(row.max_attempts)?;
    let last_cursor = match (row.last_cursor_token, row.last_cursor_action) {
        (None, None) => None,
        (Some(token), Some(action)) => Some((token, parse_action(action.as_str())?)),
        _ => {
            return Err(DurableStoreError::Corrupt);
        },
    };
    let active = match row.active {
        Some(a) => Some(decode_active_batch(a)?),
        None => None,
    };
    Ok(
        SubscriptionCursor {
            committed_seq: row.committed_seq as u64,
            generation: row.generation as u64,
            last_replay_id: row.last_replay_id,
            last_cursor,
            active,
            max_attempts,
            max_in_flight,
        },
    )
}

/// One stored event-type filter of a subscription, read in position order.
#[derive(Clone, Debug)]
pub struct FilterRow {
    pub position: i64,
    pub event_type: String,
}

/// The stored filters of a subscription decode when their positions are
/// `0, 1, 2, ...` in order.
pub open spec fn filter_rows_ok(rows: Seq<FilterRow>) -> bool {
    forall|i: int| 0 <= i < rows.len() ==> #[trigger] rows[i].position == i
}

/// Decodes the stored event-type filters of a subscription; a gap or reordering
/// in their positions is corrupt.
pub fn decode_filter_rows(rows: &Vec<FilterRow>) -> (r: Result<Vec<String>, DurableStoreError>)
    ensures
        filter_rows_ok(rows@) <==> r is Ok,
        r is Err ==> r == Err::<Vec<String>, DurableStoreError>(DurableStoreError::Corrupt),
        r matches Ok(v) ==> texts_view(v@) == rows@.map_values(|row: FilterRow| row.event_type@),
{
    let mut filters: Vec<String> = Vec::new();
    let mut i: usize = 0;
    while i < rows.len()
        invariant
            i <= rows@.len(),
            filters@.len() == i,
            forall|j: int| 0 <= j < i ==> #[trigger] rows@[j].position == j,
            forall|j: int| 0 <= j < i ==> #[trigger] filters@[j]@ == rows@[j].event_type@,
        decreases rows@.len() - i,
    {
        let row = &rows[i];
        if row.position < 0 || row.position as u64 != i as u64 {
            return Err(DurableStoreError::Corrupt);
        }
        filters.push(row.event_type.clone());
        i = i + 1;
    }
    assert(texts_view(filters@) =~= rows@.map_values(|row: FilterRow| row.event_type@));
    Ok(filters)
}

/// Reads back the attempt count and failure kind of a dead-lettered event; an
/// attempt count outside `u32` or an unknown failure kind is corrupt.
pub fn decode_dead_letter(attempts: i64, failure_kind: &str) -> (r: Result<
    (u32, EventDeliveryFailureKind),
    DurableStoreError,
>)
    ensures
        (0 <= attempts <= u32::MAX && failure_from_text(failure_kind@) is Some) <==> r is Ok,
        r is Err ==> r == Err::<(u32, EventDeliveryFailureKind), DurableStoreError>(
            DurableStoreError::Corrupt,
        ),
        r matches Ok((n, kind)) ==> n == attempts && Some(kind) == failure_from_text(
            failure_kind@,
        ),
{
    let attempts = decode_u32(attempts)?;
    let kind = parse_failure(failure_kind)?;
    Ok((attempts, kind))
}

/// Persisting a subscription for `owner` against what is stored under its id (the
/// stored subscription and its owner): the owner must be of the subscription's
/// scope; a new subscription is stored together with its owner; the same
/// subscription with the same owner is a duplicate; anything else conflicts and
/// leaves the store as it was.
pub open spec fn spec_persist_subscription(
    owner_scope: ScopeView,
    owner: PrincipalView,
    canonical: EventSubscriptionView,
    stored: Option<(EventSubscriptionView, Option<PrincipalView>)>,
) -> (Option<(EventSubscriptionView, Option<PrincipalView>)>, Result<DurableRecordStatus, DurableStoreError>) {
    if owner_scope != canonical.scope {
        (stored, Err(DurableStoreError::PermissionDenied))
    } else {
        match stored {
            None => (Some((canonical, Some(owner))), Ok(DurableRecordStatus::Persisted)),
            Some((existing, existing_owner)) => if existing == canonical && existing_owner == Some(
                owner,
            ) {
                (stored, Ok(DurableRecordStatus::Duplicate))
            } else {
                (stored, Err(DurableStoreError::Conflict))
            },
        }
    }
}

/// Decides a subscription write for `owner` from what is stored under its id:
/// `Insert` stores the subscription with its owner.
pub fn persist_subscription_step(
    owner_scope: &TenantScope,
    owner: &PrincipalRef,
    canonical: &EventSubscription,
    stored: Option<(&EventSubscription, Option<&PrincipalRef>)>,
) -> (r: Result<WriteStep, DurableStoreError>)
    ensures
        ({
            let stored_view = match stored {
                Some((e, o)) => Some(
                    (
                        e@,
                        match o {
                            Some(p) => Some(p@),
                            None => None,
                        },
                    ),
                ),
                None => None,
            };
            let (after, outcome) = spec_persist_subscription(
                owner_scope@,
                owner@,
                canonical@,
                stored_view,
            );
            &&& (r == Ok::<WriteStep, DurableStoreError>(WriteStep::Insert)) <==> (outcome == Ok::<
                DurableRecordStatus,
                DurableStoreError,
            >(DurableRecordStatus::Persisted))
            &&& (r == Ok::<WriteStep, DurableStoreError>(WriteStep::Duplicate)) <==> (outcome
                == Ok::<DurableRecordStatus, DurableStoreError>(DurableRecordStatus::Duplicate))
            &&& (r is Err) <==> (outcome is Err)
            &&& r is Err ==> outcome == Err::<DurableRecordStatus, DurableStoreError>(r->Err_0)
            &&& r is Ok ==> after == Some((canonical@, Some(owner@)))
        }),
{
    if !scope_eq(owner_scope, &canonical.scope) {
        return Err(DurableStoreError::PermissionDenied);
    }
    match stored {
        None => Ok(WriteStep::Insert),
        Some((existing, existing_owner)) => {
            match existing_subscription_outcome(existing, existing_owner, canonical, owner) {
                Ok(_) => Ok(WriteStep::Duplicate),
                Err(e) => Err(e),
            }
        },
    }
}

/// Subscriptions are stored with their owner, once: a persisted subscription reads
/// back with its owner, persisting it again for the same owner is a duplicate, and
/// any other subscription or owner under its id conflicts and changes nothing. An
/// owner of another scope is refused.
pub proof fn lemma_subscription_persist_round_trip(
    owner_scope: ScopeView,
    owner: PrincipalView,
    canonical: EventSubscriptionView,
    other: EventSubscriptionView,
    other_owner: PrincipalView,
)
    requires
        owner_scope == canonical.scope,
    ensures
        ({
            let (after, outcome) = spec_persist_subscription(owner_scope, owner, canonical, None);
            &&& outcome == Ok::<DurableRecordStatus, DurableStoreError>(
                DurableRecordStatus::Persisted,
            )
            &&& after == Some((canonical, Some(owner)))
            &&& spec_persist_subscription(owner_scope, owner, canonical, after) == (after, Ok::<
                DurableRecordStatus,
                DurableStoreError,
            >(DurableRecordStatus::Duplicate))
            &&& ((other != canonical || other_owner != owner) && other.scope == owner_scope)
                ==> spec_persist_subscription(owner_scope, other_owner, other, after) == (after, Err::<
                DurableRecordStatus,
                DurableStoreError,
            >(DurableStoreError::Conflict))
        }),
        forall|scope: ScopeView|
            scope != canonical.scope ==> #[trigger] spec_persist_subscription(
                scope,
                owner,
                canonical,
                None,
            ) == (None::<(EventSubscriptionView, Option<PrincipalView>)>, Err::<
                DurableRecordStatus,
                DurableStoreError,
            >(DurableStoreError::PermissionDenied)),
{
}

/// An active batch is redelivered unchanged until it is acted on: once a poll has
/// cut a batch, every later poll, whatever batch size it asks for, offers the same
/// batch under the same cursor position and leaves the subscription as it is.
pub proof fn lemma_active_batch_redelivered(
    s: SubscriptionView,
    end_seq: u64,
    latest: u64,
    cut_at: i64,
    max_items: u64,
    later: i64,
)
    requires
        end_seq > s.committed_seq,
        cut_at <= later,
    ensures
        ({
            let (outcome, next) = spec_finish_poll(s, Some(end_seq), latest, cut_at);
            &&& outcome == PollOutcome::Batch(
                CursorPosition { generation: s.generation, end_seq, attempt: 1 },
            )
            &&& spec_poll_step(next, true, max_items, later) == (if later < 0 {
                Err::<PollStep, DurableStoreError>(DurableStoreError::InvalidRecord)
            } else {
                Ok::<PollStep, DurableStoreError>(
                    PollStep::Redeliver(
                        CursorPosition { generation: s.generation, end_seq, attempt: 1 },
                    ),
                )
            })
        }),
{
}

/// Redelivery is stable: a poll that redelivers the active batch redelivers the same
/// position at every later time and for every batch size.
pub proof fn lemma_redelivery_is_stable(
    s: SubscriptionView,
    max_items: u64,
    now: i64,
    other_max_items: u64,
    later: i64,
)
    requires
        now <= later,
    ensures
        spec_poll_step(s, true, max_items, now) matches Ok(PollStep::Redeliver(position))
            ==> spec_poll_step(s, true, other_max_items, later) == Ok::<PollStep, DurableStoreError>(
            PollStep::Redeliver(position),
        ),
{
}

/// Rejecting the current cursor of an active batch either settles the batch as dead
/// letters (a permanent failure, or no attempt left) or schedules its next attempt;
/// either way the rejection is recorded, so repeating it is a duplicate that changes
/// nothing and acknowledging the same cursor afterwards conflicts.
pub proof fn lemma_reject_settles_or_retries(
    s: SubscriptionView,
    token: Seq<u8>,
    failure: EventDeliveryFailureKind,
    now: i64,
    delay: u64,
    later_expected: Seq<u8>,
    later: i64,
    later_delay: u64,
)
    requires
        now >= 0,
        later >= 0,
        spec_last_action_result(s.last_cursor, token, CursorAction::Reject) is None,
        spec_expected_active_cursor(s) is Ok,
    ensures
        ({
            let position = spec_expected_active_cursor(s)->Ok_0;
            let result = spec_reject(s, token, token, failure, now, delay);
            &&& (failure == EventDeliveryFailureKind::Permanent || position.attempt
                >= s.max_attempts) ==> result == Ok::<(RejectOutcome, SubscriptionView), DurableStoreError>(
                (
                    RejectOutcome::DeadLettered {
                        from_seq: s.committed_seq,
                        through_seq: position.end_seq,
                        attempts: position.attempt,
                    },
                    SubscriptionView {
                        committed_seq: position.end_seq,
                        last_cursor: Some((token, CursorAction::Reject)),
                        active: None,
                        ..s
                    },
                ),
            )
            &&& (failure == EventDeliveryFailureKind::Retryable && position.attempt < s.max_attempts
                && delay <= i64::MAX && now + delay <= i64::MAX) ==> result == Ok::<
                (RejectOutcome, SubscriptionView),
                DurableStoreError,
            >(
                (
                    RejectOutcome::Retry {
                        attempt: (position.attempt + 1) as u32,
                        not_before_unix_ms: (now + delay) as i64,
                    },
                    SubscriptionView {
                        last_cursor: Some((token, CursorAction::Reject)),
                        active: Some(
                            ActiveBatch {
                                attempt: (position.attempt + 1) as u32,
                                not_before_unix_ms: (now + delay) as i64,
                                ..s.active->0
                            },
                        ),
                        ..s
                    },
                ),
            )
            &&& result matches Ok((_, next)) ==> spec_reject(
                next,
                token,
                later_expected,
                failure,
                later,
                later_delay,
            ) == Ok::<(RejectOutcome, SubscriptionView), DurableStoreError>(
                (RejectOutcome::Duplicate, next),
            ) && spec_acknowledge(next, token, later_expected) == Err::<
                (DurableRecordStatus, SubscriptionView),
                DurableStoreError,
            >(DurableStoreError::Conflict)
        }),
{
}

/// A cursor that is neither the current batch's cursor nor the last one acted on
/// (such as one cut before a replay) is refused with a conflict and changes nothing.
pub proof fn lemma_stale_cursor_conflicts(
    s: SubscriptionView,
    token: Seq<u8>,
    expected_token: Seq<u8>,
    failure: EventDeliveryFailureKind,
    now: i64,
    delay: u64,
)
    requires
        now >= 0,
        token != expected_token,
        spec_expected_active_cursor(s) is Ok,
        !(s.last_cursor matches Some((t, _)) && t == token),
    ensures
        spec_acknowledge(s, token, expected_token) == Err::<
            (DurableRecordStatus, SubscriptionView),
            DurableStoreError,
        >(DurableStoreError::Conflict),
        spec_reject(s, token, expected_token, failure, now, delay) == Err::<
            (RejectOutcome, SubscriptionView),
            DurableStoreError,
        >(DurableStoreError::Conflict),
{
}

} // verus!
