use ucr_storage_sqlite::error::{DurableRecordStatus, DurableStoreError};
use ucr_storage_sqlite::principal::{PrincipalKind, PrincipalRef};
use ucr_storage_sqlite::scope::TenantScope;
use ucr_storage_sqlite::subscription::{
    acknowledge, batch_budget_step, check_batch_end, collect_webhook_dispatch_targets,
    dispatch_page_limit, event_owner_filter, existing_subscription_outcome, finish_poll,
    last_action_result, parse_action, parse_mode, parse_start, poll_step, reject, replay,
    subscription_start_seq, action_name, mode_name, start_name, decode_subscription_state,
    ActiveBatch, ActiveBatchRow, CursorAction, SubscriptionStateRow,
    CursorPosition, DispatchTargetRow, EventDeliveryFailureKind, EventSubscription, EventSubscriptionMode,
    EventSubscriptionStart, PollOutcome, PollStep, RejectOutcome, SubscriptionCursor,
    MAX_WEBHOOK_DISPATCH_TARGET_PAGE, decode_dead_letter, decode_filter_rows, FilterRow,
    persist_subscription_step,
};
use ucr_storage_sqlite::record::WriteStep;

fn cursor_with_batch(attempt: u32) -> SubscriptionCursor {
    SubscriptionCursor {
        committed_seq: 10,
        generation: 3,
        last_replay_id: None,
        last_cursor: None,
        active: Some(ActiveBatch { generation: 3, end_seq: 15, attempt, not_before_unix_ms: 1_000 }),
        max_attempts: 3,
        max_in_flight: 50,
    }
}

#[test]
fn subscription_texts_round_trip() {
    for mode in [EventSubscriptionMode::DurableStream, EventSubscriptionMode::Webhook] {
        assert_eq!(parse_mode(mode_name(mode)), Ok(mode));
    }
    for start in [EventSubscriptionStart::Beginning, EventSubscriptionStart::Latest] {
        assert_eq!(parse_start(start_name(start)), Ok(start));
    }
    for action in [CursorAction::Acknowledge, CursorAction::Reject] {
        assert_eq!(parse_action(action_name(action)), Ok(action));
    }
    assert_eq!(mode_name(EventSubscriptionMode::Webhook), "webhook");
    assert_eq!(parse_mode("push"), Err(DurableStoreError::Corrupt));
}

#[test]
fn acknowledging_commits_the_batch_and_is_idempotent() {
    let mut state = cursor_with_batch(1);
    assert_eq!(acknowledge(&mut state, b"tok", b"tok"), Ok(DurableRecordStatus::Persisted));
    assert_eq!(state.committed_seq, 15);
    assert!(state.active.is_none());
    assert_eq!(acknowledge(&mut state, b"tok", b"other"), Ok(DurableRecordStatus::Duplicate));
    assert_eq!(state.committed_seq, 15);
    assert_eq!(acknowledge(&mut state, b"new", b"new"), Err(DurableStoreError::Conflict));
}

#[test]
fn acknowledging_with_the_wrong_token_conflicts_and_changes_nothing() {
    let mut state = cursor_with_batch(1);
    assert_eq!(acknowledge(&mut state, b"stale", b"tok"), Err(DurableStoreError::Conflict));
    assert_eq!(state.committed_seq, 10);
    assert!(state.active.is_some());
    let mut stale_generation = cursor_with_batch(1);
    stale_generation.generation = 4;
    assert_eq!(acknowledge(&mut stale_generation, b"tok", b"tok"), Err(DurableStoreError::Corrupt));
}

#[test]
fn retryable_rejection_schedules_the_next_attempt() {
    let mut state = cursor_with_batch(1);
    let outcome = reject(&mut state, b"tok", b"tok", EventDeliveryFailureKind::Retryable, 2_000, 500);
    assert_eq!(outcome, Ok(RejectOutcome::Retry { attempt: 2, not_before_unix_ms: 2_500 }));
    assert_eq!(state.committed_seq, 10);
    assert_eq!(state.active.map(|a| (a.attempt, a.not_before_unix_ms)), Some((2, 2_500)));
    assert_eq!(
        reject(&mut state, b"tok", b"tok", EventDeliveryFailureKind::Retryable, 2_000, 500),
        Ok(RejectOutcome::Duplicate)
    );
    assert_eq!(
        acknowledge(&mut state, b"tok", b"tok"),
        Err(DurableStoreError::Conflict)
    );
}

#[test]
fn exhausted_or_permanent_rejections_dead_letter_the_batch() {
    let mut exhausted = cursor_with_batch(3);
    assert_eq!(
        reject(&mut exhausted, b"tok", b"tok", EventDeliveryFailureKind::Retryable, 2_000, 500),
        Ok(RejectOutcome::DeadLettered { from_seq: 10, through_seq: 15, attempts: 3 })
    );
    assert_eq!(exhausted.committed_seq, 15);
    assert!(exhausted.active.is_none());
    let mut permanent = cursor_with_batch(1);
    assert_eq!(
        reject(&mut permanent, b"tok", b"tok", EventDeliveryFailureKind::Permanent, 2_000, 500),
        Ok(RejectOutcome::DeadLettered { from_seq: 10, through_seq: 15, attempts: 1 })
    );
    let mut negative_clock = cursor_with_batch(1);
    assert_eq!(
        reject(&mut negative_clock, b"tok", b"tok", EventDeliveryFailureKind::Retryable, -1, 500),
        Err(DurableStoreError::InvalidRecord)
    );
}

#[test]
fn replay_rewinds_once_per_replay_id() {
    let mut state = cursor_with_batch(1);
    assert_eq!(replay(&mut state, "replay-1"), Ok(DurableRecordStatus::Persisted));
    assert_eq!((state.committed_seq, state.generation), (0, 4));
    assert!(state.active.is_none() && state.last_cursor.is_none());
    assert_eq!(replay(&mut state, "replay-1"), Ok(DurableRecordStatus::Duplicate));
    assert_eq!(state.generation, 4);
    let mut exhausted = cursor_with_batch(1);
    exhausted.generation = u64::MAX;
    exhausted.active = None;
    assert_eq!(replay(&mut exhausted, "replay-2"), Err(DurableStoreError::Corrupt));
}

#[test]
fn polling_waits_redelivers_or_loads() {
    let state = cursor_with_batch(2);
    assert_eq!(poll_step(&state, true, 10, 400), Ok(PollStep::RetryAfter(600)));
    assert_eq!(
        poll_step(&state, true, 10, 1_000),
        Ok(PollStep::Redeliver(CursorPosition { generation: 3, end_seq: 15, attempt: 2 }))
    );
    let mut idle = cursor_with_batch(1);
    idle.active = None;
    assert_eq!(poll_step(&idle, true, 100, 0), Ok(PollStep::LoadNew(50)));
    assert_eq!(poll_step(&idle, true, 20, 0), Ok(PollStep::LoadNew(20)));
    assert_eq!(poll_step(&idle, false, 20, 0), Err(DurableStoreError::InvalidRecord));
    assert_eq!(finish_poll(&mut idle, Some(22), 30, 5), PollOutcome::Batch(CursorPosition {
        generation: 3,
        end_seq: 22,
        attempt: 1,
    }));
    assert_eq!(idle.active.map(|a| a.end_seq), Some(22));
    let mut caught_up = cursor_with_batch(1);
    caught_up.active = None;
    assert_eq!(finish_poll(&mut caught_up, None, 30, 5), PollOutcome::Empty);
    assert_eq!(caught_up.committed_seq, 30);
}

#[test]
fn last_cursor_answers_repeats() {
    let last = Some((b"tok".to_vec(), CursorAction::Acknowledge));
    assert_eq!(
        last_action_result(&last, b"tok", CursorAction::Acknowledge),
        Some(Ok(DurableRecordStatus::Duplicate))
    );
    assert_eq!(
        last_action_result(&last, b"tok", CursorAction::Reject),
        Some(Err(DurableStoreError::Conflict))
    );
    assert_eq!(last_action_result(&last, b"other", CursorAction::Reject), None);
}

#[test]
fn dispatch_target_pages_are_bounded_and_parsed() {
    assert_eq!(dispatch_page_limit(1), Ok(1));
    assert_eq!(dispatch_page_limit(MAX_WEBHOOK_DISPATCH_TARGET_PAGE), Ok(256));
    assert_eq!(dispatch_page_limit(0), Err(DurableStoreError::InvalidRecord));
    assert_eq!(dispatch_page_limit(257), Err(DurableStoreError::InvalidRecord));
    let rows = vec![
        DispatchTargetRow {
            tenant_id: "t".to_owned(),
            namespace_present: 0,
            namespace_id: String::new(),
            subscription_id: "s1".to_owned(),
        },
        DispatchTargetRow {
            tenant_id: "t".to_owned(),
            namespace_present: 1,
            namespace_id: "n".to_owned(),
            subscription_id: "s2".to_owned(),
        },
    ];
    let targets = collect_webhook_dispatch_targets(&rows).expect("consistent rows");
    assert_eq!(targets.len(), 2);
    assert!(targets[0].scope.namespace_id.is_none());
    assert_eq!(targets[1].scope.namespace_id.as_deref(), Some("n"));
    assert_eq!(targets[1].subscription_id, "s2");
    let broken = vec![DispatchTargetRow {
        tenant_id: "t".to_owned(),
        namespace_present: 1,
        namespace_id: String::new(),
        subscription_id: "s3".to_owned(),
    }];
    assert!(matches!(collect_webhook_dispatch_targets(&broken), Err(DurableStoreError::Corrupt)));
}

#[test]
fn subscription_persistence_rules() {
    assert_eq!(subscription_start_seq(EventSubscriptionStart::Beginning, 99), Ok(0));
    assert_eq!(subscription_start_seq(EventSubscriptionStart::Latest, 99), Ok(99));
    assert_eq!(
        subscription_start_seq(EventSubscriptionStart::Latest, u64::MAX),
        Err(DurableStoreError::Internal)
    );
    let service = PrincipalRef { principal_id: "svc".to_owned(), kind: PrincipalKind::ServiceAccount };
    let person = PrincipalRef { principal_id: "p".to_owned(), kind: PrincipalKind::Person };
    let subscription = EventSubscription {
        scope: TenantScope { tenant_id: "t".to_owned(), namespace_id: None },
        subscription_id: "s1".to_owned(),
        mode: EventSubscriptionMode::Webhook,
        webhook_uri: Some("https://example.invalid/hook".to_owned()),
        event_types: vec!["command.completed".to_owned()],
        max_in_flight: 10,
        max_attempts: 3,
        start: EventSubscriptionStart::Latest,
    };
    assert_eq!(
        existing_subscription_outcome(&subscription, Some(&service), &subscription.clone(), &service),
        Ok(DurableRecordStatus::Duplicate)
    );
    assert_eq!(
        existing_subscription_outcome(&subscription, Some(&person), &subscription.clone(), &service),
        Err(DurableStoreError::Conflict)
    );
    assert_eq!(
        existing_subscription_outcome(&subscription, None, &subscription.clone(), &service),
        Err(DurableStoreError::Conflict)
    );
    let mut changed = subscription.clone();
    changed.max_attempts = 4;
    assert_eq!(
        existing_subscription_outcome(&subscription, Some(&service), &changed, &service),
        Err(DurableStoreError::Conflict)
    );
    assert_eq!(event_owner_filter(Some(&service), true), Ok((1, "svc".to_owned())));
    assert_eq!(event_owner_filter(Some(&person), true), Ok((0, String::new())));
    assert_eq!(event_owner_filter(Some(&person), false), Err(DurableStoreError::Corrupt));
    assert_eq!(event_owner_filter(None, true), Err(DurableStoreError::PermissionDenied));
    assert_eq!(batch_budget_step(0, Ok(Some(10))), Ok(Some(10)));
    assert_eq!(batch_budget_step(3, Ok(None)), Ok(None));
    assert_eq!(batch_budget_step(0, Ok(None)), Err(DurableStoreError::Corrupt));
    assert_eq!(batch_budget_step(3, Err(())), Err(DurableStoreError::Corrupt));
    assert_eq!(check_batch_end(Some(15), 15), Ok(()));
    assert_eq!(check_batch_end(Some(14), 15), Err(DurableStoreError::Corrupt));
    assert_eq!(check_batch_end(None, 15), Err(DurableStoreError::Corrupt));
}

fn state_row() -> SubscriptionStateRow {
    SubscriptionStateRow {
        committed_seq: 10,
        generation: 3,
        max_in_flight: 50,
        max_attempts: 3,
        last_replay_id: Some("replay-1".to_owned()),
        last_cursor_token: Some(vec![1, 2]),
        last_cursor_action: Some("ack".to_owned()),
        active: Some(ActiveBatchRow { generation: 3, end_seq: 15, attempt: 1, not_before_unix_ms: 7 }),
    }
}

#[test]
fn subscription_state_decodes_from_its_columns() {
    let state = decode_subscription_state(state_row()).expect("consistent columns");
    assert_eq!((state.committed_seq, state.generation), (10, 3));
    assert_eq!((state.max_in_flight, state.max_attempts), (50, 3));
    assert_eq!(state.last_cursor, Some((vec![1, 2], CursorAction::Acknowledge)));
    assert_eq!(
        state.active,
        Some(ActiveBatch { generation: 3, end_seq: 15, attempt: 1, not_before_unix_ms: 7 })
    );
    let half = SubscriptionStateRow { last_cursor_action: None, ..state_row() };
    assert!(matches!(decode_subscription_state(half), Err(DurableStoreError::Corrupt)));
    let unknown = SubscriptionStateRow { last_cursor_action: Some("nack".to_owned()), ..state_row() };
    assert!(matches!(decode_subscription_state(unknown), Err(DurableStoreError::Corrupt)));
    let negative = SubscriptionStateRow { committed_seq: -1, ..state_row() };
    assert!(matches!(decode_subscription_state(negative), Err(DurableStoreError::Corrupt)));
    let bad_batch = SubscriptionStateRow {
        active: Some(ActiveBatchRow { generation: 3, end_seq: 15, attempt: -1, not_before_unix_ms: 7 }),
        ..state_row()
    };
    assert!(matches!(decode_subscription_state(bad_batch), Err(DurableStoreError::Corrupt)));
    let idle = SubscriptionStateRow { active: None, last_cursor_token: None, last_cursor_action: None, ..state_row() };
    let idle = decode_subscription_state(idle).expect("idle subscription");
    assert!(idle.active.is_none() && idle.last_cursor.is_none());
}

#[test]
fn stored_filters_and_dead_letters_decode_or_are_corrupt() {
    let rows = vec![
        FilterRow { position: 0, event_type: "message.created".to_owned() },
        FilterRow { position: 1, event_type: "call.started".to_owned() },
    ];
    assert_eq!(
        decode_filter_rows(&rows),
        Ok(vec!["message.created".to_owned(), "call.started".to_owned()])
    );
    let gap = vec![FilterRow { position: 1, event_type: "call.started".to_owned() }];
    assert_eq!(decode_filter_rows(&gap), Err(DurableStoreError::Corrupt));
    assert_eq!(decode_filter_rows(&Vec::new()), Ok(Vec::new()));
    let failure = EventDeliveryFailureKind::Permanent;
    let text = ucr_storage_sqlite::subscription::failure_name(failure);
    assert_eq!(decode_dead_letter(3, text), Ok((3, failure)));
    assert_eq!(decode_dead_letter(-1, text), Err(DurableStoreError::Corrupt));
    assert_eq!(decode_dead_letter(3, "exploded"), Err(DurableStoreError::Corrupt));
}

#[test]
fn subscriptions_persist_once_with_their_owner() {
    let service = PrincipalRef { principal_id: "svc".to_owned(), kind: PrincipalKind::ServiceAccount };
    let person = PrincipalRef { principal_id: "p".to_owned(), kind: PrincipalKind::Person };
    let scope = TenantScope { tenant_id: "t".to_owned(), namespace_id: None };
    let other_scope = TenantScope { tenant_id: "t".to_owned(), namespace_id: Some("n".to_owned()) };
    let subscription = EventSubscription {
        scope: scope.clone(),
        subscription_id: "s1".to_owned(),
        mode: EventSubscriptionMode::Webhook,
        webhook_uri: Some("https://example.invalid/hook".to_owned()),
        event_types: vec!["command.completed".to_owned()],
        max_in_flight: 10,
        max_attempts: 3,
        start: EventSubscriptionStart::Latest,
    };
    assert_eq!(persist_subscription_step(&scope, &service, &subscription, None), Ok(WriteStep::Insert));
    assert_eq!(
        persist_subscription_step(&other_scope, &service, &subscription, None),
        Err(DurableStoreError::PermissionDenied)
    );
    assert_eq!(
        persist_subscription_step(&scope, &service, &subscription, Some((&subscription, Some(&service)))),
        Ok(WriteStep::Duplicate)
    );
    assert_eq!(
        persist_subscription_step(&scope, &person, &subscription, Some((&subscription, Some(&service)))),
        Err(DurableStoreError::Conflict)
    );
}
