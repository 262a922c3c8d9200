use push_notifier::catalog::{NotificationInformation, NotificationsRule};
use push_notifier::dispatch::{
    decide_entry, run_cycle, user_found_or_error, EntryDecision, LookupResult, SendOutcome,
};
use push_notifier::enums::{DeviceType, NotificationStatus, NotificationType};
use push_notifier::errors::Error;
use push_notifier::queue::DurableQueue;
use push_notifier::record::{build_notification_row, NotificationHistoryService, NotificationRow};
use push_notifier::types::{FirebaseToken, Identifier, UserFromRow};

fn catalog() -> NotificationsRule {
    NotificationsRule(vec![(
        "Test".to_string(),
        NotificationInformation {
            title: "Hi %name%".to_string(),
            body: "Bye".to_string(),
            params: None,
        },
    )])
}

fn record_for(user_id: i32) -> NotificationRow {
    build_notification_row(Identifier(user_id), NotificationType::Test, None, None)
}

fn found(token: Option<&str>) -> LookupResult {
    LookupResult::Found {
        token: token.map(|t| FirebaseToken(t.to_string())),
        device_type: DeviceType::Android,
    }
}

#[test]
fn enqueue_scenario_builds_single_attempt_record() {
    let row = record_for(42);
    assert_eq!(row.user_id, 42);
    assert_eq!(row.notification_type, "Test");
    assert_eq!(row.number_of_tries, 0);
    assert!(row.extra_data.is_none());
    assert!(row.template_data.is_none());
}

#[test]
fn fetch_consumes_nothing_so_a_crashed_run_sees_the_same_batch() {
    let mut queue = DurableQueue::new();
    queue.enqueue(record_for(1));
    queue.enqueue(record_for(2));
    let first_run = queue.fetch_batch(100);
    // The consumer crashes here: nothing was acknowledged.
    let second_run = queue.fetch_batch(100);
    assert_eq!(first_run.len(), 2);
    assert_eq!(second_run.len(), 2);
    for (a, b) in first_run.iter().zip(second_run.iter()) {
        assert_eq!(a.entry_id, b.entry_id);
        assert_eq!(a.row.user_id, b.row.user_id);
    }
}

#[test]
fn fetch_returns_oldest_first_up_to_the_bound() {
    let mut queue = DurableQueue::new();
    let id1 = queue.enqueue(record_for(1));
    let id2 = queue.enqueue(record_for(2));
    let id3 = queue.enqueue(record_for(3));
    assert!(id1 < id2 && id2 < id3);
    let batch = queue.fetch_batch(2);
    assert_eq!(batch.len(), 2);
    assert_eq!(batch[0].entry_id, id1);
    assert_eq!(batch[1].entry_id, id2);
}

#[test]
fn acknowledging_an_empty_id_list_is_a_no_op() {
    let mut queue = DurableQueue::new();
    queue.enqueue(record_for(1));
    queue.acknowledge(&Vec::new());
    assert_eq!(queue.fetch_batch(100).len(), 1);
}

#[test]
fn acknowledging_the_same_id_twice_does_not_error() {
    let mut queue = DurableQueue::new();
    let id1 = queue.enqueue(record_for(1));
    queue.enqueue(record_for(2));
    let ids = vec![id1];
    queue.acknowledge(&ids);
    queue.acknowledge(&ids);
    let left = queue.fetch_batch(100);
    assert_eq!(left.len(), 1);
    assert_eq!(left[0].row.user_id, 2);
}

#[test]
fn missing_user_aborts_the_decision() {
    let lookup = LookupResult::NotFound { message: "User with id 9 does not exists".to_string() };
    let row = record_for(9);
    match decide_entry(&row, &lookup, &catalog()) {
        Err(Error::NotFoundError(text)) => assert_eq!(text, "User with id 9 does not exists"),
        other => panic!("expected NotFoundError, got {:?}", other),
    }
}

#[test]
fn user_without_token_is_bucketed_failed() {
    let row = record_for(9);
    match decide_entry(&row, &found(None), &catalog()) {
        Ok(EntryDecision::Fail) => {}
        other => panic!("expected Fail, got {:?}", other),
    }
}

#[test]
fn user_with_token_gets_a_built_message() {
    let row = record_for(9);
    match decide_entry(&row, &found(Some("tok")), &catalog()) {
        Ok(EntryDecision::Send(m)) => {
            assert_eq!(m.target_token, "tok");
            assert_eq!(m.notification.title, "Hi %name%");
        }
        other => panic!("expected Send, got {:?}", other),
    }
}

#[test]
fn unknown_kind_at_decision_time_aborts_with_missing_data() {
    let mut row = record_for(9);
    row.notification_type = "TestWithTemplate".to_string();
    match decide_entry(&row, &found(Some("tok")), &catalog()) {
        Err(Error::MissingDataError(text)) => {
            assert_eq!(text, "Missing key for notifications: TestWithTemplate");
        }
        other => panic!("expected MissingDataError, got {:?}", other),
    }
}

#[test]
fn user_found_or_error_reports_the_exact_not_found_text() {
    match user_found_or_error(42, None) {
        Err(Error::NotFoundError(text)) => assert_eq!(text, "User with id 42 does not exists"),
        other => panic!("expected NotFoundError, got {:?}", other),
    }
    let row = UserFromRow {
        id: 42,
        device_id: "d".to_string(),
        device_type: "Android".to_string(),
        token: Some("tok".to_string()),
    };
    let back = user_found_or_error(42, Some(row)).expect("found");
    assert_eq!(back.id, 42);
}

#[test]
fn three_records_one_without_token_leave_one_failed_and_two_sent_rows() {
    let mut queue = DurableQueue::new();
    queue.enqueue(record_for(1)); // user A: no token
    queue.enqueue(record_for(2)); // user B: token, send succeeds
    queue.enqueue(record_for(3)); // user C: token, send succeeds
    let batch = queue.fetch_batch(100);

    let lookups = vec![found(None), found(Some("tok-b")), found(Some("tok-c"))];
    let sends = vec![SendOutcome::Delivered, SendOutcome::Delivered, SendOutcome::Delivered];
    let report = run_cycle(&batch, &lookups, &sends, &catalog(), 1_000);
    assert!(report.abort.is_none());

    let mut history = NotificationHistoryService::new();
    for row in &report.sent_history {
        history.create(*row);
    }
    queue.acknowledge(&report.acked_ids);
    for row in &report.failed_history {
        history.create(*row);
    }
    queue.acknowledge(&report.failed_ids);

    assert_eq!(queue.fetch_batch(100).len(), 0);
    let rows = history.rows();
    assert_eq!(rows.len(), 3);
    let sent: Vec<_> = rows
        .iter()
        .filter(|r| r.notification_status == NotificationStatus::Sent)
        .collect();
    let failed: Vec<_> = rows
        .iter()
        .filter(|r| r.notification_status == NotificationStatus::Failed)
        .collect();
    assert_eq!(sent.len(), 2);
    assert_eq!(failed.len(), 1);
    assert_eq!(failed[0].user_id, Identifier(1));
    assert_eq!(sent[0].user_id, Identifier(2));
    assert_eq!(sent[1].user_id, Identifier(3));
}

#[test]
fn aborted_cycle_acknowledges_nothing() {
    let mut queue = DurableQueue::new();
    queue.enqueue(record_for(1)); // sent before the abort
    queue.enqueue(record_for(2)); // lookup fails: cycle aborts
    queue.enqueue(record_for(3)); // never reached
    let batch = queue.fetch_batch(100);

    let lookups = vec![
        found(Some("tok-a")),
        LookupResult::Unavailable { message: "directory down".to_string() },
        found(Some("tok-c")),
    ];
    let sends = vec![SendOutcome::Delivered, SendOutcome::Delivered, SendOutcome::Delivered];
    let report = run_cycle(&batch, &lookups, &sends, &catalog(), 1_000);

    match report.abort {
        Some(Error::ProviderError(text)) => assert_eq!(text, "directory down"),
        other => panic!("expected ProviderError, got {:?}", other),
    }
    assert!(report.acked_ids.is_empty());
    assert!(report.failed_ids.is_empty());
    assert!(report.failed_history.is_empty());
    // The row sent before the abort is already written; the queue keeps
    // every entry for the next run.
    assert_eq!(report.sent_history.len(), 1);
    queue.acknowledge(&report.acked_ids);
    assert_eq!(queue.fetch_batch(100).len(), 3);
}

#[test]
fn missing_catalog_entry_aborts_the_cycle_with_missing_data() {
    let mut queue = DurableQueue::new();
    let mut row = record_for(1);
    row.notification_type = "TestWithTemplate".to_string();
    queue.enqueue(row);
    let batch = queue.fetch_batch(100);
    let lookups = vec![found(Some("tok"))];
    let sends = vec![SendOutcome::Delivered];
    let report = run_cycle(&batch, &lookups, &sends, &catalog(), 1_000);
    match report.abort {
        Some(Error::MissingDataError(text)) => {
            assert_eq!(text, "Missing key for notifications: TestWithTemplate");
        }
        other => panic!("expected MissingDataError, got {:?}", other),
    }
    assert!(report.acked_ids.is_empty());
    assert!(report.failed_ids.is_empty());
}

#[test]
fn rejected_send_aborts_the_cycle() {
    let mut queue = DurableQueue::new();
    queue.enqueue(record_for(1));
    let batch = queue.fetch_batch(100);
    let lookups = vec![found(Some("tok"))];
    let sends = vec![SendOutcome::Rejected { message: "quota".to_string() }];
    let report = run_cycle(&batch, &lookups, &sends, &catalog(), 1_000);
    match report.abort {
        Some(Error::ProviderError(text)) => assert_eq!(text, "quota"),
        other => panic!("expected ProviderError, got {:?}", other),
    }
    assert!(report.sent_history.is_empty());
    assert!(report.acked_ids.is_empty());
}
