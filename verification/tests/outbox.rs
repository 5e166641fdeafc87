use serde_json::Value;
use sutra_erp::outbox::{OutboxMessage, OutboxStatus};
use uuid::Uuid;

fn message() -> OutboxMessage {
    OutboxMessage::from_parts(
        Uuid::new_v4(),
        "Journal",
        "J-1",
        "JournalPosted",
        Value::String("payload".to_string()),
    )
}

#[test]
fn new_message_is_pending_with_budget_of_five() {
    let m = message();
    assert_eq!(m.status, OutboxStatus::Pending);
    assert_eq!(m.retry_count, 0);
    assert_eq!(m.max_retries, 5);
    assert_eq!(m.aggregate_type, "Journal");
    assert_eq!(m.aggregate_id, "J-1");
    assert_eq!(m.event_type, "JournalPosted");
    assert!(m.last_error.is_none());
    assert!(m.published_at.is_none());
    assert!(m.correlation_id.is_none());
}

#[test]
fn failures_exhaust_the_retry_budget() {
    let mut m = message();
    for k in 1..5 {
        m.record_failure("bus down");
        assert_eq!(m.retry_count, k);
        assert_eq!(m.status, OutboxStatus::Pending);
    }
    m.record_failure("still down");
    assert_eq!(m.retry_count, 5);
    assert_eq!(m.status, OutboxStatus::Failed);
    assert_eq!(m.last_error.as_deref(), Some("still down"));
    m.record_failure("again");
    assert_eq!(m.status, OutboxStatus::Failed);
    assert_eq!(m.aggregate_type, "Journal");
    assert_eq!(m.aggregate_id, "J-1");
    assert_eq!(m.event_type, "JournalPosted");
    assert!(m.correlation_id.is_none());
}

#[test]
fn publishing_marks_the_message_published() {
    let mut m = message();
    m.record_failure("transient");
    m.mark_published();
    assert_eq!(m.status, OutboxStatus::Published);
    assert!(m.published_at.is_some());
    assert_eq!(m.retry_count, 1);
}
