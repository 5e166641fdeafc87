//! The transactional outbox: every domain event is first stored in the
//! `event_outbox` table in the same transaction as the aggregate change,
//! and a background worker publishes it, retrying failed attempts until
//! the retry budget is spent.

use vstd::prelude::*;
use crate::identity::{time_ordered_uuid, Timestamp};
use crate::text::owned;

verus! {

/// JSON values (the `serde_json` crate's type).
#[verifier::external_type_specification]
#[verifier::external_body]
pub struct ExJsonValue(serde_json::Value);

/// Status of an outbox message.
#[derive(Debug, Clone, Copy, PartialEq, Eq, Structural)]
pub enum OutboxStatus {
    /// Not yet published.
    Pending,
    /// Successfully published to the event bus.
    Published,
    /// Publication failed after max retries.
    Failed,
    /// Manually moved to dead letter queue.
    DeadLettered,
}

/// A message stored in the transactional outbox.
#[derive(Debug)]
pub struct OutboxMessage {
    /// Unique ID of this outbox record.
    pub outbox_id: uuid::Uuid,
    /// The tenant that owns the event.
    pub tenant_id: uuid::Uuid,
    /// The aggregate type name (e.g., "Journal").
    pub aggregate_type: String,
    /// The aggregate instance ID.
    pub aggregate_id: String,
    /// The event type name (e.g., "JournalPosted").
    pub event_type: String,
    /// JSON-serialized event payload.
    pub event_payload: serde_json::Value,
    /// Correlation ID for tracing across services.
    pub correlation_id: Option<uuid::Uuid>,
    /// Current publication status.
    pub status: OutboxStatus,
    /// Number of publication attempts.
    pub retry_count: i32,
    /// Maximum retries before the message is marked failed.
    pub max_retries: i32,
    /// Error message from the last failed attempt.
    pub last_error: Option<String>,
    /// When this record was created.
    pub created_at: Timestamp,
    /// When it was successfully published (if ever).
    pub published_at: Option<Timestamp>,
}

/// The status and retry count after `k` failed attempts, starting from
/// `status` with `retry` attempts: each failure counts one attempt and
/// marks the message failed once the count reaches `max`.
pub open spec fn after_failures(status: OutboxStatus, retry: int, max: int, k: nat) -> (OutboxStatus, int)
    decreases k,
{
    if k == 0 {
        (status, retry)
    } else {
        let (s, r) = after_failures(status, retry, max, (k - 1) as nat);
        (if r + 1 >= max { OutboxStatus::Failed } else { s }, r + 1)
    }
}

impl OutboxMessage {
    /// A pending outbox message for an event already serialized to JSON:
    /// a fresh time-ordered id, no attempts yet and a budget of five.
    pub fn from_parts(
        tenant_id: uuid::Uuid,
        aggregate_type: &str,
        aggregate_id: &str,
        event_type: &str,
        event_payload: serde_json::Value,
    ) -> (m: OutboxMessage)
        ensures
            m.tenant_id == tenant_id,
            m.aggregate_type@ == aggregate_type@,
            m.aggregate_id@ == aggregate_id@,
            m.event_type@ == event_type@,
            m.event_payload == event_payload,
            m.correlation_id is None,
            m.status == OutboxStatus::Pending,
            m.retry_count == 0,
            m.max_retries == 5,
            m.last_error is None,
            m.published_at is None,
    {
        OutboxMessage {
            outbox_id: time_ordered_uuid(),
            tenant_id,
            aggregate_type: owned(aggregate_type),
            aggregate_id: owned(aggregate_id),
            event_type: owned(event_type),
            event_payload,
            correlation_id: None,
            status: OutboxStatus::Pending,
            retry_count: 0,
            max_retries: 5,
            last_error: None,
            created_at: Timestamp::now(),
            published_at: None,
        }
    }

    /// Mark this message as successfully published, now.
    pub fn mark_published(&mut self)
        ensures
            final(self).status == OutboxStatus::Published,
            final(self).published_at is Some,
            final(self).retry_count == old(self).retry_count,
            final(self).max_retries == old(self).max_retries,
            final(self).last_error == old(self).last_error,
            final(self).outbox_id == old(self).outbox_id,
            final(self).event_payload == old(self).event_payload,
            final(self).tenant_id == old(self).tenant_id,
            final(self).aggregate_type == old(self).aggregate_type,
            final(self).aggregate_id == old(self).aggregate_id,
            final(self).event_type == old(self).event_type,
            final(self).correlation_id == old(self).correlation_id,
            final(self).created_at == old(self).created_at,
    {
        self.status = OutboxStatus::Published;
        self.published_at = Some(Timestamp::now());
    }

    /// Record a failed publish attempt: the attempt is counted, the error
    /// kept, and the message marked failed once the attempts reach the
    /// maximum.
    pub fn record_failure(&mut self, error: &str)
        requires
            old(self).retry_count < i32::MAX,
        ensures
            final(self).retry_count == old(self).retry_count + 1,
            final(self).last_error matches Some(e) && e@ == error@,
            final(self).status == if final(self).retry_count >= old(self).max_retries {
                OutboxStatus::Failed
            } else {
                old(self).status
            },
            (final(self).status, final(self).retry_count as int) == after_failures(
                old(self).status,
                old(self).retry_count as int,
                old(self).max_retries as int,
                1,
            ),
            final(self).max_retries == old(self).max_retries,
            final(self).published_at == old(self).published_at,
            final(self).outbox_id == old(self).outbox_id,
            final(self).event_payload == old(self).event_payload,
            final(self).tenant_id == old(self).tenant_id,
            final(self).aggregate_type == old(self).aggregate_type,
            final(self).aggregate_id == old(self).aggregate_id,
            final(self).event_type == old(self).event_type,
            final(self).correlation_id == old(self).correlation_id,
            final(self).created_at == old(self).created_at,
    {
        self.retry_count = self.retry_count + 1;
        self.last_error = Some(owned(error));
        if self.retry_count >= self.max_retries {
            self.status = OutboxStatus::Failed;
        }
        proof {
            reveal_with_fuel(after_failures, 2);
        }
    }
}

/// A fresh message (pending, no attempts) with a budget of `max >= 1`
/// attempts is marked failed after `k` failed attempts exactly when `k`
/// reaches the budget, and its attempt count is `k`.
pub proof fn lemma_failures_exhaust_budget(max: int, k: nat)
    requires
        max >= 1,
    ensures
        after_failures(OutboxStatus::Pending, 0, max, k).1 == k,
        (after_failures(OutboxStatus::Pending, 0, max, k).0 == OutboxStatus::Failed) == (k >= max),
        k < max ==> after_failures(OutboxStatus::Pending, 0, max, k).0 == OutboxStatus::Pending,
    decreases k,
{
    if k > 0 {
        lemma_failures_exhaust_budget(max, (k - 1) as nat);
    }
}

/// Once failed, a message stays failed however many more attempts fail.
pub proof fn lemma_failed_stays_failed(retry: int, max: int, k: nat)
    ensures
        after_failures(OutboxStatus::Failed, retry, max, k).0 == OutboxStatus::Failed,
    decreases k,
{
    if k > 0 {
        lemma_failed_stays_failed(retry, max, (k - 1) as nat);
    }
}

} // verus!
