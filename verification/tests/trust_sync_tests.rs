use gupt::common::{MessageId, PeerId, Timestamp};
use gupt::sync::{PendingMessage, RetryPolicy, SyncEngine, SyncState};
use gupt::trust::{TrustEngine, TRUST_HALF, TRUST_UNIT};

#[test]
fn trust_formula_with_priors() {
    assert_eq!(TrustEngine::compute_score(0, 0), TRUST_HALF);
    assert_eq!(TrustEngine::compute_score(3, 1), 666_666_666_666_666_666);
    assert_eq!(TrustEngine::compute_score(0, 4), 166_666_666_666_666_666);
    assert_eq!(TrustEngine::compute_score(98, 0), 990_000_000_000_000_000);
}

#[test]
fn trust_stays_strictly_between_zero_and_one() {
    let lowest = TrustEngine::compute_score(0, u32::MAX);
    assert!(lowest > 0);
    assert_eq!(lowest, 1_000_000_000_000_000_000 / (u32::MAX as u64 + 2));
    let highest = TrustEngine::compute_score(u32::MAX, 0);
    assert!(highest < TRUST_UNIT);
    assert_eq!(TrustEngine::compute_score(0, 1_000_000), 999_998_000_003);
}

#[test]
fn trust_rises_with_successes_and_falls_with_failures() {
    let mut t = TrustEngine::new();
    let p = PeerId::from_str("p");
    assert_eq!(t.get_score(&p), 500_000_000_000_000_000);
    t.record_success(&p);
    assert_eq!(t.get_score(&p), 666_666_666_666_666_666);
    t.record_success(&p);
    assert_eq!(t.get_score(&p), 750_000_000_000_000_000);
    t.record_failure(&p);
    assert_eq!(t.get_score(&p), 600_000_000_000_000_000);
    let q = PeerId::from_str("q");
    t.record_failure(&q);
    assert_eq!(t.get_score(&q), 333_333_333_333_333_333);
    assert_eq!(t.get_score(&p), 600_000_000_000_000_000);
}

#[test]
fn trust_depends_only_on_the_counts_in_any_order() {
    let mut t = TrustEngine::new();
    let p = PeerId::from_str("p");
    t.record_failure(&p);
    t.record_success(&p);
    t.record_success(&p);
    t.record_failure(&p);
    assert_eq!(t.get_score(&p), TRUST_HALF);
    let mut u = TrustEngine::new();
    u.record_success(&p);
    u.record_failure(&p);
    u.record_failure(&p);
    u.record_success(&p);
    assert_eq!(u.get_score(&p), t.get_score(&p));
    u.record_success(&p);
    assert_eq!(u.get_score(&p), 571_428_571_428_571_428);
    assert_eq!(u.get_score(&PeerId::from_str("other")), TRUST_HALF);
}

#[test]
fn backoff_doubles_up_to_the_cap() {
    let p = RetryPolicy::default();
    assert_eq!(p.capped_delay_for_attempt(1), 1000);
    assert_eq!(p.capped_delay_for_attempt(2), 2000);
    assert_eq!(p.capped_delay_for_attempt(3), 4000);
    assert_eq!(p.capped_delay_for_attempt(9), 256_000);
    assert_eq!(p.capped_delay_for_attempt(10), 300_000);
    assert_eq!(p.delay_with_jitter(0, 1_000_000), 0);
    assert_eq!(p.delay_with_jitter(3, 500_000), 2000);
    assert_eq!(p.delay_with_jitter(3, 1_499_999), 5999);
    let d = p.delay_for_attempt(2);
    assert!((1000..3000).contains(&d));
}

#[test]
fn backoff_rounds_once_at_the_end() {
    let p = RetryPolicy { max_retries: 10, initial_delay_ms: 1000, max_delay_ms: 300_000, backoff_multiplier: 1_500_000 };
    assert_eq!(p.capped_delay_for_attempt(2), 1500);
    assert_eq!(p.capped_delay_for_attempt(7), 11390);
    assert_eq!(p.delay_with_jitter(7, 1_000_000), 11390);
    assert_eq!(p.delay_with_jitter(7, 500_000), 5695);
    assert_eq!(p.delay_with_jitter(7, 1_499_999), 17085);
    let shrink = RetryPolicy { max_retries: 10, initial_delay_ms: 3, max_delay_ms: 300_000, backoff_multiplier: 500_000 };
    assert_eq!(shrink.capped_delay_for_attempt(2), 1);
    assert_eq!(shrink.delay_with_jitter(2, 1_400_000), 2);
    assert_eq!(shrink.capped_delay_for_attempt(80), 0);
}

fn pending(id: u128, state: SyncState) -> PendingMessage {
    PendingMessage { message_id: MessageId(id), payload: vec![1], attempts: 0, last_attempt: None, state, created_at: ms(0) }
}

#[test]
fn ready_messages_are_those_scheduled_by_now() {
    let mut e = SyncEngine::new(RetryPolicy::default());
    e.add_pending(pending(1, SyncState::RetryScheduled { attempt: 1, next_retry_at: ms(5_000) }));
    e.add_pending(pending(2, SyncState::Idle));
    e.add_pending(pending(3, SyncState::RetryScheduled { attempt: 1, next_retry_at: ms(1_000) }));
    let ready: Vec<u128> = e.get_ready_for_retry_at(ms(2_000)).iter().map(|m| m.message_id.0).collect();
    assert_eq!(ready, vec![3]);
    assert_eq!(e.get_ready_for_retry_at(ms(5_000)).len(), 2);
    assert_eq!(e.get_ready_for_retry().len(), 2);
}

#[test]
fn attempts_schedule_fail_or_settle() {
    let policy = RetryPolicy { max_retries: 2, initial_delay_ms: 100, max_delay_ms: 1000, backoff_multiplier: 2_000_000 };
    let mut e = SyncEngine::new(policy);
    e.add_pending(pending(1, SyncState::Idle));
    e.add_pending(pending(2, SyncState::Idle));
    e.record_attempt_at(&MessageId(1), false, ms(10), 250);
    let ready = e.get_ready_for_retry_at(ms(260));
    assert_eq!(ready.len(), 1);
    assert_eq!(ready[0].attempts, 1);
    assert_eq!(ready[0].last_attempt, Some(ms(10)));
    match &ready[0].state {
        SyncState::RetryScheduled { attempt, next_retry_at } => {
            assert_eq!(*attempt, 1);
            assert_eq!(*next_retry_at, ms(260));
        }
        _ => panic!("not scheduled"),
    }
    e.record_attempt_at(&MessageId(1), false, ms(300), 400);
    assert!(e.get_ready_for_retry_at(ms(i64::MAX)).is_empty());
    e.record_attempt_at(&MessageId(2), true, ms(300), 400);
    assert!(e.get_ready_for_retry_at(ms(i64::MAX)).is_empty());
    e.record_attempt_at(&MessageId(9), false, ms(300), 400);
}

#[test]
fn retry_allowed_below_the_maximum_and_delivered_messages_leave() {
    let mut e = SyncEngine::default();
    let mut m = pending(1, SyncState::Idle);
    assert!(e.should_retry(&m));
    m.attempts = 10;
    assert!(!e.should_retry(&m));
    e.add_pending(pending(1, SyncState::RetryScheduled { attempt: 1, next_retry_at: ms(0) }));
    e.add_pending(pending(2, SyncState::RetryScheduled { attempt: 1, next_retry_at: ms(0) }));
    e.remove_delivered(&MessageId(1));
    let ready: Vec<u128> = e.get_ready_for_retry_at(ms(0)).iter().map(|m| m.message_id.0).collect();
    assert_eq!(ready, vec![2]);
}

#[test]
fn scheduled_retry_saturates_at_the_end_of_time() {
    let mut e = SyncEngine::new(RetryPolicy::default());
    e.add_pending(pending(1, SyncState::Idle));
    e.record_attempt_at(&MessageId(1), false, Timestamp(i128::MAX - 5), 100);
    let ready = e.get_ready_for_retry_at(Timestamp(i128::MAX));
    assert_eq!(ready.len(), 1);
    match &ready[0].state {
        SyncState::RetryScheduled { next_retry_at, .. } => assert_eq!(*next_retry_at, Timestamp(i128::MAX)),
        _ => panic!("not scheduled"),
    }
    assert!(e.get_ready_for_retry_at(Timestamp(i128::MAX - 1)).is_empty());
}

#[test]
fn retry_delay_counts_in_signed_milliseconds() {
    let mut e = SyncEngine::new(RetryPolicy::default());
    e.add_pending(pending(1, SyncState::Idle));
    e.add_pending(pending(2, SyncState::Idle));
    e.record_attempt_at(&MessageId(1), false, ms(1_000), 1);
    e.record_attempt_at(&MessageId(2), false, ms(1_000), u64::MAX);
    let ready: Vec<u128> = e.get_ready_for_retry_at(ms(999)).iter().map(|m| m.message_id.0).collect();
    assert_eq!(ready, vec![2]);
    assert_eq!(e.get_ready_for_retry_at(Timestamp(1_000_999_999)).len(), 1);
    assert_eq!(e.get_ready_for_retry_at(ms(1_001)).len(), 2);
}

/// The instant `x` milliseconds after the Unix epoch.
fn ms(x: i64) -> Timestamp {
    Timestamp(x as i128 * 1_000_000)
}
