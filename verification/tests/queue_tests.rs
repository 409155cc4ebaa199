use gupt::common::{
    ConversationId, DeliveryStatus, MessageEnvelope, MessageId, MessageType, Timestamp, UserId,
};
use gupt::queue::{MessageQueue, QueueError, QueuePriority, QueuedMessage};

fn envelope(id: u128, ttl: u32) -> MessageEnvelope {
    MessageEnvelope {
        id: MessageId(id),
        sender: UserId::from_str("alice"),
        recipient: UserId::from_str("bob"),
        conversation_id: ConversationId(7),
        message_type: MessageType::Text,
        encrypted_payload: vec![1, 2, 3],
        signature: vec![],
        nonce: vec![0; 24],
        ttl_seconds: ttl,
        hop_count: 0,
        max_hops: 5,
        timestamp: ms(0),
        delivery_status: DeliveryStatus::Pending,
    }
}

fn queued(id: u128, priority: QueuePriority, at: i64, ttl: u32) -> QueuedMessage {
    QueuedMessage { envelope: envelope(id, ttl), priority, queued_at: ms(at), retry_count: 0, next_retry_at: None }
}

#[test]
fn dequeue_takes_most_urgent_then_oldest() {
    let mut q = MessageQueue::new(10);
    q.enqueue(queued(1, QueuePriority::Low, 0, 60)).unwrap();
    q.enqueue(queued(2, QueuePriority::High, 5, 60)).unwrap();
    q.enqueue(queued(3, QueuePriority::High, 2, 60)).unwrap();
    q.enqueue(queued(4, QueuePriority::Critical, 9, 60)).unwrap();
    assert_eq!(q.peek().unwrap().envelope.id, MessageId(4));
    let order: Vec<u128> = (0..4).map(|_| q.dequeue().unwrap().envelope.id.0).collect();
    assert_eq!(order, vec![4, 3, 2, 1]);
    assert!(q.dequeue().is_none());
    assert!(q.is_empty());
}

#[test]
fn equal_priority_and_time_leave_in_arrival_order() {
    let mut q = MessageQueue::new(10);
    q.enqueue(queued(1, QueuePriority::Normal, 3, 60)).unwrap();
    q.enqueue(queued(2, QueuePriority::Normal, 3, 60)).unwrap();
    assert_eq!(q.dequeue().unwrap().envelope.id, MessageId(1));
}

#[test]
fn full_queue_refuses() {
    let mut q = MessageQueue::new(1);
    q.enqueue(queued(1, QueuePriority::Low, 0, 60)).unwrap();
    let r = q.enqueue(queued(2, QueuePriority::Critical, 0, 60));
    assert!(matches!(r, Err(QueueError::QueueFull { capacity: 1 })));
    assert_eq!(q.len(), 1);
    assert_eq!(MessageQueue::default().len(), 0);
}

#[test]
fn remove_and_lookup_by_id() {
    let mut q = MessageQueue::new(10);
    q.enqueue(queued(1, QueuePriority::Low, 0, 60)).unwrap();
    q.enqueue(queued(2, QueuePriority::Low, 1, 60)).unwrap();
    assert!(q.get_by_id(&MessageId(2)).is_some());
    assert_eq!(q.remove(&MessageId(2)).unwrap().envelope.id, MessageId(2));
    assert!(q.get_by_id(&MessageId(2)).is_none());
    assert!(q.remove(&MessageId(9)).is_none());
    assert_eq!(q.len(), 1);
}

#[test]
fn purge_drops_expired_messages() {
    let mut q = MessageQueue::new(10);
    q.enqueue(queued(1, QueuePriority::Low, 0, 10)).unwrap();
    q.enqueue(queued(2, QueuePriority::Low, 0, 100)).unwrap();
    q.enqueue(queued(3, QueuePriority::Low, 5_000, 10)).unwrap();
    // at 15 s: message 1 is 15 s old (ttl 10), message 3 is 10 s old (ttl 10)
    assert_eq!(q.purge_expired_at(ms(15_000)), 1);
    assert_eq!(q.len(), 2);
    assert!(q.get_by_id(&MessageId(1)).is_none());
    assert_eq!(q.purge_expired_at(ms(15_999)), 0);
    assert_eq!(q.purge_expired_at(ms(16_000)), 1);
}

#[test]
fn purge_by_clock_drops_old_messages() {
    let mut q = MessageQueue::new(10);
    q.enqueue(queued(1, QueuePriority::Low, 0, 10)).unwrap();
    assert_eq!(q.purge_expired(), 1);
}

#[test]
fn precedence_compares_priority_then_age() {
    let a = queued(1, QueuePriority::High, 10, 60);
    let b = queued(2, QueuePriority::Normal, 0, 60);
    assert!(a.takes_precedence_over(&b));
    assert!(!b.takes_precedence_over(&a));
    assert!(a == queued(1, QueuePriority::Low, 99, 1));
    assert!(a > b);
    assert!(b < a);
    assert_eq!(queued(3, QueuePriority::Low, 4, 1).partial_cmp(&queued(4, QueuePriority::Low, 4, 1)), Some(std::cmp::Ordering::Equal));
    assert!(queued(3, QueuePriority::Low, 4, 1) > queued(4, QueuePriority::Low, 5, 1));
}

#[test]
fn remove_right_after_enqueue_restores_the_queue() {
    let mut q = MessageQueue::new(10);
    q.enqueue(queued(1, QueuePriority::Low, 0, 60)).unwrap();
    q.enqueue(queued(2, QueuePriority::High, 1, 60)).unwrap();
    q.enqueue(queued(3, QueuePriority::Critical, 2, 60)).unwrap();
    assert_eq!(q.remove(&MessageId(3)).unwrap().envelope.id, MessageId(3));
    assert_eq!(q.len(), 2);
    assert_eq!(q.dequeue().unwrap().envelope.id, MessageId(2));
    assert_eq!(q.dequeue().unwrap().envelope.id, MessageId(1));
}

/// The instant `x` milliseconds after the Unix epoch.
fn ms(x: i64) -> Timestamp {
    Timestamp(x as i128 * 1_000_000)
}
