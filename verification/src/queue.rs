//! The outgoing message queue: bounded, highest priority first, oldest first
//! among equals.

use vstd::prelude::*;
use core::cmp::Ordering;
use vstd::std_specs::cmp::PartialOrdSpecImpl;
use crate::common::{whole_seconds_between, MessageEnvelope, MessageId, Timestamp};
use crate::seq_facts::{lemma_filter_take_step, lemma_split_at_examined, lemma_split_done};

verus! {

/// Errors of the message queue.
#[derive(Debug)]
pub enum QueueError {
    QueueFull { capacity: usize },
    MessageExpired(MessageId),
    MessageNotFound(MessageId),
}

/// Scheduling priority of a queued message, most urgent first.
#[derive(Debug, Clone, Copy, PartialEq, Eq, PartialOrd, Ord, Hash, Structural)]
pub enum QueuePriority {
    Critical,
    High,
    Normal,
    Low,
}

/// The rank of a priority: 0 for the most urgent.
pub open spec fn priority_rank(p: QueuePriority) -> int {
    match p {
        QueuePriority::Critical => 0,
        QueuePriority::High => 1,
        QueuePriority::Normal => 2,
        QueuePriority::Low => 3,
    }
}

/// A message waiting in the queue.
#[derive(Debug)]
pub struct QueuedMessage {
    pub envelope: MessageEnvelope,
    pub priority: QueuePriority,
    pub queued_at: Timestamp,
    pub retry_count: u32,
    pub next_retry_at: Option<Timestamp>,
}

/// `a` leaves the queue before `b`: it is more urgent, or as urgent and
/// queued earlier.
pub open spec fn takes_precedence(a: QueuedMessage, b: QueuedMessage) -> bool {
    priority_rank(a.priority) < priority_rank(b.priority) || (priority_rank(a.priority)
        == priority_rank(b.priority) && a.queued_at.0 < b.queued_at.0)
}

/// The position of the message that leaves `s` next: no message takes
/// precedence over it, and it takes precedence over every message before
/// it (the first of the most urgent, oldest messages).
pub open spec fn is_next_out(s: Seq<QueuedMessage>, i: int) -> bool {
    &&& 0 <= i < s.len()
    &&& forall|j: int| 0 <= j < s.len() ==> !takes_precedence(#[trigger] s[j], s[i])
    &&& forall|j: int| 0 <= j < i ==> takes_precedence(s[i], #[trigger] s[j])
}

/// A message is still alive at `now`: no more whole seconds have passed
/// since it was queued than its time-to-live.
pub open spec fn alive_at(m: QueuedMessage, now: Timestamp) -> bool {
    whole_seconds_between(m.queued_at, now) <= m.envelope.ttl_seconds
}

/// The messages of `s` still alive at `now`, in order.
pub open spec fn alive_messages(s: Seq<QueuedMessage>, now: Timestamp) -> Seq<QueuedMessage> {
    s.filter(|m: QueuedMessage| alive_at(m, now))
}

impl QueuedMessage {
    /// Whether `self` leaves the queue before `other`.
    pub fn takes_precedence_over(&self, other: &QueuedMessage) -> (b: bool)
        ensures
            b == takes_precedence(*self, *other),
    {
        let a = Self::rank(self.priority);
        let c = Self::rank(other.priority);
        a < c || (a == c && self.queued_at.0 < other.queued_at.0)
    }

    fn rank(p: QueuePriority) -> (r: u8)
        ensures
            r == priority_rank(p),
    {
        match p {
            QueuePriority::Critical => 0,
            QueuePriority::High => 1,
            QueuePriority::Normal => 2,
            QueuePriority::Low => 3,
        }
    }
}

impl PartialEq for QueuedMessage {
    fn eq(&self, other: &Self) -> (r: bool) {
        self.envelope.id == other.envelope.id
    }
}

impl vstd::std_specs::cmp::PartialEqSpecImpl for QueuedMessage {
    open spec fn obeys_eq_spec() -> bool {
        true
    }

    open spec fn eq_spec(&self, other: &QueuedMessage) -> bool {
        self.envelope.id == other.envelope.id
    }
}

/// How `a` compares with `b` in urgency: greater when it leaves the queue
/// first.
pub open spec fn urgency_order(a: QueuedMessage, b: QueuedMessage) -> Option<Ordering> {
    if takes_precedence(a, b) {
        Some(Ordering::Greater)
    } else if takes_precedence(b, a) {
        Some(Ordering::Less)
    } else {
        Some(Ordering::Equal)
    }
}

impl PartialOrd for QueuedMessage {
    fn partial_cmp(&self, other: &Self) -> (r: Option<Ordering>) {
        if self.takes_precedence_over(other) {
            Some(Ordering::Greater)
        } else if other.takes_precedence_over(self) {
            Some(Ordering::Less)
        } else {
            Some(Ordering::Equal)
        }
    }
}

impl PartialOrdSpecImpl for QueuedMessage {
    open spec fn obeys_partial_cmp_spec() -> bool {
        true
    }

    open spec fn partial_cmp_spec(&self, other: &QueuedMessage) -> Option<Ordering> {
        urgency_order(*self, *other)
    }
}

/// A bounded priority queue of outgoing messages.
pub struct MessageQueue {
    messages: Vec<QueuedMessage>,
    max_capacity: usize,
}

impl MessageQueue {
    /// The queued messages, in the order they were enqueued.
    pub closed spec fn spec_messages(&self) -> Seq<QueuedMessage> {
        self.messages@
    }

    /// The number of messages the queue holds at most.
    pub closed spec fn spec_capacity(&self) -> nat {
        self.max_capacity as nat
    }

    /// An empty queue holding at most `capacity` messages.
    pub fn new(capacity: usize) -> (q: Self)
        ensures
            q.spec_messages().len() == 0,
            q.spec_capacity() == capacity,
    {
        MessageQueue { messages: Vec::new(), max_capacity: capacity }
    }

    /// Adds a message, unless the queue is full.
    pub fn enqueue(&mut self, message: QueuedMessage) -> (r: Result<(), QueueError>)
        ensures
            final(self).spec_capacity() == old(self).spec_capacity(),
            old(self).spec_messages().len() >= old(self).spec_capacity() ==> (r matches Err(
                QueueError::QueueFull { capacity },
            ) && capacity == old(self).spec_capacity() && final(self).spec_messages()
                == old(self).spec_messages()),
            old(self).spec_messages().len() < old(self).spec_capacity() ==> (r is Ok
                && final(self).spec_messages() == old(self).spec_messages().push(message)),
    {
        if self.messages.len() >= self.max_capacity {
            return Err(QueueError::QueueFull { capacity: self.max_capacity });
        }
        self.messages.push(message);
        Ok(())
    }

    /// The position of the message that leaves next, in a non-empty queue.
    fn next_out_index(&self) -> (i: usize)
        requires
            self.messages@.len() > 0,
        ensures
            is_next_out(self.messages@, i as int),
    {
        let n = self.messages.len();
        let mut best: usize = 0;
        let mut k: usize = 1;
        while k < n
            invariant
                n == self.messages@.len(),
                0 <= best < k <= n,
                forall|j: int| 0 <= j < k ==> !takes_precedence(#[trigger] self.messages@[j], self.messages@[best as int]),
                forall|j: int| 0 <= j < best ==> takes_precedence(self.messages@[best as int], #[trigger] self.messages@[j]),
            decreases n - k,
        {
            if self.messages[k].takes_precedence_over(&self.messages[best]) {
                best = k;
            }
            k = k + 1;
        }
        best
    }

    /// Removes and returns the message that leaves next: the most urgent,
    /// and among those the one queued earliest; `None` when empty.
    pub fn dequeue(&mut self) -> (r: Option<QueuedMessage>)
        ensures
            final(self).spec_capacity() == old(self).spec_capacity(),
            old(self).spec_messages().len() == 0 ==> r is None && final(self).spec_messages()
                == old(self).spec_messages(),
            old(self).spec_messages().len() > 0 ==> exists|i: int|
                is_next_out(old(self).spec_messages(), i) && r == Some(old(self).spec_messages()[i])
                    && final(self).spec_messages() == old(self).spec_messages().remove(i),
    {
        if self.messages.len() == 0 {
            return None;
        }
        let i = self.next_out_index();
        let m = self.messages.remove(i);
        Some(m)
    }

    /// The message that leaves next, without removing it.
    pub fn peek(&self) -> (r: Option<&QueuedMessage>)
        ensures
            self.spec_messages().len() == 0 ==> r is None,
            self.spec_messages().len() > 0 ==> exists|i: int|
                is_next_out(self.spec_messages(), i) && r == Some(&self.spec_messages()[i]),
    {
        if self.messages.len() == 0 {
            return None;
        }
        let i = self.next_out_index();
        Some(&self.messages[i])
    }

    /// The number of queued messages.
    pub fn len(&self) -> (n: usize)
        ensures
            n == self.spec_messages().len(),
    {
        self.messages.len()
    }

    /// Whether the queue is empty.
    pub fn is_empty(&self) -> (b: bool)
        ensures
            b == (self.spec_messages().len() == 0),
    {
        self.messages.len() == 0
    }

    /// Removes every message with identifier `id`, returning one of them.
    pub fn remove(&mut self, id: &MessageId) -> (r: Option<QueuedMessage>)
        ensures
            final(self).spec_capacity() == old(self).spec_capacity(),
            final(self).spec_messages() == old(self).spec_messages().filter(
                |m: QueuedMessage| m.envelope.id != *id,
            ),
            r is None <==> (forall|j: int|
                0 <= j < old(self).spec_messages().len() ==> (#[trigger] old(self).spec_messages()[j]).envelope.id
                    != *id),
            r matches Some(m) ==> m.envelope.id == *id && old(self).spec_messages().contains(m),
    {
        let ghost orig = self.messages@;
        let ghost keep = |m: QueuedMessage| m.envelope.id != *id;
        let mut found: Option<QueuedMessage> = None;
        let mut i: usize = 0;
        let mut j: usize = 0;
        let n = self.messages.len();
        while j < n
            invariant
                n == orig.len(),
                j <= n,
                i <= j,
                self.max_capacity == old(self).max_capacity,
                self.messages@ == orig.take(j as int).filter(keep) + orig.skip(j as int),
                i == orig.take(j as int).filter(keep).len(),
                forall|m: QueuedMessage| #[trigger] keep(m) == (m.envelope.id != *id),
                found is None <==> (forall|k: int| 0 <= k < j ==> (#[trigger] orig[k]).envelope.id != *id),
                found matches Some(m) ==> m.envelope.id == *id && orig.contains(m),
            decreases n - j,
        {
            proof {
                lemma_split_at_examined(orig, keep, j as int, self.messages@);
            }
            let ghost before = self.messages@;
            assert(before[i as int] == orig[j as int]);
            if self.messages[i].envelope.id == *id {
                assert(!keep(orig[j as int]));
                let m = self.messages.remove(i);
                assert(self.messages@ == before.remove(i as int));
                found = Some(m);
            } else {
                assert(keep(orig[j as int]));
                i = i + 1;
            }
            proof {
                lemma_filter_take_step(orig, keep, j as int);
            }
            j = j + 1;
        }
        proof {
            lemma_split_done(orig, keep);
        }
        found
    }

    /// Drops every message whose time-to-live has run out by `now`, and
    /// returns how many were dropped.
    pub fn purge_expired_at(&mut self, now: Timestamp) -> (dropped: usize)
        ensures
            final(self).spec_capacity() == old(self).spec_capacity(),
            final(self).spec_messages() == alive_messages(old(self).spec_messages(), now),
            dropped == old(self).spec_messages().len() - final(self).spec_messages().len(),
    {
        let ghost orig = self.messages@;
        let ghost keep = |m: QueuedMessage| alive_at(m, now);
        let mut i: usize = 0;
        let mut j: usize = 0;
        let n = self.messages.len();
        while j < n
            invariant
                n == orig.len(),
                j <= n,
                i <= j,
                self.max_capacity == old(self).max_capacity,
                self.messages@ == orig.take(j as int).filter(keep) + orig.skip(j as int),
                i == orig.take(j as int).filter(keep).len(),
                forall|m: QueuedMessage| #[trigger] keep(m) == alive_at(m, now),
            decreases n - j,
        {
            proof {
                lemma_split_at_examined(orig, keep, j as int, self.messages@);
            }
            let ghost before = self.messages@;
            assert(before[i as int] == orig[j as int]);
            let age = self.messages[i].queued_at.seconds_until(&now);
            if age <= self.messages[i].envelope.ttl_seconds as i128 {
                assert(keep(orig[j as int]));
                i = i + 1;
            } else {
                assert(!keep(orig[j as int]));
                let _m = self.messages.remove(i);
                assert(self.messages@ == before.remove(i as int));
            }
            proof {
                lemma_filter_take_step(orig, keep, j as int);
            }
            j = j + 1;
        }
        proof {
            lemma_split_done(orig, keep);
        }
        n - self.messages.len()
    }

    /// Drops every message whose time-to-live has run out, by the system
    /// clock, and returns how many were dropped.
    pub fn purge_expired(&mut self) -> (dropped: usize)
        ensures
            final(self).spec_capacity() == old(self).spec_capacity(),
            exists|now: Timestamp|
                final(self).spec_messages() == #[trigger] alive_messages(old(self).spec_messages(), now),
            dropped == old(self).spec_messages().len() - final(self).spec_messages().len(),
    {
        let now = Timestamp::now();
        self.purge_expired_at(now)
    }

    /// A queued message with identifier `id`, if there is one.
    pub fn get_by_id(&self, id: &MessageId) -> (r: Option<&QueuedMessage>)
        ensures
            r is None <==> (forall|j: int|
                0 <= j < self.spec_messages().len() ==> (#[trigger] self.spec_messages()[j]).envelope.id != *id),
            r matches Some(m) ==> m.envelope.id == *id && self.spec_messages().contains(*m),
    {
        let n = self.messages.len();
        let mut k: usize = 0;
        while k < n
            invariant
                n == self.messages@.len(),
                k <= n,
                forall|j: int| 0 <= j < k ==> (#[trigger] self.messages@[j]).envelope.id != *id,
            decreases n - k,
        {
            if self.messages[k].envelope.id == *id {
                return Some(&self.messages[k]);
            }
            k = k + 1;
        }
        None
    }
}

impl Default for MessageQueue {
    fn default() -> (q: Self)
        ensures
            q.spec_messages().len() == 0,
            q.spec_capacity() == 10_000,
    {
        Self::new(10_000)
    }
}

/// Law: enqueuing never takes a queue that is within its capacity beyond
/// it; an enqueue succeeds exactly when it adds the message, at the end.
pub proof fn lemma_enqueue_respects_capacity(
    before: MessageQueue,
    after: MessageQueue,
    message: QueuedMessage,
    r: Result<(), QueueError>,
)
    requires
        before.spec_messages().len() <= before.spec_capacity(),
        after.spec_capacity() == before.spec_capacity(),
        before.spec_messages().len() >= before.spec_capacity() ==> (r matches Err(
            QueueError::QueueFull { capacity },
        ) && capacity == before.spec_capacity() && after.spec_messages() == before.spec_messages()),
        before.spec_messages().len() < before.spec_capacity() ==> (r is Ok && after.spec_messages()
            == before.spec_messages().push(message)),
    ensures
        after.spec_messages().len() <= after.spec_capacity(),
        r is Ok <==> after.spec_messages().len() == before.spec_messages().len() + 1,
        r is Ok ==> after.spec_messages().last() == message,
{
}

/// Law: the message that leaves next is at least as urgent as every queued
/// message, and among the equally urgent ones it was queued no later.
pub proof fn lemma_next_out_is_most_urgent(s: Seq<QueuedMessage>, i: int, j: int)
    requires
        is_next_out(s, i),
        0 <= j < s.len(),
    ensures
        priority_rank(s[i].priority) <= priority_rank(s[j].priority),
        priority_rank(s[i].priority) == priority_rank(s[j].priority) ==> s[i].queued_at.0 <= s[j].queued_at.0,
{
    assert(!takes_precedence(s[j], s[i]));
}

/// Filtering keeps everything when everything passes.
proof fn lemma_filter_all_pass(s: Seq<QueuedMessage>, p: spec_fn(QueuedMessage) -> bool)
    requires
        forall|j: int| 0 <= j < s.len() ==> p(#[trigger] s[j]),
    ensures
        s.filter(p) == s,
    decreases s.len(),
{
    reveal_with_fuel(Seq::filter, 1);
    if s.len() > 0 {
        lemma_filter_all_pass(s.drop_last(), p);
        assert(s.drop_last().push(s.last()) =~= s);
    }
}

/// Law: removing a message right after enqueuing it, into a queue that held
/// no message with its identifier, gives back exactly the queue before.
pub proof fn lemma_remove_undoes_enqueue(s: Seq<QueuedMessage>, message: QueuedMessage)
    requires
        forall|j: int| 0 <= j < s.len() ==> (#[trigger] s[j]).envelope.id != message.envelope.id,
    ensures
        s.push(message).filter(|m: QueuedMessage| m.envelope.id != message.envelope.id) == s,
{
    let p = |m: QueuedMessage| m.envelope.id != message.envelope.id;
    reveal_with_fuel(Seq::filter, 1);
    assert(s.push(message).drop_last() =~= s);
    lemma_filter_all_pass(s, p);
}

/// Law: urgency follows the declared order of the priorities, Critical
/// before High before Normal before Low, whenever the messages were queued;
/// between equal priorities the earlier message goes first.
pub proof fn lemma_declared_order_decides(a: QueuedMessage, b: QueuedMessage)
    ensures
        a.priority == QueuePriority::Critical && b.priority != QueuePriority::Critical ==> takes_precedence(a, b),
        a.priority == QueuePriority::High && (b.priority == QueuePriority::Normal || b.priority
            == QueuePriority::Low) ==> takes_precedence(a, b),
        a.priority == QueuePriority::Normal && b.priority == QueuePriority::Low ==> takes_precedence(a, b),
        a.priority == b.priority ==> (takes_precedence(a, b) <==> a.queued_at.0 < b.queued_at.0),
{
}

/// Law: the message that leaves a queue next is a Critical one whenever the
/// queue holds one, is High or more urgent whenever it holds a High one, and
/// is never Low while a Normal one waits.
pub proof fn lemma_next_out_respects_declared_order(s: Seq<QueuedMessage>, i: int, j: int)
    requires
        is_next_out(s, i),
        0 <= j < s.len(),
    ensures
        s[j].priority == QueuePriority::Critical ==> s[i].priority == QueuePriority::Critical,
        s[j].priority == QueuePriority::High ==> (s[i].priority == QueuePriority::Critical
            || s[i].priority == QueuePriority::High),
        s[j].priority == QueuePriority::Normal ==> s[i].priority != QueuePriority::Low,
{
    assert(!takes_precedence(s[j], s[i]));
}

} // verus!
