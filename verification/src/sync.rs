//! Delivery retries with capped exponential backoff and jitter.
//!
//! The backoff multiplier and the jitter are fixed-point fractions in parts
//! per million (1_000_000 stands for 1.0).

use vstd::prelude::*;
use crate::common::{MessageId, Timestamp};
use crate::entropy::thread_random_in_range;
use crate::seq_facts::{lemma_filter_take_step, lemma_split_at_examined, lemma_split_done};

verus! {

/// Errors of synchronisation.
#[derive(Debug)]
pub enum SyncError {
    RetryExhausted(MessageId),
    ConflictResolution(String),
    BackupFailed(String),
    NetworkUnavailable,
}

/// How often and how fast to retry a delivery.
#[derive(Debug, Clone, Copy, PartialEq, Eq, Structural)]
pub struct RetryPolicy {
    pub max_retries: u32,
    pub initial_delay_ms: u64,
    pub max_delay_ms: u64,
    /// Growth of the delay per attempt, in parts per million.
    pub backoff_multiplier: u32,
}

impl Default for RetryPolicy {
    fn default() -> (p: Self)
        ensures
            p == (RetryPolicy {
                max_retries: 10,
                initial_delay_ms: 1000,
                max_delay_ms: 300_000,
                backoff_multiplier: 2_000_000,
            }),
    {
        RetryPolicy {
            max_retries: 10,
            initial_delay_ms: 1000,
            max_delay_ms: 300_000,
            backoff_multiplier: 2_000_000,
        }
    }
}

/// The units of a millisecond in which a delay is carried until it is
/// rounded to whole milliseconds: nanoseconds of a millisecond.
pub const DELAY_SCALE: u128 = 1_000_000_000;

/// The uncapped delay before attempt `attempt` (from 1), in billionths of a
/// millisecond: the initial delay, multiplied by the backoff multiplier for
/// each later attempt.
pub open spec fn backoff_delay(p: RetryPolicy, attempt: nat) -> nat
    decreases attempt,
{
    if attempt <= 1 {
        p.initial_delay_ms as nat * DELAY_SCALE as nat
    } else {
        backoff_delay(p, (attempt - 1) as nat) * p.backoff_multiplier as nat / 1_000_000
    }
}

/// The delay before attempt `attempt`, capped at the policy's maximum, in
/// billionths of a millisecond.
pub open spec fn capped_backoff(p: RetryPolicy, attempt: nat) -> nat {
    if backoff_delay(p, attempt) > p.max_delay_ms as nat * DELAY_SCALE as nat {
        p.max_delay_ms as nat * DELAY_SCALE as nat
    } else {
        backoff_delay(p, attempt)
    }
}

/// The delay before attempt `attempt`, capped at the policy's maximum and
/// rounded down to whole milliseconds.
pub open spec fn capped_delay(p: RetryPolicy, attempt: nat) -> nat {
    capped_backoff(p, attempt) / DELAY_SCALE as nat
}

/// The delay before attempt `attempt` with jitter `jitter` (parts per
/// million), in milliseconds: none before the first attempt; otherwise the
/// capped delay times the jitter, rounded down once and held within a
/// `u64`.
pub open spec fn jittered_delay(p: RetryPolicy, attempt: nat, jitter: nat) -> nat {
    if attempt == 0 {
        0
    } else {
        let d = capped_backoff(p, attempt) * jitter / (1_000_000 * DELAY_SCALE as nat);
        if d > u64::MAX {
            u64::MAX as nat
        } else {
            d
        }
    }
}

/// A growing backoff (multiplier of at least 1.0) never shrinks.
proof fn lemma_backoff_grows(p: RetryPolicy, k: nat, m: nat)
    requires
        p.backoff_multiplier >= 1_000_000,
        1 <= k <= m,
    ensures
        backoff_delay(p, k) <= backoff_delay(p, m),
    decreases m - k,
{
    if k < m {
        lemma_backoff_grows(p, k, (m - 1) as nat);
        let d = backoff_delay(p, (m - 1) as nat);
        assert(d <= d * p.backoff_multiplier as nat / 1_000_000) by (nonlinear_arith)
            requires
                p.backoff_multiplier >= 1_000_000,
                d >= 0,
        {
            assert(d * 1_000_000 <= d * p.backoff_multiplier);
        }
    }
}

/// A backoff that reaches zero stays there.
proof fn lemma_backoff_zero_stays(p: RetryPolicy, k: nat, m: nat)
    requires
        1 <= k <= m,
        backoff_delay(p, k) == 0,
    ensures
        backoff_delay(p, m) == 0,
    decreases m - k,
{
    if k < m {
        lemma_backoff_zero_stays(p, k, (m - 1) as nat);
    }
}

/// A shrinking backoff (multiplier below 1.0) never grows.
proof fn lemma_backoff_shrinks(p: RetryPolicy, k: nat)
    requires
        p.backoff_multiplier < 1_000_000,
        1 <= k,
    ensures
        backoff_delay(p, k) <= p.initial_delay_ms * DELAY_SCALE,
    decreases k,
{
    if k > 1 {
        lemma_backoff_shrinks(p, (k - 1) as nat);
        let d = backoff_delay(p, (k - 1) as nat);
        assert(d * p.backoff_multiplier as nat / 1_000_000 <= d) by (nonlinear_arith)
            requires
                p.backoff_multiplier < 1_000_000,
                d >= 0,
        {
            assert(d * p.backoff_multiplier <= d * 1_000_000);
        }
    }
}

impl RetryPolicy {
    /// The capped delay before attempt `attempt` (from 1), in billionths of
    /// a millisecond.
    fn capped_backoff_for_attempt(&self, attempt: u32) -> (d: u128)
        requires
            attempt >= 1,
        ensures
            d == capped_backoff(*self, attempt as nat),
            d <= self.max_delay_ms as nat * DELAY_SCALE as nat,
    {
        let mult = self.backoff_multiplier as u128;
        let max = self.max_delay_ms as u128 * DELAY_SCALE;
        let mut d: u128 = self.initial_delay_ms as u128 * DELAY_SCALE;
        let mut k: u32 = 1;
        while k < attempt
            invariant
                1 <= k <= attempt,
                mult == self.backoff_multiplier,
                max == self.max_delay_ms * 1_000_000_000,
                d == backoff_delay(*self, k as nat),
                d <= 0xFFFF_FFFF_FFFF_FFFF * 1_000_000_000 * 0x1_0000_0000,
                mult < 1_000_000 ==> d <= self.initial_delay_ms * 1_000_000_000,
            decreases attempt - k,
        {
            if mult >= 1_000_000 && d > max {
                proof {
                    lemma_backoff_grows(*self, k as nat, attempt as nat);
                }
                return max;
            }
            if d == 0 {
                proof {
                    lemma_backoff_zero_stays(*self, k as nat, attempt as nat);
                }
                return 0;
            }
            assert(d <= 0xFFFF_FFFF_FFFF_FFFF * 1_000_000_000);
            assert(d * mult <= 0xFFFF_FFFF_FFFF_FFFF * 1_000_000_000 * 0xFFFF_FFFF) by (nonlinear_arith)
                requires
                    d <= 0xFFFF_FFFF_FFFF_FFFF * 1_000_000_000,
                    mult <= 0xFFFF_FFFF,
            ;
            let next = d * mult / 1_000_000;
            proof {
                assert(next <= 0xFFFF_FFFF_FFFF_FFFF * 1_000_000_000 * 0x1_0000_0000) by (nonlinear_arith)
                    requires
                        next == d * mult / 1_000_000,
                        d * mult <= 0xFFFF_FFFF_FFFF_FFFF * 1_000_000_000 * 0xFFFF_FFFF,
                ;
                if mult < 1_000_000 {
                    lemma_backoff_shrinks(*self, (k + 1) as nat);
                }
            }
            d = next;
            k = k + 1;
        }
        if d > max {
            max
        } else {
            d
        }
    }

    /// The capped delay before attempt `attempt` (from 1), rounded down to
    /// whole milliseconds.
    pub fn capped_delay_for_attempt(&self, attempt: u32) -> (d: u64)
        requires
            attempt >= 1,
        ensures
            d == capped_delay(*self, attempt as nat),
    {
        let fine = self.capped_backoff_for_attempt(attempt);
        (fine / DELAY_SCALE) as u64
    }

    /// The delay before attempt `attempt` with jitter `jitter` (parts per
    /// million).
    pub fn delay_with_jitter(&self, attempt: u32, jitter: u32) -> (d: u64)
        ensures
            d == jittered_delay(*self, attempt as nat, jitter as nat),
    {
        if attempt == 0 {
            return 0;
        }
        let fine = self.capped_backoff_for_attempt(attempt);
        assert(fine * jitter <= 0xFFFF_FFFF_FFFF_FFFF * 1_000_000_000 * 0xFFFF_FFFF) by (nonlinear_arith)
            requires
                fine <= 0xFFFF_FFFF_FFFF_FFFF * 1_000_000_000,
                jitter <= 0xFFFF_FFFF,
        ;
        let d = fine * (jitter as u128) / (1_000_000 * DELAY_SCALE);
        if d > u64::MAX as u128 {
            u64::MAX
        } else {
            d as u64
        }
    }

    /// The delay before attempt `attempt`, with a random jitter between 0.5
    /// and 1.5.
    pub fn delay_for_attempt(&self, attempt: u32) -> (d: u64)
        ensures
            exists|jitter: nat|
                500_000 <= jitter < 1_500_000 && d == #[trigger] jittered_delay(*self, attempt as nat, jitter),
    {
        let jitter = thread_random_in_range(500_000, 1_500_000);
        self.delay_with_jitter(attempt, jitter)
    }
}

/// Where a message stands in its delivery.
#[derive(Debug)]
pub enum SyncState {
    Idle,
    Syncing,
    RetryScheduled { attempt: u32, next_retry_at: Timestamp },
    Failed { error: String },
}

/// A message that still has to be delivered.
#[derive(Debug)]
pub struct PendingMessage {
    pub message_id: MessageId,
    pub payload: Vec<u8>,
    pub attempts: u32,
    pub last_attempt: Option<Timestamp>,
    pub state: SyncState,
    pub created_at: Timestamp,
}

/// The message is due for another attempt at `now`.
pub open spec fn ready_at(m: PendingMessage, now: Timestamp) -> bool {
    match m.state {
        SyncState::RetryScheduled { next_retry_at, .. } => now.0 >= next_retry_at.0,
        _ => false,
    }
}

/// `after` is `m` after one more attempt at `now`, the attempt having gone
/// well or not, with `delay` the wait before the next attempt: counted and
/// dated; idle after a success; failed ("Max retries exceeded") once the
/// attempts reach the policy's maximum; otherwise scheduled `delay`
/// milliseconds later (see `retry_instant`).
pub open spec fn is_after_attempt(
    p: RetryPolicy,
    m: PendingMessage,
    success: bool,
    now: Timestamp,
    delay: nat,
    after: PendingMessage,
) -> bool {
    let attempts = m.attempts + 1;
    &&& after.message_id == m.message_id
    &&& after.payload@ == m.payload@
    &&& after.created_at == m.created_at
    &&& after.attempts == attempts
    &&& after.last_attempt == Some(now)
    &&& if success {
        after.state is Idle
    } else if attempts >= p.max_retries {
        after.state matches SyncState::Failed { error } && error@ == "Max retries exceeded"@
    } else {
        after.state matches SyncState::RetryScheduled { attempt, next_retry_at } && attempt == attempts
            && next_retry_at.0 == retry_instant(now, delay)
    }
}

/// The instant `delay` milliseconds after `now`, the delay taken as a signed
/// 64-bit count (so that one past `i64::MAX` wraps) and the sum held within
/// the representable instants.
pub open spec fn retry_instant(now: Timestamp, delay: nat) -> int {
    let t = now.0 + (delay as i64) * 1_000_000;
    if t > i128::MAX {
        i128::MAX as int
    } else if t < i128::MIN {
        i128::MIN as int
    } else {
        t
    }
}

/// The pending messages due for another attempt at `now`, in order.
pub open spec fn ready_messages(s: Seq<PendingMessage>, now: Timestamp) -> Seq<PendingMessage> {
    s.filter(|m: PendingMessage| ready_at(m, now))
}

/// `after` is `before` with the entry at `i` replaced by one that satisfies
/// `replaced`.
pub open spec fn replaced_at(before: Seq<PendingMessage>, after: Seq<PendingMessage>, i: int) -> bool {
    &&& after.len() == before.len()
    &&& forall|j: int| 0 <= j < before.len() && j != i ==> #[trigger] after[j] == before[j]
}

/// `i` is the first position of message `id` in `s`.
pub open spec fn first_position_of(s: Seq<PendingMessage>, id: MessageId, i: int) -> bool {
    &&& 0 <= i < s.len()
    &&& s[i].message_id == id
    &&& forall|j: int| 0 <= j < i ==> (#[trigger] s[j]).message_id != id
}

/// The delivery engine: a retry policy and the messages pending delivery.
pub struct SyncEngine {
    retry_policy: RetryPolicy,
    pending: Vec<PendingMessage>,
}

impl SyncEngine {
    /// The retry policy.
    pub closed spec fn spec_policy(&self) -> RetryPolicy {
        self.retry_policy
    }

    /// The messages pending delivery, in the order added.
    pub closed spec fn spec_pending(&self) -> Seq<PendingMessage> {
        self.pending@
    }

    /// An engine with no pending message.
    pub fn new(retry_policy: RetryPolicy) -> (e: Self)
        ensures
            e.spec_policy() == retry_policy,
            e.spec_pending().len() == 0,
    {
        SyncEngine { retry_policy, pending: Vec::new() }
    }

    /// Adds a message to deliver.
    pub fn add_pending(&mut self, message: PendingMessage)
        ensures
            final(self).spec_policy() == old(self).spec_policy(),
            final(self).spec_pending() == old(self).spec_pending().push(message),
    {
        self.pending.push(message);
    }

    /// The messages due for another attempt at `now`, in the order added.
    pub fn get_ready_for_retry_at(&self, now: Timestamp) -> (r: Vec<&PendingMessage>)
        ensures
            r@.map_values(|m: &PendingMessage| *m) == ready_messages(self.spec_pending(), now),
    {
        let ghost q = self.pending@;
        let ghost keep = |m: PendingMessage| ready_at(m, now);
        let mut r: Vec<&PendingMessage> = Vec::new();
        let n = self.pending.len();
        let mut j: usize = 0;
        while j < n
            invariant
                n == q.len(),
                q == self.pending@,
                j <= n,
                forall|m: PendingMessage| #[trigger] keep(m) == ready_at(m, now),
                r@.map_values(|m: &PendingMessage| *m) == q.take(j as int).filter(keep),
            decreases n - j,
        {
            proof {
                lemma_filter_take_step(q, keep, j as int);
            }
            let m = &self.pending[j];
            let ready = match &m.state {
                SyncState::RetryScheduled { next_retry_at, .. } => now.0 >= next_retry_at.0,
                _ => false,
            };
            if ready {
                r.push(m);
                assert(r@.map_values(|m: &PendingMessage| *m) =~= q.take(j as int).filter(keep).push(
                    q[j as int],
                ));
            }
            j = j + 1;
        }
        assert(q.take(n as int) =~= q);
        r
    }

    /// The messages due for another attempt, by the system clock.
    pub fn get_ready_for_retry(&self) -> (r: Vec<&PendingMessage>)
        ensures
            exists|now: Timestamp|
                r@.map_values(|m: &PendingMessage| *m) == #[trigger] ready_messages(self.spec_pending(), now),
    {
        self.get_ready_for_retry_at(Timestamp::now())
    }

    /// Records an attempt at delivering message `id` made at `now`; `delay`
    /// is the wait before the next attempt should this one have failed.
    pub fn record_attempt_at(&mut self, id: &MessageId, success: bool, now: Timestamp, delay: u64)
        requires
            forall|j: int|
                0 <= j < old(self).spec_pending().len() && (#[trigger] old(self).spec_pending()[j]).message_id
                    == *id ==> old(self).spec_pending()[j].attempts < u32::MAX,
        ensures
            final(self).spec_policy() == old(self).spec_policy(),
            (forall|j: int|
                0 <= j < old(self).spec_pending().len() ==> (#[trigger] old(self).spec_pending()[j]).message_id
                    != *id) ==> final(self).spec_pending() == old(self).spec_pending(),
            forall|i: int|
                #[trigger] first_position_of(old(self).spec_pending(), *id, i) ==> replaced_at(
                    old(self).spec_pending(),
                    final(self).spec_pending(),
                    i,
                ) && is_after_attempt(
                    old(self).spec_policy(),
                    old(self).spec_pending()[i],
                    success,
                    now,
                    delay as nat,
                    final(self).spec_pending()[i],
                ),
    {
        let n = self.pending.len();
        let mut i: usize = 0;
        while i < n
            invariant
                n == self.pending@.len(),
                i <= n,
                self.pending@ == old(self).pending@,
                self.retry_policy == old(self).retry_policy,
                forall|j: int| 0 <= j < i ==> (#[trigger] self.pending@[j]).message_id != *id,
                forall|j: int|
                    0 <= j < n && (#[trigger] old(self).spec_pending()[j]).message_id == *id ==> old(
                        self,
                    ).spec_pending()[j].attempts < u32::MAX,
            decreases n - i,
        {
            assert(old(self).spec_pending()[i as int] == self.pending@[i as int]);
            if self.pending[i].message_id.0 == id.0 {
                let attempts = self.pending[i].attempts + 1;
                let state = if success {
                    SyncState::Idle
                } else if attempts >= self.retry_policy.max_retries {
                    proof {
                        reveal_strlit("Max retries exceeded");
                    }
                    SyncState::Failed { error: String::from_str("Max retries exceeded") }
                } else {
                    let signed: i64 = delay as i64;
                    let step: i128 = signed as i128 * 1_000_000;
                    let at: i128 = match now.0.checked_add(step) {
                        Some(t) => t,
                        None => if step > 0 {
                            i128::MAX
                        } else {
                            i128::MIN
                        },
                    };
                    SyncState::RetryScheduled { attempt: attempts, next_retry_at: Timestamp(at) }
                };
                let ghost before = self.pending@;
                let m = self.pending.remove(i);
                let updated = PendingMessage {
                    message_id: m.message_id,
                    payload: m.payload,
                    attempts,
                    last_attempt: Some(now),
                    state,
                    created_at: m.created_at,
                };
                self.pending.insert(i, updated);
                proof {
                    assert(first_position_of(before, *id, i as int));
                    assert forall|i2: int| first_position_of(before, *id, i2) implies i2 == i by {
                        if i2 < i {
                            assert(before[i2].message_id != *id);
                        } else if i2 > i {
                            assert(before[i as int].message_id != *id);
                        }
                    }
                    assert(replaced_at(before, self.pending@, i as int));
                }
                return;
            }
            i = i + 1;
        }
    }

    /// Records an attempt at delivering message `id`, by the system clock;
    /// after a failure the next attempt waits the policy's delay with a
    /// random jitter.
    pub fn record_attempt(&mut self, id: &MessageId, success: bool)
        requires
            forall|j: int|
                0 <= j < old(self).spec_pending().len() && (#[trigger] old(self).spec_pending()[j]).message_id
                    == *id ==> old(self).spec_pending()[j].attempts < u32::MAX,
        ensures
            final(self).spec_policy() == old(self).spec_policy(),
            (forall|j: int|
                0 <= j < old(self).spec_pending().len() ==> (#[trigger] old(self).spec_pending()[j]).message_id
                    != *id) ==> final(self).spec_pending() == old(self).spec_pending(),
            forall|i: int|
                #[trigger] first_position_of(old(self).spec_pending(), *id, i) ==> replaced_at(
                    old(self).spec_pending(),
                    final(self).spec_pending(),
                    i,
                ) && exists|now: Timestamp, jitter: nat|
                    500_000 <= jitter < 1_500_000 && #[trigger] is_after_attempt(
                        old(self).spec_policy(),
                        old(self).spec_pending()[i],
                        success,
                        now,
                        jittered_delay(
                            old(self).spec_policy(),
                            (old(self).spec_pending()[i].attempts + 1) as nat,
                            jitter,
                        ),
                        final(self).spec_pending()[i],
                    ),
    {
        let now = Timestamp::now();
        let jitter = thread_random_in_range(500_000, 1_500_000);
        let pos = self.first_position(id);
        let delay = match pos {
            Some(i) => {
                assert(old(self).spec_pending()[i as int].message_id == *id);
                self.retry_policy.delay_with_jitter(self.pending[i].attempts + 1, jitter)
            },
            None => 0,
        };
        let ghost before = self.pending@;
        self.record_attempt_at(id, success, now, delay);
        proof {
            assert forall|i2: int| #[trigger] first_position_of(before, *id, i2) implies exists|
                now2: Timestamp,
                jitter2: nat,
            |
                500_000 <= jitter2 < 1_500_000 && #[trigger] is_after_attempt(
                    self.retry_policy,
                    before[i2],
                    success,
                    now2,
                    jittered_delay(self.retry_policy, (before[i2].attempts + 1) as nat, jitter2),
                    self.pending@[i2],
                ) by {
                let i = pos.unwrap();
                assert(i2 == i as int) by {
                    if i2 < i {
                        assert(before[i2].message_id != *id);
                    } else if i2 > i {
                        assert(before[i as int].message_id != *id);
                    }
                }
                assert(delay == jittered_delay(
                    self.retry_policy,
                    (before[i2].attempts + 1) as nat,
                    jitter as nat,
                ));
                assert(is_after_attempt(
                    self.retry_policy,
                    before[i2],
                    success,
                    now,
                    jittered_delay(self.retry_policy, (before[i2].attempts + 1) as nat, jitter as nat),
                    self.pending@[i2],
                ));
            }
        }
    }

    /// The first position of message `id`, if it is pending.
    fn first_position(&self, id: &MessageId) -> (r: Option<usize>)
        ensures
            r matches Some(i) ==> first_position_of(self.pending@, *id, i as int),
            r is None ==> forall|j: int| 0 <= j < self.pending@.len() ==> (#[trigger] self.pending@[j]).message_id != *id,
    {
        let n = self.pending.len();
        let mut i: usize = 0;
        while i < n
            invariant
                n == self.pending@.len(),
                i <= n,
                forall|j: int| 0 <= j < i ==> (#[trigger] self.pending@[j]).message_id != *id,
            decreases n - i,
        {
            if self.pending[i].message_id.0 == id.0 {
                return Some(i);
            }
            i = i + 1;
        }
        None
    }

    /// Whether `message` may be attempted again under the policy.
    pub fn should_retry(&self, message: &PendingMessage) -> (b: bool)
        ensures
            b == (message.attempts < self.spec_policy().max_retries),
    {
        message.attempts < self.retry_policy.max_retries
    }

    /// Drops the pending messages with identifier `id`.
    pub fn remove_delivered(&mut self, id: &MessageId)
        ensures
            final(self).spec_policy() == old(self).spec_policy(),
            final(self).spec_pending() == old(self).spec_pending().filter(
                |m: PendingMessage| m.message_id != *id,
            ),
    {
        let ghost orig = self.pending@;
        let ghost keep = |m: PendingMessage| m.message_id != *id;
        let mut i: usize = 0;
        let mut j: usize = 0;
        let n = self.pending.len();
        while j < n
            invariant
                n == orig.len(),
                j <= n,
                self.retry_policy == old(self).retry_policy,
                self.pending@ == orig.take(j as int).filter(keep) + orig.skip(j as int),
                i == orig.take(j as int).filter(keep).len(),
                forall|m: PendingMessage| #[trigger] keep(m) == (m.message_id != *id),
            decreases n - j,
        {
            proof {
                lemma_split_at_examined(orig, keep, j as int, self.pending@);
            }
            let ghost before = self.pending@;
            assert(before[i as int] == orig[j as int]);
            if self.pending[i].message_id.0 == id.0 {
                assert(!keep(orig[j as int]));
                let _m = self.pending.remove(i);
                assert(self.pending@ == before.remove(i as int));
            } else {
                assert(keep(orig[j as int]));
                i = i + 1;
            }
            proof {
                lemma_filter_take_step(orig, keep, j as int);
            }
            j = j + 1;
        }
        proof {
            lemma_split_done(orig, keep);
        }
    }
}

impl Default for SyncEngine {
    fn default() -> (e: Self)
        ensures
            e.spec_policy() == (RetryPolicy {
                max_retries: 10,
                initial_delay_ms: 1000,
                max_delay_ms: 300_000,
                backoff_multiplier: 2_000_000,
            }),
            e.spec_pending().len() == 0,
    {
        Self::new(RetryPolicy::default())
    }
}

/// Law: the wait before an attempt never exceeds one and a half times the
/// policy's maximum delay, and there is none before the first attempt.
pub proof fn lemma_delay_bounded(p: RetryPolicy, attempt: nat, jitter: nat)
    requires
        jitter < 1_500_000,
    ensures
        jittered_delay(p, attempt, jitter) <= p.max_delay_ms * 3 / 2,
        jittered_delay(p, 0, jitter) == 0,
{
    if attempt > 0 {
        let c = capped_backoff(p, attempt);
        assert(c * jitter / 1_000_000_000_000_000 <= p.max_delay_ms * 3 / 2) by (nonlinear_arith)
            requires
                c <= p.max_delay_ms * 1_000_000_000,
                jitter < 1_500_000,
        {
            assert(c * jitter <= p.max_delay_ms * 1_500_000_000_000_000);
        }
    }
}

/// Law: under the default policy the uncapped delay doubles with each
/// attempt.
pub proof fn lemma_default_backoff_doubles(attempt: nat)
    requires
        1 <= attempt,
    ensures
        backoff_delay(
            RetryPolicy {
                max_retries: 10,
                initial_delay_ms: 1000,
                max_delay_ms: 300_000,
                backoff_multiplier: 2_000_000,
            },
            attempt + 1,
        ) == 2 * backoff_delay(
            RetryPolicy {
                max_retries: 10,
                initial_delay_ms: 1000,
                max_delay_ms: 300_000,
                backoff_multiplier: 2_000_000,
            },
            attempt,
        ),
{
    let p = RetryPolicy {
        max_retries: 10,
        initial_delay_ms: 1000,
        max_delay_ms: 300_000,
        backoff_multiplier: 2_000_000,
    };
    let d = backoff_delay(p, attempt);
    assert(d * 2_000_000 / 1_000_000 == 2 * d) by (nonlinear_arith);
}

/// Law: after a failed attempt a message is failed exactly when the policy
/// allows no further retry, and scheduled otherwise; after a successful one
/// it is idle.
pub proof fn lemma_attempt_outcome(
    e: SyncEngine,
    m: PendingMessage,
    success: bool,
    now: Timestamp,
    delay: nat,
    after: PendingMessage,
)
    requires
        is_after_attempt(e.spec_policy(), m, success, now, delay, after),
    ensures
        success ==> after.state is Idle,
        !success ==> (after.state is Failed <==> !(after.attempts < e.spec_policy().max_retries)),
        !success ==> (after.state is RetryScheduled <==> after.attempts < e.spec_policy().max_retries),
{
}

} // verus!
