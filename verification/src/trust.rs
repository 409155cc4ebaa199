//! Trust scores of mesh peers, learned from how their relays went.
//!
//! A score is a fraction in units of 10^-18 (`TRUST_UNIT` stands for 1.0),
//! finer than a 64-bit float resolves near one.

use vstd::prelude::*;
use crate::common::PeerId;

verus! {

/// Errors of trust evaluation.
#[derive(Debug)]
pub enum TrustError {
    /// Peer not found in the trust store.
    PeerNotFound(String),
}

/// One whole in trust scores: a score counts in units of 10^-18.
pub const TRUST_UNIT: u64 = 1_000_000_000_000_000_000;

/// One half in trust scores, the score of a peer with no record.
pub const TRUST_HALF: u64 = 500_000_000_000_000_000;

/// The trust a peer has earned.
#[derive(Debug)]
pub struct TrustScore {
    pub peer_id: PeerId,
    /// Trust, in units of 10^-18.
    pub score: u64,
    pub successful_relays: u32,
    pub failed_relays: u32,
}

/// The trust in a peer with `s` successful and `f` failed relays: one
/// success and one failure are added as priors, so the score is
/// (s + 1) / (s + f + 2), rounded down to a unit of 10^-18, and an unknown
/// peer starts at one half.
pub open spec fn trust_value(s: nat, f: nat) -> int {
    if s + f == 0 {
        TRUST_HALF as int
    } else {
        ((s + 1) * TRUST_UNIT as nat / (s + f + 2)) as int
    }
}

/// The relay record `m` after one more relay by `peer`, which went well
/// (`success`) or not: its count goes up by one, from nothing for a peer
/// not yet recorded.
pub open spec fn recorded(m: Map<Seq<char>, (u32, u32)>, peer: Seq<char>, success: bool) -> Map<
    Seq<char>,
    (u32, u32),
> {
    m.insert(
        peer,
        if m.contains_key(peer) {
            let (s, f) = m[peer];
            if success {
                ((s + 1) as u32, f)
            } else {
                (s, (f + 1) as u32)
            }
        } else if success {
            (1u32, 0u32)
        } else {
            (0u32, 1u32)
        },
    )
}

/// The trust that relay record `m` gives `peer`: one half for a peer with
/// no record.
pub open spec fn score_in(m: Map<Seq<char>, (u32, u32)>, peer: Seq<char>) -> int {
    if m.contains_key(peer) {
        trust_value(m[peer].0 as nat, m[peer].1 as nat)
    } else {
        TRUST_HALF as int
    }
}

/// The relay record `m` after the relays `outcomes` by `peer`, in order
/// (true for one that went well).
pub open spec fn replay(m: Map<Seq<char>, (u32, u32)>, peer: Seq<char>, outcomes: Seq<bool>) -> Map<
    Seq<char>,
    (u32, u32),
>
    decreases outcomes.len(),
{
    if outcomes.len() == 0 {
        m
    } else {
        recorded(replay(m, peer, outcomes.drop_last()), peer, outcomes.last())
    }
}

/// How many of `outcomes` are `b`.
pub open spec fn count_of(outcomes: Seq<bool>, b: bool) -> nat
    decreases outcomes.len(),
{
    if outcomes.len() == 0 {
        0
    } else {
        count_of(outcomes.drop_last(), b) + if outcomes.last() == b {
            1nat
        } else {
            0nat
        }
    }
}

/// The trust engine: one entry per known peer.
pub struct TrustEngine {
    scores: Vec<TrustScore>,
    counts: Ghost<Map<Seq<char>, (u32, u32)>>,
}

impl TrustEngine {
    /// The relay record of each known peer: successes and failures.
    pub closed spec fn spec_counts(&self) -> Map<Seq<char>, (u32, u32)> {
        self.counts@
    }

    /// The entries are one per peer, agree with the record, and each holds
    /// the score its counts call for.
    pub closed spec fn wf(&self) -> bool {
        &&& forall|i: int, j: int|
            #![trigger self.scores@[i], self.scores@[j]]
            0 <= i < j < self.scores@.len() ==> self.scores@[i].peer_id@ != self.scores@[j].peer_id@
        &&& forall|i: int|
            0 <= i < self.scores@.len() ==> {
                let e = #[trigger] self.scores@[i];
                &&& self.counts@.contains_key(e.peer_id@)
                &&& self.counts@[e.peer_id@] == (e.successful_relays, e.failed_relays)
                &&& e.score == trust_value(e.successful_relays as nat, e.failed_relays as nat)
            }
        &&& forall|k: Seq<char>|
            #[trigger] self.counts@.contains_key(k) ==> exists|i: int|
                0 <= i < self.scores@.len() && (#[trigger] self.scores@[i]).peer_id@ == k
    }

    /// An engine that knows no peer.
    pub fn new() -> (e: Self)
        ensures
            e.wf(),
            e.spec_counts() == Map::<Seq<char>, (u32, u32)>::empty(),
    {
        TrustEngine { scores: Vec::new(), counts: Ghost(Map::empty()) }
    }

    /// The position of `peer`'s entry, if it has one.
    fn position_of(&self, peer_id: &PeerId) -> (r: Option<usize>)
        requires
            self.wf(),
        ensures
            r matches Some(i) ==> i < self.scores@.len() && self.scores@[i as int].peer_id@ == peer_id@,
            r is None ==> !self.spec_counts().contains_key(peer_id@),
    {
        let n = self.scores.len();
        let mut i: usize = 0;
        while i < n
            invariant
                n == self.scores@.len(),
                i <= n,
                forall|k: int| 0 <= k < i ==> (#[trigger] self.scores@[k]).peer_id@ != peer_id@,
            decreases n - i,
        {
            if self.scores[i].peer_id.same_as(peer_id) {
                return Some(i);
            }
            i = i + 1;
        }
        None
    }

    /// The trust in `peer_id`, in units of 10^-18: one half for an unknown
    /// peer.
    pub fn get_score(&self, peer_id: &PeerId) -> (score: u64)
        requires
            self.wf(),
        ensures
            self.spec_counts().contains_key(peer_id@) ==> score == trust_value(
                self.spec_counts()[peer_id@].0 as nat,
                self.spec_counts()[peer_id@].1 as nat,
            ),
            !self.spec_counts().contains_key(peer_id@) ==> score == TRUST_HALF,
            score == score_in(self.spec_counts(), peer_id@),
    {
        match self.position_of(peer_id) {
            Some(i) => {
                assert(self.scores@[i as int].peer_id@ == peer_id@);
                self.scores[i].score
            },
            None => TRUST_HALF,
        }
    }

    /// The score for `s` successes and `f` failures.
    pub fn compute_score(successes: u32, failures: u32) -> (score: u64)
        ensures
            score == trust_value(successes as nat, failures as nat),
    {
        let total: u128 = successes as u128 + failures as u128;
        if total == 0 {
            return TRUST_HALF;
        }
        let num: u128 = (successes as u128 + 1) * (TRUST_UNIT as u128);
        let q = num / (total + 2);
        proof {
            assert(q <= 1_000_000_000_000_000_000) by (nonlinear_arith)
                requires
                    q as int == num as int / (total as int + 2),
                    num == (successes + 1) * 1_000_000_000_000_000_000,
                    total == successes + failures,
            {
                assert(num <= (total + 2) * 1_000_000_000_000_000_000);
            }
        }
        q as u64
    }

    /// Records a relay by `peer_id` that went well (`success`) or not.
    fn record(&mut self, peer_id: &PeerId, success: bool)
        requires
            old(self).wf(),
            old(self).spec_counts().contains_key(peer_id@) ==> old(self).spec_counts()[peer_id@].0
                + old(self).spec_counts()[peer_id@].1 < u32::MAX,
        ensures
            final(self).wf(),
            final(self).spec_counts() == old(self).spec_counts().insert(
                peer_id@,
                if old(self).spec_counts().contains_key(peer_id@) {
                    let (s, f) = old(self).spec_counts()[peer_id@];
                    if success {
                        ((s + 1) as u32, f)
                    } else {
                        (s, (f + 1) as u32)
                    }
                } else if success {
                    (1u32, 0u32)
                } else {
                    (0u32, 1u32)
                },
            ),
    {
        match self.position_of(peer_id) {
            Some(i) => {
                let ghost old_scores = self.scores@;
                let s = self.scores[i].successful_relays;
                let f = self.scores[i].failed_relays;
                let (s2, f2) = if success { (s + 1, f) } else { (s, f + 1) };
                let score = Self::compute_score(s2, f2);
                let pid = self.scores[i].peer_id.clone();
                let entry = TrustScore { peer_id: pid, score, successful_relays: s2, failed_relays: f2 };
                self.scores.set(i, entry);
                proof {
                    self.counts@ = self.counts@.insert(peer_id@, (s2, f2));
                    assert forall|i2: int, j2: int|
                        #![trigger self.scores@[i2], self.scores@[j2]]
                        0 <= i2 < j2 < self.scores@.len() implies self.scores@[i2].peer_id@
                        != self.scores@[j2].peer_id@ by {
                        assert(old_scores[i2].peer_id@ != old_scores[j2].peer_id@);
                    }
                    assert forall|k: Seq<char>| #[trigger] self.counts@.contains_key(k) implies exists|i3: int|
                        0 <= i3 < self.scores@.len() && (#[trigger] self.scores@[i3]).peer_id@ == k by {
                        if k != peer_id@ {
                            let i4 = choose|i4: int| 0 <= i4 < old_scores.len() && (#[trigger] old_scores[i4]).peer_id@ == k;
                            assert(self.scores@[i4].peer_id@ == k);
                        } else {
                            assert(self.scores@[i as int].peer_id@ == k);
                        }
                    }
                    assert forall|i5: int| 0 <= i5 < self.scores@.len() implies {
                        let e = #[trigger] self.scores@[i5];
                        &&& self.counts@.contains_key(e.peer_id@)
                        &&& self.counts@[e.peer_id@] == (e.successful_relays, e.failed_relays)
                        &&& e.score == trust_value(e.successful_relays as nat, e.failed_relays as nat)
                    } by {
                        if i5 != i {
                            assert(old_scores[i5].peer_id@ != old_scores[i as int].peer_id@ || i5 == i as int);
                            if i5 < i {
                                assert(old_scores[i5].peer_id@ != old_scores[i as int].peer_id@);
                            } else {
                                assert(old_scores[i as int].peer_id@ != old_scores[i5].peer_id@);
                            }
                        }
                    }
                }
            },
            None => {
                let ghost old_scores = self.scores@;
                let (s2, f2): (u32, u32) = if success { (1, 0) } else { (0, 1) };
                let score = Self::compute_score(s2, f2);
                let entry = TrustScore { peer_id: peer_id.clone(), score, successful_relays: s2, failed_relays: f2 };
                self.scores.push(entry);
                proof {
                    self.counts@ = self.counts@.insert(peer_id@, (s2, f2));
                    let n = old_scores.len() as int;
                    assert forall|i2: int, j2: int|
                        #![trigger self.scores@[i2], self.scores@[j2]]
                        0 <= i2 < j2 < self.scores@.len() implies self.scores@[i2].peer_id@
                        != self.scores@[j2].peer_id@ by {
                        if j2 < n {
                            assert(old_scores[i2].peer_id@ != old_scores[j2].peer_id@);
                        } else {
                            assert(old(self).counts@.contains_key(old_scores[i2].peer_id@));
                        }
                    }
                    assert forall|k: Seq<char>| #[trigger] self.counts@.contains_key(k) implies exists|i3: int|
                        0 <= i3 < self.scores@.len() && (#[trigger] self.scores@[i3]).peer_id@ == k by {
                        if k != peer_id@ {
                            let i4 = choose|i4: int| 0 <= i4 < old_scores.len() && (#[trigger] old_scores[i4]).peer_id@ == k;
                            assert(self.scores@[i4].peer_id@ == k);
                        } else {
                            assert(self.scores@[n].peer_id@ == k);
                        }
                    }
                    assert forall|i5: int| 0 <= i5 < self.scores@.len() implies {
                        let e = #[trigger] self.scores@[i5];
                        &&& self.counts@.contains_key(e.peer_id@)
                        &&& self.counts@[e.peer_id@] == (e.successful_relays, e.failed_relays)
                        &&& e.score == trust_value(e.successful_relays as nat, e.failed_relays as nat)
                    } by {
                        if i5 < n {
                            assert(old_scores[i5] == self.scores@[i5]);
                            assert(old(self).counts@.contains_key(old_scores[i5].peer_id@));
                        }
                    }
                }
            },
        }
    }

    /// Records a relay by `peer_id` that went well.
    pub fn record_success(&mut self, peer_id: &PeerId)
        requires
            old(self).wf(),
            old(self).spec_counts().contains_key(peer_id@) ==> old(self).spec_counts()[peer_id@].0
                + old(self).spec_counts()[peer_id@].1 < u32::MAX,
        ensures
            final(self).wf(),
            final(self).spec_counts() == old(self).spec_counts().insert(
                peer_id@,
                if old(self).spec_counts().contains_key(peer_id@) {
                    let (s, f) = old(self).spec_counts()[peer_id@];
                    ((s + 1) as u32, f)
                } else {
                    (1u32, 0u32)
                },
            ),
            final(self).spec_counts() == recorded(old(self).spec_counts(), peer_id@, true),
    {
        self.record(peer_id, true)
    }

    /// Records a relay by `peer_id` that failed.
    pub fn record_failure(&mut self, peer_id: &PeerId)
        requires
            old(self).wf(),
            old(self).spec_counts().contains_key(peer_id@) ==> old(self).spec_counts()[peer_id@].0
                + old(self).spec_counts()[peer_id@].1 < u32::MAX,
        ensures
            final(self).wf(),
            final(self).spec_counts() == old(self).spec_counts().insert(
                peer_id@,
                if old(self).spec_counts().contains_key(peer_id@) {
                    let (s, f) = old(self).spec_counts()[peer_id@];
                    (s, (f + 1) as u32)
                } else {
                    (0u32, 1u32)
                },
            ),
            final(self).spec_counts() == recorded(old(self).spec_counts(), peer_id@, false),
    {
        self.record(peer_id, false)
    }
}

impl Default for TrustEngine {
    fn default() -> (e: Self)
        ensures
            e.wf(),
            e.spec_counts() == Map::<Seq<char>, (u32, u32)>::empty(),
    {
        Self::new()
    }
}

/// Law: a score is a fraction strictly between 0 and 1 (for any counts that
/// fit in 32 bits each), an unknown peer's score is one half, and the
/// prior-smoothed formula also gives one half for a peer with no relays.
pub proof fn lemma_trust_is_a_fraction(s: nat, f: nat)
    ensures
        0 <= trust_value(s, f) < TRUST_UNIT,
        s + f + 2 <= TRUST_UNIT ==> 0 < trust_value(s, f),
        trust_value(0, 0) == TRUST_HALF,
        trust_value(s, f) == ((s + 1) * TRUST_UNIT as nat / (s + f + 2)) as int,
{
    let u: int = TRUST_UNIT as int;
    let x: int = ((s + 1) * u) as int;
    let d: int = (s + f + 2) as int;
    assert(0 <= x / d < u) by (nonlinear_arith)
        requires
            x == (s + 1) * u,
            d == s + f + 2,
            u > 0,
            s >= 0,
            f >= 0,
    {
        assert(x < d * u);
    }
    if d <= u {
        assert(0 < x / d) by (nonlinear_arith)
            requires
                x == (s + 1) * u,
                d == s + f + 2,
                d <= u,
                s >= 0,
                f >= 0,
        {
            assert(x >= d);
        }
    }
    assert(u / 2 == TRUST_HALF);
}

/// Law: a successful relay never lowers a peer's trust, and a failed one
/// never raises it.
pub proof fn lemma_trust_monotonic(s: nat, f: nat)
    ensures
        trust_value(s + 1, f) >= trust_value(s, f),
        trust_value(s, f + 1) <= trust_value(s, f),
{
    let m: int = TRUST_UNIT as int;
    let t: int = (s + f) as int;
    let a = (s + 1) * m / (t + 2);
    assert(a * (t + 2) <= (s + 1) * m) by (nonlinear_arith)
        requires
            a == (s + 1) * m / (t + 2),
            t + 2 > 0,
    ;
    assert(a <= m) by (nonlinear_arith)
        requires
            a == (s + 1) * m / (t + 2),
            s <= t,
            m > 0,
    {
        assert((s + 1) * m <= (t + 2) * m);
    }
    // one more success: a still fits under (s + 2) m / (t + 3)
    assert(a <= (s + 2) * m / (t + 3)) by (nonlinear_arith)
        requires
            a * (t + 2) <= (s + 1) * m,
            a <= m,
            t >= 0,
    {
        assert(a * (t + 3) <= (s + 2) * m);
    }
    // one more failure: (s + 1) m / (t + 3) does not exceed a
    let b = (s + 1) * m / (t + 3);
    assert(b <= a) by (nonlinear_arith)
        requires
            b == (s + 1) * m / (t + 3),
            a == (s + 1) * m / (t + 2),
            t >= 0,
            (s + 1) * m >= 0,
    {
        assert(b * (t + 2) <= b * (t + 3));
        assert(b * (t + 3) <= (s + 1) * m);
    }
    lemma_trust_is_a_fraction(s, f);
    lemma_trust_is_a_fraction(s + 1, f);
    lemma_trust_is_a_fraction(s, f + 1);
}

/// Law: a peer's trust after any sequence of successful and failed relays,
/// from an engine that knew nothing, is the prior-smoothed ratio of its
/// successes, (s + 1) / (s + f + 2) in units of 10^-18 (one half after
/// none), whatever the order, and so strictly between 0 and 1; the record
/// of every other peer stays empty.
pub proof fn lemma_trust_after_relays(peer: Seq<char>, other: Seq<char>, outcomes: Seq<bool>)
    requires
        outcomes.len() < u32::MAX,
        other != peer,
    ensures
        score_in(replay(Map::empty(), peer, outcomes), peer) == trust_value(
            count_of(outcomes, true),
            count_of(outcomes, false),
        ),
        outcomes.len() > 0 ==> replay(Map::empty(), peer, outcomes)[peer] == (
            count_of(outcomes, true) as u32,
            count_of(outcomes, false) as u32,
        ),
        !replay(Map::empty(), peer, outcomes).contains_key(other),
        0 < score_in(replay(Map::empty(), peer, outcomes), peer) < TRUST_UNIT,
    decreases outcomes.len(),
{
    lemma_counts_add_up(outcomes);
    if outcomes.len() > 0 {
        lemma_trust_after_relays(peer, other, outcomes.drop_last());
        lemma_counts_add_up(outcomes.drop_last());
    }
    lemma_trust_is_a_fraction(count_of(outcomes, true), count_of(outcomes, false));
}

/// The successes and failures of a sequence of outcomes add up to its
/// length.
proof fn lemma_counts_add_up(outcomes: Seq<bool>)
    ensures
        count_of(outcomes, true) + count_of(outcomes, false) == outcomes.len(),
    decreases outcomes.len(),
{
    if outcomes.len() > 0 {
        lemma_counts_add_up(outcomes.drop_last());
    }
}

} // verus!
