//! Delay-tolerant mesh forwarding: packets hop from device to device until
//! they reach their recipient, their time-to-live runs out or they have
//! made their maximum number of hops; each message is handled once.

use vstd::prelude::*;
use std::collections::HashSet;
use crate::common::{whole_seconds_between, MessageId, PeerId, Timestamp, UserId};
use crate::seq_facts::{lemma_filter_take_step, lemma_split_at_examined, lemma_split_done};

verus! {

broadcast use vstd::std_specs::hash::group_hash_axioms;

/// Errors of mesh forwarding.
#[derive(Debug)]
pub enum MeshError {
    TTLExpired(MessageId),
    MaxHopsReached(MessageId),
    DuplicateMessage(MessageId),
    NoRelayAvailable,
    RelayFailed(String),
}

/// A packet travelling through the mesh.
#[derive(Debug)]
pub struct MeshPacket {
    pub message_id: MessageId,
    pub sender: UserId,
    pub recipient: UserId,
    pub encrypted_payload: Vec<u8>,
    pub signature: Vec<u8>,
    pub nonce: Vec<u8>,
    pub ttl_seconds: u32,
    pub created_at: Timestamp,
    pub hop_count: u8,
    pub max_hops: u8,
    /// The peers that have relayed the packet so far, in order.
    pub relay_path: Vec<PeerId>,
}

/// The packet's time-to-live has run out at `now`: more whole seconds have
/// passed since its creation than its time-to-live.
pub open spec fn expired_at(p: MeshPacket, now: Timestamp) -> bool {
    whole_seconds_between(p.created_at, now) > p.ttl_seconds
}

/// The packet may make one more hop at `now`.
pub open spec fn may_hop_at(p: MeshPacket, now: Timestamp) -> bool {
    p.hop_count < p.max_hops && !expired_at(p, now)
}

/// `peer` has already relayed the packet.
pub open spec fn relayed_by(p: MeshPacket, peer: Seq<char>) -> bool {
    exists|i: int| 0 <= i < p.relay_path@.len() && (#[trigger] p.relay_path@[i])@ == peer
}

/// What becomes of an incoming packet.
#[derive(Debug)]
pub enum MeshAction {
    DeliverLocally(MeshPacket),
    RelayForward(MeshPacket),
    Duplicate,
    Expired,
    MaxHopsReached,
}

/// The action for an incoming packet, given the identifiers already seen,
/// the local user and the time: a seen message is a duplicate; otherwise an
/// expired one is dropped, one for the local user is delivered, one that
/// may not hop any more is dropped, and the rest are relayed.
pub open spec fn incoming_action(seen: Set<u128>, p: MeshPacket, me: Seq<char>, now: Timestamp) -> MeshAction {
    if seen.contains(p.message_id.0) {
        MeshAction::Duplicate
    } else if expired_at(p, now) {
        MeshAction::Expired
    } else if p.recipient@ == me {
        MeshAction::DeliverLocally(p)
    } else if !may_hop_at(p, now) {
        MeshAction::MaxHopsReached
    } else {
        MeshAction::RelayForward(p)
    }
}

impl MeshPacket {
    /// Whether the time-to-live has run out at `now`.
    pub fn is_expired_at(&self, now: Timestamp) -> (b: bool)
        ensures
            b == expired_at(*self, now),
    {
        let age = self.created_at.seconds_until(&now);
        age > self.ttl_seconds as i128
    }

    /// Whether the time-to-live has run out, by the system clock.
    pub fn is_expired(&self) -> (b: bool)
        ensures
            exists|now: Timestamp| b == #[trigger] expired_at(*self, now),
    {
        self.is_expired_at(Timestamp::now())
    }

    /// Whether the packet may make one more hop at `now`.
    pub fn can_hop_at(&self, now: Timestamp) -> (b: bool)
        ensures
            b == may_hop_at(*self, now),
    {
        self.hop_count < self.max_hops && !self.is_expired_at(now)
    }

    /// Whether the packet may make one more hop, by the system clock.
    pub fn can_hop(&self) -> (b: bool)
        ensures
            exists|now: Timestamp| b == #[trigger] may_hop_at(*self, now),
    {
        self.can_hop_at(Timestamp::now())
    }

    /// Records one more hop, through `relay`.
    pub fn increment_hop(&mut self, relay: PeerId)
        requires
            old(self).hop_count < u8::MAX,
        ensures
            final(self).hop_count == old(self).hop_count + 1,
            final(self).relay_path@ == old(self).relay_path@.push(relay),
            final(self).message_id == old(self).message_id,
            final(self).recipient == old(self).recipient,
            final(self).ttl_seconds == old(self).ttl_seconds,
            final(self).created_at == old(self).created_at,
            final(self).max_hops == old(self).max_hops,
    {
        self.hop_count = self.hop_count + 1;
        self.relay_path.push(relay);
    }

    /// Whether `peer` has already relayed the packet.
    pub fn relayed_by_peer(&self, peer: &PeerId) -> (b: bool)
        ensures
            b == relayed_by(*self, peer@),
    {
        let n = self.relay_path.len();
        let mut i: usize = 0;
        while i < n
            invariant
                n == self.relay_path@.len(),
                i <= n,
                forall|k: int| 0 <= k < i ==> (#[trigger] self.relay_path@[k])@ != peer@,
            decreases n - i,
        {
            if self.relay_path[i].same_as(peer) {
                return true;
            }
            i = i + 1;
        }
        false
    }
}

/// The mesh engine: the identifiers of the messages it has handled and the
/// packets it holds for relaying.
pub struct MeshEngine {
    seen_messages: HashSet<u128>,
    queued_packets: Vec<MeshPacket>,
}

/// The packets a peer can take at `now`: those it has not relayed yet and
/// that may still hop.
pub open spec fn pending_for(q: Seq<MeshPacket>, peer: Seq<char>, now: Timestamp) -> Seq<MeshPacket> {
    q.filter(|p: MeshPacket| !relayed_by(p, peer) && may_hop_at(p, now))
}

/// The packets of `q` still alive at `now`.
pub open spec fn unexpired(q: Seq<MeshPacket>, now: Timestamp) -> Seq<MeshPacket> {
    q.filter(|p: MeshPacket| !expired_at(p, now))
}

impl MeshEngine {
    /// The identifiers of the messages handled so far.
    pub closed spec fn spec_seen(&self) -> Set<u128> {
        self.seen_messages@
    }

    /// The packets held for relaying, in the order they were queued.
    pub closed spec fn spec_queued(&self) -> Seq<MeshPacket> {
        self.queued_packets@
    }

    /// An engine that has seen nothing and holds nothing.
    pub fn new() -> (e: Self)
        ensures
            e.spec_seen() == Set::<u128>::empty(),
            e.spec_queued().len() == 0,
    {
        MeshEngine { seen_messages: HashSet::new(), queued_packets: Vec::new() }
    }

    /// Holds `packet` for relaying, if it is alive and may hop at `now`.
    pub fn queue_for_mesh_at(&mut self, packet: MeshPacket, now: Timestamp) -> (r: Result<(), MeshError>)
        ensures
            final(self).spec_seen() == old(self).spec_seen(),
            expired_at(packet, now) ==> (r matches Err(MeshError::TTLExpired(id)) && id
                == packet.message_id && final(self).spec_queued() == old(self).spec_queued()),
            !expired_at(packet, now) && !may_hop_at(packet, now) ==> (r matches Err(
                MeshError::MaxHopsReached(id),
            ) && id == packet.message_id && final(self).spec_queued() == old(self).spec_queued()),
            may_hop_at(packet, now) ==> (r is Ok && final(self).spec_queued() == old(
                self,
            ).spec_queued().push(packet)),
    {
        if packet.is_expired_at(now) {
            return Err(MeshError::TTLExpired(packet.message_id));
        }
        if !packet.can_hop_at(now) {
            return Err(MeshError::MaxHopsReached(packet.message_id));
        }
        self.queued_packets.push(packet);
        Ok(())
    }

    /// Holds `packet` for relaying, if it is alive and may hop, by the
    /// system clock.
    pub fn queue_for_mesh(&mut self, packet: MeshPacket) -> (r: Result<(), MeshError>)
        ensures
            final(self).spec_seen() == old(self).spec_seen(),
            exists|now: Timestamp| {
                &&& expired_at(packet, now) ==> (r matches Err(MeshError::TTLExpired(id)) && id
                    == packet.message_id && final(self).spec_queued() == old(self).spec_queued())
                &&& !expired_at(packet, now) && !may_hop_at(packet, now) ==> (r matches Err(
                    MeshError::MaxHopsReached(id),
                ) && id == packet.message_id && final(self).spec_queued() == old(
                    self,
                ).spec_queued())
                &&& #[trigger] may_hop_at(packet, now) ==> (r is Ok && final(self).spec_queued()
                    == old(self).spec_queued().push(packet))
            },
    {
        let now = Timestamp::now();
        self.queue_for_mesh_at(packet, now)
    }

    /// Whether the message `id` has been handled before.
    pub fn is_duplicate(&self, id: &MessageId) -> (b: bool)
        ensures
            b == self.spec_seen().contains(id.0),
    {
        self.seen_messages.contains(&id.0)
    }

    /// Records the message `id` as handled.
    pub fn mark_seen(&mut self, id: &MessageId)
        ensures
            final(self).spec_seen() == old(self).spec_seen().insert(id.0),
            final(self).spec_queued() == old(self).spec_queued(),
    {
        self.seen_messages.insert(id.0);
    }

    /// Decides what becomes of an incoming packet at `now`, recording its
    /// message as handled.
    pub fn process_incoming_at(&mut self, packet: MeshPacket, my_user_id: &UserId, now: Timestamp) -> (a: MeshAction)
        ensures
            a == incoming_action(old(self).spec_seen(), packet, my_user_id@, now),
            final(self).spec_seen() == old(self).spec_seen().insert(packet.message_id.0),
            final(self).spec_queued() == old(self).spec_queued(),
    {
        if self.is_duplicate(&packet.message_id) {
            assert(old(self).spec_seen().insert(packet.message_id.0) =~= old(self).spec_seen());
            return MeshAction::Duplicate;
        }
        self.mark_seen(&packet.message_id);
        if packet.is_expired_at(now) {
            return MeshAction::Expired;
        }
        if packet.recipient.same_as(my_user_id) {
            return MeshAction::DeliverLocally(packet);
        }
        if !packet.can_hop_at(now) {
            return MeshAction::MaxHopsReached;
        }
        MeshAction::RelayForward(packet)
    }

    /// Decides what becomes of an incoming packet, by the system clock,
    /// recording its message as handled.
    pub fn process_incoming(&mut self, packet: MeshPacket, my_user_id: &UserId) -> (a: MeshAction)
        ensures
            exists|now: Timestamp| a == #[trigger] incoming_action(old(self).spec_seen(), packet, my_user_id@, now),
            final(self).spec_seen() == old(self).spec_seen().insert(packet.message_id.0),
            final(self).spec_queued() == old(self).spec_queued(),
    {
        let now = Timestamp::now();
        self.process_incoming_at(packet, my_user_id, now)
    }

    /// The held packets that `peer` can take at `now`, in the order held.
    pub fn get_pending_for_relay_at(&self, peer: &PeerId, now: Timestamp) -> (r: Vec<&MeshPacket>)
        ensures
            r@.map_values(|p: &MeshPacket| *p) == pending_for(self.spec_queued(), peer@, now),
    {
        let ghost q = self.queued_packets@;
        let ghost keep = |p: MeshPacket| !relayed_by(p, peer@) && may_hop_at(p, now);
        let mut r: Vec<&MeshPacket> = Vec::new();
        let n = self.queued_packets.len();
        let mut j: usize = 0;
        while j < n
            invariant
                n == q.len(),
                q == self.queued_packets@,
                j <= n,
                forall|p: MeshPacket| #[trigger] keep(p) == (!relayed_by(p, peer@) && may_hop_at(p, now)),
                r@.map_values(|p: &MeshPacket| *p) == q.take(j as int).filter(keep),
            decreases n - j,
        {
            proof {
                lemma_filter_take_step(q, keep, j as int);
            }
            let p = &self.queued_packets[j];
            if !p.relayed_by_peer(peer) && !p.is_expired_at(now) && p.can_hop_at(now) {
                r.push(p);
                assert(r@.map_values(|p: &MeshPacket| *p) =~= q.take(j as int).filter(keep).push(q[j as int]));
            }
            j = j + 1;
        }
        assert(q.take(n as int) =~= q);
        r
    }

    /// The held packets that `peer` can take, by the system clock.
    pub fn get_pending_for_relay(&self, peer: &PeerId) -> (r: Vec<&MeshPacket>)
        ensures
            exists|now: Timestamp| r@.map_values(|p: &MeshPacket| *p) == #[trigger] pending_for(self.spec_queued(), peer@, now),
    {
        self.get_pending_for_relay_at(peer, Timestamp::now())
    }

    /// Drops the held packets of message `id`.
    pub fn remove_delivered(&mut self, id: &MessageId)
        ensures
            final(self).spec_seen() == old(self).spec_seen(),
            final(self).spec_queued() == old(self).spec_queued().filter(|p: MeshPacket| p.message_id != *id),
    {
        let ghost orig = self.queued_packets@;
        let ghost keep = |p: MeshPacket| p.message_id != *id;
        let mut i: usize = 0;
        let mut j: usize = 0;
        let n = self.queued_packets.len();
        while j < n
            invariant
                n == orig.len(),
                j <= n,
                self.seen_messages@ == old(self).seen_messages@,
                self.queued_packets@ == orig.take(j as int).filter(keep) + orig.skip(j as int),
                i == orig.take(j as int).filter(keep).len(),
                forall|p: MeshPacket| #[trigger] keep(p) == (p.message_id != *id),
            decreases n - j,
        {
            proof {
                lemma_split_at_examined(orig, keep, j as int, self.queued_packets@);
            }
            let ghost before = self.queued_packets@;
            assert(before[i as int] == orig[j as int]);
            if self.queued_packets[i].message_id.0 == id.0 {
                assert(!keep(orig[j as int]));
                let _p = self.queued_packets.remove(i);
                assert(self.queued_packets@ == before.remove(i as int));
            } else {
                assert(keep(orig[j as int]));
                i = i + 1;
            }
            proof {
                lemma_filter_take_step(orig, keep, j as int);
            }
            j = j + 1;
        }
        proof {
            lemma_split_done(orig, keep);
        }
    }

    /// Drops the held packets whose time-to-live has run out at `now`, and
    /// returns how many were dropped.
    pub fn purge_expired_at(&mut self, now: Timestamp) -> (dropped: usize)
        ensures
            final(self).spec_seen() == old(self).spec_seen(),
            final(self).spec_queued() == unexpired(old(self).spec_queued(), now),
            dropped == old(self).spec_queued().len() - final(self).spec_queued().len(),
    {
        let ghost orig = self.queued_packets@;
        let ghost keep = |p: MeshPacket| !expired_at(p, now);
        let mut i: usize = 0;
        let mut j: usize = 0;
        let n = self.queued_packets.len();
        while j < n
            invariant
                n == orig.len(),
                j <= n,
                self.seen_messages@ == old(self).seen_messages@,
                self.queued_packets@ == orig.take(j as int).filter(keep) + orig.skip(j as int),
                i == orig.take(j as int).filter(keep).len(),
                forall|p: MeshPacket| #[trigger] keep(p) == !expired_at(p, now),
            decreases n - j,
        {
            proof {
                lemma_split_at_examined(orig, keep, j as int, self.queued_packets@);
            }
            let ghost before = self.queued_packets@;
            assert(before[i as int] == orig[j as int]);
            if self.queued_packets[i].is_expired_at(now) {
                assert(!keep(orig[j as int]));
                let _p = self.queued_packets.remove(i);
                assert(self.queued_packets@ == before.remove(i as int));
            } else {
                assert(keep(orig[j as int]));
                i = i + 1;
            }
            proof {
                lemma_filter_take_step(orig, keep, j as int);
            }
            j = j + 1;
        }
        proof {
            lemma_split_done(orig, keep);
        }
        n - self.queued_packets.len()
    }

    /// Drops the held packets whose time-to-live has run out, by the system
    /// clock, and returns how many were dropped.
    pub fn purge_expired(&mut self) -> (dropped: usize)
        ensures
            final(self).spec_seen() == old(self).spec_seen(),
            exists|now: Timestamp| final(self).spec_queued() == #[trigger] unexpired(old(self).spec_queued(), now),
            dropped == old(self).spec_queued().len() - final(self).spec_queued().len(),
    {
        self.purge_expired_at(Timestamp::now())
    }
}

impl Default for MeshEngine {
    fn default() -> (e: Self)
        ensures
            e.spec_seen() == Set::<u128>::empty(),
            e.spec_queued().len() == 0,
    {
        Self::new()
    }
}

/// Law: a message is handled once; once a packet has been processed, any
/// packet of the same message that comes later is a duplicate, whenever it
/// comes.
pub proof fn lemma_redelivery_is_duplicate(
    seen: Set<u128>,
    first: MeshPacket,
    again: MeshPacket,
    me: Seq<char>,
    now: Timestamp,
)
    requires
        again.message_id == first.message_id,
    ensures
        incoming_action(seen.insert(first.message_id.0), again, me, now) is Duplicate,
{
}

/// Law: a packet addressed to the local user is never relayed, and a
/// relayed packet is alive and may still hop.
pub proof fn lemma_relay_only_foreign_live_packets(
    seen: Set<u128>,
    p: MeshPacket,
    me: Seq<char>,
    now: Timestamp,
)
    ensures
        incoming_action(seen, p, me, now) is RelayForward ==> p.recipient@ != me && may_hop_at(p, now)
            && !seen.contains(p.message_id.0),
        incoming_action(seen, p, me, now) is DeliverLocally ==> p.recipient@ == me && !expired_at(p, now),
{
}

/// Law: a packet whose hop count has reached its maximum is never offered
/// to a peer, and neither is one the peer has already relayed.
pub proof fn lemma_pending_packets_may_hop(q: Seq<MeshPacket>, peer: Seq<char>, now: Timestamp, k: int)
    requires
        0 <= k < pending_for(q, peer, now).len(),
    ensures
        pending_for(q, peer, now)[k].hop_count < pending_for(q, peer, now)[k].max_hops,
        !relayed_by(pending_for(q, peer, now)[k], peer),
{
    let f = |p: MeshPacket| !relayed_by(p, peer) && may_hop_at(p, now);
    broadcast use vstd::seq_lib::group_filter_ensures;

    assert(f(q.filter(f)[k]));
}

/// Law: a held packet that may still hop is offered to every peer that
/// has not relayed it yet: store and forward loses nothing while the packet
/// lives.
pub proof fn lemma_live_packets_are_offered(q: Seq<MeshPacket>, peer: Seq<char>, now: Timestamp, i: int)
    requires
        0 <= i < q.len(),
        may_hop_at(q[i], now),
        !relayed_by(q[i], peer),
    ensures
        pending_for(q, peer, now).contains(q[i]),
{
    let f = |p: MeshPacket| !relayed_by(p, peer) && may_hop_at(p, now);
    broadcast use vstd::seq_lib::group_filter_ensures;

    assert(f(q[i]));
}

/// Law: a new, live packet addressed to the local user is delivered,
/// whatever its hop count; one for someone else is dropped once its hop
/// count has reached its maximum and relayed otherwise; a seen message is a
/// duplicate and a new expired one is dropped as expired.
pub proof fn lemma_incoming_packet_fate(seen: Set<u128>, p: MeshPacket, me: Seq<char>, now: Timestamp)
    ensures
        seen.contains(p.message_id.0) ==> incoming_action(seen, p, me, now) is Duplicate,
        !seen.contains(p.message_id.0) && whole_seconds_between(p.created_at, now) > p.ttl_seconds
            ==> incoming_action(seen, p, me, now) is Expired,
        !seen.contains(p.message_id.0) && whole_seconds_between(p.created_at, now) <= p.ttl_seconds
            && p.recipient@ == me ==> incoming_action(seen, p, me, now) == MeshAction::DeliverLocally(p),
        !seen.contains(p.message_id.0) && whole_seconds_between(p.created_at, now) <= p.ttl_seconds
            && p.recipient@ != me && p.hop_count >= p.max_hops ==> incoming_action(seen, p, me, now) is MaxHopsReached,
        !seen.contains(p.message_id.0) && whole_seconds_between(p.created_at, now) <= p.ttl_seconds
            && p.recipient@ != me && p.hop_count < p.max_hops ==> incoming_action(seen, p, me, now) is RelayForward,
{
}

} // verus!
