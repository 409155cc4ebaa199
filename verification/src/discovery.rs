//! Discovery of nearby peers over the local radios.

use vstd::prelude::*;
use crate::common::{whole_seconds_between, PeerId, Timestamp, TransportType};
use crate::seq_facts::{lemma_filter_take_step, lemma_split_at_examined, lemma_split_done};

verus! {

/// Errors of discovery.
#[derive(Debug)]
pub enum DiscoveryError {
    ScanFailed(String),
    AdvertiseFailed(String),
    NotSupported(TransportType),
}

/// What a peer can do.
#[derive(Debug, Clone, Copy, PartialEq, Eq, Structural)]
pub struct PeerCapabilities {
    pub supports_ble: bool,
    pub supports_wifi_direct: bool,
    pub supports_internet_relay: bool,
    pub supports_mesh: bool,
    pub max_payload_size: usize,
}

impl Default for PeerCapabilities {
    fn default() -> (c: Self)
        ensures
            c == (PeerCapabilities {
                supports_ble: true,
                supports_wifi_direct: false,
                supports_internet_relay: false,
                supports_mesh: true,
                max_payload_size: 100_000,
            }),
    {
        PeerCapabilities {
            supports_ble: true,
            supports_wifi_direct: false,
            supports_internet_relay: false,
            supports_mesh: true,
            max_payload_size: 100_000,
        }
    }
}

/// A peer seen nearby.
#[derive(Debug)]
pub struct DiscoveredPeer {
    pub peer_id: PeerId,
    pub display_name: Option<String>,
    pub transport_type: TransportType,
    pub rssi: Option<i16>,
    pub discovered_at: Timestamp,
    pub last_seen: Timestamp,
    pub capabilities: PeerCapabilities,
}

/// `after` is `p` seen again at `now`.
pub open spec fn seen_at(p: DiscoveredPeer, now: Timestamp, after: DiscoveredPeer) -> bool {
    &&& after.peer_id@ == p.peer_id@
    &&& after.display_name == p.display_name
    &&& after.transport_type == p.transport_type
    &&& after.rssi == p.rssi
    &&& after.discovered_at == p.discovered_at
    &&& after.capabilities == p.capabilities
    &&& after.last_seen == now
}

/// The peer was last seen no more than `max_age_seconds` (read as a
/// signed 64-bit number) whole seconds before `now`.
pub open spec fn fresh_at(p: DiscoveredPeer, now: Timestamp, max_age_seconds: u64) -> bool {
    whole_seconds_between(p.last_seen, now) <= max_age_seconds as i64
}

/// `i` holds the peer whose identifier reads `id` in `s`.
pub open spec fn holds_peer(s: Seq<DiscoveredPeer>, id: Seq<char>, i: int) -> bool {
    0 <= i < s.len() && s[i].peer_id@ == id
}

/// No peer with identifier `id` in `s`.
pub open spec fn lacks_peer(s: Seq<DiscoveredPeer>, id: Seq<char>) -> bool {
    forall|j: int| 0 <= j < s.len() ==> (#[trigger] s[j]).peer_id@ != id
}

/// No two peers of `s` share an identifier.
pub open spec fn ids_distinct(s: Seq<DiscoveredPeer>) -> bool {
    forall|i: int, j: int|
        #![trigger s[i], s[j]]
        0 <= i < j < s.len() ==> s[i].peer_id@ != s[j].peer_id@
}

/// What recording `peer` as seen at `now` makes of the peers `before`:
/// a peer not known is appended; a known one is replaced in place.
pub open spec fn discovered_outcome(
    before: Seq<DiscoveredPeer>,
    after: Seq<DiscoveredPeer>,
    peer: DiscoveredPeer,
    now: Timestamp,
) -> bool {
    &&& lacks_peer(before, peer.peer_id@) ==> {
        &&& after.len() == before.len() + 1
        &&& after.drop_last() == before
        &&& seen_at(peer, now, after.last())
    }
    &&& forall|i: int| #[trigger] holds_peer(before, peer.peer_id@, i) ==> {
        &&& after.len() == before.len()
        &&& forall|j: int| 0 <= j < before.len() && j != i ==> #[trigger] after[j] == before[j]
        &&& seen_at(peer, now, after[i])
    }
}

/// Removing an entry keeps identifiers distinct.
proof fn lemma_remove_keeps_distinct(s: Seq<DiscoveredPeer>, i: int)
    requires
        ids_distinct(s),
        0 <= i < s.len(),
    ensures
        ids_distinct(s.remove(i)),
{
    let t = s.remove(i);
    assert forall|a: int, b: int| #![trigger t[a], t[b]] 0 <= a < b < t.len() implies t[a].peer_id@ != t[b].peer_id@ by {
        if b < i {
            assert(s[a].peer_id@ != s[b].peer_id@);
        } else if a < i {
            assert(s[a].peer_id@ != s[b + 1].peer_id@);
        } else {
            assert(s[a + 1].peer_id@ != s[b + 1].peer_id@);
        }
    }
}

/// The discovery manager: the peers known nearby and the radio modes.
pub struct DiscoveryManager {
    known_peers: Vec<DiscoveredPeer>,
    is_scanning: bool,
    is_advertising: bool,
}

impl DiscoveryManager {
    /// The peers known nearby, in the order first discovered.
    pub closed spec fn spec_peers(&self) -> Seq<DiscoveredPeer> {
        self.known_peers@
    }

    /// Whether the device scans for peers.
    pub closed spec fn spec_scanning(&self) -> bool {
        self.is_scanning
    }

    /// Whether the device advertises itself.
    pub closed spec fn spec_advertising(&self) -> bool {
        self.is_advertising
    }

    /// One entry per peer.
    pub open spec fn wf(&self) -> bool {
        ids_distinct(self.spec_peers())
    }

    /// A manager that knows no peer, neither scanning nor advertising.
    pub fn new() -> (m: Self)
        ensures
            m.wf(),
            m.spec_peers().len() == 0,
            !m.spec_scanning(),
            !m.spec_advertising(),
    {
        DiscoveryManager { known_peers: Vec::new(), is_scanning: false, is_advertising: false }
    }

    fn position_of(&self, id: &PeerId) -> (r: Option<usize>)
        ensures
            r matches Some(i) ==> holds_peer(self.spec_peers(), id@, i as int),
            r is None ==> lacks_peer(self.spec_peers(), id@),
    {
        let n = self.known_peers.len();
        let mut i: usize = 0;
        while i < n
            invariant
                n == self.known_peers@.len(),
                i <= n,
                forall|j: int| 0 <= j < i ==> (#[trigger] self.known_peers@[j]).peer_id@ != id@,
            decreases n - i,
        {
            if self.known_peers[i].peer_id.same_as(id) {
                return Some(i);
            }
            i = i + 1;
        }
        None
    }

    /// Records `peer` as seen at `now`, replacing what was known of it.
    pub fn on_peer_discovered_at(&mut self, peer: DiscoveredPeer, now: Timestamp)
        requires
            old(self).wf(),
        ensures
            final(self).wf(),
            final(self).spec_scanning() == old(self).spec_scanning(),
            final(self).spec_advertising() == old(self).spec_advertising(),
            discovered_outcome(old(self).spec_peers(), final(self).spec_peers(), peer, now),
    {
        let mut peer = peer;
        let ghost original = peer;
        peer.last_seen = now;
        match self.position_of(&peer.peer_id) {
            Some(i) => {
                let ghost before = self.known_peers@;
                self.known_peers.set(i, peer);
                proof {
                    assert forall|i2: int| #[trigger] holds_peer(before, original.peer_id@, i2) implies i2 == i by {
                        if i2 != i {
                            if i2 < i {
                                assert(before[i2].peer_id@ != before[i as int].peer_id@);
                            } else {
                                assert(before[i as int].peer_id@ != before[i2].peer_id@);
                            }
                        }
                    }
                    assert forall|a: int, b: int|
                        #![trigger self.known_peers@[a], self.known_peers@[b]]
                        0 <= a < b < self.known_peers@.len() implies self.known_peers@[a].peer_id@
                        != self.known_peers@[b].peer_id@ by {
                        assert(before[a].peer_id@ != before[b].peer_id@);
                    }
                }
            },
            None => {
                let ghost before = self.known_peers@;
                self.known_peers.push(peer);
                proof {
                    assert(self.known_peers@.drop_last() =~= before);
                    assert forall|a: int, b: int|
                        #![trigger self.known_peers@[a], self.known_peers@[b]]
                        0 <= a < b < self.known_peers@.len() implies self.known_peers@[a].peer_id@
                        != self.known_peers@[b].peer_id@ by {
                        if b < before.len() {
                            assert(before[a].peer_id@ != before[b].peer_id@);
                        } else {
                            assert(before[a].peer_id@ != original.peer_id@);
                        }
                    }
                }
            },
        }
    }

    /// Records `peer` as seen now, by the system clock.
    pub fn on_peer_discovered(&mut self, peer: DiscoveredPeer)
        requires
            old(self).wf(),
        ensures
            final(self).wf(),
            final(self).spec_scanning() == old(self).spec_scanning(),
            final(self).spec_advertising() == old(self).spec_advertising(),
            exists|now: Timestamp|
                #[trigger] discovered_outcome(old(self).spec_peers(), final(self).spec_peers(), peer, now),
    {
        let now = Timestamp::now();
        self.on_peer_discovered_at(peer, now);
    }

    /// Forgets peer `peer_id`.
    pub fn on_peer_lost(&mut self, peer_id: &PeerId)
        requires
            old(self).wf(),
        ensures
            final(self).wf(),
            final(self).spec_scanning() == old(self).spec_scanning(),
            final(self).spec_advertising() == old(self).spec_advertising(),
            lacks_peer(old(self).spec_peers(), peer_id@) ==> final(self).spec_peers() == old(self).spec_peers(),
            forall|i: int| #[trigger] holds_peer(old(self).spec_peers(), peer_id@, i) ==> final(self).spec_peers() == old(self).spec_peers().remove(i),
    {
        match self.position_of(peer_id) {
            Some(i) => {
                let ghost before = self.known_peers@;
                let _p = self.known_peers.remove(i);
                proof {
                    assert forall|i2: int| #[trigger] holds_peer(before, peer_id@, i2) implies i2 == i by {
                        if i2 != i {
                            if i2 < i {
                                assert(before[i2].peer_id@ != before[i as int].peer_id@);
                            } else {
                                assert(before[i as int].peer_id@ != before[i2].peer_id@);
                            }
                        }
                    }
                    lemma_remove_keeps_distinct(before, i as int);
                }
            },
            None => {},
        }
    }

    /// Every peer known nearby.
    pub fn get_nearby_peers(&self) -> (r: Vec<&DiscoveredPeer>)
        ensures
            r@.len() == self.spec_peers().len(),
            forall|k: int| 0 <= k < r@.len() ==> *#[trigger] r@[k] == self.spec_peers()[k],
    {
        let mut r: Vec<&DiscoveredPeer> = Vec::new();
        let n = self.known_peers.len();
        let mut i: usize = 0;
        while i < n
            invariant
                n == self.known_peers@.len(),
                i <= n,
                r@.len() == i,
                forall|k: int| 0 <= k < i ==> *#[trigger] r@[k] == self.known_peers@[k],
            decreases n - i,
        {
            r.push(&self.known_peers[i]);
            i = i + 1;
        }
        r
    }

    /// What is known of peer `id`, if anything.
    pub fn get_peer(&self, id: &PeerId) -> (r: Option<&DiscoveredPeer>)
        ensures
            r matches Some(p) ==> exists|i: int| holds_peer(self.spec_peers(), id@, i) && *p == self.spec_peers()[i],
            r is None ==> lacks_peer(self.spec_peers(), id@),
    {
        match self.position_of(id) {
            Some(i) => Some(&self.known_peers[i]),
            None => None,
        }
    }

    /// Forgets the peers not seen within `max_age_seconds` of `now`, and
    /// returns how many were forgotten.
    pub fn purge_stale_at(&mut self, max_age_seconds: u64, now: Timestamp) -> (dropped: usize)
        requires
            old(self).wf(),
        ensures
            final(self).wf(),
            final(self).spec_scanning() == old(self).spec_scanning(),
            final(self).spec_advertising() == old(self).spec_advertising(),
            final(self).spec_peers() == fresh_peers(old(self).spec_peers(), now, max_age_seconds),
            dropped == old(self).spec_peers().len() - final(self).spec_peers().len(),
    {
        let ghost orig = self.known_peers@;
        let ghost keep = |p: DiscoveredPeer| fresh_at(p, now, max_age_seconds);
        let limit: i128 = max_age_seconds as i64 as i128;
        let mut i: usize = 0;
        let mut j: usize = 0;
        let n = self.known_peers.len();
        while j < n
            invariant
                n == orig.len(),
                j <= n,
                self.is_scanning == old(self).is_scanning,
                self.is_advertising == old(self).is_advertising,
                limit == max_age_seconds as i64 as int,
                self.known_peers@ == orig.take(j as int).filter(keep) + orig.skip(j as int),
                i == orig.take(j as int).filter(keep).len(),
                forall|p: DiscoveredPeer| #[trigger] keep(p) == fresh_at(p, now, max_age_seconds),
                ids_distinct(self.known_peers@),
            decreases n - j,
        {
            proof {
                lemma_split_at_examined(orig, keep, j as int, self.known_peers@);
            }
            let ghost before = self.known_peers@;
            assert(before[i as int] == orig[j as int]);
            let age = self.known_peers[i].last_seen.seconds_until(&now);
            if age <= limit {
                assert(keep(orig[j as int]));
                i = i + 1;
            } else {
                assert(!keep(orig[j as int]));
                let _p = self.known_peers.remove(i);
                assert(self.known_peers@ == before.remove(i as int));
                proof {
                    lemma_remove_keeps_distinct(before, i as int);
                }
            }
            proof {
                lemma_filter_take_step(orig, keep, j as int);
            }
            j = j + 1;
        }
        proof {
            lemma_split_done(orig, keep);
        }
        n - self.known_peers.len()
    }

    /// Forgets the peers not seen within `max_age_seconds`, by the system
    /// clock, and returns how many were forgotten.
    pub fn purge_stale(&mut self, max_age_seconds: u64) -> (dropped: usize)
        requires
            old(self).wf(),
        ensures
            final(self).wf(),
            final(self).spec_scanning() == old(self).spec_scanning(),
            final(self).spec_advertising() == old(self).spec_advertising(),
            exists|now: Timestamp|
                final(self).spec_peers() == #[trigger] fresh_peers(old(self).spec_peers(), now, max_age_seconds),
            dropped == old(self).spec_peers().len() - final(self).spec_peers().len(),
    {
        self.purge_stale_at(max_age_seconds, Timestamp::now())
    }

    /// Turns scanning on or off.
    pub fn set_scanning(&mut self, active: bool)
        ensures
            final(self).spec_scanning() == active,
            final(self).spec_advertising() == old(self).spec_advertising(),
            final(self).spec_peers() == old(self).spec_peers(),
    {
        self.is_scanning = active;
    }

    /// Turns advertising on or off.
    pub fn set_advertising(&mut self, active: bool)
        ensures
            final(self).spec_advertising() == active,
            final(self).spec_scanning() == old(self).spec_scanning(),
            final(self).spec_peers() == old(self).spec_peers(),
    {
        self.is_advertising = active;
    }

    /// Whether the device scans for peers.
    pub fn is_scanning(&self) -> (b: bool)
        ensures
            b == self.spec_scanning(),
    {
        self.is_scanning
    }

    /// Whether the device advertises itself.
    pub fn is_advertising(&self) -> (b: bool)
        ensures
            b == self.spec_advertising(),
    {
        self.is_advertising
    }
}

/// The peers of `s` seen recently enough at `now`, in order.
pub open spec fn fresh_peers(s: Seq<DiscoveredPeer>, now: Timestamp, max_age_seconds: u64) -> Seq<DiscoveredPeer> {
    s.filter(|p: DiscoveredPeer| fresh_at(p, now, max_age_seconds))
}

impl Default for DiscoveryManager {
    fn default() -> (m: Self)
        ensures
            m.wf(),
            m.spec_peers().len() == 0,
            !m.spec_scanning(),
            !m.spec_advertising(),
    {
        Self::new()
    }
}

/// Law: a peer that was known and is then lost is no longer known.
pub proof fn lemma_discover_then_lose(m1: DiscoveryManager, m2: DiscoveryManager, id: Seq<char>)
    requires
        m1.wf(),
        exists|i: int| holds_peer(m1.spec_peers(), id, i),
        forall|i: int| #[trigger] holds_peer(m1.spec_peers(), id, i) ==> m2.spec_peers() == m1.spec_peers().remove(i),
    ensures
        lacks_peer(m2.spec_peers(), id),
{
    let i = choose|i: int| holds_peer(m1.spec_peers(), id, i);
    assert forall|j: int| 0 <= j < m2.spec_peers().len() implies (#[trigger] m2.spec_peers()[j]).peer_id@ != id by {
        if j < i {
            assert(m1.spec_peers()[j].peer_id@ != m1.spec_peers()[i].peer_id@);
        } else {
            assert(m1.spec_peers()[i].peer_id@ != m1.spec_peers()[j + 1].peer_id@);
        }
    }
}

/// Law: a peer that is discovered is then known, once, seen at the time
/// of its discovery.
pub proof fn lemma_discovered_is_known(
    before: Seq<DiscoveredPeer>,
    after: Seq<DiscoveredPeer>,
    peer: DiscoveredPeer,
    now: Timestamp,
)
    requires
        ids_distinct(before),
        ids_distinct(after),
        discovered_outcome(before, after, peer, now),
    ensures
        exists|i: int| #[trigger] holds_peer(after, peer.peer_id@, i) && after[i].last_seen == now,
        forall|i: int, j: int|
            holds_peer(after, peer.peer_id@, i) && holds_peer(after, peer.peer_id@, j) ==> i == j,
{
    if lacks_peer(before, peer.peer_id@) {
        assert(holds_peer(after, peer.peer_id@, after.len() - 1));
    } else {
        let k = choose|k: int| 0 <= k < before.len() && before[k].peer_id@ == peer.peer_id@;
        assert(holds_peer(before, peer.peer_id@, k));
        assert(holds_peer(after, peer.peer_id@, k));
    }
    assert forall|i: int, j: int|
        holds_peer(after, peer.peer_id@, i) && holds_peer(after, peer.peer_id@, j) implies i == j by {
        if i < j {
            assert(after[i].peer_id@ != after[j].peer_id@);
        } else if j < i {
            assert(after[j].peer_id@ != after[i].peer_id@);
        }
    }
}

/// Law: losing a peer right after discovering it for the first time gives
/// back exactly the peers known before.
pub proof fn lemma_lose_undoes_discover(
    before: Seq<DiscoveredPeer>,
    mid: Seq<DiscoveredPeer>,
    after: Seq<DiscoveredPeer>,
    peer: DiscoveredPeer,
    now: Timestamp,
)
    requires
        lacks_peer(before, peer.peer_id@),
        discovered_outcome(before, mid, peer, now),
        forall|i: int| #[trigger] holds_peer(mid, peer.peer_id@, i) ==> after == mid.remove(i),
    ensures
        after == before,
{
    let last = mid.len() - 1;
    assert(holds_peer(mid, peer.peer_id@, last));
    assert(mid.remove(last) =~= mid.drop_last());
}

} // verus!
