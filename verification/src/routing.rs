//! Adaptive routing: scores each available transport against the context of
//! a message and picks a primary route, a fallback and whether to send over
//! both.
//!
//! Fractions are fixed-point numbers in parts per million (1_000_000 stands
//! for 1.0); a score, the sum of factor times weight, is in units of 10^-12.

use vstd::prelude::*;
use crate::common::{BatteryState, PeerId, TransportFactors, TransportScore, TransportType};
use crate::network_monitor::{ConnectivityStatus, NetworkState};

verus! {

/// One million: the fixed-point value of 1.0.
pub const UNIT: u32 = 1_000_000;

/// Errors of route selection.
#[derive(Debug)]
pub enum RoutingError {
    NoTransportAvailable,
    AllTransportsFailed(Vec<String>),
    InvalidConfiguration(String),
}

/// The weight of each routing factor, in parts per million.
#[derive(Debug, Clone, Copy, PartialEq, Eq, Structural)]
pub struct RoutingWeight {
    pub proximity: u32,
    pub signal_quality: u32,
    pub latency: u32,
    pub throughput_match: u32,
    pub battery_cost: u32,
    pub reliability: u32,
    pub privacy: u32,
    pub congestion: u32,
    pub trust: u32,
}

/// The default weights: 0.15 proximity, 0.12 signal quality, 0.15 latency,
/// 0.10 throughput match, 0.12 battery cost, 0.10 reliability, 0.10
/// privacy, 0.08 congestion, 0.08 trust.
pub open spec fn default_weights() -> RoutingWeight {
    RoutingWeight {
        proximity: 150_000,
        signal_quality: 120_000,
        latency: 150_000,
        throughput_match: 100_000,
        battery_cost: 120_000,
        reliability: 100_000,
        privacy: 100_000,
        congestion: 80_000,
        trust: 80_000,
    }
}

impl Default for RoutingWeight {
    fn default() -> (w: Self)
        ensures
            w == default_weights(),
    {
        RoutingWeight {
            proximity: 150_000,
            signal_quality: 120_000,
            latency: 150_000,
            throughput_match: 100_000,
            battery_cost: 120_000,
            reliability: 100_000,
            privacy: 100_000,
            congestion: 80_000,
            trust: 80_000,
        }
    }
}

/// Priority of a message to route.
#[derive(Debug, Clone, Copy, PartialEq, Eq, Structural)]
pub enum MessagePriority {
    Low,
    Normal,
    High,
    Critical,
}

/// The user's routing preferences.
#[derive(Debug, Clone, Copy, PartialEq, Eq, Structural)]
pub struct UserRoutingPreferences {
    pub prefer_local: bool,
    pub allow_mobile_data: bool,
    pub mesh_enabled: bool,
    pub max_hops: u8,
    pub prefer_battery_saving: bool,
}

impl Default for UserRoutingPreferences {
    fn default() -> (p: Self)
        ensures
            p == (UserRoutingPreferences {
                prefer_local: true,
                allow_mobile_data: false,
                mesh_enabled: true,
                max_hops: 5,
                prefer_battery_saving: false,
            }),
    {
        UserRoutingPreferences {
            prefer_local: true,
            allow_mobile_data: false,
            mesh_enabled: true,
            max_hops: 5,
            prefer_battery_saving: false,
        }
    }
}

/// Everything the router knows about a message and the device's situation.
#[derive(Debug)]
pub struct RoutingContext {
    pub target_peer: PeerId,
    pub payload_size: usize,
    pub message_priority: MessagePriority,
    pub battery_state: BatteryState,
    pub network_state: NetworkState,
    pub available_transports: Vec<TransportType>,
    pub peer_rssi: Option<i16>,
    /// Trust in the peer, in parts per million.
    pub peer_trust_score: u32,
    pub user_preferences: UserRoutingPreferences,
}

/// The route chosen for a message.
#[derive(Debug)]
pub struct RoutingDecision {
    pub primary_transport: TransportType,
    pub fallback_transports: Vec<TransportType>,
    pub use_multipath: bool,
    /// Every available transport with its score, best first.
    pub scores: Vec<TransportScore>,
}

// ───────────────────────────── the scoring model ─────────────────────────────

/// Proximity of the peer judged from its signal strength: 1.0 above
/// -60 dBm, 0.5 above -80 dBm, 0.2 otherwise, 0 when unknown.
pub open spec fn proximity_from_rssi(rssi: Option<i16>) -> u32 {
    match rssi {
        Some(r) => if r > -60 {
            1_000_000
        } else if r > -80 {
            500_000
        } else {
            200_000
        },
        None => 0,
    }
}

/// Availability of the internet relay: 1.0 over Wi-Fi, 0.8 over mobile
/// data when the user allows it, 0 otherwise or without internet.
pub open spec fn relay_availability(network: NetworkState, prefs: UserRoutingPreferences) -> u32 {
    if network.internet_available {
        if network.connectivity == ConnectivityStatus::Wifi {
            1_000_000
        } else if network.connectivity == ConnectivityStatus::MobileData && prefs.allow_mobile_data {
            800_000
        } else {
            0
        }
    } else {
        0
    }
}

/// The factors each transport is rated on in a context.
pub open spec fn transport_factors(t: TransportType, ctx: RoutingContext) -> TransportFactors {
    match t {
        TransportType::Ble => TransportFactors {
            proximity: Some(proximity_from_rssi(ctx.peer_rssi)),
            battery_cost: Some(1_000_000),
            privacy: Some(1_000_000),
            throughput_match: Some(if ctx.payload_size > 100_000 { 100_000 } else { 800_000 }),
            availability: None,
            trust: None,
        },
        TransportType::WifiDirect => TransportFactors {
            proximity: Some(800_000),
            battery_cost: Some(500_000),
            privacy: Some(1_000_000),
            throughput_match: Some(1_000_000),
            availability: None,
            trust: None,
        },
        TransportType::InternetRelay => TransportFactors {
            proximity: Some(0),
            battery_cost: Some(700_000),
            privacy: Some(300_000),
            throughput_match: Some(1_000_000),
            availability: Some(relay_availability(ctx.network_state, ctx.user_preferences)),
            trust: None,
        },
        TransportType::Mesh => TransportFactors {
            proximity: None,
            battery_cost: None,
            privacy: Some(800_000),
            throughput_match: None,
            availability: Some(if ctx.user_preferences.mesh_enabled { 800_000 } else { 0 }),
            trust: Some(ctx.peer_trust_score),
        },
    }
}

/// A rated factor times its weight; an unrated factor counts nothing.
pub open spec fn weighted(f: Option<u32>, w: u32) -> int {
    match f {
        Some(v) => v * w,
        None => 0,
    }
}

/// The score of a set of factors: each factor times its weight, the
/// availability of a transport being weighed as its reliability.
pub open spec fn weighted_sum(w: RoutingWeight, f: TransportFactors) -> int {
    weighted(f.proximity, w.proximity) + weighted(f.battery_cost, w.battery_cost) + weighted(
        f.privacy,
        w.privacy,
    ) + weighted(f.throughput_match, w.throughput_match) + weighted(f.availability, w.reliability)
        + weighted(f.trust, w.trust)
}

/// The scored option for transport `t` in context `ctx`.
pub open spec fn score_of(w: RoutingWeight, t: TransportType, ctx: RoutingContext) -> TransportScore {
    TransportScore {
        transport_type: t,
        score: weighted_sum(w, transport_factors(t, ctx)) as u128,
        factors: transport_factors(t, ctx),
    }
}

/// Element `a` (score `ka`, at input position `ia`) comes before element
/// `b`: it scores higher, or it scores the same and came first.
pub open spec fn ordered_before(ka: u128, ia: int, kb: u128, ib: int) -> bool {
    ka > kb || (ka == kb && ia < ib)
}

/// `output` is `input` reordered by `perm` (output[k] == input[perm[k]])
/// from the highest score to the lowest, equal scores keeping their input
/// order.
pub open spec fn is_stable_descending_sort(
    input: Seq<TransportScore>,
    output: Seq<TransportScore>,
    perm: Seq<int>,
) -> bool {
    &&& perm.len() == input.len()
    &&& output.len() == input.len()
    &&& forall|k: int| 0 <= k < perm.len() ==> 0 <= #[trigger] perm[k] < input.len()
    &&& forall|k: int| 0 <= k < output.len() ==> #[trigger] output[k] == input[perm[k]]
    &&& forall|a: int, b: int|
        #![trigger output[a], output[b]]
        0 <= a < b < output.len() ==> ordered_before(output[a].score, perm[a], output[b].score, perm[b])
}

/// The best two scores are close enough to send over both: within 15 % of
/// the best, which must be positive.
pub open spec fn close_enough_for_multipath(best: u128, second: u128) -> bool {
    best > 0 && 100 * (best - second) < 15 * best
}

/// The scored options, in the order the transports are listed.
pub open spec fn scored_options(w: RoutingWeight, ctx: RoutingContext) -> Seq<TransportScore> {
    Seq::new(ctx.available_transports@.len(), |i: int| score_of(w, ctx.available_transports@[i], ctx))
}

/// `d` is the route for `ctx` under weights `w`: all options best first,
/// the best as primary, the runner-up as the one fallback, and multipath
/// when the two are close.
pub open spec fn is_route_for(w: RoutingWeight, ctx: RoutingContext, d: RoutingDecision) -> bool {
    let options = scored_options(w, ctx);
    &&& exists|perm: Seq<int>| is_stable_descending_sort(options, d.scores@, perm)
    &&& d.primary_transport == d.scores@[0].transport_type
    &&& d.fallback_transports@ == (if options.len() > 1 {
        seq![d.scores@[1].transport_type]
    } else {
        Seq::<TransportType>::empty()
    })
    &&& d.use_multipath == (options.len() > 1 && close_enough_for_multipath(
        d.scores@[0].score,
        d.scores@[1].score,
    ))
}

/// The value of `value` on the scale from `min` (0) to `max` (1_000_000),
/// rounded down and clamped to that range; 0 when the scale is empty.
pub open spec fn normalized(value: i64, min: i64, max: i64) -> int {
    if max == min {
        0
    } else {
        let num = (value - min) * 1_000_000;
        let den = max - min;
        let ratio = if den > 0 {
            num / den
        } else {
            (-num) / (-den)
        };
        if ratio < 0 {
            0
        } else if ratio > 1_000_000 {
            1_000_000
        } else {
            ratio
        }
    }
}

// ───────────────────────────── the engine ─────────────────────────────

/// A score is at most six products of 32-bit numbers.
proof fn lemma_weighted_sum_bounded(w: RoutingWeight, f: TransportFactors)
    ensures
        0 <= weighted_sum(w, f) <= 6 * (0xFFFF_FFFF * 0xFFFF_FFFF),
{
    assert forall|x: Option<u32>, y: u32| 0 <= #[trigger] weighted(x, y) <= 0xFFFF_FFFF * 0xFFFF_FFFF by {
        match x {
            Some(v) => {
                assert(0 <= v * y <= 0xFFFF_FFFF * 0xFFFF_FFFF) by (nonlinear_arith)
                    requires
                        0 <= v <= 0xFFFF_FFFF,
                        0 <= y <= 0xFFFF_FFFF,
                ;
            },
            None => {},
        }
    }
}

/// Product of a rated factor and its weight.
fn weighted_value(f: Option<u32>, w: u32) -> (r: u128)
    ensures
        r == weighted(f, w),
        r <= 0xFFFF_FFFF * 0xFFFF_FFFF,
{
    match f {
        Some(v) => {
            let a = v as u128;
            let b = w as u128;
            assert(a * b <= 0xFFFF_FFFF * 0xFFFF_FFFF) by (nonlinear_arith)
                requires
                    a <= 0xFFFF_FFFF,
                    b <= 0xFFFF_FFFF,
            ;
            a * b
        },
        None => 0,
    }
}

/// Sorts scored options from the highest score to the lowest, keeping the
/// input order among equal scores.
fn sort_by_score_descending(input: &Vec<TransportScore>) -> (out: Vec<TransportScore>)
    ensures
        exists|perm: Seq<int>| is_stable_descending_sort(input@, out@, perm),
{
    let n = input.len();
    let mut out: Vec<TransportScore> = Vec::new();
    let ghost mut perm: Seq<int> = Seq::empty();
    let mut i: usize = 0;
    while i < n
        invariant
            n == input@.len(),
            i <= n,
            out@.len() == i,
            perm.len() == i,
            forall|k: int| 0 <= k < i ==> 0 <= #[trigger] perm[k] < i,
            forall|k: int| 0 <= k < i ==> #[trigger] out@[k] == input@[perm[k]],
            forall|a: int, b: int|
                #![trigger out@[a], out@[b]]
                0 <= a < b < i ==> ordered_before(out@[a].score, perm[a], out@[b].score, perm[b]),
        decreases n - i,
    {
        let e = input[i];
        let mut pos: usize = 0;
        while pos < out.len() && out[pos].score >= e.score
            invariant
                pos <= out@.len(),
                forall|k: int| 0 <= k < pos ==> (#[trigger] out@[k]).score >= e.score,
            decreases out@.len() - pos,
        {
            pos = pos + 1;
        }
        let ghost old_out = out@;
        let ghost old_perm = perm;
        proof {
            assert forall|k: int| pos <= k < old_out.len() implies (#[trigger] old_out[k]).score
                < e.score by {
                if k > pos {
                    assert(ordered_before(
                        old_out[pos as int].score,
                        old_perm[pos as int],
                        old_out[k].score,
                        old_perm[k],
                    ));
                }
            }
        }
        out.insert(pos, e);
        proof {
            perm = perm.insert(pos as int, i as int);
            assert forall|a: int, b: int|
                #![trigger out@[a], out@[b]]
                0 <= a < b < i + 1 implies ordered_before(
                out@[a].score,
                perm[a],
                out@[b].score,
                perm[b],
            ) by {
                if a < pos && b < pos {
                    assert(old_out[a] == out@[a] && old_out[b] == out@[b]);
                } else if a < pos && b == pos {
                    assert(old_out[a] == out@[a]);
                } else if a < pos && b > pos {
                    assert(old_out[a] == out@[a] && old_out[b - 1] == out@[b]);
                } else if a == pos {
                    assert(old_out[b - 1] == out@[b]);
                } else {
                    assert(old_out[a - 1] == out@[a] && old_out[b - 1] == out@[b]);
                }
            }
            assert forall|k: int| 0 <= k < i + 1 implies #[trigger] out@[k] == input@[perm[k]] by {
                if k < pos {
                    assert(old_out[k] == out@[k]);
                } else if k > pos {
                    assert(old_out[k - 1] == out@[k]);
                }
            }
        }
        i = i + 1;
    }
    proof {
        assert(is_stable_descending_sort(input@, out@, perm));
    }
    out
}

/// Scores transports and selects routes under a set of weights.
pub struct RoutingEngine {
    weights: RoutingWeight,
}

impl RoutingEngine {
    /// The weights the engine scores with.
    pub closed spec fn spec_weights(&self) -> RoutingWeight {
        self.weights
    }

    /// An engine scoring with `weights`.
    pub fn new(weights: RoutingWeight) -> (e: Self)
        ensures
            e.spec_weights() == weights,
    {
        RoutingEngine { weights }
    }

    /// Chooses the route for a message: every available transport scored and
    /// ordered best first, the best as primary, the runner-up as fallback.
    pub fn select_route(&self, context: &RoutingContext) -> (r: Result<RoutingDecision, RoutingError>)
        ensures
            match r {
                Ok(d) => context.available_transports@.len() > 0 && is_route_for(
                    self.spec_weights(),
                    *context,
                    d,
                ),
                Err(e) => context.available_transports@.len() == 0 && e is NoTransportAvailable,
            },
    {
        if context.available_transports.is_empty() {
            return Err(RoutingError::NoTransportAvailable);
        }
        let n = context.available_transports.len();
        let mut scored: Vec<TransportScore> = Vec::new();
        let mut i: usize = 0;
        while i < n
            invariant
                n == context.available_transports@.len(),
                i <= n,
                scored@.len() == i,
                forall|k: int|
                    0 <= k < i ==> #[trigger] scored@[k] == score_of(
                        self.spec_weights(),
                        context.available_transports@[k],
                        *context,
                    ),
            decreases n - i,
        {
            let s = self.score_transport(context.available_transports[i], context);
            scored.push(s);
            i = i + 1;
        }
        assert(scored@ =~= scored_options(self.spec_weights(), *context));
        let sorted = sort_by_score_descending(&scored);
        let ghost perm = choose|perm: Seq<int>| is_stable_descending_sort(scored@, sorted@, perm);
        let primary_transport = sorted[0].transport_type;
        let mut fallback_transports: Vec<TransportType> = Vec::new();
        let mut use_multipath = false;
        if sorted.len() > 1 {
            fallback_transports.push(sorted[1].transport_type);
            let best = sorted[0].score;
            let second = sorted[1].score;
            assert(ordered_before(best, perm[0], second, perm[1]));
            proof {
                lemma_weighted_sum_bounded(self.spec_weights(), scored@[perm[0]].factors);
            }
            use_multipath = best > 0 && 100 * (best - second) < 15 * best;
        }
        let d = RoutingDecision { primary_transport, fallback_transports, use_multipath, scores: sorted };
        assert(d.fallback_transports@ =~= (if scored@.len() > 1 {
            seq![d.scores@[1].transport_type]
        } else {
            Seq::<TransportType>::empty()
        }));
        Ok(d)
    }

    /// The scored option for `transport` in `context`.
    pub fn score_transport(&self, transport: TransportType, context: &RoutingContext) -> (s: TransportScore)
        ensures
            s == score_of(self.spec_weights(), transport, *context),
    {
        let factors = Self::factors_for(transport, context);
        let w = self.weights;
        let p = weighted_value(factors.proximity, w.proximity);
        let b = weighted_value(factors.battery_cost, w.battery_cost);
        let v = weighted_value(factors.privacy, w.privacy);
        let t = weighted_value(factors.throughput_match, w.throughput_match);
        let a = weighted_value(factors.availability, w.reliability);
        let r = weighted_value(factors.trust, w.trust);
        TransportScore { transport_type: transport, score: p + b + v + t + a + r, factors }
    }

    /// The factors `transport` is rated on in `context`.
    fn factors_for(transport: TransportType, context: &RoutingContext) -> (f: TransportFactors)
        ensures
            f == transport_factors(transport, *context),
    {
        match transport {
            TransportType::Ble => {
                let proximity = match context.peer_rssi {
                    Some(rssi) => if rssi > -60 {
                        1_000_000
                    } else if rssi > -80 {
                        500_000
                    } else {
                        200_000
                    },
                    None => 0,
                };
                let throughput = if context.payload_size > 100_000 { 100_000 } else { 800_000 };
                TransportFactors {
                    proximity: Some(proximity),
                    battery_cost: Some(1_000_000),
                    privacy: Some(1_000_000),
                    throughput_match: Some(throughput),
                    availability: None,
                    trust: None,
                }
            },
            TransportType::WifiDirect => TransportFactors {
                proximity: Some(800_000),
                battery_cost: Some(500_000),
                privacy: Some(1_000_000),
                throughput_match: Some(1_000_000),
                availability: None,
                trust: None,
            },
            TransportType::InternetRelay => {
                let network = context.network_state;
                let availability = if network.internet_available {
                    if network.connectivity == ConnectivityStatus::Wifi {
                        1_000_000
                    } else if network.connectivity == ConnectivityStatus::MobileData
                        && context.user_preferences.allow_mobile_data {
                        800_000
                    } else {
                        0
                    }
                } else {
                    0
                };
                TransportFactors {
                    proximity: Some(0),
                    battery_cost: Some(700_000),
                    privacy: Some(300_000),
                    throughput_match: Some(1_000_000),
                    availability: Some(availability),
                    trust: None,
                }
            },
            TransportType::Mesh => TransportFactors {
                proximity: None,
                battery_cost: None,
                privacy: Some(800_000),
                throughput_match: None,
                availability: Some(if context.user_preferences.mesh_enabled { 800_000 } else { 0 }),
                trust: Some(context.peer_trust_score),
            },
        }
    }

    /// The value of `value` on the scale from `min` to `max`, in parts per
    /// million, clamped to `0..=1_000_000`.
    pub fn normalize(value: i64, min: i64, max: i64) -> (r: u32)
        ensures
            r == normalized(value, min, max),
    {
        if max == min {
            return 0;
        }
        let num: i128 = (value as i128 - min as i128) * 1_000_000;
        let den: i128 = max as i128 - min as i128;
        let (n2, d2) = if den > 0 { (num, den) } else { (-num, -den) };
        if n2 <= 0 {
            proof {
                assert(n2 / d2 <= 0) by (nonlinear_arith)
                    requires n2 <= 0, d2 > 0;
            }
            return 0;
        }
        if n2 >= 1_000_000 * d2 {
            proof {
                assert(n2 / d2 >= 1_000_000) by (nonlinear_arith)
                    requires n2 >= 1_000_000 * d2, d2 > 0;
            }
            return 1_000_000;
        }
        let q = n2 / d2;
        proof {
            assert(0 <= q <= 1_000_000) by (nonlinear_arith)
                requires q == n2 / d2, n2 > 0, n2 < 1_000_000 * d2, d2 > 0;
        }
        q as u32
    }
}

} // verus!

verus! {

/// An injective sequence of indices below `n`, of length `n`, reaches every
/// index `j` below `n`.
proof fn lemma_injective_indices_cover(perm: Seq<int>, n: int, j: int)
    requires
        perm.len() == n,
        forall|k: int| 0 <= k < n ==> 0 <= #[trigger] perm[k] < n,
        perm.no_duplicates(),
        0 <= j < n,
    ensures
        exists|k: int| 0 <= k < n && perm[k] == j,
{
    broadcast use vstd::seq_lib::seq_to_set_is_finite;

    perm.unique_seq_to_set();
    vstd::set_lib::lemma_int_range(0, n);
    let range = vstd::set_lib::set_int_range(0, n);
    assert(perm.to_set().subset_of(range));
    vstd::set_lib::lemma_subset_equality(perm.to_set(), range);
    assert(range.contains(j));
    assert(perm.to_set().contains(j));
}

/// Law: the route lists every available transport, and the primary route
/// scores at least as high as any of them.
pub proof fn lemma_primary_route_is_best(w: RoutingWeight, ctx: RoutingContext, d: RoutingDecision)
    requires
        ctx.available_transports@.len() > 0,
        is_route_for(w, ctx, d),
    ensures
        forall|i: int|
            #![trigger ctx.available_transports@[i]]
            0 <= i < ctx.available_transports@.len() ==> exists|k: int|
                0 <= k < d.scores@.len() && d.scores@[k] == score_of(
                    w,
                    ctx.available_transports@[i],
                    ctx,
                ),
        forall|i: int|
            0 <= i < ctx.available_transports@.len() ==> d.scores@[0].score >= score_of(
                w,
                ctx.available_transports@[i],
                ctx,
            ).score,
        exists|i: int|
            0 <= i < ctx.available_transports@.len() && d.primary_transport
                == ctx.available_transports@[i],
{
    let options = scored_options(w, ctx);
    let n = options.len() as int;
    let perm = choose|perm: Seq<int>| is_stable_descending_sort(options, d.scores@, perm);
    assert forall|a: int, b: int| 0 <= a < b < n implies perm[a] != perm[b] by {
        assert(ordered_before(d.scores@[a].score, perm[a], d.scores@[b].score, perm[b]));
    }
    assert(perm.no_duplicates());
    assert forall|i: int| #![trigger ctx.available_transports@[i]] 0 <= i < n implies exists|k: int|
        0 <= k < d.scores@.len() && d.scores@[k] == score_of(w, ctx.available_transports@[i], ctx) by {
        lemma_injective_indices_cover(perm, n, i);
        let k = choose|k: int| 0 <= k < n && perm[k] == i;
        assert(d.scores@[k] == options[i]);
    }
    assert forall|i: int| 0 <= i < n implies d.scores@[0].score >= score_of(
        w,
        ctx.available_transports@[i],
        ctx,
    ).score by {
        lemma_injective_indices_cover(perm, n, i);
        let k = choose|k: int| 0 <= k < n && perm[k] == i;
        assert(d.scores@[k] == options[i]);
        if k > 0 {
            assert(ordered_before(d.scores@[0].score, perm[0], d.scores@[k].score, perm[k]));
        }
    }
    assert(d.scores@[0] == options[perm[0]]);
    assert(d.primary_transport == ctx.available_transports@[perm[0]]);
}

/// Law: a route sends over two transports exactly when there are at least
/// two and the runner-up is within 15 % of a positive best score; with two
/// or more the fallback is the runner-up, with one there is none.
pub proof fn lemma_multipath_needs_close_runner_up(w: RoutingWeight, ctx: RoutingContext, d: RoutingDecision)
    requires
        ctx.available_transports@.len() > 0,
        is_route_for(w, ctx, d),
    ensures
        d.use_multipath ==> ctx.available_transports@.len() > 1 && d.fallback_transports@ == seq![
            d.scores@[1].transport_type,
        ] && 100 * (d.scores@[0].score - d.scores@[1].score) < 15 * d.scores@[0].score,
        ctx.available_transports@.len() == 1 ==> !d.use_multipath && d.fallback_transports@.len() == 0,
        ctx.available_transports@.len() > 1 ==> d.fallback_transports@ == seq![d.scores@[1].transport_type],
        ctx.available_transports@.len() > 1 ==> (d.use_multipath <==> (d.scores@[0].score > 0 && 100 * (
        d.scores@[0].score - d.scores@[1].score) < 15 * d.scores@[0].score)),
{
}

/// Law: over BLE a payload above 100 KB is rated a poor throughput match
/// (0.1) and one of at most 100 KB a good one (0.8); with the same peer
/// signal, the larger payload's BLE score is lower by exactly 0.7 times the
/// throughput weight, whatever the weights and the rest of the context.
pub proof fn lemma_ble_penalises_large_payloads(w: RoutingWeight, small: RoutingContext, large: RoutingContext)
    requires
        small.payload_size <= 100_000,
        large.payload_size > 100_000,
        small.peer_rssi == large.peer_rssi,
    ensures
        transport_factors(TransportType::Ble, large).throughput_match == Some(100_000u32),
        transport_factors(TransportType::Ble, small).throughput_match == Some(800_000u32),
        score_of(w, TransportType::Ble, small).score == score_of(w, TransportType::Ble, large).score
            + 700_000 * w.throughput_match,
{
    let fs = transport_factors(TransportType::Ble, small);
    let fl = transport_factors(TransportType::Ble, large);
    assert(fs.proximity == fl.proximity);
    let pr: int = weighted(fs.proximity, w.proximity);
    assert(0 <= pr <= 1_000_000 * 0xFFFF_FFFF) by (nonlinear_arith)
        requires
            pr == fs.proximity.unwrap() * w.proximity,
            fs.proximity.unwrap() <= 1_000_000,
            w.proximity <= 0xFFFF_FFFF,
    ;
    assert(0 <= 800_000 * w.throughput_match <= 800_000 * 0xFFFF_FFFF) by (nonlinear_arith)
        requires
            w.throughput_match <= 0xFFFF_FFFF,
    ;
    assert(0 <= 1_000_000 * w.battery_cost <= 1_000_000 * 0xFFFF_FFFF) by (nonlinear_arith)
        requires
            w.battery_cost <= 0xFFFF_FFFF,
    ;
    assert(0 <= 1_000_000 * w.privacy <= 1_000_000 * 0xFFFF_FFFF) by (nonlinear_arith)
        requires
            w.privacy <= 0xFFFF_FFFF,
    ;
    assert(weighted_sum(w, fs) == weighted_sum(w, fl) + 700_000 * w.throughput_match);
}

/// Law: under the default weights a payload above 100 KB never scores
/// higher over BLE than over Wi-Fi Direct, however close the peer is.
pub proof fn lemma_large_payload_never_prefers_ble(ctx: RoutingContext)
    requires
        ctx.payload_size > 100_000,
    ensures
        score_of(default_weights(), TransportType::Ble, ctx).score <= score_of(
            default_weights(),
            TransportType::WifiDirect,
            ctx,
        ).score,
{
    let w = default_weights();
    let fb = transport_factors(TransportType::Ble, ctx);
    assert(weighted(fb.proximity, w.proximity) <= 150_000_000_000);
    assert(weighted_sum(w, fb) <= 380_000_000_000);
    assert(weighted_sum(w, transport_factors(TransportType::WifiDirect, ctx)) == 380_000_000_000);
}

/// Law: BLE rates the peer's proximity by its signal strength: 1.0 above
/// -60 dBm, 0.5 above -80 dBm, 0.2 at or below it, and 0 when the signal is
/// unknown; a stronger signal never rates lower.
pub proof fn lemma_ble_proximity_bands(ctx: RoutingContext, other: RoutingContext)
    ensures
        ctx.peer_rssi matches Some(r) && r > -60 ==> transport_factors(TransportType::Ble, ctx).proximity
            == Some(1_000_000u32),
        ctx.peer_rssi matches Some(r) && -80 < r <= -60 ==> transport_factors(TransportType::Ble, ctx).proximity
            == Some(500_000u32),
        ctx.peer_rssi matches Some(r) && r <= -80 ==> transport_factors(TransportType::Ble, ctx).proximity
            == Some(200_000u32),
        ctx.peer_rssi is None ==> transport_factors(TransportType::Ble, ctx).proximity == Some(0u32),
        ctx.peer_rssi matches Some(r) && other.peer_rssi matches Some(q) && r <= q ==> transport_factors(
            TransportType::Ble,
            ctx,
        ).proximity.unwrap() <= transport_factors(TransportType::Ble, other).proximity.unwrap(),
{
}

/// Law: the internet relay is rated fully available over Wi-Fi with
/// internet, 0.8 over mobile data with internet when the user allows mobile
/// data, and not at all without internet or otherwise.
pub proof fn lemma_relay_availability_cases(ctx: RoutingContext)
    ensures
        ({
            let a = transport_factors(TransportType::InternetRelay, ctx).availability;
            let n = ctx.network_state;
            &&& !n.internet_available ==> a == Some(0u32)
            &&& n.internet_available && n.connectivity == ConnectivityStatus::Wifi ==> a == Some(
                1_000_000u32,
            )
            &&& n.internet_available && n.connectivity == ConnectivityStatus::MobileData
                && ctx.user_preferences.allow_mobile_data ==> a == Some(800_000u32)
            &&& n.internet_available && n.connectivity == ConnectivityStatus::MobileData
                && !ctx.user_preferences.allow_mobile_data ==> a == Some(0u32)
            &&& (n.connectivity == ConnectivityStatus::Offline || n.connectivity
                == ConnectivityStatus::Ethernet) ==> a == Some(0u32)
        }),
{
}

/// Law: the score of each transport is its factors weighed as the routing
/// model sets them: Wi-Fi Direct 0.8 proximity, 0.5 battery cost, full
/// privacy and throughput; the relay 0.7 battery cost, 0.3 privacy, full
/// throughput and its availability weighed as reliability; the mesh 0.8
/// privacy, its availability (0.8 when enabled) as reliability, and the
/// peer's trust; BLE its proximity, full battery cost and privacy, and its
/// throughput match.
pub proof fn lemma_transport_scores(w: RoutingWeight, ctx: RoutingContext)
    ensures
        score_of(w, TransportType::WifiDirect, ctx).score == 800_000 * w.proximity + 500_000 * w.battery_cost
            + 1_000_000 * w.privacy + 1_000_000 * w.throughput_match,
        score_of(w, TransportType::InternetRelay, ctx).score == 700_000 * w.battery_cost + 300_000
            * w.privacy + 1_000_000 * w.throughput_match + transport_factors(
            TransportType::InternetRelay,
            ctx,
        ).availability.unwrap() * w.reliability,
        score_of(w, TransportType::Mesh, ctx).score == 800_000 * w.privacy + (if ctx.user_preferences.mesh_enabled {
            800_000int
        } else {
            0int
        }) * w.reliability + ctx.peer_trust_score * w.trust,
        score_of(w, TransportType::Ble, ctx).score == transport_factors(TransportType::Ble, ctx).proximity.unwrap()
            * w.proximity + 1_000_000 * w.battery_cost + 1_000_000 * w.privacy + (if ctx.payload_size
            > 100_000 {
            100_000int
        } else {
            800_000int
        }) * w.throughput_match,
{
    let m: int = 0xFFFF_FFFF;
    assert(forall|c: int, x: int| 0 <= c <= m && 0 <= x <= m ==> 0 <= #[trigger] (c * x) <= m * m)
        by (nonlinear_arith);
    let fb = transport_factors(TransportType::Ble, ctx);
    let fr = transport_factors(TransportType::InternetRelay, ctx);
    let fm = transport_factors(TransportType::Mesh, ctx);
    let fw = transport_factors(TransportType::WifiDirect, ctx);
    assert(0 <= weighted_sum(w, fb) <= 6 * m * m) by {
        assert(0 <= fb.proximity.unwrap() * w.proximity <= m * m);
        assert(0 <= 1_000_000 * w.battery_cost <= m * m);
        assert(0 <= 1_000_000 * w.privacy <= m * m);
        assert(0 <= fb.throughput_match.unwrap() * w.throughput_match <= m * m);
    }
    assert(0 <= weighted_sum(w, fr) <= 6 * m * m) by {
        assert(0 <= 700_000 * w.battery_cost <= m * m);
        assert(0 <= 300_000 * w.privacy <= m * m);
        assert(0 <= 1_000_000 * w.throughput_match <= m * m);
        assert(0 <= 0 * w.proximity <= m * m);
        assert(0 <= fr.availability.unwrap() * w.reliability <= m * m);
    }
    assert(0 <= weighted_sum(w, fm) <= 6 * m * m) by {
        assert(0 <= 800_000 * w.privacy <= m * m);
        assert(0 <= fm.availability.unwrap() * w.reliability <= m * m);
        assert(0 <= ctx.peer_trust_score * w.trust <= m * m);
    }
    assert(0 <= weighted_sum(w, fw) <= 6 * m * m) by {
        assert(0 <= 800_000 * w.proximity <= m * m);
        assert(0 <= 500_000 * w.battery_cost <= m * m);
        assert(0 <= 1_000_000 * w.privacy <= m * m);
        assert(0 <= 1_000_000 * w.throughput_match <= m * m);
    }
}

} // verus!
