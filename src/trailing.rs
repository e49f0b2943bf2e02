use vstd::prelude::*;

use crate::order::{native_amount, scale_amount, OrderError, OrderKind, OrderSpec};
use crate::runid::new_run_id;
use crate::tracker::RunTracker;

verus! {

/// Basis points in one whole: a trailing distance of 500 is five percent.
pub const BPS_DENOMINATOR: u64 = 10_000;

/// The trailing distance used where none is given, in basis points.
pub const DEFAULT_TRAILING_BPS: u64 = 500;

/// The side of a position.
#[derive(Debug, Clone, Copy, PartialEq, Eq, Structural)]
pub enum Side {
    Long,
    Short,
}

/// The side that `s` names, `"long"` or `"short"`.
pub open spec fn side_of(s: Seq<char>) -> Option<Side> {
    if s == "long"@ {
        Some(Side::Long)
    } else if s == "short"@ {
        Some(Side::Short)
    } else {
        None
    }
}

/// Reads a side from its name.
pub fn parse_side(s: &String) -> (r: Option<Side>)
    ensures
        r == side_of(s@),
{
    let long = String::from_str("long");
    let short = String::from_str("short");
    if *s == long {
        Some(Side::Long)
    } else if *s == short {
        Some(Side::Short)
    } else {
        None
    }
}

/// The arguments of the trailing-stop tool. Prices are in native units
/// and the trailing distance in basis points.
pub struct DriftTrailingStopOrderArgs {
    pub market_index: Option<u16>,
    pub position_type: Option<String>,
    pub entry_price: Option<u64>,
    pub trailing_stop_bps: Option<u64>,
    pub total_amount: Option<i64>,
}

/// The tool that runs trailing stops.
#[derive(Debug, Clone, Copy, PartialEq, Eq, Structural)]
pub struct DriftTrailingStopOrders;

/// Why a trailing stop cannot start.
#[derive(Debug, Clone, Copy, PartialEq, Eq, Structural)]
pub enum TrailingError {
    MissingMarket,
    MissingSide,
    UnknownSide,
    /// The trailing distance is over one whole.
    InvalidPercentage,
    /// The quantity is absent or not positive.
    InvalidAmount,
    Amount(OrderError),
}

/// The stop price that trails `extreme` by `bps` basis points: below it
/// for a long position, above it for a short one, truncated.
pub open spec fn stop_for(side: Side, extreme: int, bps: int) -> int {
    match side {
        Side::Long => extreme * (10_000 - bps) / 10_000,
        Side::Short => extreme * (10_000 + bps) / 10_000,
    }
}

/// The trail of one position: the best price seen so far (highest for a
/// long position, lowest for a short one) and the stop derived from it.
pub struct TrailingStop {
    pub side: Side,
    pub bps: u64,
    pub extreme: u64,
    pub stop_price: u128,
}

/// What an observed price leads to.
#[derive(Debug, Clone, Copy, PartialEq, Eq, Structural)]
pub enum TrailAction {
    /// The price crossed the stop: close the position and end the run.
    Close,
    /// Keep the position; the stop is now this.
    Hold { stop_price: u128 },
}

impl TrailingStop {
    /// The stop is the one that trails the extreme.
    pub open spec fn wf(&self) -> bool {
        &&& self.bps <= BPS_DENOMINATOR
        &&& self.stop_price == stop_for(self.side, self.extreme as int, self.bps as int)
    }

    /// Whether `price` crosses the stop: at or below it for a long
    /// position, at or above it for a short one.
    pub open spec fn crossed(&self, price: u64) -> bool {
        match self.side {
            Side::Long => price <= self.stop_price,
            Side::Short => price >= self.stop_price,
        }
    }

    /// Whether `price` is better than the extreme seen so far.
    pub open spec fn improves(&self, price: u64) -> bool {
        match self.side {
            Side::Long => price > self.extreme,
            Side::Short => price < self.extreme,
        }
    }

    /// A trail that starts at `entry_price`.
    pub fn new(side: Side, bps: u64, entry_price: u64) -> (r: TrailingStop)
        requires
            bps <= BPS_DENOMINATOR,
        ensures
            r.wf(),
            r.side == side,
            r.bps == bps,
            r.extreme == entry_price,
    {
        let stop = compute_stop(side, entry_price, bps);
        TrailingStop { side, bps, extreme: entry_price, stop_price: stop }
    }

    /// Takes one observed price. Where it crosses the current stop the
    /// trail is left as it is and the position is to be closed. Otherwise,
    /// where it is better than the extreme, the extreme moves to it and the
    /// stop is derived again, which for a long position only raises it and
    /// for a short one only lowers it.
    pub fn observe(&mut self, price: u64) -> (r: TrailAction)
        requires
            old(self).wf(),
        ensures
            final(self).wf(),
            final(self).side == old(self).side,
            final(self).bps == old(self).bps,
            old(self).crossed(price) ==> r == TrailAction::Close && *final(self) == *old(self),
            !old(self).crossed(price) && old(self).improves(price) ==> final(self).extreme == price
                && r == (TrailAction::Hold { stop_price: final(self).stop_price }),
            !old(self).crossed(price) && !old(self).improves(price) ==> *final(self) == *old(
                self
            ) && r == (TrailAction::Hold { stop_price: old(self).stop_price }),
            (*final(self), r) == observe_spec(*old(self), price),
            old(self).side == Side::Long ==> final(self).stop_price >= old(self).stop_price,
            old(self).side == Side::Short ==> final(self).stop_price <= old(self).stop_price,
    {
        let crossed = match self.side {
            Side::Long => (price as u128) <= self.stop_price,
            Side::Short => (price as u128) >= self.stop_price,
        };
        if crossed {
            return TrailAction::Close;
        }
        let improves = match self.side {
            Side::Long => price > self.extreme,
            Side::Short => price < self.extreme,
        };
        if improves {
            let stop = compute_stop(self.side, price, self.bps);
            proof {
                lemma_stop_monotone(self.side, self.extreme as int, price as int, self.bps as int);
            }
            self.extreme = price;
            self.stop_price = stop;
        }
        TrailAction::Hold { stop_price: self.stop_price }
    }
}

/// The trail and the action after observing `price` from `t`.
pub open spec fn observe_spec(t: TrailingStop, price: u64) -> (TrailingStop, TrailAction) {
    if t.crossed(price) {
        (t, TrailAction::Close)
    } else if t.improves(price) {
        let stop = stop_for(t.side, price as int, t.bps as int) as u128;
        (
            TrailingStop { side: t.side, bps: t.bps, extreme: price, stop_price: stop },
            TrailAction::Hold { stop_price: stop },
        )
    } else {
        (t, TrailAction::Hold { stop_price: t.stop_price })
    }
}

/// The trail after observing `prices` in turn from `t`, and whether the
/// stop was crossed; after a crossing the trail no longer changes.
pub open spec fn trail_after(t: TrailingStop, prices: Seq<u64>) -> (TrailingStop, bool)
    decreases prices.len(),
{
    if prices.len() == 0 {
        (t, false)
    } else {
        let (p, closed) = trail_after(t, prices.drop_last());
        if closed {
            (p, true)
        } else {
            let (q, a) = observe_spec(p, prices.last());
            (q, a == TrailAction::Close)
        }
    }
}

/// Observing keeps a trail well formed, on its side and distance.
pub proof fn lemma_observe_wf(t: TrailingStop, price: u64)
    requires
        t.wf(),
    ensures
        observe_spec(t, price).0.wf(),
        observe_spec(t, price).0.side == t.side,
        observe_spec(t, price).0.bps == t.bps,
{
    if !t.crossed(price) && t.improves(price) {
        lemma_stop_bound(t.side, price as int, t.bps as int);
    }
}

/// A stop derived from a `u64` price fits in 128 bits.
pub proof fn lemma_stop_bound(side: Side, e: int, bps: int)
    requires
        0 <= e <= u64::MAX,
        0 <= bps <= 10_000,
    ensures
        0 <= stop_for(side, e, bps) <= u128::MAX,
{
    match side {
        Side::Long => {
            assert(0 <= e * (10_000 - bps) <= u64::MAX * 10_000) by (nonlinear_arith)
                requires
                    0 <= e <= u64::MAX,
                    0 <= bps <= 10_000,
            ;
        },
        Side::Short => {
            assert(0 <= e * (10_000 + bps) <= u64::MAX * 20_000) by (nonlinear_arith)
                requires
                    0 <= e <= u64::MAX,
                    0 <= bps <= 10_000,
            ;
        },
    }
}

/// Every trail along a run of prices is well formed, on its side and
/// distance.
pub proof fn lemma_trail_after_wf(t: TrailingStop, prices: Seq<u64>)
    requires
        t.wf(),
    ensures
        trail_after(t, prices).0.wf(),
        trail_after(t, prices).0.side == t.side,
        trail_after(t, prices).0.bps == t.bps,
    decreases prices.len(),
{
    if prices.len() > 0 {
        lemma_trail_after_wf(t, prices.drop_last());
        lemma_observe_wf(trail_after(t, prices.drop_last()).0, prices.last());
    }
}

/// A long trailing stop, observed over a run of prices: at each price the
/// stop never moves down; a new high moves the extreme to it and the stop
/// to the one that trails it; and the position is closed at a price
/// exactly when it is the first at or below the stop in force.
pub proof fn lemma_long_trail_step(t: TrailingStop, prices: Seq<u64>, n: int)
    requires
        t.wf(),
        t.side == Side::Long,
        0 <= n < prices.len(),
    ensures
        ({
            let (p, c) = trail_after(t, prices.take(n));
            let (q, d) = trail_after(t, prices.take(n + 1));
            &&& q.wf()
            &&& q.side == Side::Long
            &&& q.stop_price >= p.stop_price
            &&& d == (c || prices[n] <= p.stop_price)
            &&& !c && prices[n] > p.extreme ==> q.extreme == prices[n] && q.stop_price == stop_for(
                Side::Long,
                prices[n] as int,
                t.bps as int,
            )
        }),
{
    let pre = prices.take(n);
    let cur = prices.take(n + 1);
    assert(cur.drop_last() =~= pre);
    assert(cur.last() == prices[n]);
    lemma_trail_after_wf(t, pre);
    lemma_trail_after_wf(t, cur);
    let p = trail_after(t, pre).0;
    if !trail_after(t, pre).1 && !p.crossed(prices[n]) && p.improves(prices[n]) {
        lemma_stop_monotone(Side::Long, p.extreme as int, prices[n] as int, p.bps as int);
        lemma_stop_bound(Side::Long, prices[n] as int, p.bps as int);
    }
    lemma_long_stop_below(p.extreme as int, p.bps as int);
}

/// A long stop is never above the extreme it trails.
pub proof fn lemma_long_stop_below(e: int, bps: int)
    requires
        0 <= e,
        0 <= bps <= 10_000,
    ensures
        stop_for(Side::Long, e, bps) <= e,
{
    assert(e * (10_000 - bps) <= e * 10_000) by (nonlinear_arith)
        requires
            0 <= e,
            0 <= bps,
    ;
    vstd::arithmetic::div_mod::lemma_div_is_ordered(e * (10_000 - bps), e * 10_000, 10_000);
    vstd::arithmetic::div_mod::lemma_div_by_multiple(e, 10_000);
}

/// Along a run of prices a long trailing stop never ends below where it
/// began.
pub proof fn lemma_long_trail_never_lowers(t: TrailingStop, prices: Seq<u64>)
    requires
        t.wf(),
        t.side == Side::Long,
    ensures
        trail_after(t, prices).0.stop_price >= t.stop_price,
    decreases prices.len(),
{
    if prices.len() > 0 {
        let n = prices.len() - 1;
        lemma_long_trail_never_lowers(t, prices.drop_last());
        lemma_long_trail_step(t, prices, n);
        assert(prices.take(n) =~= prices.drop_last());
        assert(prices.take(n + 1) =~= prices);
    }
}

/// A better extreme moves the stop only in the position's favor: up for a
/// long position, down for a short one.
pub proof fn lemma_stop_monotone(side: Side, a: int, b: int, bps: int)
    requires
        0 <= bps <= 10_000,
        0 <= a,
        0 <= b,
        side == Side::Long ==> a <= b,
        side == Side::Short ==> b <= a,
    ensures
        side == Side::Long ==> stop_for(side, a, bps) <= stop_for(side, b, bps),
        side == Side::Short ==> stop_for(side, b, bps) <= stop_for(side, a, bps),
{
    match side {
        Side::Long => {
            assert(a * (10_000 - bps) <= b * (10_000 - bps)) by (nonlinear_arith)
                requires
                    a <= b,
                    bps <= 10_000,
            ;
            vstd::arithmetic::div_mod::lemma_div_is_ordered(
                a * (10_000 - bps),
                b * (10_000 - bps),
                10_000,
            );
        },
        Side::Short => {
            assert(b * (10_000 + bps) <= a * (10_000 + bps)) by (nonlinear_arith)
                requires
                    b <= a,
                    bps >= 0,
            ;
            vstd::arithmetic::div_mod::lemma_div_is_ordered(
                b * (10_000 + bps),
                a * (10_000 + bps),
                10_000,
            );
        },
    }
}

/// The stop that trails `extreme` by `bps` basis points.
pub fn compute_stop(side: Side, extreme: u64, bps: u64) -> (r: u128)
    requires
        bps <= BPS_DENOMINATOR,
    ensures
        r == stop_for(side, extreme as int, bps as int),
{
    let e: u128 = extreme as u128;
    let b: u128 = bps as u128;
    match side {
        Side::Long => {
            assert(e * (10_000 - b) <= u64::MAX * 10_000) by (nonlinear_arith)
                requires
                    e <= u64::MAX,
                    b <= 10_000,
            ;
            e * (10_000 - b) / 10_000
        },
        Side::Short => {
            assert(e * (10_000 + b) <= u64::MAX * 20_000) by (nonlinear_arith)
                requires
                    e <= u64::MAX,
                    b <= 10_000,
            ;
            e * (10_000 + b) / 10_000
        },
    }
}

/// A trailing stop ready to run.
#[derive(Debug, Clone, Copy, PartialEq, Eq, Structural)]
pub struct TrailingPlan {
    pub market_index: u16,
    pub side: Side,
    pub bps: u64,
    /// The price to trail from, where one was given; else the oracle's.
    pub entry_price: Option<u64>,
    /// The market order that opens the position.
    pub open_order: OrderSpec,
    /// The market order that closes it when the stop is crossed.
    pub close_order: OrderSpec,
}

/// The plan that the arguments ask for, given the side they name: the
/// position opens with `total_amount` in the side's direction and closes
/// with the opposite amount.
pub open spec fn trailing_plan_of(
    market_index: Option<u16>,
    side: Option<Side>,
    side_given: bool,
    entry_price: Option<u64>,
    bps: Option<u64>,
    total_amount: Option<i64>,
) -> Result<TrailingPlan, TrailingError> {
    let b: u64 = match bps {
        Some(v) => v,
        None => DEFAULT_TRAILING_BPS,
    };
    if market_index is None {
        Err(TrailingError::MissingMarket)
    } else if !side_given {
        Err(TrailingError::MissingSide)
    } else if side is None {
        Err(TrailingError::UnknownSide)
    } else if b > BPS_DENOMINATOR {
        Err(TrailingError::InvalidPercentage)
    } else if total_amount is None || total_amount.unwrap() <= 0 {
        Err(TrailingError::InvalidAmount)
    } else {
        match native_amount(total_amount.unwrap() as int) {
            Err(e) => Err(TrailingError::Amount(e)),
            Ok(n) => {
                let open: i64 = if side.unwrap() == Side::Long {
                    n
                } else {
                    (-n) as i64
                };
                Ok(
                    TrailingPlan {
                        market_index: market_index.unwrap(),
                        side: side.unwrap(),
                        bps: b,
                        entry_price,
                        open_order: OrderSpec {
                            market_index: market_index.unwrap(),
                            base_amount: open,
                            kind: OrderKind::Market,
                            post_only: false,
                        },
                        close_order: OrderSpec {
                            market_index: market_index.unwrap(),
                            base_amount: (-open) as i64,
                            kind: OrderKind::Market,
                            post_only: false,
                        },
                    },
                )
            },
        }
    }
}

/// How a call of the trailing-stop tool begins.
pub enum TrailingStart {
    /// A run is already tracked; nothing was started.
    AlreadyRunning,
    /// A new run was recorded under this identifier, to follow this plan.
    Started(String, TrailingPlan),
    /// The arguments were refused; nothing was started.
    Refused(TrailingError),
}

impl DriftTrailingStopOrders {
    /// The plan that `args` asks for.
    pub fn plan(args: &DriftTrailingStopOrderArgs) -> (r: Result<TrailingPlan, TrailingError>)
        ensures
            r == trailing_plan_of(
                args.market_index,
                match args.position_type {
                    Some(s) => side_of(s@),
                    None => None,
                },
                args.position_type is Some,
                args.entry_price,
                args.trailing_stop_bps,
                args.total_amount,
            ),
    {
        let b: u64 = match args.trailing_stop_bps {
            Some(v) => v,
            None => DEFAULT_TRAILING_BPS,
        };
        let market_index = match args.market_index {
            None => {
                return Err(TrailingError::MissingMarket);
            },
            Some(m) => m,
        };
        let side = match &args.position_type {
            None => {
                return Err(TrailingError::MissingSide);
            },
            Some(s) => match parse_side(s) {
                None => {
                    return Err(TrailingError::UnknownSide);
                },
                Some(side) => side,
            },
        };
        if b > BPS_DENOMINATOR {
            return Err(TrailingError::InvalidPercentage);
        }
        let total = match args.total_amount {
            None => {
                return Err(TrailingError::InvalidAmount);
            },
            Some(t) => t,
        };
        if total <= 0 {
            return Err(TrailingError::InvalidAmount);
        }
        let n = match scale_amount(total) {
            Err(e) => {
                return Err(TrailingError::Amount(e));
            },
            Ok(n) => n,
        };
        let open: i64 = match side {
            Side::Long => n,
            Side::Short => -n,
        };
        Ok(
            TrailingPlan {
                market_index,
                side,
                bps: b,
                entry_price: args.entry_price,
                open_order: OrderSpec {
                    market_index,
                    base_amount: open,
                    kind: OrderKind::Market,
                    post_only: false,
                },
                close_order: OrderSpec {
                    market_index,
                    base_amount: -open,
                    kind: OrderKind::Market,
                    post_only: false,
                },
            },
        )
    }

    /// Begins a run unless one is tracked: on a non-empty tracker nothing
    /// changes and `AlreadyRunning` comes back, so the caller reports the
    /// tracked stops and starts no second run. Otherwise the arguments are
    /// planned, and a plan is recorded under a fresh identifier with no
    /// stop yet.
    pub fn begin_run(tracker: &mut RunTracker<u128>, args: &DriftTrailingStopOrderArgs) -> (r: TrailingStart)
        requires
            old(tracker).wf(),
        ensures
            final(tracker).wf(),
            old(tracker)@.len() > 0 ==> r is AlreadyRunning && final(tracker)@ == old(tracker)@,
            old(tracker)@.len() == 0 ==> match Self::plan_spec(args) {
                Err(e) => r == TrailingStart::Refused(e) && final(tracker)@ == old(tracker)@,
                Ok(p) => r matches TrailingStart::Started(id, q) && q == p && id@.len() == 36
                    && final(tracker)@ == seq![(id@, 0u128)],
            },
    {
        if !tracker.is_empty() {
            return TrailingStart::AlreadyRunning;
        }
        match Self::plan(args) {
            Err(e) => TrailingStart::Refused(e),
            Ok(p) => {
                let id = new_run_id();
                tracker.start_run(id.clone(), 0);
                TrailingStart::Started(id, p)
            },
        }
    }

    /// The plan that `args` asks for, as `plan` computes it.
    pub open spec fn plan_spec(args: &DriftTrailingStopOrderArgs) -> Result<TrailingPlan, TrailingError> {
        trailing_plan_of(
            args.market_index,
            match args.position_type {
                Some(s) => side_of(s@),
                None => None,
            },
            args.position_type is Some,
            args.entry_price,
            args.trailing_stop_bps,
            args.total_amount,
        )
    }
}

} // verus!
