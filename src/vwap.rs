use vstd::prelude::*;

use crate::order::{native_amount, scale_amount, OrderError, OrderKind, OrderSpec};
use crate::runid::new_run_id;
use crate::tracker::{has_id, incremented, RunTracker};

verus! {

/// The arguments of the volume-weighted tool. With no warm-up, stop flag
/// or duration, and no size or interval (or zero ones), a call only
/// reports the tracker's state.
pub struct DriftVWAPOrdersArgs {
    pub market_index: Option<i32>,
    pub size_per_order: Option<i64>,
    pub timeframe: Option<i32>,
    pub history_warm_up: Option<i32>,
    pub stop_signal: Option<bool>,
    pub duration_secs: Option<i32>,
}

/// One completed interval: a price in native units and a volume.
#[derive(Debug, Clone, Copy, PartialEq, Eq, Structural)]
pub struct TradeData {
    pub timestamp: i64,
    pub price: u64,
    pub volume: u64,
}

/// The state of volume-weighted runs: the trade history, the last
/// computed price, whether warm-up has ended, and the orders placed per
/// run.
pub struct VWAPTracker {
    pub trades: Vec<TradeData>,
    pub vwap: u64,
    pub history_ready: bool,
    pub orders: RunTracker<u64>,
}

/// The tool that runs volume-weighted orders.
#[derive(Debug, Clone, Copy, PartialEq, Eq, Structural)]
pub struct DriftVWAPOrders;

/// Why a volume-weighted price or run is refused.
#[derive(Debug, Clone, Copy, PartialEq, Eq, Structural)]
pub enum VwapError {
    /// The history holds trades whose volumes sum to zero.
    ZeroVolume,
    /// The sum of price times volume does not fit in 128 bits.
    Overflow,
    /// The market index is not a `u16`.
    InvalidMarket,
    /// The interval is not positive.
    InvalidInterval,
    /// The warm-up count is negative.
    InvalidWarmUp,
    /// The duration is negative.
    InvalidDuration,
    /// The oracle price is not positive.
    InvalidPrice,
    /// The size per order is not a valid order amount.
    Amount(OrderError),
}

/// Sum of the volumes of `s`.
pub open spec fn sum_volume(s: Seq<TradeData>) -> int
    decreases s.len(),
{
    if s.len() == 0 {
        0
    } else {
        sum_volume(s.drop_last()) + s.last().volume
    }
}

/// Sum of price times volume over `s`.
pub open spec fn sum_price_volume(s: Seq<TradeData>) -> int
    decreases s.len(),
{
    if s.len() == 0 {
        0
    } else {
        sum_price_volume(s.drop_last()) + s.last().price * s.last().volume
    }
}

/// The volume-weighted price of `s`: `price` where `s` is empty, else
/// `sum(price_i * volume_i) / sum(volume_i)`, truncated.
pub open spec fn vwap_of(s: Seq<TradeData>, price: u64) -> Result<u64, VwapError> {
    if s.len() == 0 {
        Ok(price)
    } else if sum_volume(s) == 0 {
        Err(VwapError::ZeroVolume)
    } else if sum_price_volume(s) > u128::MAX {
        Err(VwapError::Overflow)
    } else {
        Ok((sum_price_volume(s) / sum_volume(s)) as u64)
    }
}

pub proof fn lemma_sums_nonneg(s: Seq<TradeData>)
    ensures
        sum_volume(s) >= 0,
        sum_price_volume(s) >= 0,
        sum_volume(s) <= s.len() * u64::MAX,
        sum_price_volume(s) <= u64::MAX * sum_volume(s),
    decreases s.len(),
{
    if s.len() > 0 {
        let t = s.last();
        lemma_sums_nonneg(s.drop_last());
        assert(t.price * t.volume <= u64::MAX * t.volume) by (nonlinear_arith)
            requires
                t.price <= u64::MAX,
        ;
        assert(t.price * t.volume >= 0) by (nonlinear_arith);
    }
}

/// The sum of price times volume of a prefix is at most that of the whole.
pub proof fn lemma_prefix_price_volume(s: Seq<TradeData>, i: int)
    requires
        0 <= i <= s.len(),
    ensures
        sum_price_volume(s.take(i)) <= sum_price_volume(s),
    decreases s.len(),
{
    if i < s.len() {
        assert(s.drop_last().take(i) =~= s.take(i));
        lemma_prefix_price_volume(s.drop_last(), i);
        let t = s.last();
        assert(t.price * t.volume >= 0) by (nonlinear_arith);
    } else {
        assert(s.take(i) =~= s);
    }
}

/// The volume-weighted price of the trade history, or `price` where the
/// history is empty.
pub fn calculate_vwap(tracker: &VWAPTracker, price: u64) -> (r: Result<u64, VwapError>)
    ensures
        r == vwap_of(tracker.trades@, price),
{
    let trades = &tracker.trades;
    let n = trades.len();
    if n == 0 {
        return Ok(price);
    }
    let mut total_volume: u128 = 0;
    let mut total_pv: u128 = 0;
    let mut i: usize = 0;
    while i < n
        invariant
            trades@ == tracker.trades@,
            n == trades@.len(),
            i <= n,
            total_volume == sum_volume(trades@.take(i as int)),
            total_pv == sum_price_volume(trades@.take(i as int)),
        decreases n - i,
    {
        let t = trades[i];
        proof {
            assert(trades@.take(i + 1).drop_last() =~= trades@.take(i as int));
            lemma_sums_nonneg(trades@.take(i as int));
            assert(total_volume + t.volume <= u128::MAX) by (nonlinear_arith)
                requires
                    total_volume <= i * u64::MAX,
                    i < n,
                    n <= usize::MAX,
                    t.volume <= u64::MAX,
            ;
            assert(t.price * t.volume <= u128::MAX) by (nonlinear_arith)
                requires
                    t.price <= u64::MAX,
                    t.volume <= u64::MAX,
            ;
        }
        let pv: u128 = (t.price as u128) * (t.volume as u128);
        total_volume = total_volume + t.volume as u128;
        match total_pv.checked_add(pv) {
            Some(s) => {
                total_pv = s;
            },
            None => {
                proof {
                    assert(trades@.take(i + 1).last() == t);
                    assert(sum_price_volume(trades@.take(i + 1)) == total_pv + pv);
                    lemma_prefix_price_volume(trades@, i + 1);
                    lemma_sums_nonneg(trades@);
                    if sum_volume(trades@) == 0 {
                        assert(u64::MAX * sum_volume(trades@) == 0);
                    }
                }
                return Err(VwapError::Overflow);
            },
        }
        i = i + 1;
    }
    proof {
        assert(trades@.take(n as int) =~= trades@);
    }
    if total_volume == 0 {
        return Err(VwapError::ZeroVolume);
    }
    proof {
        lemma_sums_nonneg(trades@);
    }
    let q: u128 = total_pv / total_volume;
    assert(q <= u64::MAX) by (nonlinear_arith)
        requires
            total_pv <= u64::MAX * total_volume,
            total_volume > 0,
            q == total_pv / total_volume,
    ;
    Ok(q as u64)
}

/// What the tracker shows to a query.
#[derive(Debug, Clone, Copy, PartialEq, Eq, Structural)]
pub struct VwapSnapshot {
    pub trade_count: usize,
    pub vwap: u64,
    pub history_ready: bool,
    pub run_count: usize,
}

/// The parameters of a volume-weighted run.
#[derive(Debug, Clone, Copy, PartialEq, Eq, Structural)]
pub struct VwapConfig {
    pub market_index: u16,
    /// Whole units of base asset per order.
    pub size_per_order: i64,
    /// The same, in native units.
    pub order_native: i64,
    /// Seconds between ticks.
    pub interval_secs: u64,
    /// Ticks to wait before the first order.
    pub warm_up_intervals: u64,
    /// How long to run, where a duration was given.
    pub duration_secs: Option<u64>,
}

/// What a call of the volume-weighted tool asks for.
#[derive(Debug, Clone, Copy, PartialEq, Eq, Structural)]
pub enum VwapRequest {
    /// Report the tracker's state; nothing runs and nothing changes.
    Query(VwapSnapshot),
    /// Raise the stop flag of the running strategy.
    Stop,
    /// Start a run with these parameters.
    Start(VwapConfig),
}

pub open spec fn opt_or_i32(o: Option<i32>, d: i32) -> i32 {
    match o {
        Some(v) => v,
        None => d,
    }
}

pub open spec fn opt_or_i64(o: Option<i64>, d: i64) -> i64 {
    match o {
        Some(v) => v,
        None => d,
    }
}

/// Whether `a` is a query: no warm-up, stop flag or duration, and a size
/// and interval that are absent or zero.
pub open spec fn is_query_args(a: DriftVWAPOrdersArgs) -> bool {
    &&& a.history_warm_up is None
    &&& a.stop_signal is None
    &&& a.duration_secs is None
    &&& opt_or_i64(a.size_per_order, 0) == 0
    &&& opt_or_i32(a.timeframe, 0) == 0
}

/// The run that `a` asks for: market 0, warm-up 5 and no deadline where
/// they are absent.
pub open spec fn vwap_config_of(a: DriftVWAPOrdersArgs) -> Result<VwapConfig, VwapError> {
    let market = opt_or_i32(a.market_index, 0);
    let interval = opt_or_i32(a.timeframe, 0);
    let warm = opt_or_i32(a.history_warm_up, 5);
    let duration = opt_or_i32(a.duration_secs, 0);
    let size = opt_or_i64(a.size_per_order, 0);
    if !(0 <= market <= u16::MAX) {
        Err(VwapError::InvalidMarket)
    } else if interval <= 0 {
        Err(VwapError::InvalidInterval)
    } else if warm < 0 {
        Err(VwapError::InvalidWarmUp)
    } else if duration < 0 {
        Err(VwapError::InvalidDuration)
    } else {
        match native_amount(size as int) {
            Err(e) => Err(VwapError::Amount(e)),
            Ok(n) => Ok(
                VwapConfig {
                    market_index: market as u16,
                    size_per_order: size,
                    order_native: n,
                    interval_secs: interval as u64,
                    warm_up_intervals: warm as u64,
                    duration_secs: if duration > 0 {
                        Some(duration as u64)
                    } else {
                        None
                    },
                },
            ),
        }
    }
}

/// What the tracker shows to a query.
pub open spec fn snapshot_of(t: &VWAPTracker) -> VwapSnapshot {
    VwapSnapshot {
        trade_count: t.trades@.len() as usize,
        vwap: t.vwap,
        history_ready: t.history_ready,
        run_count: t.orders@.len() as usize,
    }
}

/// Whether `args` is a query.
pub fn is_query_request(args: &DriftVWAPOrdersArgs) -> (r: bool)
    ensures
        r == is_query_args(*args),
{
    let size: i64 = match args.size_per_order {
        Some(v) => v,
        None => 0,
    };
    let interval: i32 = match args.timeframe {
        Some(v) => v,
        None => 0,
    };
    args.history_warm_up.is_none() && args.stop_signal.is_none() && args.duration_secs.is_none()
        && size == 0 && interval == 0
}

impl VWAPTracker {
    /// A tracker with no history and no run.
    pub fn new() -> (r: VWAPTracker)
        ensures
            r.trades@.len() == 0,
            r.vwap == 0,
            !r.history_ready,
            r.orders.wf(),
            r.orders@.len() == 0,
    {
        VWAPTracker { trades: Vec::new(), vwap: 0, history_ready: false, orders: RunTracker::new() }
    }

    /// What a query is shown.
    pub fn snapshot(&self) -> (r: VwapSnapshot)
        ensures
            r == snapshot_of(self),
    {
        VwapSnapshot {
            trade_count: self.trades.len(),
            vwap: self.vwap,
            history_ready: self.history_ready,
            run_count: self.orders.len(),
        }
    }

    /// Records a completed interval of the run `id`: the sample at `price`
    /// with the run's order size as volume joins the history, the computed
    /// price is kept, warm-up is marked as ended, and the run's order count
    /// goes up by one.
    pub fn record_trade(&mut self, id: &String, config: &VwapConfig, timestamp: i64, price: u64, vwap: u64)
        requires
            old(self).orders.wf(),
        ensures
            final(self).orders.wf(),
            final(self).trades@ == old(self).trades@.push(
                TradeData { timestamp, price, volume: abs_i64(config.order_native) },
            ),
            final(self).vwap == vwap,
            final(self).history_ready,
            forall|i: int|
                0 <= i < old(self).orders@.len() && (#[trigger] old(self).orders@[i]).0 == id@
                    ==> final(self).orders@ == old(self).orders@.update(
                    i,
                    (id@, incremented(old(self).orders@[i].1)),
                ),
            !has_id(old(self).orders@, id@) ==> final(self).orders@ == old(self).orders@.push(
                (id@, 1u64),
            ),
    {
        let volume: u64 = if config.order_native >= 0 {
            config.order_native as u64
        } else if config.order_native == i64::MIN {
            9_223_372_036_854_775_808u64
        } else {
            (-config.order_native) as u64
        };
        self.trades.push(TradeData { timestamp, price, volume });
        self.vwap = vwap;
        self.history_ready = true;
        self.orders.increment(id);
    }
}

/// The magnitude of `x`.
pub open spec fn abs_i64(x: i64) -> u64 {
    if x >= 0 {
        x as u64
    } else {
        (-(x as int)) as u64
    }
}

impl DriftVWAPOrders {
    /// Raises the flag that stops a running volume-weighted strategy at
    /// its next tick.
    pub fn stop_vwap(&self, stop_signal: std::sync::Arc<std::sync::atomic::AtomicBool>) {
        stop_signal.store(true, std::sync::atomic::Ordering::SeqCst);
    }

    /// Reads a call of the tool: a query is answered from the tracker,
    /// which is only read, and starts nothing; a call with the stop flag
    /// set asks to stop; any other call asks for a run with the parameters
    /// it gives, or is refused.
    pub fn handle_request(&self, tracker: &VWAPTracker, args: &DriftVWAPOrdersArgs) -> (r: Result<
        VwapRequest,
        VwapError,
    >)
        ensures
            is_query_args(*args) ==> r == Ok::<VwapRequest, VwapError>(
                VwapRequest::Query(snapshot_of(tracker)),
            ),
            !is_query_args(*args) && args.stop_signal == Some(true) ==> r == Ok::<
                VwapRequest,
                VwapError,
            >(VwapRequest::Stop),
            !is_query_args(*args) && args.stop_signal != Some(true) ==> match vwap_config_of(*args) {
                Ok(c) => r == Ok::<VwapRequest, VwapError>(VwapRequest::Start(c)),
                Err(e) => r == Err::<VwapRequest, VwapError>(e),
            },
    {
        if is_query_request(args) {
            return Ok(VwapRequest::Query(tracker.snapshot()));
        }
        if let Some(true) = args.stop_signal {
            return Ok(VwapRequest::Stop);
        }
        match vwap_config(args) {
            Ok(c) => Ok(VwapRequest::Start(c)),
            Err(e) => Err(e),
        }
    }

    /// Records a new run under a fresh identifier, with no order placed;
    /// the history is left as it is.
    pub fn start_run(tracker: &mut VWAPTracker) -> (r: String)
        requires
            old(tracker).orders.wf(),
        ensures
            r@.len() == 36,
            final(tracker).orders.wf(),
            final(tracker).trades@ == old(tracker).trades@,
            final(tracker).vwap == old(tracker).vwap,
            final(tracker).history_ready == old(tracker).history_ready,
            has_id(old(tracker).orders@, r@) ==> final(tracker).orders@ == old(tracker).orders@,
            !has_id(old(tracker).orders@, r@) ==> final(tracker).orders@ == old(
                tracker,
            ).orders@.push((r@, 0u64)),
    {
        let id = new_run_id();
        if tracker.orders.position(&id).is_none() {
            tracker.orders.set(&id, 0);
        }
        id
    }

    /// The order of one tick: a limit order for the run's size at the
    /// volume-weighted price of the history, or at `oracle_price` (native
    /// units) while the history is empty.
    pub fn tick_order(tracker: &VWAPTracker, config: &VwapConfig, oracle_price: i64) -> (r: Result<
        OrderSpec,
        VwapError,
    >)
        ensures
            oracle_price <= 0 ==> r == Err::<OrderSpec, VwapError>(VwapError::InvalidPrice),
            oracle_price > 0 ==> match vwap_of(tracker.trades@, oracle_price as u64) {
                Ok(p) => r == Ok::<OrderSpec, VwapError>(
                    OrderSpec {
                        market_index: config.market_index,
                        base_amount: config.order_native,
                        kind: OrderKind::Limit { price: p },
                        post_only: false,
                    },
                ),
                Err(e) => r == Err::<OrderSpec, VwapError>(e),
            },
    {
        if oracle_price <= 0 {
            return Err(VwapError::InvalidPrice);
        }
        match calculate_vwap(tracker, oracle_price as u64) {
            Err(e) => Err(e),
            Ok(p) => Ok(
                OrderSpec {
                    market_index: config.market_index,
                    base_amount: config.order_native,
                    kind: OrderKind::Limit { price: p },
                    post_only: false,
                },
            ),
        }
    }
}

/// The run that `args` asks for.
pub fn vwap_config(args: &DriftVWAPOrdersArgs) -> (r: Result<VwapConfig, VwapError>)
    ensures
        r == vwap_config_of(*args),
{
    let market: i32 = match args.market_index {
        Some(v) => v,
        None => 0,
    };
    let interval: i32 = match args.timeframe {
        Some(v) => v,
        None => 0,
    };
    let warm: i32 = match args.history_warm_up {
        Some(v) => v,
        None => 5,
    };
    let duration: i32 = match args.duration_secs {
        Some(v) => v,
        None => 0,
    };
    let size: i64 = match args.size_per_order {
        Some(v) => v,
        None => 0,
    };
    if market < 0 || market > 65535 {
        return Err(VwapError::InvalidMarket);
    }
    if interval <= 0 {
        return Err(VwapError::InvalidInterval);
    }
    if warm < 0 {
        return Err(VwapError::InvalidWarmUp);
    }
    if duration < 0 {
        return Err(VwapError::InvalidDuration);
    }
    match scale_amount(size) {
        Err(e) => Err(VwapError::Amount(e)),
        Ok(n) => Ok(
            VwapConfig {
                market_index: market as u16,
                size_per_order: size,
                order_native: n,
                interval_secs: interval as u64,
                warm_up_intervals: warm as u64,
                duration_secs: if duration > 0 {
                    Some(duration as u64)
                } else {
                    None
                },
            },
        ),
    }
}

/// What a running volume-weighted strategy does at a tick.
#[derive(Debug, Clone, Copy, PartialEq, Eq, Structural)]
pub enum VwapAction {
    /// The stop flag is up or the deadline has passed: end the run.
    Stop,
    /// Still warming up: sleep one interval without trading.
    WarmUp,
    /// Place one order, then sleep one interval.
    Trade,
}

/// The tick state of one volume-weighted run.
pub struct VwapRun {
    pub config: VwapConfig,
    /// Warm-up ticks spent so far.
    pub intervals_seen: u64,
}

impl VwapRun {
    /// A run that has not ticked yet.
    pub fn new(config: VwapConfig) -> (r: VwapRun)
        ensures
            r.config == config,
            r.intervals_seen == 0,
    {
        VwapRun { config, intervals_seen: 0 }
    }

    /// Decides a tick: stop where asked to or past the deadline; else warm
    /// up while fewer than the configured warm-up ticks have passed; else
    /// trade.
    pub fn next_action(&mut self, stop_requested: bool, deadline_passed: bool) -> (r: VwapAction)
        ensures
            final(self).config == old(self).config,
            stop_requested || deadline_passed ==> r == VwapAction::Stop && final(self).intervals_seen == old(self).intervals_seen,
            !(stop_requested || deadline_passed) && old(self).intervals_seen
                < old(self).config.warm_up_intervals ==> r == VwapAction::WarmUp && final(self).intervals_seen == old(self).intervals_seen + 1,
            !(stop_requested || deadline_passed) && old(self).intervals_seen
                >= old(self).config.warm_up_intervals ==> r == VwapAction::Trade && final(self).intervals_seen == old(self).intervals_seen,
    {
        if stop_requested || deadline_passed {
            return VwapAction::Stop;
        }
        if self.intervals_seen < self.config.warm_up_intervals {
            self.intervals_seen = self.intervals_seen + 1;
            VwapAction::WarmUp
        } else {
            VwapAction::Trade
        }
    }
}

} // verus!
