use vstd::prelude::*;

use crate::order::{native_amount, scale_amount, OrderError, OrderKind, OrderSpec};
use crate::runid::new_run_id;
use crate::tracker::{has_id, incremented, RunTracker};

verus! {

/// One time-sliced order: `total_amount` whole units of base asset,
/// spread over `total_duration_secs` in slices `interval_secs` apart.
/// `order_type` is `"limit"` for limit slices; anything else gives market
/// slices.
pub struct TWAPOrder {
    pub market_index: u16,
    pub total_amount: i64,
    pub total_duration_secs: u64,
    pub interval_secs: u64,
    pub order_type: String,
}

/// The orders of one call of the time-sliced tool.
pub struct DriftTWAPOrdersArgs {
    pub twap_orders: Vec<TWAPOrder>,
}

/// The tool that runs time-sliced orders.
#[derive(Debug, Clone, Copy, PartialEq, Eq, Structural)]
pub struct DriftTWAPOrders;

/// Why a time-sliced order cannot run.
#[derive(Debug, Clone, Copy, PartialEq, Eq, Structural)]
pub enum TwapError {
    /// The interval is zero.
    ZeroInterval,
    /// The duration is shorter than one interval.
    NoSlices,
    /// A slice is not a valid order amount.
    Slice(OrderError),
}

/// The schedule of one time-sliced order.
#[derive(Debug, Clone, Copy, PartialEq, Eq, Structural)]
pub struct TwapPlan {
    pub market_index: u16,
    /// Slices to send.
    pub slice_count: u64,
    /// Whole units of base asset per slice.
    pub slice_amount: i64,
    /// The same, in native units.
    pub slice_native: i64,
    /// Seconds between slices.
    pub interval_secs: u64,
    /// Limit slices where true, market slices otherwise.
    pub limit: bool,
}

/// Division that truncates toward zero, as integer division does.
pub open spec fn trunc_div(a: int, b: int) -> int
    recommends
        b > 0,
{
    if a >= 0 {
        a / b
    } else {
        -((-a) / b)
    }
}

/// The schedule of `o`, where `limit` says whether its slices are limit
/// orders: `total_duration_secs / interval_secs` slices of
/// `total_amount / slice_count` each, truncated.
pub open spec fn twap_plan_of(
    market_index: u16,
    total_amount: i64,
    total_duration_secs: u64,
    interval_secs: u64,
    limit: bool,
) -> Result<TwapPlan, TwapError> {
    if interval_secs == 0 {
        Err(TwapError::ZeroInterval)
    } else if total_duration_secs / interval_secs == 0 {
        Err(TwapError::NoSlices)
    } else {
        let count = total_duration_secs / interval_secs;
        let slice = trunc_div(total_amount as int, count as int);
        match native_amount(slice) {
            Err(e) => Err(TwapError::Slice(e)),
            Ok(n) => Ok(
                TwapPlan {
                    market_index,
                    slice_count: count as u64,
                    slice_amount: slice as i64,
                    slice_native: n,
                    interval_secs,
                    limit,
                },
            ),
        }
    }
}

/// A limit price half a percent above `oracle_price`, truncated.
pub open spec fn twap_limit_price(oracle_price: int) -> int {
    oracle_price * 1005 / 1000
}

/// Whether a time-sliced order's type names limit slices.
pub fn is_limit_type(order_type: &String) -> (r: bool)
    ensures
        r == (order_type@ == "limit"@),
{
    let limit = String::from_str("limit");
    *order_type == limit
}

/// The schedule of `o`.
pub fn twap_plan(o: &TWAPOrder) -> (r: Result<TwapPlan, TwapError>)
    ensures
        r == twap_plan_of(
            o.market_index,
            o.total_amount,
            o.total_duration_secs,
            o.interval_secs,
            o.order_type@ == "limit"@,
        ),
{
    let limit = is_limit_type(&o.order_type);
    if o.interval_secs == 0 {
        return Err(TwapError::ZeroInterval);
    }
    let count: u64 = o.total_duration_secs / o.interval_secs;
    if count == 0 {
        return Err(TwapError::NoSlices);
    }
    let slice: i64 = if o.total_amount >= 0 {
        ((o.total_amount as u64) / count) as i64
    } else {
        let mag: u64 = if o.total_amount == i64::MIN {
            9_223_372_036_854_775_808u64
        } else {
            (-o.total_amount) as u64
        };
        assert(mag == -(o.total_amount as int));
        let q: u64 = mag / count;
        assert(q <= mag);
        if q == 9_223_372_036_854_775_808u64 {
            i64::MIN
        } else {
            -(q as i64)
        }
    };
    assert(slice as int == trunc_div(o.total_amount as int, count as int));
    match scale_amount(slice) {
        Err(e) => Err(TwapError::Slice(e)),
        Ok(n) => Ok(
            TwapPlan {
                market_index: o.market_index,
                slice_count: count,
                slice_amount: slice,
                slice_native: n,
                interval_secs: o.interval_secs,
                limit,
            },
        ),
    }
}

/// The order of one slice of `plan`, priced from a fresh oracle price in
/// native units: half a percent above it for limit slices.
pub fn twap_slice_order(plan: &TwapPlan, oracle_price: i64) -> (r: Result<OrderSpec, OrderError>)
    ensures
        plan.limit && oracle_price <= 0 ==> r == Err::<OrderSpec, OrderError>(
            OrderError::InvalidPrice,
        ),
        plan.limit && oracle_price > 0 ==> r == Ok::<OrderSpec, OrderError>(
            OrderSpec {
                market_index: plan.market_index,
                base_amount: plan.slice_native,
                kind: OrderKind::Limit { price: twap_limit_price(oracle_price as int) as u64 },
                post_only: false,
            },
        ),
        !plan.limit ==> r == Ok::<OrderSpec, OrderError>(
            OrderSpec {
                market_index: plan.market_index,
                base_amount: plan.slice_native,
                kind: OrderKind::Market,
                post_only: false,
            },
        ),
{
    if !plan.limit {
        return Ok(
            OrderSpec {
                market_index: plan.market_index,
                base_amount: plan.slice_native,
                kind: OrderKind::Market,
                post_only: false,
            },
        );
    }
    if oracle_price <= 0 {
        return Err(OrderError::InvalidPrice);
    }
    let p: u128 = oracle_price as u128;
    let scaled: u128 = p * 1005 / 1000;
    assert(scaled <= u64::MAX) by (nonlinear_arith)
        requires
            p <= i64::MAX,
            scaled == p * 1005 / 1000,
    ;
    Ok(
        OrderSpec {
            market_index: plan.market_index,
            base_amount: plan.slice_native,
            kind: OrderKind::Limit { price: scaled as u64 },
            post_only: false,
        },
    )
}

/// How a call of the time-sliced tool begins.
pub enum TwapStart {
    /// A run is already tracked; nothing was started.
    AlreadyRunning,
    /// A new run was recorded under this identifier, with no slice sent.
    Started(String),
}

impl DriftTWAPOrders {
    /// Begins a run unless one is tracked: on a non-empty tracker nothing
    /// changes and `AlreadyRunning` comes back, so the caller reports the
    /// tracked progress and starts no second run; otherwise a fresh
    /// identifier is recorded with no slice sent.
    pub fn begin_run(tracker: &mut RunTracker<u64>) -> (r: TwapStart)
        requires
            old(tracker).wf(),
        ensures
            final(tracker).wf(),
            old(tracker)@.len() > 0 ==> r is AlreadyRunning && final(tracker)@ == old(tracker)@,
            old(tracker)@.len() == 0 ==> (r matches TwapStart::Started(id) && id@.len() == 36
                && final(tracker)@ == seq![(id@, 0u64)]),
    {
        if !tracker.is_empty() {
            return TwapStart::AlreadyRunning;
        }
        let id = new_run_id();
        tracker.start_run(id.clone(), 0);
        TwapStart::Started(id)
    }

    /// Records one sent slice of the run `id`.
    pub fn record_slice(tracker: &mut RunTracker<u64>, id: &String)
        requires
            old(tracker).wf(),
        ensures
            final(tracker).wf(),
            forall|i: int|
                0 <= i < old(tracker)@.len() && (#[trigger] old(tracker)@[i]).0 == id@
                    ==> final(tracker)@ == old(tracker)@.update(i, (id@, incremented(old(tracker)@[i].1))),
            !has_id(old(tracker)@, id@) ==> final(tracker)@ == old(tracker)@.push((id@, 1u64)),
    {
        tracker.increment(id);
    }
}

} // verus!
