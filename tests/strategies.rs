use std::sync::atomic::{AtomicBool, Ordering};
use std::sync::Arc;

use drift_agent_tools::order::{OrderError, OrderKind, OrderSpec};
use drift_agent_tools::tracker::RunTracker;
use drift_agent_tools::trailing::{
    compute_stop, parse_side, DriftTrailingStopOrderArgs, DriftTrailingStopOrders, Side,
    TrailAction, TrailingError, TrailingStart, TrailingStop,
};
use drift_agent_tools::twap::{
    is_limit_type, twap_plan, twap_slice_order, DriftTWAPOrders, TWAPOrder, TwapError, TwapStart,
};
use drift_agent_tools::vwap::{
    calculate_vwap, is_query_request, vwap_config, DriftVWAPOrders, DriftVWAPOrdersArgs,
    TradeData, VWAPTracker, VwapAction, VwapConfig, VwapError, VwapRequest, VwapRun,
};

fn twap(total: i64, duration: u64, interval: u64, kind: &str) -> TWAPOrder {
    TWAPOrder {
        market_index: 4,
        total_amount: total,
        total_duration_secs: duration,
        interval_secs: interval,
        order_type: kind.to_string(),
    }
}

#[test]
fn twap_twenty_seconds_at_five_gives_four_slices() {
    let plan = twap_plan(&twap(100, 20, 5, "market")).unwrap();
    assert_eq!(plan.slice_count, 4);
    assert_eq!(plan.slice_amount, 25);
    assert_eq!(plan.slice_native, 25_000_000_000);
    assert_eq!(plan.interval_secs, 5);
    assert!(!plan.limit);
    let odd = twap_plan(&twap(10, 20, 5, "limit")).unwrap();
    assert_eq!(odd.slice_amount, 2);
    assert!(odd.limit);
}

#[test]
fn twap_truncates_toward_zero_for_sells() {
    let plan = twap_plan(&twap(-10, 20, 5, "market")).unwrap();
    assert_eq!(plan.slice_amount, -2);
}

#[test]
fn twap_rejects_bad_schedules() {
    assert_eq!(twap_plan(&twap(10, 20, 0, "market")), Err(TwapError::ZeroInterval));
    assert_eq!(twap_plan(&twap(10, 4, 5, "market")), Err(TwapError::NoSlices));
    assert_eq!(
        twap_plan(&twap(3, 20, 5, "market")),
        Err(TwapError::Slice(OrderError::ZeroAmount))
    );
}

#[test]
fn twap_limit_slice_is_half_a_percent_above_oracle() {
    let plan = twap_plan(&twap(100, 20, 5, "limit")).unwrap();
    assert_eq!(
        twap_slice_order(&plan, 2_000_000),
        Ok(OrderSpec {
            market_index: 4,
            base_amount: 25_000_000_000,
            kind: OrderKind::Limit { price: 2_010_000 },
            post_only: false,
        })
    );
    assert_eq!(twap_slice_order(&plan, 0), Err(OrderError::InvalidPrice));
    let market = twap_plan(&twap(100, 20, 5, "market")).unwrap();
    assert_eq!(twap_slice_order(&market, 0).unwrap().kind, OrderKind::Market);
    assert!(is_limit_type(&"limit".to_string()));
    assert!(!is_limit_type(&"Limit".to_string()));
}

#[test]
fn twap_second_start_reports_instead_of_starting() {
    let mut t: RunTracker<u64> = RunTracker::new();
    let id = match DriftTWAPOrders::begin_run(&mut t) {
        TwapStart::Started(id) => id,
        TwapStart::AlreadyRunning => panic!("tracker was empty"),
    };
    assert_eq!(id.len(), 36);
    assert_eq!(t.len(), 1);
    DriftTWAPOrders::record_slice(&mut t, &id);
    DriftTWAPOrders::record_slice(&mut t, &id);
    assert_eq!(t.get(&id), Some(2));
    assert!(matches!(DriftTWAPOrders::begin_run(&mut t), TwapStart::AlreadyRunning));
    assert_eq!(t.len(), 1);
    assert_eq!(t.value_at(0), 2);
}

#[test]
fn run_identifiers_differ() {
    let mut a: RunTracker<u64> = RunTracker::new();
    let mut b: RunTracker<u64> = RunTracker::new();
    let (TwapStart::Started(x), TwapStart::Started(y)) =
        (DriftTWAPOrders::begin_run(&mut a), DriftTWAPOrders::begin_run(&mut b))
    else {
        panic!("trackers were empty")
    };
    assert_ne!(x, y);
    assert_eq!(x.as_bytes()[8], b'-');
}

fn tracker_with(samples: &[(u64, u64)]) -> VWAPTracker {
    let mut t = VWAPTracker::new();
    for (i, (p, v)) in samples.iter().enumerate() {
        t.trades.push(TradeData { timestamp: i as i64, price: *p, volume: *v });
    }
    t
}

#[test]
fn vwap_of_empty_history_is_input_price() {
    assert_eq!(calculate_vwap(&VWAPTracker::new(), 123), Ok(123));
}

#[test]
fn vwap_is_volume_weighted_mean() {
    assert_eq!(calculate_vwap(&tracker_with(&[(100, 1), (200, 3)]), 5), Ok(175));
    assert_eq!(calculate_vwap(&tracker_with(&[(10, 2), (11, 1)]), 5), Ok(10));
    assert_eq!(calculate_vwap(&tracker_with(&[(u64::MAX, u64::MAX)]), 5), Ok(u64::MAX));
}

#[test]
fn vwap_with_zero_volume_is_an_error() {
    assert_eq!(calculate_vwap(&tracker_with(&[(100, 0)]), 5), Err(VwapError::ZeroVolume));
}

fn no_args() -> DriftVWAPOrdersArgs {
    DriftVWAPOrdersArgs {
        market_index: None,
        size_per_order: None,
        timeframe: None,
        history_warm_up: None,
        stop_signal: None,
        duration_secs: None,
    }
}

#[test]
fn vwap_query_reports_and_changes_nothing() {
    let t = tracker_with(&[(100, 1)]);
    let mut args = no_args();
    args.market_index = Some(2);
    args.size_per_order = Some(0);
    assert!(is_query_request(&args));
    let r = DriftVWAPOrders.handle_request(&t, &args).unwrap();
    match r {
        VwapRequest::Query(s) => {
            assert_eq!(s.trade_count, 1);
            assert_eq!(s.run_count, 0);
            assert!(!s.history_ready);
        }
        _ => panic!("a query was read as another request"),
    }
    assert_eq!(t.trades.len(), 1);
}

#[test]
fn vwap_execution_request_gives_config() {
    let mut args = no_args();
    args.market_index = Some(1);
    args.size_per_order = Some(2);
    args.timeframe = Some(10);
    assert!(!is_query_request(&args));
    let c = vwap_config(&args).unwrap();
    assert_eq!(
        c,
        VwapConfig {
            market_index: 1,
            size_per_order: 2,
            order_native: 2_000_000_000,
            interval_secs: 10,
            warm_up_intervals: 5,
            duration_secs: None,
        }
    );
    args.duration_secs = Some(60);
    assert_eq!(vwap_config(&args).unwrap().duration_secs, Some(60));
    args.market_index = Some(70_000);
    assert_eq!(vwap_config(&args), Err(VwapError::InvalidMarket));
    args.market_index = Some(1);
    args.timeframe = Some(0);
    assert_eq!(
        DriftVWAPOrders.handle_request(&VWAPTracker::new(), &args),
        Err(VwapError::InvalidInterval)
    );
    args.timeframe = Some(10);
    args.history_warm_up = Some(-1);
    assert_eq!(vwap_config(&args), Err(VwapError::InvalidWarmUp));
    args.history_warm_up = None;
    args.duration_secs = Some(-1);
    assert_eq!(vwap_config(&args), Err(VwapError::InvalidDuration));
    args.duration_secs = None;
    args.size_per_order = Some(i64::MAX);
    assert_eq!(vwap_config(&args), Err(VwapError::Amount(OrderError::AmountOverflow)));
}

#[test]
fn vwap_run_warms_up_then_trades_until_stopped() {
    let mut args = no_args();
    args.size_per_order = Some(1);
    args.timeframe = Some(1);
    args.history_warm_up = Some(2);
    let mut run = VwapRun::new(vwap_config(&args).unwrap());
    assert_eq!(run.next_action(false, false), VwapAction::WarmUp);
    assert_eq!(run.next_action(false, false), VwapAction::WarmUp);
    assert_eq!(run.next_action(false, false), VwapAction::Trade);
    assert_eq!(run.next_action(false, false), VwapAction::Trade);
    assert_eq!(run.next_action(false, true), VwapAction::Stop);
    assert_eq!(run.next_action(true, false), VwapAction::Stop);
}

#[test]
fn vwap_tick_order_and_record() {
    let mut args = no_args();
    args.market_index = Some(3);
    args.size_per_order = Some(-1);
    args.timeframe = Some(1);
    let config = vwap_config(&args).unwrap();
    let mut t = VWAPTracker::new();
    let first = DriftVWAPOrders::tick_order(&t, &config, 1_500_000).unwrap();
    assert_eq!(first.kind, OrderKind::Limit { price: 1_500_000 });
    assert_eq!(first.base_amount, -1_000_000_000);
    let id = "run".to_string();
    t.record_trade(&id, &config, 7, 1_000_000, 1_500_000);
    t.record_trade(&id, &config, 8, 2_000_000, 1_500_000);
    assert_eq!(t.trades[0].volume, 1_000_000_000);
    assert!(t.history_ready);
    assert_eq!(t.orders.get(&id), Some(2));
    let next = DriftVWAPOrders::tick_order(&t, &config, 9).unwrap();
    assert_eq!(next.kind, OrderKind::Limit { price: 1_500_000 });
    assert_eq!(DriftVWAPOrders::tick_order(&t, &config, -1), Err(VwapError::InvalidPrice));
}

#[test]
fn stop_vwap_raises_the_flag() {
    let flag = Arc::new(AtomicBool::new(false));
    DriftVWAPOrders.stop_vwap(flag.clone());
    assert!(flag.load(Ordering::SeqCst));
}

#[test]
fn long_trailing_stop_ratchets_and_closes_at_stop() {
    let mut t = TrailingStop::new(Side::Long, 500, 1000);
    assert_eq!(t.stop_price, 950);
    assert_eq!(t.observe(1100), TrailAction::Hold { stop_price: 1045 });
    assert_eq!(t.extreme, 1100);
    assert_eq!(t.observe(1050), TrailAction::Hold { stop_price: 1045 });
    assert_eq!(t.observe(1046), TrailAction::Hold { stop_price: 1045 });
    assert_eq!(t.observe(1045), TrailAction::Close);
    assert_eq!(t.stop_price, 1045);
}

#[test]
fn short_trailing_stop_mirrors() {
    let mut t = TrailingStop::new(Side::Short, 1000, 1000);
    assert_eq!(t.stop_price, 1100);
    assert_eq!(t.observe(900), TrailAction::Hold { stop_price: 990 });
    assert_eq!(t.observe(950), TrailAction::Hold { stop_price: 990 });
    assert_eq!(t.observe(990), TrailAction::Close);
    assert_eq!(compute_stop(Side::Short, u64::MAX, 10_000), 2 * (u64::MAX as u128));
}

fn trailing_args(side: Option<&str>, amount: Option<i64>) -> DriftTrailingStopOrderArgs {
    DriftTrailingStopOrderArgs {
        market_index: Some(0),
        position_type: side.map(|s| s.to_string()),
        entry_price: None,
        trailing_stop_bps: None,
        total_amount: amount,
    }
}

#[test]
fn trailing_plan_opens_and_closes_in_opposite_directions() {
    let p = DriftTrailingStopOrders::plan(&trailing_args(Some("short"), Some(3))).unwrap();
    assert_eq!(p.side, Side::Short);
    assert_eq!(p.bps, 500);
    assert_eq!(p.open_order.base_amount, -3_000_000_000);
    assert_eq!(p.close_order.base_amount, 3_000_000_000);
    assert_eq!(p.close_order.kind, OrderKind::Market);
    assert_eq!(parse_side(&"long".to_string()), Some(Side::Long));
    assert_eq!(parse_side(&"up".to_string()), None);
}

#[test]
fn trailing_plan_rejects_bad_arguments() {
    let mut a = trailing_args(Some("long"), Some(1));
    a.market_index = None;
    assert_eq!(DriftTrailingStopOrders::plan(&a), Err(TrailingError::MissingMarket));
    assert_eq!(
        DriftTrailingStopOrders::plan(&trailing_args(None, Some(1))),
        Err(TrailingError::MissingSide)
    );
    assert_eq!(
        DriftTrailingStopOrders::plan(&trailing_args(Some("sideways"), Some(1))),
        Err(TrailingError::UnknownSide)
    );
    assert_eq!(
        DriftTrailingStopOrders::plan(&trailing_args(Some("long"), Some(0))),
        Err(TrailingError::InvalidAmount)
    );
    let mut b = trailing_args(Some("long"), Some(1));
    b.trailing_stop_bps = Some(10_001);
    assert_eq!(DriftTrailingStopOrders::plan(&b), Err(TrailingError::InvalidPercentage));
    assert_eq!(
        DriftTrailingStopOrders::plan(&trailing_args(Some("long"), Some(i64::MAX))),
        Err(TrailingError::Amount(OrderError::AmountOverflow))
    );
}

#[test]
fn trailing_second_start_reports_instead_of_starting() {
    let mut t: RunTracker<u128> = RunTracker::new();
    let args = trailing_args(Some("long"), Some(1));
    let id = match DriftTrailingStopOrders::begin_run(&mut t, &args) {
        TrailingStart::Started(id, _) => id,
        _ => panic!("tracker was empty"),
    };
    t.set(&id, 950);
    assert!(matches!(
        DriftTrailingStopOrders::begin_run(&mut t, &args),
        TrailingStart::AlreadyRunning
    ));
    assert_eq!(t.len(), 1);
    assert_eq!(t.get(&id), Some(950));
    let mut empty: RunTracker<u128> = RunTracker::new();
    assert!(matches!(
        DriftTrailingStopOrders::begin_run(&mut empty, &trailing_args(None, Some(1))),
        TrailingStart::Refused(TrailingError::MissingSide)
    ));
    assert!(empty.is_empty());
}

#[test]
fn vwap_stop_flag_request_and_run_start() {
    let mut args = no_args();
    args.stop_signal = Some(true);
    let mut t = VWAPTracker::new();
    assert_eq!(DriftVWAPOrders.handle_request(&t, &args), Ok(VwapRequest::Stop));
    let id = DriftVWAPOrders::start_run(&mut t);
    assert_eq!(id.len(), 36);
    assert_eq!(t.orders.get(&id), Some(0));
    assert!(t.trades.is_empty());
}
