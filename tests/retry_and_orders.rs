use drift_agent_tools::error::DriftDataError;
use drift_agent_tools::order::{
    build_order, scale_amount, DriftPlacePerpOrders, DriftPlacePerpOrdersArgs, OrderError,
    OrderKind, OrderSpec, PerpOrder,
};
use drift_agent_tools::retry::{
    backoff_delay_ms, classify_failure, find_bytes, retry_error_to_data_error, Backoff, FailureKind, RetryError, RetryStep,
    MAX_RETRIES, RETRY_DELAY_MS,
};

#[test]
fn backoff_delay_doubles_per_retry() {
    assert_eq!(backoff_delay_ms(1000, 0), Some(1000));
    assert_eq!(backoff_delay_ms(1000, 1), Some(2000));
    assert_eq!(backoff_delay_ms(1000, 3), Some(8000));
    assert_eq!(backoff_delay_ms(7, 4), Some(112));
    assert_eq!(backoff_delay_ms(0, 200), Some(0));
}

#[test]
fn backoff_delay_overflow_is_none() {
    assert_eq!(backoff_delay_ms(u64::MAX, 1), None);
    assert_eq!(backoff_delay_ms(1000, 64), None);
    assert_eq!(backoff_delay_ms(1, 63), Some(1u64 << 63));
}

#[test]
fn transient_failures_wait_then_give_up_after_max_retries() {
    let mut b = Backoff::new();
    let mut attempts = 1;
    let mut delays = Vec::new();
    loop {
        match b.on_failure(FailureKind::Transient) {
            RetryStep::Wait { delay_ms } => {
                delays.push(delay_ms);
                attempts += 1;
            }
            RetryStep::GiveUp(e) => {
                assert_eq!(e, RetryError::MaxRetriesExceeded);
                break;
            }
        }
    }
    assert_eq!(delays, vec![2000, 4000, 8000, 16000, 32000]);
    assert_eq!(attempts, MAX_RETRIES + 1);
    for (k, d) in delays.iter().enumerate() {
        assert_eq!(*d, RETRY_DELAY_MS * 2u64.pow(k as u32 + 1));
    }
    assert_eq!(
        b.on_failure(FailureKind::Transient),
        RetryStep::GiveUp(RetryError::MaxRetriesExceeded)
    );
}

#[test]
fn stale_state_gives_up_at_once() {
    let mut b = Backoff::new();
    assert_eq!(b.on_failure(FailureKind::Transient), RetryStep::Wait { delay_ms: 2000 });
    assert_eq!(
        b.on_failure(FailureKind::StaleState),
        RetryStep::GiveUp(RetryError::StaleState)
    );
    assert_eq!(b.failure_count(), 1);
}

#[test]
fn retry_errors_carry_messages() {
    assert_eq!(
        retry_error_to_data_error(RetryError::MaxRetriesExceeded).message,
        "Max retries reached"
    );
    assert_eq!(retry_error_to_data_error(RetryError::StaleState).to_string(), "Blockhash expired");
    assert_eq!(DriftDataError::new("boom").message, "boom");
}

#[test]
fn limit_order_scales_amount_and_price() {
    let o = PerpOrder { market_index: 3, amount: -2, price: Some(150), post_only: Some(true) };
    assert_eq!(
        build_order(&o),
        Ok(OrderSpec {
            market_index: 3,
            base_amount: -2_000_000_000,
            kind: OrderKind::Limit { price: 150_000_000 },
            post_only: true,
        })
    );
}

#[test]
fn market_order_without_or_with_zero_price() {
    let a = PerpOrder { market_index: 0, amount: 1, price: None, post_only: None };
    let b = PerpOrder { market_index: 0, amount: 1, price: Some(0), post_only: Some(false) };
    let want = Ok(OrderSpec {
        market_index: 0,
        base_amount: 1_000_000_000,
        kind: OrderKind::Market,
        post_only: false,
    });
    assert_eq!(build_order(&a), want);
    assert_eq!(build_order(&b), want);
}

#[test]
fn zero_and_overflowing_amounts_are_rejected() {
    assert_eq!(scale_amount(0), Err(OrderError::ZeroAmount));
    assert_eq!(scale_amount(i64::MAX), Err(OrderError::AmountOverflow));
    let o = PerpOrder { market_index: 0, amount: 1, price: Some(u64::MAX), post_only: None };
    assert_eq!(build_order(&o), Err(OrderError::PriceOverflow));
}

#[test]
fn only_first_order_is_prepared() {
    let args = DriftPlacePerpOrdersArgs {
        orders: vec![
            PerpOrder { market_index: 1, amount: 5, price: None, post_only: None },
            PerpOrder { market_index: 2, amount: 7, price: Some(10), post_only: None },
        ],
    };
    let r = DriftPlacePerpOrders::prepare_first_order(&args).unwrap();
    assert_eq!(r.market_index, 1);
    assert_eq!(r.base_amount, 5_000_000_000);
}

#[test]
fn empty_or_invalid_order_lists_are_rejected() {
    let empty = DriftPlacePerpOrdersArgs { orders: vec![] };
    assert_eq!(
        DriftPlacePerpOrders::prepare_first_order(&empty),
        Err(OrderError::EmptyOrderList)
    );
    let bad = DriftPlacePerpOrdersArgs {
        orders: vec![
            PerpOrder { market_index: 1, amount: 5, price: None, post_only: None },
            PerpOrder { market_index: 2, amount: 0, price: None, post_only: None },
        ],
    };
    assert_eq!(DriftPlacePerpOrders::prepare_first_order(&bad), Err(OrderError::ZeroAmount));
}

#[test]
fn stale_state_is_recognised_in_error_text() {
    assert_eq!(
        classify_failure(b"RPC response error -32002: Blockhash not found; 0 log messages"),
        FailureKind::StaleState
    );
    assert_eq!(classify_failure(b"429 Too Many Requests"), FailureKind::Transient);
    assert_eq!(classify_failure(b"Blockhash not foun"), FailureKind::Transient);
    assert_eq!(classify_failure(b""), FailureKind::Transient);
}

#[test]
fn byte_search_finds_needles() {
    assert!(find_bytes(b"abcabd", b"abd"));
    assert!(!find_bytes(b"abcab", b"abd"));
    assert!(find_bytes(b"abc", b""));
    assert!(!find_bytes(b"ab", b"abc"));
}
