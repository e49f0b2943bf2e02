use drift_agent_tools::order::PerpOrder;
use drift_agent_tools::positions::{
    compute_close_units, parse_side_filter, AccountSnapshot, CloseDecision, CloseError,
    DriftClosePerpPosition, DriftClosePerpPositionArgs, DriftGetOpenPositions, OrderInfo,
    PerpPositionInfo, SideFilter, SpotPositionInfo,
};
use drift_agent_tools::transfer::{Deposit, DepositArgs, Withdraw, WithdrawArgs};
use drift_agent_tools::vault::DriftVaultInfo;

fn perp(market: u16, base: i64) -> PerpPositionInfo {
    PerpPositionInfo {
        market_index: market,
        base_asset_amount: base,
        quote_asset_amount: 0,
        quote_entry_amount: 0,
        open_orders: 0,
    }
}

fn close_args(side: Option<&str>, bps: Option<u64>) -> DriftClosePerpPositionArgs {
    DriftClosePerpPositionArgs {
        market_index: 7,
        position_type: side.map(|s| s.to_string()),
        percentage_bps: bps,
    }
}

#[test]
fn open_positions_are_filtered_by_state_and_market() {
    let account = AccountSnapshot {
        perp_positions: vec![perp(1, 5), perp(1, 0), perp(2, -5)],
        spot_positions: vec![
            SpotPositionInfo { market_index: 1, scaled_balance: 0, cumulative_deposits: 0, open_orders: 0 },
            SpotPositionInfo { market_index: 1, scaled_balance: 9, cumulative_deposits: 9, open_orders: 0 },
        ],
        orders: vec![
            OrderInfo { market_index: 1, order_id: 1, is_open: true, price: 1, base_asset_amount: 1 },
            OrderInfo { market_index: 1, order_id: 2, is_open: false, price: 1, base_asset_amount: 1 },
            OrderInfo { market_index: 2, order_id: 3, is_open: true, price: 1, base_asset_amount: 1 },
        ],
    };
    let all = DriftGetOpenPositions::select_open_positions(&account, None);
    assert_eq!(all.perp_positions, vec![perp(1, 5), perp(2, -5)]);
    assert_eq!(all.spot_positions.len(), 1);
    assert_eq!(all.open_orders.len(), 2);
    let one = DriftGetOpenPositions::select_open_positions(&account, Some(1));
    assert_eq!(one.perp_positions, vec![perp(1, 5)]);
    assert_eq!(one.open_orders.len(), 1);
    assert_eq!(one.open_orders[0].order_id, 1);
}

#[test]
fn close_with_no_matching_position_is_a_no_op() {
    let positions = vec![perp(3, 5_000_000_000), perp(7, -5_000_000_000)];
    assert_eq!(
        DriftClosePerpPosition::plan_close(&close_args(Some("long"), None), &positions),
        Ok(CloseDecision::NoPosition)
    );
    assert_eq!(
        DriftClosePerpPosition::plan_close(&close_args(None, None), &vec![]),
        Ok(CloseDecision::NoPosition)
    );
}

#[test]
fn close_with_several_matches_is_ambiguous() {
    let positions = vec![perp(7, 5_000_000_000), perp(7, -2_000_000_000)];
    assert_eq!(
        DriftClosePerpPosition::plan_close(&close_args(None, None), &positions),
        Ok(CloseDecision::Ambiguous { count: 2 })
    );
    assert_eq!(
        DriftClosePerpPosition::plan_close(&close_args(Some("both"), None), &positions),
        Ok(CloseDecision::Ambiguous { count: 2 })
    );
}

#[test]
fn close_offsets_the_share_of_the_position() {
    let positions = vec![perp(7, 4_000_000_000), perp(7, -3_000_000_000)];
    assert_eq!(
        DriftClosePerpPosition::plan_close(&close_args(Some("long"), Some(5_000)), &positions),
        Ok(CloseDecision::Close(PerpOrder { market_index: 7, amount: -2, price: None, post_only: None }))
    );
    assert_eq!(
        DriftClosePerpPosition::plan_close(&close_args(Some("short"), None), &positions),
        Ok(CloseDecision::Close(PerpOrder { market_index: 7, amount: 3, price: None, post_only: None }))
    );
}

#[test]
fn close_of_less_than_a_unit_is_too_small() {
    let positions = vec![perp(7, 1_500_000_000)];
    assert_eq!(
        DriftClosePerpPosition::plan_close(&close_args(None, Some(5_000)), &positions),
        Ok(CloseDecision::TooSmall)
    );
}

#[test]
fn close_rejects_bad_filters_and_shares() {
    let positions = vec![perp(7, 1_000_000_000)];
    assert_eq!(
        DriftClosePerpPosition::plan_close(&close_args(Some("perp"), None), &positions),
        Err(CloseError::UnsupportedFilter)
    );
    assert_eq!(
        DriftClosePerpPosition::plan_close(&close_args(None, Some(99)), &positions),
        Err(CloseError::InvalidPercentage)
    );
    assert_eq!(
        DriftClosePerpPosition::plan_close(&close_args(None, Some(10_001)), &positions),
        Err(CloseError::InvalidPercentage)
    );
    assert_eq!(parse_side_filter(&"short".to_string()), Some(SideFilter::Short));
}

#[test]
fn close_units_round_then_truncate() {
    assert_eq!(compute_close_units(2_999_999_999, 10_000), 2);
    assert_eq!(compute_close_units(-2_999_999_999, 10_000), -2);
    assert_eq!(compute_close_units(3_333_333_333, 3_000), 1);
    assert_eq!(compute_close_units(i64::MIN, 10_000), -9_223_372_036);
    assert_eq!(compute_close_units(19_999, 5_000), 0);
}

#[test]
fn vault_name_keeps_readable_bytes() {
    let mut name = [0u8; 32];
    name[..7].copy_from_slice(b"my vlt\x01");
    name[10] = b'!';
    assert_eq!(DriftVaultInfo::vault_name(&name), b"my vlt!".to_vec());
}

#[test]
fn transfer_fields_default_reduce_only_off() {
    let d = Deposit::fields(&DepositArgs {
        amount: 5,
        spot_market_index: 1,
        user_token_account: "acct".to_string(),
        reduce_only: None,
    });
    assert_eq!((d.market_index, d.amount, d.reduce_only), (1, 5, false));
    let w = Withdraw::fields(&WithdrawArgs {
        amount: 6,
        spot_market_index: 2,
        user_token_account: "acct".to_string(),
        reduce_only: Some(true),
    });
    assert_eq!((w.market_index, w.amount, w.reduce_only), (2, 6, true));
}
