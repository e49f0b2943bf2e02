use vstd::prelude::*;

use crate::order::{PerpOrder, BASE_PRECISION};
use crate::twap::trunc_div;

verus! {

/// A perp position of the account, amounts in native units.
#[derive(Debug, Clone, Copy, PartialEq, Eq, Structural)]
pub struct PerpPositionInfo {
    pub market_index: u16,
    pub base_asset_amount: i64,
    pub quote_asset_amount: i64,
    pub quote_entry_amount: i64,
    pub open_orders: u8,
}

/// A spot position of the account.
#[derive(Debug, Clone, Copy, PartialEq, Eq, Structural)]
pub struct SpotPositionInfo {
    pub market_index: u16,
    pub scaled_balance: u64,
    pub cumulative_deposits: i64,
    pub open_orders: u8,
}

/// An order of the account.
#[derive(Debug, Clone, Copy, PartialEq, Eq, Structural)]
pub struct OrderInfo {
    pub market_index: u16,
    pub order_id: u32,
    pub is_open: bool,
    pub price: u64,
    pub base_asset_amount: u64,
}

/// The account as read from the exchange.
pub struct AccountSnapshot {
    pub perp_positions: Vec<PerpPositionInfo>,
    pub spot_positions: Vec<SpotPositionInfo>,
    pub orders: Vec<OrderInfo>,
}

/// The open positions and orders of an account, after filtering.
pub struct OpenDriftPositions {
    pub perp_positions: Vec<PerpPositionInfo>,
    pub spot_positions: Vec<SpotPositionInfo>,
    pub open_orders: Vec<OrderInfo>,
}

/// The arguments of the position query.
pub struct GetOpenPositionsArgs {
    pub account_pubkey: Option<String>,
    pub market_index: Option<u16>,
    pub position_type: Option<String>,
}

/// The arguments of the market query.
#[derive(Debug, Clone, Copy, PartialEq, Eq, Structural)]
pub struct DriftInfoArgs {
    pub market_index: u16,
}

/// The tool that reads a market's configuration and the program state.
#[derive(Debug, Clone, Copy, PartialEq, Eq, Structural)]
pub struct DriftInfo;

/// The tool that lists open positions and orders.
#[derive(Debug, Clone, Copy, PartialEq, Eq, Structural)]
pub struct DriftGetOpenPositions;

pub open spec fn market_matches(filter: Option<u16>, m: u16) -> bool {
    match filter {
        Some(f) => f == m,
        None => true,
    }
}

/// A perp position is open when it holds base or quote, or has orders.
pub open spec fn perp_is_open(p: PerpPositionInfo) -> bool {
    p.base_asset_amount != 0 || p.quote_asset_amount != 0 || p.open_orders != 0
}

/// A spot position is in use when it holds a balance or has orders.
pub open spec fn spot_is_open(s: SpotPositionInfo) -> bool {
    s.scaled_balance != 0 || s.open_orders != 0
}

/// The open perp positions of `s` in the filtered market, in order.
pub open spec fn open_perps(s: Seq<PerpPositionInfo>, filter: Option<u16>) -> Seq<PerpPositionInfo>
    decreases s.len(),
{
    if s.len() == 0 {
        Seq::empty()
    } else if perp_is_open(s.last()) && market_matches(filter, s.last().market_index) {
        open_perps(s.drop_last(), filter).push(s.last())
    } else {
        open_perps(s.drop_last(), filter)
    }
}

/// The spot positions of `s` in use in the filtered market, in order.
pub open spec fn open_spots(s: Seq<SpotPositionInfo>, filter: Option<u16>) -> Seq<SpotPositionInfo>
    decreases s.len(),
{
    if s.len() == 0 {
        Seq::empty()
    } else if spot_is_open(s.last()) && market_matches(filter, s.last().market_index) {
        open_spots(s.drop_last(), filter).push(s.last())
    } else {
        open_spots(s.drop_last(), filter)
    }
}

/// The open orders of `s` in the filtered market, in order.
pub open spec fn open_orders_of(s: Seq<OrderInfo>, filter: Option<u16>) -> Seq<OrderInfo>
    decreases s.len(),
{
    if s.len() == 0 {
        Seq::empty()
    } else if s.last().is_open && market_matches(filter, s.last().market_index) {
        open_orders_of(s.drop_last(), filter).push(s.last())
    } else {
        open_orders_of(s.drop_last(), filter)
    }
}

fn filter_perps(s: &Vec<PerpPositionInfo>, filter: Option<u16>) -> (r: Vec<PerpPositionInfo>)
    ensures
        r@ == open_perps(s@, filter),
{
    let mut out: Vec<PerpPositionInfo> = Vec::new();
    let mut i: usize = 0;
    while i < s.len()
        invariant
            i <= s@.len(),
            out@ == open_perps(s@.take(i as int), filter),
        decreases s@.len() - i,
    {
        let p = s[i];
        assert(s@.take(i + 1).drop_last() =~= s@.take(i as int));
        let keep = (p.base_asset_amount != 0 || p.quote_asset_amount != 0 || p.open_orders != 0)
            && match filter {
            Some(f) => f == p.market_index,
            None => true,
        };
        if keep {
            out.push(p);
        }
        i = i + 1;
    }
    assert(s@.take(s@.len() as int) =~= s@);
    out
}

fn filter_spots(s: &Vec<SpotPositionInfo>, filter: Option<u16>) -> (r: Vec<SpotPositionInfo>)
    ensures
        r@ == open_spots(s@, filter),
{
    let mut out: Vec<SpotPositionInfo> = Vec::new();
    let mut i: usize = 0;
    while i < s.len()
        invariant
            i <= s@.len(),
            out@ == open_spots(s@.take(i as int), filter),
        decreases s@.len() - i,
    {
        let p = s[i];
        assert(s@.take(i + 1).drop_last() =~= s@.take(i as int));
        let keep = (p.scaled_balance != 0 || p.open_orders != 0) && match filter {
            Some(f) => f == p.market_index,
            None => true,
        };
        if keep {
            out.push(p);
        }
        i = i + 1;
    }
    assert(s@.take(s@.len() as int) =~= s@);
    out
}

fn filter_orders(s: &Vec<OrderInfo>, filter: Option<u16>) -> (r: Vec<OrderInfo>)
    ensures
        r@ == open_orders_of(s@, filter),
{
    let mut out: Vec<OrderInfo> = Vec::new();
    let mut i: usize = 0;
    while i < s.len()
        invariant
            i <= s@.len(),
            out@ == open_orders_of(s@.take(i as int), filter),
        decreases s@.len() - i,
    {
        let p = s[i];
        assert(s@.take(i + 1).drop_last() =~= s@.take(i as int));
        let keep = p.is_open && match filter {
            Some(f) => f == p.market_index,
            None => true,
        };
        if keep {
            out.push(p);
        }
        i = i + 1;
    }
    assert(s@.take(s@.len() as int) =~= s@);
    out
}

impl DriftGetOpenPositions {
    /// The open perp positions, the spot positions in use and the open
    /// orders of `account`, each kept in order and limited to the market
    /// `market_index` where one is given.
    pub fn select_open_positions(account: &AccountSnapshot, market_index: Option<u16>) -> (r:
        OpenDriftPositions)
        ensures
            r.perp_positions@ == open_perps(account.perp_positions@, market_index),
            r.spot_positions@ == open_spots(account.spot_positions@, market_index),
            r.open_orders@ == open_orders_of(account.orders@, market_index),
    {
        OpenDriftPositions {
            perp_positions: filter_perps(&account.perp_positions, market_index),
            spot_positions: filter_spots(&account.spot_positions, market_index),
            open_orders: filter_orders(&account.orders, market_index),
        }
    }
}

/// Which positions a close may target.
#[derive(Debug, Clone, Copy, PartialEq, Eq, Structural)]
pub enum SideFilter {
    Both,
    Long,
    Short,
}

/// The filter that `s` names: `"both"`, `"long"` or `"short"`.
pub open spec fn side_filter_of(s: Seq<char>) -> Option<SideFilter> {
    if s == "both"@ {
        Some(SideFilter::Both)
    } else if s == "long"@ {
        Some(SideFilter::Long)
    } else if s == "short"@ {
        Some(SideFilter::Short)
    } else {
        None
    }
}

/// Reads a side filter from its name.
pub fn parse_side_filter(s: &String) -> (r: Option<SideFilter>)
    ensures
        r == side_filter_of(s@),
{
    if *s == String::from_str("both") {
        Some(SideFilter::Both)
    } else if *s == String::from_str("long") {
        Some(SideFilter::Long)
    } else if *s == String::from_str("short") {
        Some(SideFilter::Short)
    } else {
        None
    }
}

/// The arguments of the close tool. The share to close is in basis
/// points, from 100 (one percent) to 10000 (all), and all where absent.
pub struct DriftClosePerpPositionArgs {
    pub market_index: u16,
    pub position_type: Option<String>,
    pub percentage_bps: Option<u64>,
}

/// The tool that closes a perp position.
#[derive(Debug, Clone, Copy, PartialEq, Eq, Structural)]
pub struct DriftClosePerpPosition;

/// What a close comes to.
#[derive(Debug, Clone, Copy, PartialEq, Eq, Structural)]
pub enum CloseDecision {
    /// No position matches: nothing to do.
    NoPosition,
    /// Several positions match: the target is ambiguous and nothing is
    /// submitted.
    Ambiguous { count: usize },
    /// The share to close comes to zero whole units.
    TooSmall,
    /// Submit this offsetting order.
    Close(PerpOrder),
}

/// Why a close is refused before positions are looked at.
#[derive(Debug, Clone, Copy, PartialEq, Eq, Structural)]
pub enum CloseError {
    /// The side filter names no side.
    UnsupportedFilter,
    /// The share is outside 100..=10000 basis points.
    InvalidPercentage,
}

/// Whether `p` is a target of a close in market `m` on side `f`.
pub open spec fn close_target(p: PerpPositionInfo, m: u16, f: SideFilter) -> bool {
    p.market_index == m && match f {
        SideFilter::Both => true,
        SideFilter::Long => p.base_asset_amount > 0,
        SideFilter::Short => p.base_asset_amount < 0,
    }
}

/// The targets of a close among `s`, in order.
pub open spec fn close_targets(s: Seq<PerpPositionInfo>, m: u16, f: SideFilter) -> Seq<
    PerpPositionInfo,
>
    decreases s.len(),
{
    if s.len() == 0 {
        Seq::empty()
    } else if close_target(s.last(), m, f) {
        close_targets(s.drop_last(), m, f).push(s.last())
    } else {
        close_targets(s.drop_last(), m, f)
    }
}

/// `x / d` rounded to the nearest integer, halves away from zero.
pub open spec fn round_div(x: int, d: int) -> int
    recommends
        d > 0,
{
    if x >= 0 {
        (x + d / 2) / d
    } else {
        -((-x + d / 2) / d)
    }
}

/// The whole units to close of a position of `base` native units, for a
/// share of `bps` basis points: the native share rounded, then truncated
/// to whole units.
pub open spec fn close_units(base: int, bps: int) -> int {
    trunc_div(round_div(base * bps, 10_000), BASE_PRECISION as int)
}

/// What a close of market `m`, side `f` and share `bps` comes to on
/// `positions`.
pub open spec fn close_decision_of(positions: Seq<PerpPositionInfo>, m: u16, f: SideFilter, bps: u64)
    -> CloseDecision {
    let t = close_targets(positions, m, f);
    if t.len() == 0 {
        CloseDecision::NoPosition
    } else if t.len() > 1 {
        CloseDecision::Ambiguous { count: t.len() as usize }
    } else if close_units(t[0].base_asset_amount as int, bps as int) == 0 {
        CloseDecision::TooSmall
    } else {
        CloseDecision::Close(
            PerpOrder {
                market_index: m,
                amount: (-close_units(t[0].base_asset_amount as int, bps as int)) as i64,
                price: None,
                post_only: None,
            },
        )
    }
}

fn matching_positions(s: &Vec<PerpPositionInfo>, m: u16, f: SideFilter) -> (r: Vec<
    PerpPositionInfo,
>)
    ensures
        r@ == close_targets(s@, m, f),
{
    let mut out: Vec<PerpPositionInfo> = Vec::new();
    let mut i: usize = 0;
    while i < s.len()
        invariant
            i <= s@.len(),
            out@ == close_targets(s@.take(i as int), m, f),
        decreases s@.len() - i,
    {
        let p = s[i];
        assert(s@.take(i + 1).drop_last() =~= s@.take(i as int));
        let keep = p.market_index == m && match f {
            SideFilter::Both => true,
            SideFilter::Long => p.base_asset_amount > 0,
            SideFilter::Short => p.base_asset_amount < 0,
        };
        if keep {
            out.push(p);
        }
        i = i + 1;
    }
    assert(s@.take(s@.len() as int) =~= s@);
    out
}

/// The whole units to close of `base` native units at `bps` basis points.
pub fn compute_close_units(base: i64, bps: u64) -> (r: i64)
    requires
        bps <= 10_000,
    ensures
        r == close_units(base as int, bps as int),
        -10_000_000_000 <= r <= 10_000_000_000,
{
    assert(-(i64::MAX as int) * 10_001 <= base * bps <= i64::MAX * 10_000) by (nonlinear_arith)
        requires
            i64::MIN <= base <= i64::MAX,
            0 <= bps <= 10_000,
    ;
    let x: i128 = (base as i128) * (bps as i128);
    assert(-(i64::MAX as int) * 10_001 <= x <= i64::MAX * 10_000) by (nonlinear_arith)
        requires
            x == base * bps,
            i64::MIN <= base <= i64::MAX,
            0 <= bps <= 10_000,
    ;
    let rounded: i128 = if x >= 0 {
        (x + 5_000) / 10_000
    } else {
        -((-x + 5_000) / 10_000)
    };
    let units: i128 = if rounded >= 0 {
        rounded / 1_000_000_000
    } else {
        -((-rounded) / 1_000_000_000)
    };
    assert(-10_000_000_000i128 <= units <= 10_000_000_000i128);
    units as i64
}

impl DriftClosePerpPosition {
    /// Decides a close on the account's perp `positions`. With no matching
    /// position the answer is `NoPosition`, and with more than one it is
    /// `Ambiguous`: neither submits anything. With exactly one, the share
    /// of its base amount is rounded to native units and truncated to whole
    /// units; zero is `TooSmall`, else the order offsets it with the
    /// opposite sign.
    pub fn plan_close(args: &DriftClosePerpPositionArgs, positions: &Vec<PerpPositionInfo>) -> (r:
        Result<CloseDecision, CloseError>)
        ensures
            match args.position_type {
                Some(s) => side_filter_of(s@) is None ==> r == Err::<CloseDecision, CloseError>(
                    CloseError::UnsupportedFilter,
                ),
                None => true,
            },
            match args.percentage_bps {
                Some(b) => !(100 <= b <= 10_000) && (match args.position_type {
                    Some(s) => side_filter_of(s@) is Some,
                    None => true,
                }) ==> r == Err::<CloseDecision, CloseError>(CloseError::InvalidPercentage),
                None => true,
            },
            r is Ok ==> r == Ok::<CloseDecision, CloseError>(
                close_decision_of(
                    positions@,
                    args.market_index,
                    match args.position_type {
                        Some(s) => side_filter_of(s@).unwrap(),
                        None => SideFilter::Both,
                    },
                    match args.percentage_bps {
                        Some(b) => b,
                        None => 10_000,
                    },
                ),
            ),
            r is Err ==> (match args.position_type {
                Some(s) => side_filter_of(s@) is None,
                None => false,
            }) || (match args.percentage_bps {
                Some(b) => !(100 <= b <= 10_000),
                None => false,
            }),
    {
        let f = match &args.position_type {
            None => SideFilter::Both,
            Some(s) => match parse_side_filter(s) {
                None => {
                    return Err(CloseError::UnsupportedFilter);
                },
                Some(f) => f,
            },
        };
        let bps: u64 = match args.percentage_bps {
            None => 10_000,
            Some(b) => b,
        };
        if bps < 100 || bps > 10_000 {
            return Err(CloseError::InvalidPercentage);
        }
        let targets = matching_positions(positions, args.market_index, f);
        if targets.len() == 0 {
            return Ok(CloseDecision::NoPosition);
        }
        if targets.len() > 1 {
            return Ok(CloseDecision::Ambiguous { count: targets.len() });
        }
        let units = compute_close_units(targets[0].base_asset_amount, bps);
        if units == 0 {
            return Ok(CloseDecision::TooSmall);
        }
        Ok(
            CloseDecision::Close(
                PerpOrder { market_index: args.market_index, amount: -units, price: None, post_only: None },
            ),
        )
    }
}

} // verus!
