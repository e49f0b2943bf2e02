use vstd::prelude::*;

verus! {

/// Native units of one whole unit of base asset.
pub const BASE_PRECISION: i64 = 1_000_000_000;

/// Native units of one whole unit of quote price.
pub const PRICE_PRECISION: u64 = 1_000_000;

/// One order as a caller states it: whole units of base asset, signed
/// (positive buys, negative sells), and an optional limit price in whole
/// units of quote.
#[derive(Debug, Clone, Copy, PartialEq, Eq, Structural)]
pub struct PerpOrder {
    pub market_index: u16,
    pub amount: i64,
    pub price: Option<u64>,
    pub post_only: Option<bool>,
}

/// The orders of one call of the order tool.
pub struct DriftPlacePerpOrdersArgs {
    pub orders: Vec<PerpOrder>,
}

/// The tool that places perp orders.
#[derive(Debug, Clone, Copy, PartialEq, Eq, Structural)]
pub struct DriftPlacePerpOrders;

/// Market or limit; a limit price is in native price units.
#[derive(Debug, Clone, Copy, PartialEq, Eq, Structural)]
pub enum OrderKind {
    Market,
    Limit { price: u64 },
}

/// An order ready for submission, in the exchange's native units.
#[derive(Debug, Clone, Copy, PartialEq, Eq, Structural)]
pub struct OrderSpec {
    pub market_index: u16,
    pub base_amount: i64,
    pub kind: OrderKind,
    pub post_only: bool,
}

/// Why an order cannot be built.
#[derive(Debug, Clone, Copy, PartialEq, Eq, Structural)]
pub enum OrderError {
    /// No order was given.
    EmptyOrderList,
    /// The amount is zero in native units.
    ZeroAmount,
    /// The amount does not fit in native units.
    AmountOverflow,
    /// The limit price does not fit in native units.
    PriceOverflow,
    /// A price that must be positive was not.
    InvalidPrice,
}

pub open spec fn in_i64(x: int) -> bool {
    i64::MIN <= x <= i64::MAX
}

/// A whole-unit amount in native units, or the error that forbids it.
pub open spec fn native_amount(amount: int) -> Result<i64, OrderError> {
    let n = amount * BASE_PRECISION;
    if !in_i64(n) {
        Err(OrderError::AmountOverflow)
    } else if n == 0 {
        Err(OrderError::ZeroAmount)
    } else {
        Ok(n as i64)
    }
}

/// The order that `o` stands for: a limit order where a positive price is
/// given, else a market order.
pub open spec fn order_spec_of(o: PerpOrder) -> Result<OrderSpec, OrderError> {
    let price: u64 = match o.price {
        Some(p) => p,
        None => 0,
    };
    let post_only: bool = match o.post_only {
        Some(b) => b,
        None => false,
    };
    match native_amount(o.amount as int) {
        Err(e) => Err(e),
        Ok(n) => if price > 0 {
            if price * PRICE_PRECISION > u64::MAX {
                Err(OrderError::PriceOverflow)
            } else {
                Ok(
                    OrderSpec {
                        market_index: o.market_index,
                        base_amount: n,
                        kind: OrderKind::Limit { price: (price * PRICE_PRECISION) as u64 },
                        post_only,
                    },
                )
            }
        } else {
            Ok(
                OrderSpec {
                    market_index: o.market_index,
                    base_amount: n,
                    kind: OrderKind::Market,
                    post_only,
                },
            )
        },
    }
}

/// Scales a whole-unit amount to native units; zero is rejected.
pub fn scale_amount(amount: i64) -> (r: Result<i64, OrderError>)
    ensures
        r == native_amount(amount as int),
{
    match amount.checked_mul(BASE_PRECISION) {
        None => Err(OrderError::AmountOverflow),
        Some(n) => if n == 0 {
            Err(OrderError::ZeroAmount)
        } else {
            Ok(n)
        },
    }
}

/// Builds the native order for `o`.
pub fn build_order(o: &PerpOrder) -> (r: Result<OrderSpec, OrderError>)
    ensures
        r == order_spec_of(*o),
{
    let price: u64 = match o.price {
        Some(p) => p,
        None => 0,
    };
    let post_only: bool = match o.post_only {
        Some(b) => b,
        None => false,
    };
    let n = match scale_amount(o.amount) {
        Err(e) => {
            return Err(e);
        },
        Ok(n) => n,
    };
    if price > 0 {
        match price.checked_mul(PRICE_PRECISION) {
            None => Err(OrderError::PriceOverflow),
            Some(p) => Ok(
                OrderSpec {
                    market_index: o.market_index,
                    base_amount: n,
                    kind: OrderKind::Limit { price: p },
                    post_only,
                },
            ),
        }
    } else {
        Ok(OrderSpec { market_index: o.market_index, base_amount: n, kind: OrderKind::Market, post_only })
    }
}

impl DriftPlacePerpOrders {
    /// Checks every order of `args` and returns the first, built: only the
    /// first order of a call is submitted. An empty list is an error, and
    /// so is any order that cannot be built (the first such one's error).
    pub fn prepare_first_order(args: &DriftPlacePerpOrdersArgs) -> (r: Result<OrderSpec, OrderError>)
        ensures
            args.orders@.len() == 0 ==> r == Err::<OrderSpec, OrderError>(
                OrderError::EmptyOrderList,
            ),
            args.orders@.len() > 0 && (forall|i: int|
                0 <= i < args.orders@.len() ==> (#[trigger] order_spec_of(args.orders@[i])) is Ok)
                ==> r == order_spec_of(args.orders@[0]),
            args.orders@.len() > 0 && !(forall|i: int|
                0 <= i < args.orders@.len() ==> (#[trigger] order_spec_of(args.orders@[i])) is Ok)
                ==> exists|j: int|
                0 <= j < args.orders@.len() && r == order_spec_of(args.orders@[j]) && r is Err
                    && forall|i: int| 0 <= i < j ==> (#[trigger] order_spec_of(args.orders@[i])) is Ok,
    {
        let n = args.orders.len();
        if n == 0 {
            return Err(OrderError::EmptyOrderList);
        }
        let mut i: usize = 0;
        while i < n
            invariant
                n == args.orders@.len(),
                i <= n,
                forall|k: int| 0 <= k < i ==> (#[trigger] order_spec_of(args.orders@[k])) is Ok,
            decreases n - i,
        {
            let built = build_order(&args.orders[i]);
            if built.is_err() {
                return built;
            }
            i = i + 1;
        }
        build_order(&args.orders[0])
    }
}

} // verus!
