use vstd::prelude::*;

verus! {

/// The arguments of a deposit: an amount of a spot market's token.
pub struct DepositArgs {
    pub amount: u64,
    pub spot_market_index: u16,
    pub user_token_account: String,
    pub reduce_only: Option<bool>,
}

/// The arguments of a withdrawal: an amount of a spot market's token.
pub struct WithdrawArgs {
    pub amount: u64,
    pub spot_market_index: u16,
    pub user_token_account: String,
    pub reduce_only: Option<bool>,
}

/// The tool that builds deposit instruction data.
#[derive(Debug, Clone, Copy, PartialEq, Eq, Structural)]
pub struct Deposit;

/// The tool that builds withdrawal instruction data.
#[derive(Debug, Clone, Copy, PartialEq, Eq, Structural)]
pub struct Withdraw;

/// The fields of a deposit or withdrawal instruction.
#[derive(Debug, Clone, Copy, PartialEq, Eq, Structural)]
pub struct TransferFields {
    pub market_index: u16,
    pub amount: u64,
    pub reduce_only: bool,
}

impl Deposit {
    /// The instruction fields of a deposit; not reduce-only where unsaid.
    pub fn fields(args: &DepositArgs) -> (r: TransferFields)
        ensures
            r.market_index == args.spot_market_index,
            r.amount == args.amount,
            r.reduce_only == (args.reduce_only == Some(true)),
    {
        TransferFields {
            market_index: args.spot_market_index,
            amount: args.amount,
            reduce_only: match args.reduce_only {
                Some(b) => b,
                None => false,
            },
        }
    }
}

impl Withdraw {
    /// The instruction fields of a withdrawal; not reduce-only where
    /// unsaid.
    pub fn fields(args: &WithdrawArgs) -> (r: TransferFields)
        ensures
            r.market_index == args.spot_market_index,
            r.amount == args.amount,
            r.reduce_only == (args.reduce_only == Some(true)),
    {
        TransferFields {
            market_index: args.spot_market_index,
            amount: args.amount,
            reduce_only: match args.reduce_only {
                Some(b) => b,
                None => false,
            },
        }
    }
}

} // verus!
