//! Everything an operation can fail with. Each handler returns exactly one of
//! these; no state is changed on failure.
use crate::asset::{Asset, AssetInfo};
use vstd::prelude::*;

verus! {

/// The checked arithmetic operation that failed.
#[derive(Clone, Copy, Debug, PartialEq, Eq, Structural)]
pub enum OverflowOperation {
    Add,
    Sub,
    Mul,
}

/// A checked add, sub or mul left the representable range.
#[derive(Clone, Copy, Debug, PartialEq, Eq, Structural)]
pub struct OverflowError {
    pub operation: OverflowOperation,
    pub operand1: u128,
    pub operand2: u128,
}

/// A checked division or remainder had a zero divisor; `operand` is the
/// dividend.
#[derive(Clone, Copy, Debug, PartialEq, Eq, Structural)]
pub struct DivideByZeroError {
    pub operand: u128,
}

/// Host-level failures: arithmetic surfaced by the ledger's number types, and
/// malformed input at the boundary.
#[derive(Clone, Copy, Debug, PartialEq, Eq, Structural)]
#[allow(inconsistent_fields)]
pub enum StdError {
    /// The attached native funds do not match the amount the caller declared.
    NativeBalanceMismatch,
    /// A read of a record that does not exist.
    NotFound,
    Overflow { source: OverflowError },
    DivideByZero { source: DivideByZeroError },
    /// The integer part of a decimal string is not a number.
    DecimalParseWhole,
    /// The fractional part of a decimal string is not a number or is longer
    /// than the supported precision.
    DecimalParseFractional,
    /// A decimal string denotes a value outside the representable range.
    DecimalRangeExceeded,
}

/// The errors of the order book.
#[derive(Debug, PartialEq)]
#[allow(inconsistent_fields)]
pub enum ContractError {
    Std(StdError),
    OverflowError(OverflowError),
    /// The caller is not the configuration owner.
    Unauthorized,
    /// A transfer of a zero amount was requested.
    InvalidZeroAmount,
    /// The provided spread exceeds the allowed limit.
    AllowedSpreadAssertion,
    /// The operation exceeds the maximum spread limit.
    MaxSpreadAssertion,
    /// The token is already used to fund an order.
    AlreadyDeposited,
    /// The declared token deposit does not equal the recorded allowance.
    InvalidTokenDeposit,
    /// A hop leg's output asset is not whitelisted.
    InvalidHopRoute { token: String },
    /// No order with the given id exists for the user.
    NonexistentDca,
    /// The route has more hops than allowed.
    MaxHopsAssertion { hops: u32 },
    /// The user's tip balance cannot cover the requested fee.
    InsufficientTipBalance,
    /// The hop route is empty.
    EmptyHopRoute,
    /// The order's interval has not elapsed since its last purchase.
    PurchaseTooEarly,
    /// The route's final hop does not output the order's target asset.
    TargetAssetAssertion,
    /// The order's remaining deposit cannot cover one purchase.
    InsufficientBalance,
    /// The initial and target assets are the same.
    DuplicateAsset,
    /// The per-purchase amount exceeds the deposit.
    DepositTooSmall,
    /// The deposit is not an exact multiple of the per-purchase amount.
    IndivisibleDeposit,
    /// A tip deposit declared `sent` but the contract received `received`.
    InvalidTipDeposit { received: Asset, sent: Asset },
    /// A declared tip deposit has no matching attached funds.
    TipDepositMissingAsset { asset: Asset },
    /// The asset is not whitelisted as a tip currency.
    NonWhitelistedTipAsset { asset: AssetInfo },
    /// A withdrawal names an asset that was never deposited.
    TipAssetNotDeposited { asset: AssetInfo },
    /// A keeper asked to redeem more fee hops than the route performs.
    RedeemTipTooLarge { requested: u128, performed: u128 },
}

} // verus!
