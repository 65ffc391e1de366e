//! One recurring-purchase order and the message shapes of the contract's
//! public interface.
use crate::asset::{Asset, AssetInfo};
use crate::decimal::Decimal;
use crate::router::SwapOperation;
use crate::search::{find_first, lemma_find_first_is_none, lemma_find_first_is_some};
use vstd::prelude::*;

verus! {

/// One recurring-purchase plan.
#[derive(Debug, PartialEq)]
pub struct DcaInfo {
    /// The order's id, unique within the owning user's order set.
    pub id: u64,
    /// The deposited asset still available to fund purchases.
    pub initial_asset: Asset,
    /// The asset identity being purchased.
    pub target_asset: AssetInfo,
    /// The seconds between eligible purchases.
    pub interval: u64,
    /// When the target was last purchased, or the caller-chosen first
    /// eligible time for a fresh order.
    pub last_purchase: u64,
    /// The amount of the initial asset spent on each purchase.
    pub dca_amount: u128,
}

impl Clone for DcaInfo {
    fn clone(&self) -> (r: Self)
        ensures
            r == *self,
    {
        DcaInfo {
            id: self.id,
            initial_asset: self.initial_asset.clone(),
            target_asset: self.target_asset.clone(),
            interval: self.interval,
            last_purchase: self.last_purchase,
            dca_amount: self.dca_amount,
        }
    }
}

/// The index of the order with the given id, if the set holds one.
pub open spec fn find_order(orders: Seq<DcaInfo>, id: u64) -> Option<int> {
    find_first(orders, |o: DcaInfo| o.id == id)
}

/// First index in `orders` of the order with the given id.
#[verifier::loop_isolation(false)]
pub fn find_order_by_id(orders: &Vec<DcaInfo>, id: u64) -> (r: Option<usize>)
    ensures
        match r {
            Some(i) => i < orders@.len() && find_order(orders@, id) == Some(i as int),
            None => find_order(orders@, id) is None,
        },
{
    let ghost p = |o: DcaInfo| o.id == id;
    let mut i: usize = 0;
    while i < orders.len()
        invariant
            i <= orders@.len(),
            forall|j: int| 0 <= j < i ==> !p(#[trigger] orders@[j]),
        decreases orders@.len() - i,
    {
        if orders[i].id == id {
            proof {
                assert(p(orders@[i as int]));
                lemma_find_first_is_some(orders@, p, i as int);
            }
            return Some(i);
        }
        proof {
            assert(!p(orders@[i as int]));
        }
        i += 1;
    }
    proof {
        lemma_find_first_is_none(orders@, p);
    }
    None
}

/// The parameters the contract is instantiated with.
#[derive(Debug)]
pub struct InstantiateMsg {
    /// The default hop ceiling.
    pub max_hops: u32,
    /// The assets allowed as intermediate hop legs.
    pub whitelisted_tokens: Vec<AssetInfo>,
    /// The assets accepted as tip currency, each with its fee-per-hop unit.
    pub whitelisted_fee_assets: Vec<Asset>,
    /// The default spread ceiling, as a decimal string.
    pub max_spread: String,
    /// The pool-registry collaborator's address.
    pub factory_addr: String,
    /// The swap-routing collaborator's address.
    pub router_addr: String,
}

/// The state-mutating operations of the contract.
#[derive(Debug)]
pub enum ExecuteMsg {
    /// Deposit the listed assets into the sender's tip balance.
    AddBotTip { assets: Vec<Asset> },
    /// Cancel the sender's order `id`, refunding a native remainder.
    CancelDcaOrder { id: u64 },
    /// Create a new order spending `dca_amount` of `initial_asset` on
    /// `target_asset` every `interval` seconds, eligible from
    /// `first_purchase` if given.
    CreateDcaOrder {
        initial_asset: Asset,
        target_asset: AssetInfo,
        interval: u64,
        dca_amount: u128,
        first_purchase: Option<u64>,
    },
    /// Replace the parameters of the sender's order `id`.
    ModifyDcaOrder {
        id: u64,
        new_initial_asset: Asset,
        new_target_asset: AssetInfo,
        new_interval: u64,
        new_dca_amount: u128,
        new_first_purchase: Option<u64>,
    },
    /// Perform a purchase of `user`'s order `id` over the route `hops`,
    /// redeeming `fee_redeem` from the user's tip balance as the keeper fee.
    PerformDcaPurchase { user: String, id: u64, hops: Vec<SwapOperation>, fee_redeem: Vec<Asset> },
    /// Update the contract configuration; unset fields keep their value.
    UpdateConfig {
        max_hops: Option<u32>,
        whitelisted_tokens: Option<Vec<AssetInfo>>,
        whitelisted_fee_assets: Option<Vec<Asset>>,
        max_spread: Option<Decimal>,
    },
    /// Replace the sender's policy overrides.
    UpdateUserConfig { max_hops: Option<u32>, max_spread: Option<Decimal> },
    /// Withdraw the listed amounts from the sender's tip balance.
    Withdraw { assets: Vec<Asset> },
}

/// The read-only operations of the contract.
#[derive(Debug)]
pub enum QueryMsg {
    /// The user's orders, enriched with each order's spendable amount.
    UserDcaOrders { user: String },
    /// The contract configuration.
    Config,
    /// The user's override configuration.
    UserConfig { user: String },
}

/// A migration takes no arguments.
#[derive(Debug, PartialEq)]
pub struct MigrateMsg {}

/// One order as a query reports it: the stored order, and the amount actually
/// spendable right now (the stored amount for a native asset, the live
/// allowance for a token).
#[derive(Debug, PartialEq)]
pub struct DcaQueryInfo {
    pub token_allowance: u128,
    pub order: DcaInfo,
}

} // verus!
