//! The stored records: the contract-wide configuration and the per-user
//! override record with its keeper-tip balance.
use crate::asset::{asset_info_eq, Asset, AssetInfo};
use crate::decimal::Decimal;
use vstd::prelude::*;

verus! {

/// The contract-wide configuration, created at instantiation and mutated only
/// by the configuration owner.
#[derive(Debug, PartialEq)]
pub struct Config {
    /// The hop ceiling for purchases when the user sets no override.
    pub max_hops: u32,
    /// The spread ceiling for purchases when the user sets no override.
    pub max_spread: Decimal,
    /// The assets accepted as keeper-tip currency, each carrying its
    /// fee-per-hop unit amount.
    pub whitelisted_fee_assets: Vec<Asset>,
    /// The assets allowed as intermediate hop legs of a purchase route.
    pub whitelisted_tokens: Vec<AssetInfo>,
    /// The pool-registry collaborator whose recorded owner authorizes
    /// configuration updates.
    pub factory_addr: String,
    /// The swap-routing collaborator that executes purchase routes.
    pub router_addr: String,
}

/// Some asset in `s` has the identity `info`; `s` pairs each fee asset with
/// its fee-per-hop unit, so membership goes by identity alone.
pub open spec fn contains_fee_asset(s: Seq<Asset>, info: AssetInfo) -> bool {
    exists|i: int| 0 <= i < s.len() && asset_info_eq(#[trigger] s[i].info, info)
}

impl Config {
    /// Whether `asset` may appear as an intermediate hop leg.
    #[verifier::loop_isolation(false)]
    pub fn is_whitelisted_asset(&self, asset: &AssetInfo) -> (r: bool)
        ensures
            r == crate::asset::contains_info(self.whitelisted_tokens@, *asset),
    {
        let mut i: usize = 0;
        while i < self.whitelisted_tokens.len()
            invariant
                i <= self.whitelisted_tokens@.len(),
                forall|j: int| 0 <= j < i ==> !asset_info_eq(
                    #[trigger] self.whitelisted_tokens@[j],
                    *asset,
                ),
            decreases self.whitelisted_tokens@.len() - i,
        {
            if self.whitelisted_tokens[i] == *asset {
                return true;
            }
            i += 1;
        }
        false
    }

    /// Whether `asset` may pay keeper tips.
    #[verifier::loop_isolation(false)]
    pub fn is_whitelisted_fee_asset(&self, asset: &AssetInfo) -> (r: bool)
        ensures
            r == contains_fee_asset(self.whitelisted_fee_assets@, *asset),
    {
        let mut i: usize = 0;
        while i < self.whitelisted_fee_assets.len()
            invariant
                i <= self.whitelisted_fee_assets@.len(),
                forall|j: int| 0 <= j < i ==> !asset_info_eq(
                    #[trigger] self.whitelisted_fee_assets@[j].info,
                    *asset,
                ),
            decreases self.whitelisted_fee_assets@.len() - i,
        {
            if self.whitelisted_fee_assets[i].info == *asset {
                return true;
            }
            i += 1;
        }
        false
    }
}

/// One user's override record: the id-allocation counter, optional policy
/// overrides and the multi-asset tip balance (at most one entry per asset
/// identity).
#[derive(Debug, PartialEq)]
pub struct UserConfig {
    /// The last order id allocated to this user.
    pub last_id: u64,
    /// Overrides the contract-wide hop ceiling when set.
    pub max_hops: Option<u32>,
    /// Overrides the contract-wide spread ceiling when set.
    pub max_spread: Option<Decimal>,
    /// The tip balance deposited for keeper fees.
    pub tip_balance: Vec<Asset>,
}

impl Default for UserConfig {
    /// The record a user has before their first write: counter at zero, no
    /// overrides, no balance.
    fn default() -> (r: Self)
        ensures
            r.last_id == 0,
            r.max_hops is None,
            r.max_spread is None,
            r.tip_balance@ == Seq::<Asset>::empty(),
    {
        UserConfig { last_id: 0, max_hops: None, max_spread: None, tip_balance: Vec::new() }
    }
}

/// Clones a list of assets, value for value.
pub fn clone_assets(v: &Vec<Asset>) -> (r: Vec<Asset>)
    ensures
        r@ == v@,
{
    let r = v.clone();
    proof {
        assert(r@ =~= v@);
    }
    r
}

/// Clones a list of asset identities, value for value.
pub fn clone_asset_infos(v: &Vec<AssetInfo>) -> (r: Vec<AssetInfo>)
    ensures
        r@ == v@,
{
    let r = v.clone();
    proof {
        assert(r@ =~= v@);
    }
    r
}

/// The two records hold the same configuration: equal field for field, lists
/// compared by their contents.
pub open spec fn user_config_eqv(a: UserConfig, b: UserConfig) -> bool {
    &&& a.last_id == b.last_id
    &&& a.max_hops == b.max_hops
    &&& a.max_spread == b.max_spread
    &&& a.tip_balance@ == b.tip_balance@
}

/// The two configurations are the same: equal field for field, lists compared
/// by their contents.
pub open spec fn config_eqv(a: Config, b: Config) -> bool {
    &&& a.max_hops == b.max_hops
    &&& a.max_spread == b.max_spread
    &&& a.whitelisted_fee_assets@ == b.whitelisted_fee_assets@
    &&& a.whitelisted_tokens@ == b.whitelisted_tokens@
    &&& a.factory_addr == b.factory_addr
    &&& a.router_addr == b.router_addr
}

impl Clone for UserConfig {
    fn clone(&self) -> (r: Self)
        ensures
            user_config_eqv(r, *self),
    {
        UserConfig {
            last_id: self.last_id,
            max_hops: self.max_hops,
            max_spread: self.max_spread,
            tip_balance: clone_assets(&self.tip_balance),
        }
    }
}

impl Clone for Config {
    fn clone(&self) -> (r: Self)
        ensures
            config_eqv(r, *self),
    {
        Config {
            max_hops: self.max_hops,
            max_spread: self.max_spread,
            whitelisted_fee_assets: clone_assets(&self.whitelisted_fee_assets),
            whitelisted_tokens: clone_asset_infos(&self.whitelisted_tokens),
            factory_addr: self.factory_addr.clone(),
            router_addr: self.router_addr.clone(),
        }
    }
}

} // verus!
