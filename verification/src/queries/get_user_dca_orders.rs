//! Reading a user's orders together with what each can actually spend now.
use crate::asset::{Asset, AssetInfo};
use crate::dca::{DcaInfo, DcaQueryInfo};
use crate::get_token_allowance::{allowance_of, get_token_allowance};
use vstd::prelude::*;

verus! {

/// The amount an order can spend right now: the stored amount for a native
/// deposit, the live recorded allowance for a token deposit (which the user
/// may have changed since the order was written).
pub open spec fn spendable_amount(order: DcaInfo, allowances: Seq<Asset>) -> u128 {
    match order.initial_asset.info {
        AssetInfo::NativeToken { .. } => order.initial_asset.amount,
        AssetInfo::Token { contract_addr } => allowance_of(allowances, contract_addr@),
    }
}

/// The user's orders, each enriched with its currently spendable amount.
#[verifier::loop_isolation(false)]
pub fn get_user_dca_orders(orders: &Vec<DcaInfo>, allowances: &Vec<Asset>) -> (r: Vec<DcaQueryInfo>)
    ensures
        r@.len() == orders@.len(),
        forall|i: int| 0 <= i < orders@.len() ==> (#[trigger] r@[i]).order == orders@[i]
            && r@[i].token_allowance == spendable_amount(orders@[i], allowances@),
{
    let mut result: Vec<DcaQueryInfo> = Vec::new();
    let mut i: usize = 0;
    while i < orders.len()
        invariant
            i <= orders@.len(),
            result@.len() == i,
            forall|j: int| 0 <= j < i ==> (#[trigger] result@[j]).order == orders@[j]
                && result@[j].token_allowance == spendable_amount(orders@[j], allowances@),
        decreases orders@.len() - i,
    {
        let token_allowance = match &orders[i].initial_asset.info {
            AssetInfo::NativeToken { .. } => orders[i].initial_asset.amount,
            AssetInfo::Token { contract_addr } => get_token_allowance(allowances, contract_addr),
        };
        result.push(DcaQueryInfo { token_allowance, order: orders[i].clone() });
        i += 1;
    }
    result
}

} // verus!
