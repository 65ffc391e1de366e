//! The hop route handed to the external swap-routing collaborator: an ordered
//! list of swap legs, each naming its offer and ask assets.
use crate::asset::AssetInfo;
use vstd::prelude::*;

verus! {

/// One leg of a swap route.
#[derive(Debug, PartialEq)]
pub enum SwapOperation {
    /// A swap between two native denominations.
    NativeSwap { offer_denom: String, ask_denom: String },
    /// A pool swap between two assets of any kind.
    AstroSwap { offer_asset_info: AssetInfo, ask_asset_info: AssetInfo },
}

/// The identity of the asset a leg outputs.
pub open spec fn target_asset_info_of(op: SwapOperation) -> AssetInfo {
    match op {
        SwapOperation::NativeSwap { ask_denom, .. } => AssetInfo::NativeToken { denom: ask_denom },
        SwapOperation::AstroSwap { ask_asset_info, .. } => ask_asset_info,
    }
}

impl SwapOperation {
    /// The asset a leg outputs, as the route's reader sees it.
    pub fn get_target_asset_info(&self) -> (r: AssetInfo)
        ensures
            r == target_asset_info_of(*self),
    {
        match self {
            SwapOperation::NativeSwap { ask_denom, .. } => AssetInfo::NativeToken {
                denom: ask_denom.clone(),
            },
            SwapOperation::AstroSwap { ask_asset_info, .. } => ask_asset_info.clone(),
        }
    }
}

impl Clone for SwapOperation {
    fn clone(&self) -> (r: Self)
        ensures
            r == *self,
    {
        match self {
            SwapOperation::NativeSwap { offer_denom, ask_denom } => SwapOperation::NativeSwap {
                offer_denom: offer_denom.clone(),
                ask_denom: ask_denom.clone(),
            },
            SwapOperation::AstroSwap { offer_asset_info, ask_asset_info } => (
            SwapOperation::AstroSwap {
                offer_asset_info: offer_asset_info.clone(),
                ask_asset_info: ask_asset_info.clone(),
            }),
        }
    }
}

} // verus!
