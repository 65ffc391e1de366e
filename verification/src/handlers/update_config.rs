//! Updating the contract-wide configuration.
use crate::asset::{Asset, AssetInfo};
use crate::decimal::Decimal;
use crate::error::ContractError;
use crate::response::{attr, attrs_view, Attribute, Instruction, MessageInfo, Response};
use crate::state::Config;
use vstd::prelude::*;

verus! {

/// The event record of a configuration update.
pub open spec fn update_config_attrs() -> Seq<(Seq<char>, Seq<char>)> {
    seq![("action"@, "update_config"@)]
}

/// Updates the contract configuration with the given optional parameters;
/// unset parameters keep their current value.
///
/// Only the owner recorded by the pool-registry collaborator may update the
/// configuration; the host resolves that owner and hands it in as
/// `factory_owner`.
pub fn update_config(
    config: &mut Config,
    info: &MessageInfo,
    factory_owner: &String,
    max_hops: Option<u32>,
    whitelisted_fee_assets: Option<Vec<Asset>>,
    whitelisted_tokens: Option<Vec<AssetInfo>>,
    max_spread: Option<Decimal>,
) -> (r: Result<Response, ContractError>)
    ensures
        info.sender@ != factory_owner@ ==> r == Err::<Response, ContractError>(
            ContractError::Unauthorized,
        ) && *final(config) == *old(config),
        info.sender@ == factory_owner@ ==> {
            &&& final(config).max_hops == match max_hops {
                Some(v) => v,
                None => old(config).max_hops,
            }
            &&& final(config).whitelisted_fee_assets == match whitelisted_fee_assets {
                Some(v) => v,
                None => old(config).whitelisted_fee_assets,
            }
            &&& final(config).whitelisted_tokens == match whitelisted_tokens {
                Some(v) => v,
                None => old(config).whitelisted_tokens,
            }
            &&& final(config).max_spread == match max_spread {
                Some(v) => v,
                None => old(config).max_spread,
            }
            &&& final(config).factory_addr == old(config).factory_addr
            &&& final(config).router_addr == old(config).router_addr
            &&& match r {
                Ok(resp) => resp.messages@ == Seq::<Instruction>::empty() && attrs_view(
                    resp.attributes@,
                ) == update_config_attrs(),
                Err(_) => false,
            }
        },
{
    if !(info.sender == *factory_owner) {
        return Err(ContractError::Unauthorized);
    }

    if let Some(new_max_hops) = max_hops {
        config.max_hops = new_max_hops;
    }
    if let Some(new_whitelisted_fee_assets) = whitelisted_fee_assets {
        config.whitelisted_fee_assets = new_whitelisted_fee_assets;
    }
    if let Some(new_whitelisted_tokens) = whitelisted_tokens {
        config.whitelisted_tokens = new_whitelisted_tokens;
    }
    if let Some(new_max_spread) = max_spread {
        config.max_spread = new_max_spread;
    }

    let mut attributes: Vec<Attribute> = Vec::new();
    attributes.push(attr("action", "update_config".to_owned()));
    proof {
        assert(attrs_view(attributes@) =~= update_config_attrs());
    }
    Ok(Response { messages: Vec::new(), attributes })
}

} // verus!
