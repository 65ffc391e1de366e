//! Replacing the parameters of an existing order.
use crate::asset::{
    asset_info_eq, find_coin_by_denom, native_balance_ok, sent_amount, Asset, AssetInfo, Coin,
};
use crate::dca::{find_order, find_order_by_id, DcaInfo};
use crate::error::{ContractError, StdError};
use crate::get_token_allowance::{allowance_of, get_token_allowance};
use crate::response::{attr, attrs_view, Attribute, Instruction, MessageInfo, Response};
use crate::text::{asset_text, dec_str, format_u128, format_u64, info_text};
use crate::handlers::update_user_config::option_text;
use vstd::prelude::*;

verus! {

/// The new parameter set for an order.
#[derive(Debug)]
pub struct ModifyDcaOrderParameters {
    /// The id of the order to modify.
    pub id: u64,
    /// The asset funding the order from now on.
    pub new_initial_asset: Asset,
    /// The asset identity purchased from now on.
    pub new_target_asset: AssetInfo,
    /// The seconds between eligible purchases from now on.
    pub new_interval: u64,
    /// The amount spent per purchase from now on.
    pub new_dca_amount: u128,
    /// Resets the last-purchase time when given.
    pub new_first_purchase: Option<u64>,
}

/// The sum of the deposits of all orders funded by the token at `token`.
/// Their combined claim on the user's allowance must stay covered.
pub open spec fn token_deposit_total(orders: Seq<DcaInfo>, token: Seq<char>) -> int
    decreases orders.len(),
{
    if orders.len() == 0 {
        0
    } else {
        (match orders[0].initial_asset.info {
            AssetInfo::Token { contract_addr } => if contract_addr@ == token {
                orders[0].initial_asset.amount as int
            } else {
                0
            },
            AssetInfo::NativeToken { .. } => 0,
        }) + token_deposit_total(orders.drop_first(), token)
    }
}

/// A deposit total is never negative.
pub proof fn lemma_token_total_nonneg(orders: Seq<DcaInfo>, token: Seq<char>)
    ensures
        token_deposit_total(orders, token) >= 0,
    decreases orders.len(),
{
    if orders.len() > 0 {
        lemma_token_total_nonneg(orders.drop_first(), token);
    }
}

/// The instructions a modification emits: a refund of the difference when the
/// same asset's deposit shrinks, a refund of the whole old deposit when the
/// asset changes — native assets only, token deposits are allowance-backed.
pub open spec fn modify_refund(info: AssetInfo, sender: String, amount: u128) -> Seq<Instruction> {
    match info {
        AssetInfo::NativeToken { denom } => seq![
            (Instruction::NativeSend { to_address: sender, denom, amount }),
    ],
        AssetInfo::Token { .. } => Seq::empty(),
    }
}

/// What modifying order `id` does: the order is found, the new target must
/// differ from the new deposit asset, a grown or switched deposit must be
/// funded (exact attached funds for a native asset; for a token, the
/// allowance must cover every order funded by it plus the new claim), a
/// shrunk or replaced native deposit is refunded, and the order's five
/// parameters are overwritten in place.
pub open spec fn modify_order_outcome(
    orders: Seq<DcaInfo>,
    funds: Seq<Coin>,
    allowances: Seq<Asset>,
    sender: String,
    p: ModifyDcaOrderParameters,
) -> Result<(Seq<DcaInfo>, Seq<Instruction>), ContractError> {
    match find_order(orders, p.id) {
        None => Err(ContractError::NonexistentDca),
        Some(i) => {
            let order = orders[i];
            let should_refund = order.initial_asset.amount > p.new_initial_asset.amount;
            let diff = if should_refund {
                order.initial_asset.amount - p.new_initial_asset.amount
            } else {
                p.new_initial_asset.amount - order.initial_asset.amount
            };
            if asset_info_eq(p.new_initial_asset.info, p.new_target_asset) {
                Err(ContractError::DuplicateAsset)
            } else {
                let msgs_or: Result<Seq<Instruction>, ContractError> = if asset_info_eq(
                    order.initial_asset.info,
                    p.new_initial_asset.info,
                ) {
                    if !should_refund {
                        match p.new_initial_asset.info {
                            AssetInfo::NativeToken { denom } => if sent_amount(funds, denom@)
                                == diff {
                                Ok(Seq::empty())
                            } else {
                                Err(ContractError::Std(StdError::NativeBalanceMismatch))
                            },
                            AssetInfo::Token { contract_addr } => if token_deposit_total(
                                orders,
                                contract_addr@,
                            ) + diff > allowance_of(allowances, contract_addr@) {
                                Err(ContractError::InvalidTokenDeposit)
                            } else {
                                Ok(Seq::empty())
                            },
                        }
                    } else {
                        Ok(modify_refund(p.new_initial_asset.info, sender, diff as u128))
                    }
                } else {
                    let refund = modify_refund(
                        order.initial_asset.info,
                        sender,
                        order.initial_asset.amount,
                    );
                    match p.new_initial_asset.info {
                        AssetInfo::NativeToken { .. } => if native_balance_ok(
                            p.new_initial_asset,
                            funds,
                        ) {
                            Ok(refund)
                        } else {
                            Err(ContractError::Std(StdError::NativeBalanceMismatch))
                        },
                        AssetInfo::Token { contract_addr } => if token_deposit_total(
                            orders,
                            contract_addr@,
                        ) + p.new_initial_asset.amount > allowance_of(allowances, contract_addr@) {
                            Err(ContractError::InvalidTokenDeposit)
                        } else {
                            Ok(refund)
                        },
                    }
                };
                match msgs_or {
                    Err(e) => Err(e),
                    Ok(msgs) => Ok(
                        (
                            orders.update(
                                i,
                                (DcaInfo {
                                    id: p.id,
                                    initial_asset: p.new_initial_asset,
                                    target_asset: p.new_target_asset,
                                    interval: p.new_interval,
                                    last_purchase: match p.new_first_purchase {
                                        Some(t) => t,
                                        None => order.last_purchase,
                                    },
                                    dca_amount: p.new_dca_amount,
                                }),
                            ),
                            msgs,
                        ),
                    ),
                }
            }
        },
    }
}

/// The event record of a successful modification.
pub open spec fn modify_order_attrs(p: ModifyDcaOrderParameters) -> Seq<(Seq<char>, Seq<char>)> {
    seq![
        ("action"@, "modify_dca_order"@),
        ("id"@, dec_str(p.id as nat)),
        ("new_initial_asset"@, asset_text(p.new_initial_asset)),
        ("new_target_asset"@, info_text(p.new_target_asset)),
        ("new_interval"@, dec_str(p.new_interval as nat)),
        ("new_dca_amount"@, dec_str(p.new_dca_amount as nat)),
        ("new_first_purchase"@, option_text(p.new_first_purchase)),
    ]
}

/// Whether the allowance for `token` fails to cover every order funded by it
/// plus `extra` more.
#[verifier::loop_isolation(false)]
fn token_claim_exceeds_allowance(
    orders: &Vec<DcaInfo>,
    token: &String,
    extra: u128,
    allowance: u128,
) -> (r: bool)
    ensures
        r == (token_deposit_total(orders@, token@) + extra > allowance),
{
    let ghost total = token_deposit_total(orders@, token@);
    let mut acc: u128 = 0;
    let mut i: usize = 0;
    proof {
        assert(orders@.skip(0) =~= orders@);
    }
    while i < orders.len()
        invariant
            i <= orders@.len(),
            total == acc + token_deposit_total(orders@.skip(i as int), token@),
        decreases orders@.len() - i,
    {
        let ghost rest = orders@.skip(i as int);
        proof {
            assert(rest[0] == orders@[i as int]);
            assert(rest.drop_first() =~= orders@.skip(i as int + 1));
            lemma_token_total_nonneg(orders@.skip(i as int + 1), token@);
        }
        let contribution: u128 = match &orders[i].initial_asset.info {
            AssetInfo::Token { contract_addr } => {
                if *contract_addr == *token {
                    orders[i].initial_asset.amount
                } else {
                    0
                }
            },
            AssetInfo::NativeToken { .. } => 0,
        };
        acc = match acc.checked_add(contribution) {
            Some(acc) => acc,
            None => {
                // the combined claim already exceeds any possible allowance
                return true;
            },
        };
        i += 1;
    }
    proof {
        assert(orders@.skip(i as int) =~= Seq::<DcaInfo>::empty());
    }
    match acc.checked_add(extra) {
        Some(claim) => claim > allowance,
        None => true,
    }
}

/// Replaces the parameters of the sender's order `id`.
///
/// A deposit grown in the same asset must be funded with exactly the
/// difference; one shrunk in the same asset refunds the difference (native
/// only). A deposit moved to another asset refunds the whole old native
/// amount and must be funded in full in the new asset. The new target must
/// differ from the new deposit asset.
pub fn modify_dca_order(
    orders: &mut Vec<DcaInfo>,
    info: &MessageInfo,
    allowances: &Vec<Asset>,
    order_details: ModifyDcaOrderParameters,
) -> (r: Result<Response, ContractError>)
    ensures
        match modify_order_outcome(
            old(orders)@,
            info.funds@,
            allowances@,
            info.sender,
            order_details,
        ) {
            Ok((os, ms)) => {
                &&& final(orders)@ == os
                &&& match r {
                    Ok(resp) => resp.messages@ == ms && attrs_view(resp.attributes@)
                        == modify_order_attrs(order_details),
                    Err(_) => false,
                }
            },
            Err(e) => {
                &&& r == Err::<Response, ContractError>(e)
                &&& final(orders)@ == old(orders)@
            },
        },
{
    let i = match find_order_by_id(orders, order_details.id) {
        Some(i) => i,
        None => {
            return Err(ContractError::NonexistentDca);
        },
    };

    let old_amount = orders[i].initial_asset.amount;
    let old_info = orders[i].initial_asset.info.clone();
    let old_last_purchase = orders[i].last_purchase;
    let should_refund = old_amount > order_details.new_initial_asset.amount;
    let diff: u128 = if should_refund {
        old_amount - order_details.new_initial_asset.amount
    } else {
        order_details.new_initial_asset.amount - old_amount
    };

    if order_details.new_initial_asset.info == order_details.new_target_asset {
        return Err(ContractError::DuplicateAsset);
    }

    let mut messages: Vec<Instruction> = Vec::new();
    if old_info == order_details.new_initial_asset.info {
        if !should_refund {
            // a grown deposit must be funded with exactly the difference
            match &order_details.new_initial_asset.info {
                AssetInfo::NativeToken { denom } => {
                    let sent: u128 = match find_coin_by_denom(&info.funds, denom) {
                        Some(ci) => info.funds[ci].amount,
                        None => 0,
                    };
                    if sent != diff {
                        return Err(ContractError::Std(StdError::NativeBalanceMismatch));
                    }
                },
                AssetInfo::Token { contract_addr } => {
                    let allowance = get_token_allowance(allowances, contract_addr);
                    if token_claim_exceeds_allowance(orders, contract_addr, diff, allowance) {
                        return Err(ContractError::InvalidTokenDeposit);
                    }
                },
            }
        } else {
            // a shrunk native deposit refunds the difference
            if let AssetInfo::NativeToken { denom } = &order_details.new_initial_asset.info {
                messages.push(
                    Instruction::NativeSend {
                        to_address: info.sender.clone(),
                        denom: denom.clone(),
                        amount: diff,
                    },
                );
            }
        }
    } else {
        // the old native deposit comes back in full
        if let AssetInfo::NativeToken { denom } = &old_info {
            messages.push(
                Instruction::NativeSend {
                    to_address: info.sender.clone(),
                    denom: denom.clone(),
                    amount: old_amount,
                },
            );
        }
        // and the whole new deposit must be funded
        match &order_details.new_initial_asset.info {
            AssetInfo::NativeToken { .. } => {
                match order_details.new_initial_asset.assert_sent_native_token_balance(info) {
                    Ok(()) => (),
                    Err(e) => {
                        return Err(e);
                    },
                }
            },
            AssetInfo::Token { contract_addr } => {
                let allowance = get_token_allowance(allowances, contract_addr);
                if token_claim_exceeds_allowance(
                    orders,
                    contract_addr,
                    order_details.new_initial_asset.amount,
                    allowance,
                ) {
                    return Err(ContractError::InvalidTokenDeposit);
                }
            },
        }
    }

    let new_initial_attr = order_details.new_initial_asset.to_text();
    let new_target_attr = order_details.new_target_asset.to_text();
    orders[i] = DcaInfo {
        id: order_details.id,
        initial_asset: order_details.new_initial_asset,
        target_asset: order_details.new_target_asset,
        interval: order_details.new_interval,
        last_purchase: match order_details.new_first_purchase {
            Some(t) => t,
            None => old_last_purchase,
        },
        dca_amount: order_details.new_dca_amount,
    };

    let mut attributes: Vec<Attribute> = Vec::new();
    attributes.push(attr("action", "modify_dca_order".to_owned()));
    attributes.push(attr("id", format_u64(order_details.id)));
    attributes.push(attr("new_initial_asset", new_initial_attr));
    attributes.push(attr("new_target_asset", new_target_attr));
    attributes.push(attr("new_interval", format_u64(order_details.new_interval)));
    attributes.push(attr("new_dca_amount", format_u128(order_details.new_dca_amount)));
    attributes.push(
        attr(
            "new_first_purchase",
            crate::handlers::update_user_config::serde_option(order_details.new_first_purchase),
        ),
    );
    proof {
        assert(attrs_view(attributes@) =~= modify_order_attrs(order_details));
    }
    Ok(Response { messages, attributes })
}

} // verus!
