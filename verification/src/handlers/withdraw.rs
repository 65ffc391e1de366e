//! Withdrawing from a user's keeper-tip balance.
use crate::asset::{find_asset_by_info, find_info, Asset, AssetInfo};
use crate::error::{ContractError, OverflowError, OverflowOperation};
use crate::response::{attr, attrs_view, Attribute, Instruction, MessageInfo, Response};
use crate::state::UserConfig;
use vstd::prelude::*;

verus! {

/// One requested withdrawal applied to a balance: the asset must have an
/// existing entry covering the amount; the entry shrinks, and a native
/// withdrawal is paid back to the sender (a token balance is
/// allowance-backed, so nothing moves for it). Membership in the balance is
/// the only requirement: a deposit stays withdrawable even after its asset
/// leaves the fee whitelist.
pub open spec fn withdraw_step(
    balance: Seq<Asset>,
    sender: String,
    a: Asset,
) -> Result<(Seq<Asset>, Option<Instruction>), ContractError> {
    match find_info(balance, a.info) {
        None => Err(ContractError::TipAssetNotDeposited { asset: a.info }),
        Some(bi) => if balance[bi].amount < a.amount {
            Err(
                ContractError::OverflowError(
                    OverflowError {
                        operation: OverflowOperation::Sub,
                        operand1: balance[bi].amount,
                        operand2: a.amount,
                    },
                ),
            )
        } else {
            Ok(
                (
                    balance.update(
                        bi,
                        (Asset {
                            info: balance[bi].info,
                            amount: (balance[bi].amount - a.amount) as u128,
                        }),
                    ),
                    match a.info {
                        AssetInfo::NativeToken { denom } => Some(
                            Instruction::NativeSend {
                                to_address: sender,
                                denom,
                                amount: a.amount,
                            },
                        ),
                        AssetInfo::Token { .. } => None,
                    },
                ),
            )
        },
    }
}

/// The requested withdrawals applied in order; the first failing one's error.
pub open spec fn apply_withdrawals(
    balance: Seq<Asset>,
    sender: String,
    assets: Seq<Asset>,
) -> Result<(Seq<Asset>, Seq<Instruction>), ContractError>
    decreases assets.len(),
{
    if assets.len() == 0 {
        Ok((balance, Seq::empty()))
    } else {
        match withdraw_step(balance, sender, assets[0]) {
            Err(e) => Err(e),
            Ok((b, m)) => match apply_withdrawals(b, sender, assets.drop_first()) {
                Err(e) => Err(e),
                Ok((b2, ms)) => Ok(
                    (
                        b2,
                        match m {
                            Some(msg) => seq![msg] + ms,
                            None => ms,
                        },
                    ),
                ),
            },
        }
    }
}

/// The event record of a successful withdrawal.
pub open spec fn withdraw_attrs() -> Seq<(Seq<char>, Seq<char>)> {
    seq![("action"@, "withdraw"@)]
}

/// Applies the withdrawals from index `i` on to the working balance and
/// returns their payment instructions. On an error the working balance is
/// abandoned by the caller, so only the error is promised.
fn apply_withdrawals_from(
    balance: &mut Vec<Asset>,
    info: &MessageInfo,
    assets: &Vec<Asset>,
    i: usize,
) -> (r: Result<Vec<Instruction>, ContractError>)
    requires
        i <= assets@.len(),
    ensures
        match apply_withdrawals(old(balance)@, info.sender, assets@.skip(i as int)) {
            Ok((b, ms)) => final(balance)@ == b && match r {
                Ok(v) => v@ == ms,
                Err(_) => false,
            },
            Err(e) => r == Err::<Vec<Instruction>, ContractError>(e),
        },
    decreases assets@.len() - i,
{
    if i == assets.len() {
        proof {
            assert(assets@.skip(i as int) =~= Seq::<Asset>::empty());
        }
        return Ok(Vec::new());
    }
    let ghost rest = assets@.skip(i as int);
    proof {
        assert(rest[0] == assets@[i as int]);
        assert(rest.drop_first() =~= assets@.skip(i as int + 1));
    }
    let a = assets[i].clone();
    let bi = match find_asset_by_info(balance, &a.info) {
        Some(bi) => bi,
        None => {
            return Err(ContractError::TipAssetNotDeposited { asset: a.info });
        },
    };
    let kept_info = balance[bi].info.clone();
    let remaining = match balance[bi].amount.checked_sub(a.amount) {
        Some(remaining) => remaining,
        None => {
            return Err(
                ContractError::OverflowError(
                    OverflowError {
                        operation: OverflowOperation::Sub,
                        operand1: balance[bi].amount,
                        operand2: a.amount,
                    },
                ),
            );
        },
    };
    balance[bi] = Asset { info: kept_info, amount: remaining };

    let mut paid: Vec<Instruction> = Vec::new();
    if let AssetInfo::NativeToken { denom } = a.info {
        let m = Instruction::NativeSend {
            to_address: info.sender.clone(),
            denom,
            amount: a.amount,
        };
        let ghost gm = m;
        paid.push(m);
        proof {
            assert(paid@ =~= seq![gm]);
        }
    }
    match apply_withdrawals_from(balance, info, assets, i + 1) {
        Ok(mut ms) => {
            proof {
                assert(Seq::<Instruction>::empty() + ms@ =~= ms@);
            }
            paid.append(&mut ms);
            Ok(paid)
        },
        Err(e) => Err(e),
    }
}

/// Withdraws the requested amounts from the sender's tip balance.
///
/// Each asset must already be deposited and the entry must cover the amount;
/// native withdrawals are paid back to the sender, token balances only shrink
/// (they are allowance-backed figures). Whether the asset is still a
/// whitelisted fee currency plays no part: delisting an asset never strands a
/// deposited balance.
pub fn withdraw(
    user_config: &mut UserConfig,
    info: &MessageInfo,
    assets: Vec<Asset>,
) -> (r: Result<Response, ContractError>)
    ensures
        match apply_withdrawals(old(user_config).tip_balance@, info.sender, assets@) {
            Ok((b, ms)) => {
                &&& final(user_config).tip_balance@ == b
                &&& final(user_config).last_id == old(user_config).last_id
                &&& final(user_config).max_hops == old(user_config).max_hops
                &&& final(user_config).max_spread == old(user_config).max_spread
                &&& match r {
                    Ok(resp) => resp.messages@ == ms && attrs_view(resp.attributes@)
                        == withdraw_attrs(),
                    Err(_) => false,
                }
            },
            Err(e) => {
                &&& r == Err::<Response, ContractError>(e)
                &&& *final(user_config) == *old(user_config)
            },
        },
{
    let mut balance = crate::state::clone_assets(&user_config.tip_balance);
    proof {
        assert(assets@.skip(0) =~= assets@);
    }
    let messages = match apply_withdrawals_from(&mut balance, info, &assets, 0) {
        Ok(messages) => {
            user_config.tip_balance = balance;
            messages
        },
        Err(e) => {
            return Err(e);
        },
    };

    let mut attributes: Vec<Attribute> = Vec::new();
    attributes.push(attr("action", "withdraw".to_owned()));
    proof {
        assert(attrs_view(attributes@) =~= withdraw_attrs());
    }
    Ok(Response { messages, attributes })
}

} // verus!
