//! Topping up a user's keeper-tip balance.
use crate::asset::{
    asset_info_eq, find_asset_by_info, find_coin, find_coin_by_denom, find_info, Asset, AssetInfo,
    Coin,
};
use crate::error::{ContractError, OverflowError, OverflowOperation};
use crate::get_token_allowance::{allowance_of, get_token_allowance};
use crate::response::{attr, attrs_view, Attribute, Instruction, MessageInfo, Response};
use crate::search::{find_first, lemma_find_first_is_none, lemma_find_first_is_some};
use crate::state::{contains_fee_asset, Config, UserConfig};
use vstd::prelude::*;

verus! {

/// One declared tip deposit applied to a balance: the deposit must be funded
/// exactly (attached funds for a native asset, recorded allowance for a
/// token), then the matching balance entry grows by the declared amount, a
/// new entry appearing for a first deposit of that asset.
pub open spec fn tip_deposit_step(
    balance: Seq<Asset>,
    funds: Seq<Coin>,
    allowances: Seq<Asset>,
    a: Asset,
) -> Result<Seq<Asset>, ContractError> {
    let funded: Result<(), ContractError> = match a.info {
        AssetInfo::NativeToken { denom } => match find_coin(funds, denom@) {
            None => Err(ContractError::TipDepositMissingAsset { asset: a }),
            Some(ci) => if funds[ci].amount != a.amount {
                Err(
                    ContractError::InvalidTipDeposit {
                        received: (Asset { info: a.info, amount: funds[ci].amount }),
                        sent: a,
                    },
                )
            } else {
                Ok(())
            },
        },
        AssetInfo::Token { contract_addr } => {
            let al = allowance_of(allowances, contract_addr@);
            if al != a.amount {
                Err(
                    ContractError::InvalidTipDeposit {
                        received: (Asset { info: a.info, amount: al }),
                        sent: a,
                    },
                )
            } else {
                Ok(())
            }
        },
    };
    match funded {
        Err(e) => Err(e),
        Ok(()) => match find_info(balance, a.info) {
            Some(bi) => if balance[bi].amount + a.amount > u128::MAX {
                Err(
                    ContractError::OverflowError(
                        OverflowError {
                            operation: OverflowOperation::Add,
                            operand1: balance[bi].amount,
                            operand2: a.amount,
                        },
                    ),
                )
            } else {
                Ok(
                    balance.update(
                        bi,
                        (Asset {
                            info: balance[bi].info,
                            amount: (balance[bi].amount + a.amount) as u128,
                        }),
                    ),
                )
            },
            None => Ok(balance.push(a)),
        },
    }
}

/// The declared deposits applied in order; the first failing one's error.
pub open spec fn apply_tip_deposits(
    balance: Seq<Asset>,
    funds: Seq<Coin>,
    allowances: Seq<Asset>,
    assets: Seq<Asset>,
) -> Result<Seq<Asset>, ContractError>
    decreases assets.len(),
{
    if assets.len() == 0 {
        Ok(balance)
    } else {
        match tip_deposit_step(balance, funds, allowances, assets[0]) {
            Err(e) => Err(e),
            Ok(b) => apply_tip_deposits(b, funds, allowances, assets.drop_first()),
        }
    }
}

/// What a tip top-up does: every declared asset must be whitelisted as a fee
/// asset (the first that is not names the error), then each deposit is
/// verified against the attached funds or the recorded allowance and added to
/// the balance.
pub open spec fn add_bot_tip_outcome(
    whitelist: Seq<Asset>,
    balance: Seq<Asset>,
    funds: Seq<Coin>,
    allowances: Seq<Asset>,
    assets: Seq<Asset>,
) -> Result<Seq<Asset>, ContractError> {
    match find_first(assets, |a: Asset| !contains_fee_asset(whitelist, a.info)) {
        Some(i) => Err(ContractError::NonWhitelistedTipAsset { asset: assets[i].info }),
        None => apply_tip_deposits(balance, funds, allowances, assets),
    }
}

/// The event record of a successful top-up.
pub open spec fn add_bot_tip_attrs() -> Seq<(Seq<char>, Seq<char>)> {
    seq![("action"@, "add_bot_tip"@)]
}

/// Applies the deposits from index `i` on to the working balance. On an error
/// the working balance is abandoned by the caller, so only the error is
/// promised.
fn apply_deposits_from(
    balance: &mut Vec<Asset>,
    info: &MessageInfo,
    allowances: &Vec<Asset>,
    assets: &Vec<Asset>,
    i: usize,
) -> (r: Result<(), ContractError>)
    requires
        i <= assets@.len(),
    ensures
        match apply_tip_deposits(old(balance)@, info.funds@, allowances@, assets@.skip(i as int)) {
            Ok(b) => r is Ok && final(balance)@ == b,
            Err(e) => r == Err::<(), ContractError>(e),
        },
    decreases assets@.len() - i,
{
    if i == assets.len() {
        proof {
            assert(assets@.skip(i as int) =~= Seq::<Asset>::empty());
        }
        return Ok(());
    }
    let ghost rest = assets@.skip(i as int);
    proof {
        assert(rest[0] == assets@[i as int]);
        assert(rest.drop_first() =~= assets@.skip(i as int + 1));
    }
    let a = assets[i].clone();
    // the deposit must be funded exactly as declared
    match &a.info {
        AssetInfo::NativeToken { denom } => {
            match find_coin_by_denom(&info.funds, denom) {
                None => {
                    return Err(ContractError::TipDepositMissingAsset { asset: a });
                },
                Some(ci) => {
                    let received = info.funds[ci].amount;
                    if received != a.amount {
                        return Err(
                            ContractError::InvalidTipDeposit {
                                received: Asset { info: a.info.clone(), amount: received },
                                sent: a,
                            },
                        );
                    }
                },
            }
        },
        AssetInfo::Token { contract_addr } => {
            let al = get_token_allowance(allowances, contract_addr);
            if al != a.amount {
                return Err(
                    ContractError::InvalidTipDeposit {
                        received: Asset { info: a.info.clone(), amount: al },
                        sent: a,
                    },
                );
            }
        },
    }
    // grow the matching balance entry, or open one
    match find_asset_by_info(balance, &a.info) {
        Some(bi) => {
            let kept_info = balance[bi].info.clone();
            match balance[bi].amount.checked_add(a.amount) {
                Some(total) => {
                    balance[bi] = Asset { info: kept_info, amount: total };
                },
                None => {
                    return Err(
                        ContractError::OverflowError(
                            OverflowError {
                                operation: OverflowOperation::Add,
                                operand1: balance[bi].amount,
                                operand2: a.amount,
                            },
                        ),
                    );
                },
            }
        },
        None => {
            balance.push(a);
        },
    }
    apply_deposits_from(balance, info, allowances, assets, i + 1)
}

/// Deposits the declared assets into the sender's tip balance.
///
/// Every asset must be whitelisted as a fee asset and funded exactly as
/// declared; each then increments its balance entry. Nothing is transferred
/// out, so the response carries no instructions.
#[verifier::loop_isolation(false)]
pub fn add_bot_tip(
    user_config: &mut UserConfig,
    config: &Config,
    info: &MessageInfo,
    allowances: &Vec<Asset>,
    assets: Vec<Asset>,
) -> (r: Result<Response, ContractError>)
    ensures
        match add_bot_tip_outcome(
            config.whitelisted_fee_assets@,
            old(user_config).tip_balance@,
            info.funds@,
            allowances@,
            assets@,
        ) {
            Ok(b) => {
                &&& final(user_config).tip_balance@ == b
                &&& final(user_config).last_id == old(user_config).last_id
                &&& final(user_config).max_hops == old(user_config).max_hops
                &&& final(user_config).max_spread == old(user_config).max_spread
                &&& match r {
                    Ok(resp) => resp.messages@ == Seq::<Instruction>::empty() && attrs_view(
                        resp.attributes@,
                    ) == add_bot_tip_attrs(),
                    Err(_) => false,
                }
            },
            Err(e) => {
                &&& r == Err::<Response, ContractError>(e)
                &&& *final(user_config) == *old(user_config)
            },
        },
{
    // every declared asset must be a whitelisted fee asset
    let ghost not_listed = |a: Asset|
        !contains_fee_asset(config.whitelisted_fee_assets@, a.info);
    let mut i: usize = 0;
    while i < assets.len()
        invariant
            i <= assets@.len(),
            forall|j: int| 0 <= j < i ==> !not_listed(#[trigger] assets@[j]),
        decreases assets@.len() - i,
    {
        if !config.is_whitelisted_fee_asset(&assets[i].info) {
            proof {
                assert(not_listed(assets@[i as int]));
                lemma_find_first_is_some(assets@, not_listed, i as int);
            }
            return Err(ContractError::NonWhitelistedTipAsset { asset: assets[i].info.clone() });
        }
        proof {
            assert(!not_listed(assets@[i as int]));
        }
        i += 1;
    }
    proof {
        lemma_find_first_is_none(assets@, not_listed);
    }

    // apply the deposits to a working copy; commit it only when all succeed
    let mut balance = crate::state::clone_assets(&user_config.tip_balance);
    proof {
        assert(assets@.skip(0) =~= assets@);
    }
    match apply_deposits_from(&mut balance, info, allowances, &assets, 0) {
        Ok(()) => {
            user_config.tip_balance = balance;
        },
        Err(e) => {
            return Err(e);
        },
    }

    let mut attributes: Vec<Attribute> = Vec::new();
    attributes.push(attr("action", "add_bot_tip".to_owned()));
    proof {
        assert(attrs_view(attributes@) =~= add_bot_tip_attrs());
    }
    Ok(Response { messages: Vec::new(), attributes })
}

} // verus!
