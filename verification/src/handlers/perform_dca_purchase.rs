//! A keeper performing one purchase of a user's order.
use crate::asset::{
    asset_info_eq, contains_info, find_asset_by_info, find_info, Asset, AssetInfo, Coin,
};
use crate::dca::{find_order, find_order_by_id, DcaInfo};
use crate::decimal::Decimal;
use crate::error::{
    ContractError, DivideByZeroError, OverflowError, OverflowOperation, StdError,
};
use crate::response::{attr, attrs_view, Attribute, Instruction, MessageInfo, Response};
use crate::router::{target_asset_info_of, SwapOperation};
use crate::search::{find_first, lemma_find_first_is_none, lemma_find_first_is_some};
use crate::state::{Config, UserConfig};
use crate::text::{dec_str, format_u64};
use vstd::prelude::*;

verus! {

/// The hop ceiling in force: the user's override, or the contract default.
pub open spec fn effective_max_hops(config: Config, max_hops_override: Option<u32>) -> u32 {
    match max_hops_override {
        Some(v) => v,
        None => config.max_hops,
    }
}

/// The spread ceiling in force: the user's override, or the contract default.
pub open spec fn effective_max_spread(config: Config, max_spread_override: Option<Decimal>) -> Decimal {
    match max_spread_override {
        Some(v) => v,
        None => config.max_spread,
    }
}

/// A route length as the hop-ceiling error reports it.
pub open spec fn hops_count(len: nat) -> u32 {
    if len > u32::MAX {
        u32::MAX
    } else {
        len as u32
    }
}

/// The identifier a rejected hop is reported by: its output asset's
/// denomination or contract address.
pub open spec fn hop_token_id(op: SwapOperation) -> String {
    match op {
        SwapOperation::NativeSwap { ask_denom, .. } => ask_denom,
        SwapOperation::AstroSwap { ask_asset_info, .. } => match ask_asset_info {
            AssetInfo::NativeToken { denom } => denom,
            AssetInfo::Token { contract_addr } => contract_addr,
        },
    }
}

/// The fee hops a keeper may redeem for the requested fee assets: each must
/// be whitelisted with a non-zero fee-per-hop unit that divides the requested
/// amount exactly; the quotients accumulate onto `acc`.
pub open spec fn fee_hops_fold(whitelist: Seq<Asset>, fees: Seq<Asset>, acc: u128) -> Result<
    u128,
    ContractError,
>
    decreases fees.len(),
{
    if fees.len() == 0 {
        Ok(acc)
    } else {
        let a = fees[0];
        match find_info(whitelist, a.info) {
            None => Err(ContractError::NonWhitelistedTipAsset { asset: a.info }),
            Some(wi) => {
                let unit = whitelist[wi].amount;
                if unit == 0 {
                    Err(
                        ContractError::Std(
                            StdError::DivideByZero { source: DivideByZeroError { operand: a.amount } },
                        ),
                    )
                } else if a.amount % unit != 0 {
                    Err(ContractError::IndivisibleDeposit)
                } else if acc + a.amount / unit > u128::MAX {
                    Err(
                        ContractError::OverflowError(
                            OverflowError {
                                operation: OverflowOperation::Add,
                                operand1: acc,
                                operand2: a.amount / unit,
                            },
                        ),
                    )
                } else {
                    fee_hops_fold(whitelist, fees.drop_first(), (acc + a.amount / unit) as u128)
                }
            },
        }
    }
}

/// One redeemed fee applied to the tip balance: the matching entry must cover
/// the amount; it shrinks, and the keeper is paid — directly for a native
/// asset, by spending the user's allowance for a token.
pub open spec fn redeem_step(balance: Seq<Asset>, sender: String, user: String, a: Asset) -> Result<
    (Seq<Asset>, Instruction),
    ContractError,
> {
    match find_info(balance, a.info) {
        None => Err(ContractError::InsufficientTipBalance),
        Some(bi) => if balance[bi].amount < a.amount {
            Err(ContractError::InsufficientTipBalance)
        } else {
            Ok(
                (
                    balance.update(
                        bi,
                        (Asset {
                            info: balance[bi].info,
                            amount: (balance[bi].amount - a.amount) as u128,
                        }),
                    ),
                    match a.info {
                        AssetInfo::NativeToken { denom } => Instruction::NativeSend {
                            to_address: sender,
                            denom,
                            amount: a.amount,
                        },
                        AssetInfo::Token { contract_addr } => Instruction::Cw20TransferFrom {
                            contract_addr,
                            owner: user,
                            recipient: sender,
                            amount: a.amount,
                        },
                    },
                ),
            )
        },
    }
}

/// The requested fees redeemed in order; the first uncovered one's error.
pub open spec fn redeem_fees(
    balance: Seq<Asset>,
    sender: String,
    user: String,
    fees: Seq<Asset>,
) -> Result<(Seq<Asset>, Seq<Instruction>), ContractError>
    decreases fees.len(),
{
    if fees.len() == 0 {
        Ok((balance, Seq::empty()))
    } else {
        match redeem_step(balance, sender, user, fees[0]) {
            Err(e) => Err(e),
            Ok((b, m)) => match redeem_fees(b, sender, user, fees.drop_first()) {
                Err(e) => Err(e),
                Ok((b2, ms)) => Ok((b2, seq![m] + ms)),
            },
        }
    }
}

/// What a successful purchase does to the order itself: one per-purchase
/// amount leaves the deposit and the purchase time advances to `now`.
pub open spec fn purchase_order_step(o: DcaInfo, now: u64) -> DcaInfo {
    DcaInfo {
        id: o.id,
        initial_asset: (Asset {
            info: o.initial_asset.info,
            amount: (o.initial_asset.amount - o.dca_amount) as u128,
        }),
        target_asset: o.target_asset,
        interval: o.interval,
        last_purchase: now,
        dca_amount: o.dca_amount,
    }
}

/// The instructions that execute the purchase: for a token deposit, a pull of
/// the per-purchase amount from the user to the router; then the routing
/// instruction itself, with the per-purchase amount attached as funds when
/// the deposit is native.
pub open spec fn purchase_messages(
    order: DcaInfo,
    router_addr: String,
    user: String,
    hops: Vec<SwapOperation>,
    max_spread: Decimal,
) -> Seq<Instruction> {
    let swap = Instruction::RouterSwap {
        contract_addr: router_addr,
        operations: hops,
        to: user,
        max_spread,
        funds: match order.initial_asset.info {
            AssetInfo::NativeToken { denom } => Some(Coin { denom, amount: order.dca_amount }),
            AssetInfo::Token { .. } => None,
        },
    };
    match order.initial_asset.info {
        AssetInfo::Token { contract_addr } => seq![
            (Instruction::Cw20TransferFrom {
                contract_addr,
                owner: user,
                recipient: router_addr,
                amount: order.dca_amount,
            }),
            swap,
        ],
        AssetInfo::NativeToken { .. } => seq![swap],
    }
}

/// What a purchase attempt does, validated fail-fast in this order: the route
/// must be non-empty, within the hop ceiling, whitelisted in its intermediate
/// legs; the requested fees must be whitelisted, divisible by their units and
/// redeem at most one fee hop per route hop; the order must exist, be due,
/// and be targeted by the route's final leg; the fees are then taken from the
/// tip balance and paid to the keeper, one per-purchase amount leaves the
/// order (removing it when exhausted) and the swap is dispatched. On any
/// error nothing changes.
pub open spec fn purchase_outcome(
    config: Config,
    max_hops_override: Option<u32>,
    max_spread_override: Option<Decimal>,
    tip_balance: Seq<Asset>,
    orders: Seq<DcaInfo>,
    sender: String,
    user: String,
    id: u64,
    hops: Vec<SwapOperation>,
    fee_redeem: Seq<Asset>,
    now: u64,
) -> Result<(Seq<Asset>, Seq<DcaInfo>, Seq<Instruction>), ContractError> {
    if hops@.len() == 0 {
        Err(ContractError::EmptyHopRoute)
    } else if hops@.len() > effective_max_hops(config, max_hops_override) {
        Err(ContractError::MaxHopsAssertion { hops: hops_count(hops@.len()) })
    } else {
        match find_first(
            hops@.take(hops@.len() - 1),
            |op: SwapOperation| !contains_info(config.whitelisted_tokens@, target_asset_info_of(op)),
        ) {
            Some(i) => Err(ContractError::InvalidHopRoute { token: hop_token_id(hops@[i]) }),
            None => match fee_hops_fold(config.whitelisted_fee_assets@, fee_redeem, 0) {
                Err(e) => Err(e),
                Ok(requested) => if requested > hops@.len() {
                    Err(
                        ContractError::RedeemTipTooLarge {
                            requested,
                            performed: hops@.len() as u128,
                        },
                    )
                } else {
                    match find_order(orders, id) {
                        None => Err(ContractError::NonexistentDca),
                        Some(oi) => {
                            let order = orders[oi];
                            if order.last_purchase + order.interval > now {
                                Err(ContractError::PurchaseTooEarly)
                            } else if !asset_info_eq(
                                target_asset_info_of(hops@.last()),
                                order.target_asset,
                            ) {
                                Err(ContractError::TargetAssetAssertion)
                            } else {
                                match redeem_fees(tip_balance, sender, user, fee_redeem) {
                                    Err(e) => Err(e),
                                    Ok((balance, tip_msgs)) => if order.initial_asset.amount
                                        < order.dca_amount {
                                        Err(ContractError::InsufficientBalance)
                                    } else {
                                        let stepped = purchase_order_step(order, now);
                                        Ok(
                                            (
                                                balance,
                                                if stepped.initial_asset.amount == 0 {
                                                    orders.remove(oi)
                                                } else {
                                                    orders.update(oi, stepped)
                                                },
                                                tip_msgs + purchase_messages(
                                                    order,
                                                    config.router_addr,
                                                    user,
                                                    hops,
                                                    effective_max_spread(config, max_spread_override),
                                                ),
                                            ),
                                        )
                                    },
                                }
                            }
                        },
                    }
                },
            },
        }
    }
}

/// The event record of a successful purchase.
pub open spec fn purchase_attrs(user: String, id: u64) -> Seq<(Seq<char>, Seq<char>)> {
    seq![
        ("action"@, "perform_dca_purchase"@),
        ("user"@, user@),
        ("id"@, dec_str(id as nat)),
    ]
}

/// The fee hops the keeper asks to redeem, from index `i` on.
fn requested_fee_hops_from(
    whitelist: &Vec<Asset>,
    fees: &Vec<Asset>,
    i: usize,
    acc: u128,
) -> (r: Result<u128, ContractError>)
    requires
        i <= fees@.len(),
    ensures
        r == fee_hops_fold(whitelist@, fees@.skip(i as int), acc),
    decreases fees@.len() - i,
{
    if i == fees.len() {
        proof {
            assert(fees@.skip(i as int) =~= Seq::<Asset>::empty());
        }
        return Ok(acc);
    }
    let ghost rest = fees@.skip(i as int);
    proof {
        assert(rest[0] == fees@[i as int]);
        assert(rest.drop_first() =~= fees@.skip(i as int + 1));
    }
    let wi = match find_asset_by_info(whitelist, &fees[i].info) {
        Some(wi) => wi,
        None => {
            return Err(ContractError::NonWhitelistedTipAsset { asset: fees[i].info.clone() });
        },
    };
    let unit = whitelist[wi].amount;
    match fees[i].amount.checked_rem(unit) {
        None => Err(
            ContractError::Std(
                StdError::DivideByZero { source: DivideByZeroError { operand: fees[i].amount } },
            ),
        ),
        Some(remainder) => {
            if remainder != 0 {
                return Err(ContractError::IndivisibleDeposit);
            }
            let credit = fees[i].amount / unit;
            match acc.checked_add(credit) {
                Some(acc2) => requested_fee_hops_from(whitelist, fees, i + 1, acc2),
                None => Err(
                    ContractError::OverflowError(
                        OverflowError {
                            operation: OverflowOperation::Add,
                            operand1: acc,
                            operand2: credit,
                        },
                    ),
                ),
            }
        },
    }
}

/// Redeems the fees from index `i` on out of the working balance, returning
/// the keeper-payment instructions. On an error the working balance is
/// abandoned by the caller, so only the error is promised.
fn redeem_fees_from(
    balance: &mut Vec<Asset>,
    sender: &String,
    user: &String,
    fees: &Vec<Asset>,
    i: usize,
) -> (r: Result<Vec<Instruction>, ContractError>)
    requires
        i <= fees@.len(),
    ensures
        match redeem_fees(old(balance)@, *sender, *user, fees@.skip(i as int)) {
            Ok((b, ms)) => final(balance)@ == b && match r {
                Ok(v) => v@ == ms,
                Err(_) => false,
            },
            Err(e) => r == Err::<Vec<Instruction>, ContractError>(e),
        },
    decreases fees@.len() - i,
{
    if i == fees.len() {
        proof {
            assert(fees@.skip(i as int) =~= Seq::<Asset>::empty());
        }
        return Ok(Vec::new());
    }
    let ghost rest = fees@.skip(i as int);
    proof {
        assert(rest[0] == fees@[i as int]);
        assert(rest.drop_first() =~= fees@.skip(i as int + 1));
    }
    let a = fees[i].clone();
    let bi = match find_asset_by_info(balance, &a.info) {
        Some(bi) => bi,
        None => {
            return Err(ContractError::InsufficientTipBalance);
        },
    };
    let kept_info = balance[bi].info.clone();
    let remaining = match balance[bi].amount.checked_sub(a.amount) {
        Some(remaining) => remaining,
        None => {
            return Err(ContractError::InsufficientTipBalance);
        },
    };
    balance[bi] = Asset { info: kept_info, amount: remaining };

    let m = match a.info {
        AssetInfo::NativeToken { denom } => Instruction::NativeSend {
            to_address: sender.clone(),
            denom,
            amount: a.amount,
        },
        AssetInfo::Token { contract_addr } => Instruction::Cw20TransferFrom {
            contract_addr,
            owner: user.clone(),
            recipient: sender.clone(),
            amount: a.amount,
        },
    };
    let ghost gm = m;
    let mut paid: Vec<Instruction> = Vec::new();
    paid.push(m);
    match redeem_fees_from(balance, sender, user, fees, i + 1) {
        Ok(mut ms) => {
            proof {
                assert(paid@ =~= seq![gm]);
            }
            paid.append(&mut ms);
            Ok(paid)
        },
        Err(e) => Err(e),
    }
}

/// Performs one purchase of `user`'s order `id` on behalf of the keeper who
/// sent the invocation, over the route `hops`, redeeming `fee_redeem` from
/// the user's tip balance as payment.
#[verifier::loop_isolation(false)]
pub fn perform_dca_purchase(
    user_config: &mut UserConfig,
    orders: &mut Vec<DcaInfo>,
    config: &Config,
    info: &MessageInfo,
    user: String,
    id: u64,
    hops: Vec<SwapOperation>,
    fee_redeem: Vec<Asset>,
    now: u64,
) -> (r: Result<Response, ContractError>)
    ensures
        match purchase_outcome(
            *config,
            old(user_config).max_hops,
            old(user_config).max_spread,
            old(user_config).tip_balance@,
            old(orders)@,
            info.sender,
            user,
            id,
            hops,
            fee_redeem@,
            now,
        ) {
            Ok((balance, os, ms)) => {
                &&& final(user_config).tip_balance@ == balance
                &&& final(user_config).last_id == old(user_config).last_id
                &&& final(user_config).max_hops == old(user_config).max_hops
                &&& final(user_config).max_spread == old(user_config).max_spread
                &&& final(orders)@ == os
                &&& match r {
                    Ok(resp) => resp.messages@ == ms && attrs_view(resp.attributes@)
                        == purchase_attrs(user, id),
                    Err(_) => false,
                }
            },
            Err(e) => {
                &&& r == Err::<Response, ContractError>(e)
                &&& *final(user_config) == *old(user_config)
                &&& final(orders)@ == old(orders)@
            },
        },
{
    // the route must be non-empty and within the hop ceiling in force
    if hops.len() == 0 {
        return Err(ContractError::EmptyHopRoute);
    }
    let max_hops = match user_config.max_hops {
        Some(v) => v,
        None => config.max_hops,
    };
    if hops.len() > max_hops as usize {
        let reported: u32 = if hops.len() > u32::MAX as usize {
            u32::MAX
        } else {
            hops.len() as u32
        };
        return Err(ContractError::MaxHopsAssertion { hops: reported });
    }

    // every intermediate leg must output a whitelisted asset
    let ghost middle = hops@.take(hops@.len() - 1);
    let ghost bad_leg = |op: SwapOperation|
        !contains_info(config.whitelisted_tokens@, target_asset_info_of(op));
    let mut i: usize = 0;
    while i + 1 < hops.len()
        invariant
            i < hops@.len(),
            forall|j: int| 0 <= j < i ==> !bad_leg(#[trigger] middle[j]),
        decreases hops@.len() - i,
    {
        let target = hops[i].get_target_asset_info();
        if !config.is_whitelisted_asset(&target) {
            proof {
                assert(middle[i as int] == hops@[i as int]);
                assert(bad_leg(middle[i as int]));
                lemma_find_first_is_some(middle, bad_leg, i as int);
            }
            let token = match &hops[i] {
                SwapOperation::NativeSwap { ask_denom, .. } => ask_denom.clone(),
                SwapOperation::AstroSwap { ask_asset_info, .. } => match ask_asset_info {
                    AssetInfo::NativeToken { denom } => denom.clone(),
                    AssetInfo::Token { contract_addr } => contract_addr.clone(),
                },
            };
            return Err(ContractError::InvalidHopRoute { token });
        }
        proof {
            assert(middle[i as int] == hops@[i as int]);
            assert(!bad_leg(middle[i as int]));
        }
        i += 1;
    }
    proof {
        lemma_find_first_is_none(middle, bad_leg);
    }

    // the requested fees convert into redeemable fee hops
    proof {
        assert(fee_redeem@.skip(0) =~= fee_redeem@);
    }
    let requested = match requested_fee_hops_from(
        &config.whitelisted_fee_assets,
        &fee_redeem,
        0,
        0,
    ) {
        Ok(requested) => requested,
        Err(e) => {
            return Err(e);
        },
    };
    // a keeper may not redeem more fee hops than the route performs
    if requested > hops.len() as u128 {
        return Err(
            ContractError::RedeemTipTooLarge { requested, performed: hops.len() as u128 },
        );
    }

    // the order must exist, be due, and be what the route purchases
    let oi = match find_order_by_id(orders, id) {
        Some(oi) => oi,
        None => {
            return Err(ContractError::NonexistentDca);
        },
    };
    if orders[oi].last_purchase as u128 + orders[oi].interval as u128 > now as u128 {
        return Err(ContractError::PurchaseTooEarly);
    }
    let last_target = hops[hops.len() - 1].get_target_asset_info();
    if !(last_target == orders[oi].target_asset) {
        return Err(ContractError::TargetAssetAssertion);
    }

    // pay the keeper out of the user's tip balance
    let mut balance = crate::state::clone_assets(&user_config.tip_balance);
    let mut messages = match redeem_fees_from(&mut balance, &info.sender, &user, &fee_redeem, 0) {
        Ok(messages) => messages,
        Err(e) => {
            return Err(e);
        },
    };
    let ghost tip_msgs = messages@;

    // one per-purchase amount leaves the order
    let new_amount = match orders[oi].initial_asset.amount.checked_sub(orders[oi].dca_amount) {
        Some(new_amount) => new_amount,
        None => {
            return Err(ContractError::InsufficientBalance);
        },
    };
    let ghost order_before = orders@[oi as int];
    let id_kept = orders[oi].id;
    let interval_kept = orders[oi].interval;
    let dca_amount = orders[oi].dca_amount;
    let initial_info = orders[oi].initial_asset.info.clone();

    // the pull (for a token deposit) and the routing instruction
    if let AssetInfo::Token { contract_addr } = &initial_info {
        messages.push(
            Instruction::Cw20TransferFrom {
                contract_addr: contract_addr.clone(),
                owner: user.clone(),
                recipient: config.router_addr.clone(),
                amount: dca_amount,
            },
        );
    }
    let max_spread = match user_config.max_spread {
        Some(v) => v,
        None => config.max_spread,
    };
    let funds = match &initial_info {
        AssetInfo::NativeToken { denom } => Some(Coin { denom: denom.clone(), amount: dca_amount }),
        AssetInfo::Token { .. } => None,
    };
    let ghost route = hops;
    messages.push(
        Instruction::RouterSwap {
            contract_addr: config.router_addr.clone(),
            operations: hops,
            to: user.clone(),
            max_spread,
            funds,
        },
    );
    proof {
        assert(messages@ =~= tip_msgs + purchase_messages(
            order_before,
            config.router_addr,
            user,
            route,
            effective_max_spread(*config, old(user_config).max_spread),
        ));
    }

    // advance the order, or retire it once exhausted
    if new_amount == 0 {
        orders.remove(oi);
    } else {
        let target_kept = orders[oi].target_asset.clone();
        orders[oi] = DcaInfo {
            id: id_kept,
            initial_asset: Asset { info: initial_info, amount: new_amount },
            target_asset: target_kept,
            interval: interval_kept,
            last_purchase: now,
            dca_amount,
        };
        proof {
            assert(orders@[oi as int] == purchase_order_step(order_before, now));
        }
    }
    user_config.tip_balance = balance;

    let mut attributes: Vec<Attribute> = Vec::new();
    attributes.push(attr("action", "perform_dca_purchase".to_owned()));
    attributes.push(attr("user", user.clone()));
    attributes.push(attr("id", format_u64(id)));
    proof {
        assert(attrs_view(attributes@) =~= purchase_attrs(user, id));
    }
    Ok(Response { messages, attributes })
}

} // verus!
