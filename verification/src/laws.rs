//! The promises that span more than one operation, stated over the same
//! outcome specifications the handlers are verified against.
use crate::asset::{asset_info_eq, Asset, Coin};
use crate::dca::{find_order, DcaInfo};
use crate::decimal::Decimal;
use crate::error::{ContractError, DivideByZeroError, StdError};
use crate::handlers::create_dca_order::{create_order_outcome, CreateDcaOrder};
use crate::handlers::perform_dca_purchase::{
    effective_max_hops, fee_hops_fold, purchase_order_step, purchase_outcome, redeem_fees,
};
use crate::router::target_asset_info_of;
use crate::response::Instruction;
use crate::router::SwapOperation;
use crate::search::{find_first, lemma_find_first_is_none};
use crate::state::Config;
use vstd::prelude::*;

verus! {

/// The order after a run of successful purchases, one at each time in `ts`.
pub open spec fn order_after_purchases(o: DcaInfo, ts: Seq<u64>) -> DcaInfo
    decreases ts.len(),
{
    if ts.len() == 0 {
        o
    } else {
        order_after_purchases(purchase_order_step(o, ts[0]), ts.drop_first())
    }
}

/// Conservation: a purchase spends exactly the per-purchase amount and a
/// cancellation refunds exactly what remains, so over any run of purchases
/// the amount spent plus the amount still refundable is exactly the deposit.
/// Each successful purchase turns the order into `purchase_order_step` of
/// itself (see `purchase_outcome`) and emits instructions moving exactly
/// `dca_amount` (see `purchase_messages`); a cancellation refunds exactly
/// `initial_asset.amount` (see `cancel_refund`); an order is created with
/// `initial_asset.amount` equal to the deposit (see `create_order_outcome`).
pub proof fn lemma_conservation(o: DcaInfo, ts: Seq<u64>)
    requires
        ts.len() * o.dca_amount <= o.initial_asset.amount,
    ensures
        order_after_purchases(o, ts).initial_asset.amount + ts.len() * o.dca_amount
            == o.initial_asset.amount,
        order_after_purchases(o, ts).dca_amount == o.dca_amount,
        order_after_purchases(o, ts).initial_asset.info == o.initial_asset.info,
        order_after_purchases(o, ts).id == o.id,
    decreases ts.len(),
{
    if ts.len() > 0 {
        let stepped = purchase_order_step(o, ts[0]);
        assert(ts.len() * o.dca_amount == (ts.len() - 1) * o.dca_amount + o.dca_amount)
            by (nonlinear_arith)
        ;
        lemma_conservation(stepped, ts.drop_first());
    }
}

/// Divisibility: once the duplicate-asset and deposit-size checks pass, a
/// zero per-purchase amount is always rejected as a detected division by
/// zero, and a deposit that is not an exact multiple of the per-purchase
/// amount is always rejected as indivisible — creation never panics.
pub proof fn lemma_divisibility(
    last_id: u64,
    orders: Seq<DcaInfo>,
    funds: Seq<Coin>,
    allowances: Seq<Asset>,
    p: CreateDcaOrder,
)
    requires
        !asset_info_eq(p.initial_asset.info, p.target_asset),
        p.dca_amount <= p.initial_asset.amount,
    ensures
        p.dca_amount == 0 ==> create_order_outcome(last_id, orders, funds, allowances, p) == Err::<
            (u64, Seq<DcaInfo>),
            ContractError,
        >(
            ContractError::Std(
                StdError::DivideByZero {
                    source: DivideByZeroError { operand: p.initial_asset.amount },
                },
            ),
        ),
        p.dca_amount != 0 && p.initial_asset.amount % p.dca_amount != 0 ==> create_order_outcome(
            last_id,
            orders,
            funds,
            allowances,
            p,
        ) == Err::<(u64, Seq<DcaInfo>), ContractError>(ContractError::IndivisibleDeposit),
{
}

/// Every order's id was allocated by the user's counter, so ids never repeat
/// within the set.
pub open spec fn well_formed_orders(orders: Seq<DcaInfo>, last_id: u64) -> bool {
    &&& forall|i: int| 0 <= i < orders.len() ==> (#[trigger] orders[i]).id <= last_id
    &&& forall|i: int, j: int|
        0 <= i < j < orders.len() ==> (#[trigger] orders[i]).id != (#[trigger] orders[j]).id
}

/// Creation keeps the order set well formed: the new order takes the advanced
/// counter's value, which lies above every id already in the set. The other
/// operations only remove orders or rewrite them under their old id, so a set
/// built by the contract never holds two orders with one id — the hypothesis
/// the exhaustion-removal law rests on.
pub proof fn lemma_create_preserves_well_formed(
    last_id: u64,
    orders: Seq<DcaInfo>,
    funds: Seq<Coin>,
    allowances: Seq<Asset>,
    p: CreateDcaOrder,
)
    requires
        well_formed_orders(orders, last_id),
    ensures
        match create_order_outcome(last_id, orders, funds, allowances, p) {
            Ok((new_last_id, os)) => well_formed_orders(os, new_last_id),
            Err(_) => true,
        },
{
    match create_order_outcome(last_id, orders, funds, allowances, p) {
        Ok((new_last_id, os)) => {
            assert forall|i: int, j: int| 0 <= i < j < os.len() implies (#[trigger] os[i]).id != (
            #[trigger] os[j]).id by {
                if j == os.len() - 1 {
                    assert(os[i] == orders[i]);
                    assert(orders[i].id <= last_id);
                }
            }
        },
        Err(_) => {},
    }
}

/// Interval monotonicity: with the route and fee checks out of the way, a
/// purchase strictly before `last_purchase + interval` always fails as too
/// early, and one at or after that moment passes the timing check and — when
/// the remaining checks hold too — succeeds with the order's purchase time
/// reset to the attempt time.
pub proof fn lemma_interval_monotonicity(
    config: Config,
    max_hops_override: Option<u32>,
    max_spread_override: Option<Decimal>,
    tip_balance: Seq<Asset>,
    orders: Seq<DcaInfo>,
    sender: String,
    user: String,
    id: u64,
    hops: Vec<SwapOperation>,
    fee_redeem: Seq<Asset>,
    now: u64,
    oi: int,
)
    requires
        0 < hops@.len() <= effective_max_hops(config, max_hops_override),
        find_first(
            hops@.take(hops@.len() - 1),
            |op: SwapOperation| !crate::asset::contains_info(
                config.whitelisted_tokens@,
                target_asset_info_of(op),
            ),
        ) is None,
        fee_hops_fold(config.whitelisted_fee_assets@, fee_redeem, 0) matches Ok(n) && n
            <= hops@.len(),
        find_order(orders, id) == Some(oi),
    ensures
        orders[oi].last_purchase + orders[oi].interval > now ==> purchase_outcome(
            config,
            max_hops_override,
            max_spread_override,
            tip_balance,
            orders,
            sender,
            user,
            id,
            hops,
            fee_redeem,
            now,
        ) == Err::<(Seq<Asset>, Seq<DcaInfo>, Seq<Instruction>), ContractError>(
            ContractError::PurchaseTooEarly,
        ),
        (orders[oi].last_purchase + orders[oi].interval <= now && asset_info_eq(
            target_asset_info_of(hops@.last()),
            orders[oi].target_asset,
        ) && redeem_fees(tip_balance, sender, user, fee_redeem) is Ok
            && orders[oi].initial_asset.amount >= orders[oi].dca_amount) ==> (match purchase_outcome(
            config,
            max_hops_override,
            max_spread_override,
            tip_balance,
            orders,
            sender,
            user,
            id,
            hops,
            fee_redeem,
            now,
        ) {
            Ok((_, os, _)) => orders[oi].initial_asset.amount > orders[oi].dca_amount
                ==> (find_order(os, id) matches Some(k) && os[k].last_purchase == now),
            Err(_) => false,
        }),
{
    let outcome = purchase_outcome(
        config,
        max_hops_override,
        max_spread_override,
        tip_balance,
        orders,
        sender,
        user,
        id,
        hops,
        fee_redeem,
        now,
    );
    if orders[oi].last_purchase + orders[oi].interval <= now && asset_info_eq(
        target_asset_info_of(hops@.last()),
        orders[oi].target_asset,
    ) && redeem_fees(tip_balance, sender, user, fee_redeem) is Ok
        && orders[oi].initial_asset.amount > orders[oi].dca_amount {
        let stepped = purchase_order_step(orders[oi], now);
        let os = orders.update(oi, stepped);
        crate::search::lemma_find_first_props(orders, |o: DcaInfo| o.id == id);
        crate::search::lemma_find_first_is_some(os, |o: DcaInfo| o.id == id, oi);
    }
}

/// Fee-hop conservation: whenever the requested fee combination converts to
/// more fee hops than the route performs, the purchase fails with exactly
/// those two counts; a successful purchase therefore never redeems more fee
/// hops than it performs.
pub proof fn lemma_fee_hop_conservation(
    config: Config,
    max_hops_override: Option<u32>,
    max_spread_override: Option<Decimal>,
    tip_balance: Seq<Asset>,
    orders: Seq<DcaInfo>,
    sender: String,
    user: String,
    id: u64,
    hops: Vec<SwapOperation>,
    fee_redeem: Seq<Asset>,
    now: u64,
    requested: u128,
)
    requires
        fee_hops_fold(config.whitelisted_fee_assets@, fee_redeem, 0) == Ok::<u128, ContractError>(
            requested,
        ),
    ensures
        purchase_outcome(
            config,
            max_hops_override,
            max_spread_override,
            tip_balance,
            orders,
            sender,
            user,
            id,
            hops,
            fee_redeem,
            now,
        ) is Ok ==> requested <= hops@.len(),
        (0 < hops@.len() <= effective_max_hops(config, max_hops_override) && find_first(
            hops@.take(hops@.len() - 1),
            |op: SwapOperation| !crate::asset::contains_info(
                config.whitelisted_tokens@,
                target_asset_info_of(op),
            ),
        ) is None && requested > hops@.len()) ==> purchase_outcome(
            config,
            max_hops_override,
            max_spread_override,
            tip_balance,
            orders,
            sender,
            user,
            id,
            hops,
            fee_redeem,
            now,
        ) == Err::<(Seq<Asset>, Seq<DcaInfo>, Seq<Instruction>), ContractError>(
            ContractError::RedeemTipTooLarge { requested, performed: hops@.len() as u128 },
        ),
{
}

/// Exhaustion removal, first half: a successful purchase of an order whose
/// remaining deposit is exactly one per-purchase amount removes the order
/// from the set. The id must be unique in the set, which the creation rule
/// guarantees for every set the contract builds.
pub proof fn lemma_exhaustion_removes_order(
    config: Config,
    max_hops_override: Option<u32>,
    max_spread_override: Option<Decimal>,
    tip_balance: Seq<Asset>,
    orders: Seq<DcaInfo>,
    sender: String,
    user: String,
    id: u64,
    hops: Vec<SwapOperation>,
    fee_redeem: Seq<Asset>,
    now: u64,
    oi: int,
)
    requires
        find_order(orders, id) == Some(oi),
        orders[oi].initial_asset.amount == orders[oi].dca_amount,
        forall|j: int| 0 <= j < orders.len() && j != oi ==> (#[trigger] orders[j]).id != id,
        purchase_outcome(
            config,
            max_hops_override,
            max_spread_override,
            tip_balance,
            orders,
            sender,
            user,
            id,
            hops,
            fee_redeem,
            now,
        ) is Ok,
    ensures
        (match purchase_outcome(
            config,
            max_hops_override,
            max_spread_override,
            tip_balance,
            orders,
            sender,
            user,
            id,
            hops,
            fee_redeem,
            now,
        ) {
            Ok((_, os, _)) => find_order(os, id) is None,
            Err(_) => true,
        }),
{
    crate::search::lemma_find_first_props(orders, |o: DcaInfo| o.id == id);
    let os = orders.remove(oi);
    assert forall|j: int| 0 <= j < os.len() implies (#[trigger] os[j]).id != id by {
        if j < oi {
            assert(os[j] == orders[j]);
        } else {
            assert(os[j] == orders[j + 1]);
        }
    }
    lemma_find_first_is_none(os, |o: DcaInfo| o.id == id);
}

/// Exhaustion removal, second half: once no order in the set carries the id,
/// a purchase attempt that passes the route and fee checks fails with
/// `NonexistentDca`.
pub proof fn lemma_missing_order_rejected(
    config: Config,
    max_hops_override: Option<u32>,
    max_spread_override: Option<Decimal>,
    tip_balance: Seq<Asset>,
    orders: Seq<DcaInfo>,
    sender: String,
    user: String,
    id: u64,
    hops: Vec<SwapOperation>,
    fee_redeem: Seq<Asset>,
    now: u64,
)
    requires
        0 < hops@.len() <= effective_max_hops(config, max_hops_override),
        find_first(
            hops@.take(hops@.len() - 1),
            |op: SwapOperation| !crate::asset::contains_info(
                config.whitelisted_tokens@,
                target_asset_info_of(op),
            ),
        ) is None,
        fee_hops_fold(config.whitelisted_fee_assets@, fee_redeem, 0) matches Ok(n) && n
            <= hops@.len(),
        find_order(orders, id) is None,
    ensures
        purchase_outcome(
            config,
            max_hops_override,
            max_spread_override,
            tip_balance,
            orders,
            sender,
            user,
            id,
            hops,
            fee_redeem,
            now,
        ) == Err::<(Seq<Asset>, Seq<DcaInfo>, Seq<Instruction>), ContractError>(
            ContractError::NonexistentDca,
        ),
{
}

} // verus!
