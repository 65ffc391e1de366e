//! Creating a new recurring-purchase order.
use crate::asset::{asset_info_eq, native_balance_ok, Asset, AssetInfo};
use crate::dca::DcaInfo;
use crate::error::{ContractError, DivideByZeroError, OverflowError, OverflowOperation, StdError};
use crate::get_token_allowance::{allowance_of, get_token_allowance};
use crate::response::{attr, attrs_view, Attribute, Instruction, MessageInfo, Response};
use crate::state::UserConfig;
use crate::text::{asset_text, dec_str, format_u128, format_u64, info_text};
use vstd::prelude::*;

verus! {

/// The parameters of a new order.
#[derive(Debug)]
pub struct CreateDcaOrder {
    /// The deposited asset funding the order.
    pub initial_asset: Asset,
    /// The asset identity to purchase.
    pub target_asset: AssetInfo,
    /// The seconds between eligible purchases.
    pub interval: u64,
    /// The amount of the deposit spent per purchase.
    pub dca_amount: u128,
    /// The first eligible purchase time; purchases are eligible at once when
    /// omitted.
    pub first_purchase: Option<u64>,
}

/// The caller funded the declared deposit: exactly matching attached funds
/// for a native asset, an exactly matching recorded allowance for a token.
pub open spec fn deposit_funded(
    a: Asset,
    funds: Seq<crate::asset::Coin>,
    allowances: Seq<Asset>,
) -> bool {
    match a.info {
        AssetInfo::NativeToken { .. } => native_balance_ok(a, funds),
        AssetInfo::Token { contract_addr } => allowance_of(allowances, contract_addr@) == a.amount,
    }
}

/// The error an unfunded deposit fails with.
pub open spec fn deposit_error(a: Asset) -> ContractError {
    match a.info {
        AssetInfo::NativeToken { .. } => ContractError::Std(StdError::NativeBalanceMismatch),
        AssetInfo::Token { .. } => ContractError::InvalidTokenDeposit,
    }
}

/// What creating an order does: either the user's id counter advances and the
/// new order joins the set, or the state is unchanged and the first failing
/// check's error comes back.
pub open spec fn create_order_outcome(
    last_id: u64,
    orders: Seq<DcaInfo>,
    funds: Seq<crate::asset::Coin>,
    allowances: Seq<Asset>,
    p: CreateDcaOrder,
) -> Result<(u64, Seq<DcaInfo>), ContractError> {
    if asset_info_eq(p.initial_asset.info, p.target_asset) {
        Err(ContractError::DuplicateAsset)
    } else if p.dca_amount > p.initial_asset.amount {
        Err(ContractError::DepositTooSmall)
    } else if p.dca_amount == 0 {
        Err(
            ContractError::Std(
                StdError::DivideByZero {
                    source: DivideByZeroError { operand: p.initial_asset.amount },
                },
            ),
        )
    } else if p.initial_asset.amount % p.dca_amount != 0 {
        Err(ContractError::IndivisibleDeposit)
    } else if !deposit_funded(p.initial_asset, funds, allowances) {
        Err(deposit_error(p.initial_asset))
    } else if last_id == u64::MAX {
        Err(
            ContractError::Std(
                StdError::Overflow {
                    source: OverflowError {
                        operation: OverflowOperation::Add,
                        operand1: last_id as u128,
                        operand2: 1,
                    },
                },
            ),
        )
    } else {
        Ok(
            (
                (last_id + 1) as u64,
                orders.push(
                    (DcaInfo {
                        id: (last_id + 1) as u64,
                        initial_asset: p.initial_asset,
                        target_asset: p.target_asset,
                        interval: p.interval,
                        last_purchase: p.first_purchase.unwrap_or(0),
                        dca_amount: p.dca_amount,
                    }),
                ),
            ),
        )
    }
}

/// The event record of a successful creation.
pub open spec fn create_order_attrs(p: CreateDcaOrder) -> Seq<(Seq<char>, Seq<char>)> {
    seq![
        ("action"@, "create_dca_order"@),
        ("initial_asset"@, asset_text(p.initial_asset)),
        ("target_asset"@, info_text(p.target_asset)),
        ("interval"@, dec_str(p.interval as nat)),
        ("dca_amount"@, dec_str(p.dca_amount as nat)),
    ]
}

/// Creates a new order for the sender.
///
/// The target must differ from the deposited asset, the deposit must be a
/// positive exact multiple of the per-purchase amount, and the caller must
/// have funded exactly the declared amount. On success the sender's id
/// counter advances and the order is appended; nothing is transferred, so the
/// response carries no instructions.
pub fn create_dca_order(
    user_config: &mut UserConfig,
    orders: &mut Vec<DcaInfo>,
    info: &MessageInfo,
    allowances: &Vec<Asset>,
    order_info: CreateDcaOrder,
) -> (r: Result<Response, ContractError>)
    ensures
        match create_order_outcome(
            old(user_config).last_id,
            old(orders)@,
            info.funds@,
            allowances@,
            order_info,
        ) {
            Ok((new_last_id, os)) => {
                &&& final(user_config).last_id == new_last_id
                &&& final(user_config).max_hops == old(user_config).max_hops
                &&& final(user_config).max_spread == old(user_config).max_spread
                &&& final(user_config).tip_balance == old(user_config).tip_balance
                &&& final(orders)@ == os
                &&& match r {
                    Ok(resp) => resp.messages@ == Seq::<Instruction>::empty() && attrs_view(
                        resp.attributes@,
                    ) == create_order_attrs(order_info),
                    Err(_) => false,
                }
            },
            Err(e) => {
                &&& r == Err::<Response, ContractError>(e)
                &&& *final(user_config) == *old(user_config)
                &&& final(orders)@ == old(orders)@
            },
        },
{
    // check that assets are not duplicate
    if order_info.initial_asset.info == order_info.target_asset {
        return Err(ContractError::DuplicateAsset);
    }
    // check that dca_amount is at most the deposited amount
    if order_info.dca_amount > order_info.initial_asset.amount {
        return Err(ContractError::DepositTooSmall);
    }
    // check that the deposit is an exact multiple of dca_amount; a zero
    // dca_amount is a detected failure, not a panic
    match order_info.initial_asset.amount.checked_rem(order_info.dca_amount) {
        None => {
            return Err(
                ContractError::Std(
                    StdError::DivideByZero {
                        source: DivideByZeroError { operand: order_info.initial_asset.amount },
                    },
                ),
            );
        },
        Some(remainder) => {
            if remainder != 0 {
                return Err(ContractError::IndivisibleDeposit);
            }
        },
    }
    // the caller must have funded exactly the declared amount: attached funds
    // for a native asset, a recorded allowance for a token
    match &order_info.initial_asset.info {
        AssetInfo::NativeToken { .. } => {
            match order_info.initial_asset.assert_sent_native_token_balance(info) {
                Ok(()) => (),
                Err(e) => {
                    return Err(e);
                },
            }
        },
        AssetInfo::Token { contract_addr } => {
            let allowance = get_token_allowance(allowances, contract_addr);
            if allowance != order_info.initial_asset.amount {
                return Err(ContractError::InvalidTokenDeposit);
            }
        },
    }
    // allocate the next id, detecting counter exhaustion
    let id = match user_config.last_id.checked_add(1) {
        Some(id) => id,
        None => {
            return Err(
                ContractError::Std(
                    StdError::Overflow {
                        source: OverflowError {
                            operation: OverflowOperation::Add,
                            operand1: user_config.last_id as u128,
                            operand2: 1,
                        },
                    },
                ),
            );
        },
    };
    user_config.last_id = id;

    let last_purchase = match order_info.first_purchase {
        Some(t) => t,
        None => 0,
    };
    let initial_asset_attr = order_info.initial_asset.to_text();
    let target_asset_attr = order_info.target_asset.to_text();
    orders.push(
        DcaInfo {
            id,
            initial_asset: order_info.initial_asset,
            target_asset: order_info.target_asset,
            interval: order_info.interval,
            last_purchase,
            dca_amount: order_info.dca_amount,
        },
    );

    let mut attributes: Vec<Attribute> = Vec::new();
    attributes.push(attr("action", "create_dca_order".to_owned()));
    attributes.push(attr("initial_asset", initial_asset_attr));
    attributes.push(attr("target_asset", target_asset_attr));
    attributes.push(attr("interval", format_u64(order_info.interval)));
    attributes.push(attr("dca_amount", format_u128(order_info.dca_amount)));
    proof {
        assert(attrs_view(attributes@) =~= create_order_attrs(order_info));
    }
    Ok(Response { messages: Vec::new(), attributes })
}

} // verus!
