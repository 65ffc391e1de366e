use astroport_dca::asset::{Asset, AssetInfo, Coin};
use astroport_dca::contract::{execute, instantiate, ContractState};
use astroport_dca::dca::{DcaInfo, ExecuteMsg, InstantiateMsg};
use astroport_dca::decimal::Decimal;
use astroport_dca::error::{ContractError, DivideByZeroError, StdError};
use astroport_dca::response::{Attribute, Instruction, MessageInfo, Response};
use astroport_dca::router::SwapOperation;
use astroport_dca::state::UserConfig;

/// The chain time every invocation in these tests runs at.
const NOW: u64 = 1_571_797_419;

const NORMAL_ORDER_INTERVAL: u64 = 500;

fn native(denom: &str, amount: u128) -> Asset {
    Asset { info: AssetInfo::NativeToken { denom: denom.to_string() }, amount }
}

fn token(addr: &str, amount: u128) -> Asset {
    Asset { info: AssetInfo::Token { contract_addr: addr.to_string() }, amount }
}

fn native_info(denom: &str) -> AssetInfo {
    AssetInfo::NativeToken { denom: denom.to_string() }
}

fn token_info(addr: &str) -> AssetInfo {
    AssetInfo::Token { contract_addr: addr.to_string() }
}

fn coins(amount: u128, denom: &str) -> Vec<Coin> {
    vec![Coin { denom: denom.to_string(), amount }]
}

fn mock_info(sender: &str, funds: Vec<Coin>) -> MessageInfo {
    MessageInfo { sender: sender.to_string(), funds }
}

fn mock_creator() -> MessageInfo {
    mock_info("creator", vec![])
}

fn astro_swap(offer: AssetInfo, ask: AssetInfo) -> SwapOperation {
    SwapOperation::AstroSwap { offer_asset_info: offer, ask_asset_info: ask }
}

fn attr(key: &str, value: &str) -> Attribute {
    Attribute { key: key.to_string(), value: value.to_string() }
}

/// The configuration the purchase tests run against: fee whitelist of uluna
/// and a token at 15,000 per hop, hop whitelist of one token and two native
/// denominations.
fn mock_state(max_hops: Option<u32>) -> ContractState {
    instantiate(InstantiateMsg {
        max_hops: max_hops.unwrap_or(4),
        whitelisted_tokens: vec![
            token_info("cw20_whitelist"),
            native_info("ukrw"),
            native_info("ujpy"),
        ],
        whitelisted_fee_assets: vec![native("uluna", 15_000), token("cw20_token", 15_000)],
        max_spread: "0.05".to_string(),
        factory_addr: "factory".to_string(),
        router_addr: "router".to_string(),
    })
    .unwrap()
}

fn run(
    state: &mut ContractState,
    allowances: Vec<Asset>,
    info: MessageInfo,
    msg: ExecuteMsg,
) -> Result<Response, ContractError> {
    execute(state, NOW, &"factory_owner".to_string(), &allowances, &info, msg)
}

fn create_normal_order(
    state: &mut ContractState,
    initial_info: AssetInfo,
    target_info: AssetInfo,
) {
    let (funds, allowances) = match &initial_info {
        AssetInfo::NativeToken { denom } => (coins(100_000, denom), vec![]),
        AssetInfo::Token { contract_addr } => (vec![], vec![token(contract_addr, 100_000)]),
    };

    run(
        state,
        allowances,
        mock_info("creator", funds),
        ExecuteMsg::CreateDcaOrder {
            initial_asset: Asset { amount: 100_000, info: initial_info },
            target_asset: target_info,
            interval: NORMAL_ORDER_INTERVAL,
            dca_amount: 10_000,
            first_purchase: None,
        },
    )
    .unwrap();
}

fn add_tip_balance(state: &mut ContractState) {
    run(
        state,
        vec![],
        mock_info("creator", coins(150_000, "uluna")),
        ExecuteMsg::AddBotTip { assets: vec![native("uluna", 150_000)] },
    )
    .unwrap();
}

fn user_config_of<'a>(state: &'a ContractState, user: &str) -> &'a UserConfig {
    &state.user_configs.iter().find(|e| e.0 == user).unwrap().1
}

fn orders_of<'a>(state: &'a ContractState, user: &str) -> &'a Vec<DcaInfo> {
    &state.user_orders.iter().find(|e| e.0 == user).unwrap().1
}

#[test]
fn can_perform_native_purchase() {
    let mut state = mock_state(None);

    create_normal_order(&mut state, native_info("uluna"), native_info("ukrw"));
    add_tip_balance(&mut state);

    let hops = vec![
        astro_swap(native_info("uluna"), native_info("ujpy")),
        astro_swap(native_info("ujpy"), native_info("ukrw")),
    ];

    // perform purchase
    let res = run(
        &mut state,
        vec![],
        mock_info("bot_user", vec![]),
        ExecuteMsg::PerformDcaPurchase {
            user: "creator".to_string(),
            id: 1,
            hops: hops.clone(),
            fee_redeem: vec![native("uluna", 30_000)],
        },
    )
    .unwrap();

    // should have removed from tip balance: 150,000 start - 30,000 fee redeem
    let user_config = user_config_of(&state, "creator");
    assert_eq!(user_config.tip_balance, vec![native("uluna", 120_000)]);

    // should pay the keeper and dispatch the swap with the purchase amount
    assert_eq!(
        res.messages,
        vec![
            Instruction::NativeSend {
                to_address: "bot_user".to_string(),
                denom: "uluna".to_string(),
                amount: 30_000,
            },
            Instruction::RouterSwap {
                contract_addr: "router".to_string(),
                operations: hops,
                to: "creator".to_string(),
                max_spread: Decimal::new(50_000_000_000_000_000),
                funds: Some(Coin { denom: "uluna".to_string(), amount: 10_000 }),
            },
        ]
    );

    // should have updated dca order
    assert_eq!(
        orders_of(&state, "creator"),
        &vec![DcaInfo {
            id: 1,
            interval: NORMAL_ORDER_INTERVAL,
            dca_amount: 10_000,
            initial_asset: native("uluna", 90_000),
            last_purchase: NOW,
            target_asset: native_info("ukrw"),
        }]
    );
}

#[test]
fn can_perform_token_purchase() {
    let mut state = mock_state(None);

    create_normal_order(&mut state, token_info("cw20_token"), native_info("uluna"));
    add_tip_balance(&mut state);

    let hops = vec![
        astro_swap(token_info("cw20_token"), native_info("ujpy")),
        astro_swap(native_info("ujpy"), native_info("uluna")),
    ];

    // perform purchase
    let res = run(
        &mut state,
        vec![],
        mock_info("bot_user", vec![]),
        ExecuteMsg::PerformDcaPurchase {
            user: "creator".to_string(),
            id: 1,
            hops: hops.clone(),
            fee_redeem: vec![native("uluna", 30_000)],
        },
    )
    .unwrap();

    // should have removed from tip balance: 150,000 start - 30,000 fee redeem
    let user_config = user_config_of(&state, "creator");
    assert_eq!(user_config.tip_balance, vec![native("uluna", 120_000)]);

    // should pay the keeper, pull the purchase amount to the router, and
    // dispatch the swap with no attached funds
    assert_eq!(
        res.messages,
        vec![
            Instruction::NativeSend {
                to_address: "bot_user".to_string(),
                denom: "uluna".to_string(),
                amount: 30_000,
            },
            Instruction::Cw20TransferFrom {
                contract_addr: "cw20_token".to_string(),
                owner: "creator".to_string(),
                recipient: "router".to_string(),
                amount: 10_000,
            },
            Instruction::RouterSwap {
                contract_addr: "router".to_string(),
                operations: hops,
                to: "creator".to_string(),
                max_spread: Decimal::new(50_000_000_000_000_000),
                funds: None,
            },
        ]
    );

    // should have updated dca order
    assert_eq!(
        orders_of(&state, "creator"),
        &vec![DcaInfo {
            id: 1,
            interval: NORMAL_ORDER_INTERVAL,
            dca_amount: 10_000,
            initial_asset: token("cw20_token", 90_000),
            last_purchase: NOW,
            target_asset: native_info("uluna"),
        }]
    );
}

#[test]
fn does_error_if_empty_hops() {
    let mut state = mock_state(None);

    create_normal_order(&mut state, native_info("uluna"), native_info("ukrw"));
    add_tip_balance(&mut state);

    // perform purchase
    let res = run(
        &mut state,
        vec![],
        mock_info("bot_user", vec![]),
        ExecuteMsg::PerformDcaPurchase {
            user: "creator".to_string(),
            id: 1,
            hops: vec![],
            fee_redeem: vec![native("uluna", 30_000)],
        },
    )
    .unwrap_err();

    assert_eq!(res, ContractError::EmptyHopRoute);
}

#[test]
fn does_error_if_too_many_hops() {
    let mut state = mock_state(Some(2));

    create_normal_order(&mut state, native_info("uluna"), native_info("ukrw"));
    add_tip_balance(&mut state);

    // perform purchase
    let res = run(
        &mut state,
        vec![],
        mock_info("bot_user", vec![]),
        ExecuteMsg::PerformDcaPurchase {
            user: "creator".to_string(),
            id: 1,
            hops: vec![
                astro_swap(native_info("uluna"), native_info("ujpy")),
                astro_swap(native_info("ujpy"), native_info("ukrw")),
                astro_swap(native_info("ukrw"), native_info("ujpy")),
            ],
            fee_redeem: vec![native("uluna", 30_000)],
        },
    )
    .unwrap_err();

    assert_eq!(res, ContractError::MaxHopsAssertion { hops: 3 });
}

#[test]
fn does_error_if_non_whitelisted_hop() {
    let mut state = mock_state(None);

    create_normal_order(&mut state, native_info("uluna"), native_info("ukrw"));
    add_tip_balance(&mut state);

    // perform purchase through a non-whitelisted token leg
    let res = run(
        &mut state,
        vec![],
        mock_info("bot_user", vec![]),
        ExecuteMsg::PerformDcaPurchase {
            user: "creator".to_string(),
            id: 1,
            hops: vec![
                astro_swap(native_info("uluna"), native_info("ujpy")),
                astro_swap(native_info("ujpy"), token_info("cw20_token")),
                astro_swap(token_info("cw20_token"), native_info("ukrw")),
            ],
            fee_redeem: vec![native("uluna", 30_000)],
        },
    )
    .unwrap_err();

    assert_eq!(res, ContractError::InvalidHopRoute { token: "cw20_token".to_string() });

    // should also error for native swap
    let res = run(
        &mut state,
        vec![],
        mock_info("bot_user", vec![]),
        ExecuteMsg::PerformDcaPurchase {
            user: "creator".to_string(),
            id: 1,
            hops: vec![
                SwapOperation::NativeSwap {
                    offer_denom: "uluna".to_string(),
                    ask_denom: "ugbp".to_string(),
                },
                astro_swap(native_info("ugbp"), native_info("ukrw")),
            ],
            fee_redeem: vec![native("uluna", 30_000)],
        },
    )
    .unwrap_err();

    assert_eq!(res, ContractError::InvalidHopRoute { token: "ugbp".to_string() });
}

#[test]
fn does_check_requested_fee_whitelisted() {
    let mut state = mock_state(None);

    create_normal_order(&mut state, native_info("uluna"), native_info("ukrw"));
    add_tip_balance(&mut state);

    // 35,000 is not an exact multiple of the 15,000 fee-per-hop unit
    let res = run(
        &mut state,
        vec![],
        mock_info("bot_user", vec![]),
        ExecuteMsg::PerformDcaPurchase {
            user: "creator".to_string(),
            id: 1,
            hops: vec![
                astro_swap(native_info("uluna"), native_info("ujpy")),
                astro_swap(native_info("ujpy"), native_info("ukrw")),
            ],
            fee_redeem: vec![native("uluna", 35_000)],
        },
    )
    .unwrap_err();

    assert_eq!(res, ContractError::IndivisibleDeposit);
}

#[test]
fn does_not_panic_for_zero_asset() {
    // a whitelisted fee asset with a zero fee-per-hop unit is a detected
    // failure, not a panic
    let mut state = mock_state(None);
    state.config.whitelisted_fee_assets = vec![token("cw20_addr", 0)];
    state.config.whitelisted_tokens = vec![native_info("ujpy")];

    let res = run(
        &mut state,
        vec![],
        mock_creator(),
        ExecuteMsg::PerformDcaPurchase {
            user: "creator".to_string(),
            id: 1,
            hops: vec![
                astro_swap(native_info("uluna"), native_info("ujpy")),
                astro_swap(native_info("ujpy"), native_info("ukrw")),
            ],
            fee_redeem: vec![token("cw20_addr", 30_000)],
        },
    )
    .unwrap_err();

    assert_eq!(
        res,
        ContractError::Std(StdError::DivideByZero {
            source: DivideByZeroError { operand: 30_000 }
        })
    );
}

#[test]
fn does_check_tip_redeem_size() {
    let mut state = mock_state(None);
    state.config.whitelisted_fee_assets = vec![native("uluna", 15_000)];
    state.config.whitelisted_tokens = vec![native_info("ujpy"), native_info("ukrw")];

    // wanted to do 15,000 * 4 = 60,000 fee redeem for a 15,000 * 3 swap
    let res = run(
        &mut state,
        vec![],
        mock_creator(),
        ExecuteMsg::PerformDcaPurchase {
            user: "creator".to_string(),
            id: 1,
            hops: vec![
                astro_swap(native_info("uluna"), native_info("ujpy")),
                astro_swap(native_info("ujpy"), native_info("ukrw")),
                astro_swap(native_info("ukrw"), native_info("ugbp")),
            ],
            fee_redeem: vec![native("uluna", 60_000)],
        },
    )
    .unwrap_err();

    assert_eq!(res, ContractError::RedeemTipTooLarge { requested: 4, performed: 3 });
}

#[test]
fn does_error_if_not_enough_balance() {
    // the user's tip balance of 25,000 cannot cover the requested 30,000
    let mut state = mock_state(None);
    state.config.whitelisted_fee_assets = vec![native("uluna", 15_000)];
    state.config.whitelisted_tokens = vec![native_info("ujpy")];
    state.user_configs.push((
        "creator".to_string(),
        UserConfig {
            last_id: 1,
            max_hops: None,
            max_spread: None,
            tip_balance: vec![native("uluna", 25_000)],
        },
    ));
    state.user_orders.push((
        "creator".to_string(),
        vec![DcaInfo {
            id: 1,
            dca_amount: 10_000,
            initial_asset: native("uluna", 100_000),
            target_asset: native_info("ugbp"),
            interval: 500,
            last_purchase: 0,
        }],
    ));

    let res = run(
        &mut state,
        vec![],
        mock_creator(),
        ExecuteMsg::PerformDcaPurchase {
            user: "creator".to_string(),
            id: 1,
            hops: vec![
                astro_swap(native_info("uluna"), native_info("ujpy")),
                astro_swap(native_info("ujpy"), native_info("ugbp")),
            ],
            fee_redeem: vec![native("uluna", 30_000)],
        },
    )
    .unwrap_err();

    assert_eq!(res, ContractError::InsufficientTipBalance);
}

#[test]
fn can_purchase_with_token_fee() {
    let mut state = mock_state(None);

    create_normal_order(&mut state, native_info("uluna"), native_info("ukrw"));

    // add bot tips backed by the token's recorded allowance
    run(
        &mut state,
        vec![token("cw20_token", 45_000)],
        mock_creator(),
        ExecuteMsg::AddBotTip { assets: vec![token("cw20_token", 45_000)] },
    )
    .unwrap();

    // should succeed
    let res = run(
        &mut state,
        vec![],
        mock_info("bot_addr", vec![]),
        ExecuteMsg::PerformDcaPurchase {
            user: "creator".to_string(),
            id: 1,
            hops: vec![
                astro_swap(native_info("uluna"), native_info("ujpy")),
                astro_swap(native_info("ujpy"), native_info("ukrw")),
            ],
            fee_redeem: vec![token("cw20_token", 30_000)],
        },
    )
    .unwrap();

    // should pay the keeper by spending the user's allowance
    assert_eq!(
        res.messages[0],
        Instruction::Cw20TransferFrom {
            contract_addr: "cw20_token".to_string(),
            owner: "creator".to_string(),
            recipient: "bot_addr".to_string(),
            amount: 30_000,
        }
    );
}

#[test]
fn does_error_if_purchase_too_early() {
    let mut state = mock_state(None);
    state.config.whitelisted_fee_assets = vec![native("uluna", 15_000)];
    state.config.whitelisted_tokens = vec![native_info("ujpy")];
    state.user_configs.push((
        "creator".to_string(),
        UserConfig {
            last_id: 1,
            max_hops: None,
            max_spread: None,
            tip_balance: vec![native("uluna", 45_000)],
        },
    ));
    state.user_orders.push((
        "creator".to_string(),
        vec![DcaInfo {
            id: 1,
            dca_amount: 10_000,
            initial_asset: native("uluna", 100_000),
            target_asset: native_info("ukrw"),
            interval: 500,
            last_purchase: NOW,
        }],
    ));

    // should fail when purchasing at the very time of the last purchase
    let res = run(
        &mut state,
        vec![],
        mock_creator(),
        ExecuteMsg::PerformDcaPurchase {
            user: "creator".to_string(),
            id: 1,
            hops: vec![
                astro_swap(native_info("uluna"), native_info("ujpy")),
                astro_swap(native_info("ujpy"), native_info("ukrw")),
            ],
            fee_redeem: vec![native("uluna", 30_000)],
        },
    )
    .unwrap_err();

    assert_eq!(res, ContractError::PurchaseTooEarly);
}

#[test]
fn does_not_panic_if_dca_too_big() {
    let mut state = mock_state(None);
    state.config.whitelisted_fee_assets = vec![native("uluna", 15_000)];
    state.config.whitelisted_tokens = vec![native_info("ujpy")];
    state.user_configs.push((
        "creator".to_string(),
        UserConfig {
            last_id: 1,
            max_hops: None,
            max_spread: None,
            tip_balance: vec![native("uluna", 45_000)],
        },
    ));
    state.user_orders.push((
        "creator".to_string(),
        vec![DcaInfo {
            id: 1,
            dca_amount: 10_000,
            initial_asset: native("uluna", 5_000),
            target_asset: native_info("ukrw"),
            interval: 500,
            last_purchase: 0,
        }],
    ));

    let res = run(
        &mut state,
        vec![],
        mock_creator(),
        ExecuteMsg::PerformDcaPurchase {
            user: "creator".to_string(),
            id: 1,
            hops: vec![
                astro_swap(native_info("uluna"), native_info("ujpy")),
                astro_swap(native_info("ujpy"), native_info("ukrw")),
            ],
            fee_redeem: vec![native("uluna", 30_000)],
        },
    )
    .unwrap_err();

    assert_eq!(res, ContractError::InsufficientBalance);
}

#[test]
fn does_error_if_not_target_hop() {
    let mut state = mock_state(None);
    state.config.whitelisted_fee_assets = vec![native("uluna", 15_000)];
    state.config.whitelisted_tokens = vec![native_info("ujpy")];
    state.user_configs.push((
        "creator".to_string(),
        UserConfig {
            last_id: 1,
            max_hops: None,
            max_spread: None,
            tip_balance: vec![native("uluna", 45_000)],
        },
    ));
    state.user_orders.push((
        "creator".to_string(),
        vec![DcaInfo {
            id: 1,
            dca_amount: 10_000,
            initial_asset: native("uluna", 100_000),
            target_asset: native_info("ukrw"),
            interval: 500,
            last_purchase: 0,
        }],
    ));

    let res = run(
        &mut state,
        vec![],
        mock_creator(),
        ExecuteMsg::PerformDcaPurchase {
            user: "creator".to_string(),
            id: 1,
            hops: vec![
                astro_swap(native_info("uluna"), native_info("ujpy")),
                astro_swap(native_info("ujpy"), native_info("ugbp")),
            ],
            fee_redeem: vec![native("uluna", 30_000)],
        },
    )
    .unwrap_err();

    assert_eq!(res, ContractError::TargetAssetAssertion);
}

#[test]
fn does_delete_order_if_fulfilled() {
    let mut state = mock_state(None);
    state.config.whitelisted_fee_assets = vec![native("uluna", 15_000)];
    state.config.whitelisted_tokens = vec![native_info("ujpy")];
    state.user_configs.push((
        "creator".to_string(),
        UserConfig {
            last_id: 1,
            max_hops: None,
            max_spread: None,
            tip_balance: vec![native("uluna", 45_000)],
        },
    ));
    state.user_orders.push((
        "creator".to_string(),
        vec![DcaInfo {
            id: 1,
            dca_amount: 10_000,
            initial_asset: native("uluna", 10_000),
            target_asset: native_info("ukrw"),
            interval: 500,
            last_purchase: 0,
        }],
    ));

    let hops = vec![
        astro_swap(native_info("uluna"), native_info("ujpy")),
        astro_swap(native_info("ujpy"), native_info("ukrw")),
    ];

    let res = run(
        &mut state,
        vec![],
        mock_info("bot_addr", vec![]),
        ExecuteMsg::PerformDcaPurchase {
            user: "creator".to_string(),
            id: 1,
            hops: hops.clone(),
            fee_redeem: vec![native("uluna", 30_000)],
        },
    )
    .unwrap();

    assert_eq!(
        res,
        Response {
            messages: vec![
                Instruction::NativeSend {
                    to_address: "bot_addr".to_string(),
                    denom: "uluna".to_string(),
                    amount: 30_000,
                },
                Instruction::RouterSwap {
                    contract_addr: "router".to_string(),
                    operations: hops,
                    to: "creator".to_string(),
                    max_spread: Decimal::new(50_000_000_000_000_000),
                    funds: Some(Coin { denom: "uluna".to_string(), amount: 10_000 }),
                },
            ],
            attributes: vec![
                attr("action", "perform_dca_purchase"),
                attr("user", "creator"),
                attr("id", "1"),
            ],
        }
    );

    // the exhausted order is gone
    assert_eq!(orders_of(&state, "creator").len(), 0);
}
