use astroport_dca::asset::{Asset, AssetInfo, Coin};
use astroport_dca::contract::{execute, instantiate, ContractState};
use astroport_dca::dca::{ExecuteMsg, InstantiateMsg};
use astroport_dca::error::ContractError;
use astroport_dca::response::{Attribute, Instruction, MessageInfo, Response};

fn token(addr: &str, amount: u128) -> Asset {
    Asset { info: AssetInfo::Token { contract_addr: addr.to_string() }, amount }
}

fn coins(amount: u128, denom: &str) -> Vec<Coin> {
    vec![Coin { denom: denom.to_string(), amount }]
}

fn mock_info(sender: &str, funds: Vec<Coin>) -> MessageInfo {
    MessageInfo { sender: sender.to_string(), funds }
}

fn mock_creator() -> MessageInfo {
    mock_info("creator", vec![])
}

fn mock_state(fee_assets: Vec<Asset>, tokens: Vec<AssetInfo>) -> ContractState {
    instantiate(InstantiateMsg {
        max_hops: 4,
        whitelisted_tokens: tokens,
        whitelisted_fee_assets: fee_assets,
        max_spread: "0.05".to_string(),
        factory_addr: "factory".to_string(),
        router_addr: "router".to_string(),
    })
    .unwrap()
}

fn run(
    state: &mut ContractState,
    allowances: Vec<Asset>,
    info: MessageInfo,
    msg: ExecuteMsg,
) -> Result<Response, ContractError> {
    execute(state, 1_571_797_419, &"factory_owner".to_string(), &allowances, &info, msg)
}

fn attr(key: &str, value: &str) -> Attribute {
    Attribute { key: key.to_string(), value: value.to_string() }
}

fn create_order(
    state: &mut ContractState,
    allowances: Vec<Asset>,
    info: MessageInfo,
    asset_info: AssetInfo,
    target_asset: AssetInfo,
    first_purchase: Option<u64>,
) {
    run(
        state,
        allowances,
        info,
        ExecuteMsg::CreateDcaOrder {
            initial_asset: Asset { amount: 1_000_000, info: asset_info },
            target_asset,
            first_purchase,
            interval: 60,
            dca_amount: 500_000,
        },
    )
    .unwrap();
}

fn orders_len(state: &ContractState, user: &str) -> usize {
    state.user_orders.iter().find(|e| e.0 == user).unwrap().1.len()
}

#[test]
fn does_cancel_order_native() {
    let mut state = mock_state(vec![], vec![]);

    create_order(
        &mut state,
        vec![],
        mock_info("creator", coins(1_000_000, "uluna")),
        AssetInfo::NativeToken { denom: "uluna".to_string() },
        AssetInfo::NativeToken { denom: "ukrw".to_string() },
        None,
    );

    // cancel dca order
    let res = run(&mut state, vec![], mock_creator(), ExecuteMsg::CancelDcaOrder { id: 1 })
        .unwrap();

    assert_eq!(
        res,
        Response {
            messages: vec![Instruction::NativeSend {
                to_address: "creator".to_string(),
                denom: "uluna".to_string(),
                amount: 1_000_000,
            }],
            attributes: vec![attr("action", "cancel_dca_order"), attr("id", "1")],
        }
    );

    // check it was removed from storage
    assert_eq!(orders_len(&state, "creator"), 0);
}

#[test]
fn does_cancel_order_token() {
    let mut state = mock_state(vec![token("cw20_token", 15_000)], vec![]);

    run(
        &mut state,
        vec![token("cw20_token", 1_000_000)],
        mock_creator(),
        ExecuteMsg::CreateDcaOrder {
            initial_asset: token("cw20_token", 1_000_000),
            target_asset: AssetInfo::NativeToken { denom: "uluna".to_string() },
            interval: 500,
            dca_amount: 500_000,
            first_purchase: None,
        },
    )
    .unwrap();

    // cancel order; a token remainder moves nothing, the allowance stays with
    // the user
    let res = run(&mut state, vec![], mock_creator(), ExecuteMsg::CancelDcaOrder { id: 1 })
        .unwrap();
    assert_eq!(res.messages, vec![]);

    // check it was removed from storage
    assert_eq!(orders_len(&state, "creator"), 0);
}

#[test]
fn cancel_dca_order_does_error_on_invalid_id() {
    let mut state = mock_state(vec![], vec![]);

    // errors if user has never made a order before
    let res = run(&mut state, vec![], mock_creator(), ExecuteMsg::CancelDcaOrder { id: 2 })
        .unwrap_err();
    assert_eq!(res, ContractError::NonexistentDca);

    // errors if wrong id is passed
    create_order(
        &mut state,
        vec![],
        mock_info("creator", coins(1_000_000, "uluna")),
        AssetInfo::NativeToken { denom: "uluna".to_string() },
        AssetInfo::NativeToken { denom: "ukrw".to_string() },
        None,
    );

    let res = run(&mut state, vec![], mock_creator(), ExecuteMsg::CancelDcaOrder { id: 2 })
        .unwrap_err();
    assert_eq!(res, ContractError::NonexistentDca);
}
