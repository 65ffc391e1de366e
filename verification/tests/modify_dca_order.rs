use astroport_dca::asset::{Asset, AssetInfo, Coin};
use astroport_dca::contract::{execute, instantiate, ContractState};
use astroport_dca::dca::{DcaInfo, ExecuteMsg, InstantiateMsg};
use astroport_dca::error::{ContractError, StdError};
use astroport_dca::response::{Attribute, Instruction, MessageInfo, Response};

fn native(denom: &str, amount: u128) -> Asset {
    Asset { info: AssetInfo::NativeToken { denom: denom.to_string() }, amount }
}

fn token(addr: &str, amount: u128) -> Asset {
    Asset { info: AssetInfo::Token { contract_addr: addr.to_string() }, amount }
}

fn coins(amount: u128, denom: &str) -> Vec<Coin> {
    vec![Coin { denom: denom.to_string(), amount }]
}

fn mock_info(sender: &str, funds: Vec<Coin>) -> MessageInfo {
    MessageInfo { sender: sender.to_string(), funds }
}

fn mock_creator() -> MessageInfo {
    mock_info("creator", vec![])
}

fn mock_state(fee_assets: Vec<Asset>) -> ContractState {
    instantiate(InstantiateMsg {
        max_hops: 4,
        whitelisted_tokens: vec![],
        whitelisted_fee_assets: fee_assets,
        max_spread: "0.05".to_string(),
        factory_addr: "factory".to_string(),
        router_addr: "router".to_string(),
    })
    .unwrap()
}

fn run(
    state: &mut ContractState,
    allowances: Vec<Asset>,
    info: MessageInfo,
    msg: ExecuteMsg,
) -> Result<Response, ContractError> {
    execute(state, 1_571_797_419, &"factory_owner".to_string(), &allowances, &info, msg)
}

fn attr(key: &str, value: &str) -> Attribute {
    Attribute { key: key.to_string(), value: value.to_string() }
}

fn orders_of<'a>(state: &'a ContractState, user: &str) -> &'a Vec<DcaInfo> {
    &state.user_orders.iter().find(|e| e.0 == user).unwrap().1
}

#[test]
fn does_modify_order() {
    let mut state = mock_state(vec![]);

    let initial_asset = native("uluna", 15_000);
    let target_asset = AssetInfo::NativeToken { denom: "ukrw".to_string() };
    let new_target_asset = AssetInfo::NativeToken { denom: "ujpy".to_string() };

    // create order
    run(
        &mut state,
        vec![],
        mock_info("creator", coins(initial_asset.amount, "uluna")),
        ExecuteMsg::CreateDcaOrder {
            initial_asset: initial_asset.clone(),
            target_asset,
            interval: 5_000,
            dca_amount: 1_000,
            first_purchase: None,
        },
    )
    .unwrap();

    // change target asset, interval, dca amount, first purchase
    let res = run(
        &mut state,
        vec![],
        mock_creator(),
        ExecuteMsg::ModifyDcaOrder {
            id: 1,
            new_initial_asset: initial_asset.clone(),
            new_target_asset: new_target_asset.clone(),
            new_interval: 1_000,
            new_dca_amount: 500,
            new_first_purchase: Some(18_000),
        },
    )
    .unwrap();

    assert_eq!(
        res,
        Response {
            messages: vec![],
            attributes: vec![
                attr("action", "modify_dca_order"),
                attr("id", "1"),
                attr("new_initial_asset", "15000uluna"),
                attr("new_target_asset", "ujpy"),
                attr("new_interval", "1000"),
                attr("new_dca_amount", "500"),
                attr("new_first_purchase", "18000"),
            ],
        }
    );

    // check state
    assert_eq!(
        orders_of(&state, "creator"),
        &vec![DcaInfo {
            id: 1,
            dca_amount: 500,
            initial_asset,
            interval: 1_000,
            last_purchase: 18_000,
            target_asset: new_target_asset,
        }]
    );
}

#[test]
fn does_refund_same_native() {
    // checks that the contract will refund the user if the order is modified
    // where the new initial asset is the same type as the old one, with a
    // smaller amount
    let mut state = mock_state(vec![]);

    let initial_asset = native("uluna", 15_000);
    let target_asset = AssetInfo::NativeToken { denom: "ukrw".to_string() };
    let new_initial_asset = native("uluna", 15_000 / 2);
    let new_target_asset = AssetInfo::NativeToken { denom: "ujpy".to_string() };

    // create order
    run(
        &mut state,
        vec![],
        mock_info("creator", coins(initial_asset.amount, "uluna")),
        ExecuteMsg::CreateDcaOrder {
            initial_asset: initial_asset.clone(),
            target_asset,
            interval: 5_000,
            dca_amount: 1_000,
            first_purchase: None,
        },
    )
    .unwrap();

    let res = run(
        &mut state,
        vec![],
        mock_creator(),
        ExecuteMsg::ModifyDcaOrder {
            id: 1,
            new_initial_asset: new_initial_asset.clone(),
            new_target_asset: new_target_asset.clone(),
            new_interval: 5_000,
            new_dca_amount: 1_000,
            new_first_purchase: None,
        },
    )
    .unwrap();

    assert_eq!(
        res,
        Response {
            messages: vec![Instruction::NativeSend {
                to_address: "creator".to_string(),
                denom: "uluna".to_string(),
                amount: initial_asset.amount - new_initial_asset.amount,
            }],
            attributes: vec![
                attr("action", "modify_dca_order"),
                attr("id", "1"),
                attr("new_initial_asset", "7500uluna"),
                attr("new_target_asset", "ujpy"),
                attr("new_interval", "5000"),
                attr("new_dca_amount", "1000"),
                attr("new_first_purchase", "none"),
            ],
        }
    );
}

#[test]
fn does_validate_extra_sent_native() {
    // validates that when a user increases the initial_asset.amount, that
    // they have attached the required funds to their tx
    let mut state = mock_state(vec![]);

    let initial_asset = native("uluna", 15_000);
    let target_asset = AssetInfo::NativeToken { denom: "ukrw".to_string() };
    let new_initial_asset = native("uluna", 15_000 * 2);
    let new_target_asset = AssetInfo::NativeToken { denom: "ujpy".to_string() };

    // create order
    run(
        &mut state,
        vec![],
        mock_info("creator", coins(initial_asset.amount, "uluna")),
        ExecuteMsg::CreateDcaOrder {
            initial_asset: initial_asset.clone(),
            target_asset,
            interval: 5_000,
            dca_amount: 1_000,
            first_purchase: None,
        },
    )
    .unwrap();

    let res = run(
        &mut state,
        vec![],
        mock_creator(),
        ExecuteMsg::ModifyDcaOrder {
            id: 1,
            new_initial_asset: new_initial_asset.clone(),
            new_target_asset: new_target_asset.clone(),
            new_interval: 5_000,
            new_dca_amount: 1_000,
            new_first_purchase: None,
        },
    )
    .unwrap_err();
    assert_eq!(res, ContractError::Std(StdError::NativeBalanceMismatch));

    // this time add the extra funds to the tx
    let res = run(
        &mut state,
        vec![],
        mock_info(
            "creator",
            coins(new_initial_asset.amount - initial_asset.amount, "uluna"),
        ),
        ExecuteMsg::ModifyDcaOrder {
            id: 1,
            new_initial_asset: new_initial_asset.clone(),
            new_target_asset: new_target_asset.clone(),
            new_interval: 5_000,
            new_dca_amount: 1_000,
            new_first_purchase: None,
        },
    )
    .unwrap();
    assert_eq!(
        res,
        Response {
            messages: vec![],
            attributes: vec![
                attr("action", "modify_dca_order"),
                attr("id", "1"),
                attr("new_initial_asset", "30000uluna"),
                attr("new_target_asset", "ujpy"),
                attr("new_interval", "5000"),
                attr("new_dca_amount", "1000"),
                attr("new_first_purchase", "none"),
            ],
        }
    );
}

#[test]
fn does_validate_extra_sent_token() {
    // validates that when a user increases the initial_asset.amount, that
    // they have recorded the required extra allowance
    let mut state = mock_state(vec![token("cw20_token", 15_000)]);

    let initial_asset = token("cw20_token", 100_000);
    let target_asset = AssetInfo::NativeToken { denom: "uluna".to_string() };
    let new_initial_asset = token("cw20_token", 100_000 * 2);

    // create order, backed by an exactly matching allowance
    run(
        &mut state,
        vec![token("cw20_token", 100_000)],
        mock_creator(),
        ExecuteMsg::CreateDcaOrder {
            initial_asset: initial_asset.clone(),
            target_asset: target_asset.clone(),
            interval: 1000,
            dca_amount: 25_000,
            first_purchase: None,
        },
    )
    .unwrap();

    // create another random order
    run(
        &mut state,
        vec![token("cw20_token", 100_000)],
        mock_info("creator", coins(20_000, "uluna")),
        ExecuteMsg::CreateDcaOrder {
            initial_asset: native("uluna", 20_000),
            target_asset: AssetInfo::NativeToken { denom: "ukrw".to_string() },
            interval: 1_000,
            dca_amount: 1_000,
            first_purchase: None,
        },
    )
    .unwrap();

    // should error when we have not increased allowance
    let res = run(
        &mut state,
        vec![token("cw20_token", 100_000)],
        mock_creator(),
        ExecuteMsg::ModifyDcaOrder {
            id: 1,
            new_initial_asset: new_initial_asset.clone(),
            new_target_asset: target_asset.clone(),
            new_interval: 5_000,
            new_dca_amount: 1_000,
            new_first_purchase: None,
        },
    )
    .unwrap_err();
    assert_eq!(res, ContractError::InvalidTokenDeposit);

    // this time with the extra allowance recorded
    run(
        &mut state,
        vec![token("cw20_token", 200_000)],
        mock_creator(),
        ExecuteMsg::ModifyDcaOrder {
            id: 1,
            new_initial_asset,
            new_target_asset: target_asset,
            new_interval: 5_000,
            new_dca_amount: 1_000,
            new_first_purchase: None,
        },
    )
    .unwrap();
}

#[test]
fn can_change_initial_asset_native() {
    let mut state = mock_state(vec![]);

    let initial_asset = native("uluna", 15_000);
    let target_asset = AssetInfo::NativeToken { denom: "ukrw".to_string() };
    let new_initial_asset = native("ukrw", 15_000 * 2);
    let new_target_asset = AssetInfo::NativeToken { denom: "uluna".to_string() };

    // create order
    run(
        &mut state,
        vec![],
        mock_info("creator", coins(initial_asset.amount, "uluna")),
        ExecuteMsg::CreateDcaOrder {
            initial_asset: initial_asset.clone(),
            target_asset,
            interval: 5_000,
            dca_amount: 1_000,
            first_purchase: None,
        },
    )
    .unwrap();

    let res = run(
        &mut state,
        vec![],
        mock_creator(),
        ExecuteMsg::ModifyDcaOrder {
            id: 1,
            new_initial_asset: new_initial_asset.clone(),
            new_target_asset: new_target_asset.clone(),
            new_interval: 5_000,
            new_dca_amount: 1_000,
            new_first_purchase: None,
        },
    )
    .unwrap_err();
    assert_eq!(res, ContractError::Std(StdError::NativeBalanceMismatch));

    // this time add the extra funds to the tx
    let res = run(
        &mut state,
        vec![],
        mock_info("creator", coins(new_initial_asset.amount, "ukrw")),
        ExecuteMsg::ModifyDcaOrder {
            id: 1,
            new_initial_asset: new_initial_asset.clone(),
            new_target_asset: new_target_asset.clone(),
            new_interval: 5_000,
            new_dca_amount: 1_000,
            new_first_purchase: None,
        },
    )
    .unwrap();
    assert_eq!(
        res,
        Response {
            messages: vec![Instruction::NativeSend {
                to_address: "creator".to_string(),
                denom: "uluna".to_string(),
                amount: initial_asset.amount,
            }],
            attributes: vec![
                attr("action", "modify_dca_order"),
                attr("id", "1"),
                attr("new_initial_asset", "30000ukrw"),
                attr("new_target_asset", "uluna"),
                attr("new_interval", "5000"),
                attr("new_dca_amount", "1000"),
                attr("new_first_purchase", "none"),
            ],
        }
    );
}

#[test]
fn can_change_initial_asset_token() {
    let mut state = mock_state(vec![token("cw20_token", 15_000)]);

    let initial_asset = token("cw20_other_token", 100_000);
    let target_asset = AssetInfo::NativeToken { denom: "uluna".to_string() };
    let new_initial_asset = token("cw20_token", 100_000);

    // create order, backed by the first token's allowance
    run(
        &mut state,
        vec![token("cw20_other_token", 100_000)],
        mock_creator(),
        ExecuteMsg::CreateDcaOrder {
            initial_asset,
            target_asset: target_asset.clone(),
            interval: 1000,
            dca_amount: 25_000,
            first_purchase: None,
        },
    )
    .unwrap();

    // attempt to modify should error, as we have no allowance for the new
    // token
    let res = run(
        &mut state,
        vec![token("cw20_other_token", 100_000)],
        mock_creator(),
        ExecuteMsg::ModifyDcaOrder {
            id: 1,
            new_initial_asset: new_initial_asset.clone(),
            new_target_asset: target_asset.clone(),
            new_interval: 1_000,
            new_dca_amount: 25_000,
            new_first_purchase: None,
        },
    )
    .unwrap_err();
    assert_eq!(res, ContractError::InvalidTokenDeposit);

    // should succeed once the new token's allowance is recorded
    run(
        &mut state,
        vec![token("cw20_other_token", 100_000), token("cw20_token", 100_000)],
        mock_creator(),
        ExecuteMsg::ModifyDcaOrder {
            id: 1,
            new_initial_asset,
            new_target_asset: target_asset,
            new_interval: 1_000,
            new_dca_amount: 25_000,
            new_first_purchase: None,
        },
    )
    .unwrap();
}

#[test]
fn modify_dca_order_does_error_on_invalid_id() {
    let mut state = mock_state(vec![]);

    let initial_asset = native("uluna", 15_000);
    let target_asset = AssetInfo::NativeToken { denom: "ukrw".to_string() };

    // create order
    run(
        &mut state,
        vec![],
        mock_info("creator", coins(initial_asset.amount, "uluna")),
        ExecuteMsg::CreateDcaOrder {
            initial_asset: initial_asset.clone(),
            target_asset: target_asset.clone(),
            interval: 5_000,
            dca_amount: 1_000,
            first_purchase: None,
        },
    )
    .unwrap();

    let res = run(
        &mut state,
        vec![],
        mock_creator(),
        ExecuteMsg::ModifyDcaOrder {
            id: 2,
            new_initial_asset: initial_asset,
            new_target_asset: target_asset,
            new_interval: 1_000,
            new_dca_amount: 500,
            new_first_purchase: Some(18_000),
        },
    )
    .unwrap_err();
    assert_eq!(res, ContractError::NonexistentDca);
}

#[test]
fn cannot_change_to_duplicate_asset() {
    let mut state = mock_state(vec![]);

    let initial_asset = native("uluna", 15_000);
    let target_asset = AssetInfo::NativeToken { denom: "ukrw".to_string() };
    let new_initial_asset = native("ukrw", 15_000);

    // create order
    run(
        &mut state,
        vec![],
        mock_info("creator", coins(initial_asset.amount, "uluna")),
        ExecuteMsg::CreateDcaOrder {
            initial_asset,
            target_asset: target_asset.clone(),
            interval: 5_000,
            dca_amount: 1_000,
            first_purchase: None,
        },
    )
    .unwrap();

    let res = run(
        &mut state,
        vec![],
        mock_creator(),
        ExecuteMsg::ModifyDcaOrder {
            id: 1,
            new_initial_asset,
            new_target_asset: target_asset,
            new_interval: 1_000,
            new_dca_amount: 500,
            new_first_purchase: Some(18_000),
        },
    )
    .unwrap_err();
    assert_eq!(res, ContractError::DuplicateAsset);
}
