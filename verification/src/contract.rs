//! The contract's state as one value, and the dispatch of every operation
//! over it. The host loads the state, resolves the collaborators' answers
//! (the block time, the factory's recorded owner, the sender's token
//! allowances), runs one operation, and persists the state again only when
//! the operation succeeded — a failed operation changes nothing.
use crate::asset::Asset;
use crate::dca::{DcaInfo, DcaQueryInfo, ExecuteMsg, InstantiateMsg, MigrateMsg, QueryMsg};
use crate::decimal::{parse_decimal, parse_decimal_spec};
use crate::error::{ContractError, StdError};
use crate::handlers::{
    add_bot_tip, cancel_dca_order, create_dca_order, modify_dca_order, perform_dca_purchase,
    update_config, update_user_config, withdraw, CreateDcaOrder, ModifyDcaOrderParameters,
};
use crate::handlers::add_bot_tip::add_bot_tip_outcome;
use crate::handlers::add_bot_tip::add_bot_tip_attrs;
use crate::handlers::cancel_dca_order::{cancel_order_attrs, cancel_order_outcome};
use crate::handlers::create_dca_order::{create_order_attrs, create_order_outcome};
use crate::handlers::modify_dca_order::{modify_order_attrs, modify_order_outcome};
use crate::handlers::perform_dca_purchase::{purchase_attrs, purchase_outcome};
use crate::handlers::update_config::update_config_attrs;
use crate::handlers::update_user_config::update_user_config_attrs;
use crate::handlers::withdraw::{apply_withdrawals, withdraw_attrs};
use crate::queries::get_user_dca_orders::{get_user_dca_orders, spendable_amount};
use crate::response::{attrs_view, Instruction, MessageInfo, Response};
use crate::search::{find_first, lemma_find_first_is_none, lemma_find_first_is_some};
use crate::state::{Config, UserConfig};
use vstd::prelude::*;

verus! {

/// Everything the contract stores: the configuration, each user's override
/// record, and each user's order set, the latter two keyed by address.
#[derive(Debug)]
pub struct ContractState {
    pub config: Config,
    pub user_configs: Vec<(String, UserConfig)>,
    pub user_orders: Vec<(String, Vec<DcaInfo>)>,
}

/// The index of `user`'s override record.
pub open spec fn find_config_entry(s: Seq<(String, UserConfig)>, user: Seq<char>) -> Option<int> {
    find_first(s, |e: (String, UserConfig)| e.0@ == user)
}

/// The index of `user`'s order set.
pub open spec fn find_orders_entry(s: Seq<(String, Vec<DcaInfo>)>, user: Seq<char>) -> Option<
    int,
> {
    find_first(s, |e: (String, Vec<DcaInfo>)| e.0@ == user)
}

/// The id counter an operation for `user` starts from: the stored one, or
/// zero before the user's first write.
pub open spec fn loaded_last_id(s: Seq<(String, UserConfig)>, user: Seq<char>) -> u64 {
    match find_config_entry(s, user) {
        Some(j) => s[j].1.last_id,
        None => 0,
    }
}

/// The hop-ceiling override in force for `user`, if any.
pub open spec fn loaded_max_hops(s: Seq<(String, UserConfig)>, user: Seq<char>) -> Option<u32> {
    match find_config_entry(s, user) {
        Some(j) => s[j].1.max_hops,
        None => None,
    }
}

/// The spread-ceiling override in force for `user`, if any.
pub open spec fn loaded_max_spread(s: Seq<(String, UserConfig)>, user: Seq<char>) -> Option<
    crate::decimal::Decimal,
> {
    match find_config_entry(s, user) {
        Some(j) => s[j].1.max_spread,
        None => None,
    }
}

/// The tip balance an operation for `user` starts from.
pub open spec fn loaded_tip_balance(s: Seq<(String, UserConfig)>, user: Seq<char>) -> Seq<Asset> {
    match find_config_entry(s, user) {
        Some(j) => s[j].1.tip_balance@,
        None => Seq::empty(),
    }
}

/// The order set an operation for `user` starts from.
pub open spec fn loaded_orders(s: Seq<(String, Vec<DcaInfo>)>, user: Seq<char>) -> Seq<DcaInfo> {
    match find_orders_entry(s, user) {
        Some(j) => s[j].1@,
        None => Seq::empty(),
    }
}

/// The override records after `user`'s record took the given fields: the
/// record is rewritten in place, or appended on the user's first write; every
/// other entry is untouched.
pub open spec fn config_entry_set(
    old_s: Seq<(String, UserConfig)>,
    new_s: Seq<(String, UserConfig)>,
    user: Seq<char>,
    last_id: u64,
    max_hops: Option<u32>,
    max_spread: Option<crate::decimal::Decimal>,
    tip_balance: Seq<Asset>,
) -> bool {
    let entry_ok = |e: (String, UserConfig)|
        {
            &&& e.0@ == user
            &&& e.1.last_id == last_id
            &&& e.1.max_hops == max_hops
            &&& e.1.max_spread == max_spread
            &&& e.1.tip_balance@ == tip_balance
        };
    match find_config_entry(old_s, user) {
        Some(j) => {
            &&& new_s.len() == old_s.len()
            &&& forall|t: int| 0 <= t < old_s.len() && t != j ==> new_s[t] == old_s[t]
            &&& entry_ok(new_s[j])
        },
        None => {
            &&& new_s.len() == old_s.len() + 1
            &&& forall|t: int| 0 <= t < old_s.len() ==> new_s[t] == old_s[t]
            &&& entry_ok(new_s.last())
        },
    }
}

/// The order sets after `user`'s set became `orders`: rewritten in place, or
/// appended on the user's first order; every other entry is untouched.
pub open spec fn orders_entry_set(
    old_s: Seq<(String, Vec<DcaInfo>)>,
    new_s: Seq<(String, Vec<DcaInfo>)>,
    user: Seq<char>,
    orders: Seq<DcaInfo>,
) -> bool {
    match find_orders_entry(old_s, user) {
        Some(j) => {
            &&& new_s.len() == old_s.len()
            &&& forall|t: int| 0 <= t < old_s.len() && t != j ==> new_s[t] == old_s[t]
            &&& new_s[j].0@ == user
            &&& new_s[j].1@ == orders
        },
        None => {
            &&& new_s.len() == old_s.len() + 1
            &&& forall|t: int| 0 <= t < old_s.len() ==> new_s[t] == old_s[t]
            &&& new_s.last().0@ == user
            &&& new_s.last().1@ == orders
        },
    }
}

/// Nothing in the state moved.
pub open spec fn state_unchanged(a: ContractState, b: ContractState) -> bool {
    &&& a.config == b.config
    &&& a.user_configs@ == b.user_configs@
    &&& a.user_orders@ == b.user_orders@
}

/// First index of `user`'s override record.
#[verifier::loop_isolation(false)]
fn find_config_index(s: &Vec<(String, UserConfig)>, user: &String) -> (r: Option<usize>)
    ensures
        match r {
            Some(j) => j < s@.len() && find_config_entry(s@, user@) == Some(j as int),
            None => find_config_entry(s@, user@) is None,
        },
{
    let ghost p = |e: (String, UserConfig)| e.0@ == user@;
    let mut i: usize = 0;
    while i < s.len()
        invariant
            i <= s@.len(),
            forall|j: int| 0 <= j < i ==> !p(#[trigger] s@[j]),
        decreases s@.len() - i,
    {
        if s[i].0 == *user {
            proof {
                assert(p(s@[i as int]));
                lemma_find_first_is_some(s@, p, i as int);
            }
            return Some(i);
        }
        proof {
            assert(!p(s@[i as int]));
        }
        i += 1;
    }
    proof {
        lemma_find_first_is_none(s@, p);
    }
    None
}

/// First index of `user`'s order set.
#[verifier::loop_isolation(false)]
fn find_orders_index(s: &Vec<(String, Vec<DcaInfo>)>, user: &String) -> (r: Option<usize>)
    ensures
        match r {
            Some(j) => j < s@.len() && find_orders_entry(s@, user@) == Some(j as int),
            None => find_orders_entry(s@, user@) is None,
        },
{
    let ghost p = |e: (String, Vec<DcaInfo>)| e.0@ == user@;
    let mut i: usize = 0;
    while i < s.len()
        invariant
            i <= s@.len(),
            forall|j: int| 0 <= j < i ==> !p(#[trigger] s@[j]),
        decreases s@.len() - i,
    {
        if s[i].0 == *user {
            proof {
                assert(p(s@[i as int]));
                lemma_find_first_is_some(s@, p, i as int);
            }
            return Some(i);
        }
        proof {
            assert(!p(s@[i as int]));
        }
        i += 1;
    }
    proof {
        lemma_find_first_is_none(s@, p);
    }
    None
}

/// Loads `user`'s override record: a copy of the stored one, or the default.
fn load_user_config(s: &Vec<(String, UserConfig)>, user: &String) -> (r: (
    UserConfig,
    Option<usize>,
))
    ensures
        match r.1 {
            Some(j) => j < s@.len() && find_config_entry(s@, user@) == Some(j as int),
            None => find_config_entry(s@, user@) is None,
        },
        r.0.last_id == loaded_last_id(s@, user@),
        r.0.max_hops == loaded_max_hops(s@, user@),
        r.0.max_spread == loaded_max_spread(s@, user@),
        r.0.tip_balance@ == loaded_tip_balance(s@, user@),
{
    match find_config_index(s, user) {
        Some(j) => (s[j].1.clone(), Some(j)),
        None => (UserConfig::default(), None),
    }
}

/// Loads `user`'s order set: a copy of the stored one, or the empty set.
fn load_orders(s: &Vec<(String, Vec<DcaInfo>)>, user: &String) -> (r: (Vec<DcaInfo>, Option<usize>))
    ensures
        match r.1 {
            Some(j) => j < s@.len() && find_orders_entry(s@, user@) == Some(j as int),
            None => find_orders_entry(s@, user@) is None,
        },
        r.0@ == loaded_orders(s@, user@),
{
    match find_orders_index(s, user) {
        Some(j) => {
            let orders = s[j].1.clone();
            proof {
                assert(orders@ =~= s@[j as int].1@);
            }
            (orders, Some(j))
        },
        None => (Vec::new(), None),
    }
}

/// Writes `user`'s override record back: in place, or as a new entry.
fn store_user_config(
    s: &mut Vec<(String, UserConfig)>,
    user: &String,
    at: Option<usize>,
    uc: UserConfig,
)
    requires
        match at {
            Some(j) => j < old(s)@.len() && find_config_entry(old(s)@, user@) == Some(j as int),
            None => find_config_entry(old(s)@, user@) is None,
        },
    ensures
        config_entry_set(
            old(s)@,
            final(s)@,
            user@,
            uc.last_id,
            uc.max_hops,
            uc.max_spread,
            uc.tip_balance@,
        ),
{
    proof {
        crate::search::lemma_find_first_props(
            old(s)@,
            |e: (String, UserConfig)| e.0@ == user@,
        );
    }
    match at {
        Some(j) => {
            let key = s[j].0.clone();
            s[j] = (key, uc);
        },
        None => {
            s.push((user.clone(), uc));
        },
    }
}

/// Writes `user`'s order set back: in place, or as a new entry.
fn store_orders(
    s: &mut Vec<(String, Vec<DcaInfo>)>,
    user: &String,
    at: Option<usize>,
    orders: Vec<DcaInfo>,
)
    requires
        match at {
            Some(j) => j < old(s)@.len() && find_orders_entry(old(s)@, user@) == Some(j as int),
            None => find_orders_entry(old(s)@, user@) is None,
        },
    ensures
        orders_entry_set(old(s)@, final(s)@, user@, orders@),
{
    proof {
        crate::search::lemma_find_first_props(
            old(s)@,
            |e: (String, Vec<DcaInfo>)| e.0@ == user@,
        );
    }
    match at {
        Some(j) => {
            let key = s[j].0.clone();
            s[j] = (key, orders);
        },
        None => {
            s.push((user.clone(), orders));
        },
    }
}

/// Sets up a fresh contract: the spread ceiling is parsed from its string
/// form, the configuration is taken as given, and no user has a record yet.
/// The host validates the two collaborator addresses before handing them in.
pub fn instantiate(msg: InstantiateMsg) -> (r: Result<ContractState, ContractError>)
    ensures
        match parse_decimal_spec(vstd::utf8::encode_utf8(msg.max_spread@)) {
            Err(e) => r == Err::<ContractState, ContractError>(ContractError::Std(e)),
            Ok(d) => match r {
                Ok(st) => {
                    &&& st.config.max_hops == msg.max_hops
                    &&& st.config.whitelisted_tokens == msg.whitelisted_tokens
                    &&& st.config.whitelisted_fee_assets == msg.whitelisted_fee_assets
                    &&& st.config.max_spread == d
                    &&& st.config.factory_addr == msg.factory_addr
                    &&& st.config.router_addr == msg.router_addr
                    &&& st.user_configs@ == Seq::<(String, UserConfig)>::empty()
                    &&& st.user_orders@ == Seq::<(String, Vec<DcaInfo>)>::empty()
                },
                Err(_) => false,
            },
        },
{
    let max_spread = match parse_decimal(msg.max_spread.as_str()) {
        Ok(d) => d,
        Err(e) => {
            return Err(ContractError::Std(e));
        },
    };
    Ok(
        ContractState {
            config: Config {
                max_hops: msg.max_hops,
                max_spread,
                whitelisted_fee_assets: msg.whitelisted_fee_assets,
                whitelisted_tokens: msg.whitelisted_tokens,
                factory_addr: msg.factory_addr,
                router_addr: msg.router_addr,
            },
            user_configs: Vec::new(),
            user_orders: Vec::new(),
        },
    )
}

/// Runs one state-mutating operation against the loaded state.
///
/// `now` is the block time in seconds; `factory_owner` is the owner the
/// pool-registry collaborator currently records; `allowances` are the token
/// allowances queried for the account the operation concerns (the sender, or
/// the named user for a purchase). A failed operation leaves the state
/// exactly as it was.
pub fn execute(
    state: &mut ContractState,
    now: u64,
    factory_owner: &String,
    allowances: &Vec<Asset>,
    info: &MessageInfo,
    msg: ExecuteMsg,
) -> (r: Result<Response, ContractError>)
    ensures
        r is Err ==> state_unchanged(*old(state), *final(state)),
        match msg {
            ExecuteMsg::CreateDcaOrder { initial_asset, target_asset, interval, dca_amount, first_purchase } => {
                match create_order_outcome(
                    loaded_last_id(old(state).user_configs@, info.sender@),
                    loaded_orders(old(state).user_orders@, info.sender@),
                    info.funds@,
                    allowances@,
                    (CreateDcaOrder { initial_asset, target_asset, interval, dca_amount, first_purchase }),
                ) {
                    Ok((new_last_id, os)) => {
                        &&& config_entry_set(
                            old(state).user_configs@,
                            final(state).user_configs@,
                            info.sender@,
                            new_last_id,
                            loaded_max_hops(old(state).user_configs@, info.sender@),
                            loaded_max_spread(old(state).user_configs@, info.sender@),
                            loaded_tip_balance(old(state).user_configs@, info.sender@),
                        )
                        &&& orders_entry_set(
                            old(state).user_orders@,
                            final(state).user_orders@,
                            info.sender@,
                            os,
                        )
                        &&& final(state).config == old(state).config
                        &&& match r {
                            Ok(resp) => resp.messages@ == Seq::<Instruction>::empty()
                                && attrs_view(resp.attributes@) == create_order_attrs(
                                (CreateDcaOrder { initial_asset, target_asset, interval, dca_amount, first_purchase }),
                            ),
                            Err(_) => false,
                        }
                    },
                    Err(e) => r == Err::<Response, ContractError>(e),
                }
            },
            ExecuteMsg::CancelDcaOrder { id } => {
                match cancel_order_outcome(
                    loaded_orders(old(state).user_orders@, info.sender@),
                    info.sender,
                    id,
                ) {
                    Ok((os, ms)) => {
                        &&& orders_entry_set(
                            old(state).user_orders@,
                            final(state).user_orders@,
                            info.sender@,
                            os,
                        )
                        &&& final(state).config == old(state).config
                        &&& final(state).user_configs@ == old(state).user_configs@
                        &&& match r {
                            Ok(resp) => resp.messages@ == ms && attrs_view(resp.attributes@)
                                == cancel_order_attrs(id),
                            Err(_) => false,
                        }
                    },
                    Err(e) => r == Err::<Response, ContractError>(e),
                }
            },
            ExecuteMsg::ModifyDcaOrder { id, new_initial_asset, new_target_asset, new_interval, new_dca_amount, new_first_purchase } => {
                match modify_order_outcome(
                    loaded_orders(old(state).user_orders@, info.sender@),
                    info.funds@,
                    allowances@,
                    info.sender,
                    (ModifyDcaOrderParameters { id, new_initial_asset, new_target_asset, new_interval, new_dca_amount, new_first_purchase }),
                ) {
                    Ok((os, ms)) => {
                        &&& orders_entry_set(
                            old(state).user_orders@,
                            final(state).user_orders@,
                            info.sender@,
                            os,
                        )
                        &&& final(state).config == old(state).config
                        &&& final(state).user_configs@ == old(state).user_configs@
                        &&& match r {
                            Ok(resp) => resp.messages@ == ms && attrs_view(resp.attributes@)
                                == modify_order_attrs(
                                (ModifyDcaOrderParameters { id, new_initial_asset, new_target_asset, new_interval, new_dca_amount, new_first_purchase }),
                            ),
                            Err(_) => false,
                        }
                    },
                    Err(e) => r == Err::<Response, ContractError>(e),
                }
            },
            ExecuteMsg::AddBotTip { assets } => {
                match add_bot_tip_outcome(
                    old(state).config.whitelisted_fee_assets@,
                    loaded_tip_balance(old(state).user_configs@, info.sender@),
                    info.funds@,
                    allowances@,
                    assets@,
                ) {
                    Ok(b) => {
                        &&& config_entry_set(
                            old(state).user_configs@,
                            final(state).user_configs@,
                            info.sender@,
                            loaded_last_id(old(state).user_configs@, info.sender@),
                            loaded_max_hops(old(state).user_configs@, info.sender@),
                            loaded_max_spread(old(state).user_configs@, info.sender@),
                            b,
                        )
                        &&& final(state).config == old(state).config
                        &&& final(state).user_orders@ == old(state).user_orders@
                        &&& match r {
                            Ok(resp) => resp.messages@ == Seq::<Instruction>::empty()
                                && attrs_view(resp.attributes@) == add_bot_tip_attrs(),
                            Err(_) => false,
                        }
                    },
                    Err(e) => r == Err::<Response, ContractError>(e),
                }
            },
            ExecuteMsg::Withdraw { assets } => {
                match apply_withdrawals(
                    loaded_tip_balance(old(state).user_configs@, info.sender@),
                    info.sender,
                    assets@,
                ) {
                    Ok((b, ms)) => {
                        &&& config_entry_set(
                            old(state).user_configs@,
                            final(state).user_configs@,
                            info.sender@,
                            loaded_last_id(old(state).user_configs@, info.sender@),
                            loaded_max_hops(old(state).user_configs@, info.sender@),
                            loaded_max_spread(old(state).user_configs@, info.sender@),
                            b,
                        )
                        &&& final(state).config == old(state).config
                        &&& final(state).user_orders@ == old(state).user_orders@
                        &&& match r {
                            Ok(resp) => resp.messages@ == ms && attrs_view(resp.attributes@)
                                == withdraw_attrs(),
                            Err(_) => false,
                        }
                    },
                    Err(e) => r == Err::<Response, ContractError>(e),
                }
            },
            ExecuteMsg::PerformDcaPurchase { user, id, hops, fee_redeem } => {
                match purchase_outcome(
                    old(state).config,
                    loaded_max_hops(old(state).user_configs@, user@),
                    loaded_max_spread(old(state).user_configs@, user@),
                    loaded_tip_balance(old(state).user_configs@, user@),
                    loaded_orders(old(state).user_orders@, user@),
                    info.sender,
                    user,
                    id,
                    hops,
                    fee_redeem@,
                    now,
                ) {
                    Ok((b, os, ms)) => {
                        &&& config_entry_set(
                            old(state).user_configs@,
                            final(state).user_configs@,
                            user@,
                            loaded_last_id(old(state).user_configs@, user@),
                            loaded_max_hops(old(state).user_configs@, user@),
                            loaded_max_spread(old(state).user_configs@, user@),
                            b,
                        )
                        &&& orders_entry_set(
                            old(state).user_orders@,
                            final(state).user_orders@,
                            user@,
                            os,
                        )
                        &&& final(state).config == old(state).config
                        &&& match r {
                            Ok(resp) => resp.messages@ == ms && attrs_view(resp.attributes@)
                                == purchase_attrs(user, id),
                            Err(_) => false,
                        }
                    },
                    Err(e) => r == Err::<Response, ContractError>(e),
                }
            },
            ExecuteMsg::UpdateConfig { max_hops, whitelisted_tokens, whitelisted_fee_assets, max_spread } => {
                if info.sender@ != factory_owner@ {
                    r == Err::<Response, ContractError>(ContractError::Unauthorized)
                } else {
                    &&& final(state).config.max_hops == (match max_hops {
                        Some(v) => v,
                        None => old(state).config.max_hops,
                    })
                    &&& final(state).config.whitelisted_fee_assets == (match whitelisted_fee_assets {
                        Some(v) => v,
                        None => old(state).config.whitelisted_fee_assets,
                    })
                    &&& final(state).config.whitelisted_tokens == (match whitelisted_tokens {
                        Some(v) => v,
                        None => old(state).config.whitelisted_tokens,
                    })
                    &&& final(state).config.max_spread == (match max_spread {
                        Some(v) => v,
                        None => old(state).config.max_spread,
                    })
                    &&& final(state).config.factory_addr == old(state).config.factory_addr
                    &&& final(state).config.router_addr == old(state).config.router_addr
                    &&& final(state).user_configs@ == old(state).user_configs@
                    &&& final(state).user_orders@ == old(state).user_orders@
                    &&& match r {
                        Ok(resp) => resp.messages@ == Seq::<Instruction>::empty() && attrs_view(
                            resp.attributes@,
                        ) == update_config_attrs(),
                        Err(_) => false,
                    }
                }
            },
            ExecuteMsg::UpdateUserConfig { max_hops, max_spread } => {
                &&& config_entry_set(
                    old(state).user_configs@,
                    final(state).user_configs@,
                    info.sender@,
                    loaded_last_id(old(state).user_configs@, info.sender@),
                    max_hops,
                    max_spread,
                    loaded_tip_balance(old(state).user_configs@, info.sender@),
                )
                &&& final(state).config == old(state).config
                &&& final(state).user_orders@ == old(state).user_orders@
                &&& match r {
                    Ok(resp) => resp.messages@ == Seq::<Instruction>::empty() && attrs_view(
                        resp.attributes@,
                    ) == update_user_config_attrs(max_hops, max_spread),
                    Err(_) => false,
                }
            },
        },
{
    match msg {
        ExecuteMsg::CreateDcaOrder { initial_asset, target_asset, interval, dca_amount, first_purchase } => {
            let (mut uc, at_uc) = load_user_config(&state.user_configs, &info.sender);
            let (mut orders, at_os) = load_orders(&state.user_orders, &info.sender);
            let order_info = CreateDcaOrder {
                initial_asset,
                target_asset,
                interval,
                dca_amount,
                first_purchase,
            };
            match create_dca_order(&mut uc, &mut orders, info, allowances, order_info) {
                Ok(resp) => {
                    store_user_config(&mut state.user_configs, &info.sender, at_uc, uc);
                    store_orders(&mut state.user_orders, &info.sender, at_os, orders);
                    Ok(resp)
                },
                Err(e) => Err(e),
            }
        },
        ExecuteMsg::CancelDcaOrder { id } => {
            let (mut orders, at_os) = load_orders(&state.user_orders, &info.sender);
            match cancel_dca_order(&mut orders, info, id) {
                Ok(resp) => {
                    store_orders(&mut state.user_orders, &info.sender, at_os, orders);
                    Ok(resp)
                },
                Err(e) => Err(e),
            }
        },
        ExecuteMsg::ModifyDcaOrder { id, new_initial_asset, new_target_asset, new_interval, new_dca_amount, new_first_purchase } => {
            let (mut orders, at_os) = load_orders(&state.user_orders, &info.sender);
            let order_details = ModifyDcaOrderParameters {
                id,
                new_initial_asset,
                new_target_asset,
                new_interval,
                new_dca_amount,
                new_first_purchase,
            };
            match modify_dca_order(&mut orders, info, allowances, order_details) {
                Ok(resp) => {
                    store_orders(&mut state.user_orders, &info.sender, at_os, orders);
                    Ok(resp)
                },
                Err(e) => Err(e),
            }
        },
        ExecuteMsg::AddBotTip { assets } => {
            let (mut uc, at_uc) = load_user_config(&state.user_configs, &info.sender);
            match add_bot_tip(&mut uc, &state.config, info, allowances, assets) {
                Ok(resp) => {
                    store_user_config(&mut state.user_configs, &info.sender, at_uc, uc);
                    Ok(resp)
                },
                Err(e) => Err(e),
            }
        },
        ExecuteMsg::Withdraw { assets } => {
            let (mut uc, at_uc) = load_user_config(&state.user_configs, &info.sender);
            match withdraw(&mut uc, info, assets) {
                Ok(resp) => {
                    store_user_config(&mut state.user_configs, &info.sender, at_uc, uc);
                    Ok(resp)
                },
                Err(e) => Err(e),
            }
        },
        ExecuteMsg::PerformDcaPurchase { user, id, hops, fee_redeem } => {
            let (mut uc, at_uc) = load_user_config(&state.user_configs, &user);
            let (mut orders, at_os) = load_orders(&state.user_orders, &user);
            match perform_dca_purchase(
                &mut uc,
                &mut orders,
                &state.config,
                info,
                user.clone(),
                id,
                hops,
                fee_redeem,
                now,
            ) {
                Ok(resp) => {
                    store_user_config(&mut state.user_configs, &user, at_uc, uc);
                    store_orders(&mut state.user_orders, &user, at_os, orders);
                    Ok(resp)
                },
                Err(e) => Err(e),
            }
        },
        ExecuteMsg::UpdateConfig { max_hops, whitelisted_tokens, whitelisted_fee_assets, max_spread } => {
            update_config(
                &mut state.config,
                info,
                factory_owner,
                max_hops,
                whitelisted_fee_assets,
                whitelisted_tokens,
                max_spread,
            )
        },
        ExecuteMsg::UpdateUserConfig { max_hops, max_spread } => {
            let (mut uc, at_uc) = load_user_config(&state.user_configs, &info.sender);
            match update_user_config(&mut uc, max_hops, max_spread) {
                Ok(resp) => {
                    store_user_config(&mut state.user_configs, &info.sender, at_uc, uc);
                    Ok(resp)
                },
                Err(e) => Err(e),
            }
        },
    }
}

/// What a query hands back.
#[derive(Debug, PartialEq)]
pub enum QueryResponse {
    /// The contract configuration.
    Config(Config),
    /// A user's override record (the default when none is stored).
    UserConfig(UserConfig),
    /// A user's orders, each with its currently spendable amount.
    UserDcaOrders(Vec<DcaQueryInfo>),
}

/// Answers one read-only operation. `allowances` are the token allowances
/// queried for the user the operation concerns.
pub fn query(state: &ContractState, allowances: &Vec<Asset>, msg: QueryMsg) -> (r: Result<
    QueryResponse,
    ContractError,
>)
    ensures
        match msg {
            QueryMsg::Config => match r {
                Ok(QueryResponse::Config(c)) => crate::state::config_eqv(c, state.config),
                _ => false,
            },
            QueryMsg::UserConfig { user } => match find_config_entry(
                state.user_configs@,
                user@,
            ) {
                None => r == Err::<QueryResponse, ContractError>(
                    ContractError::Std(StdError::NotFound),
                ),
                Some(j) => match r {
                    Ok(QueryResponse::UserConfig(u)) => {
                        &&& u.last_id == state.user_configs@[j].1.last_id
                        &&& u.max_hops == state.user_configs@[j].1.max_hops
                        &&& u.max_spread == state.user_configs@[j].1.max_spread
                        &&& u.tip_balance@ == state.user_configs@[j].1.tip_balance@
                    },
                    _ => false,
                },
            },
            QueryMsg::UserDcaOrders { user } => match find_orders_entry(
                state.user_orders@,
                user@,
            ) {
                None => r == Err::<QueryResponse, ContractError>(
                    ContractError::Std(StdError::NotFound),
                ),
                Some(j) => match r {
                    Ok(QueryResponse::UserDcaOrders(v)) => {
                        &&& v@.len() == state.user_orders@[j].1@.len()
                        &&& forall|i: int|
                            0 <= i < v@.len() ==> (#[trigger] v@[i]).order
                                == state.user_orders@[j].1@[i] && v@[i].token_allowance
                                == spendable_amount(state.user_orders@[j].1@[i], allowances@)
                    },
                    _ => false,
                },
            },
        },
{
    match msg {
        QueryMsg::Config => Ok(QueryResponse::Config(crate::queries::get_config(&state.config))),
        QueryMsg::UserConfig { user } => {
            match find_config_index(&state.user_configs, &user) {
                None => Err(ContractError::Std(StdError::NotFound)),
                Some(j) => Ok(
                    QueryResponse::UserConfig(
                        crate::queries::get_user_config(&state.user_configs[j].1),
                    ),
                ),
            }
        },
        QueryMsg::UserDcaOrders { user } => {
            match find_orders_index(&state.user_orders, &user) {
                None => Err(ContractError::Std(StdError::NotFound)),
                Some(j) => Ok(
                    QueryResponse::UserDcaOrders(
                        get_user_dca_orders(&state.user_orders[j].1, allowances),
                    ),
                ),
            }
        },
    }
}

/// A migration changes nothing and reports nothing.
pub fn migrate(_msg: MigrateMsg) -> (r: Result<Response, ContractError>)
    ensures
        match r {
            Ok(resp) => resp.messages@ == Seq::<Instruction>::empty() && resp.attributes@
                == Seq::<crate::response::Attribute>::empty(),
            Err(_) => false,
        },
{
    Ok(Response::new())
}

} // verus!
