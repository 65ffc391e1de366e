//! The money model: an amount of either a native coin or a ledger-issued
//! (cw20-style) token, plus the attached-funds record of an invocation.
use crate::error::{ContractError, StdError};
use crate::response::MessageInfo;
use crate::search::{find_first, lemma_find_first_is_none, lemma_find_first_is_some};
use vstd::prelude::*;

verus! {

/// A native coin attached to an invocation: a denomination and an amount.
#[derive(Debug, PartialEq)]
pub struct Coin {
    pub denom: String,
    pub amount: u128,
}

/// The identity of an asset, independent of any amount.
#[derive(Debug)]
pub enum AssetInfo {
    /// A native coin, identified by its denomination.
    NativeToken { denom: String },
    /// A ledger-issued token, identified by the issuing contract's address.
    Token { contract_addr: String },
}

/// An amount of a concrete asset.
#[derive(Debug)]
pub struct Asset {
    pub info: AssetInfo,
    pub amount: u128,
}

/// Asset identities are the same kind and carry the same identifier.
pub open spec fn asset_info_eq(a: AssetInfo, b: AssetInfo) -> bool {
    match (a, b) {
        (AssetInfo::NativeToken { denom: d1 }, AssetInfo::NativeToken { denom: d2 }) => d1@ == d2@,
        (AssetInfo::Token { contract_addr: c1 }, AssetInfo::Token { contract_addr: c2 }) => c1@
            == c2@,
        _ => false,
    }
}

/// Assets are equal when their identities match and their amounts are equal.
pub open spec fn asset_eq(a: Asset, b: Asset) -> bool {
    asset_info_eq(a.info, b.info) && a.amount == b.amount
}

impl Clone for AssetInfo {
    fn clone(&self) -> (r: Self)
        ensures
            r == *self,
    {
        match self {
            AssetInfo::NativeToken { denom } => AssetInfo::NativeToken { denom: denom.clone() },
            AssetInfo::Token { contract_addr } => AssetInfo::Token {
                contract_addr: contract_addr.clone(),
            },
        }
    }
}

impl Clone for Asset {
    fn clone(&self) -> (r: Self)
        ensures
            r == *self,
    {
        Asset { info: self.info.clone(), amount: self.amount }
    }
}

impl Clone for Coin {
    fn clone(&self) -> (r: Self)
        ensures
            r == *self,
    {
        Coin { denom: self.denom.clone(), amount: self.amount }
    }
}

impl PartialEq for AssetInfo {
    fn eq(&self, other: &Self) -> (r: bool) {
        match (self, other) {
            (
                AssetInfo::NativeToken { denom: d1 },
                AssetInfo::NativeToken { denom: d2 },
            ) => *d1 == *d2,
            (
                AssetInfo::Token { contract_addr: c1 },
                AssetInfo::Token { contract_addr: c2 },
            ) => *c1 == *c2,
            _ => false,
        }
    }
}

impl vstd::std_specs::cmp::PartialEqSpecImpl for AssetInfo {
    open spec fn obeys_eq_spec() -> bool {
        true
    }

    open spec fn eq_spec(&self, other: &Self) -> bool {
        asset_info_eq(*self, *other)
    }
}

impl Eq for AssetInfo {

}

impl PartialEq for Asset {
    fn eq(&self, other: &Self) -> (r: bool) {
        self.info == other.info && self.amount == other.amount
    }
}

impl vstd::std_specs::cmp::PartialEqSpecImpl for Asset {
    open spec fn obeys_eq_spec() -> bool {
        true
    }

    open spec fn eq_spec(&self, other: &Self) -> bool {
        asset_eq(*self, *other)
    }
}

impl Eq for Asset {

}

/// The index of the first asset in `s` whose identity is `info`.
pub open spec fn find_info(s: Seq<Asset>, info: AssetInfo) -> Option<int> {
    find_first(s, |a: Asset| asset_info_eq(a.info, info))
}

/// Some asset identity in `s` equals `info`.
pub open spec fn contains_info(s: Seq<AssetInfo>, info: AssetInfo) -> bool {
    exists|i: int| 0 <= i < s.len() && asset_info_eq(#[trigger] s[i], info)
}

/// The index of the first coin in `funds` of denomination `denom`.
pub open spec fn find_coin(funds: Seq<Coin>, denom: Seq<char>) -> Option<int> {
    find_first(funds, |c: Coin| c.denom@ == denom)
}

/// The attached amount of denomination `denom`: the first matching coin's
/// amount, or zero when none is attached.
pub open spec fn sent_amount(funds: Seq<Coin>, denom: Seq<char>) -> u128 {
    match find_coin(funds, denom) {
        Some(i) => funds[i].amount,
        None => 0,
    }
}

/// For a native asset, the attached funds carry exactly the declared amount;
/// a token asset attaches nothing here, its deposit is proved by allowance.
pub open spec fn native_balance_ok(a: Asset, funds: Seq<Coin>) -> bool {
    match a.info {
        AssetInfo::NativeToken { denom } => sent_amount(funds, denom@) == a.amount,
        AssetInfo::Token { .. } => true,
    }
}

/// First index in `assets` whose identity matches `info`.
#[verifier::loop_isolation(false)]
pub fn find_asset_by_info(assets: &Vec<Asset>, info: &AssetInfo) -> (r: Option<usize>)
    ensures
        match r {
            Some(i) => i < assets@.len() && find_info(assets@, *info) == Some(i as int),
            None => find_info(assets@, *info) is None,
        },
{
    let ghost p = |a: Asset| asset_info_eq(a.info, *info);
    let mut i: usize = 0;
    while i < assets.len()
        invariant
            i <= assets@.len(),
            forall|j: int| 0 <= j < i ==> !p(#[trigger] assets@[j]),
        decreases assets@.len() - i,
    {
        if assets[i].info == *info {
            proof {
                assert(p(assets@[i as int]));
                lemma_find_first_is_some(assets@, p, i as int);
            }
            return Some(i);
        }
        proof {
            assert(!p(assets@[i as int]));
        }
        i += 1;
    }
    proof {
        lemma_find_first_is_none(assets@, p);
    }
    None
}

/// First index in `funds` of denomination `denom`.
#[verifier::loop_isolation(false)]
pub fn find_coin_by_denom(funds: &Vec<Coin>, denom: &String) -> (r: Option<usize>)
    ensures
        match r {
            Some(i) => i < funds@.len() && find_coin(funds@, denom@) == Some(i as int),
            None => find_coin(funds@, denom@) is None,
        },
{
    let ghost p = |c: Coin| c.denom@ == denom@;
    let mut i: usize = 0;
    while i < funds.len()
        invariant
            i <= funds@.len(),
            forall|j: int| 0 <= j < i ==> !p(#[trigger] funds@[j]),
        decreases funds@.len() - i,
    {
        if funds[i].denom == *denom {
            proof {
                assert(p(funds@[i as int]));
                lemma_find_first_is_some(funds@, p, i as int);
            }
            return Some(i);
        }
        proof {
            assert(!p(funds@[i as int]));
        }
        i += 1;
    }
    proof {
        lemma_find_first_is_none(funds@, p);
    }
    None
}

impl Asset {
    /// The funding proof for a declared deposit: for a native asset the
    /// invocation's attached funds must carry exactly the declared amount (a
    /// missing entry counts as zero); token deposits pass, they are checked
    /// against the recorded allowance instead.
    pub fn assert_sent_native_token_balance(&self, message_info: &MessageInfo) -> (r: Result<
        (),
        ContractError,
    >)
        ensures
            r == if native_balance_ok(*self, message_info.funds@) {
                Ok::<(), ContractError>(())
            } else {
                Err::<(), ContractError>(ContractError::Std(StdError::NativeBalanceMismatch))
            },
    {
        match &self.info {
            AssetInfo::NativeToken { denom } => {
                let sent: u128 = match find_coin_by_denom(&message_info.funds, denom) {
                    Some(i) => message_info.funds[i].amount,
                    None => 0,
                };
                if sent == self.amount {
                    Ok(())
                } else {
                    Err(ContractError::Std(StdError::NativeBalanceMismatch))
                }
            },
            AssetInfo::Token { .. } => Ok(()),
        }
    }
}

} // verus!
