//! The spending allowances recorded for the contract by token issuers. The
//! host queries each issuer before an invocation and hands the results in as
//! a table; the handlers read it here.
use crate::asset::{Asset, AssetInfo};
use crate::search::{find_first, lemma_find_first_is_none, lemma_find_first_is_some};
use vstd::prelude::*;

verus! {

/// The index of the first table entry for the token at `token`.
pub open spec fn find_allowance(s: Seq<Asset>, token: Seq<char>) -> Option<int> {
    find_first(
        s,
        |a: Asset|
            match a.info {
                AssetInfo::Token { contract_addr } => contract_addr@ == token,
                AssetInfo::NativeToken { .. } => false,
            },
    )
}

/// The recorded allowance for the token at `token`: the first table entry's
/// amount, or zero when the table has none.
pub open spec fn allowance_of(s: Seq<Asset>, token: Seq<char>) -> u128 {
    match find_allowance(s, token) {
        Some(i) => s[i].amount,
        None => 0,
    }
}

/// The allowance the token at `contract_address` has recorded for the
/// contract, read from the table of queried allowances.
#[verifier::loop_isolation(false)]
pub fn get_token_allowance(allowances: &Vec<Asset>, contract_address: &String) -> (r: u128)
    ensures
        r == allowance_of(allowances@, contract_address@),
{
    let ghost p = |a: Asset|
        match a.info {
            AssetInfo::Token { contract_addr } => contract_addr@ == contract_address@,
            AssetInfo::NativeToken { .. } => false,
        };
    let mut i: usize = 0;
    while i < allowances.len()
        invariant
            i <= allowances@.len(),
            forall|j: int| 0 <= j < i ==> !p(#[trigger] allowances@[j]),
        decreases allowances@.len() - i,
    {
        let hit = match &allowances[i].info {
            AssetInfo::Token { contract_addr } => *contract_addr == *contract_address,
            AssetInfo::NativeToken { .. } => false,
        };
        if hit {
            proof {
                assert(p(allowances@[i as int]));
                lemma_find_first_is_some(allowances@, p, i as int);
            }
            return allowances[i].amount;
        }
        proof {
            assert(!p(allowances@[i as int]));
        }
        i += 1;
    }
    proof {
        lemma_find_first_is_none(allowances@, p);
    }
    0
}

} // verus!
