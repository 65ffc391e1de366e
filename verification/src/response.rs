//! What an invocation carries in and what a handler hands back out: the
//! caller's identity with its attached native funds, and the batch of outbound
//! instructions plus descriptive event attributes the host executes and logs
//! atomically with the state change.
use crate::asset::Coin;
use crate::decimal::Decimal;
use crate::router::SwapOperation;
use vstd::prelude::*;

verus! {

/// The sender of an invocation and the native funds attached to it.
#[derive(Debug)]
pub struct MessageInfo {
    pub sender: String,
    pub funds: Vec<Coin>,
}

/// An outbound instruction for the host ledger.
#[derive(Debug, PartialEq)]
pub enum Instruction {
    /// Pay `amount` of the native coin `denom` to `to_address`.
    NativeSend { to_address: String, denom: String, amount: u128 },
    /// Spend `amount` of the token `contract_addr` from `owner`'s recorded
    /// allowance, delivering it to `recipient`.
    Cw20TransferFrom { contract_addr: String, owner: String, recipient: String, amount: u128 },
    /// Ask the swap-routing collaborator at `contract_addr` to run the hop
    /// route, delivering the output to `to` under the `max_spread` ceiling.
    /// `funds` is the native coin attached to the call, if the order spends a
    /// native asset.
    RouterSwap {
        contract_addr: String,
        operations: Vec<SwapOperation>,
        to: String,
        max_spread: Decimal,
        funds: Option<Coin>,
    },
}

/// One descriptive key/value pair of the event record.
#[derive(Debug, PartialEq)]
pub struct Attribute {
    pub key: String,
    pub value: String,
}

/// The key/value views of an attribute list.
pub open spec fn attrs_view(s: Seq<Attribute>) -> Seq<(Seq<char>, Seq<char>)> {
    s.map_values(|a: Attribute| (a.key@, a.value@))
}

/// Builds one event attribute.
pub fn attr(key: &str, value: String) -> (r: Attribute)
    ensures
        r.key@ == key@,
        r.value == value,
{
    Attribute { key: key.to_owned(), value }
}

/// A successful operation's outbound instructions and event attributes.
#[derive(Debug, PartialEq)]
pub struct Response {
    pub messages: Vec<Instruction>,
    pub attributes: Vec<Attribute>,
}

impl Response {
    /// A response with no instructions and no attributes.
    pub fn new() -> (r: Self)
        ensures
            r.messages@ == Seq::<Instruction>::empty(),
            r.attributes@ == Seq::<Attribute>::empty(),
    {
        Response { messages: Vec::new(), attributes: Vec::new() }
    }
}

} // verus!
