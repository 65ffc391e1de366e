//! Cancelling an order and returning its native remainder.
use crate::asset::AssetInfo;
use crate::dca::{find_order, find_order_by_id, DcaInfo};
use crate::error::ContractError;
use crate::response::{attr, attrs_view, Attribute, Instruction, MessageInfo, Response};
use crate::text::{dec_str, format_u64};
use vstd::prelude::*;

verus! {

/// The refund a cancelled order produces: its full remaining amount for a
/// native asset, nothing for a token (the unused allowance stays with the
/// user, who may revoke it independently).
pub open spec fn cancel_refund(order: DcaInfo, sender: String) -> Seq<Instruction> {
    match order.initial_asset.info {
        AssetInfo::NativeToken { denom } => seq![
            (Instruction::NativeSend {
                to_address: sender,
                denom,
                amount: order.initial_asset.amount,
            }),
        ],
        AssetInfo::Token { .. } => Seq::empty(),
    }
}

/// What cancelling order `id` does: the order leaves the set and its native
/// remainder is refunded, or no such order exists and nothing changes.
pub open spec fn cancel_order_outcome(orders: Seq<DcaInfo>, sender: String, id: u64) -> Result<
    (Seq<DcaInfo>, Seq<Instruction>),
    ContractError,
> {
    match find_order(orders, id) {
        None => Err(ContractError::NonexistentDca),
        Some(i) => Ok((orders.remove(i), cancel_refund(orders[i], sender))),
    }
}

/// The event record of a successful cancellation.
pub open spec fn cancel_order_attrs(id: u64) -> Seq<(Seq<char>, Seq<char>)> {
    seq![("action"@, "cancel_dca_order"@), ("id"@, dec_str(id as nat))]
}

/// Cancels the sender's order `id`, removing it from the set and refunding
/// the remaining deposit if it is a native asset.
pub fn cancel_dca_order(orders: &mut Vec<DcaInfo>, info: &MessageInfo, id: u64) -> (r: Result<
    Response,
    ContractError,
>)
    ensures
        match cancel_order_outcome(old(orders)@, info.sender, id) {
            Ok((os, msgs)) => {
                &&& final(orders)@ == os
                &&& match r {
                    Ok(resp) => resp.messages@ == msgs && attrs_view(resp.attributes@)
                        == cancel_order_attrs(id),
                    Err(_) => false,
                }
            },
            Err(e) => {
                &&& r == Err::<Response, ContractError>(e)
                &&& final(orders)@ == old(orders)@
            },
        },
{
    let i = match find_order_by_id(orders, id) {
        Some(i) => i,
        None => {
            return Err(ContractError::NonexistentDca);
        },
    };

    let mut messages: Vec<Instruction> = Vec::new();
    if let AssetInfo::NativeToken { denom } = &orders[i].initial_asset.info {
        messages.push(
            Instruction::NativeSend {
                to_address: info.sender.clone(),
                denom: denom.clone(),
                amount: orders[i].initial_asset.amount,
            },
        );
    }
    orders.remove(i);

    let mut attributes: Vec<Attribute> = Vec::new();
    attributes.push(attr("action", "cancel_dca_order".to_owned()));
    attributes.push(attr("id", format_u64(id)));
    proof {
        assert(messages@ =~= cancel_refund(old(orders)@[i as int], info.sender));
        assert(attrs_view(attributes@) =~= cancel_order_attrs(id));
    }
    Ok(Response { messages, attributes })
}

} // verus!
