//! Replacing a user's policy overrides.
use crate::decimal::Decimal;
use crate::error::ContractError;
use crate::response::{attr, attrs_view, Attribute, Instruction, Response};
use crate::state::UserConfig;
use crate::text::{dec_str, decimal_text, format_u64};
use vstd::prelude::*;

verus! {

/// An optional value as the event record shows it: the value, or "none".
pub open spec fn option_text(o: Option<u64>) -> Seq<char> {
    match o {
        Some(v) => dec_str(v as nat),
        None => "none"@,
    }
}

/// An optional decimal as the event record shows it: the value, or "none".
pub open spec fn option_decimal_text(o: Option<Decimal>) -> Seq<char> {
    match o {
        Some(d) => decimal_text(d),
        None => "none"@,
    }
}

/// Renders an optional value for the event record.
pub fn serde_option(option: Option<u64>) -> (s: String)
    ensures
        s@ == option_text(option),
{
    match option {
        Some(v) => format_u64(v),
        None => "none".to_owned(),
    }
}

/// Renders an optional decimal for the event record.
pub fn serde_option_decimal(option: Option<Decimal>) -> (s: String)
    ensures
        s@ == option_decimal_text(option),
{
    match option {
        Some(d) => d.to_text(),
        None => "none".to_owned(),
    }
}

/// The event record of an override update.
pub open spec fn update_user_config_attrs(
    max_hops: Option<u32>,
    max_spread: Option<Decimal>,
) -> Seq<(Seq<char>, Seq<char>)> {
    seq![
        ("action"@, "update_user_config"@),
        (
            "max_hops"@,
            option_text(
                match max_hops {
                    Some(v) => Some(v as u64),
                    None => None,
                },
            ),
        ),
        ("max_spread"@, option_decimal_text(max_spread)),
    ]
}

/// Replaces the sender's policy overrides. Both override fields take the
/// given values (clearing them when unset); the id counter and the tip
/// balance stay as they are.
pub fn update_user_config(
    user_config: &mut UserConfig,
    max_hops: Option<u32>,
    max_spread: Option<Decimal>,
) -> (r: Result<Response, ContractError>)
    ensures
        final(user_config).last_id == old(user_config).last_id,
        final(user_config).max_hops == max_hops,
        final(user_config).max_spread == max_spread,
        final(user_config).tip_balance == old(user_config).tip_balance,
        match r {
            Ok(resp) => resp.messages@ == Seq::<Instruction>::empty() && attrs_view(
                resp.attributes@,
            ) == update_user_config_attrs(max_hops, max_spread),
            Err(_) => false,
        },
{
    user_config.max_hops = max_hops;
    user_config.max_spread = max_spread;

    let hops_text = match max_hops {
        Some(v) => serde_option(Some(v as u64)),
        None => serde_option(None),
    };
    let mut attributes: Vec<Attribute> = Vec::new();
    attributes.push(attr("action", "update_user_config".to_owned()));
    attributes.push(attr("max_hops", hops_text));
    attributes.push(attr("max_spread", serde_option_decimal(max_spread)));
    proof {
        assert(attrs_view(attributes@) =~= update_user_config_attrs(max_hops, max_spread));
    }
    Ok(Response { messages: Vec::new(), attributes })
}

} // verus!
