//! Reading a user's override configuration.
use crate::state::{user_config_eqv, UserConfig};
use vstd::prelude::*;

verus! {

/// The user's override record, as a caller-owned copy.
pub fn get_user_config(user_config: &UserConfig) -> (r: UserConfig)
    ensures
        user_config_eqv(r, *user_config),
{
    user_config.clone()
}

} // verus!
