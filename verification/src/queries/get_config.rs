//! Reading the contract configuration.
use crate::state::{config_eqv, Config};
use vstd::prelude::*;

verus! {

/// The contract configuration, as a caller-owned copy.
pub fn get_config(config: &Config) -> (r: Config)
    ensures
        config_eqv(r, *config),
{
    config.clone()
}

} // verus!
