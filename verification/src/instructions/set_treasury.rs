use vstd::prelude::*;

use crate::errors::ErrorCode;
use crate::state::{address_eq, config_wf, Address, Config, ConfigV};

verus! {

/// Redirects future donations to `new_treasury`; only the admin may.
pub fn handler(config: &mut Config, caller: &Address, new_treasury: Address) -> (r: Result<
    (),
    ErrorCode,
>)
    ensures
        *caller == old(config)@.admin ==> r == Ok::<(), ErrorCode>(()) && final(config)@ == (
        ConfigV { treasury: new_treasury, ..old(config)@ }),
        *caller != old(config)@.admin ==> r == Err::<(), ErrorCode>(ErrorCode::Unauthorized)
            && final(config)@ == old(config)@,
        config_wf(old(config)@) ==> config_wf(final(config)@),
{
    if address_eq(caller, &config.admin) {
        config.treasury = new_treasury;
        Ok(())
    } else {
        Err(ErrorCode::Unauthorized)
    }
}

} // verus!
