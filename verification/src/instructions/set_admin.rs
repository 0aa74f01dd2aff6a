use vstd::prelude::*;

use crate::errors::ErrorCode;
use crate::state::{address_eq, config_wf, Address, Config, ConfigV};

verus! {

/// Hands the admin role to `new_admin`; only the current admin may.
pub fn handler(config: &mut Config, caller: &Address, new_admin: Address) -> (r: Result<
    (),
    ErrorCode,
>)
    ensures
        *caller == old(config)@.admin ==> r == Ok::<(), ErrorCode>(()) && final(config)@ == (
        ConfigV { admin: new_admin, ..old(config)@ }),
        *caller != old(config)@.admin ==> r == Err::<(), ErrorCode>(ErrorCode::Unauthorized)
            && final(config)@ == old(config)@,
        config_wf(old(config)@) ==> config_wf(final(config)@),
{
    if address_eq(caller, &config.admin) {
        config.admin = new_admin;
        Ok(())
    } else {
        Err(ErrorCode::Unauthorized)
    }
}

} // verus!
