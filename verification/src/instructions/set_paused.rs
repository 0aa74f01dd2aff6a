use vstd::prelude::*;

use crate::errors::ErrorCode;
use crate::state::{address_eq, config_wf, Address, Config, ConfigV};

verus! {

/// Pauses or resumes donation processing; only the admin may.
pub fn handler(config: &mut Config, caller: &Address, paused: bool) -> (r: Result<(), ErrorCode>)
    ensures
        *caller == old(config)@.admin ==> r == Ok::<(), ErrorCode>(()) && final(config)@ == (
        ConfigV { paused, ..old(config)@ }),
        *caller != old(config)@.admin ==> r == Err::<(), ErrorCode>(ErrorCode::Unauthorized)
            && final(config)@ == old(config)@,
        config_wf(old(config)@) ==> config_wf(final(config)@),
{
    if address_eq(caller, &config.admin) {
        config.paused = paused;
        Ok(())
    } else {
        Err(ErrorCode::Unauthorized)
    }
}

} // verus!
