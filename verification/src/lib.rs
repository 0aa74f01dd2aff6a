//! Donation ledger and leaderboard engine.
//!
//! Records per-contributor cumulative gifts, maintains a bounded sorted
//! leaderboard, and enforces administrative controls (pause, treasury,
//! admin rotation). The surrounding host supplies keyed storage, signature
//! authentication, the native funds transfer and the clock; this crate holds
//! the verified state-transition logic those operations drive.

use vstd::prelude::*;

pub mod constants;
pub mod donor_index;
pub mod errors;
pub mod events;
pub mod instructions;
pub mod leaderboard;
pub mod state;
pub mod utils;

use crate::errors::ErrorCode;
use crate::events::{DonationEvent, ProfileUpdatedEvent};
use crate::instructions::donate::{donate_step, opt_text};
use crate::instructions::update_profile::profile_step;
use crate::state::{config_wf, Address, Config, ConfigV, Donor, IndexSlot};

verus! {

/// Sets up the singleton configuration with the caller as admin; see
/// `instructions::initialize_config`.
pub fn initialize_config(admin: Address, treasury: Address) -> (r: Config)
    ensures
        r@.admin == admin,
        r@.treasury == treasury,
        r@.paused == false,
        r@.next_donor_id == 1,
        r@.total_donated == 0,
        forall|i: int| 0 <= i < r@.top10.len() ==> (#[trigger] r@.top10[i]).donor_id == 0
            && r@.top10[i].lifetime_amount == 0,
        config_wf(r@),
{
    instructions::initialize_config::handler(admin, treasury)
}

/// Processes one donation; see `instructions::donate`.
pub fn donate(
    config: &mut Config,
    donor: &mut Donor,
    slot: &mut IndexSlot,
    wallet: Address,
    donor_pda: Address,
    index_addr: Address,
    program_id: Address,
    now: i64,
    amount: u64,
    nickname: Option<String>,
) -> (r: Result<DonationEvent, ErrorCode>)
    requires
        config_wf(old(config)@),
    ensures
        ({
            let (sr, c2, d2, s2) = donate_step(
                old(config)@,
                old(donor)@,
                *old(slot),
                wallet,
                donor_pda,
                index_addr,
                program_id,
                now,
                amount,
                opt_text(nickname),
            );
            r == sr && final(config)@ == c2 && final(donor)@ == d2 && *final(slot) == s2
        }),
        config_wf(final(config)@),
        r is Err ==> final(config)@ == old(config)@ && final(donor)@ == old(donor)@
            && *final(slot) == *old(slot),
{
    instructions::donate::handler(
        config,
        donor,
        slot,
        wallet,
        donor_pda,
        index_addr,
        program_id,
        now,
        amount,
        nickname,
    )
}

/// Updates the caller's nickname and description; see
/// `instructions::update_profile`.
pub fn update_profile(
    donor: &mut Donor,
    wallet: &Address,
    donor_pda: Address,
    now: i64,
    nickname: Option<String>,
    description: Option<String>,
) -> (r: Result<ProfileUpdatedEvent, ErrorCode>)
    ensures
        ({
            let (sr, d2) = profile_step(
                old(donor)@,
                *wallet,
                donor_pda,
                now,
                opt_text(nickname),
                opt_text(description),
            );
            r == sr && final(donor)@ == d2
        }),
{
    instructions::update_profile::handler(donor, wallet, donor_pda, now, nickname, description)
}

/// Admin-gated change of the treasury destination.
pub fn set_treasury(config: &mut Config, caller: &Address, new_treasury: Address) -> (r: Result<
    (),
    ErrorCode,
>)
    ensures
        *caller == old(config)@.admin ==> r == Ok::<(), ErrorCode>(()) && final(config)@ == (
        ConfigV { treasury: new_treasury, ..old(config)@ }),
        *caller != old(config)@.admin ==> r == Err::<(), ErrorCode>(ErrorCode::Unauthorized)
            && final(config)@ == old(config)@,
        config_wf(old(config)@) ==> config_wf(final(config)@),
{
    instructions::set_treasury::handler(config, caller, new_treasury)
}

/// Admin-gated pause switch for donation processing.
pub fn set_paused(config: &mut Config, caller: &Address, paused: bool) -> (r: Result<(), ErrorCode>)
    ensures
        *caller == old(config)@.admin ==> r == Ok::<(), ErrorCode>(()) && final(config)@ == (
        ConfigV { paused, ..old(config)@ }),
        *caller != old(config)@.admin ==> r == Err::<(), ErrorCode>(ErrorCode::Unauthorized)
            && final(config)@ == old(config)@,
        config_wf(old(config)@) ==> config_wf(final(config)@),
{
    instructions::set_paused::handler(config, caller, paused)
}

/// Admin-gated rotation of the admin role itself.
pub fn set_admin(config: &mut Config, caller: &Address, new_admin: Address) -> (r: Result<
    (),
    ErrorCode,
>)
    ensures
        *caller == old(config)@.admin ==> r == Ok::<(), ErrorCode>(()) && final(config)@ == (
        ConfigV { admin: new_admin, ..old(config)@ }),
        *caller != old(config)@.admin ==> r == Err::<(), ErrorCode>(ErrorCode::Unauthorized)
            && final(config)@ == old(config)@,
        config_wf(old(config)@) ==> config_wf(final(config)@),
{
    instructions::set_admin::handler(config, caller, new_admin)
}

} // verus!
