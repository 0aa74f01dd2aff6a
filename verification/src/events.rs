use vstd::prelude::*;

use crate::state::Address;

verus! {

/// Emitted after every committed donation; the host appends it to its
/// observable log and performs the recorded transfer to the treasury.
#[derive(Clone, Copy, Debug, PartialEq, Eq)]
pub struct DonationEvent {
    pub donor_wallet: Address,
    pub donor_id: u64,
    pub donor_pda: Address,
    pub amount_lamports: u64,
    pub lifetime_amount_after: u64,
    pub treasury: Address,
    pub timestamp: i64,
    pub created_new: bool,
}

/// Emitted after a committed profile update; no funds movement.
#[derive(Clone, Copy, Debug, PartialEq, Eq)]
pub struct ProfileUpdatedEvent {
    pub donor_wallet: Address,
    pub donor_id: u64,
    pub donor_pda: Address,
    pub timestamp: i64,
}

} // verus!
