use vstd::prelude::*;

use crate::constants::TOP_SIZE;
use crate::state::{config_wf, Address, Config, TopEntry};

verus! {

/// One-time configuration setup: the caller becomes admin, donations are
/// unpaused, donor ids start at 1, nothing donated yet, and the
/// leaderboard holds only sentinel slots. The host refuses a second
/// initialization by refusing to allocate the singleton twice.
pub fn handler(admin: Address, treasury: Address) -> (r: Config)
    ensures
        r@.admin == admin,
        r@.treasury == treasury,
        r@.paused == false,
        r@.next_donor_id == 1,
        r@.total_donated == 0,
        r@.top10.len() == TOP_SIZE,
        forall|i: int| 0 <= i < r@.top10.len() ==> (#[trigger] r@.top10[i]).donor_id == 0
            && r@.top10[i].lifetime_amount == 0 && r@.top10[i].donor_wallet@ =~= Seq::new(
            32,
            |j: int| 0u8,
        ) && r@.top10[i].donor_pda@ =~= Seq::new(32, |j: int| 0u8),
        config_wf(r@),
{
    let zero = Address::zeroed();
    let sentinel = TopEntry { donor_id: 0, donor_wallet: zero, donor_pda: zero, lifetime_amount: 0 };
    let mut top10: Vec<TopEntry> = Vec::new();
    let mut i: usize = 0;
    while i < TOP_SIZE
        invariant
            0 <= i <= TOP_SIZE,
            top10@.len() == i,
            forall|k: int| 0 <= k < i ==> top10@[k] == sentinel,
        decreases TOP_SIZE - i,
    {
        top10.push(sentinel);
        i += 1;
    }
    Config { admin, treasury, paused: false, next_donor_id: 1, total_donated: 0, top10 }
}

} // verus!
