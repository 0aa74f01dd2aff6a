use vstd::prelude::*;

use crate::donor_index::{create_or_check_donor_index, index_step};
use crate::errors::ErrorCode;
use crate::events::DonationEvent;
use crate::leaderboard::{update_top10, update_top_spec};
use crate::state::{
    address_eq, config_wf, entry_wf, Address, Config, ConfigV, Donor, DonorV, IndexSlot, TopEntry,
};
use crate::utils::{checked_add, nickname_ok, validate_nickname};

verus! {

/// The zeroed donor record the host hands over when a wallet donates for
/// the first time, with its id freshly assigned.
pub open spec fn fresh_donor(wallet: Address, donor_id: u64) -> DonorV {
    DonorV {
        donor_wallet: wallet,
        donor_id,
        lifetime_amount: 0,
        donations_count: 0,
        nickname: Seq::empty(),
        description: Seq::empty(),
        last_donation_ts: 0,
    }
}

/// The view of an optional piece of text.
pub open spec fn opt_text(n: Option<String>) -> Option<Seq<char>> {
    match n {
        Some(s) => Some(s@),
        None => None,
    }
}

/// What one donation request does to the configuration, the donor record
/// and the donor's index slot, and which event or error it yields. Every
/// error leaves all three unchanged: the host commits atomically, so a
/// rejected request must have no effect.
pub open spec fn donate_step(
    c: ConfigV,
    d: DonorV,
    s: IndexSlot,
    wallet: Address,
    donor_pda: Address,
    index_addr: Address,
    program_id: Address,
    now: i64,
    amount: u64,
    nickname: Option<Seq<char>>,
) -> (Result<DonationEvent, ErrorCode>, ConfigV, DonorV, IndexSlot) {
    if c.paused {
        (Err::<DonationEvent, ErrorCode>(ErrorCode::Paused), c, d, s)
    } else if amount == 0 {
        (Err::<DonationEvent, ErrorCode>(ErrorCode::InvalidAmount), c, d, s)
    } else if d.donor_id != 0 && d.donor_wallet != wallet {
        (Err::<DonationEvent, ErrorCode>(ErrorCode::Unauthorized), c, d, s)
    } else if d.donor_id == 0 && c.next_donor_id + 1 > u64::MAX {
        (Err::<DonationEvent, ErrorCode>(ErrorCode::Overflow), c, d, s)
    } else if !nickname_ok(nickname) {
        (Err::<DonationEvent, ErrorCode>(ErrorCode::NicknameTooLong), c, d, s)
    } else {
        let created_new = d.donor_id == 0;
        let d1 = if created_new {
            fresh_donor(wallet, c.next_donor_id)
        } else {
            d
        };
        let c1 = if created_new {
            ConfigV { next_donor_id: (c.next_donor_id + 1) as u64, ..c }
        } else {
            c
        };
        if d1.lifetime_amount + amount > u64::MAX || d1.donations_count + 1 > u64::MAX
            || c1.total_donated + amount > u64::MAX {
            (Err::<DonationEvent, ErrorCode>(ErrorCode::Overflow), c, d, s)
        } else {
            let d2 = DonorV {
                lifetime_amount: (d1.lifetime_amount + amount) as u64,
                donations_count: (d1.donations_count + 1) as u64,
                last_donation_ts: now,
                nickname: match nickname {
                    Some(n) => if n.len() > 0 {
                        n
                    } else {
                        d1.nickname
                    },
                    None => d1.nickname,
                },
                ..d1
            };
            let (ir, s2) = index_step(s, index_addr, program_id, d2.donor_id, wallet, donor_pda);
            if ir is Err {
                (Err::<DonationEvent, ErrorCode>(ir->Err_0), c, d, s)
            } else {
                let cand = TopEntry {
                    donor_id: d2.donor_id,
                    donor_wallet: d2.donor_wallet,
                    donor_pda,
                    lifetime_amount: d2.lifetime_amount,
                };
                let c2 = ConfigV {
                    total_donated: (c1.total_donated + amount) as u64,
                    top10: update_top_spec(c1.top10, cand),
                    ..c1
                };
                let ev = DonationEvent {
                    donor_wallet: wallet,
                    donor_id: d2.donor_id,
                    donor_pda,
                    amount_lamports: amount,
                    lifetime_amount_after: d2.lifetime_amount,
                    treasury: c.treasury,
                    timestamp: now,
                    created_new,
                };
                (Ok::<DonationEvent, ErrorCode>(ev), c2, d2, s2)
            }
        }
    }
}

/// Processes one donation of `amount` units from the authenticated
/// `wallet`: authorization, donor creation or update, index sync,
/// leaderboard update. The returned event records the transfer the host
/// must perform (amount to the treasury); a rejected request changes
/// nothing.
pub fn handler(
    config: &mut Config,
    donor: &mut Donor,
    slot: &mut IndexSlot,
    wallet: Address,
    donor_pda: Address,
    index_addr: Address,
    program_id: Address,
    now: i64,
    amount: u64,
    nickname: Option<String>,
) -> (r: Result<DonationEvent, ErrorCode>)
    requires
        config_wf(old(config)@),
    ensures
        ({
            let (sr, c2, d2, s2) = donate_step(
                old(config)@,
                old(donor)@,
                *old(slot),
                wallet,
                donor_pda,
                index_addr,
                program_id,
                now,
                amount,
                opt_text(nickname),
            );
            r == sr && final(config)@ == c2 && final(donor)@ == d2 && *final(slot) == s2
        }),
        config_wf(final(config)@),
        r is Err ==> final(config)@ == old(config)@ && final(donor)@ == old(donor)@
            && *final(slot) == *old(slot),
        old(donor)@.donor_id != 0 ==> final(donor)@.donor_id == old(donor)@.donor_id,
        r is Ok && old(donor)@.donor_id == 0 ==> final(donor)@.donor_id
            == old(config)@.next_donor_id,
{
    if config.paused {
        return Err(ErrorCode::Paused);
    }
    if amount == 0 {
        return Err(ErrorCode::InvalidAmount);
    }
    let created_new = donor.donor_id == 0;
    let mut new_donor_id = donor.donor_id;
    let mut new_next = config.next_donor_id;
    if created_new {
        new_donor_id = config.next_donor_id;
        new_next = match checked_add(config.next_donor_id, 1) {
            Ok(v) => v,
            Err(e) => {
                return Err(e);
            },
        };
    } else {
        if !address_eq(&donor.donor_wallet, &wallet) {
            return Err(ErrorCode::Unauthorized);
        }
    }
    match validate_nickname(&nickname) {
        Ok(()) => (),
        Err(e) => {
            return Err(e);
        },
    }
    let base_lifetime = if created_new {
        0
    } else {
        donor.lifetime_amount
    };
    let base_count = if created_new {
        0
    } else {
        donor.donations_count
    };
    let new_lifetime = match checked_add(base_lifetime, amount) {
        Ok(v) => v,
        Err(e) => {
            return Err(e);
        },
    };
    let new_count = match checked_add(base_count, 1) {
        Ok(v) => v,
        Err(e) => {
            return Err(e);
        },
    };
    let new_total = match checked_add(config.total_donated, amount) {
        Ok(v) => v,
        Err(e) => {
            return Err(e);
        },
    };
    match create_or_check_donor_index(slot, &index_addr, &program_id, new_donor_id, wallet,
        donor_pda) {
        Ok(()) => (),
        Err(e) => {
            return Err(e);
        },
    }
    if created_new {
        donor.donor_wallet = wallet;
        donor.donor_id = new_donor_id;
        donor.nickname = String::new();
        donor.description = String::new();
    }
    donor.lifetime_amount = new_lifetime;
    donor.donations_count = new_count;
    donor.last_donation_ts = now;
    match nickname {
        Some(name) => {
            if !name.as_str().is_empty() {
                donor.nickname = name;
            }
        },
        None => (),
    }
    config.next_donor_id = new_next;
    config.total_donated = new_total;
    let candidate = TopEntry {
        donor_id: new_donor_id,
        donor_wallet: donor.donor_wallet,
        donor_pda,
        lifetime_amount: new_lifetime,
    };
    proof {
        assert(entry_wf(candidate));
    }
    update_top10(&mut config.top10, candidate);
    Ok(
        DonationEvent {
            donor_wallet: wallet,
            donor_id: new_donor_id,
            donor_pda,
            amount_lamports: amount,
            lifetime_amount_after: new_lifetime,
            treasury: config.treasury,
            timestamp: now,
            created_new,
        },
    )
}

/// Law: a rejected donation — paused system, zero amount, wrong wallet,
/// overlong nickname, arithmetic overflow, or an inconsistent index —
/// leaves the configuration, the donor record and the index slot
/// unchanged.
pub proof fn lemma_rejected_donation_unchanged(
    c: ConfigV,
    d: DonorV,
    s: IndexSlot,
    wallet: Address,
    donor_pda: Address,
    index_addr: Address,
    program_id: Address,
    now: i64,
    amount: u64,
    nickname: Option<Seq<char>>,
)
    requires
        donate_step(c, d, s, wallet, donor_pda, index_addr, program_id, now, amount, nickname).0
            is Err,
    ensures
        donate_step(c, d, s, wallet, donor_pda, index_addr, program_id, now, amount, nickname).1
            == c,
        donate_step(c, d, s, wallet, donor_pda, index_addr, program_id, now, amount, nickname).2
            == d,
        donate_step(c, d, s, wallet, donor_pda, index_addr, program_id, now, amount, nickname).3
            == s,
{
}

/// Law: a donor id is assigned exactly once. An already-assigned id never
/// changes; a first donation draws the id from the configuration counter,
/// which then moves past it and never decreases.
pub proof fn lemma_donor_id_assigned_once(
    c: ConfigV,
    d: DonorV,
    s: IndexSlot,
    wallet: Address,
    donor_pda: Address,
    index_addr: Address,
    program_id: Address,
    now: i64,
    amount: u64,
    nickname: Option<Seq<char>>,
)
    requires
        c.next_donor_id >= 1,
    ensures
        ({
            let (r, c2, d2, s2) = donate_step(
                c,
                d,
                s,
                wallet,
                donor_pda,
                index_addr,
                program_id,
                now,
                amount,
                nickname,
            );
            &&& d.donor_id != 0 ==> d2.donor_id == d.donor_id
            &&& r is Ok && d.donor_id == 0 ==> d2.donor_id == c.next_donor_id
                && c2.next_donor_id == c.next_donor_id + 1
            &&& r is Ok ==> d2.donor_id != 0
            &&& c2.next_donor_id >= c.next_donor_id
        }),
{
}

/// Total lifetime amount over a collection of donor records.
pub open spec fn sum_lifetimes(ds: Seq<DonorV>) -> int
    decreases ds.len(),
{
    if ds.len() == 0 {
        0
    } else {
        ds[0].lifetime_amount + sum_lifetimes(ds.drop_first())
    }
}

pub proof fn lemma_sum_update(ds: Seq<DonorV>, i: int, d2: DonorV)
    requires
        0 <= i < ds.len(),
    ensures
        sum_lifetimes(ds.update(i, d2)) == sum_lifetimes(ds) - ds[i].lifetime_amount
            + d2.lifetime_amount,
    decreases ds.len(),
{
    if i == 0 {
        assert(ds.update(0, d2).drop_first() =~= ds.drop_first());
    } else {
        assert(ds.update(i, d2).drop_first() =~= ds.drop_first().update(i - 1, d2));
        lemma_sum_update(ds.drop_first(), i - 1, d2);
    }
}

/// Law: the running total tracks the donors. If `total_donated` equals
/// the sum of `lifetime_amount` over all donor records, then after one
/// committed donation it still does, and both sides have grown by exactly
/// the committed amount. (A record the host just allocated, id 0, holds
/// no lifetime amount yet.)
pub proof fn lemma_total_donated_tracks_lifetimes(
    c: ConfigV,
    d: DonorV,
    s: IndexSlot,
    wallet: Address,
    donor_pda: Address,
    index_addr: Address,
    program_id: Address,
    now: i64,
    amount: u64,
    nickname: Option<Seq<char>>,
    donors: Seq<DonorV>,
    i: int,
)
    requires
        0 <= i < donors.len(),
        donors[i] == d,
        d.donor_id == 0 ==> d.lifetime_amount == 0,
        c.total_donated == sum_lifetimes(donors),
    ensures
        ({
            let (r, c2, d2, s2) = donate_step(
                c,
                d,
                s,
                wallet,
                donor_pda,
                index_addr,
                program_id,
                now,
                amount,
                nickname,
            );
            r is Ok ==> c2.total_donated == c.total_donated + amount && c2.total_donated
                == sum_lifetimes(donors.update(i, d2))
        }),
{
    let (r, c2, d2, s2) = donate_step(
        c,
        d,
        s,
        wallet,
        donor_pda,
        index_addr,
        program_id,
        now,
        amount,
        nickname,
    );
    if r is Ok {
        lemma_sum_update(donors, i, d2);
    }
}

/// The accounting invariant over the whole ledger: the configuration's
/// running total equals the sum of `lifetime_amount` over every donor
/// record, and a record the host allocated but the program has not yet
/// populated (id 0) holds no lifetime amount.
pub open spec fn ledger_inv(c: ConfigV, donors: Seq<DonorV>) -> bool {
    &&& c.total_donated == sum_lifetimes(donors)
    &&& forall|k: int| 0 <= k < donors.len() ==> ((#[trigger] donors[k]).donor_id == 0
        ==> donors[k].lifetime_amount == 0)
}

/// Law: the accounting invariant holds across every donation sequence.
/// A fresh configuration with no donors satisfies it (nothing donated,
/// empty sum), and this lemma carries it through each donation request,
/// committed or rejected; a committed one grows the total by exactly its
/// amount. By induction, after any sequence of donations `total_donated`
/// equals the sum of all committed amounts and the sum of all lifetime
/// amounts.
pub proof fn lemma_ledger_inv_preserved(
    c: ConfigV,
    d: DonorV,
    s: IndexSlot,
    wallet: Address,
    donor_pda: Address,
    index_addr: Address,
    program_id: Address,
    now: i64,
    amount: u64,
    nickname: Option<Seq<char>>,
    donors: Seq<DonorV>,
    i: int,
)
    requires
        ledger_inv(c, donors),
        c.next_donor_id >= 1,
        0 <= i < donors.len(),
        donors[i] == d,
    ensures
        ({
            let (r, c2, d2, s2) = donate_step(
                c,
                d,
                s,
                wallet,
                donor_pda,
                index_addr,
                program_id,
                now,
                amount,
                nickname,
            );
            &&& ledger_inv(c2, donors.update(i, d2))
            &&& r is Ok ==> c2.total_donated == c.total_donated + amount
            &&& r is Err ==> c2 == c && donors.update(i, d2) == donors
        }),
{
    let (r, c2, d2, s2) = donate_step(
        c,
        d,
        s,
        wallet,
        donor_pda,
        index_addr,
        program_id,
        now,
        amount,
        nickname,
    );
    if r is Ok {
        lemma_total_donated_tracks_lifetimes(
            c,
            d,
            s,
            wallet,
            donor_pda,
            index_addr,
            program_id,
            now,
            amount,
            nickname,
            donors,
            i,
        );
    } else {
        assert(donors.update(i, d2) =~= donors);
        lemma_sum_update(donors, i, d2);
    }
}

} // verus!
