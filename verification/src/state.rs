use vstd::prelude::*;

use crate::constants::{MAX_DESCRIPTION_LEN, MAX_NICKNAME_LEN, TOP_SIZE};

verus! {

/// A 32-byte account address, also used as a principal identity.
#[derive(Clone, Copy, Debug, PartialEq, Eq, Hash)]
pub struct Address {
    pub bytes: [u8; 32],
}

impl View for Address {
    type V = Seq<u8>;

    open spec fn view(&self) -> Seq<u8> {
        self.bytes@
    }
}

impl Address {
    /// The all-zero address, used in sentinel leaderboard slots and in
    /// never-populated index records.
    pub fn zeroed() -> (r: Address)
        ensures
            r@ =~= Seq::new(32, |i: int| 0u8),
    {
        proof {
            broadcast use vstd::array::group_array_axioms;
        }
        Address { bytes: [0u8; 32] }
    }
}

/// Two addresses are equal exactly when their byte views are.
pub proof fn lemma_address_view_injective(a: Address, b: Address)
    ensures
        (a@ == b@) <==> (a == b),
{
    broadcast use vstd::array::group_array_axioms;

    if a@ == b@ {
        assert(a.bytes =~= b.bytes);
        assert(a =~= b);
    }
}

/// Byte-for-byte address comparison.
pub fn address_eq(a: &Address, b: &Address) -> (r: bool)
    ensures
        r == (*a == *b),
{
    proof {
        broadcast use vstd::array::group_array_axioms;
    }
    let mut i: usize = 0;
    while i < 32
        invariant
            0 <= i <= 32,
            forall|j: int| 0 <= j < i ==> a.bytes@[j] == b.bytes@[j],
        decreases 32 - i,
    {
        if a.bytes[i] != b.bytes[i] {
            proof {
                assert(a.bytes@[i as int] != b.bytes@[i as int]);
            }
            return false;
        }
        i += 1;
    }
    proof {
        assert(a.bytes =~= b.bytes);
        assert(*a =~= *b);
    }
    true
}

/// One leaderboard entry; `donor_id == 0` marks an empty sentinel slot.
#[derive(Clone, Copy, Debug, PartialEq, Eq)]
pub struct TopEntry {
    pub donor_id: u64,
    pub donor_wallet: Address,
    pub donor_pda: Address,
    pub lifetime_amount: u64,
}

impl TopEntry {
    /// Bytes this entry occupies in a persisted record.
    pub fn space() -> (r: usize)
        ensures
            r == 80,
    {
        8 + 32 + 32 + 8
    }
}

/// `a` ranks at or above `b`: higher lifetime amount first, lower donor id
/// on ties.
pub open spec fn entry_ge(a: TopEntry, b: TopEntry) -> bool {
    a.lifetime_amount > b.lifetime_amount || (a.lifetime_amount == b.lifetime_amount
        && a.donor_id <= b.donor_id)
}

/// The leaderboard order: descending amount, ascending donor id on ties.
pub open spec fn top_sorted(s: Seq<TopEntry>) -> bool {
    forall|i: int, j: int| 0 <= i <= j < s.len() ==> entry_ge(s[i], s[j])
}

/// Pointwise soundness of leaderboard entries: sentinel slots carry no
/// amount, and every occupied slot records at least one unit donated.
pub open spec fn entries_wf(s: Seq<TopEntry>) -> bool {
    forall|i: int| 0 <= i < s.len() ==> #[trigger] entry_wf(s[i])
}

pub open spec fn entry_wf(e: TopEntry) -> bool {
    (e.donor_id == 0 ==> e.lifetime_amount == 0) && (e.donor_id != 0 ==> e.lifetime_amount >= 1)
}

/// Mathematical model of the singleton configuration record.
#[verifier::ext_equal]
pub struct ConfigV {
    pub admin: Address,
    pub treasury: Address,
    pub paused: bool,
    pub next_donor_id: u64,
    pub total_donated: u64,
    pub top10: Seq<TopEntry>,
}

/// Singleton configuration record.
#[derive(Clone, Debug, PartialEq, Eq)]
pub struct Config {
    pub admin: Address,
    pub treasury: Address,
    pub paused: bool,
    pub next_donor_id: u64,
    pub total_donated: u64,
    pub top10: Vec<TopEntry>,
}

impl View for Config {
    type V = ConfigV;

    open spec fn view(&self) -> ConfigV {
        ConfigV {
            admin: self.admin,
            treasury: self.treasury,
            paused: self.paused,
            next_donor_id: self.next_donor_id,
            total_donated: self.total_donated,
            top10: self.top10@,
        }
    }
}

/// The configuration invariant: the leaderboard always has exactly
/// `TOP_SIZE` slots, sorted in leaderboard order with sound entries, and
/// donor id 0 stays reserved as the "unassigned" sentinel.
pub open spec fn config_wf(c: ConfigV) -> bool {
    &&& c.top10.len() == TOP_SIZE
    &&& top_sorted(c.top10)
    &&& entries_wf(c.top10)
    &&& c.next_donor_id >= 1
}

impl Config {
    /// Bytes the configuration occupies in a persisted record, including
    /// the 8-byte record discriminator.
    pub fn space() -> (r: usize)
        ensures
            r == 8 + 32 + 32 + 1 + 8 + 8 + 80 * TOP_SIZE,
    {
        8 + 32 + 32 + 1 + 8 + 8 + TopEntry::space() * TOP_SIZE
    }
}

/// Mathematical model of one donor record.
#[verifier::ext_equal]
pub struct DonorV {
    pub donor_wallet: Address,
    pub donor_id: u64,
    pub lifetime_amount: u64,
    pub donations_count: u64,
    pub nickname: Seq<char>,
    pub description: Seq<char>,
    pub last_donation_ts: i64,
}

/// One donor record, keyed by the contributor's wallet; created lazily at
/// the first donation, never deleted. `donor_id == 0` means "not yet
/// created".
#[derive(Clone, Debug, PartialEq, Eq)]
pub struct Donor {
    pub donor_wallet: Address,
    pub donor_id: u64,
    pub lifetime_amount: u64,
    pub donations_count: u64,
    pub nickname: String,
    pub description: String,
    pub last_donation_ts: i64,
}

impl View for Donor {
    type V = DonorV;

    open spec fn view(&self) -> DonorV {
        DonorV {
            donor_wallet: self.donor_wallet,
            donor_id: self.donor_id,
            lifetime_amount: self.lifetime_amount,
            donations_count: self.donations_count,
            nickname: self.nickname@,
            description: self.description@,
            last_donation_ts: self.last_donation_ts,
        }
    }
}

impl Donor {
    /// Bytes a donor record occupies when persisted: fixed fields plus a
    /// length prefix and maximum capacity for each bounded string.
    pub fn space() -> (r: usize)
        ensures
            r == 8 + 32 + 8 + 8 + 8 + 4 + MAX_NICKNAME_LEN + 4 + MAX_DESCRIPTION_LEN + 8,
    {
        8 + 32 + 8 + 8 + 8 + 4 + MAX_NICKNAME_LEN + 4 + MAX_DESCRIPTION_LEN + 8
    }
}

/// Secondary index record: one per donor id, at an address derived from
/// that id, pointing back at the wallet-keyed donor record.
#[derive(Clone, Copy, Debug, PartialEq, Eq)]
pub struct DonorIndex {
    pub donor_id: u64,
    pub donor_wallet: Address,
    pub donor_pda: Address,
}

impl DonorIndex {
    /// Bytes an index record occupies when persisted.
    pub fn space() -> (r: usize)
        ensures
            r == 8 + 8 + 32 + 32,
    {
        8 + 8 + 32 + 32
    }
}

/// The storage slot that holds a donor index record: either never
/// allocated, or allocated under some owning program with record contents.
#[derive(Clone, Copy, Debug, PartialEq, Eq)]
pub enum IndexSlot {
    Empty,
    Allocated { owner: Address, record: DonorIndex },
}

} // verus!
