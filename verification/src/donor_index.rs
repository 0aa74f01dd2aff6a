use vstd::prelude::*;

use crate::errors::ErrorCode;
use crate::state::{address_eq, lemma_address_view_injective, Address, DonorIndex, IndexSlot};

verus! {

/// The program-derived address for the given seed tag, seed id and
/// program id, together with whether a viable bump seed exists at all
/// (`None` in the statistically improbable case that none does).
pub uninterp spec fn pda_key(tag: Seq<char>, id: u64, program: Seq<u8>) -> Option<Seq<u8>>;

/// The seed tag under which donor index records are derived.
pub open spec fn index_seed_tag() -> Seq<char> {
    "donor_index"@
}

/// Relies on `Pubkey::try_find_program_address` from anchor's prelude:
/// the derived address, and whether one exists, depend only on the seed
/// bytes (tag then little-endian id) and the program id.
#[verifier::external_body]
fn derive_pda(tag: &str, id: u64, program_id: &Address) -> (r: Option<Address>)
    ensures
        r matches Some(k) ==> pda_key(tag@, id, program_id@) == Some(k@),
        r is None ==> pda_key(tag@, id, program_id@) is None,
{
    let pid = anchor_lang::prelude::Pubkey::new_from_array(program_id.bytes);
    let id_bytes = id.to_le_bytes();
    anchor_lang::prelude::Pubkey::try_find_program_address(&[tag.as_bytes(), &id_bytes], &pid)
        .map(|(key, _bump)| Address { bytes: key.to_bytes() })
}

/// The create-or-verify protocol, as a function of the stored slot and
/// the caller-supplied triple: reject a slot address that is not the
/// derived one; populate an unallocated slot; on an allocated slot,
/// demand this program as owner, self-heal a never-populated record
/// (zero-sentinel donor id), and otherwise demand that the stored triple
/// matches exactly.
pub open spec fn index_step(
    s: IndexSlot,
    supplied: Address,
    program_id: Address,
    donor_id: u64,
    donor_wallet: Address,
    donor_pda: Address,
) -> (Result<(), ErrorCode>, IndexSlot) {
    if pda_key(index_seed_tag(), donor_id, program_id@) != Some(supplied@) {
        (Err::<(), ErrorCode>(ErrorCode::InvalidDonorIndex), s)
    } else {
        let rec = DonorIndex { donor_id, donor_wallet, donor_pda };
        match s {
            IndexSlot::Empty => (
                Ok::<(), ErrorCode>(()),
                IndexSlot::Allocated { owner: program_id, record: rec },
            ),
            IndexSlot::Allocated { owner, record } => {
                if owner != program_id {
                    (Err::<(), ErrorCode>(ErrorCode::InvalidDonorIndexOwner), s)
                } else if record.donor_id == 0 {
                    (Ok::<(), ErrorCode>(()), IndexSlot::Allocated { owner, record: rec })
                } else if record == rec {
                    (Ok::<(), ErrorCode>(()), s)
                } else {
                    (Err::<(), ErrorCode>(ErrorCode::InvalidDonorIndex), s)
                }
            },
        }
    }
}

/// Ensures a donor index record exists at the address derived from
/// `donor_id` and is consistent with the donor record, exactly as
/// `index_step` describes.
pub fn create_or_check_donor_index(
    slot: &mut IndexSlot,
    supplied: &Address,
    program_id: &Address,
    donor_id: u64,
    donor_wallet: Address,
    donor_pda: Address,
) -> (r: Result<(), ErrorCode>)
    ensures
        ({
            let (sr, s2) = index_step(
                *old(slot),
                *supplied,
                *program_id,
                donor_id,
                donor_wallet,
                donor_pda,
            );
            r == sr && *final(slot) == s2
        }),
{
    let expected = derive_pda("donor_index", donor_id, program_id);
    let addr_ok = match &expected {
        Some(k) => address_eq(k, supplied),
        None => false,
    };
    proof {
        match expected {
            Some(k) => lemma_address_view_injective(k, *supplied),
            None => (),
        }
    }
    if !addr_ok {
        return Err(ErrorCode::InvalidDonorIndex);
    }
    match *slot {
        IndexSlot::Empty => {
            *slot = IndexSlot::Allocated {
                owner: *program_id,
                record: DonorIndex { donor_id, donor_wallet, donor_pda },
            };
            Ok(())
        },
        IndexSlot::Allocated { owner, record } => {
            if !address_eq(&owner, program_id) {
                Err(ErrorCode::InvalidDonorIndexOwner)
            } else if record.donor_id == 0 {
                *slot = IndexSlot::Allocated {
                    owner,
                    record: DonorIndex { donor_id, donor_wallet, donor_pda },
                };
                Ok(())
            } else if record.donor_id == donor_id && address_eq(&record.donor_wallet, &donor_wallet)
                && address_eq(&record.donor_pda, &donor_pda) {
                proof {
                    assert(record =~= DonorIndex { donor_id, donor_wallet, donor_pda });
                }
                Ok(())
            } else {
                Err(ErrorCode::InvalidDonorIndex)
            }
        },
    }
}

/// Law: the index manager is idempotent. Once a create-or-verify call
/// has succeeded, repeating it with the identical triple succeeds again
/// and leaves the stored slot exactly as the first call left it.
pub proof fn lemma_index_step_idempotent(
    s: IndexSlot,
    supplied: Address,
    program_id: Address,
    donor_id: u64,
    donor_wallet: Address,
    donor_pda: Address,
)
    requires
        index_step(s, supplied, program_id, donor_id, donor_wallet, donor_pda).0 is Ok,
    ensures
        ({
            let s1 = index_step(s, supplied, program_id, donor_id, donor_wallet, donor_pda).1;
            index_step(s1, supplied, program_id, donor_id, donor_wallet, donor_pda) == (
                Ok::<(), ErrorCode>(()),
                s1,
            )
        }),
{
}

} // verus!
