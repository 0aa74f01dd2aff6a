use vstd::prelude::*;

use crate::constants::{MAX_DESCRIPTION_LEN, MAX_NICKNAME_LEN};
use crate::errors::ErrorCode;
use crate::events::ProfileUpdatedEvent;
use crate::instructions::donate::opt_text;
use crate::state::{address_eq, Address, Donor, DonorV};
use crate::utils::{byte_len, validate_str_len};

verus! {

/// What one profile update does to the donor record, and which event or
/// error it yields: only the owning wallet may, each supplied field must
/// fit its bound, and a rejected request changes nothing.
pub open spec fn profile_step(
    d: DonorV,
    wallet: Address,
    donor_pda: Address,
    now: i64,
    nickname: Option<Seq<char>>,
    description: Option<Seq<char>>,
) -> (Result<ProfileUpdatedEvent, ErrorCode>, DonorV) {
    if d.donor_wallet != wallet {
        (Err::<ProfileUpdatedEvent, ErrorCode>(ErrorCode::Unauthorized), d)
    } else if nickname matches Some(n) && byte_len(n) > MAX_NICKNAME_LEN {
        (Err::<ProfileUpdatedEvent, ErrorCode>(ErrorCode::NicknameTooLong), d)
    } else if description matches Some(x) && byte_len(x) > MAX_DESCRIPTION_LEN {
        (Err::<ProfileUpdatedEvent, ErrorCode>(ErrorCode::DescriptionTooLong), d)
    } else {
        let d2 = DonorV {
            nickname: match nickname {
                Some(n) => n,
                None => d.nickname,
            },
            description: match description {
                Some(x) => x,
                None => d.description,
            },
            ..d
        };
        let ev = ProfileUpdatedEvent {
            donor_wallet: d.donor_wallet,
            donor_id: d.donor_id,
            donor_pda,
            timestamp: now,
        };
        (Ok::<ProfileUpdatedEvent, ErrorCode>(ev), d2)
    }
}

/// Donor-initiated nickname and description update, independent of funds
/// flow; no leaderboard effect.
pub fn handler(
    donor: &mut Donor,
    wallet: &Address,
    donor_pda: Address,
    now: i64,
    nickname: Option<String>,
    description: Option<String>,
) -> (r: Result<ProfileUpdatedEvent, ErrorCode>)
    ensures
        ({
            let (sr, d2) = profile_step(
                old(donor)@,
                *wallet,
                donor_pda,
                now,
                opt_text(nickname),
                opt_text(description),
            );
            r == sr && final(donor)@ == d2
        }),
        r is Err ==> final(donor)@ == old(donor)@,
{
    if !address_eq(&donor.donor_wallet, wallet) {
        return Err(ErrorCode::Unauthorized);
    }
    if let Some(name) = &nickname {
        match validate_str_len(name.as_str(), MAX_NICKNAME_LEN, ErrorCode::NicknameTooLong) {
            Ok(()) => (),
            Err(e) => {
                return Err(e);
            },
        }
    }
    if let Some(desc) = &description {
        match validate_str_len(desc.as_str(), MAX_DESCRIPTION_LEN, ErrorCode::DescriptionTooLong) {
            Ok(()) => (),
            Err(e) => {
                return Err(e);
            },
        }
    }
    let ev = ProfileUpdatedEvent {
        donor_wallet: donor.donor_wallet,
        donor_id: donor.donor_id,
        donor_pda,
        timestamp: now,
    };
    match nickname {
        Some(name) => {
            donor.nickname = name;
        },
        None => (),
    }
    match description {
        Some(desc) => {
            donor.description = desc;
        },
        None => (),
    }
    Ok(ev)
}

} // verus!
