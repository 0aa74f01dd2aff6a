use vstd::prelude::*;
use vstd::string::StringSliceAdditionalSpecFns;

use crate::constants::MAX_NICKNAME_LEN;
use crate::errors::ErrorCode;

verus! {

/// Byte length of a piece of text, as UTF-8.
pub open spec fn byte_len(s: Seq<char>) -> nat {
    vstd::utf8::encode_utf8(s).len()
}

/// Overflow-checked addition used for every counter and total.
pub fn checked_add(a: u64, b: u64) -> (r: Result<u64, ErrorCode>)
    ensures
        a + b <= u64::MAX ==> r == Ok::<u64, ErrorCode>((a + b) as u64),
        a + b > u64::MAX ==> r == Err::<u64, ErrorCode>(ErrorCode::Overflow),
{
    if a <= u64::MAX - b {
        Ok(a + b)
    } else {
        Err(ErrorCode::Overflow)
    }
}

/// Rejects text whose UTF-8 byte length exceeds `max`, with the
/// field-specific error supplied by the caller.
pub fn validate_str_len(value: &str, max: usize, err: ErrorCode) -> (r: Result<(), ErrorCode>)
    ensures
        r == (if byte_len(value@) <= max { Ok::<(), ErrorCode>(()) } else {
            Err::<(), ErrorCode>(err)
        }),
{
    proof {
        broadcast use vstd::slice::axiom_spec_len;
    }
    let bytes: &[u8] = value.as_bytes();
    if bytes.len() <= max {
        Ok(())
    } else {
        Err(err)
    }
}

/// Whether an optional nickname fits within the nickname bound.
pub open spec fn nickname_ok(nickname: Option<Seq<char>>) -> bool {
    match nickname {
        Some(n) => byte_len(n) <= MAX_NICKNAME_LEN,
        None => true,
    }
}

/// Accepts an absent nickname, and a present one only within the bound.
pub fn validate_nickname(nickname: &Option<String>) -> (r: Result<(), ErrorCode>)
    ensures
        r == (if nickname_ok(match *nickname {
            Some(ref n) => Some(n@),
            None => None,
        }) { Ok::<(), ErrorCode>(()) } else {
            Err::<(), ErrorCode>(ErrorCode::NicknameTooLong)
        }),
{
    if let Some(name) = nickname {
        validate_str_len(name.as_str(), MAX_NICKNAME_LEN, ErrorCode::NicknameTooLong)?;
    }
    Ok(())
}

} // verus!
