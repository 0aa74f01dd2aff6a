use vstd::prelude::*;

verus! {

/// Number of entries in the leaderboard embedded in `Config`.
pub const TOP_SIZE: usize = 10;

/// Maximum byte length of a donor nickname.
pub const MAX_NICKNAME_LEN: usize = 32;

/// Maximum byte length of a donor description.
pub const MAX_DESCRIPTION_LEN: usize = 256;

} // verus!
