//! The token program.

use vstd::prelude::*;
use crate::Pubkey;

verus! {

/// The identity of the token program.
pub const ID: Pubkey = [
    6, 221, 246, 225, 215, 101, 161, 147, 217, 203, 225, 70, 206, 235, 121, 172,
    28, 180, 133, 237, 95, 91, 55, 145, 58, 140, 245, 133, 126, 255, 0, 169,
];

} // verus!
