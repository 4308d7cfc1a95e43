use crate::key::Key;
use vstd::prelude::*;

verus! {

/// The terms of one open offer, stored at the address derived from
/// `["escrow", maker, le(seed)]` and `bump`.
#[derive(Clone, Copy, Debug, PartialEq, Eq)]
pub struct Escrow {
    pub seed: u64,
    pub maker: Key,
    pub mint_a: Key,
    pub mint_b: Key,
    pub receive: u64,
    pub bump: u8,
}

} // verus!
