//! Small fixed values tests and callers lean on.

use vstd::prelude::*;

verus! {

/// The zero address, as its 20 raw bytes.
pub const ADDRESS_ZERO: [u8; 20] = [0, 0, 0, 0, 0, 0, 0, 0, 0, 0, 0, 0, 0, 0, 0, 0, 0, 0, 0, 0];

/// One ether, in wei.
pub fn ether() -> (r: u128)
    ensures
        r == 1_000_000_000_000_000_000u128,
{
    1_000_000_000_000_000_000
}

/// A 32-byte word of zeroes.
pub fn bytes_zero() -> (r: Vec<u8>)
    ensures
        r@ == crate::abi::zeros(32),
{
    let mut r: Vec<u8> = Vec::new();
    let mut i: usize = 0;
    while i < 32
        invariant
            i <= 32,
            r@ =~= crate::abi::zeros(i as nat),
        decreases 32 - i,
    {
        r.push(0u8);
        i += 1;
    }
    r
}

} // verus!
