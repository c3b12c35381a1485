//! Unsigned 256-bit integers: token ids and balances.

use vstd::prelude::*;

verus! {

/// The number that four 64-bit words stand for, least significant first.
pub open spec fn limbs_value(limbs: Seq<u64>) -> nat {
    (limbs[0] as nat) + (limbs[1] as nat) * 0x1_0000_0000_0000_0000 + (limbs[2] as nat)
        * 0x1_0000_0000_0000_0000_0000_0000_0000_0000 + (limbs[3] as nat)
        * 0x1_0000_0000_0000_0000_0000_0000_0000_0000_0000_0000_0000_0000
}

/// The ten decimal digits, by value.
pub open spec fn decimal_digits() -> Seq<char> {
    seq!['0', '1', '2', '3', '4', '5', '6', '7', '8', '9']
}

/// The decimal text of a number: no sign, no leading zero, `0` for zero.
pub open spec fn decimal(n: nat) -> Seq<char>
    decreases n,
{
    if n < 10 {
        seq![decimal_digits()[n as int]]
    } else {
        decimal(n / 10).push(decimal_digits()[(n % 10) as int])
    }
}

/// Calls `to_string` on a `web3::types::U256` made of the four words, that
/// is uint's `Display`: the decimal digits of the value, most significant
/// first, `0` for zero.
#[verifier::external_body]
fn u256_to_string(limbs: &[u64; 4]) -> (r: String)
    ensures
        r@ == decimal(limbs_value(limbs@)),
{
    web3::types::U256(*limbs).to_string()
}

/// An unsigned 256-bit integer, held as four 64-bit words, least significant
/// first.
#[derive(Clone, Copy, Debug, PartialEq, Eq)]
pub struct Uint256 {
    pub limbs: [u64; 4],
}

impl View for Uint256 {
    type V = nat;

    open spec fn view(&self) -> nat {
        limbs_value(self.limbs@)
    }
}

impl Uint256 {
    /// The 256-bit integer of a 64-bit one.
    pub fn from_u64(value: u64) -> (r: Uint256)
        ensures
            r@ == value as nat,
    {
        Uint256 { limbs: [value, 0, 0, 0] }
    }

    /// The decimal text of the number, in full: nothing is cut at 64 bits.
    pub fn to_decimal_string(&self) -> (r: String)
        ensures
            r@ == decimal(self@),
    {
        u256_to_string(&self.limbs)
    }
}

} // verus!
