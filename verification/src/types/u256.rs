use vstd::prelude::*;
use super::field_element::limb_base;

verus! {

/// A 256-bit unsigned integer, held as two 128-bit limbs.
#[derive(Debug, Clone, Copy, PartialEq, Eq, Hash, Structural)]
pub struct U256 {
    low: u128,
    high: u128,
}

impl View for U256 {
    type V = nat;

    /// The integer that the two limbs stand for: `high * 2^128 + low`.
    closed spec fn view(&self) -> nat {
        self.high as nat * limb_base() + self.low as nat
    }
}

impl U256 {
    /// An integer of this type is determined by its value, which is below
    /// 2^256.
    pub proof fn lemma_value_determines_integer(a: U256, b: U256)
        ensures
            a@ < limb_base() * limb_base(),
            a@ == b@ ==> a == b,
    {
    }

    /// The integer `high * 2^128 + low`.
    pub fn from_words(low: u128, high: u128) -> (r: U256)
        ensures
            r@ == high as nat * limb_base() + low as nat,
    {
        U256 { low, high }
    }

    /// The low 128 bits.
    pub fn low(&self) -> (r: u128)
        ensures
            r as nat == self@ % limb_base(),
    {
        self.low
    }

    /// The high 128 bits.
    pub fn high(&self) -> (r: u128)
        ensures
            r as nat == self@ / limb_base(),
    {
        self.high
    }
}

} // verus!
