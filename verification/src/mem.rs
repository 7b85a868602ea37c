//! Amounts of memory, counted in bytes, with binary unit prefixes.
use vstd::prelude::*;

verus! {

pub const KI: usize = 1024usize;
pub const MI: usize = KI * KI;
pub const GI: usize = MI * KI;
/// 2^40 bytes. This needs a 64-bit `usize`: on a narrower target the cast
/// below keeps only the low bits (0), where the expression `GI * KI` would not
/// compile. `lemma_tebi` states the value on a 64-bit target.
pub const TI: usize = 1099511627776u64 as usize;

/// An amount of memory in bytes.
#[derive(Clone, Copy)]
pub struct Memory {
    value: usize,
}

impl Memory {
    /// The number of bytes this amount stands for.
    pub closed spec fn bytes(self) -> usize {
        self.value
    }

    /// An amount of `value` bytes.
    pub fn from_bytes(value: usize) -> (m: Memory)
        ensures
            m.bytes() == value,
    {
        Memory { value }
    }

    /// The amount in bytes.
    pub fn get(&self) -> (r: usize)
        ensures
            r == self.bytes(),
    {
        self.value
    }

    /// The amount in whole units of `UNIT` bytes, rounded down.
    pub fn get_as<const UNIT: usize>(&self) -> (r: usize)
        requires
            UNIT > 0,
        ensures
            r == self.bytes() / UNIT,
    {
        self.get() / UNIT
    }
}

/// Counting in a larger binary unit is counting in the next smaller one and
/// dividing by 1024: `get_as::<MI>()` is `get_as::<KI>() / KI`, and
/// `get_as::<GI>()` is `get_as::<MI>() / KI`.
pub proof fn lemma_units_nest(m: Memory)
    ensures
        m.bytes() / MI == (m.bytes() / KI) / KI,
        m.bytes() / GI == (m.bytes() / MI) / KI,
{
    vstd::arithmetic::div_mod::lemma_div_denominator(m.bytes() as int, KI as int, KI as int);
    vstd::arithmetic::div_mod::lemma_div_denominator(m.bytes() as int, MI as int, KI as int);
}

/// On a 64-bit target `TI` is 1024 GI, that is 2^40.
pub proof fn lemma_tebi()
    ensures
        usize::BITS == 64 ==> TI == GI * KI && TI == 1099511627776,
{
    assert(usize::BITS == 64 ==> (1099511627776u64 as usize) == 1099511627776u64) by (bit_vector);
}

} // verus!
