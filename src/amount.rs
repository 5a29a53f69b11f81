use vstd::prelude::*;

verus! {

/// 2^64, the weight of one word.
pub open spec fn word_base() -> nat {
    0x1_0000_0000_0000_0000nat
}

/// 2^256: the first value that a `U256` cannot hold.
pub open spec fn u256_bound() -> nat {
    word_base() * word_base() * word_base() * word_base()
}

/// An unsigned 256-bit integer, stored as four little-endian 64-bit words.
#[derive(Clone, Copy, Debug, PartialEq, Eq)]
pub struct U256 {
    pub words: [u64; 4],
}

impl U256 {
    /// The integer that the words encode.
    pub open spec fn value(&self) -> nat {
        self.words@[0] as nat + word_base() * (self.words@[1] as nat + word_base() * (
        self.words@[2] as nat + word_base() * self.words@[3] as nat))
    }

    /// Zero.
    pub fn zero() -> (r: U256)
        ensures
            r.value() == 0,
    {
        U256 { words: [0u64, 0u64, 0u64, 0u64] }
    }

    /// The value of a 64-bit integer.
    pub fn from_u64(n: u64) -> (r: U256)
        ensures
            r.value() == n as nat,
            r == (U256 { words: [n, 0, 0, 0] }),
    {
        U256 { words: [n, 0u64, 0u64, 0u64] }
    }

    /// Addition that fails on overflow: `None` exactly when the sum does not fit
    /// in 256 bits.
    pub fn checked_add(&self, other: &U256) -> (r: Option<U256>)
        ensures
            match r {
                Some(s) => s.value() == self.value() + other.value(),
                None => self.value() + other.value() >= u256_bound(),
            },
    {
        add_words(self, other)
    }
}

/// Relies on `ethereum_types::U256::checked_add` (uint's `construct_uint!`): the
/// sum when no carry leaves the top word, `None` otherwise.
#[verifier::external_body]
fn add_words(a: &U256, b: &U256) -> (r: Option<U256>)
    ensures
        match r {
            Some(s) => s.value() == a.value() + b.value(),
            None => a.value() + b.value() >= u256_bound(),
        },
{
    match ethereum_types::U256(a.words).checked_add(ethereum_types::U256(b.words)) {
        Some(s) => Some(U256 { words: s.0 }),
        None => None,
    }
}

} // verus!
