//! Account addresses and log records.

use vstd::prelude::*;
use crate::u256::U256;

verus! {

/// Modulus of a 160-bit address: 2^32 * 2^128.
pub open spec fn address_modulus() -> nat {
    0x1_0000_0000nat * crate::u256::limb_modulus()
}

/// A 160-bit account address, kept as a word below 2^160.
#[derive(Clone, Copy, Debug, PartialEq, Eq, Structural)]
pub struct Address {
    pub word: U256,
}

impl Address {
    /// The address is in range.
    pub open spec fn well_formed(self) -> bool {
        self.word.as_nat() < address_modulus()
    }

    pub open spec fn as_nat(self) -> nat {
        self.word.as_nat()
    }

    /// The zero address.
    pub fn zero() -> (r: Address)
        ensures
            r.as_nat() == 0,
            r.well_formed(),
    {
        Address { word: U256::zero() }
    }

    pub fn from_u64(v: u64) -> (r: Address)
        ensures
            r.as_nat() == v,
            r.well_formed(),
    {
        Address { word: U256::from_u64(v) }
    }

    /// The address named by the low 160 bits of a word, as `CALL` and
    /// `BALANCE` read their operand.
    pub fn from_word(w: U256) -> (r: Address)
        ensures
            r.as_nat() == w.as_nat() % address_modulus(),
            r.well_formed(),
    {
        let masked = U256 { lo: w.lo, hi: w.hi % 0x1_0000_0000u128 };
        proof {
            lemma_address_mask(w, masked);
        }
        Address { word: masked }
    }
}

/// Truncating the high limb to 32 bits reduces the word modulo 2^160.
proof fn lemma_address_mask(w: U256, masked: U256)
    requires
        masked.lo == w.lo,
        masked.hi == w.hi % 0x1_0000_0000u128,
    ensures
        masked.as_nat() == w.as_nat() % address_modulus(),
        masked.as_nat() < address_modulus(),
{
    let h = w.hi as int;
    let q = h / 0x1_0000_0000;
    let rem = h % 0x1_0000_0000;
    assert(h * crate::u256::limb_modulus() == address_modulus() * q + rem
        * crate::u256::limb_modulus()) by (nonlinear_arith)
        requires
            h == 0x1_0000_0000 * q + rem,
            crate::u256::limb_modulus() == 0x1_0000_0000_0000_0000_0000_0000_0000_0000nat,
            address_modulus() == 0x1_0000_0000nat
                * 0x1_0000_0000_0000_0000_0000_0000_0000_0000nat,
    ;
    let l = w.lo as int;
    assert(rem * crate::u256::limb_modulus() + l < address_modulus()) by (nonlinear_arith)
        requires
            0 <= rem < 0x1_0000_0000,
            0 <= l < crate::u256::limb_modulus(),
            crate::u256::limb_modulus() == 0x1_0000_0000_0000_0000_0000_0000_0000_0000nat,
            address_modulus() == 0x1_0000_0000nat
                * 0x1_0000_0000_0000_0000_0000_0000_0000_0000nat,
    ;
    vstd::arithmetic::div_mod::lemma_mod_multiples_vanish(
        q,
        rem * crate::u256::limb_modulus() + l,
        address_modulus() as int,
    );
    vstd::arithmetic::div_mod::lemma_small_mod(
        (rem * crate::u256::limb_modulus() + l) as nat,
        address_modulus(),
    );
}

/// The hard fork selecting the gas table and semantics.
#[derive(Clone, Copy, Debug, PartialEq, Eq, Structural)]
pub enum SpecId {
    Shanghai,
    Cancun,
    Prague,
    Latest,
}

/// One emitted log record: the emitting address, up to four topics, and
/// the logged bytes.
#[derive(Clone, Debug, PartialEq, Eq)]
pub struct Log {
    pub address: Address,
    pub topics: Vec<U256>,
    pub data: Vec<u8>,
}

} // verus!
