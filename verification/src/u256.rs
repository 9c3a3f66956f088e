//! A 256-bit machine word as two 128-bit limbs, with the arithmetic the
//! EVM gives its operand stack: wrapping add/sub/mul, division that yields
//! zero for a zero divisor, comparisons, bitwise operations and shifts.

use vstd::prelude::*;

verus! {

use vstd::arithmetic::power2::pow2;

/// Modulus of one 128-bit limb: 2^128.
pub open spec fn limb_modulus() -> nat {
    0x1_0000_0000_0000_0000_0000_0000_0000_0000nat
}

/// Modulus of a 256-bit word: 2^256.
pub open spec fn word_modulus() -> nat {
    limb_modulus() * limb_modulus()
}

/// An unsigned 256-bit integer: `lo + hi * 2^128`.
#[derive(Clone, Copy, Debug, PartialEq, Eq, Structural)]
pub struct U256 {
    pub lo: u128,
    pub hi: u128,
}

impl U256 {
    /// The mathematical value of the word.
    pub open spec fn as_nat(self) -> nat {
        (self.lo + self.hi * limb_modulus()) as nat
    }

    pub fn zero() -> (r: U256)
        ensures
            r.as_nat() == 0,
    {
        U256 { lo: 0, hi: 0 }
    }

    pub fn one() -> (r: U256)
        ensures
            r.as_nat() == 1,
    {
        U256 { lo: 1, hi: 0 }
    }

    pub fn from_u64(v: u64) -> (r: U256)
        ensures
            r.as_nat() == v,
    {
        U256 { lo: v as u128, hi: 0 }
    }

    pub fn from_u128(v: u128) -> (r: U256)
        ensures
            r.as_nat() == v,
    {
        U256 { lo: v, hi: 0 }
    }

    /// The low 64 bits, together with whether the word fits in them.
    pub fn to_u64(self) -> (r: (u64, bool))
        ensures
            r.1 <==> self.as_nat() <= u64::MAX,
            r.1 ==> r.0 == self.as_nat(),
    {
        if self.hi == 0 && self.lo <= u64::MAX as u128 {
            (self.lo as u64, true)
        } else {
            proof {
                if self.hi > 0 {
                    assert(self.hi * limb_modulus() >= limb_modulus()) by (nonlinear_arith)
                        requires
                            self.hi >= 1,
                    ;
                }
            }
            (0, false)
        }
    }

    pub fn is_zero(self) -> (r: bool)
        ensures
            r <==> self.as_nat() == 0,
    {
        self.lo == 0 && self.hi == 0
    }

    /// Unsigned comparison: `self < other`.
    pub fn lt_u(self, other: U256) -> (r: bool)
        ensures
            r <==> self.as_nat() < other.as_nat(),
    {
        if self.hi != other.hi {
            proof {
                lemma_limb_order(self, other);
            }
            self.hi < other.hi
        } else {
            self.lo < other.lo
        }
    }

    /// Add with carry in; returns the wrapped sum and the carry out.
    pub fn adc(self, other: U256, carry_in: bool) -> (r: (U256, bool))
        ensures
            r.0.as_nat() + (if r.1 {
                word_modulus()
            } else {
                0
            }) == self.as_nat() + other.as_nat() + (if carry_in {
                1int
            } else {
                0int
            }),
    {
        let (lo, c0) = add_limb(self.lo, other.lo, carry_in);
        let (hi, c1) = add_limb(self.hi, other.hi, c0);
        (U256 { lo, hi }, c1)
    }

    /// Subtract with borrow in; returns the wrapped difference and the
    /// borrow out.
    pub fn sbb(self, other: U256, borrow_in: bool) -> (r: (U256, bool))
        ensures
            r.0.as_nat() == self.as_nat() - other.as_nat() - (if borrow_in {
                1int
            } else {
                0int
            }) + (if r.1 {
                word_modulus()
            } else {
                0
            }),
            r.1 <==> self.as_nat() < other.as_nat() + (if borrow_in {
                1int
            } else {
                0int
            }),
    {
        let (lo, b0) = sub_limb(self.lo, other.lo, borrow_in);
        let (hi, b1) = sub_limb(self.hi, other.hi, b0);
        (U256 { lo, hi }, b1)
    }

    /// Addition modulo 2^256.
    pub fn wrapping_add(self, other: U256) -> (r: U256)
        ensures
            r.as_nat() == (self.as_nat() + other.as_nat()) % word_modulus(),
    {
        let (r, carry) = self.adc(other, false);
        proof {
            lemma_word_bound(r);
            lemma_wrap_sum(self.as_nat() + other.as_nat(), r.as_nat(), carry);
        }
        r
    }

    /// Subtraction modulo 2^256.
    pub fn wrapping_sub(self, other: U256) -> (r: U256)
        ensures
            self.as_nat() >= other.as_nat() ==> r.as_nat() == self.as_nat() - other.as_nat(),
            self.as_nat() < other.as_nat() ==> r.as_nat() == self.as_nat() - other.as_nat()
                + word_modulus(),
    {
        let (r, _) = self.sbb(other, false);
        r
    }

    /// Bitwise conjunction, limb by limb.
    pub fn bit_and(self, other: U256) -> (r: U256)
        ensures
            r.lo == self.lo & other.lo,
            r.hi == self.hi & other.hi,
    {
        U256 { lo: self.lo & other.lo, hi: self.hi & other.hi }
    }

    /// Bitwise disjunction, limb by limb.
    pub fn bit_or(self, other: U256) -> (r: U256)
        ensures
            r.lo == self.lo | other.lo,
            r.hi == self.hi | other.hi,
    {
        U256 { lo: self.lo | other.lo, hi: self.hi | other.hi }
    }

    /// Bitwise exclusive or, limb by limb.
    pub fn bit_xor(self, other: U256) -> (r: U256)
        ensures
            r.lo == self.lo ^ other.lo,
            r.hi == self.hi ^ other.hi,
    {
        U256 { lo: self.lo ^ other.lo, hi: self.hi ^ other.hi }
    }

    /// Bitwise complement, limb by limb.
    pub fn bit_not(self) -> (r: U256)
        ensures
            r.lo == !self.lo,
            r.hi == !self.hi,
    {
        U256 { lo: !self.lo, hi: !self.hi }
    }
}

impl U256 {
    /// Multiplication modulo 2^256, by doubling and adding over the 256
    /// bits of the multiplier.
    pub fn wrapping_mul(self, other: U256) -> (r: U256)
        ensures
            r.as_nat() == (self.as_nat() * other.as_nat()) % word_modulus(),
    {
        proof {
            lemma_word_modulus_pow2();
            vstd::arithmetic::power2::lemma2_to64();
        }
        let mut acc = U256::zero();
        let mut b = other;
        let ghost mut processed: nat = 0;
        let mut i: usize = 0;
        while i < 256
            invariant
                i <= 256,
                processed < pow2(i as nat),
                other.as_nat() * pow2(i as nat) == processed * word_modulus() + b.as_nat(),
                acc.as_nat() == (self.as_nat() * processed) % word_modulus(),
            decreases 256 - i,
        {
            let ghost old_processed = processed;
            let ghost old_b = b;
            let ghost old_acc = acc;
            let (b2, bit) = b.adc(b, false);
            b = b2;
            proof {
                processed = 2 * old_processed + (if bit {
                    1nat
                } else {
                    0nat
                });
                lemma_shift_step(
                    other.as_nat(),
                    i as nat,
                    old_processed,
                    processed,
                    old_b.as_nat(),
                    b.as_nat(),
                    bit,
                );
            }
            let acc1 = acc.wrapping_add(acc);
            let acc2 = if bit {
                acc1.wrapping_add(self)
            } else {
                acc1
            };
            proof {
                lemma_double_add_mod(
                    self.as_nat(),
                    old_processed,
                    processed,
                    old_acc.as_nat(),
                    acc2.as_nat(),
                    acc1.as_nat(),
                    bit,
                );
            }
            acc = acc2;
            i = i + 1;
        }
        proof {
            lemma_consumed_all(other.as_nat(), processed, b.as_nat());
        }
        acc
    }

    /// Unsigned division with remainder, by restoring long division over
    /// the 256 bits of the dividend.
    pub fn div_rem(self, divisor: U256) -> (r: (U256, U256))
        requires
            divisor.as_nat() > 0,
        ensures
            r.0.as_nat() == self.as_nat() / divisor.as_nat(),
            r.1.as_nat() == self.as_nat() % divisor.as_nat(),
    {
        proof {
            lemma_word_modulus_pow2();
            vstd::arithmetic::power2::lemma2_to64();
            lemma_word_bound(divisor);
        }
        let ghost d = divisor.as_nat();
        let mut q = U256::zero();
        let mut rem = U256::zero();
        let mut x = self;
        let ghost mut consumed: nat = 0;
        let mut i: usize = 0;
        while i < 256
            invariant
                i <= 256,
                divisor.as_nat() == d,
                0 < d < word_modulus(),
                consumed < pow2(i as nat),
                self.as_nat() * pow2(i as nat) == consumed * word_modulus() + x.as_nat(),
                consumed == q.as_nat() * d + rem.as_nat(),
                rem.as_nat() < d,
            decreases 256 - i,
        {
            let ghost old_consumed = consumed;
            let ghost old_x = x;
            let ghost old_q = q.as_nat();
            let ghost old_rem = rem.as_nat();
            let (x2, bit) = x.adc(x, false);
            x = x2;
            proof {
                consumed = 2 * old_consumed + (if bit {
                    1nat
                } else {
                    0nat
                });
                lemma_shift_step(
                    self.as_nat(),
                    i as nat,
                    old_consumed,
                    consumed,
                    old_x.as_nat(),
                    x.as_nat(),
                    bit,
                );
                // The running quotient stays below 2^255, so doubling it
                // cannot carry.
                assert(old_q * 1 <= old_q * d) by (nonlinear_arith)
                    requires
                        1 <= d,
                        0 <= old_q,
                ;
                lemma_pow2_le_word(i as nat);
            }
            let ghost remval = 2 * old_rem + (if bit {
                1nat
            } else {
                0nat
            });
            let (rem2, c) = rem.adc(rem, bit);
            let (q2, qc) = q.adc(q, false);
            proof {
                assert(!qc);
            }
            if c || !rem2.lt_u(divisor) {
                let rem3 = rem2.wrapping_sub(divisor);
                proof {
                    assert(rem3.as_nat() == remval - d);
                }
                let q3 = q2.wrapping_add(U256 { lo: 1, hi: 0 });
                proof {
                    vstd::arithmetic::div_mod::lemma_small_mod(
                        2 * old_q + 1,
                        word_modulus(),
                    );
                    assert(q3.as_nat() == 2 * old_q + 1);
                    assert((2 * old_q + 1) * d == 2 * (old_q * d) + d) by (nonlinear_arith);
                }
                q = q3;
                rem = rem3;
            } else {
                proof {
                    assert((2 * old_q) * d == 2 * (old_q * d)) by (nonlinear_arith);
                }
                q = q2;
                rem = rem2;
            }
            i = i + 1;
        }
        proof {
            lemma_consumed_all(self.as_nat(), consumed, x.as_nat());
            vstd::arithmetic::div_mod::lemma_fundamental_div_mod_converse(
                self.as_nat() as int,
                d as int,
                q.as_nat() as int,
                rem.as_nat() as int,
            );
        }
        (q, rem)
    }

    /// `DIV` semantics: quotient, with a zero divisor yielding zero.
    pub fn div_evm(self, divisor: U256) -> (r: U256)
        ensures
            divisor.as_nat() == 0 ==> r.as_nat() == 0,
            divisor.as_nat() > 0 ==> r.as_nat() == self.as_nat() / divisor.as_nat(),
    {
        if divisor.is_zero() {
            U256::zero()
        } else {
            self.div_rem(divisor).0
        }
    }

    /// `MOD` semantics: remainder, with a zero modulus yielding zero.
    pub fn rem_evm(self, divisor: U256) -> (r: U256)
        ensures
            divisor.as_nat() == 0 ==> r.as_nat() == 0,
            divisor.as_nat() > 0 ==> r.as_nat() == self.as_nat() % divisor.as_nat(),
    {
        if divisor.is_zero() {
            U256::zero()
        } else {
            self.div_rem(divisor).1
        }
    }
}

/// Absolute value of a mathematical integer.
pub open spec fn abs_of(x: int) -> nat {
    if x >= 0 {
        x as nat
    } else {
        (-x) as nat
    }
}

/// Quotient truncated toward zero, as the EVM's `SDIV` rounds.
pub open spec fn truncated_div(a: int, b: int) -> int {
    if (a < 0) == (b < 0) {
        (abs_of(a) / abs_of(b)) as int
    } else {
        -((abs_of(a) / abs_of(b)) as int)
    }
}

/// Remainder with the dividend's sign, as the EVM's `SMOD` takes it.
pub open spec fn truncated_rem(a: int, b: int) -> int {
    if a < 0 {
        -((abs_of(a) % abs_of(b)) as int)
    } else {
        (abs_of(a) % abs_of(b)) as int
    }
}

/// Reduction of a mathematical integer into a word value.
pub open spec fn wrap_word(x: int) -> nat {
    (x % (word_modulus() as int)) as nat
}

impl U256 {
    /// The word read as a two's-complement signed integer.
    pub open spec fn as_int(self) -> int {
        if self.hi < 0x8000_0000_0000_0000_0000_0000_0000_0000u128 {
            self.as_nat() as int
        } else {
            self.as_nat() - word_modulus()
        }
    }

    /// Two's-complement negation.
    pub fn neg_word(self) -> (r: U256)
        ensures
            self.as_nat() == 0 ==> r.as_nat() == 0,
            self.as_nat() > 0 ==> r.as_nat() == word_modulus() - self.as_nat(),
    {
        let (r, _) = U256::zero().sbb(self, false);
        r
    }

    /// The magnitude of the signed reading.
    fn magnitude(self) -> (r: U256)
        ensures
            r.as_nat() == abs_of(self.as_int()),
    {
        if self.hi >= 0x8000_0000_0000_0000_0000_0000_0000_0000u128 {
            proof {
                lemma_high_limb_low_bound(self);
            }
            self.neg_word()
        } else {
            self
        }
    }

    /// Signed comparison: `self < other` over the two's-complement reading.
    pub fn slt(self, other: U256) -> (r: bool)
        ensures
            r <==> self.as_int() < other.as_int(),
    {
        let neg_a = self.hi >= 0x8000_0000_0000_0000_0000_0000_0000_0000u128;
        let neg_b = other.hi >= 0x8000_0000_0000_0000_0000_0000_0000_0000u128;
        if neg_a != neg_b {
            neg_a
        } else {
            self.lt_u(other)
        }
    }

    /// `SDIV` semantics: signed quotient truncated toward zero, with a
    /// zero divisor yielding zero.
    pub fn sdiv_evm(self, divisor: U256) -> (r: U256)
        ensures
            divisor.as_nat() == 0 ==> r.as_nat() == 0,
            divisor.as_nat() > 0 ==> r.as_nat() == wrap_word(
                truncated_div(self.as_int(), divisor.as_int()),
            ),
    {
        if divisor.is_zero() {
            return U256::zero();
        }
        let neg_a = self.hi >= 0x8000_0000_0000_0000_0000_0000_0000_0000u128;
        let neg_b = divisor.hi >= 0x8000_0000_0000_0000_0000_0000_0000_0000u128;
        let mag_a = self.magnitude();
        let mag_b = divisor.magnitude();
        proof {
            if neg_b {
                lemma_high_limb_low_bound(divisor);
            }
        }
        let q = mag_a.div_rem(mag_b).0;
        proof {
            lemma_quotient_bound(mag_a.as_nat(), mag_b.as_nat(), q.as_nat());
            lemma_word_bound(mag_a);
        }
        if neg_a != neg_b {
            let r = q.neg_word();
            proof {
                lemma_neg_wrap(q.as_nat());
            }
            r
        } else {
            proof {
                vstd::arithmetic::div_mod::lemma_small_mod(q.as_nat(), word_modulus());
            }
            q
        }
    }

    /// `SMOD` semantics: signed remainder with the dividend's sign, with a
    /// zero divisor yielding zero.
    pub fn srem_evm(self, divisor: U256) -> (r: U256)
        ensures
            divisor.as_nat() == 0 ==> r.as_nat() == 0,
            divisor.as_nat() > 0 ==> r.as_nat() == wrap_word(
                truncated_rem(self.as_int(), divisor.as_int()),
            ),
    {
        if divisor.is_zero() {
            return U256::zero();
        }
        let neg_a = self.hi >= 0x8000_0000_0000_0000_0000_0000_0000_0000u128;
        let mag_a = self.magnitude();
        let mag_b = divisor.magnitude();
        proof {
            if divisor.hi >= 0x8000_0000_0000_0000_0000_0000_0000_0000u128 {
                lemma_high_limb_low_bound(divisor);
            }
        }
        let m = mag_a.div_rem(mag_b).1;
        proof {
            lemma_word_bound(mag_a);
        }
        if neg_a {
            let r = m.neg_word();
            proof {
                lemma_neg_wrap(m.as_nat());
            }
            r
        } else {
            proof {
                vstd::arithmetic::div_mod::lemma_small_mod(m.as_nat(), word_modulus());
            }
            m
        }
    }

    /// `ADDMOD` semantics: `(self + other) % modulus`, with a zero modulus
    /// yielding zero.
    pub fn addmod_evm(self, other: U256, modulus: U256) -> (r: U256)
        ensures
            modulus.as_nat() == 0 ==> r.as_nat() == 0,
            modulus.as_nat() > 0 ==> r.as_nat() == (self.as_nat() + other.as_nat())
                % modulus.as_nat(),
    {
        if modulus.is_zero() {
            return U256::zero();
        }
        let a = self.rem_evm(modulus);
        let b = other.rem_evm(modulus);
        let r = add_mod_cond(a, b, modulus);
        proof {
            vstd::arithmetic::div_mod::lemma_add_mod_noop(
                self.as_nat() as int,
                other.as_nat() as int,
                modulus.as_nat() as int,
            );
        }
        r
    }

    /// `MULMOD` semantics: `(self * other) % modulus`, with a zero modulus
    /// yielding zero.
    pub fn mulmod_evm(self, other: U256, modulus: U256) -> (r: U256)
        ensures
            modulus.as_nat() == 0 ==> r.as_nat() == 0,
            modulus.as_nat() > 0 ==> r.as_nat() == (self.as_nat() * other.as_nat())
                % modulus.as_nat(),
    {
        if modulus.is_zero() {
            return U256::zero();
        }
        proof {
            lemma_word_modulus_pow2();
            vstd::arithmetic::power2::lemma2_to64();
            lemma_word_bound(modulus);
        }
        let ghost m = modulus.as_nat();
        let a_red = self.rem_evm(modulus);
        let mut acc = U256::zero();
        let mut b = other;
        let ghost mut processed: nat = 0;
        let mut i: usize = 0;
        while i < 256
            invariant
                i <= 256,
                0 < m < word_modulus(),
                modulus.as_nat() == m,
                a_red.as_nat() == self.as_nat() % m,
                processed < pow2(i as nat),
                other.as_nat() * pow2(i as nat) == processed * word_modulus() + b.as_nat(),
                acc.as_nat() == (self.as_nat() * processed) % m,
            decreases 256 - i,
        {
            let ghost old_processed = processed;
            let ghost old_b = b;
            let ghost old_acc = acc;
            let (b2, bit) = b.adc(b, false);
            b = b2;
            proof {
                processed = 2 * old_processed + (if bit {
                    1nat
                } else {
                    0nat
                });
                lemma_shift_step(
                    other.as_nat(),
                    i as nat,
                    old_processed,
                    processed,
                    old_b.as_nat(),
                    b.as_nat(),
                    bit,
                );
            }
            let acc1 = add_mod_cond(acc, acc, modulus);
            let acc2 = if bit {
                add_mod_cond(acc1, a_red, modulus)
            } else {
                acc1
            };
            proof {
                vstd::arithmetic::div_mod::lemma_mod_twice(
                    (old_acc.as_nat() + old_acc.as_nat()) as int,
                    m as int,
                );
                lemma_mod_double_add(
                    self.as_nat(),
                    old_processed,
                    processed,
                    old_acc.as_nat(),
                    acc2.as_nat(),
                    acc1.as_nat(),
                    bit,
                    m,
                );
            }
            acc = acc2;
            i = i + 1;
        }
        proof {
            lemma_consumed_all(other.as_nat(), processed, b.as_nat());
        }
        acc
    }

    /// `EXP` semantics: `self` raised to `exponent`, modulo 2^256.
    pub fn exp_evm(self, exponent: U256) -> (r: U256)
        ensures
            r.as_nat() == vstd::arithmetic::power::pow(self.as_nat() as int, exponent.as_nat())
                % (word_modulus() as int),
    {
        proof {
            lemma_word_modulus_pow2();
            vstd::arithmetic::power2::lemma2_to64();
            vstd::arithmetic::power::lemma_pow0(self.as_nat() as int);
            vstd::arithmetic::div_mod::lemma_small_mod(1, word_modulus());
        }
        let mut acc = U256::one();
        let mut b = exponent;
        let ghost mut processed: nat = 0;
        let mut i: usize = 0;
        while i < 256
            invariant
                i <= 256,
                processed < pow2(i as nat),
                exponent.as_nat() * pow2(i as nat) == processed * word_modulus() + b.as_nat(),
                acc.as_nat() == vstd::arithmetic::power::pow(self.as_nat() as int, processed) % (
                word_modulus() as int),
            decreases 256 - i,
        {
            let ghost old_processed = processed;
            let ghost old_b = b;
            let ghost old_acc = acc;
            let (b2, bit) = b.adc(b, false);
            b = b2;
            proof {
                processed = 2 * old_processed + (if bit {
                    1nat
                } else {
                    0nat
                });
                lemma_shift_step(
                    exponent.as_nat(),
                    i as nat,
                    old_processed,
                    processed,
                    old_b.as_nat(),
                    b.as_nat(),
                    bit,
                );
            }
            let acc1 = acc.wrapping_mul(acc);
            let acc2 = if bit {
                acc1.wrapping_mul(self)
            } else {
                acc1
            };
            proof {
                lemma_pow_double_step(
                    self.as_nat(),
                    old_processed,
                    processed,
                    old_acc.as_nat(),
                    acc2.as_nat(),
                    acc1.as_nat(),
                    bit,
                );
            }
            acc = acc2;
            i = i + 1;
        }
        proof {
            lemma_consumed_all(exponent.as_nat(), processed, b.as_nat());
        }
        acc
    }

    /// Halving: a logical shift right by one bit.
    pub fn shr1(self) -> (r: U256)
        ensures
            r.as_nat() == self.as_nat() / 2,
    {
        let b: u128 = self.hi % 2;
        let r = U256 {
            lo: self.lo / 2 + b * 0x8000_0000_0000_0000_0000_0000_0000_0000u128,
            hi: self.hi / 2,
        };
        proof {
            vstd::arithmetic::div_mod::lemma_fundamental_div_mod_converse(
                self.as_nat() as int,
                2,
                r.as_nat() as int,
                (self.lo % 2) as int,
            );
        }
        r
    }

    /// `SHL` semantics: shift left, dropping bits above the word.
    pub fn shl_evm(self, shift: U256) -> (r: U256)
        ensures
            shift.as_nat() >= 256 ==> r.as_nat() == 0,
            shift.as_nat() < 256 ==> r.as_nat() == (self.as_nat() * pow2(shift.as_nat()))
                % word_modulus(),
    {
        let (s, fits) = shift.to_u64();
        if !fits || s >= 256 {
            return U256::zero();
        }
        proof {
            lemma_word_modulus_pow2();
            vstd::arithmetic::power2::lemma2_to64();
            lemma_word_bound(self);
            vstd::arithmetic::div_mod::lemma_small_mod(self.as_nat(), word_modulus());
        }
        let mut acc = self;
        let mut j: u64 = 0;
        while j < s
            invariant
                j <= s,
                s < 256,
                acc.as_nat() == (self.as_nat() * pow2(j as nat)) % word_modulus(),
            decreases s - j,
        {
            let ghost old_acc = acc.as_nat();
            acc = acc.wrapping_add(acc);
            proof {
                vstd::arithmetic::power2::lemma_pow2_unfold((j + 1) as nat);
                vstd::arithmetic::div_mod::lemma_mul_mod_noop_left(
                    (self.as_nat() * pow2(j as nat)) as int,
                    2,
                    word_modulus() as int,
                );
                assert(self.as_nat() * (2 * pow2(j as nat)) == (self.as_nat() * pow2(
                    j as nat,
                )) * 2) by (nonlinear_arith);
            }
            j = j + 1;
        }
        acc
    }

    /// `SHR` semantics: logical shift right.
    pub fn shr_evm(self, shift: U256) -> (r: U256)
        ensures
            r.as_nat() == self.as_nat() / pow2(shift.as_nat()),
    {
        proof {
            lemma_word_modulus_pow2();
            vstd::arithmetic::power2::lemma2_to64();
            lemma_word_bound(self);
        }
        let (s, fits) = shift.to_u64();
        if !fits || s >= 256 {
            proof {
                if shift.as_nat() > 256 {
                    vstd::arithmetic::power2::lemma_pow2_strictly_increases(
                        256,
                        shift.as_nat(),
                    );
                }
                vstd::arithmetic::div_mod::lemma_basic_div(
                    self.as_nat() as int,
                    pow2(shift.as_nat()) as int,
                );
            }
            return U256::zero();
        }
        let mut acc = self;
        let mut j: u64 = 0;
        while j < s
            invariant
                j <= s,
                s < 256,
                acc.as_nat() == self.as_nat() / pow2(j as nat),
            decreases s - j,
        {
            acc = acc.shr1();
            proof {
                vstd::arithmetic::power2::lemma_pow2_unfold((j + 1) as nat);
                vstd::arithmetic::power2::lemma_pow2_pos(j as nat);
                vstd::arithmetic::div_mod::lemma_div_denominator(
                    self.as_nat() as int,
                    pow2(j as nat) as int,
                    2,
                );
            }
            j = j + 1;
        }
        acc
    }

    /// `BYTE` semantics: the `index`-th byte from the most significant
    /// end, or zero when the index is past the word.
    pub fn byte_evm(self, index: U256) -> (r: U256)
        ensures
            index.as_nat() >= 32 ==> r.as_nat() == 0,
            index.as_nat() < 32 ==> r.as_nat() == (self.as_nat() / pow2(
                (8 * (31 - index.as_nat())) as nat,
            )) % 256,
    {
        let (i, fits) = index.to_u64();
        if !fits || i >= 32 {
            return U256::zero();
        }
        let sh = self.shr_evm(U256::from_u64(8 * (31 - i)));
        proof {
            lemma_low_byte(sh);
        }
        U256 { lo: sh.lo % 256, hi: 0 }
    }
}

/// The value of a byte string read as one big-endian number.
pub open spec fn be_nat(s: Seq<u8>) -> nat
    decreases s.len(),
{
    if s.len() == 0 {
        0
    } else {
        (be_nat(s.drop_last()) * 256 + s.last()) as nat
    }
}

/// Byte `j` (from the most significant end) of a 32-byte word value.
pub open spec fn word_byte(v: nat, j: int) -> nat {
    (v / pow2((8 * (31 - j)) as nat)) % 256
}

impl U256 {
    /// The word denoted by up to 32 big-endian bytes.
    pub fn from_be_bytes(bytes: &[u8]) -> (r: U256)
        requires
            bytes@.len() <= 32,
        ensures
            r.as_nat() == be_nat(bytes@),
    {
        proof {
            lemma_word_modulus_pow2();
            vstd::arithmetic::power2::lemma2_to64();
        }
        let n = bytes.len();
        let mut acc = U256::zero();
        let mut i: usize = 0;
        while i < n
            invariant
                i <= n == bytes@.len() <= 32,
                acc.as_nat() == be_nat(bytes@.take(i as int)),
                acc.as_nat() < pow2((8 * i) as nat),
            decreases n - i,
        {
            let ghost old_acc = acc.as_nat();
            proof {
                lemma_word_modulus_pow2();
                vstd::arithmetic::power2::lemma2_to64();
                vstd::arithmetic::power2::lemma_pow2_adds((8 * i) as nat, 8);
                if 8 * i + 8 < 256 {
                    vstd::arithmetic::power2::lemma_pow2_strictly_increases(
                        (8 * i + 8) as nat,
                        256,
                    );
                }
                assert(old_acc * 256 + 255 < pow2((8 * i) as nat) * 256) by (nonlinear_arith)
                    requires
                        old_acc < pow2((8 * i) as nat),
                ;
                vstd::arithmetic::div_mod::lemma_small_mod(
                    (old_acc * 256) as nat,
                    word_modulus(),
                );
            }
            let shifted = acc.wrapping_mul(U256 { lo: 256, hi: 0 });
            let b = bytes[i];
            proof {
                vstd::arithmetic::div_mod::lemma_small_mod(
                    (old_acc * 256 + b) as nat,
                    word_modulus(),
                );
                assert(bytes@.take(i + 1).drop_last() =~= bytes@.take(i as int));
            }
            acc = shifted.wrapping_add(U256 { lo: b as u128, hi: 0 });
            i = i + 1;
        }
        proof {
            assert(bytes@.take(n as int) =~= bytes@);
        }
        acc
    }

    /// The 32 big-endian bytes of the word.
    pub fn to_be_bytes(self) -> (r: Vec<u8>)
        ensures
            r@.len() == 32,
            forall|j: int| 0 <= j < 32 ==> r@[j] == word_byte(self.as_nat(), j),
    {
        proof {
            vstd::arithmetic::power2::lemma2_to64();
            vstd::arithmetic::div_mod::lemma_fundamental_div_mod_converse(
                self.as_nat() as int,
                1,
                self.as_nat() as int,
                0,
            );
        }
        let mut le: Vec<u8> = Vec::new();
        let mut tmp = self;
        let mut i: usize = 0;
        while i < 32
            invariant
                i <= 32,
                le@.len() == i,
                tmp.as_nat() == self.as_nat() / pow2((8 * i) as nat),
                forall|k: int|
                    0 <= k < i ==> le@[k] == (self.as_nat() / pow2((8 * k) as nat)) % 256,
            decreases 32 - i,
        {
            proof {
                lemma_low_byte(tmp);
            }
            le.push((tmp.lo % 256) as u8);
            tmp = tmp.shr_evm(U256 { lo: 8, hi: 0 });
            proof {
                vstd::arithmetic::power2::lemma_pow2_pos((8 * i) as nat);
                vstd::arithmetic::power2::lemma_pow2_pos(8);
                vstd::arithmetic::power2::lemma_pow2_adds((8 * i) as nat, 8);
                vstd::arithmetic::div_mod::lemma_div_denominator(
                    self.as_nat() as int,
                    pow2((8 * i) as nat) as int,
                    pow2(8) as int,
                );
            }
            i = i + 1;
        }
        let mut out: Vec<u8> = Vec::new();
        let mut j: usize = 0;
        while j < 32
            invariant
                j <= 32,
                out@.len() == j,
                le@.len() == 32,
                forall|k: int|
                    0 <= k < 32 ==> le@[k] == (self.as_nat() / pow2((8 * k) as nat)) % 256,
                forall|k: int| 0 <= k < j ==> out@[k] == word_byte(self.as_nat(), k),
            decreases 32 - j,
        {
            out.push(le[31 - j]);
            j = j + 1;
        }
        out
    }

    /// `SIGNEXTEND` semantics: extend the low `byte_index + 1` bytes of
    /// the word as a signed value; an index past the word leaves it as is.
    pub fn signextend_evm(self, byte_index: U256) -> (r: U256)
        ensures
            byte_index.as_nat() >= 31 ==> r == self,
            byte_index.as_nat() < 31 ==> r.as_nat() == (if (self.as_nat() % pow2(
                (8 * (byte_index.as_nat() + 1)) as nat,
            )) < pow2((8 * byte_index.as_nat() + 7) as nat) {
                self.as_nat() % pow2((8 * (byte_index.as_nat() + 1)) as nat)
            } else {
                (self.as_nat() % pow2((8 * (byte_index.as_nat() + 1)) as nat) + word_modulus()
                    - pow2((8 * (byte_index.as_nat() + 1)) as nat)) as nat
            }),
    {
        let (bi, fits) = byte_index.to_u64();
        if !fits || bi >= 31 {
            return self;
        }
        proof {
            lemma_word_modulus_pow2();
            vstd::arithmetic::power2::lemma2_to64();
            lemma_word_bound(self);
        }
        let k: u64 = 8 * (bi + 1);
        let ghost kn = k as nat;
        let ghost v = self.as_nat();
        let ghost p = pow2(kn);
        let high = self.shr_evm(U256 { lo: k as u128, hi: 0 });
        proof {
            vstd::arithmetic::power2::lemma_pow2_pos(kn);
            vstd::arithmetic::div_mod::lemma_fundamental_div_mod(v as int, p as int);
            assert((v / p) * p <= v);
            vstd::arithmetic::power2::lemma_pow2_strictly_increases(kn, 256);
            vstd::arithmetic::div_mod::lemma_small_mod(((v / p) * p) as nat, word_modulus());
        }
        let back = high.shl_evm(U256 { lo: k as u128, hi: 0 });
        let low = self.wrapping_sub(back);
        proof {
            assert(low.as_nat() == v % p);
        }
        let half = U256::one().shl_evm(U256 { lo: (k - 1) as u128, hi: 0 });
        proof {
            vstd::arithmetic::power2::lemma_pow2_strictly_increases((kn - 1) as nat, 256);
            vstd::arithmetic::div_mod::lemma_small_mod(pow2((kn - 1) as nat), word_modulus());
            assert(half.as_nat() == pow2((kn - 1) as nat));
        }
        if low.lt_u(half) {
            low
        } else {
            let two_k = U256::one().shl_evm(U256 { lo: k as u128, hi: 0 });
            proof {
                vstd::arithmetic::div_mod::lemma_small_mod(p, word_modulus());
                assert(two_k.as_nat() == p);
            }
            low.wrapping_sub(two_k)
        }
    }

    /// `SAR` semantics: arithmetic shift right of the two's-complement
    /// reading, rounding toward minus infinity.
    pub fn sar_evm(self, shift: U256) -> (r: U256)
        ensures
            r.as_nat() == wrap_word(self.as_int() / (pow2(shift.as_nat()) as int)),
    {
        proof {
            lemma_word_modulus_pow2();
            vstd::arithmetic::power2::lemma2_to64();
            lemma_word_bound(self);
        }
        let neg = self.hi >= 0x8000_0000_0000_0000_0000_0000_0000_0000u128;
        let (s, fits) = shift.to_u64();
        let ghost sn = shift.as_nat();
        let ghost v = self.as_nat();
        let ghost m = word_modulus() as int;
        if !fits || s >= 256 {
            proof {
                if sn > 256 {
                    vstd::arithmetic::power2::lemma_pow2_strictly_increases(256, sn);
                }
            }
            if neg {
                proof {
                    lemma_sar_all_negative(self, sn);
                }
                U256 { lo: u128::MAX, hi: u128::MAX }
            } else {
                proof {
                    vstd::arithmetic::div_mod::lemma_basic_div(v as int, pow2(sn) as int);
                    vstd::arithmetic::div_mod::lemma_small_mod(0, word_modulus());
                }
                U256::zero()
            }
        } else if !neg {
            let r = self.shr_evm(shift);
            proof {
                vstd::arithmetic::power2::lemma_pow2_pos(sn);
                lemma_quotient_bound(v, pow2(sn), v / pow2(sn));
                vstd::arithmetic::div_mod::lemma_small_mod(v / pow2(sn), word_modulus());
            }
            r
        } else {
            let r0 = self.shr_evm(shift);
            let two_k = U256::one().shl_evm(U256 { lo: (256 - s) as u128, hi: 0 });
            proof {
                vstd::arithmetic::power2::lemma_pow2_pos((256 - sn) as nat);
                if sn > 0 {
                    vstd::arithmetic::power2::lemma_pow2_strictly_increases(
                        (256 - sn) as nat,
                        256,
                    );
                    vstd::arithmetic::div_mod::lemma_small_mod(
                        pow2((256 - sn) as nat),
                        word_modulus(),
                    );
                }
            }
            let fill = two_k.neg_word();
            proof {
                assert(fill.as_nat() == word_modulus() - pow2((256 - sn) as nat));
            }
            let r = r0.wrapping_add(fill);
            proof {
                lemma_sar_negative(self, sn, r0.as_nat(), r.as_nat());
            }
            r
        }
    }
}

/// For a shift of 256 or more, the arithmetic shift of a negative word is
/// minus one, which wraps to all ones.
proof fn lemma_sar_all_negative(a: U256, s: nat)
    requires
        a.hi >= 0x8000_0000_0000_0000_0000_0000_0000_0000u128,
        pow2(s) >= pow2(256),
        pow2(256) == word_modulus(),
    ensures
        wrap_word(a.as_int() / (pow2(s) as int)) == word_modulus() - 1,
{
    let p = pow2(s) as int;
    let m = word_modulus() as int;
    let x = a.as_int();
    lemma_word_bound(a);
    assert(x < 0);
    assert(x >= -m);
    vstd::arithmetic::div_mod::lemma_fundamental_div_mod_converse(x, p, -1, p + x);
    vstd::arithmetic::div_mod::lemma_mod_add_multiples_vanish(-1, m);
    vstd::arithmetic::div_mod::lemma_small_mod((word_modulus() - 1) as nat, word_modulus());
}

/// For a shift below 256, the arithmetic shift of a negative word is the
/// logical shift with the vacated top bits set.
proof fn lemma_sar_negative(a: U256, s: nat, r0: nat, r: nat)
    requires
        a.hi >= 0x8000_0000_0000_0000_0000_0000_0000_0000u128,
        s < 256,
        pow2(256) == word_modulus(),
        r0 == a.as_nat() / pow2(s),
        r == ((r0 + (word_modulus() - pow2((256 - s) as nat))) as nat) % word_modulus(),
    ensures
        r == wrap_word(a.as_int() / (pow2(s) as int)),
{
    let m = word_modulus() as int;
    let p = pow2(s) as int;
    let w = pow2((256 - s) as nat) as int;
    let v = a.as_nat() as int;
    let x = a.as_int();
    vstd::arithmetic::power2::lemma_pow2_pos(s);
    vstd::arithmetic::power2::lemma_pow2_pos((256 - s) as nat);
    if s > 0 {
        vstd::arithmetic::power2::lemma_pow2_strictly_increases((256 - s) as nat, 256);
    }
    vstd::arithmetic::power2::lemma_pow2_adds(s, (256 - s) as nat);
    assert(p * w == m);
    lemma_word_bound(a);
    vstd::arithmetic::div_mod::lemma_fundamental_div_mod(v, p);
    // x == v - m; its floor quotient by p is v / p - w.
    assert(x == (v / p - w) * p + v % p) by (nonlinear_arith)
        requires
            x == v - m,
            v == p * (v / p) + v % p,
            p * w == m,
    ;
    vstd::arithmetic::div_mod::lemma_fundamental_div_mod_converse(x, p, v / p - w, v % p);
    // r0 stays below w, so the filled value stays below the modulus.
    assert(v / p < w) by (nonlinear_arith)
        requires
            v < m,
            p * w == m,
            p > 0,
            w > 0,
            v == p * (v / p) + v % p,
            v % p >= 0,
            v / p >= 0,
    ;
    vstd::arithmetic::div_mod::lemma_mod_add_multiples_vanish(v / p - w, m);
    vstd::arithmetic::div_mod::lemma_small_mod((r0 + (word_modulus() - pow2(
        (256 - s) as nat,
    ))) as nat, word_modulus());
}

/// `(x + y) % m` for operands already reduced below `m`.
fn add_mod_cond(x: U256, y: U256, m: U256) -> (r: U256)
    requires
        x.as_nat() < m.as_nat(),
        y.as_nat() < m.as_nat(),
    ensures
        r.as_nat() == (x.as_nat() + y.as_nat()) % m.as_nat(),
{
    proof {
        lemma_word_bound(m);
    }
    let ghost sum = x.as_nat() + y.as_nat();
    let ghost mv = m.as_nat();
    let (s, c) = x.adc(y, false);
    if c || !s.lt_u(m) {
        let r = s.wrapping_sub(m);
        proof {
            assert(r.as_nat() == sum - mv);
            vstd::arithmetic::div_mod::lemma_mod_sub_multiples_vanish(sum as int, mv as int);
            vstd::arithmetic::div_mod::lemma_small_mod((sum - mv) as nat, mv);
        }
        r
    } else {
        proof {
            vstd::arithmetic::div_mod::lemma_small_mod(sum, mv);
        }
        s
    }
}

/// A word whose high limb has its top bit set is nonzero.
proof fn lemma_high_limb_low_bound(a: U256)
    requires
        a.hi >= 1,
    ensures
        a.as_nat() >= limb_modulus(),
{
    assert(a.hi * limb_modulus() >= limb_modulus()) by (nonlinear_arith)
        requires
            a.hi >= 1,
    ;
}

/// A quotient never exceeds its dividend.
proof fn lemma_quotient_bound(a: nat, d: nat, q: nat)
    requires
        d >= 1,
        q == a / d,
    ensures
        q <= a,
{
    assert(a / d <= a) by (nonlinear_arith)
        requires
            d >= 1,
            0 <= a,
    ;
}

/// Negation of a reduced value wraps to `2^256 - k`.
proof fn lemma_neg_wrap(k: nat)
    requires
        k < word_modulus(),
    ensures
        k == 0 ==> wrap_word(-(k as int)) == 0,
        k > 0 ==> wrap_word(-(k as int)) == word_modulus() - k,
{
    let m = word_modulus() as int;
    if k == 0 {
        vstd::arithmetic::div_mod::lemma_small_mod(0, word_modulus());
    } else {
        vstd::arithmetic::div_mod::lemma_mod_add_multiples_vanish(-(k as int), m);
        vstd::arithmetic::div_mod::lemma_small_mod((word_modulus() - k) as nat, word_modulus());
    }
}

/// The low byte of a word is its value modulo 256.
proof fn lemma_low_byte(a: U256)
    ensures
        a.as_nat() % 256 == a.lo % 256,
{
    let spread = 0x100_0000_0000_0000_0000_0000_0000_0000int;
    let h = a.hi as int;
    assert(h * limb_modulus() == 256 * (h * spread)) by (nonlinear_arith)
        requires
            limb_modulus() == 256 * 0x100_0000_0000_0000_0000_0000_0000_0000int,
            spread == 0x100_0000_0000_0000_0000_0000_0000_0000int,
    ;
    vstd::arithmetic::div_mod::lemma_mod_multiples_vanish(
        a.hi * spread,
        a.lo as int,
        256,
    );
}

/// One step of building a product modulo `m`: doubling the accumulator
/// and adding the reduced multiplicand when the consumed bit is set.
proof fn lemma_mod_double_add(
    s: nat,
    old_prefix: nat,
    new_prefix: nat,
    old_acc: nat,
    new_acc: nat,
    doubled: nat,
    bit: bool,
    m: nat,
)
    requires
        0 < m,
        old_acc == (s * old_prefix) % m,
        doubled == (old_acc + old_acc) % m,
        new_acc == (if bit {
            (doubled + (s % m)) % m
        } else {
            doubled
        }),
        new_prefix == 2 * old_prefix + (if bit {
            1nat
        } else {
            0nat
        }),
    ensures
        new_acc == (s * new_prefix) % m,
{
    let mi = m as int;
    let sp = (s * old_prefix) as int;
    assert(s * new_prefix == 2 * (s * old_prefix) + (if bit {
        s
    } else {
        0nat
    })) by (nonlinear_arith)
        requires
            new_prefix == 2 * old_prefix + (if bit {
                1nat
            } else {
                0nat
            }),
    ;
    vstd::arithmetic::div_mod::lemma_mul_mod_noop_left(sp, 2, mi);
    assert((sp % mi) * 2 == (sp % mi) + (sp % mi));
    assert(doubled == (2 * sp) % mi);
    if bit {
        vstd::arithmetic::div_mod::lemma_add_mod_noop(2 * sp, s as int, mi);
        vstd::arithmetic::div_mod::lemma_mod_twice(2 * sp, mi);
        assert(new_acc == ((2 * sp) % mi + (s as int) % mi) % mi);
    }
}

/// One step of building a power modulo 2^256: squaring the accumulator
/// and multiplying in the base when the consumed bit is set.
proof fn lemma_pow_double_step(
    base: nat,
    old_prefix: nat,
    new_prefix: nat,
    old_acc: nat,
    new_acc: nat,
    squared: nat,
    bit: bool,
)
    requires
        old_acc == vstd::arithmetic::power::pow(base as int, old_prefix) % (
        word_modulus() as int),
        squared == (old_acc * old_acc) % word_modulus(),
        new_acc == (if bit {
            (squared * base) % word_modulus()
        } else {
            squared
        }),
        new_prefix == 2 * old_prefix + (if bit {
            1nat
        } else {
            0nat
        }),
    ensures
        new_acc == vstd::arithmetic::power::pow(base as int, new_prefix) % (
        word_modulus() as int),
{
    let m = word_modulus() as int;
    let b = base as int;
    let p = vstd::arithmetic::power::pow(b, old_prefix);
    vstd::arithmetic::power::lemma_pow_adds(b, old_prefix, old_prefix);
    vstd::arithmetic::div_mod::lemma_mul_mod_noop(p, p, m);
    assert(squared == (p * p) % m);
    assert(p * p == vstd::arithmetic::power::pow(b, 2 * old_prefix));
    if bit {
        vstd::arithmetic::power::lemma_pow_adds(b, 2 * old_prefix, 1);
        vstd::arithmetic::power::lemma_pow1(b);
        vstd::arithmetic::div_mod::lemma_mul_mod_noop_left(
            vstd::arithmetic::power::pow(b, 2 * old_prefix),
            b,
            m,
        );
        assert(new_acc == (vstd::arithmetic::power::pow(b, 2 * old_prefix) % m * b) % m);
    }
}

/// 2^256 is the word modulus.
pub proof fn lemma_word_modulus_pow2()
    ensures
        pow2(256) == word_modulus(),
        pow2(128) == limb_modulus(),
{
    vstd::arithmetic::power2::lemma2_to64();
    vstd::arithmetic::power2::lemma_pow2_adds(64, 64);
    vstd::arithmetic::power2::lemma_pow2_adds(128, 128);
}

proof fn lemma_pow2_le_word(i: nat)
    requires
        i <= 255,
    ensures
        2 * pow2(i) <= word_modulus(),
{
    lemma_word_modulus_pow2();
    vstd::arithmetic::power2::lemma_pow2_unfold(256);
    if i < 255 {
        vstd::arithmetic::power2::lemma_pow2_strictly_increases(i, 255);
    }
}

/// One step of consuming a word's bits from the top: doubling the
/// consumed prefix and shifting the rest left preserves the decomposition
/// `v * 2^i == prefix * 2^256 + rest`.
proof fn lemma_shift_step(
    v: nat,
    i: nat,
    old_prefix: nat,
    new_prefix: nat,
    old_rest: nat,
    new_rest: nat,
    bit: bool,
)
    requires
        i < 256,
        old_prefix < pow2(i),
        v * pow2(i) == old_prefix * word_modulus() + old_rest,
        new_rest + (if bit {
            word_modulus()
        } else {
            0
        }) == 2 * old_rest,
        new_prefix == 2 * old_prefix + (if bit {
            1nat
        } else {
            0nat
        }),
    ensures
        new_prefix < pow2(i + 1),
        v * pow2(i + 1) == new_prefix * word_modulus() + new_rest,
{
    vstd::arithmetic::power2::lemma_pow2_unfold(i + 1);
    assert(v * (2 * pow2(i)) == 2 * (v * pow2(i))) by (nonlinear_arith);
    assert(new_prefix * word_modulus() == 2 * (old_prefix * word_modulus()) + (if bit {
        word_modulus()
    } else {
        0nat
    })) by (nonlinear_arith)
        requires
            new_prefix == 2 * old_prefix + (if bit {
                1nat
            } else {
                0nat
            }),
    ;
}

/// After all 256 bits are consumed the prefix is the whole value and the
/// rest is zero.
proof fn lemma_consumed_all(v: nat, prefix: nat, rest: nat)
    requires
        v * pow2(256) == prefix * word_modulus() + rest,
        rest < word_modulus(),
        v < word_modulus(),
    ensures
        prefix == v,
        rest == 0,
{
    lemma_word_modulus_pow2();
    assert(v * pow2(256) == v * word_modulus());
    if prefix < v {
        assert(prefix * word_modulus() + word_modulus() <= v * word_modulus())
            by (nonlinear_arith)
            requires
                prefix + 1 <= v,
        ;
    }
    if prefix > v {
        assert(v * word_modulus() + word_modulus() <= prefix * word_modulus())
            by (nonlinear_arith)
            requires
                v + 1 <= prefix,
        ;
    }
}

/// One step of building a product modulo 2^256: doubling the accumulator
/// and adding the multiplicand when the consumed bit is set.
proof fn lemma_double_add_mod(
    s: nat,
    old_prefix: nat,
    new_prefix: nat,
    old_acc: nat,
    new_acc: nat,
    doubled: nat,
    bit: bool,
)
    requires
        old_acc == (s * old_prefix) % word_modulus(),
        doubled == (old_acc + old_acc) % word_modulus(),
        new_acc == (if bit {
            (doubled + s) % word_modulus()
        } else {
            doubled
        }),
        new_prefix == 2 * old_prefix + (if bit {
            1nat
        } else {
            0nat
        }),
        s < word_modulus(),
    ensures
        new_acc == (s * new_prefix) % word_modulus(),
{
    let m = word_modulus() as int;
    let sp = (s * old_prefix) as int;
    assert(s * new_prefix == 2 * (s * old_prefix) + (if bit {
        s
    } else {
        0nat
    })) by (nonlinear_arith)
        requires
            new_prefix == 2 * old_prefix + (if bit {
                1nat
            } else {
                0nat
            }),
    ;
    vstd::arithmetic::div_mod::lemma_mul_mod_noop_left(sp, 2, m);
    assert((sp % m) * 2 == (sp % m) + (sp % m));
    assert(doubled == (2 * sp) % m);
    if bit {
        vstd::arithmetic::div_mod::lemma_add_mod_noop(2 * sp, s as int, m);
        vstd::arithmetic::div_mod::lemma_small_mod(s, word_modulus());
        vstd::arithmetic::div_mod::lemma_mod_twice(2 * sp, m);
        assert(new_acc == ((2 * sp) % m + (s as int) % m) % m);
    }
}

/// One limb of an addition chain: wrapped sum and carry out.
fn add_limb(x: u128, y: u128, carry_in: bool) -> (r: (u128, bool))
    ensures
        r.0 + (if r.1 {
            limb_modulus()
        } else {
            0
        }) == x + y + (if carry_in {
            1int
        } else {
            0int
        }),
{
    let c: u128 = if carry_in {
        1
    } else {
        0
    };
    if x <= u128::MAX - y {
        let s = x + y;
        if c == 1 && s == u128::MAX {
            (0, true)
        } else {
            (s + c, false)
        }
    } else {
        // x + y wraps: the true sum is (x - (MAX - y) - 1) + 2^128.
        let s = x - (u128::MAX - y) - 1;
        (s + c, true)
    }
}

/// One limb of a subtraction chain: wrapped difference and borrow out.
fn sub_limb(x: u128, y: u128, borrow_in: bool) -> (r: (u128, bool))
    ensures
        r.0 == x - y - (if borrow_in {
            1int
        } else {
            0int
        }) + (if r.1 {
            limb_modulus()
        } else {
            0
        }),
{
    let b: u128 = if borrow_in {
        1
    } else {
        0
    };
    if x >= y {
        let d = x - y;
        if b == 1 && d == 0 {
            (u128::MAX, true)
        } else {
            (d - b, false)
        }
    } else {
        // x - y wraps: the true difference is x + (MAX - y) + 1 - 2^128.
        let d = x + (u128::MAX - y) + 1 - b;
        (d, true)
    }
}

/// Ordering by the high limb dominates the word order.
proof fn lemma_limb_order(a: U256, b: U256)
    ensures
        a.hi < b.hi ==> a.as_nat() < b.as_nat(),
        a.hi > b.hi ==> a.as_nat() > b.as_nat(),
{
    if a.hi < b.hi {
        assert(a.hi * limb_modulus() + limb_modulus() <= b.hi * limb_modulus())
            by (nonlinear_arith)
            requires
                a.hi < b.hi,
        ;
    }
    if a.hi > b.hi {
        assert(b.hi * limb_modulus() + limb_modulus() <= a.hi * limb_modulus())
            by (nonlinear_arith)
            requires
                a.hi > b.hi,
        ;
    }
}

/// A sum below 2^257 wraps to `sum - 2^256` exactly when it carried.
proof fn lemma_wrap_sum(sum: nat, wrapped: nat, carry: bool)
    requires
        wrapped + (if carry {
            word_modulus()
        } else {
            0
        }) == sum,
        wrapped < word_modulus(),
    ensures
        wrapped == sum % word_modulus(),
{
    if carry {
        assert(sum == word_modulus() + wrapped);
        vstd::arithmetic::div_mod::lemma_mod_add_multiples_vanish(
            wrapped as int,
            word_modulus() as int,
        );
        vstd::arithmetic::div_mod::lemma_small_mod(wrapped, word_modulus());
    } else {
        vstd::arithmetic::div_mod::lemma_small_mod(wrapped, word_modulus());
    }
}

/// Two words are equal exactly when their values are.
pub proof fn lemma_word_value_injective(a: U256, b: U256)
    ensures
        a.as_nat() == b.as_nat() <==> (a.lo == b.lo && a.hi == b.hi),
{
    if a.as_nat() == b.as_nat() {
        if a.hi != b.hi {
            lemma_limb_order(a, b);
        }
    }
}

/// Every word value lies below 2^256.
pub proof fn lemma_word_bound(a: U256)
    ensures
        a.as_nat() < word_modulus(),
{
    assert(a.hi * limb_modulus() <= (limb_modulus() - 1) * limb_modulus()) by (nonlinear_arith)
        requires
            a.hi <= limb_modulus() - 1,
    ;
}

} // verus!
