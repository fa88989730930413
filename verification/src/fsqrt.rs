//! Verified IEEE-754 binary64 square root on bit patterns.
//!
//! The indicator algorithms need one operation that no outside crate built
//! here provides: the correctly rounded double-precision square root. It is
//! implemented below as pure integer logic on the bit pattern and verified
//! against the spec function `sqrt_bits`, which constructs the result the
//! way the IEEE-754 operation is defined: decompose the operand into an
//! integer mantissa and an exponent, take the integer square root at two
//! extra bits of precision, and round to nearest, ties to even. A NaN or a
//! negative operand yields the canonical quiet NaN; zeroes and the positive
//! infinity are returned unchanged; the root of a positive finite value is
//! always a normal number, so no overflow or subnormal rounding arises.

use vstd::arithmetic::power2::*;
use vstd::prelude::*;

use crate::fp::{
    ge_bits, is_nan_bits, lt_bits, mag_bits, sign_bits, EXP_MASK, MAG_MASK, NAN_BITS, ZERO_BITS,
};

verus! {

/// Mask of the 52-bit fraction field of a binary64 pattern.
pub const FRAC_MASK: u64 = 0x000F_FFFF_FFFF_FFFF;

/// The hidden mantissa bit of a normal binary64 value (2^52).
pub const HIDDEN_BIT: u64 = 0x0010_0000_0000_0000;

/// 2^53.
pub const TWO_53: u64 = 0x0020_0000_0000_0000;

/// 2^54.
pub const TWO_54: u64 = 0x0040_0000_0000_0000;

/// `r` is the integer square root of `n`.
pub open spec fn is_isqrt(r: nat, n: nat) -> bool {
    r * r <= n && n < (r + 1) * (r + 1)
}

/// The integer square root of `n`.
pub open spec fn spec_isqrt(n: nat) -> nat {
    choose|r: nat| is_isqrt(r, n)
}

/// At most one integer is the integer square root of `n`.
proof fn lemma_isqrt_unique(r1: nat, r2: nat, n: nat)
    requires
        is_isqrt(r1, n),
        is_isqrt(r2, n),
    ensures
        r1 == r2,
{
    if r1 < r2 {
        assert((r1 + 1) * (r1 + 1) <= r2 * r2) by (nonlinear_arith)
            requires
                r1 + 1 <= r2,
        ;
    }
    if r2 < r1 {
        assert((r2 + 1) * (r2 + 1) <= r1 * r1) by (nonlinear_arith)
            requires
                r2 + 1 <= r1,
        ;
    }
}

/// Whatever satisfies `is_isqrt` is what `spec_isqrt` names.
proof fn lemma_isqrt_is(r: nat, n: nat)
    requires
        is_isqrt(r, n),
    ensures
        spec_isqrt(n) == r,
{
    assert(is_isqrt(spec_isqrt(n), n)) by {
        assert(exists|x: nat| is_isqrt(x, n));
    }
    lemma_isqrt_unique(r, spec_isqrt(n), n);
}

/// 2^55, as a bound for the search below.
pub const TWO_55: u64 = 0x0080_0000_0000_0000;

/// 2^108, the bound on the scaled mantissa whose root is taken.
pub const TWO_108: u128 = 0x1000_0000_0000_0000_0000_0000_0000;

/// Integer square root of an integer below 2^108, by binary search on the
/// result's bits, highest first.
fn isqrt108(n: u128) -> (r: u64)
    requires
        n < TWO_108,
    ensures
        is_isqrt(r as nat, n as nat),
        r as nat == spec_isqrt(n as nat),
{
    let mut r: u64 = 0;
    let mut bit: u64 = TWO_54;
    let ghost mut j: nat = 54;
    proof {
        lemma2_to64();
        lemma2_to64_rest();
        assert((n as nat) < ((0 + 2 * TWO_54) as nat) * ((0 + 2 * TWO_54) as nat))
            by (nonlinear_arith)
            requires
                n < TWO_108,
        ;
    }
    while bit >= 1
        invariant
            n < TWO_108,
            bit >= 1 ==> bit == pow2(j),
            j <= 54,
            r < TWO_55,
            (r as nat) * (r as nat) <= n as nat,
            if bit >= 1 {
                (n as nat) < ((r + 2 * bit) as nat) * ((r + 2 * bit) as nat)
            } else {
                (n as nat) < ((r + 1) as nat) * ((r + 1) as nat)
            },
        decreases bit,
    {
        proof {
            lemma_pow2_pos(j);
            lemma2_to64();
            lemma2_to64_rest();
            assert(bit <= TWO_54) by {
                if j < 54 {
                    lemma_pow2_strictly_increases(j, 54);
                }
            }
        }
        let c: u64 = r + bit;
        proof {
            assert((c as int) * (c as int) < 0x1_0000_0000_0000_0000_0000_0000_0000_0000)
                by (nonlinear_arith)
                requires
                    c < 0x0100_0000_0000_0000u64,
            ;
        }
        let big: u128 = (c as u128) * (c as u128);
        if big <= n {
            r = c;
            proof {
                // A square at most n < 2^108 = (2^54)^2 keeps the root below 2^55.
                assert(!(r < TWO_55) ==> !((r as nat) * (r as nat) <= n as nat))
                    by (nonlinear_arith)
                    requires
                        n < TWO_108,
                        (TWO_108 as nat) == (TWO_55 as nat) * (TWO_55 as nat) / 4,
                ;
            }
        }
        if bit == 1 {
            bit = 0;
            proof {
                j = 0;
            }
        } else {
            bit = bit / 2;
            proof {
                lemma_pow2_adds((j - 1) as nat, 1);
                lemma2_to64();
                j = (j - 1) as nat;
            }
        }
    }
    proof {
        lemma_isqrt_is(r as nat, n as nat);
    }
    r
}

/// The integer mantissa encoded by the pattern: the fraction field, plus the
/// hidden bit when the biased exponent is non-zero.
pub open spec fn raw_mant(a: u64) -> nat {
    if (a >> 52) & 0x7FF == 0 {
        (a & FRAC_MASK) as nat
    } else {
        (a & FRAC_MASK) as nat + pow2(52)
    }
}

/// The power-of-two exponent paired with `raw_mant`: the encoded value is
/// `raw_mant(a) * 2^raw_exp(a)` for a positive finite pattern.
pub open spec fn raw_exp(a: u64) -> int {
    if (a >> 52) & 0x7FF == 0 {
        -1074
    } else {
        ((a >> 52) & 0x7FF) - 1075
    }
}

/// `x` lies in the mantissa bracket of a normal double.
pub open spec fn in_bracket(x: nat) -> bool {
    pow2(52) <= x < pow2(53)
}

/// The left shift that brings `raw_mant(a)` into the mantissa bracket.
pub open spec fn norm_shift(a: u64) -> nat {
    choose|t: nat| in_bracket(raw_mant(a) * pow2(t))
}

/// A mantissa between 1 and 2^53 has a bracket-normalizing shift.
proof fn lemma_norm_exists(m0: nat)
    requires
        1 <= m0 < pow2(53),
    ensures
        exists|t: nat| in_bracket(m0 * pow2(t)),
    decreases pow2(53) - m0,
{
    lemma2_to64();
    lemma2_to64_rest();
    lemma_pow2_adds(52, 1);
    if m0 >= pow2(52) {
        assert(m0 * pow2(0) == m0);
        assert(in_bracket(m0 * pow2(0)));
    } else {
        lemma_norm_exists(2 * m0);
        let t = choose|t: nat| in_bracket((2 * m0) * pow2(t));
        assert(m0 * pow2(t + 1) == (2 * m0) * pow2(t)) by {
            lemma_pow2_adds(t, 1);
            lemma2_to64();
            assert(m0 * (pow2(t) * 2) == (2 * m0) * pow2(t)) by (nonlinear_arith);
        }
        assert(in_bracket(m0 * pow2(t + 1)));
    }
}

/// At most one shift lands in the bracket.
proof fn lemma_norm_unique(m0: nat, t1: nat, t2: nat)
    requires
        1 <= m0,
        in_bracket(m0 * pow2(t1)),
        in_bracket(m0 * pow2(t2)),
    ensures
        t1 == t2,
{
    if t1 < t2 {
        lemma_norm_gap(m0, t1, t2);
    }
    if t2 < t1 {
        lemma_norm_gap(m0, t2, t1);
    }
}

/// A strictly larger shift overshoots the bracket.
proof fn lemma_norm_gap(m0: nat, t1: nat, t2: nat)
    requires
        1 <= m0,
        t1 < t2,
        in_bracket(m0 * pow2(t1)),
    ensures
        !in_bracket(m0 * pow2(t2)),
{
    lemma_pow2_adds(t1, (t2 - t1) as nat);
    lemma_pow2_pos((t2 - t1) as nat);
    lemma_pow2_strictly_increases(0, (t2 - t1) as nat);
    lemma_pow2_adds(52, 1);
    lemma2_to64();
    assert(m0 * pow2(t2) >= (m0 * pow2(t1)) * 2) by (nonlinear_arith)
        requires
            pow2(t2) == pow2(t1) * pow2((t2 - t1) as nat),
            pow2((t2 - t1) as nat) >= 2,
            m0 >= 1,
            pow2(t1) >= 0,
    ;
    assert(pow2(52) * 2 == pow2(53));
}

/// The rounded square root of a positive finite non-zero pattern, built from
/// the integer square root taken at two extra bits of precision.
pub open spec fn sqrt_pos_bits(a: u64) -> u64 {
    let m1 = raw_mant(a) * pow2(norm_shift(a));
    let q1 = raw_exp(a) - norm_shift(a);
    let m2 = if q1 % 2 != 0 {
        2 * m1
    } else {
        m1
    };
    let q2 = if q1 % 2 != 0 {
        q1 - 1
    } else {
        q1
    };
    let n = m2 * pow2(54);
    let s = spec_isqrt(n);
    let mr0 = s / 2;
    let up = s % 2 == 1 && (s * s != n || mr0 % 2 == 1);
    let mr1 = mr0 + (if up {
        1nat
    } else {
        0nat
    });
    let mr = if mr1 == pow2(53) {
        pow2(52)
    } else {
        mr1
    };
    let pinc: int = if mr1 == pow2(53) {
        1int
    } else {
        0int
    };
    let ber = q2 / 2 + 1049 + pinc;
    ((ber * pow2(52) + (mr - pow2(52))) as u64)
}

/// The IEEE-754 square root of the pattern `a`, rounded to nearest, ties to
/// even. NaNs and negative non-zero values yield the canonical quiet NaN;
/// zeroes and the positive infinity are unchanged.
pub open spec fn sqrt_bits(a: u64) -> u64 {
    if is_nan_bits(a) {
        NAN_BITS
    } else if sign_bits(a) && mag_bits(a) != 0 {
        NAN_BITS
    } else if mag_bits(a) == 0 {
        a
    } else if mag_bits(a) == EXP_MASK {
        a
    } else {
        sqrt_pos_bits(a)
    }
}

/// Executable IEEE-754 binary64 square root on bit patterns. The root of a
/// non-negative value is non-negative; a NaN operand gives a NaN back.
pub fn fp_sqrt(a: u64) -> (r: u64)
    ensures
        r == sqrt_bits(a),
        ge_bits(a, ZERO_BITS) ==> ge_bits(r, ZERO_BITS),
        is_nan_bits(a) ==> is_nan_bits(r),
{
    proof {
        lemma2_to64();
        assert(0u64 & 0x8000_0000_0000_0000u64 == 0 && 0u64 & 0x7FFF_FFFF_FFFF_FFFFu64 == 0)
            by (bit_vector);
        assert(0x7FF8_0000_0000_0000u64 & 0x7FFF_FFFF_FFFF_FFFFu64 == 0x7FF8_0000_0000_0000u64
            && 0x7FF8_0000_0000_0000u64 & 0x8000_0000_0000_0000u64 == 0) by (bit_vector);
    }
    if (a & MAG_MASK) > EXP_MASK {
        return NAN_BITS;
    }
    if (a & 0x8000_0000_0000_0000u64) == 0x8000_0000_0000_0000u64 && (a & MAG_MASK) != 0 {
        return NAN_BITS;
    }
    if (a & MAG_MASK) == 0 {
        return a;
    }
    if (a & MAG_MASK) == EXP_MASK {
        return a;
    }
    // Positive finite non-zero: decompose.
    let be: u64 = (a >> 52) & 0x7FF;
    let frac: u64 = a & FRAC_MASK;
    proof {
        lemma2_to64();
        lemma2_to64_rest();
        assert((a & 0x000F_FFFF_FFFF_FFFFu64) < 0x0010_0000_0000_0000u64) by (bit_vector);
        assert((a & 0x7FFF_FFFF_FFFF_FFFFu64) != 0 && ((a >> 52) & 0x7FF) == 0 ==> (a
            & 0x000F_FFFF_FFFF_FFFFu64) != 0) by (bit_vector);
        assert((a & 0x7FFF_FFFF_FFFF_FFFFu64) < 0x7FF0_0000_0000_0000u64 ==> ((a >> 52) & 0x7FF)
            <= 2046) by (bit_vector);
    }
    let m0: u64 = if be == 0 {
        frac
    } else {
        frac + HIDDEN_BIT
    };
    proof {
        assert(m0 as nat == raw_mant(a));
        assert(1 <= m0);
        assert((m0 as nat) < pow2(53));
    }
    // be + 125 keeps the exponent arithmetic unsigned: it is
    // raw_exp(a) + 1200 for a normal pattern, and 126 for a subnormal one.
    let eplus: u64 = if be == 0 {
        126
    } else {
        be + 125
    };
    proof {
        assert(eplus == raw_exp(a) + 1200);
        assert(eplus <= 2171);
    }
    // Normalize the mantissa into [2^52, 2^53).
    let mut m: u64 = m0;
    let mut t: u64 = 0;
    while m < HIDDEN_BIT
        invariant
            1 <= m0 < pow2(53),
            m0 as nat == raw_mant(a),
            m as nat == (m0 as nat) * pow2(t as nat),
            m < pow2(53),
            pow2(t as nat) <= m as nat,
            t <= 52,
        decreases 52 - t,
    {
        proof {
            lemma2_to64();
            lemma2_to64_rest();
            lemma_pow2_adds(t as nat, 1);
            assert((m0 as nat) * (pow2(t as nat) * 2) == ((m0 as nat) * pow2(t as nat)) * 2)
                by (nonlinear_arith);
            assert(pow2(t as nat) < pow2(52)) by {
                if t >= 52 {
                    lemma_pow2_adds(52, (t - 52) as nat);
                    lemma_pow2_pos((t - 52) as nat);
                    assert(pow2(t as nat) >= pow2(52)) by (nonlinear_arith)
                        requires
                            pow2(t as nat) == pow2(52) * pow2((t - 52) as nat),
                            pow2((t - 52) as nat) >= 1,
                    ;
                }
            }
        }
        m = m * 2;
        t = t + 1;
    }
    proof {
        lemma2_to64();
        assert(in_bracket((m0 as nat) * pow2(t as nat)));
        lemma_norm_exists(m0 as nat);
        lemma_norm_unique(
            m0 as nat,
            t as nat,
            choose|tt: nat| in_bracket(raw_mant(a) * pow2(tt)),
        );
        assert(norm_shift(a) == t as nat);
    }
    // Make the exponent even; u keeps the parity of q1 = raw_exp(a) - t.
    let u: u64 = eplus - t;
    let ghost q1: int = raw_exp(a) - t as int;
    proof {
        assert(u == q1 + 1200);
        assert(q1 % 2 == (q1 + 600 * 2) % 2) by {
            vstd::arithmetic::div_mod::lemma_mod_multiples_vanish(600, q1, 2);
        }
    }
    let m2: u64 = if u % 2 == 1 {
        m * 2
    } else {
        m
    };
    let u2: u64 = if u % 2 == 1 {
        u - 1
    } else {
        u
    };
    proof {
        lemma2_to64();
        lemma2_to64_rest();
        assert((m2 as int) * (TWO_54 as int) < TWO_108 as int) by (nonlinear_arith)
            requires
                m2 < TWO_54,
        ;
        assert((m2 as int) * (TWO_54 as int) >= (HIDDEN_BIT as int) * (TWO_54 as int))
            by (nonlinear_arith)
            requires
                m2 >= HIDDEN_BIT,
        ;
    }
    // Two extra bits of precision for the root: n = m2 * 2^54 < 2^108.
    let n: u128 = (m2 as u128) * (TWO_54 as u128);
    let s: u64 = isqrt108(n);
    let ghost nn: nat = n as nat;
    proof {
        // 2^53 <= s < 2^54.
        lemma2_to64();
        lemma2_to64_rest();
        assert((HIDDEN_BIT as int) * (TWO_54 as int) == (TWO_53 as int) * (TWO_53 as int))
            by (nonlinear_arith);
        assert((TWO_54 as int) * (TWO_54 as int) == TWO_108 as int) by (nonlinear_arith);
        assert(s >= TWO_53) by {
            if s < TWO_53 {
                assert(((s + 1) as nat) * (((s + 1)) as nat) <= (TWO_53 as nat) * (
                TWO_53 as nat)) by (nonlinear_arith)
                    requires
                        s + 1 <= TWO_53,
                ;
            }
        }
        assert(s < TWO_54) by {
            if s >= TWO_54 {
                assert((TWO_54 as nat) * (TWO_54 as nat) <= (s as nat) * (s as nat))
                    by (nonlinear_arith)
                    requires
                        TWO_54 <= s,
                ;
            }
        }
        assert((s as int) * (s as int) < TWO_108 as int) by (nonlinear_arith)
            requires
                s < TWO_54,
        ;
    }
    // Round to nearest, ties to even.
    let mr0: u64 = s / 2;
    let ss: u128 = (s as u128) * (s as u128);
    let up: bool = s % 2 == 1 && (ss != n || mr0 % 2 == 1);
    let mr1: u64 = if up {
        mr0 + 1
    } else {
        mr0
    };
    let (mr, pinc): (u64, u64) = if mr1 == TWO_53 {
        (HIDDEN_BIT, 1)
    } else {
        (mr1, 0)
    };
    // Result exponent: q2/2 - 26 biased by 1075, i.e. u2/2 + 449.
    let ber: u64 = u2 / 2 + 449 + pinc;
    let low: u64 = mr - HIDDEN_BIT;
    let out: u64 = (ber << 52u64) | low;
    proof {
        lemma2_to64();
        lemma2_to64_rest();
        let q2: int = if q1 % 2 != 0 {
            q1 - 1
        } else {
            q1
        };
        let k: int = q1 / 2;
        vstd::arithmetic::div_mod::lemma_fundamental_div_mod(q1, 2);
        assert(q2 == 2 * k);
        assert(u2 == q2 + 1200);
        assert(u2 as int / 2 == k + 600) by {
            vstd::arithmetic::div_mod::lemma_div_multiples_vanish(k + 600, 2);
        }
        assert(q2 / 2 == k) by {
            vstd::arithmetic::div_mod::lemma_div_multiples_vanish(k, 2);
        }
        assert(ber as int == q2 / 2 + 1049 + pinc);
        // The encoded fields do not collide: mr - 2^52 < 2^52 and the biased
        // exponent is well under 2047, so `<<` and `|` are plain arithmetic.
        assert(low < HIDDEN_BIT);
        assert(ber <= 2046) by {
            assert(u2 <= 2171);
        }
        assert(out == ber * 0x0010_0000_0000_0000u64 + low) by (bit_vector)
            requires
                low < 0x0010_0000_0000_0000u64,
                ber <= 2046,
                out == (ber << 52u64) | low,
        ;
        assert(out == sqrt_pos_bits(a));
        // The encoded root is a positive normal number.
        assert(out >= HIDDEN_BIT && out < EXP_MASK);
        assert(out & 0x7FFF_FFFF_FFFF_FFFFu64 == out && out & 0x8000_0000_0000_0000u64 == 0)
            by (bit_vector)
            requires
                out < 0x7FF0_0000_0000_0000u64,
        ;
        assert(ZERO_BITS & 0x7FFF_FFFF_FFFF_FFFFu64 == 0) by (bit_vector);
        assert(lt_bits(ZERO_BITS, out));
    }
    out
}

} // verus!
