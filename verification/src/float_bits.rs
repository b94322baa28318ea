//! Integer readings of floating-point bit patterns.
//!
//! The wire types carry floats as raw bit patterns (see `message`), and
//! the only arithmetic this layer ever performs on them — the numeric
//! column coercions — is truncation to an integer, which is a pure
//! function of the bits: sign, exponent and mantissa. It is computed
//! here with integer operations alone, with the saturating behaviour of
//! a narrowing cast: not-a-number reads as 0, out-of-range magnitudes
//! clamp to the integer range.

use vstd::prelude::*;

verus! {

use vstd::arithmetic::power2::pow2;
use vstd::arithmetic::power2::lemma_pow2_adds;
use vstd::arithmetic::power2::lemma_pow2_strictly_increases;
use vstd::arithmetic::power2::lemma2_to64;
use vstd::arithmetic::power2::lemma2_to64_rest;
use vstd::arithmetic::mul::lemma_mul_upper_bound;
use vstd::bits::lemma_u64_shl_is_mul;
use vstd::bits::lemma_u64_shr_is_div;

/// The truncation to a 64-bit integer of the single-precision number
/// with these bits: 0 for not-a-number and for magnitudes below one,
/// the integer part otherwise, clamped to the 64-bit range. The number
/// is `(-1)^sign * 1.m * 2^(e-127)` with a 23-bit mantissa, so its
/// integer part is `(2^23 + m)` shifted by `e - 150`.
pub open spec fn f32_trunc_i64_spec(bits: u32) -> i64 {
    let sign = bits >> 31 == 1u32;
    let e = (bits >> 23) & 0xff;
    let m = (bits & 0x7f_ffff) as nat;
    if e == 255 {
        // infinities clamp, not-a-number reads as 0
        if m != 0 {
            0
        } else if sign {
            i64::MIN
        } else {
            i64::MAX
        }
    } else if e < 127 {
        0
    } else {
        let frac = (0x80_0000 + m) as nat;
        let mag = if e >= 150 {
            frac * pow2((e - 150) as nat)
        } else {
            frac / pow2((150 - e) as nat)
        };
        if sign {
            if mag >= 0x8000_0000_0000_0000nat {
                i64::MIN
            } else {
                (-(mag as int)) as i64
            }
        } else {
            if mag > 0x7fff_ffff_ffff_ffffnat {
                i64::MAX
            } else {
                mag as i64
            }
        }
    }
}

/// Truncates the single-precision number with these bits to a 64-bit
/// integer.
pub fn f32_bits_trunc_i64(bits: u32) -> (r: i64)
    ensures
        r == f32_trunc_i64_spec(bits),
{
    let sign = (bits >> 31) == 1;
    let e: u32 = (bits >> 23) & 0xff;
    let m: u64 = (bits & 0x7f_ffff) as u64;
    if e == 255 {
        if m != 0 {
            0
        } else if sign {
            i64::MIN
        } else {
            i64::MAX
        }
    } else if e < 127 {
        0
    } else {
        proof {
            assert(bits & 0x7f_ffff <= 0x7f_ffff) by (bit_vector);
        }
        let frac: u64 = 0x80_0000u64 + m;
        proof {
            lemma2_to64();
            lemma2_to64_rest();
        }
        if e >= 190 {
            // the magnitude is at least 2^23 * 2^40 = 2^63: clamp
            proof {
                let sh = (e - 150) as nat;
                if sh > 40 {
                    lemma_pow2_strictly_increases(40, sh);
                }
                lemma_pow2_adds(23, 40);
                assert((frac as nat) * pow2(sh) >= pow2(23) * pow2(40)) by (nonlinear_arith)
                    requires
                        frac as nat >= pow2(23),
                        pow2(sh) >= pow2(40),
                ;
            }
            if sign {
                i64::MIN
            } else {
                i64::MAX
            }
        } else if e >= 150 {
            let sh: u32 = e - 150;
            proof {
                if sh < 39 {
                    lemma_pow2_strictly_increases(sh as nat, 39);
                }
                lemma_mul_upper_bound(frac as int, 0xff_ffff, pow2(sh as nat) as int, pow2(
                    39,
                ) as int);
                lemma_u64_shl_is_mul(frac, sh as u64);
            }
            let mag: u64 = frac << (sh as u64);
            if sign {
                -(mag as i64)
            } else {
                mag as i64
            }
        } else {
            let sh: u32 = 150 - e;
            proof {
                lemma_u64_shr_is_div(frac, sh as u64);
                vstd::arithmetic::power2::lemma_pow2_pos(sh as nat);
                vstd::arithmetic::div_mod::lemma_div_is_ordered_by_denominator(
                    frac as int,
                    1,
                    pow2(sh as nat) as int,
                );
            }
            let mag: u64 = frac >> (sh as u64);
            if sign {
                -(mag as i64)
            } else {
                mag as i64
            }
        }
    }
}

/// The truncation to a 64-bit integer of the double-precision number
/// with these bits: the same rule with an 11-bit exponent (bias 1023)
/// and a 52-bit mantissa, so the integer part is `(2^52 + m)` shifted
/// by `e - 1075`.
pub open spec fn f64_trunc_i64_spec(bits: u64) -> i64 {
    let sign = bits >> 63 == 1u64;
    let e = (bits >> 52) & 0x7ff;
    let m = (bits & 0xf_ffff_ffff_ffff) as nat;
    if e == 2047 {
        if m != 0 {
            0
        } else if sign {
            i64::MIN
        } else {
            i64::MAX
        }
    } else if e < 1023 {
        0
    } else {
        let frac = (0x10_0000_0000_0000 + m) as nat;
        let mag = if e >= 1075 {
            frac * pow2((e - 1075) as nat)
        } else {
            frac / pow2((1075 - e) as nat)
        };
        if sign {
            if mag >= 0x8000_0000_0000_0000nat {
                i64::MIN
            } else {
                (-(mag as int)) as i64
            }
        } else {
            if mag > 0x7fff_ffff_ffff_ffffnat {
                i64::MAX
            } else {
                mag as i64
            }
        }
    }
}

/// Truncates the double-precision number with these bits to a 64-bit
/// integer.
pub fn f64_bits_trunc_i64(bits: u64) -> (r: i64)
    ensures
        r == f64_trunc_i64_spec(bits),
{
    let sign = (bits >> 63) == 1;
    let e: u64 = (bits >> 52) & 0x7ff;
    let m: u64 = bits & 0xf_ffff_ffff_ffff;
    if e == 2047 {
        if m != 0 {
            0
        } else if sign {
            i64::MIN
        } else {
            i64::MAX
        }
    } else if e < 1023 {
        0
    } else {
        proof {
            assert(bits & 0xf_ffff_ffff_ffff <= 0xf_ffff_ffff_ffff) by (bit_vector);
        }
        let frac: u64 = 0x10_0000_0000_0000u64 + m;
        proof {
            lemma2_to64();
            lemma2_to64_rest();
        }
        if e >= 1086 {
            // the magnitude is at least 2^52 * 2^11 = 2^63: clamp
            proof {
                let sh = (e - 1075) as nat;
                if sh > 11 {
                    lemma_pow2_strictly_increases(11, sh);
                }
                lemma_pow2_adds(52, 11);
                assert((frac as nat) * pow2(sh) >= pow2(52) * pow2(11)) by (nonlinear_arith)
                    requires
                        frac as nat >= pow2(52),
                        pow2(sh) >= pow2(11),
                ;
            }
            if sign {
                i64::MIN
            } else {
                i64::MAX
            }
        } else if e >= 1075 {
            let sh: u64 = e - 1075;
            proof {
                if sh < 10 {
                    lemma_pow2_strictly_increases(sh as nat, 10);
                }
                lemma_mul_upper_bound(
                    frac as int,
                    0x1f_ffff_ffff_ffff,
                    pow2(sh as nat) as int,
                    pow2(10) as int,
                );
                lemma_u64_shl_is_mul(frac, sh);
            }
            let mag: u64 = frac << sh;
            if sign {
                -(mag as i64)
            } else {
                mag as i64
            }
        } else {
            let sh: u64 = 1075 - e;
            proof {
                lemma_u64_shr_is_div(frac, sh);
                vstd::arithmetic::power2::lemma_pow2_pos(sh as nat);
                vstd::arithmetic::div_mod::lemma_div_is_ordered_by_denominator(
                    frac as int,
                    1,
                    pow2(sh as nat) as int,
                );
            }
            let mag: u64 = frac >> sh;
            if sign {
                -(mag as i64)
            } else {
                mag as i64
            }
        }
    }
}

} // verus!
