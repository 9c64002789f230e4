//! The size limit of a sync, from mebibytes to bytes.
//!
//! The limit is configured as a JSON number of mebibytes. In bytes it is that number times
//! 2^20, cut to a whole number and kept within `u64`: what multiplying the double by 1024
//! twice and converting it to an unsigned integer gives, computed here on the bits of the
//! double.

use vstd::prelude::*;
use vstd::arithmetic::power2::pow2;
use vstd::arithmetic::power2::lemma2_to64;
use vstd::arithmetic::power2::lemma2_to64_rest;
use vstd::arithmetic::power2::lemma_pow2_strictly_increases;
use vstd::bits::lemma_u64_shl_is_mul;
use vstd::bits::lemma_u64_shr_is_div;
use crate::json::JsonNumber;

verus! {

/// The number of bytes in a mebibyte.
pub const MEBIBYTE: u64 = 0x10_0000;

/// The sign bit of a double: one for a negative number.
pub open spec fn sign_of(bits: u64) -> u64 {
    bits >> 63
}

/// The exponent field of a double, eleven bits wide.
pub open spec fn exponent_of(bits: u64) -> u64 {
    (bits >> 52) & 0x7ff
}

/// The fraction field of a double, fifty-two bits wide.
pub open spec fn fraction_of(bits: u64) -> u64 {
    bits & 0x000f_ffff_ffff_ffff
}

/// The whole bytes in as many mebibytes as the double with these bits says. A negative
/// number, a zero, a number too small to be normal and a NaN give zero; infinity gives
/// more than any `u64`. For a normal number with the significand `m` and the exponent
/// field `e` the value is `m * 2^(e - 1075)`, so its mebibytes are `m * 2^(e - 1055)`
/// bytes.
pub open spec fn real_bytes(bits: u64) -> nat {
    let e = exponent_of(bits);
    let m = (fraction_of(bits) + 0x10_0000_0000_0000) as nat;
    if sign_of(bits) != 0 || e == 0 {
        0
    } else if e == 0x7ff {
        if fraction_of(bits) == 0 {
            0x1_0000_0000_0000_0000
        } else {
            0
        }
    } else if e >= 1055 {
        m * pow2((e - 1055) as nat)
    } else {
        m / pow2((1055 - e) as nat)
    }
}

/// The whole bytes in as many mebibytes as the number says; zero for a negative number.
pub open spec fn mebibytes_in_bytes(n: JsonNumber) -> nat {
    match n {
        JsonNumber::Unsigned(u) => (u * MEBIBYTE) as nat,
        JsonNumber::Signed(i) => if i < 0 {
            0
        } else {
            (i * MEBIBYTE) as nat
        },
        JsonNumber::Real { bits } => real_bytes(bits),
    }
}

/// The size limit in bytes that a number of mebibytes stands for: the bytes in so many
/// mebibytes, and the largest `u64` where that is too much to hold.
pub open spec fn byte_limit(n: JsonNumber) -> u64 {
    if mebibytes_in_bytes(n) > u64::MAX {
        u64::MAX
    } else {
        mebibytes_in_bytes(n) as u64
    }
}

/// The size limit in bytes for a whole number of mebibytes.
fn whole_limit(u: u64) -> (r: u64)
    ensures
        r == byte_limit(JsonNumber::Unsigned(u)),
{
    if u >= 0x1000_0000_0000 {
        assert(u * MEBIBYTE > u64::MAX) by (nonlinear_arith)
            requires
                u >= 0x1000_0000_0000,
                MEBIBYTE == 0x10_0000,
        ;
        u64::MAX
    } else {
        assert(u * MEBIBYTE <= u64::MAX) by (nonlinear_arith)
            requires
                u < 0x1000_0000_0000,
                MEBIBYTE == 0x10_0000,
        ;
        u * MEBIBYTE
    }
}

/// The size limit in bytes for the double with the given bits.
fn real_limit(bits: u64) -> (r: u64)
    ensures
        real_bytes(bits) > u64::MAX ==> r == u64::MAX,
        real_bytes(bits) <= u64::MAX ==> r == real_bytes(bits),
{
    let sign = bits >> 63;
    let e = (bits >> 52) & 0x7ff;
    let fraction = bits & 0x000f_ffff_ffff_ffff;
    assert(e <= 0x7ff) by (bit_vector)
        requires
            e == (bits >> 52) & 0x7ff,
    ;
    assert(fraction < 0x10_0000_0000_0000) by (bit_vector)
        requires
            fraction == bits & 0x000f_ffff_ffff_ffff,
    ;
    if sign != 0 || e == 0 {
        return 0;
    }
    if e == 0x7ff {
        return if fraction == 0 {
            u64::MAX
        } else {
            0
        };
    }
    let m: u64 = fraction + 0x10_0000_0000_0000;
    proof {
        lemma2_to64();
        lemma2_to64_rest();
    }
    if e >= 1055 {
        let s: u64 = e - 1055;
        if s >= 12 {
            proof {
                if s > 12 {
                    lemma_pow2_strictly_increases(12, s as nat);
                }
                assert(m * pow2(s as nat) > u64::MAX) by (nonlinear_arith)
                    requires
                        m >= 0x10_0000_0000_0000,
                        pow2(s as nat) >= 4096,
                ;
            }
            u64::MAX
        } else {
            proof {
                if s < 11 {
                    lemma_pow2_strictly_increases(s as nat, 11);
                }
                assert(m * pow2(s as nat) <= u64::MAX) by (nonlinear_arith)
                    requires
                        m < 0x20_0000_0000_0000,
                        pow2(s as nat) <= 2048,
                ;
                lemma_u64_shl_is_mul(m, s);
            }
            m << s
        }
    } else {
        let t: u64 = 1055 - e;
        if t >= 53 {
            proof {
                if t > 53 {
                    lemma_pow2_strictly_increases(53, t as nat);
                }
                assert(m as nat / pow2(t as nat) == 0) by (nonlinear_arith)
                    requires
                        m < 0x20_0000_0000_0000,
                        pow2(t as nat) >= 0x20_0000_0000_0000,
                ;
            }
            0
        } else {
            proof {
                lemma_u64_shr_is_div(m, t);
            }
            m >> t
        }
    }
}

/// The size limit in bytes that `megabytes` mebibytes stand for.
pub fn byte_limit_of(megabytes: JsonNumber) -> (r: u64)
    ensures
        r == byte_limit(megabytes),
{
    match megabytes {
        JsonNumber::Unsigned(u) => whole_limit(u),
        JsonNumber::Signed(i) => if i < 0 {
            0
        } else {
            whole_limit(i as u64)
        },
        JsonNumber::Real { bits } => real_limit(bits),
    }
}

} // verus!
