//! The arithmetic/logic unit: pure functions on bytes that also derive the
//! four-flag byte. The flag register keeps Z in bit 7, N in bit 6, H in bit 5
//! and C in bit 4; its low nibble is always zero.

use crate::bits::lemma_u16_bytes;
use crate::bits::lemma_u8_masks;
use vstd::prelude::*;

verus! {

/// A flag byte assembled from the four flag bits.
pub open spec fn spec_flags(z: bool, n: bool, h: bool, c: bool) -> u8 {
    (if z {
        0x80u8
    } else {
        0
    }) | (if n {
        0x40u8
    } else {
        0
    }) | (if h {
        0x20u8
    } else {
        0
    }) | (if c {
        0x10u8
    } else {
        0
    })
}

/// Each flag bit of an assembled flag byte can be read back, and the low
/// nibble of an assembled flag byte is zero.
pub proof fn lemma_flags_bits(z: bool, n: bool, h: bool, c: bool)
    by (bit_vector)
    ensures
        (spec_flags(z, n, h, c) & 0x80 != 0) <==> z,
        (spec_flags(z, n, h, c) & 0x40 != 0) <==> n,
        (spec_flags(z, n, h, c) & 0x20 != 0) <==> h,
        (spec_flags(z, n, h, c) & 0x10 != 0) <==> c,
        spec_flags(z, n, h, c) & 0x0F == 0,
        spec_flags(z, n, h, c) & 0xE0 == spec_flags(z, n, h, false),
        spec_flags(z, n, h, c) & 0x10 == spec_flags(false, false, false, c),
        spec_flags(z, n, h, c) == 0x80 * (z as u8) + 0x40 * (n as u8) + 0x20 * (h as u8) + 0x10
            * (c as u8),
{
}

/// The result byte of an addition with carry-in: the sum modulo 256.
pub open spec fn spec_add3_result(v1: u8, v2: u8, v3: u8) -> u8 {
    ((v1 + v2 + v3) % 256) as u8
}

/// The flag byte of an addition with carry-in: Z from the truncated sum, N
/// clear, H on carry out of bit 3, C on carry out of bit 7.
pub open spec fn spec_add3_flags(v1: u8, v2: u8, v3: u8) -> u8 {
    spec_flags(
        spec_add3_result(v1, v2, v3) == 0,
        false,
        (v1 & 0x0F) + (v2 & 0x0F) + (v3 & 0x0F) > 0x0F,
        v1 + v2 + v3 > 0xFF,
    )
}

/// The result byte of a subtraction with borrow-in: the difference modulo 256.
pub open spec fn spec_sub3_result(v1: u8, v2: u8, v3: u8) -> u8 {
    ((v1 - v2 - v3) % 256) as u8
}

/// The flag byte of a subtraction with borrow-in: Z from the truncated
/// difference, N set, H on borrow from bit 4, C on borrow out of bit 7.
pub open spec fn spec_sub3_flags(v1: u8, v2: u8, v3: u8) -> u8 {
    spec_flags(
        spec_sub3_result(v1, v2, v3) == 0,
        true,
        (v1 & 0x0F) < (v2 & 0x0F) + (v3 & 0x0F),
        v1 < v2 + v3,
    )
}

/// The adjustment byte that a decimal adjust adds or subtracts: 0x06 and 0x60
/// follow the half-carry and carry flags, and in add mode also the digit
/// values themselves.
pub open spec fn spec_daa_adjust(v: u8, flags: u8) -> u8 {
    let base = (if flags & 0x20 != 0 {
        0x06u8
    } else {
        0
    }) | (if flags & 0x10 != 0 {
        0x60u8
    } else {
        0
    });
    if flags & 0x40 == 0 {
        let low = if (v & 0x0F) > 0x09 {
            base | 0x06
        } else {
            base
        };
        if v > 0x99 {
            low | 0x60
        } else {
            low
        }
    } else {
        base
    }
}

/// Decimal adjust: applies the adjustment in the direction given by the N
/// flag, sets C when a high-digit adjustment was applied, and clears H.
pub open spec fn spec_daa(v: u8, flags: u8) -> (u8, u8) {
    let adj = spec_daa_adjust(v, flags);
    let neg = flags & 0x40 != 0;
    let pair = if neg {
        (spec_sub3_result(v, adj, 0), spec_sub3_flags(v, adj, 0))
    } else {
        (spec_add3_result(v, adj, 0), spec_add3_flags(v, adj, 0))
    };
    let with_carry = if adj >= 0x60 {
        pair.1 | 0x10
    } else {
        pair.1
    };
    (pair.0, with_carry & 0xDF)
}

/// A 16-bit value plus a sign-extended 8-bit offset, modulo 2^16.
pub open spec fn spec_add_16_signed(val: u16, offset: u8) -> u16 {
    ((val + spec_sign_extend(offset)) % 0x10000) as u16
}

/// The sign extension of an 8-bit two's-complement value.
pub open spec fn spec_sign_extend(e: u8) -> int {
    if e < 0x80 {
        e as int
    } else {
        e as int - 256
    }
}


/// Rotate left through carry-in: result and flags.
pub open spec fn spec_rl(v: u8, carry: u8) -> (u8, u8) {
    let r = (((v & 0x7F) << 1) & 0xFE) | carry;
    (r, spec_flags(r == 0, false, false, v & 0x80 != 0))
}

/// Rotate left circular: result and flags.
pub open spec fn spec_rlc(v: u8) -> (u8, u8) {
    let r = (((v & 0x7F) << 1) & 0xFE) | (v >> 7);
    (r, spec_flags(r == 0, false, false, v & 0x80 != 0))
}

/// Shift left arithmetic: result and flags.
pub open spec fn spec_sla(v: u8) -> (u8, u8) {
    let r = ((v & 0x7F) << 1) & 0xFE;
    (r, spec_flags(r == 0, false, false, v & 0x80 != 0))
}

/// Rotate right through carry-in: result and flags.
pub open spec fn spec_rr(v: u8, carry: u8) -> (u8, u8) {
    let r = (((v & 0xFE) >> 1) & 0x7F) | (carry << 7);
    (r, spec_flags(r == 0, false, false, v & 0x01 != 0))
}

/// Rotate right circular: result and flags.
pub open spec fn spec_rrc(v: u8) -> (u8, u8) {
    let r = (((v & 0xFE) >> 1) & 0x7F) | ((v & 0x01) << 7);
    (r, spec_flags(r == 0, false, false, v & 0x01 != 0))
}

/// Shift right arithmetic (sign-preserving): result and flags.
pub open spec fn spec_sra(v: u8) -> (u8, u8) {
    let r = (((v & 0xFE) >> 1) & 0x7F) | (v & 0x80);
    (r, spec_flags(r == 0, false, false, v & 0x01 != 0))
}

/// Shift right logical: result and flags.
pub open spec fn spec_srl(v: u8) -> (u8, u8) {
    let r = ((v & 0xFE) >> 1) & 0x7F;
    (r, spec_flags(r == 0, false, false, v & 0x01 != 0))
}

/// Nibble swap: result and flags.
pub open spec fn spec_swap_pair(v: u8) -> (u8, u8) {
    (spec_swap(v), spec_flags(spec_swap(v) == 0, false, false, false))
}

pub struct ALU {}

impl ALU {
    /// Builds the flag byte from the four flag bits.
    fn flags_byte(z: bool, n: bool, h: bool, c: bool) -> (r: u8)
        ensures
            r == spec_flags(z, n, h, c),
    {
        (if z {
            0x80u8
        } else {
            0
        }) | (if n {
            0x40u8
        } else {
            0
        }) | (if h {
            0x20u8
        } else {
            0
        }) | (if c {
            0x10u8
        } else {
            0
        })
    }

    /// The two's complement of a byte: its additive inverse modulo 256.
    pub fn twos_complement(v: u8) -> (r: u8)
        ensures
            r as int == (256 - v) % 256,
            v + r == if v == 0 {
                0int
            } else {
                256int
            },
    {
        proof {
            lemma_u8_masks();
            lemma_u16_bytes();
        }
        let v_inv = !v;
        let res = (v_inv as u16) + 1;
        (res & 0x00FF) as u8
    }

    /// Adds two bytes and a carry-in; returns the sum modulo 256 and the
    /// flag byte with Z, H and C derived from the addition and N cleared.
    pub fn add3(v1: u8, v2: u8, v3: u8) -> (r: (u8, u8))
        ensures
            r.0 == spec_add3_result(v1, v2, v3),
            r.1 == spec_add3_flags(v1, v2, v3),
            (r.1 & 0x10 != 0) <==> v1 + v2 + v3 >= 0x100,
            (r.1 & 0x20 != 0) <==> (v1 & 0x0F) + (v2 & 0x0F) + (v3 & 0x0F) >= 0x10,
            (r.1 & 0x80 != 0) <==> r.0 == 0,
            r.1 & 0x4F == 0,
            r.1 & 0x0F == 0,
    {
        proof {
            lemma_u8_masks();
        }
        let sum: u16 = (v1 as u16) + (v2 as u16) + (v3 as u16);
        let half_sum: u8 = (v1 & 0x0F) + (v2 & 0x0F) + (v3 & 0x0F);
        let sum_u8: u8 = (sum % 0x100) as u8;
        let flags = Self::flags_byte(sum_u8 == 0, false, half_sum > 0x0F, sum > 0xFF);
        proof {
            lemma_flags_bits(sum_u8 == 0, false, half_sum > 0x0F, sum > 0xFF);
            assert(spec_flags(sum_u8 == 0, false, half_sum > 0x0F, sum > 0xFF) & 0x4F == 0)
                by (bit_vector);
        }
        (sum_u8, flags)
    }

    /// Adds two bytes; the flag byte has Z, H and C from the addition and N
    /// cleared. The carry flag is set exactly when the true sum reaches 256,
    /// and the half-carry flag exactly when the low nibbles sum to 16 or more.
    pub fn add(v1: u8, v2: u8) -> (r: (u8, u8))
        ensures
            r.0 == spec_add3_result(v1, v2, 0),
            r.1 == spec_add3_flags(v1, v2, 0),
            (r.1 & 0x10 != 0) <==> v1 + v2 >= 256,
            (r.1 & 0x20 != 0) <==> (v1 & 0x0F) + (v2 & 0x0F) >= 16,
            (r.1 & 0x80 != 0) <==> r.0 == 0,
            r.1 & 0x4F == 0,
            r.1 & 0x0F == 0,
    {
        proof {
            lemma_u8_masks();
        }
        Self::add3(v1, v2, 0)
    }

    /// Subtracts a byte and a borrow-in from a byte; returns the difference
    /// modulo 256 and the flag byte with N set, Z from the result, H on a
    /// borrow from bit 4 and C on a full borrow.
    pub fn sub3(v1: u8, v2: u8, v3: u8) -> (r: (u8, u8))
        ensures
            r.0 == spec_sub3_result(v1, v2, v3),
            r.1 == spec_sub3_flags(v1, v2, v3),
            (r.1 & 0x10 != 0) <==> v1 < v2 + v3,
            (r.1 & 0x20 != 0) <==> (v1 & 0x0F) < (v2 & 0x0F) + (v3 & 0x0F),
            (r.1 & 0x80 != 0) <==> r.0 == 0,
            (r.1 & 0x40 != 0) && (r.1 & 0x0F == 0),
    {
        proof {
            lemma_u8_masks();
        }
        let wide: u16 = 0x200 + (v1 as u16) - (v2 as u16) - (v3 as u16);
        let diff: u8 = (wide % 0x100) as u8;
        assert(diff as int == (v1 - v2 - v3) % 256) by {
            assert((0x200 + v1 - v2 - v3) % 0x100 == (v1 - v2 - v3) % 256) by (nonlinear_arith);
        };
        let half_borrow = (v1 & 0x0F) < (v2 & 0x0F) + (v3 & 0x0F);
        let borrow = (v1 as u16) < (v2 as u16) + (v3 as u16);
        let flags = Self::flags_byte(diff == 0, true, half_borrow, borrow);
        proof {
            lemma_flags_bits(diff == 0, true, half_borrow, borrow);
        }
        (diff, flags)
    }

    /// Subtracts a byte from a byte; flag byte as for `sub3` with no borrow-in.
    pub fn sub(v1: u8, v2: u8) -> (r: (u8, u8))
        ensures
            r.0 == spec_sub3_result(v1, v2, 0),
            r.1 == spec_sub3_flags(v1, v2, 0),
            (r.1 & 0x10 != 0) <==> v1 < v2,
            (r.1 & 0x20 != 0) <==> (v1 & 0x0F) < (v2 & 0x0F),
            (r.1 & 0x80 != 0) <==> r.0 == 0,
            (r.1 & 0x40 != 0) && (r.1 & 0x0F == 0),
    {
        proof {
            lemma_u8_masks();
        }
        Self::sub3(v1, v2, 0)
    }

    /// Adds one; the returned flag byte holds Z and H from the addition, with
    /// N and C clear so that the caller can keep its own carry flag.
    pub fn increment(v: u8) -> (r: (u8, u8))
        ensures
            r.0 == spec_add3_result(v, 1, 0),
            r.1 == spec_add3_flags(v, 1, 0) & 0xE0,
            r.1 & 0x10 == 0 && r.1 & 0x0F == 0,
    {
        let (res, flags) = Self::add(v, 1);
        proof {
            lemma_u8_masks();
            let z = spec_add3_result(v, 1, 0) == 0;
            let h = (v & 0x0F) + (1u8 & 0x0F) + (0u8 & 0x0F) > 0x0F;
            let c = v + 1 > 0xFF;
            lemma_flags_bits(z, false, h, c);
            assert(spec_flags(z, false, h, c) & 0xE0 & 0x10 == 0 && spec_flags(z, false, h, c)
                & 0xE0 & 0x0F == 0) by (bit_vector);
        }
        (res, flags & 0b1110_0000)
    }

    /// Subtracts one; the returned flag byte holds Z, N and H from the
    /// subtraction, with C clear so that the caller can keep its own carry.
    pub fn decrement(v: u8) -> (r: (u8, u8))
        ensures
            r.0 == spec_sub3_result(v, 1, 0),
            r.1 == spec_sub3_flags(v, 1, 0) & 0xE0,
            r.1 & 0x10 == 0 && r.1 & 0x0F == 0,
    {
        let (res, flags) = Self::sub(v, 1);
        proof {
            lemma_u8_masks();
            let z = spec_sub3_result(v, 1, 0) == 0;
            let h = (v & 0x0F) < (1u8 & 0x0F) + (0u8 & 0x0F);
            let c = v < 1;
            lemma_flags_bits(z, true, h, c);
            assert(spec_flags(z, true, h, c) & 0xE0 & 0x10 == 0 && spec_flags(z, true, h, c)
                & 0xE0 & 0x0F == 0) by (bit_vector);
        }
        (res, flags & 0b1110_0000)
    }

    /// Bitwise AND; Z from the result, H set, N and C clear.
    pub fn and(v1: u8, v2: u8) -> (r: (u8, u8))
        ensures
            r.0 == v1 & v2,
            r.1 == spec_flags(v1 & v2 == 0, false, true, false),
            (r.1 & 0x80 != 0) <==> r.0 == 0,
            r.1 & 0x5F == 0,
    {
        let res = v1 & v2;
        let flags = Self::flags_byte(res == 0, false, true, false);
        proof {
            lemma_flags_bits(res == 0, false, true, false);
            assert(spec_flags(res == 0, false, true, false) & 0x5F == 0) by (bit_vector);
        }
        (res, flags)
    }

    /// Bitwise OR; Z from the result, N, H and C clear.
    pub fn or(v1: u8, v2: u8) -> (r: (u8, u8))
        ensures
            r.0 == v1 | v2,
            r.1 == spec_flags(v1 | v2 == 0, false, false, false),
            (r.1 & 0x80 != 0) <==> r.0 == 0,
            r.1 & 0x7F == 0,
    {
        let res = v1 | v2;
        let flags = Self::flags_byte(res == 0, false, false, false);
        proof {
            lemma_flags_bits(res == 0, false, false, false);
            assert(spec_flags(res == 0, false, false, false) & 0x7F == 0) by (bit_vector);
        }
        (res, flags)
    }

    /// Bitwise XOR; Z from the result, N, H and C clear. XORing a value with
    /// itself yields zero with only the Z flag set.
    pub fn xor(v1: u8, v2: u8) -> (r: (u8, u8))
        ensures
            r.0 == (v1 ^ v2),
            r.1 == spec_flags((v1 ^ v2) == 0, false, false, false),
            (r.1 & 0x80 != 0) <==> r.0 == 0,
            r.1 & 0x7F == 0,
            v1 == v2 ==> r.0 == 0 && r.1 == 0x80,
    {
        let res = v1 ^ v2;
        let flags = Self::flags_byte(res == 0, false, false, false);
        proof {
            lemma_flags_bits(res == 0, false, false, false);
            assert(spec_flags(res == 0, false, false, false) & 0x7F == 0 && (v1 ^ v1) == 0)
                by (bit_vector);
        }
        (res, flags)
    }

    /// Binary-coded decimal adjust of the accumulator after an addition or a
    /// subtraction. Z follows the result, N is kept, H is cleared, and C is
    /// set exactly when a high-digit adjustment was applied or the adjustment
    /// itself carried or borrowed.
    pub fn decimal_adjust(v: u8, flags: u8) -> (r: (u8, u8))
        ensures
            r == spec_daa(v, flags),
            r.1 & 0x20 == 0,
            r.1 & 0x40 == flags & 0x40,
            (r.1 & 0x80 != 0) <==> r.0 == 0,
            r.1 & 0x0F == 0,
            flags & 0x40 == 0 ==> r.0 as int == (v + spec_daa_adjust(v, flags)) % 256,
            flags & 0x40 != 0 ==> r.0 as int == (v - spec_daa_adjust(v, flags)) % 256,
    {
        let neg = (flags & 0x40) > 0;
        let half_carry = (flags & 0x20) > 0;
        let carry = (flags & 0x10) > 0;
        let mut adj: u8 = if half_carry {
            0x06
        } else {
            0x00
        } | if carry {
            0x60
        } else {
            0x00
        };
        if !neg {
            if (v & 0x0F) > 0x09 {
                adj |= 0x06;
            }
            if v > 0x99 {
                adj |= 0x60;
            }
        }
        let (res, raw) = if neg {
            Self::sub(v, adj)
        } else {
            Self::add(v, adj)
        };
        let with_carry = if adj >= 0x60 {
            raw | 0x10
        } else {
            raw
        };
        proof {
            lemma_daa_bits(raw);
            lemma_daa_bits(flags);
        }
        (res, with_carry & 0b1101_1111)
    }

    /// Rotates left through the carry-in bit: the result takes the low seven
    /// bits shifted up with the carry-in as bit 0, C takes the old bit 7,
    /// Z follows the result, N and H are clear.
    pub fn rotate_left(v: u8, carry: u8) -> (r: (u8, u8))
        ensures
            r == spec_rl(v, carry),
            r.1 & 0x0F == 0,
            r.0 == ((((v & 0x7F) << 1) & 0xFE) | carry),
            r.1 == spec_flags(r.0 == 0, false, false, v & 0x80 != 0),
            (r.1 & 0x10 != 0) <==> v >= 0x80,
            carry <= 1 ==> r.0 as int == 2 * (v % 128) + carry,
    {
        proof {
            lemma_u8_masks();
            assert(carry <= 1 ==> ((((v & 0x7F) << 1) & 0xFE) | carry) == 2 * (v % 128) + carry)
                by (bit_vector);
        }
        let res = (((v & 0x7F) << 1) & 0xFE) | carry;
        let flags = Self::flags_byte(res == 0, false, false, v & 0x80 > 0);
        proof {
            lemma_flags_bits(res == 0, false, false, v & 0x80 != 0);
        }
        (res, flags)
    }

    /// Shifts left arithmetically: bit 0 becomes zero, C takes the old bit 7.
    pub fn shift_left_arithmetic(v: u8) -> (r: (u8, u8))
        ensures
            r == spec_sla(v),
            r.1 & 0x0F == 0,
            r.0 == (((v & 0x7F) << 1) & 0xFE),
            r.0 as int == 2 * (v % 128),
            r.1 == spec_flags(r.0 == 0, false, false, v & 0x80 != 0),
            (r.1 & 0x10 != 0) <==> v >= 0x80,
    {
        proof {
            lemma_u8_masks();
            assert((((v & 0x7F) << 1) & 0xFE) == 2 * (v % 128)) by (bit_vector);
        }
        let res = ((v & 0x7F) << 1) & 0xFE;
        let flags = Self::flags_byte(res == 0, false, false, v & 0x80 > 0);
        proof {
            lemma_flags_bits(res == 0, false, false, v & 0x80 != 0);
        }
        (res, flags)
    }

    /// Rotates left circularly: the old bit 7 becomes both bit 0 and C.
    pub fn rotate_left_circular(v: u8) -> (r: (u8, u8))
        ensures
            r == spec_rlc(v),
            r.1 & 0x0F == 0,
            r.0 as int == 2 * (v % 128) + v / 128,
            r.1 == spec_flags(r.0 == 0, false, false, v & 0x80 != 0),
            (r.1 & 0x10 != 0) <==> v >= 0x80,
            r.0 == 0 <==> v == 0,
    {
        proof {
            lemma_u8_masks();
            assert(((((v & 0x7F) << 1) & 0xFE) | (v >> 7)) == 2 * (v % 128) + v / 128)
                by (bit_vector);
        }
        let res = (((v & 0x7F) << 1) & 0xFE) | (v >> 7);
        let flags = Self::flags_byte(res == 0, false, false, v & 0x80 > 0);
        proof {
            lemma_flags_bits(res == 0, false, false, v & 0x80 != 0);
        }
        (res, flags)
    }

    /// Rotates right through the carry-in bit: the result takes the high
    /// seven bits shifted down with the carry-in as bit 7, C takes the old
    /// bit 0.
    pub fn rotate_right(v: u8, carry: u8) -> (r: (u8, u8))
        ensures
            r == spec_rr(v, carry),
            r.1 & 0x0F == 0,
            r.0 == ((((v & 0xFE) >> 1) & 0x7F) | (carry << 7)),
            r.1 == spec_flags(r.0 == 0, false, false, v & 0x01 != 0),
            (r.1 & 0x10 != 0) <==> v % 2 == 1,
            carry <= 1 ==> r.0 as int == v / 2 + 128 * carry,
    {
        proof {
            lemma_u8_masks();
            assert(carry <= 1 ==> ((((v & 0xFE) >> 1) & 0x7F) | (carry << 7)) == v / 2 + 128
                * carry) by (bit_vector);
        }
        let res = (((v & 0xFE) >> 1) & 0x7F) | (carry << 7);
        let flags = Self::flags_byte(res == 0, false, false, v & 0x01 > 0);
        proof {
            lemma_flags_bits(res == 0, false, false, v & 0x01 != 0);
        }
        (res, flags)
    }

    /// Shifts right arithmetically: bit 7 is kept (sign-preserving), C takes
    /// the old bit 0.
    pub fn shift_right_arithmetic(v: u8) -> (r: (u8, u8))
        ensures
            r == spec_sra(v),
            r.1 & 0x0F == 0,
            r.0 as int == v / 2 + 128 * (v / 128),
            r.1 == spec_flags(r.0 == 0, false, false, v & 0x01 != 0),
            (r.1 & 0x10 != 0) <==> v % 2 == 1,
    {
        proof {
            lemma_u8_masks();
            assert(((((v & 0xFE) >> 1) & 0x7F) | (v & 0x80)) == v / 2 + 128 * (v / 128))
                by (bit_vector);
        }
        let res = (((v & 0xFE) >> 1) & 0x7F) | (v & 0x80);
        let flags = Self::flags_byte(res == 0, false, false, v & 0x01 > 0);
        proof {
            lemma_flags_bits(res == 0, false, false, v & 0x01 != 0);
        }
        (res, flags)
    }

    /// Shifts right logically: bit 7 becomes zero, C takes the old bit 0.
    pub fn shift_right_logical(v: u8) -> (r: (u8, u8))
        ensures
            r == spec_srl(v),
            r.1 & 0x0F == 0,
            r.0 as int == v / 2,
            r.1 == spec_flags(r.0 == 0, false, false, v & 0x01 != 0),
            (r.1 & 0x10 != 0) <==> v % 2 == 1,
    {
        proof {
            lemma_u8_masks();
            assert((((v & 0xFE) >> 1) & 0x7F) == v / 2) by (bit_vector);
        }
        let res = ((v & 0xFE) >> 1) & 0x7F;
        let flags = Self::flags_byte(res == 0, false, false, v & 0x01 > 0);
        proof {
            lemma_flags_bits(res == 0, false, false, v & 0x01 != 0);
        }
        (res, flags)
    }

    /// Rotates right circularly: the old bit 0 becomes both bit 7 and C.
    pub fn rotate_right_circular(v: u8) -> (r: (u8, u8))
        ensures
            r == spec_rrc(v),
            r.1 & 0x0F == 0,
            r.0 as int == v / 2 + 128 * (v % 2),
            r.1 == spec_flags(r.0 == 0, false, false, v & 0x01 != 0),
            (r.1 & 0x10 != 0) <==> v % 2 == 1,
            r.0 == 0 <==> v == 0,
    {
        proof {
            lemma_u8_masks();
            assert(((((v & 0xFE) >> 1) & 0x7F) | ((v & 0x01) << 7)) == v / 2 + 128 * (v % 2))
                by (bit_vector);
        }
        let res = (((v & 0xFE) >> 1) & 0x7F) | ((v & 0x01) << 7);
        let flags = Self::flags_byte(res == 0, false, false, v & 0x01 > 0);
        proof {
            lemma_flags_bits(res == 0, false, false, v & 0x01 != 0);
        }
        (res, flags)
    }

    /// Swaps the two nibbles of a byte; Z follows the result, the other
    /// flags are clear.
    pub fn swap_nibbles(v: u8) -> (r: (u8, u8))
        ensures
            r == spec_swap_pair(v),
            r.1 & 0x0F == 0,
            r.0 == spec_swap(v),
            r.0 as int == 16 * (v % 16) + v / 16,
            r.1 == spec_flags(v == 0, false, false, false),
            r.0 == 0 <==> v == 0,
    {
        proof {
            lemma_u8_masks();
            assert((((v & 0x0F) << 4) | ((v & 0xF0) >> 4)) == 16 * (v % 16) + v / 16)
                by (bit_vector);
        }
        let res = ((v & 0x0F) << 4) | ((v & 0xF0) >> 4);
        let flags = Self::flags_byte(res == 0, false, false, false);
        proof {
            lemma_flags_bits(res == 0, false, false, false);
        }
        (res, flags)
    }

    /// Tests one bit of a byte and returns a flag byte: Z set exactly when
    /// the bit is zero, H always set, N clear, C left to the caller.
    pub fn test_bit(v: u8, bit: u8) -> (r: u8)
        requires
            bit < 8,
        ensures
            r == spec_test_bit(v, bit),
            (r & 0x80 != 0) <==> ((v >> bit) & 0x01) == 0,
            (r & 0x20 != 0) && (r & 0x40 == 0) && (r & 0x1F == 0),
    {
        proof {
            assert((0xA0u8 & 0x80 != 0) && (0x20u8 & 0x80 == 0) && (0xA0u8 & 0x20 != 0) && (0x20u8
                & 0x20 != 0) && (0xA0u8 & 0x40 == 0) && (0x20u8 & 0x40 == 0) && (0xA0u8 & 0x1F == 0)
                && (0x20u8 & 0x1F == 0) && ((v >> bit) & 0x01) <= 1) by (bit_vector);
        }
        let b = (v >> bit) & 0x01;
        if b > 0 {
            0x20
        } else {
            0xA0
        }
    }

    /// Sets one bit of a byte; the other bits are unchanged.
    pub fn set_bit(v: u8, bit: u8) -> (r: u8)
        requires
            bit < 8,
        ensures
            r == (v | (1u8 << bit)),
            ((r >> bit) & 0x01) == 1,
            forall|i: u8| i < 8 && i != bit ==> ((r >> i) & 0x01) == ((v >> i) & 0x01),
    {
        proof {
            lemma_set_bit_bits(v, bit);
        }
        let b = 1u8 << bit;
        v | b
    }

    /// Clears one bit of a byte; the other bits are unchanged.
    pub fn reset_bit(v: u8, bit: u8) -> (r: u8)
        requires
            bit < 8,
        ensures
            r == (v & !(1u8 << bit)),
            ((r >> bit) & 0x01) == 0,
            forall|i: u8| i < 8 && i != bit ==> ((r >> i) & 0x01) == ((v >> i) & 0x01),
    {
        proof {
            lemma_reset_bit_bits(v, bit);
        }
        let b = !(1u8 << bit);
        v & b
    }

    /// Adds a signed 8-bit offset to a 16-bit value, modulo 2^16. Flags are
    /// not derived here; the instructions that need them take the flags of
    /// the low-byte addition.
    pub fn add_16_signed(val: u16, offset: u8) -> (r: u16)
        ensures
            r == spec_add_16_signed(val, offset),
            r as int == (val + spec_sign_extend(offset)) % 0x10000,
    {
        proof {
            lemma_u8_masks();
            lemma_u16_bytes();
            crate::bits::lemma_u16_compose();
        }
        let lsb = (val & 0x00FF) as u8;
        let msb = ((val & 0xFF00) >> 8) as u8;
        let (lsb, flags) = ALU::add(lsb, offset);
        let carry = (flags & 0x10) > 0;
        proof {
            assert((flags & 0x10 != 0) == (flags & 0x10 > 0)) by (bit_vector);
        }
        let (msb, _) = if carry && (offset & 0x80) == 0 {
            ALU::add(msb, 1)
        } else if !carry && (offset & 0x80) > 0 {
            ALU::sub(msb, 1)
        } else {
            (msb, 0)
        };
        let r = ((msb as u16) << 8) | (lsb as u16);
        proof {
            lemma_add_16_signed_cases(val, offset, r);
        }
        r
    }
}

/// The result byte of a nibble swap.
pub open spec fn spec_swap(v: u8) -> u8 {
    ((v & 0x0F) << 4) | ((v & 0xF0) >> 4)
}

/// The flag byte of a bit test: 0x20 when the bit is set, 0xA0 when it is
/// zero.
pub open spec fn spec_test_bit(v: u8, bit: u8) -> u8 {
    if (v >> bit) & 0x01 > 0 {
        0x20
    } else {
        0xA0
    }
}

/// Swapping nibbles twice restores the byte; the flag byte of the second
/// swap is 0x80 for zero and 0x00 for every other byte.
pub proof fn lemma_swap_self_inverse(v: u8)
    ensures
        spec_swap(spec_swap(v)) == v,
        spec_flags(spec_swap(v) == 0, false, false, false) == if v == 0 {
            0x80u8
        } else {
            0u8
        },
{
    assert(spec_swap(spec_swap(v)) == v) by (bit_vector);
    assert(spec_swap(v) == 0 <==> v == 0) by (bit_vector);
    lemma_flags_bits(spec_swap(v) == 0, false, false, false);
}

/// A byte whose low nibble is zero is unchanged by masking with 0xF0.
pub proof fn lemma_flags_f0(f: u8)
    by (bit_vector)
    ensures
        f & 0x0F == 0 ==> f & 0xF0 == f,
{
}

/// Bit-extraction facts about the carry and half-carry rewriting that the
/// decimal adjust performs on a flag byte.
proof fn lemma_daa_bits(f: u8)
    by (bit_vector)
    ensures
        ((f | 0x10) & 0xDF) & 0x20 == 0,
        (f & 0xDF) & 0x20 == 0,
        ((f | 0x10) & 0xDF) & 0x40 == f & 0x40,
        (f & 0xDF) & 0x40 == f & 0x40,
        ((f | 0x10) & 0xDF) & 0x80 == f & 0x80,
        (f & 0xDF) & 0x80 == f & 0x80,
        ((f | 0x10) & 0xDF) & 0x10 == 0x10,
        (f & 0xDF) & 0x10 == f & 0x10,
        f & 0x0F == 0 ==> ((f | 0x10) & 0xDF) & 0x0F == 0 && (f & 0xDF) & 0x0F == 0,
        f & 0x40 == 0 || f & 0x40 == 0x40,
        f & 0x80 == 0 || f & 0x80 == 0x80,
        f & 0x4F == 0 ==> f & 0x40 == 0 && f & 0x0F == 0,
{
}

/// Setting a bit raises exactly that bit.
proof fn lemma_set_bit_bits(v: u8, bit: u8)
    by (bit_vector)
    requires
        bit < 8,
    ensures
        (((v | (1u8 << bit)) >> bit) & 0x01) == 1,
        forall|i: u8|
            i < 8 && i != bit ==> (((v | (1u8 << bit)) >> i) & 0x01) == ((v >> i) & 0x01),
{
}

/// Clearing a bit lowers exactly that bit.
proof fn lemma_reset_bit_bits(v: u8, bit: u8)
    by (bit_vector)
    requires
        bit < 8,
    ensures
        (((v & !(1u8 << bit)) >> bit) & 0x01) == 0,
        forall|i: u8|
            i < 8 && i != bit ==> (((v & !(1u8 << bit)) >> i) & 0x01) == ((v >> i) & 0x01),
{
}

/// The high-byte fixup of the signed 16-bit addition agrees with the sign
/// extension of the offset, modulo 2^16.
proof fn lemma_add_16_signed_cases(val: u16, offset: u8, r: u16)
    requires
        ({
            let l = val % 256;
            let m = val / 256;
            let l2 = (l + offset) % 256;
            let c = l + offset > 0xFF;
            let m2 = if c && offset < 0x80 {
                (m + 1) % 256
            } else if !c && offset >= 0x80 {
                (m - 1) % 256
            } else {
                m as int
            };
            r == 256 * m2 + l2
        }),
    ensures
        r as int == (val + spec_sign_extend(offset)) % 0x10000,
{
    let l = val % 256;
    let m = val / 256;
    let sx = spec_sign_extend(offset);
    vstd::arithmetic::div_mod::lemma_fundamental_div_mod(val as int, 256);
    if offset < 0x80 {
        if l + offset > 0xFF {
            if m == 255 {
                assert(r == val + sx - 0x10000);
            } else {
                assert(r == val + sx);
            }
        } else {
            assert(r == val + sx);
        }
    } else {
        if l + offset > 0xFF {
            assert(r == val + sx);
        } else {
            if m == 0 {
                assert(r == val + sx + 0x10000);
            } else {
                assert(r == val + sx);
            }
        }
    }
}

} // verus!
