use crate::flags::Flags;
use vstd::prelude::*;

verus! {

/// The sign extension of a byte to a word, as the two's-complement offset
/// arithmetic of JR and ADD SP reads it.
pub open spec fn spec_sign_extend(e: u8) -> u16 {
    if e < 128 {
        e as u16
    } else {
        (e + 0xFF00) as u16
    }
}

pub fn sign_extend(e: u8) -> (r: u16)
    ensures
        r == spec_sign_extend(e),
{
    if e < 128 {
        e as u16
    } else {
        e as u16 + 0xFF00
    }
}

/// A word plus a signed byte offset, wrapping around the address space.
pub fn offset_word(base: u16, e: u8) -> (r: u16)
    ensures
        r == (base + spec_sign_extend(e)) % 0x10000,
{
    (((base as u32) + (sign_extend(e) as u32)) % 0x10000) as u16
}

/// ADD A,x: zero from the result, N clear, half-carry from the low
/// nibbles, carry from the full byte sum.
pub fn alu_add(a: u8, x: u8) -> (r: (u8, Flags))
    ensures
        r.0 == (a + x) % 256,
        r.1 == (Flags {
            zero: (a + x) % 256 == 0,
            negative: false,
            half_carry: a % 16 + x % 16 > 15,
            carry: a + x > 255,
        }),
{
    let sum = a as u16 + x as u16;
    let res = (sum % 256) as u8;
    (
        res,
        Flags {
            zero: res == 0,
            negative: false,
            half_carry: a % 16 + x % 16 > 15,
            carry: sum > 255,
        },
    )
}

/// ADC A,x: as ADD, with the incoming carry added to the sum and to the
/// nibble test.
pub fn alu_adc(a: u8, x: u8, carry_in: bool) -> (r: (u8, Flags))
    ensures
        ({
            let cin: int = if carry_in {
                1
            } else {
                0
            };
            &&& r.0 == (a + x + cin) % 256
            &&& r.1 == (Flags {
                zero: (a + x + cin) % 256 == 0,
                negative: false,
                half_carry: a % 16 + x % 16 + cin > 15,
                carry: a + x + cin > 255,
            })
        }),
{
    let cin: u16 = if carry_in {
        1
    } else {
        0
    };
    let sum = a as u16 + x as u16 + cin;
    let res = (sum % 256) as u8;
    (
        res,
        Flags {
            zero: res == 0,
            negative: false,
            half_carry: a as u16 % 16 + x as u16 % 16 + cin > 15,
            carry: sum > 255,
        },
    )
}

/// SUB A,x and CP x: zero from the result, N set, half-carry when the low
/// nibble of x is the larger, carry when x is the larger.
pub fn alu_sub(a: u8, x: u8) -> (r: (u8, Flags))
    ensures
        r.0 == (a + 256 - x) % 256,
        r.1 == (Flags {
            zero: a == x,
            negative: true,
            half_carry: a % 16 < x % 16,
            carry: a < x,
        }),
{
    let res = ((a as u16 + 256 - x as u16) % 256) as u8;
    (
        res,
        Flags { zero: a == x, negative: true, half_carry: a % 16 < x % 16, carry: a < x },
    )
}

/// SBC A,x: as SUB, with the incoming carry joining the subtrahend.
pub fn alu_sbc(a: u8, x: u8, carry_in: bool) -> (r: (u8, Flags))
    ensures
        ({
            let cin: int = if carry_in {
                1
            } else {
                0
            };
            &&& r.0 == (a + 512 - x - cin) % 256
            &&& r.1 == (Flags {
                zero: (a + 512 - x - cin) % 256 == 0,
                negative: true,
                half_carry: a % 16 < x % 16 + cin,
                carry: a < x + cin,
            })
        }),
{
    let cin: u16 = if carry_in {
        1
    } else {
        0
    };
    let res = ((a as u16 + 512 - x as u16 - cin) % 256) as u8;
    (
        res,
        Flags {
            zero: res == 0,
            negative: true,
            half_carry: ((a % 16) as u16) < ((x % 16) as u16 + cin),
            carry: (a as u16) < (x as u16 + cin),
        },
    )
}

/// AND A,x: N and C clear, H set, zero from the result.
pub fn alu_and(a: u8, x: u8) -> (r: (u8, Flags))
    ensures
        r.0 == a & x,
        r.1 == (Flags { zero: (a & x) == 0, negative: false, half_carry: true, carry: false }),
{
    let res = a & x;
    (res, Flags { zero: res == 0, negative: false, half_carry: true, carry: false })
}

/// XOR A,x: N, H and C clear, zero from the result.
pub fn alu_xor(a: u8, x: u8) -> (r: (u8, Flags))
    ensures
        r.0 == a ^ x,
        r.1 == (Flags { zero: (a ^ x) == 0, negative: false, half_carry: false, carry: false }),
{
    let res = a ^ x;
    (res, Flags { zero: res == 0, negative: false, half_carry: false, carry: false })
}

/// OR A,x: N, H and C clear, zero from the result.
pub fn alu_or(a: u8, x: u8) -> (r: (u8, Flags))
    ensures
        r.0 == a | x,
        r.1 == (Flags { zero: (a | x) == 0, negative: false, half_carry: false, carry: false }),
{
    let res = a | x;
    (res, Flags { zero: res == 0, negative: false, half_carry: false, carry: false })
}

/// INC r: carry untouched, N clear, half-carry on a low-nibble wrap.
pub fn alu_inc(v: u8, flags: Flags) -> (r: (u8, Flags))
    ensures
        r.0 == (v + 1) % 256,
        r.1 == (Flags {
            zero: v == 255,
            negative: false,
            half_carry: v % 16 == 15,
            carry: flags.carry,
        }),
{
    let res = if v == 255 {
        0
    } else {
        v + 1
    };
    (
        res,
        Flags { zero: v == 255, negative: false, half_carry: v % 16 == 15, carry: flags.carry },
    )
}

/// DEC r: carry untouched, N set, half-carry on a low-nibble borrow.
pub fn alu_dec(v: u8, flags: Flags) -> (r: (u8, Flags))
    ensures
        r.0 == (v + 255) % 256,
        r.1 == (Flags {
            zero: v == 1,
            negative: true,
            half_carry: v % 16 == 0,
            carry: flags.carry,
        }),
{
    let res = if v == 0 {
        255
    } else {
        v - 1
    };
    (res, Flags { zero: v == 1, negative: true, half_carry: v % 16 == 0, carry: flags.carry })
}

/// ADD HL,rr: zero preserved, N clear, half-carry out of bit 11, carry out
/// of bit 15.
pub fn alu_add16(hl: u16, rr: u16, flags: Flags) -> (r: (u16, Flags))
    ensures
        r.0 == (hl + rr) % 0x10000,
        r.1 == (Flags {
            zero: flags.zero,
            negative: false,
            half_carry: hl % 0x1000 + rr % 0x1000 > 0xFFF,
            carry: hl + rr > 0xFFFF,
        }),
{
    let sum = hl as u32 + rr as u32;
    (
        (sum % 0x10000) as u16,
        Flags {
            zero: flags.zero,
            negative: false,
            half_carry: hl % 0x1000 + rr % 0x1000 > 0xFFF,
            carry: sum > 0xFFFF,
        },
    )
}

/// ADD SP,e8 and LD HL,SP+e8: the signed byte joins SP with wraparound;
/// Z and N clear, H and C from the unsigned addition of the low byte of SP
/// with the byte: carry out of bit 3 and bit 7.
pub fn alu_add_sp(sp: u16, e: u8) -> (r: (u16, Flags))
    ensures
        r.0 == (sp + spec_sign_extend(e)) % 0x10000,
        r.1 == (Flags {
            zero: false,
            negative: false,
            half_carry: sp % 16 + e % 16 > 15,
            carry: sp % 256 + e > 255,
        }),
{
    let res = offset_word(sp, e);
    (
        res,
        Flags {
            zero: false,
            negative: false,
            half_carry: sp % 16 + (e % 16) as u16 > 15,
            carry: sp % 256 + e as u16 > 255,
        },
    )
}

/// The BCD adjustment DAA applies to A after an addition or subtraction,
/// driven by the prior N, H and C flags.
pub open spec fn spec_daa(a: u8, f: Flags) -> (u8, Flags) {
    if !f.negative {
        let lo: u8 = if f.half_carry || a % 16 > 9 {
            6
        } else {
            0
        };
        let hi: u8 = if f.carry || a > 0x99 {
            0x60
        } else {
            0
        };
        let res = ((a + lo + hi) % 256) as u8;
        (
            res,
            Flags {
                zero: res == 0,
                negative: false,
                half_carry: false,
                carry: f.carry || a > 0x99,
            },
        )
    } else {
        let lo: u8 = if f.half_carry {
            6
        } else {
            0
        };
        let hi: u8 = if f.carry {
            0x60
        } else {
            0
        };
        let res = ((a + 512 - lo - hi) % 256) as u8;
        (res, Flags { zero: res == 0, negative: true, half_carry: false, carry: f.carry })
    }
}

pub fn alu_daa(a: u8, f: Flags) -> (r: (u8, Flags))
    ensures
        r == spec_daa(a, f),
{
    if !f.negative {
        let lo: u16 = if f.half_carry || a % 16 > 9 {
            6
        } else {
            0
        };
        let hi: u16 = if f.carry || a > 0x99 {
            0x60
        } else {
            0
        };
        let res = ((a as u16 + lo + hi) % 256) as u8;
        (
            res,
            Flags {
                zero: res == 0,
                negative: false,
                half_carry: false,
                carry: f.carry || a > 0x99,
            },
        )
    } else {
        let lo: u16 = if f.half_carry {
            6
        } else {
            0
        };
        let hi: u16 = if f.carry {
            0x60
        } else {
            0
        };
        let res = ((a as u16 + 512 - lo - hi) % 256) as u8;
        (res, Flags { zero: res == 0, negative: true, half_carry: false, carry: f.carry })
    }
}

/// Rotate left circular: bit 7 moves into bit 0 and into C.
pub fn alu_rlc(v: u8) -> (r: (u8, bool))
    ensures
        r.0 == (v * 2 + v / 128) % 256,
        r.1 == (v / 128 == 1),
{
    (((v as u16 * 2 + v as u16 / 128) % 256) as u8, v / 128 == 1)
}

/// Rotate left through carry: C moves into bit 0, bit 7 into C.
pub fn alu_rl(v: u8, carry_in: bool) -> (r: (u8, bool))
    ensures
        r.0 == (v * 2 + if carry_in {
            1int
        } else {
            0int
        }) % 256,
        r.1 == (v / 128 == 1),
{
    let cin: u16 = if carry_in {
        1
    } else {
        0
    };
    (((v as u16 * 2 + cin) % 256) as u8, v / 128 == 1)
}

/// Rotate right circular: bit 0 moves into bit 7 and into C.
pub fn alu_rrc(v: u8) -> (r: (u8, bool))
    ensures
        r.0 == v / 2 + v % 2 * 128,
        r.1 == (v % 2 == 1),
{
    (v / 2 + v % 2 * 128, v % 2 == 1)
}

/// Rotate right through carry: C moves into bit 7, bit 0 into C.
pub fn alu_rr(v: u8, carry_in: bool) -> (r: (u8, bool))
    ensures
        r.0 == v / 2 + if carry_in {
            128int
        } else {
            0int
        },
        r.1 == (v % 2 == 1),
{
    let cin: u8 = if carry_in {
        128
    } else {
        0
    };
    (v / 2 + cin, v % 2 == 1)
}

/// Shift left arithmetic: zero moves into bit 0, bit 7 into C.
pub fn alu_sla(v: u8) -> (r: (u8, bool))
    ensures
        r.0 == v * 2 % 256,
        r.1 == (v / 128 == 1),
{
    ((v as u16 * 2 % 256) as u8, v / 128 == 1)
}

/// Shift right arithmetic: bit 7 keeps its value, bit 0 moves into C.
pub fn alu_sra(v: u8) -> (r: (u8, bool))
    ensures
        r.0 == v / 2 + v / 128 * 128,
        r.1 == (v % 2 == 1),
{
    (v / 2 + v / 128 * 128, v % 2 == 1)
}

/// Shift right logical: zero moves into bit 7, bit 0 into C.
pub fn alu_srl(v: u8) -> (r: (u8, bool))
    ensures
        r.0 == v / 2,
        r.1 == (v % 2 == 1),
{
    (v / 2, v % 2 == 1)
}

/// SWAP: the nibbles change places; N, H and C clear, zero from the result.
pub fn alu_swap(v: u8) -> (r: (u8, Flags))
    ensures
        r.0 == v % 16 * 16 + v / 16,
        r.1 == (Flags { zero: v == 0, negative: false, half_carry: false, carry: false }),
{
    let res = v % 16 * 16 + v / 16;
    (res, Flags { zero: v == 0, negative: false, half_carry: false, carry: false })
}

/// The bit of `v` at position `idx`, as zero or one.
pub open spec fn spec_bit(v: u8, idx: u8) -> u8 {
    (v / spec_bit_mask(idx)) % 2
}

/// The power of two selecting bit `idx`.
pub open spec fn spec_bit_mask(idx: u8) -> u8 {
    if idx == 0 {
        1
    } else if idx == 1 {
        2
    } else if idx == 2 {
        4
    } else if idx == 3 {
        8
    } else if idx == 4 {
        16
    } else if idx == 5 {
        32
    } else if idx == 6 {
        64
    } else {
        128
    }
}

pub fn bit_mask(idx: u8) -> (r: u8)
    requires
        idx < 8,
    ensures
        r == spec_bit_mask(idx),
{
    if idx == 0 {
        1
    } else if idx == 1 {
        2
    } else if idx == 2 {
        4
    } else if idx == 3 {
        8
    } else if idx == 4 {
        16
    } else if idx == 5 {
        32
    } else if idx == 6 {
        64
    } else {
        128
    }
}

/// The bit of `v` at position `idx`, as zero or one.
pub fn bit_of(v: u8, idx: u8) -> (r: u8)
    requires
        idx < 8,
    ensures
        r == spec_bit(v, idx),
        r < 2,
{
    v / bit_mask(idx) % 2
}

/// BIT idx,r: Z reports the complement of the tested bit; N clear, H set,
/// C untouched.
pub fn alu_bit(v: u8, idx: u8, flags: Flags) -> (r: Flags)
    requires
        idx < 8,
    ensures
        r == (Flags {
            zero: spec_bit(v, idx) == 0,
            negative: false,
            half_carry: true,
            carry: flags.carry,
        }),
{
    let m = bit_mask(idx);
    Flags { zero: v / m % 2 == 0, negative: false, half_carry: true, carry: flags.carry }
}

/// SET idx,r: the selected bit becomes one, no flag moves.
pub fn alu_set(v: u8, idx: u8) -> (r: u8)
    requires
        idx < 8,
    ensures
        spec_bit(r, idx) == 1,
        forall|j: u8| j < 8 && j != idx ==> spec_bit(r, j) == spec_bit(v, j),
        r == if spec_bit(v, idx) == 0 {
            (v + spec_bit_mask(idx)) as u8
        } else {
            v
        },
{
    let m = bit_mask(idx);
    let r = if v / m % 2 == 0 {
        v + m
    } else {
        v
    };
    proof {
        lemma_set_bit(v, idx);
    }
    r
}

/// RES idx,r: the selected bit becomes zero, no flag moves.
pub fn alu_res(v: u8, idx: u8) -> (r: u8)
    requires
        idx < 8,
    ensures
        spec_bit(r, idx) == 0,
        forall|j: u8| j < 8 && j != idx ==> spec_bit(r, j) == spec_bit(v, j),
        r == if spec_bit(v, idx) == 1 {
            (v - spec_bit_mask(idx)) as u8
        } else {
            v
        },
{
    let m = bit_mask(idx);
    let r = if v / m % 2 == 1 {
        v - m
    } else {
        v
    };
    proof {
        lemma_res_bit(v, idx);
    }
    r
}

proof fn lemma_set_bit(v: u8, idx: u8)
    by (bit_vector)
    requires
        idx < 8,
    ensures
        ({
            let r = if (v / spec_bit_mask(idx)) % 2 == 0 {
                ((v + spec_bit_mask(idx)) % 256) as u8
            } else {
                v
            };
            &&& v + spec_bit_mask(idx) < 256 || (v / spec_bit_mask(idx)) % 2 == 1
            &&& (r / spec_bit_mask(idx)) % 2 == 1
            &&& forall|j: u8|
                j < 8 && j != idx ==> (r / spec_bit_mask(j)) % 2 == (v / spec_bit_mask(j)) % 2
        }),
{
}

proof fn lemma_res_bit(v: u8, idx: u8)
    by (bit_vector)
    requires
        idx < 8,
    ensures
        ({
            let r = if (v / spec_bit_mask(idx)) % 2 == 1 {
                ((v + 256 - spec_bit_mask(idx)) % 256) as u8
            } else {
                v
            };
            &&& v >= spec_bit_mask(idx) || (v / spec_bit_mask(idx)) % 2 == 0
            &&& (r / spec_bit_mask(idx)) % 2 == 0
            &&& forall|j: u8|
                j < 8 && j != idx ==> (r / spec_bit_mask(j)) % 2 == (v / spec_bit_mask(j)) % 2
        }),
{
}

/// The accumulator and flags after one operation of the 8-bit arithmetic
/// group: ADD, ADC, SUB, SBC, AND, XOR, OR or CP as the instruction code
/// `y` selects, applied to A and the operand with the incoming carry.
pub open spec fn spec_alu8(y: u8, a: u8, x: u8, carry_in: bool) -> (u8, Flags) {
    let cin: int = if carry_in {
        1
    } else {
        0
    };
    if y % 8 == 0 {
        (
            (((a + x) % 256) as u8),
            Flags {
                zero: (a + x) % 256 == 0,
                negative: false,
                half_carry: a % 16 + x % 16 > 15,
                carry: a + x > 255,
            },
        )
    } else if y % 8 == 1 {
        (
            (((a + x + cin) % 256) as u8),
            Flags {
                zero: (a + x + cin) % 256 == 0,
                negative: false,
                half_carry: a % 16 + x % 16 + cin > 15,
                carry: a + x + cin > 255,
            },
        )
    } else if y % 8 == 2 {
        (
            (((a + 256 - x) % 256) as u8),
            Flags { zero: a == x, negative: true, half_carry: a % 16 < x % 16, carry: a < x },
        )
    } else if y % 8 == 3 {
        (
            (((a + 512 - x - cin) % 256) as u8),
            Flags {
                zero: (a + 512 - x - cin) % 256 == 0,
                negative: true,
                half_carry: a % 16 < x % 16 + cin,
                carry: a < x + cin,
            },
        )
    } else if y % 8 == 4 {
        (
            a & x,
            Flags { zero: (a & x) == 0, negative: false, half_carry: true, carry: false },
        )
    } else if y % 8 == 5 {
        (
            a ^ x,
            Flags { zero: (a ^ x) == 0, negative: false, half_carry: false, carry: false },
        )
    } else if y % 8 == 6 {
        (
            a | x,
            Flags { zero: (a | x) == 0, negative: false, half_carry: false, carry: false },
        )
    } else {
        (a, Flags { zero: a == x, negative: true, half_carry: a % 16 < x % 16, carry: a < x })
    }
}

/// CPL: every bit of A flips; N and H set, Z and C untouched.
pub fn alu_cpl(a: u8, flags: Flags) -> (r: (u8, Flags))
    ensures
        r.0 == 255 - a,
        r.1 == (Flags { negative: true, half_carry: true, ..flags }),
{
    (255 - a, Flags { negative: true, half_carry: true, ..flags })
}

} // verus!
