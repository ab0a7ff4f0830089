use crate::flags::flag_byte;
use crate::flags::Flags;
use vstd::prelude::*;

verus! {

/// One of the seven 8-bit general registers.
#[derive(Clone, Copy, Debug)]
pub enum Reg8 {
    A,
    B,
    C,
    D,
    E,
    H,
    L,
}

/// One of the 16-bit registers or register pairs.
#[derive(Clone, Copy, Debug)]
pub enum Reg16 {
    AF,
    BC,
    DE,
    HL,
    SP,
}

/// The CPU register file: seven 8-bit general registers, the flag bits of F,
/// and the 16-bit SP and PC. The pairs AF, BC, DE and HL read as big-endian
/// concatenations of their halves.
#[derive(Clone, Copy, Debug, PartialEq, Eq, Structural)]
pub struct Registers {
    pub a: u8,
    pub b: u8,
    pub c: u8,
    pub d: u8,
    pub e: u8,
    pub h: u8,
    pub l: u8,
    pub flags: Flags,
    pub sp: u16,
    pub pc: u16,
}

/// The high byte of a 16-bit word.
pub fn get_msb(v: u16) -> (r: u8)
    ensures
        r == v / 256,
{
    (v / 256) as u8
}

/// The low byte of a 16-bit word.
pub fn get_lsb(v: u16) -> (r: u8)
    ensures
        r == v % 256,
{
    (v % 256) as u8
}

impl Registers {
    /// A as the high byte over the F byte; the low nibble is zero.
    pub open spec fn spec_af(self) -> u16 {
        (self.a * 256 + self.flags.spec_value()) as u16
    }

    pub open spec fn spec_bc(self) -> u16 {
        (self.b * 256 + self.c) as u16
    }

    pub open spec fn spec_de(self) -> u16 {
        (self.d * 256 + self.e) as u16
    }

    pub open spec fn spec_hl(self) -> u16 {
        (self.h * 256 + self.l) as u16
    }

    pub fn get_af(&self) -> (r: u16)
        ensures
            r == self.spec_af(),
            r % 16 == 0,
    {
        (self.a as u16) * 256 + (self.flags.read_value() as u16)
    }

    /// Writing AF masks the low nibble of F to zero.
    pub fn set_af(&mut self, v: u16)
        ensures
            *final(self) == (Registers {
                a: (v / 256) as u8,
                flags: final(self).flags,
                ..*old(self)
            }),
            final(self).flags.zero == (v / 128 % 2 == 1),
            final(self).flags.negative == (v / 64 % 2 == 1),
            final(self).flags.half_carry == (v / 32 % 2 == 1),
            final(self).flags.carry == (v / 16 % 2 == 1),
    {
        self.a = get_msb(v);
        let lo = get_lsb(v);
        proof {
            lemma_low_byte_bits(v);
        }
        self.flags.set_value(lo);
    }

    pub fn get_bc(&self) -> (r: u16)
        ensures
            r == self.spec_bc(),
    {
        (self.b as u16) * 256 + (self.c as u16)
    }

    pub fn set_bc(&mut self, v: u16)
        ensures
            *final(self) == (Registers { b: (v / 256) as u8, c: (v % 256) as u8, ..*old(self) }),
    {
        self.b = get_msb(v);
        self.c = get_lsb(v);
    }

    pub fn get_de(&self) -> (r: u16)
        ensures
            r == self.spec_de(),
    {
        (self.d as u16) * 256 + (self.e as u16)
    }

    pub fn set_de(&mut self, v: u16)
        ensures
            *final(self) == (Registers { d: (v / 256) as u8, e: (v % 256) as u8, ..*old(self) }),
    {
        self.d = get_msb(v);
        self.e = get_lsb(v);
    }

    pub fn get_hl(&self) -> (r: u16)
        ensures
            r == self.spec_hl(),
    {
        (self.h as u16) * 256 + (self.l as u16)
    }

    pub fn set_hl(&mut self, v: u16)
        ensures
            *final(self) == (Registers { h: (v / 256) as u8, l: (v % 256) as u8, ..*old(self) }),
    {
        self.h = get_msb(v);
        self.l = get_lsb(v);
    }

    /// SP moves up by one, wrapping at the top of the address space.
    pub fn increment_sp(&mut self)
        ensures
            *final(self) == (Registers {
                sp: ((old(self).sp + 1) % 0x10000) as u16,
                ..*old(self)
            }),
    {
        self.sp = if self.sp == 0xFFFF {
            0
        } else {
            self.sp + 1
        };
    }

    /// SP moves down by one, wrapping at the bottom of the address space.
    pub fn decrement_sp(&mut self)
        ensures
            *final(self) == (Registers {
                sp: ((old(self).sp + 0xFFFF) % 0x10000) as u16,
                ..*old(self)
            }),
    {
        self.sp = if self.sp == 0 {
            0xFFFF
        } else {
            self.sp - 1
        };
    }

    /// PC moves up by one, wrapping at the top of the address space.
    pub fn increment_pc(&mut self)
        ensures
            *final(self) == (Registers {
                pc: ((old(self).pc + 1) % 0x10000) as u16,
                ..*old(self)
            }),
    {
        self.pc = if self.pc == 0xFFFF {
            0
        } else {
            self.pc + 1
        };
    }

    pub fn get_a(&self) -> (r: u8)
        ensures
            r == self.a,
    {
        self.a
    }

    pub fn set_a(&mut self, v: u8)
        ensures
            *final(self) == (Registers { a: v, ..*old(self) }),
    {
        self.a = v;
    }

    pub fn get_b(&self) -> (r: u8)
        ensures
            r == self.b,
    {
        self.b
    }

    pub fn set_b(&mut self, v: u8)
        ensures
            *final(self) == (Registers { b: v, ..*old(self) }),
    {
        self.b = v;
    }

    pub fn get_c(&self) -> (r: u8)
        ensures
            r == self.c,
    {
        self.c
    }

    pub fn set_c(&mut self, v: u8)
        ensures
            *final(self) == (Registers { c: v, ..*old(self) }),
    {
        self.c = v;
    }

    pub fn get_d(&self) -> (r: u8)
        ensures
            r == self.d,
    {
        self.d
    }

    pub fn set_d(&mut self, v: u8)
        ensures
            *final(self) == (Registers { d: v, ..*old(self) }),
    {
        self.d = v;
    }

    pub fn get_e(&self) -> (r: u8)
        ensures
            r == self.e,
    {
        self.e
    }

    pub fn set_e(&mut self, v: u8)
        ensures
            *final(self) == (Registers { e: v, ..*old(self) }),
    {
        self.e = v;
    }

    pub fn get_h(&self) -> (r: u8)
        ensures
            r == self.h,
    {
        self.h
    }

    pub fn set_h(&mut self, v: u8)
        ensures
            *final(self) == (Registers { h: v, ..*old(self) }),
    {
        self.h = v;
    }

    pub fn get_l(&self) -> (r: u8)
        ensures
            r == self.l,
    {
        self.l
    }

    pub fn set_l(&mut self, v: u8)
        ensures
            *final(self) == (Registers { l: v, ..*old(self) }),
    {
        self.l = v;
    }

    pub fn get_sp(&self) -> (r: u16)
        ensures
            r == self.sp,
    {
        self.sp
    }

    pub fn set_sp(&mut self, v: u16)
        ensures
            *final(self) == (Registers { sp: v, ..*old(self) }),
    {
        self.sp = v;
    }

    pub fn get_pc(&self) -> (r: u16)
        ensures
            r == self.pc,
    {
        self.pc
    }

    pub fn set_pc(&mut self, v: u16)
        ensures
            *final(self) == (Registers { pc: v, ..*old(self) }),
    {
        self.pc = v;
    }

    /// The value a 16-bit register reads as.
    pub open spec fn spec_read16(self, register: Reg16) -> u16 {
        match register {
            Reg16::AF => self.spec_af(),
            Reg16::BC => self.spec_bc(),
            Reg16::DE => self.spec_de(),
            Reg16::HL => self.spec_hl(),
            Reg16::SP => self.sp,
        }
    }

    pub fn write16(&mut self, register: Reg16, value: u16)
        ensures
            final(self).spec_read16(register) == match register {
                Reg16::AF => (value / 16 * 16) as u16,
                _ => value,
            },
            final(self).sp == match register {
                Reg16::SP => value,
                _ => old(self).sp,
            },
            final(self).pc == old(self).pc,
            match register {
                Reg16::AF => *final(self) == (Registers {
                    a: final(self).a,
                    flags: final(self).flags,
                    ..*old(self)
                }),
                Reg16::BC => *final(self) == (Registers {
                    b: final(self).b,
                    c: final(self).c,
                    ..*old(self)
                }),
                Reg16::DE => *final(self) == (Registers {
                    d: final(self).d,
                    e: final(self).e,
                    ..*old(self)
                }),
                Reg16::HL => *final(self) == (Registers {
                    h: final(self).h,
                    l: final(self).l,
                    ..*old(self)
                }),
                Reg16::SP => *final(self) == (Registers { sp: value, ..*old(self) }),
            },
    {
        match register {
            Reg16::AF => {
                self.set_af(value);
                proof {
                    lemma_af_roundtrip(*old(self), *self, value);
                }
            },
            Reg16::BC => {
                self.set_bc(value);
            },
            Reg16::DE => {
                self.set_de(value);
            },
            Reg16::HL => {
                self.set_hl(value);
            },
            Reg16::SP => {
                self.set_sp(value);
            },
        }
    }

    pub fn read16(&self, register: Reg16) -> (r: u16)
        ensures
            r == self.spec_read16(register),
    {
        match register {
            Reg16::AF => self.get_af(),
            Reg16::BC => self.get_bc(),
            Reg16::DE => self.get_de(),
            Reg16::HL => self.get_hl(),
            Reg16::SP => self.get_sp(),
        }
    }
}

impl Registers {
    /// Every register zero, every flag cleared.
    pub open spec fn spec_default() -> Registers {
        Registers {
            a: 0,
            b: 0,
            c: 0,
            d: 0,
            e: 0,
            h: 0,
            l: 0,
            flags: Flags { zero: false, negative: false, half_carry: false, carry: false },
            sp: 0,
            pc: 0,
        }
    }
}

impl Default for Registers {
    /// Every register zero, every flag cleared.
    fn default() -> (r: Registers)
        ensures
            r == (Registers {
                a: 0,
                b: 0,
                c: 0,
                d: 0,
                e: 0,
                h: 0,
                l: 0,
                flags: Flags { zero: false, negative: false, half_carry: false, carry: false },
                sp: 0,
                pc: 0,
            }),
    {
        Registers {
            a: 0,
            b: 0,
            c: 0,
            d: 0,
            e: 0,
            h: 0,
            l: 0,
            flags: Flags::new(),
            sp: 0,
            pc: 0,
        }
    }
}

/// The bit reads of a word's low byte agree with the bit reads of the word.
proof fn lemma_low_byte_bits(v: u16)
    by (bit_vector)
    ensures
        (v % 256) / 128 % 2 == v / 128 % 2,
        (v % 256) / 64 % 2 == v / 64 % 2,
        (v % 256) / 32 % 2 == v / 32 % 2,
        (v % 256) / 16 % 2 == v / 16 % 2,
{
}

/// The packed F byte built from a word's flag bits equals the word's low
/// byte with its low nibble masked.
proof fn lemma_word_flag_byte(v: u16)
    by (bit_vector)
    ensures
        flag_byte(v / 128 % 2 == 1, v / 64 % 2 == 1, v / 32 % 2 == 1, v / 16 % 2 == 1) == (v % 256)
            / 16 * 16,
        v / 256 * 256 + (v % 256) / 16 * 16 == v / 16 * 16,
{
}

/// Writing a word to AF and reading AF back yields the word with its low
/// nibble masked to zero, and no other register moved.
pub proof fn lemma_af_roundtrip(pre: Registers, post: Registers, v: u16)
    requires
        post == (Registers { a: (v / 256) as u8, flags: post.flags, ..pre }),
        post.flags.zero == (v / 128 % 2 == 1),
        post.flags.negative == (v / 64 % 2 == 1),
        post.flags.half_carry == (v / 32 % 2 == 1),
        post.flags.carry == (v / 16 % 2 == 1),
    ensures
        post.spec_af() == v / 16 * 16,
{
    lemma_word_flag_byte(v);
}

} // verus!
