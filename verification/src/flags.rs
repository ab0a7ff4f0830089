use vstd::prelude::*;

verus! {

/// The four flag bits of the F register: Z at bit 7, N at bit 6, H at bit 5
/// and C at bit 4. Bits 0 to 3 of F always read as zero.
#[derive(Clone, Copy, Debug, PartialEq, Eq, Structural)]
pub struct Flags {
    pub zero: bool,
    pub negative: bool,
    pub half_carry: bool,
    pub carry: bool,
}

/// The byte that four flag bits read as: Z, N, H, C packed into the high
/// nibble, the low nibble zero.
pub open spec fn flag_byte(z: bool, n: bool, h: bool, c: bool) -> u8 {
    ((if z { 0x80u8 } else { 0u8 }) + (if n { 0x40u8 } else { 0u8 })
        + (if h { 0x20u8 } else { 0u8 }) + (if c { 0x10u8 } else { 0u8 })) as u8
}

impl Flags {
    /// The byte this flag state reads as.
    pub open spec fn spec_value(self) -> u8 {
        flag_byte(self.zero, self.negative, self.half_carry, self.carry)
    }

    pub fn new() -> (r: Flags)
        ensures
            r == (Flags { zero: false, negative: false, half_carry: false, carry: false }),
    {
        Flags { zero: false, negative: false, half_carry: false, carry: false }
    }

    /// Pack the flags into the F byte. The low nibble of the result is zero.
    pub fn read_value(&self) -> (r: u8)
        ensures
            r == self.spec_value(),
            r % 16 == 0,
    {
        let mut v: u8 = 0;
        if self.zero {
            v += 0x80;
        }
        if self.negative {
            v += 0x40;
        }
        if self.half_carry {
            v += 0x20;
        }
        if self.carry {
            v += 0x10;
        }
        v
    }

    /// Load the flags from a byte; the low nibble of the byte is ignored.
    pub fn set_value(&mut self, v: u8)
        ensures
            final(self).zero == (v / 128 % 2 == 1),
            final(self).negative == (v / 64 % 2 == 1),
            final(self).half_carry == (v / 32 % 2 == 1),
            final(self).carry == (v / 16 % 2 == 1),
    {
        self.zero = v / 128 % 2 == 1;
        self.negative = v / 64 % 2 == 1;
        self.half_carry = v / 32 % 2 == 1;
        self.carry = v / 16 % 2 == 1;
    }
}

impl Default for Flags {
    /// All flags cleared.
    fn default() -> (r: Flags)
        ensures
            r == (Flags { zero: false, negative: false, half_carry: false, carry: false }),
    {
        Flags { zero: false, negative: false, half_carry: false, carry: false }
    }
}

/// Whatever the flag state, the F register reads with its low nibble zero.
pub proof fn lemma_flag_low_nibble_zero(f: Flags)
    ensures
        f.spec_value() % 16 == 0,
{
}

/// Loading the flags from a byte and reading them back yields the byte with
/// its low nibble masked to zero.
pub proof fn lemma_flag_byte_roundtrip(v: u8)
    by (bit_vector)
    ensures
        flag_byte(v / 128 % 2 == 1, v / 64 % 2 == 1, v / 32 % 2 == 1, v / 16 % 2 == 1) == v / 16
            * 16,
{
}

} // verus!
