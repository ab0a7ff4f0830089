use crate::interrupt_handler::{InterruptHandler, InterruptLine};
use crate::registers::{Reg16, Reg8, Registers};
use vstd::prelude::*;

verus! {

/// What the CPU sees of the rest of the machine: byte reads and writes
/// through the bus, and the interrupt controller. The bus promises exact
/// values for the decoded ranges (`spec_readable`) and a full frame for
/// the always-RAM range (`stack_ok`), on which the stack proofs rest.
pub trait Interface {
    spec fn wf(&self) -> bool;

    /// The byte a decoded address reads as.
    spec fn read_spec(&self, address: u16) -> u8;

    /// Whether the core itself decodes reads of this address.
    spec fn spec_readable(&self, address: u16) -> bool;

    /// A plain-RAM address: writes land exactly there and move nothing
    /// else.
    spec fn stack_ok(&self, address: u16) -> bool;

    /// Whether a write at `w` lands where `r` reads: the same address, or
    /// another address backed by the same RAM cell (the echo range).
    spec fn aliases(&self, w: u16, r: u16) -> bool;

    /// Every address reads back its own write.
    proof fn lemma_aliases_reflexive(&self, a: u16)
        ensures
            self.aliases(a, a),
    ;

    /// Adjacent plain-RAM addresses are always backed by distinct cells.
    proof fn lemma_adjacent_distinct(&self, w: u16, r: u16)
        requires
            self.stack_ok(w),
            self.stack_ok(r),
            r == spec_wrap_add(w, 1) || w == spec_wrap_add(r, 1),
        ensures
            !self.aliases(w, r),
    ;

    /// The interrupt controller state.
    spec fn ih(&self) -> InterruptHandler;

    fn get_byte(&self, address: u16) -> (r: u8)
        requires
            self.wf(),
        ensures
            self.spec_readable(address) ==> r == self.read_spec(address);

    fn set_byte(&mut self, address: u16, value: u8)
        requires
            old(self).wf(),
        ensures
            final(self).wf(),
            final(self).ih().interrupt_master_enabled == old(self).ih().interrupt_master_enabled,
            final(self).ih().enable_delay == old(self).ih().enable_delay,
            old(self).stack_ok(address) ==> ({
                &&& forall|a: u16|
                    old(self).aliases(address, a) ==> final(self).read_spec(a) == value
                &&& forall|a: u16|
                    !old(self).aliases(address, a) ==> final(self).read_spec(a) == old(
                        self,
                    ).read_spec(a)
                &&& final(self).ih() == old(self).ih()
                &&& forall|a: u16| final(self).stack_ok(a) == old(self).stack_ok(a)
                &&& forall|a: u16| final(self).spec_readable(a) == old(self).spec_readable(a)
                &&& forall|w: u16, r: u16|
                    final(self).aliases(w, r) == old(self).aliases(w, r)
            });

    fn interrupt_master_enabled(&self) -> (r: bool)
        ensures
            r == self.ih().interrupt_master_enabled;

    fn highest_pending(&self) -> (r: Option<InterruptLine>)
        ensures
            r == self.ih().spec_pending().spec_highest_priority();

    fn any_enabled(&self) -> (r: bool)
        ensures
            r == self.ih().spec_pending().spec_any();

    fn acknowledge(&mut self, interrupt: InterruptLine)
        requires
            old(self).wf(),
        ensures
            final(self).wf(),
            final(self).ih() == old(self).ih().spec_request(interrupt, false),
            forall|a: u16|
                old(self).stack_ok(a) ==> final(self).read_spec(a) == old(self).read_spec(a),
            forall|a: u16| final(self).stack_ok(a) == old(self).stack_ok(a),
            forall|a: u16| final(self).spec_readable(a) == old(self).spec_readable(a),
            forall|w: u16, r: u16| final(self).aliases(w, r) == old(self).aliases(w, r);

    fn change_interrupt_master_enabled(&mut self, value: bool)
        requires
            old(self).wf(),
        ensures
            final(self).wf(),
            final(self).ih() == (InterruptHandler {
                interrupt_master_enabled: value,
                enable_delay: if value {
                    0u8
                } else {
                    old(self).ih().enable_delay
                },
                ..old(self).ih()
            }),
            forall|a: u16|
                old(self).stack_ok(a) ==> final(self).read_spec(a) == old(self).read_spec(a),
            forall|a: u16| final(self).stack_ok(a) == old(self).stack_ok(a),
            forall|a: u16| final(self).spec_readable(a) == old(self).spec_readable(a),
            forall|w: u16, r: u16| final(self).aliases(w, r) == old(self).aliases(w, r);

    fn set_interrupt_disabled(&mut self, disabled: bool)
        requires
            old(self).wf(),
        ensures
            final(self).wf(),
            disabled ==> final(self).ih() == (InterruptHandler {
                interrupt_master_enabled: false,
                enable_delay: 0,
                ..old(self).ih()
            }),
            !disabled ==> final(self).ih() == (InterruptHandler {
                enable_delay: 2,
                ..old(self).ih()
            }),
            forall|a: u16|
                old(self).stack_ok(a) ==> final(self).read_spec(a) == old(self).read_spec(a),
            forall|a: u16| final(self).stack_ok(a) == old(self).stack_ok(a),
            forall|a: u16| final(self).spec_readable(a) == old(self).spec_readable(a),
            forall|w: u16, r: u16| final(self).aliases(w, r) == old(self).aliases(w, r);

    /// One instruction boundary for the interrupt controller: the delayed
    /// EI enable moves a step closer to taking effect.
    fn step(&mut self)
        requires
            old(self).wf(),
        ensures
            final(self).wf(),
            old(self).ih().enable_delay == 2 ==> final(self).ih() == (InterruptHandler {
                enable_delay: 1,
                ..old(self).ih()
            }),
            old(self).ih().enable_delay == 1 ==> final(self).ih() == (InterruptHandler {
                interrupt_master_enabled: true,
                enable_delay: 0,
                ..old(self).ih()
            }),
            old(self).ih().enable_delay != 1 && old(self).ih().enable_delay != 2 ==> final(self).ih()
                == old(self).ih(),
            forall|a: u16|
                old(self).stack_ok(a) ==> final(self).read_spec(a) == old(self).read_spec(a),
            forall|a: u16| final(self).stack_ok(a) == old(self).stack_ok(a),
            forall|a: u16| final(self).spec_readable(a) == old(self).spec_readable(a),
            forall|w: u16, r: u16| final(self).aliases(w, r) == old(self).aliases(w, r);
}

/// Whether the CPU is running instructions or suspended by HALT (or STOP,
/// which this core treats the same way).
#[derive(Clone, Copy, Debug, PartialEq, Eq, Structural)]
pub enum Step {
    Run,
    Halt,
}

/// The CPU: the register file, its run state and the bus it fetches,
/// reads and writes through.
pub struct Cpu<T: Interface> {
    pub registers: Registers,
    pub op_code: u8,
    pub interface: T,
    pub state: Step,
    /// Latched when an unknown opcode halts the CPU.
    pub illegal_opcode: bool,
}

/// Reading an 8-bit operand.
pub trait In8<T: Copy> {
    spec fn in8_wf(&self) -> bool;

    fn read_8(&mut self, src: T) -> u8
        requires
            old(self).in8_wf(),
    ;
}

/// Writing an 8-bit operand.
pub trait Out8<T: Copy> {
    spec fn out8_wf(&self) -> bool;

    fn write_8(&mut self, dst: T, val: u8)
        requires
            old(self).out8_wf(),
    ;
}

/// Reading a 16-bit operand.
pub trait In16<T: Copy> {
    spec fn in16_wf(&self) -> bool;

    fn read_16(&mut self, src: T) -> u16
        requires
            old(self).in16_wf(),
    ;
}

/// Writing a 16-bit operand.
pub trait Out16<T: Copy> {
    spec fn out16_wf(&self) -> bool;

    fn write_16(&mut self, dst: T, val: u16)
        requires
            old(self).out16_wf(),
    ;
}

/// An 8-bit immediate operand.
#[derive(Clone, Copy, Debug)]
pub struct Immediate8;

/// A 16-bit immediate operand.
#[derive(Clone, Copy, Debug)]
pub struct Immediate16;

/// An indirect 8-bit memory operand.
#[derive(Clone, Copy, Debug)]
pub enum Addr {
    BC,
    DE,
    HL,
    HLD,
    HLI,
    Direct,
    ReadOffset(ReadOffType),
}

/// A 16-bit memory operand addressed by an immediate word.
#[derive(Clone, Copy, Debug)]
pub enum Addr16 {
    Direct,
}

/// How the high-page offset of `0xFF00 | off` is obtained.
#[derive(Clone, Copy, Debug)]
pub enum ReadOffType {
    Register(Reg8),
    Immediate8,
}

/// A word address one past `a`, wrapping around the address space.
pub open spec fn spec_wrap_add(a: u16, n: u16) -> u16 {
    ((a + n) % 0x10000) as u16
}

/// A word address `n` below `a`, wrapping around the address space.
pub open spec fn spec_wrap_sub(a: u16, n: u16) -> u16 {
    ((a + 0x10000 - n) % 0x10000) as u16
}

pub fn wrap_add(a: u16, n: u16) -> (r: u16)
    ensures
        r == spec_wrap_add(a, n),
{
    if a as u32 + n as u32 <= 0xFFFF {
        a + n
    } else {
        ((a as u32 + n as u32 - 0x10000) as u16)
    }
}

pub fn wrap_sub(a: u16, n: u16) -> (r: u16)
    ensures
        r == spec_wrap_sub(a, n),
{
    if a >= n {
        a - n
    } else {
        (0x10000u32 + a as u32 - n as u32) as u16
    }
}

impl<T: Interface> Cpu<T> {
    pub open spec fn wf(&self) -> bool {
        self.interface.wf()
    }

    pub fn create(interface: T) -> (r: Cpu<T>)
        requires
            interface.wf(),
        ensures
            r.wf(),
            r.registers == Registers::spec_default(),
            r.interface == interface,
            r.state == Step::Run,
            !r.illegal_opcode,
    {
        Cpu {
            registers: Registers::default(),
            op_code: 0,
            interface,
            state: Step::Run,
            illegal_opcode: false,
        }
    }

    pub fn get_interface(&mut self) -> (r: &mut T)
        ensures
            *r == old(self).interface,
            *final(self) == (Cpu { interface: *final(r), ..*old(self) }),
    {
        &mut self.interface
    }

    /// Fetch the byte at PC and advance PC past it.
    pub fn read_next_byte(&mut self) -> (r: u8)
        requires
            old(self).wf(),
        ensures
            final(self).wf(),
            *final(self) == (Cpu { registers: final(self).registers, ..*old(self) }),
            final(self).registers == (Registers {
                pc: spec_wrap_add(old(self).registers.pc, 1),
                ..old(self).registers
            }),
            old(self).interface.spec_readable(old(self).registers.pc) ==> r == old(
                self,
            ).interface.read_spec(old(self).registers.pc),
    {
        let addr = self.registers.get_pc();
        self.registers.increment_pc();
        self.interface.get_byte(addr)
    }

    /// Fetch the little-endian word at PC and advance PC past it.
    pub fn read_next_word(&mut self) -> (r: u16)
        requires
            old(self).wf(),
        ensures
            final(self).wf(),
            *final(self) == (Cpu { registers: final(self).registers, ..*old(self) }),
            final(self).registers == (Registers {
                pc: spec_wrap_add(old(self).registers.pc, 2),
                ..old(self).registers
            }),
            old(self).interface.spec_readable(old(self).registers.pc) && old(
                self,
            ).interface.spec_readable(spec_wrap_add(old(self).registers.pc, 1)) ==> r == old(
                self,
            ).interface.read_spec(old(self).registers.pc) + 256 * old(self).interface.read_spec(
                spec_wrap_add(old(self).registers.pc, 1),
            ),
    {
        let lo = self.read_next_byte();
        let hi = self.read_next_byte();
        (lo as u16) + 256 * (hi as u16)
    }

    /// Push a word: SP moves down before each byte, the high byte landing
    /// first at SP-1 and the low byte at SP-2.
    pub fn push_u16(&mut self, value: u16)
        requires
            old(self).wf(),
        ensures
            final(self).wf(),
            *final(self) == (Cpu {
                registers: final(self).registers,
                interface: final(self).interface,
                ..*old(self)
            }),
            final(self).registers == (Registers {
                sp: spec_wrap_sub(old(self).registers.sp, 2),
                ..old(self).registers
            }),
            final(self).interface.ih().interrupt_master_enabled == old(
                self,
            ).interface.ih().interrupt_master_enabled,
            final(self).interface.ih().enable_delay == old(self).interface.ih().enable_delay,
            ({
                let sp = old(self).registers.sp;
                let hi_addr = spec_wrap_sub(sp, 1);
                let lo_addr = spec_wrap_sub(sp, 2);
                old(self).interface.stack_ok(hi_addr) && old(self).interface.stack_ok(lo_addr)
                    ==> ({
                    &&& final(self).interface.read_spec(hi_addr) == value / 256
                    &&& final(self).interface.read_spec(lo_addr) == value % 256
                    &&& forall|a: u16|
                        !old(self).interface.aliases(hi_addr, a) && !old(self).interface.aliases(
                            lo_addr,
                            a,
                        ) ==> final(self).interface.read_spec(a) == old(self).interface.read_spec(
                            a,
                        )
                    &&& final(self).interface.ih() == old(self).interface.ih()
                    &&& forall|a: u16|
                        final(self).interface.stack_ok(a) == old(self).interface.stack_ok(a)
                    &&& forall|a: u16|
                        final(self).interface.spec_readable(a) == old(
                            self,
                        ).interface.spec_readable(a)
                })
            }),
    {
        let hi = crate::registers::get_msb(value);
        let lo = crate::registers::get_lsb(value);
        self.registers.decrement_sp();
        let hi_addr = self.registers.get_sp();
        self.interface.set_byte(hi_addr, hi);
        self.registers.decrement_sp();
        let lo_addr = self.registers.get_sp();
        proof {
            if old(self).interface.stack_ok(hi_addr) && old(self).interface.stack_ok(lo_addr) {
                old(self).interface.lemma_aliases_reflexive(hi_addr);
                old(self).interface.lemma_aliases_reflexive(lo_addr);
                old(self).interface.lemma_adjacent_distinct(lo_addr, hi_addr);
            }
        }
        self.interface.set_byte(lo_addr, lo);
    }

    /// Pop a word: the low byte from SP, the high byte from SP+1, SP
    /// moving up past both.
    pub fn pop_u16(&mut self) -> (r: u16)
        requires
            old(self).wf(),
        ensures
            final(self).wf(),
            *final(self) == (Cpu { registers: final(self).registers, ..*old(self) }),
            final(self).registers == (Registers {
                sp: spec_wrap_add(old(self).registers.sp, 2),
                ..old(self).registers
            }),
            ({
                let sp = old(self).registers.sp;
                old(self).interface.spec_readable(sp) && old(self).interface.spec_readable(
                    spec_wrap_add(sp, 1),
                ) ==> r == old(self).interface.read_spec(sp) + 256 * old(
                    self,
                ).interface.read_spec(spec_wrap_add(sp, 1))
            }),
    {
        let lo = self.interface.get_byte(self.registers.get_sp());
        self.registers.increment_sp();
        let hi = self.interface.get_byte(self.registers.get_sp());
        self.registers.increment_sp();
        (lo as u16) + 256 * (hi as u16)
    }
}

/// What a byte write through the bus did, as far as the interface frame
/// promises it: under `stack_ok` the byte landed at the written address
/// (and every address the same cell backs) and nothing else moved.
pub open spec fn spec_wrote<T: Interface>(pre: T, post: T, address: u16, value: u8) -> bool {
    pre.stack_ok(address) ==> ({
        &&& forall|a: u16| pre.aliases(address, a) ==> post.read_spec(a) == value
        &&& forall|a: u16| !pre.aliases(address, a) ==> post.read_spec(a) == pre.read_spec(a)
        &&& post.ih() == pre.ih()
        &&& forall|a: u16| post.stack_ok(a) == pre.stack_ok(a)
        &&& forall|a: u16| post.spec_readable(a) == pre.spec_readable(a)
        &&& forall|w: u16, r: u16| post.aliases(w, r) == pre.aliases(w, r)
    })
}

impl<T: Interface> Cpu<T> {
    /// The 8-bit register an operand code of the instruction encoding
    /// names; code 6 is the memory operand (HL).
    pub open spec fn spec_reg_code(regs: Registers, code: u8) -> u8 {
        if code % 8 == 0 {
            regs.b
        } else if code % 8 == 1 {
            regs.c
        } else if code % 8 == 2 {
            regs.d
        } else if code % 8 == 3 {
            regs.e
        } else if code % 8 == 4 {
            regs.h
        } else if code % 8 == 5 {
            regs.l
        } else {
            regs.a
        }
    }

    /// Read the operand an instruction code names: a register, or the
    /// byte at (HL) for code 6.
    fn reg_code_read(&mut self, code: u8) -> (r: u8)
        requires
            old(self).wf(),
            code < 8,
        ensures
            final(self).wf(),
            *final(self) == *old(self),
            code != 6 ==> r == Cpu::<T>::spec_reg_code(old(self).registers, code),
            code == 6 && old(self).interface.spec_readable(old(self).registers.spec_hl()) ==> r
                == old(self).interface.read_spec(old(self).registers.spec_hl()),
    {
        match code {
            0 => self.registers.get_b(),
            1 => self.registers.get_c(),
            2 => self.registers.get_d(),
            3 => self.registers.get_e(),
            4 => self.registers.get_h(),
            5 => self.registers.get_l(),
            6 => self.interface.get_byte(self.registers.get_hl()),
            _ => self.registers.get_a(),
        }
    }

    /// The register file after the operand a code names is written; code
    /// 6 is the memory operand and leaves the registers alone.
    pub open spec fn spec_reg_code_write(regs: Registers, code: u8, value: u8) -> Registers {
        if code % 8 == 0 {
            Registers { b: value, ..regs }
        } else if code % 8 == 1 {
            Registers { c: value, ..regs }
        } else if code % 8 == 2 {
            Registers { d: value, ..regs }
        } else if code % 8 == 3 {
            Registers { e: value, ..regs }
        } else if code % 8 == 4 {
            Registers { h: value, ..regs }
        } else if code % 8 == 5 {
            Registers { l: value, ..regs }
        } else if code % 8 == 6 {
            regs
        } else {
            Registers { a: value, ..regs }
        }
    }

    /// Write the operand an instruction code names: a register, or the
    /// byte at (HL) for code 6.
    fn reg_code_write(&mut self, code: u8, value: u8)
        requires
            old(self).wf(),
            code < 8,
        ensures
            final(self).wf(),
            *final(self) == (Cpu {
                registers: final(self).registers,
                interface: final(self).interface,
                ..*old(self)
            }),
            final(self).registers == Cpu::<T>::spec_reg_code_write(
                old(self).registers,
                code,
                value,
            ),
            code != 6 ==> final(self).interface == old(self).interface,
            code == 6 ==> spec_wrote(
                old(self).interface,
                final(self).interface,
                old(self).registers.spec_hl(),
                value,
            ),
    {
        match code {
            0 => self.registers.set_b(value),
            1 => self.registers.set_c(value),
            2 => self.registers.set_d(value),
            3 => self.registers.set_e(value),
            4 => self.registers.set_h(value),
            5 => self.registers.set_l(value),
            6 => {
                let addr = self.registers.get_hl();
                self.interface.set_byte(addr, value);
            },
            _ => self.registers.set_a(value),
        }
    }

    /// Whether the branch condition an instruction code names holds of
    /// the current flags: NZ, Z, NC or C.
    fn test_condition(&self, code: u8) -> (r: bool)
        ensures
            r == Cpu::<T>::spec_cond(code, self.registers.flags),
    {
        match code % 4 {
            0 => !self.registers.flags.zero,
            1 => self.registers.flags.zero,
            2 => !self.registers.flags.carry,
            _ => self.registers.flags.carry,
        }
    }

    /// Apply the 8-bit arithmetic group an instruction code names to A.
    fn alu_apply(&mut self, y: u8, value: u8)
        requires
            old(self).wf(),
            y < 8,
        ensures
            final(self).wf(),
            *final(self) == (Cpu { registers: final(self).registers, ..*old(self) }),
            ({
                let r = crate::alu::spec_alu8(
                    y,
                    old(self).registers.a,
                    value,
                    old(self).registers.flags.carry,
                );
                final(self).registers == (Registers {
                    a: r.0,
                    flags: r.1,
                    ..old(self).registers
                })
            }),
    {
        let a = self.registers.get_a();
        let carry = self.registers.flags.carry;
        if y == 0 {
            let (r, f) = crate::alu::alu_add(a, value);
            self.registers.set_a(r);
            self.registers.flags = f;
        } else if y == 1 {
            let (r, f) = crate::alu::alu_adc(a, value, carry);
            self.registers.set_a(r);
            self.registers.flags = f;
        } else if y == 2 {
            let (r, f) = crate::alu::alu_sub(a, value);
            self.registers.set_a(r);
            self.registers.flags = f;
        } else if y == 3 {
            let (r, f) = crate::alu::alu_sbc(a, value, carry);
            self.registers.set_a(r);
            self.registers.flags = f;
        } else if y == 4 {
            let (r, f) = crate::alu::alu_and(a, value);
            self.registers.set_a(r);
            self.registers.flags = f;
        } else if y == 5 {
            let (r, f) = crate::alu::alu_xor(a, value);
            self.registers.set_a(r);
            self.registers.flags = f;
        } else if y == 6 {
            let (r, f) = crate::alu::alu_or(a, value);
            self.registers.set_a(r);
            self.registers.flags = f;
        } else {
            let (_, f) = crate::alu::alu_sub(a, value);
            self.registers.flags = f;
        }
    }

    /// Enter the service routine of an interrupt line: the line is
    /// acknowledged, IME falls, the return address is pushed and PC jumps
    /// to the line's vector. The dispatch costs 20 T-cycles.
    fn service_interrupt(&mut self, line: InterruptLine) -> (cycles: u8)
        requires
            old(self).wf(),
        ensures
            final(self).wf(),
            cycles == 20,
            final(self).registers == (Registers {
                pc: line.spec_vector(),
                sp: spec_wrap_sub(old(self).registers.sp, 2),
                ..old(self).registers
            }),
            final(self).state == Step::Run,
            final(self).op_code == old(self).op_code,
            final(self).illegal_opcode == old(self).illegal_opcode,
            !final(self).interface.ih().interrupt_master_enabled,
            ({
                let sp = old(self).registers.sp;
                let hi_addr = spec_wrap_sub(sp, 1);
                let lo_addr = spec_wrap_sub(sp, 2);
                old(self).interface.stack_ok(hi_addr) && old(self).interface.stack_ok(lo_addr)
                    ==> ({
                    &&& final(self).interface.read_spec(hi_addr) == old(self).registers.pc / 256
                    &&& final(self).interface.read_spec(lo_addr) == old(self).registers.pc % 256
                    &&& forall|a: u16|
                        (old(self).interface.stack_ok(a) && !old(self).interface.aliases(
                            hi_addr,
                            a,
                        ) && !old(self).interface.aliases(lo_addr, a))
                            ==> final(self).interface.read_spec(a) == old(
                            self,
                        ).interface.read_spec(a)
                    &&& final(self).interface.ih() == old(self).interface.ih().spec_request(
                        line,
                        false,
                    ).spec_set_ime(false)
                })
            }),
    {
        self.interface.acknowledge(line);
        self.interface.change_interrupt_master_enabled(false);
        self.state = Step::Run;
        let pc = self.registers.get_pc();
        self.push_u16(pc);
        let vector = line.vector();
        self.registers.set_pc(vector);
        20
    }
}

impl<T: Interface> Cpu<T> {
    /// The 16-bit register pair an opcode's bits 4 and 5 name, SP in the
    /// last slot.
    fn rr_code(op: u8) -> (r: Reg16)
        ensures
            r == (if op / 16 % 4 == 0 {
                Reg16::BC
            } else if op / 16 % 4 == 1 {
                Reg16::DE
            } else if op / 16 % 4 == 2 {
                Reg16::HL
            } else {
                Reg16::SP
            }),
    {
        match op / 16 % 4 {
            0 => Reg16::BC,
            1 => Reg16::DE,
            2 => Reg16::HL,
            _ => Reg16::SP,
        }
    }

    /// Whether the branch condition an opcode's condition code names
    /// holds of the flags: NZ, Z, NC or C.
    pub open spec fn spec_cond(code: u8, f: crate::flags::Flags) -> bool {
        if code % 4 == 0 {
            !f.zero
        } else if code % 4 == 1 {
            f.zero
        } else if code % 4 == 2 {
            !f.carry
        } else {
            f.carry
        }
    }

    /// The opcodes whose full effect the executor's contract pins down:
    /// NOP, HALT and STOP, DI and EI, the register-to-register loads, the
    /// 8-bit arithmetic group on registers and on an immediate, the 8-bit
    /// register loads of an immediate, INC r and DEC r, and the relative
    /// jumps. The memory-operand forms and the remaining irregular
    /// opcodes keep their exact costs and the contracts of the helpers
    /// they are built from.
    pub open spec fn spec_covered(op: u8) -> bool {
        ||| op == 0x00
        ||| op == 0x10
        ||| op == 0x76
        ||| op == 0x18
        ||| (op == 0x20 || op == 0x28 || op == 0x30 || op == 0x38)
        ||| op == 0xF3
        ||| op == 0xFB
        ||| (0x40 <= op < 0x80 && op != 0x76 && op % 8 != 6 && (op - 0x40) / 8 != 6)
        ||| (0x80 <= op < 0xC0 && op % 8 != 6)
        ||| (op < 0x40 && op % 8 == 6 && op / 8 != 6)
        ||| (op >= 0xC0 && op % 8 == 6)
        ||| (op < 0x40 && (op % 8 == 4 || op % 8 == 5) && op / 8 != 6)
    }

    /// What one executed instruction did to the register file and run
    /// state, for every covered opcode, stated over the state right after
    /// the opcode fetch (`pre`). Immediate operands are pinned wherever
    /// the bus decodes the fetch address.
    pub open spec fn spec_execute_rel(pre: Cpu<T>, post: Cpu<T>, op: u8, cycles: u8) -> bool {
        let regs = pre.registers;
        let imm = pre.interface.read_spec(regs.pc);
        let imm_ok = pre.interface.spec_readable(regs.pc);
        let skip1 = Registers { pc: spec_wrap_add(regs.pc, 1), ..regs };
        &&& (op == 0x00 ==> (cycles == 4 && post.registers == regs && post.state == pre.state))
        &&& ((op == 0x10 || op == 0x76) ==> (cycles == 4 && post.registers == regs && post.state
            == Step::Halt))
        &&& ((op == 0xF3 || op == 0xFB) ==> (cycles == 4 && post.registers == regs && post.state
            == pre.state))
        &&& ((0x40 <= op < 0x80 && op != 0x76 && op % 8 != 6 && (op - 0x40) / 8 != 6) ==> (cycles
            == 4 && post.state == pre.state && post.registers == Cpu::<T>::spec_reg_code_write(
            regs,
            ((op - 0x40) / 8) as u8,
            Cpu::<T>::spec_reg_code(regs, op % 8),
        )))
        &&& ((0x80 <= op < 0xC0 && op % 8 != 6) ==> ({
            let r = crate::alu::spec_alu8(
                ((op - 0x80) / 8) as u8,
                regs.a,
                Cpu::<T>::spec_reg_code(regs, op % 8),
                regs.flags.carry,
            );
            cycles == 4 && post.state == pre.state && post.registers == (Registers {
                a: r.0,
                flags: r.1,
                ..regs
            })
        }))
        &&& ((op < 0x40 && op % 8 == 6 && op / 8 != 6) ==> (cycles == 8 && post.state == pre.state
            && (imm_ok ==> post.registers == Cpu::<T>::spec_reg_code_write(skip1, (op / 8) as u8, imm))))
        &&& ((op >= 0xC0 && op % 8 == 6) ==> ({
            let r = crate::alu::spec_alu8(((op - 0xC0) / 8) as u8, regs.a, imm, regs.flags.carry);
            cycles == 8 && post.state == pre.state && (imm_ok ==> post.registers == (Registers {
                a: r.0,
                flags: r.1,
                ..skip1
            }))
        }))
        &&& ((op < 0x40 && op % 8 == 4 && op / 8 != 6) ==> ({
            let v = Cpu::<T>::spec_reg_code(regs, (op / 8) as u8);
            cycles == 4 && post.state == pre.state && post.registers == (Registers {
                flags: crate::flags::Flags {
                    zero: v == 255,
                    negative: false,
                    half_carry: v % 16 == 15,
                    carry: regs.flags.carry,
                },
                ..Cpu::<T>::spec_reg_code_write(regs, (op / 8) as u8, ((v + 1) % 256) as u8)
            })
        }))
        &&& ((op < 0x40 && op % 8 == 5 && op / 8 != 6) ==> ({
            let v = Cpu::<T>::spec_reg_code(regs, (op / 8) as u8);
            cycles == 4 && post.state == pre.state && post.registers == (Registers {
                flags: crate::flags::Flags {
                    zero: v == 1,
                    negative: true,
                    half_carry: v % 16 == 0,
                    carry: regs.flags.carry,
                },
                ..Cpu::<T>::spec_reg_code_write(regs, (op / 8) as u8, ((v + 255) % 256) as u8)
            })
        }))
        &&& (op == 0x18 ==> (cycles == 12 && post.state == pre.state && (imm_ok ==> post.registers
            == (Registers {
            pc: ((spec_wrap_add(regs.pc, 1) + crate::alu::spec_sign_extend(imm)) % 0x10000) as u16,
            ..regs
        }))))
        &&& ((op == 0x20 || op == 0x28 || op == 0x30 || op == 0x38) ==> ({
            let taken = Cpu::<T>::spec_cond(((op - 0x20) / 8) as u8, regs.flags);
            &&& cycles == (if taken {
                12u8
            } else {
                8u8
            })
            &&& post.state == pre.state
            &&& (imm_ok ==> post.registers == (if taken {
                Registers {
                    pc: ((spec_wrap_add(regs.pc, 1) + crate::alu::spec_sign_extend(imm))
                        % 0x10000) as u16,
                    ..regs
                }
            } else {
                skip1
            }))
        }))
    }

    /// What one executed covered instruction left alone: the diagnostic
    /// latch, every plain-RAM byte, the bus shape, and the interrupt
    /// controller but for the effect of DI or EI.
    pub open spec fn spec_execute_frame(pre: Cpu<T>, post: Cpu<T>, op: u8) -> bool {
        &&& post.op_code == pre.op_code
        &&& post.illegal_opcode == pre.illegal_opcode
        &&& (forall|a: u16|
            pre.interface.stack_ok(a) ==> post.interface.read_spec(a) == pre.interface.read_spec(
                a,
            ))
        &&& (forall|a: u16| post.interface.stack_ok(a) == pre.interface.stack_ok(a))
        &&& (forall|a: u16| post.interface.spec_readable(a) == pre.interface.spec_readable(a))
        &&& post.interface.ih() == (if op == 0xF3 {
            InterruptHandler {
                interrupt_master_enabled: false,
                enable_delay: 0,
                ..pre.interface.ih()
            }
        } else if op == 0xFB {
            InterruptHandler { enable_delay: 2, ..pre.interface.ih() }
        } else {
            pre.interface.ih()
        })
    }

    /// Execute one instruction whose opcode has been fetched, and return
    /// its exact T-cycle cost. For every covered opcode the effect on the
    /// register file, run state, interrupt controller and plain RAM is
    /// stated exactly.
    fn execute(&mut self, op: u8) -> (cycles: u8)
        requires
            old(self).wf(),
        ensures
            final(self).wf(),
            4 <= cycles <= 24,
            cycles % 4 == 0,
            old(self).illegal_opcode ==> final(self).illegal_opcode,
            final(self).op_code == old(self).op_code,
            Cpu::<T>::spec_execute_rel(*old(self), *final(self), op, cycles),
            Cpu::<T>::spec_covered(op) ==> Cpu::<T>::spec_execute_frame(
                *old(self),
                *final(self),
                op,
            ),
    {
        if op == 0xCB {
            self.execute_cb()
        } else if op == 0x76 {
            // HALT
            self.state = Step::Halt;
            4
        } else if 0x40 <= op && op < 0x80 {
            // LD r, r'
            let y = (op - 0x40) / 8;
            let z = op % 8;
            let v = self.reg_code_read(z);
            self.reg_code_write(y, v);
            if y == 6 || z == 6 {
                8
            } else {
                4
            }
        } else if 0x80 <= op && op < 0xC0 {
            // the 8-bit arithmetic block on A
            let y = (op - 0x80) / 8;
            let z = op % 8;
            let v = self.reg_code_read(z);
            self.alu_apply(y, v);
            if z == 6 {
                8
            } else {
                4
            }
        } else if op < 0x40 {
            self.execute_low(op)
        } else {
            self.execute_high(op)
        }
    }

    /// The irregular opcodes 0x00 to 0x3F: loads, 16-bit arithmetic,
    /// rotates of A, relative jumps and the flag instructions.
    #[verifier::rlimit(100)]
    #[verifier::spinoff_prover]
    fn execute_low(&mut self, op: u8) -> (cycles: u8)
        requires
            old(self).wf(),
            op < 0x40,
        ensures
            final(self).wf(),
            4 <= cycles <= 24,
            cycles % 4 == 0,
            final(self).illegal_opcode == old(self).illegal_opcode,
            final(self).op_code == old(self).op_code,
            Cpu::<T>::spec_execute_rel(*old(self), *final(self), op, cycles),
            Cpu::<T>::spec_covered(op) ==> Cpu::<T>::spec_execute_frame(
                *old(self),
                *final(self),
                op,
            ),
    {
        let col = op % 8;
        if op == 0x00 {
            // NOP
            4
        } else if op == 0x10 {
            // STOP, treated as HALT by this core
            self.state = Step::Halt;
            4
        } else if op == 0x18 {
            // JR e8
            let off = self.read_next_byte();
            let pc = self.registers.get_pc();
            self.registers.set_pc(crate::alu::offset_word(pc, off));
            12
        } else if op == 0x20 || op == 0x28 || op == 0x30 || op == 0x38 {
            // JR cc, e8
            let off = self.read_next_byte();
            if self.test_condition((op - 0x20) / 8) {
                let pc = self.registers.get_pc();
                self.registers.set_pc(crate::alu::offset_word(pc, off));
                12
            } else {
                8
            }
        } else if op == 0x08 {
            // LD (a16), SP
            let addr = self.read_next_word();
            let sp = self.registers.get_sp();
            self.interface.set_byte(addr, crate::registers::get_lsb(sp));
            self.interface.set_byte(wrap_add(addr, 1), crate::registers::get_msb(sp));
            20
        } else if col == 1 {
            // LD rr, d16 and ADD HL, rr
            if op % 16 == 1 {
                let v = self.read_next_word();
                let rr = Cpu::<T>::rr_code(op);
                self.registers.write16(rr, v);
                12
            } else {
                let rr = Cpu::<T>::rr_code(op);
                let v = self.registers.read16(rr);
                let hl = self.registers.get_hl();
                let (r, f) = crate::alu::alu_add16(hl, v, self.registers.flags);
                self.registers.set_hl(r);
                self.registers.flags = f;
                8
            }
        } else if col == 2 {
            // the indirect loads between A and (BC), (DE), (HL+), (HL-)
            let hl = self.registers.get_hl();
            if op == 0x02 {
                let addr = self.registers.get_bc();
                let a = self.registers.get_a();
                self.interface.set_byte(addr, a);
            } else if op == 0x12 {
                let addr = self.registers.get_de();
                let a = self.registers.get_a();
                self.interface.set_byte(addr, a);
            } else if op == 0x22 {
                let a = self.registers.get_a();
                self.interface.set_byte(hl, a);
                self.registers.set_hl(wrap_add(hl, 1));
            } else if op == 0x32 {
                let a = self.registers.get_a();
                self.interface.set_byte(hl, a);
                self.registers.set_hl(wrap_sub(hl, 1));
            } else if op == 0x0A {
                let v = self.interface.get_byte(self.registers.get_bc());
                self.registers.set_a(v);
            } else if op == 0x1A {
                let v = self.interface.get_byte(self.registers.get_de());
                self.registers.set_a(v);
            } else if op == 0x2A {
                let v = self.interface.get_byte(hl);
                self.registers.set_a(v);
                self.registers.set_hl(wrap_add(hl, 1));
            } else {
                let v = self.interface.get_byte(hl);
                self.registers.set_a(v);
                self.registers.set_hl(wrap_sub(hl, 1));
            }
            8
        } else if col == 3 {
            // INC rr and DEC rr
            let rr = Cpu::<T>::rr_code(op);
            let v = self.registers.read16(rr);
            if op % 16 == 3 {
                self.registers.write16(rr, wrap_add(v, 1));
            } else {
                self.registers.write16(rr, wrap_sub(v, 1));
            }
            8
        } else if col == 4 {
            // INC r
            let y = op / 8;
            let v = self.reg_code_read(y);
            let (r, f) = crate::alu::alu_inc(v, self.registers.flags);
            self.reg_code_write(y, r);
            self.registers.flags = f;
            if y == 6 {
                12
            } else {
                4
            }
        } else if col == 5 {
            // DEC r
            let y = op / 8;
            let v = self.reg_code_read(y);
            let (r, f) = crate::alu::alu_dec(v, self.registers.flags);
            self.reg_code_write(y, r);
            self.registers.flags = f;
            if y == 6 {
                12
            } else {
                4
            }
        } else if col == 6 {
            // LD r, d8
            let y = op / 8;
            let v = self.read_next_byte();
            self.reg_code_write(y, v);
            if y == 6 {
                12
            } else {
                8
            }
        } else {
            // the accumulator rotates and flag instructions
            let a = self.registers.get_a();
            let carry = self.registers.flags.carry;
            if op == 0x07 {
                let (r, c) = crate::alu::alu_rlc(a);
                self.registers.set_a(r);
                self.registers.flags = crate::flags::Flags {
                    zero: false,
                    negative: false,
                    half_carry: false,
                    carry: c,
                };
            } else if op == 0x0F {
                let (r, c) = crate::alu::alu_rrc(a);
                self.registers.set_a(r);
                self.registers.flags = crate::flags::Flags {
                    zero: false,
                    negative: false,
                    half_carry: false,
                    carry: c,
                };
            } else if op == 0x17 {
                let (r, c) = crate::alu::alu_rl(a, carry);
                self.registers.set_a(r);
                self.registers.flags = crate::flags::Flags {
                    zero: false,
                    negative: false,
                    half_carry: false,
                    carry: c,
                };
            } else if op == 0x1F {
                let (r, c) = crate::alu::alu_rr(a, carry);
                self.registers.set_a(r);
                self.registers.flags = crate::flags::Flags {
                    zero: false,
                    negative: false,
                    half_carry: false,
                    carry: c,
                };
            } else if op == 0x27 {
                let (r, f) = crate::alu::alu_daa(a, self.registers.flags);
                self.registers.set_a(r);
                self.registers.flags = f;
            } else if op == 0x2F {
                let (r, f) = crate::alu::alu_cpl(a, self.registers.flags);
                self.registers.set_a(r);
                self.registers.flags = f;
            } else if op == 0x37 {
                // SCF
                self.registers.flags = crate::flags::Flags {
                    zero: self.registers.flags.zero,
                    negative: false,
                    half_carry: false,
                    carry: true,
                };
            } else {
                // CCF
                self.registers.flags = crate::flags::Flags {
                    zero: self.registers.flags.zero,
                    negative: false,
                    half_carry: false,
                    carry: !carry,
                };
            }
            4
        }
    }

    /// The irregular opcodes 0xC0 to 0xFF: stack, calls, returns, jumps,
    /// high-page loads, the interrupt enables, and the unknown opcodes,
    /// which latch the diagnostic flag and halt the CPU.
    #[verifier::rlimit(100)]
    #[verifier::spinoff_prover]
    fn execute_high(&mut self, op: u8) -> (cycles: u8)
        requires
            old(self).wf(),
            0xC0 <= op,
            op != 0xCB,
        ensures
            final(self).wf(),
            4 <= cycles <= 24,
            cycles % 4 == 0,
            old(self).illegal_opcode ==> final(self).illegal_opcode,
            final(self).op_code == old(self).op_code,
            Cpu::<T>::spec_execute_rel(*old(self), *final(self), op, cycles),
            Cpu::<T>::spec_covered(op) ==> Cpu::<T>::spec_execute_frame(
                *old(self),
                *final(self),
                op,
            ),
    {
        if op == 0xC0 || op == 0xC8 || op == 0xD0 || op == 0xD8 {
            // RET cc
            if self.test_condition((op - 0xC0) / 8) {
                let t = self.pop_u16();
                self.registers.set_pc(t);
                20
            } else {
                8
            }
        } else if op == 0xC1 || op == 0xD1 || op == 0xE1 || op == 0xF1 {
            // POP rr
            let v = self.pop_u16();
            if op == 0xC1 {
                self.registers.set_bc(v);
            } else if op == 0xD1 {
                self.registers.set_de(v);
            } else if op == 0xE1 {
                self.registers.set_hl(v);
            } else {
                self.registers.set_af(v);
            }
            12
        } else if op == 0xC2 || op == 0xCA || op == 0xD2 || op == 0xDA {
            // JP cc, a16
            let t = self.read_next_word();
            if self.test_condition((op - 0xC2) / 8) {
                self.registers.set_pc(t);
                16
            } else {
                12
            }
        } else if op == 0xC3 {
            // JP a16
            let t = self.read_next_word();
            self.registers.set_pc(t);
            16
        } else if op == 0xCD {
            // CALL a16
            let t = self.read_next_word();
            let pc = self.registers.get_pc();
            self.push_u16(pc);
            self.registers.set_pc(t);
            24
        } else if op == 0xC4 || op == 0xCC || op == 0xD4 || op == 0xDC {
            // CALL cc, a16
            let t = self.read_next_word();
            if self.test_condition((op - 0xC4) / 8) {
                let pc = self.registers.get_pc();
                self.push_u16(pc);
                self.registers.set_pc(t);
                24
            } else {
                12
            }
        } else if op == 0xC5 || op == 0xD5 || op == 0xE5 || op == 0xF5 {
            // PUSH rr
            let v = if op == 0xC5 {
                self.registers.get_bc()
            } else if op == 0xD5 {
                self.registers.get_de()
            } else if op == 0xE5 {
                self.registers.get_hl()
            } else {
                self.registers.get_af()
            };
            self.push_u16(v);
            16
        } else if op % 8 == 6 {
            // the 8-bit arithmetic block on an immediate
            let y = (op - 0xC0) / 8;
            let v = self.read_next_byte();
            self.alu_apply(y, v);
            8
        } else if op % 8 == 7 {
            // RST
            let pc = self.registers.get_pc();
            self.push_u16(pc);
            self.registers.set_pc((op - 0xC7) as u16);
            16
        } else if op == 0xC9 {
            // RET
            let t = self.pop_u16();
            self.registers.set_pc(t);
            16
        } else if op == 0xD9 {
            // RETI enables interrupts at once
            let t = self.pop_u16();
            self.registers.set_pc(t);
            self.interface.change_interrupt_master_enabled(true);
            16
        } else if op == 0xE0 {
            // LD (0xFF00 + a8), A
            let off = self.read_next_byte();
            let a = self.registers.get_a();
            self.interface.set_byte(0xFF00 + off as u16, a);
            12
        } else if op == 0xF0 {
            // LD A, (0xFF00 + a8)
            let off = self.read_next_byte();
            let v = self.interface.get_byte(0xFF00 + off as u16);
            self.registers.set_a(v);
            12
        } else if op == 0xE2 {
            // LD (0xFF00 + C), A
            let a = self.registers.get_a();
            let c = self.registers.get_c();
            self.interface.set_byte(0xFF00 + c as u16, a);
            8
        } else if op == 0xF2 {
            // LD A, (0xFF00 + C)
            let c = self.registers.get_c();
            let v = self.interface.get_byte(0xFF00 + c as u16);
            self.registers.set_a(v);
            8
        } else if op == 0xE8 {
            // ADD SP, e8
            let e = self.read_next_byte();
            let sp = self.registers.get_sp();
            let (r, f) = crate::alu::alu_add_sp(sp, e);
            self.registers.set_sp(r);
            self.registers.flags = f;
            16
        } else if op == 0xF8 {
            // LD HL, SP + e8
            let e = self.read_next_byte();
            let sp = self.registers.get_sp();
            let (r, f) = crate::alu::alu_add_sp(sp, e);
            self.registers.set_hl(r);
            self.registers.flags = f;
            12
        } else if op == 0xF9 {
            // LD SP, HL
            let hl = self.registers.get_hl();
            self.registers.set_sp(hl);
            8
        } else if op == 0xE9 {
            // JP (HL)
            let hl = self.registers.get_hl();
            self.registers.set_pc(hl);
            4
        } else if op == 0xEA {
            // LD (a16), A
            let addr = self.read_next_word();
            let a = self.registers.get_a();
            self.interface.set_byte(addr, a);
            16
        } else if op == 0xFA {
            // LD A, (a16)
            let addr = self.read_next_word();
            let v = self.interface.get_byte(addr);
            self.registers.set_a(v);
            16
        } else if op == 0xF3 {
            // DI takes effect at once
            self.interface.set_interrupt_disabled(true);
            4
        } else if op == 0xFB {
            // EI takes effect after the following instruction
            self.interface.set_interrupt_disabled(false);
            4
        } else {
            // an unknown opcode halts the CPU and latches the diagnostic
            self.illegal_opcode = true;
            self.state = Step::Halt;
            4
        }
    }

    /// The CB-prefixed rotate, shift, swap and bit instructions.
    fn execute_cb(&mut self) -> (cycles: u8)
        requires
            old(self).wf(),
        ensures
            final(self).wf(),
            4 <= cycles <= 24,
            cycles % 4 == 0,
            final(self).illegal_opcode == old(self).illegal_opcode,
            final(self).op_code == old(self).op_code,
    {
        let sub = self.read_next_byte();
        let z = sub % 8;
        let y = sub / 8 % 8;
        let group = sub / 64;
        if group == 0 {
            let v = self.reg_code_read(z);
            let carry = self.registers.flags.carry;
            if y == 6 {
                let (r, f) = crate::alu::alu_swap(v);
                self.reg_code_write(z, r);
                self.registers.flags = f;
            } else {
                let (r, c) = if y == 0 {
                    crate::alu::alu_rlc(v)
                } else if y == 1 {
                    crate::alu::alu_rrc(v)
                } else if y == 2 {
                    crate::alu::alu_rl(v, carry)
                } else if y == 3 {
                    crate::alu::alu_rr(v, carry)
                } else if y == 4 {
                    crate::alu::alu_sla(v)
                } else if y == 5 {
                    crate::alu::alu_sra(v)
                } else {
                    crate::alu::alu_srl(v)
                };
                self.reg_code_write(z, r);
                self.registers.flags = crate::flags::Flags {
                    zero: r == 0,
                    negative: false,
                    half_carry: false,
                    carry: c,
                };
            }
            if z == 6 {
                16
            } else {
                8
            }
        } else if group == 1 {
            // BIT y, r
            let v = self.reg_code_read(z);
            self.registers.flags = crate::alu::alu_bit(v, y, self.registers.flags);
            if z == 6 {
                12
            } else {
                8
            }
        } else if group == 2 {
            // RES y, r
            let v = self.reg_code_read(z);
            let r = crate::alu::alu_res(v, y);
            self.reg_code_write(z, r);
            if z == 6 {
                16
            } else {
                8
            }
        } else {
            // SET y, r
            let v = self.reg_code_read(z);
            let r = crate::alu::alu_set(v, y);
            self.reg_code_write(z, r);
            if z == 6 {
                16
            } else {
                8
            }
        }
    }

    /// Fetch the opcode at PC and execute it.
    #[verifier::rlimit(100)]
    fn fetch_and_execute(&mut self) -> (cycles: u8)
        requires
            old(self).wf(),
        ensures
            final(self).wf(),
            4 <= cycles <= 24,
            cycles % 4 == 0,
            old(self).illegal_opcode ==> final(self).illegal_opcode,
            old(self).interface.spec_readable(old(self).registers.pc) ==> ({
                let op = old(self).interface.read_spec(old(self).registers.pc);
                let mid = Cpu {
                    registers: (Registers {
                        pc: spec_wrap_add(old(self).registers.pc, 1),
                        ..old(self).registers
                    }),
                    op_code: op,
                    ..*old(self)
                };
                &&& final(self).op_code == op
                &&& Cpu::<T>::spec_execute_rel(mid, *final(self), op, cycles)
                &&& (Cpu::<T>::spec_covered(op) ==> Cpu::<T>::spec_execute_frame(
                    mid,
                    *final(self),
                    op,
                ))
            }),
    {
        let ghost pre = *self;
        let op = self.read_next_byte();
        self.op_code = op;
        let ghost mid_actual = *self;
        let c = self.execute(op);
        proof {
            if pre.interface.spec_readable(pre.registers.pc) {
                assert(op == pre.interface.read_spec(pre.registers.pc));
                assert(mid_actual == (Cpu {
                    registers: (Registers {
                        pc: spec_wrap_add(pre.registers.pc, 1),
                        ..pre.registers
                    }),
                    op_code: op,
                    ..pre
                }));
            }
        }
        c
    }

    /// How one CPU step relates the old machine state to the new. With
    /// IME on and a line both requested and enabled, the step is the
    /// dispatch: 20 T-cycles, the return address pushed (pinned wherever
    /// the stack sits in plain RAM), the served line's IF bit and IME
    /// cleared, PC at the vector. Sleeping through HALT with nothing
    /// pending costs 4 T-cycles and moves only the delayed EI enable.
    /// Otherwise one instruction runs: the opcode is fetched at PC, and
    /// for every covered opcode the exact effect and cost follow, with
    /// the delayed EI enable advanced after it.
    pub open spec fn spec_step_rel(pre: Cpu<T>, post: Cpu<T>, cycles: u8) -> bool {
        let pending_any = pre.interface.ih().spec_pending().spec_any();
        let dispatch = pre.interface.ih().interrupt_master_enabled && pending_any;
        &&& 4 <= cycles <= 24
        &&& cycles % 4 == 0
        &&& (pre.illegal_opcode ==> post.illegal_opcode)
        &&& (dispatch ==> (match pre.interface.ih().spec_pending().spec_highest_priority() {
            Some(line) => {
                &&& cycles == 20
                &&& post.registers == (Registers {
                    pc: line.spec_vector(),
                    sp: spec_wrap_sub(pre.registers.sp, 2),
                    ..pre.registers
                })
                &&& post.state == Step::Run
                &&& post.op_code == pre.op_code
                &&& post.illegal_opcode == pre.illegal_opcode
                &&& !post.interface.ih().interrupt_master_enabled
                &&& ({
                    let hi_addr = spec_wrap_sub(pre.registers.sp, 1);
                    let lo_addr = spec_wrap_sub(pre.registers.sp, 2);
                    pre.interface.stack_ok(hi_addr) && pre.interface.stack_ok(lo_addr) ==> ({
                        &&& post.interface.read_spec(hi_addr) == pre.registers.pc / 256
                        &&& post.interface.read_spec(lo_addr) == pre.registers.pc % 256
                        &&& forall|a: u16|
                            pre.interface.stack_ok(a) && !pre.interface.aliases(hi_addr, a)
                                && !pre.interface.aliases(lo_addr, a)
                                ==> post.interface.read_spec(a) == pre.interface.read_spec(a)
                        &&& post.interface.ih() == pre.interface.ih().spec_request(
                            line,
                            false,
                        ).spec_set_ime(false)
                    })
                })
            },
            None => false,
        }))
        &&& (!dispatch && pre.state == Step::Halt && !pending_any ==> ({
            &&& cycles == 4
            &&& post.registers == pre.registers
            &&& post.state == Step::Halt
            &&& post.op_code == pre.op_code
            &&& post.illegal_opcode == pre.illegal_opcode
            &&& post.interface.ih() == pre.interface.ih().spec_ime_step()
            &&& forall|a: u16|
                pre.interface.stack_ok(a) ==> post.interface.read_spec(a)
                    == pre.interface.read_spec(a)
        }))
        &&& (!dispatch && (pre.state == Step::Run || pending_any) && pre.interface.spec_readable(
            pre.registers.pc,
        ) ==> ({
            let op = pre.interface.read_spec(pre.registers.pc);
            let mid = Cpu {
                registers: (Registers {
                    pc: spec_wrap_add(pre.registers.pc, 1),
                    ..pre.registers
                }),
                op_code: op,
                state: Step::Run,
                ..pre
            };
            &&& post.op_code == op
            &&& Cpu::<T>::spec_execute_rel(mid, post, op, cycles)
            &&& (Cpu::<T>::spec_covered(op) ==> ({
                &&& post.illegal_opcode == pre.illegal_opcode
                &&& (forall|a: u16|
                    pre.interface.stack_ok(a) ==> post.interface.read_spec(a)
                        == pre.interface.read_spec(a))
                &&& post.interface.ih() == (if op == 0xF3 {
                    InterruptHandler {
                        interrupt_master_enabled: false,
                        enable_delay: 0,
                        ..pre.interface.ih()
                    }
                } else if op == 0xFB {
                    InterruptHandler { enable_delay: 1, ..pre.interface.ih() }
                } else {
                    pre.interface.ih().spec_ime_step()
                })
            }))
        }))
    }

    /// One CPU step: serve the highest pending enabled interrupt when IME
    /// allows, sleep through HALT until a line is pending, and otherwise
    /// run one instruction, exactly as `spec_step_rel` describes. Every
    /// step costs between 4 and 24 T-cycles, always a multiple of 4.
    #[verifier::rlimit(100)]
    pub fn step(&mut self) -> (cycles: u8)
        requires
            old(self).wf(),
        ensures
            final(self).wf(),
            4 <= cycles <= 24,
            cycles % 4 == 0,
            Cpu::<T>::spec_step_rel(*old(self), *final(self), cycles),
    {
        if self.interface.interrupt_master_enabled() {
            let pending = self.interface.highest_pending();
            match pending {
                Some(line) => {
                    return self.service_interrupt(line);
                },
                None => {},
            }
        }
        let run_now = match self.state {
            Step::Halt => self.interface.any_enabled(),
            Step::Run => true,
        };
        if !run_now {
            self.interface.step();
            return 4;
        }
        self.state = Step::Run;
        let ghost fetch_pre = *self;
        let c = self.fetch_and_execute();
        let ghost mid_post = *self;
        self.interface.step();
        proof {
            if fetch_pre.interface.spec_readable(fetch_pre.registers.pc) {
                let op = fetch_pre.interface.read_spec(fetch_pre.registers.pc);
                let mid = Cpu {
                    registers: (Registers {
                        pc: spec_wrap_add(fetch_pre.registers.pc, 1),
                        ..fetch_pre.registers
                    }),
                    op_code: op,
                    ..fetch_pre
                };
                assert(Cpu::<T>::spec_execute_rel(mid, mid_post, op, c));
                assert(mid_post.registers == self.registers && mid_post.state == self.state);
                assert(Cpu::<T>::spec_execute_rel(mid, *self, op, c));
                if Cpu::<T>::spec_covered(op) {
                    assert(Cpu::<T>::spec_execute_frame(mid, mid_post, op));
                    assert forall|a: u16|
                        fetch_pre.interface.stack_ok(a) implies self.interface.read_spec(a)
                        == fetch_pre.interface.read_spec(a) by {
                        assert(mid_post.interface.read_spec(a) == fetch_pre.interface.read_spec(
                            a,
                        ));
                        assert(mid_post.interface.stack_ok(a));
                    }
                }
            }
        }
        c
    }
}

/// The value an 8-bit register name reads as.
pub open spec fn spec_reg8(regs: Registers, src: Reg8) -> u8 {
    match src {
        Reg8::A => regs.a,
        Reg8::B => regs.b,
        Reg8::C => regs.c,
        Reg8::D => regs.d,
        Reg8::E => regs.e,
        Reg8::H => regs.h,
        Reg8::L => regs.l,
    }
}

impl<T: Interface> In8<Reg8> for Cpu<T> {
    open spec fn in8_wf(&self) -> bool {
        true
    }

    fn read_8(&mut self, src: Reg8) -> (r: u8)
        ensures
            *final(self) == *old(self),
            r == spec_reg8(old(self).registers, src),
    {
        match src {
            Reg8::A => self.registers.a,
            Reg8::B => self.registers.b,
            Reg8::C => self.registers.c,
            Reg8::D => self.registers.d,
            Reg8::E => self.registers.e,
            Reg8::H => self.registers.h,
            Reg8::L => self.registers.l,
        }
    }
}

impl<T: Interface> Out8<Reg8> for Cpu<T> {
    open spec fn out8_wf(&self) -> bool {
        true
    }

    fn write_8(&mut self, dst: Reg8, val: u8)
        ensures
            *final(self) == (Cpu { registers: final(self).registers, ..*old(self) }),
            final(self).registers == (match dst {
                Reg8::A => Registers { a: val, ..old(self).registers },
                Reg8::B => Registers { b: val, ..old(self).registers },
                Reg8::C => Registers { c: val, ..old(self).registers },
                Reg8::D => Registers { d: val, ..old(self).registers },
                Reg8::E => Registers { e: val, ..old(self).registers },
                Reg8::H => Registers { h: val, ..old(self).registers },
                Reg8::L => Registers { l: val, ..old(self).registers },
            }),
    {
        match dst {
            Reg8::A => self.registers.set_a(val),
            Reg8::B => self.registers.set_b(val),
            Reg8::C => self.registers.set_c(val),
            Reg8::D => self.registers.set_d(val),
            Reg8::E => self.registers.set_e(val),
            Reg8::H => self.registers.set_h(val),
            Reg8::L => self.registers.set_l(val),
        }
    }
}

impl<T: Interface> In16<Reg16> for Cpu<T> {
    open spec fn in16_wf(&self) -> bool {
        true
    }

    fn read_16(&mut self, src: Reg16) -> (r: u16)
        ensures
            *final(self) == *old(self),
            r == old(self).registers.spec_read16(src),
    {
        self.registers.read16(src)
    }
}

impl<T: Interface> Out16<Reg16> for Cpu<T> {
    open spec fn out16_wf(&self) -> bool {
        true
    }

    fn write_16(&mut self, dst: Reg16, val: u16)
        ensures
            *final(self) == (Cpu { registers: final(self).registers, ..*old(self) }),
            final(self).registers.spec_read16(dst) == (match dst {
                Reg16::AF => (val / 16 * 16) as u16,
                _ => val,
            }),
            final(self).registers.pc == old(self).registers.pc,
    {
        self.registers.write16(dst, val);
    }
}

impl<T: Interface> In8<Immediate8> for Cpu<T> {
    open spec fn in8_wf(&self) -> bool {
        self.wf()
    }

    fn read_8(&mut self, src: Immediate8) -> (r: u8)
        ensures
            final(self).wf(),
            *final(self) == (Cpu { registers: final(self).registers, ..*old(self) }),
            final(self).registers == (Registers {
                pc: spec_wrap_add(old(self).registers.pc, 1),
                ..old(self).registers
            }),
            old(self).interface.spec_readable(old(self).registers.pc) ==> r == old(
                self,
            ).interface.read_spec(old(self).registers.pc),
    {
        self.read_next_byte()
    }
}

impl<T: Interface> In16<Immediate16> for Cpu<T> {
    open spec fn in16_wf(&self) -> bool {
        self.wf()
    }

    fn read_16(&mut self, src: Immediate16) -> (r: u16)
        ensures
            final(self).wf(),
            *final(self) == (Cpu { registers: final(self).registers, ..*old(self) }),
            final(self).registers == (Registers {
                pc: spec_wrap_add(old(self).registers.pc, 2),
                ..old(self).registers
            }),
            old(self).interface.spec_readable(old(self).registers.pc) && old(
                self,
            ).interface.spec_readable(spec_wrap_add(old(self).registers.pc, 1)) ==> r == old(
                self,
            ).interface.read_spec(old(self).registers.pc) + 256 * old(self).interface.read_spec(
                spec_wrap_add(old(self).registers.pc, 1),
            ),
    {
        self.read_next_word()
    }
}

impl<T: Interface> In8<Addr> for Cpu<T> {
    open spec fn in8_wf(&self) -> bool {
        self.wf()
    }

    /// Read through an indirect operand. The register side effects are
    /// exact; the value is pinned wherever the bus decodes the address.
    fn read_8(&mut self, src: Addr) -> (r: u8)
        ensures
            final(self).wf(),
            *final(self) == (Cpu { registers: final(self).registers, ..*old(self) }),
            ({
                let pre = *old(self);
                let regs = pre.registers;
                match src {
                    Addr::BC => final(self).registers == regs && (pre.interface.spec_readable(
                        regs.spec_bc(),
                    ) ==> r == pre.interface.read_spec(regs.spec_bc())),
                    Addr::DE => final(self).registers == regs && (pre.interface.spec_readable(
                        regs.spec_de(),
                    ) ==> r == pre.interface.read_spec(regs.spec_de())),
                    Addr::HL => final(self).registers == regs && (pre.interface.spec_readable(
                        regs.spec_hl(),
                    ) ==> r == pre.interface.read_spec(regs.spec_hl())),
                    Addr::HLD => final(self).registers == (Registers {
                        h: (spec_wrap_sub(regs.spec_hl(), 1) / 256) as u8,
                        l: (spec_wrap_sub(regs.spec_hl(), 1) % 256) as u8,
                        ..regs
                    }) && (pre.interface.spec_readable(regs.spec_hl()) ==> r
                        == pre.interface.read_spec(regs.spec_hl())),
                    Addr::HLI => final(self).registers == (Registers {
                        h: (spec_wrap_add(regs.spec_hl(), 1) / 256) as u8,
                        l: (spec_wrap_add(regs.spec_hl(), 1) % 256) as u8,
                        ..regs
                    }) && (pre.interface.spec_readable(regs.spec_hl()) ==> r
                        == pre.interface.read_spec(regs.spec_hl())),
                    Addr::Direct => final(self).registers == (Registers {
                        pc: spec_wrap_add(regs.pc, 2),
                        ..regs
                    }) && ({
                        let target = (pre.interface.read_spec(regs.pc) + 256
                            * pre.interface.read_spec(spec_wrap_add(regs.pc, 1))) as u16;
                        pre.interface.spec_readable(regs.pc) && pre.interface.spec_readable(
                            spec_wrap_add(regs.pc, 1),
                        ) && pre.interface.spec_readable(target) ==> r == pre.interface.read_spec(
                            target,
                        )
                    }),
                    Addr::ReadOffset(ReadOffType::Register(r8)) => final(self).registers == regs
                        && ({
                        let target = (0xFF00 + spec_reg8(regs, r8)) as u16;
                        pre.interface.spec_readable(target) ==> r == pre.interface.read_spec(
                            target,
                        )
                    }),
                    Addr::ReadOffset(ReadOffType::Immediate8) => final(self).registers
                        == (Registers { pc: spec_wrap_add(regs.pc, 1), ..regs }) && ({
                        let target = (0xFF00 + pre.interface.read_spec(regs.pc)) as u16;
                        pre.interface.spec_readable(regs.pc) && pre.interface.spec_readable(
                            target,
                        ) ==> r == pre.interface.read_spec(target)
                    }),
                }
            }),
    {
        match src {
            Addr::BC => {
                let addr = self.registers.get_bc();
                self.interface.get_byte(addr)
            },
            Addr::DE => {
                let addr = self.registers.get_de();
                self.interface.get_byte(addr)
            },
            Addr::HL => {
                let addr = self.registers.get_hl();
                self.interface.get_byte(addr)
            },
            Addr::HLD => {
                let addr = self.registers.get_hl();
                self.registers.set_hl(wrap_sub(addr, 1));
                self.interface.get_byte(addr)
            },
            Addr::HLI => {
                let addr = self.registers.get_hl();
                self.registers.set_hl(wrap_add(addr, 1));
                self.interface.get_byte(addr)
            },
            Addr::Direct => {
                let addr = self.read_next_word();
                self.interface.get_byte(addr)
            },
            Addr::ReadOffset(so) => {
                let offset = match so {
                    ReadOffType::Register(r8) => self.read_8(r8),
                    ReadOffType::Immediate8 => self.read_next_byte(),
                };
                self.interface.get_byte(0xFF00 + offset as u16)
            },
        }
    }
}

impl<T: Interface> Out8<Addr> for Cpu<T> {
    open spec fn out8_wf(&self) -> bool {
        self.wf()
    }

    /// Write through an indirect operand. The register side effects are
    /// exact; the landed byte is pinned wherever the target is plain RAM.
    fn write_8(&mut self, dst: Addr, val: u8)
        ensures
            final(self).wf(),
            *final(self) == (Cpu {
                registers: final(self).registers,
                interface: final(self).interface,
                ..*old(self)
            }),
            ({
                let pre = *old(self);
                let regs = pre.registers;
                match dst {
                    Addr::BC => final(self).registers == regs && spec_wrote(
                        pre.interface,
                        final(self).interface,
                        regs.spec_bc(),
                        val,
                    ),
                    Addr::DE => final(self).registers == regs && spec_wrote(
                        pre.interface,
                        final(self).interface,
                        regs.spec_de(),
                        val,
                    ),
                    Addr::HL => final(self).registers == regs && spec_wrote(
                        pre.interface,
                        final(self).interface,
                        regs.spec_hl(),
                        val,
                    ),
                    Addr::HLD => final(self).registers == (Registers {
                        h: (spec_wrap_sub(regs.spec_hl(), 1) / 256) as u8,
                        l: (spec_wrap_sub(regs.spec_hl(), 1) % 256) as u8,
                        ..regs
                    }) && spec_wrote(pre.interface, final(self).interface, regs.spec_hl(), val),
                    Addr::HLI => final(self).registers == (Registers {
                        h: (spec_wrap_add(regs.spec_hl(), 1) / 256) as u8,
                        l: (spec_wrap_add(regs.spec_hl(), 1) % 256) as u8,
                        ..regs
                    }) && spec_wrote(pre.interface, final(self).interface, regs.spec_hl(), val),
                    Addr::Direct => final(self).registers == (Registers {
                        pc: spec_wrap_add(regs.pc, 2),
                        ..regs
                    }) && (pre.interface.spec_readable(regs.pc) && pre.interface.spec_readable(
                        spec_wrap_add(regs.pc, 1),
                    ) ==> spec_wrote(
                        pre.interface,
                        final(self).interface,
                        (pre.interface.read_spec(regs.pc) + 256 * pre.interface.read_spec(
                            spec_wrap_add(regs.pc, 1),
                        )) as u16,
                        val,
                    )),
                    Addr::ReadOffset(ReadOffType::Register(r8)) => final(self).registers == regs
                        && spec_wrote(
                        pre.interface,
                        final(self).interface,
                        (0xFF00 + spec_reg8(regs, r8)) as u16,
                        val,
                    ),
                    Addr::ReadOffset(ReadOffType::Immediate8) => final(self).registers
                        == (Registers { pc: spec_wrap_add(regs.pc, 1), ..regs }) && (
                    pre.interface.spec_readable(regs.pc) ==> spec_wrote(
                        pre.interface,
                        final(self).interface,
                        (0xFF00 + pre.interface.read_spec(regs.pc)) as u16,
                        val,
                    )),
                }
            }),
    {
        match dst {
            Addr::BC => {
                let addr = self.registers.get_bc();
                self.interface.set_byte(addr, val);
            },
            Addr::DE => {
                let addr = self.registers.get_de();
                self.interface.set_byte(addr, val);
            },
            Addr::HL => {
                let addr = self.registers.get_hl();
                self.interface.set_byte(addr, val);
            },
            Addr::HLD => {
                let addr = self.registers.get_hl();
                self.registers.set_hl(wrap_sub(addr, 1));
                self.interface.set_byte(addr, val);
            },
            Addr::HLI => {
                let addr = self.registers.get_hl();
                self.registers.set_hl(wrap_add(addr, 1));
                self.interface.set_byte(addr, val);
            },
            Addr::Direct => {
                let addr = self.read_next_word();
                self.interface.set_byte(addr, val);
            },
            Addr::ReadOffset(so) => {
                let offset = match so {
                    ReadOffType::Register(r8) => self.read_8(r8),
                    ReadOffType::Immediate8 => self.read_next_byte(),
                };
                self.interface.set_byte(0xFF00 + offset as u16, val);
            },
        }
    }
}

impl<T: Interface> In16<Addr16> for Cpu<T> {
    open spec fn in16_wf(&self) -> bool {
        self.wf()
    }

    /// Read the little-endian word at an immediate address.
    fn read_16(&mut self, src: Addr16) -> (r: u16)
        ensures
            final(self).wf(),
            *final(self) == (Cpu { registers: final(self).registers, ..*old(self) }),
            final(self).registers == (Registers {
                pc: spec_wrap_add(old(self).registers.pc, 2),
                ..old(self).registers
            }),
            ({
                let pre = *old(self);
                let regs = pre.registers;
                let target = (pre.interface.read_spec(regs.pc) + 256 * pre.interface.read_spec(
                    spec_wrap_add(regs.pc, 1),
                )) as u16;
                pre.interface.spec_readable(regs.pc) && pre.interface.spec_readable(
                    spec_wrap_add(regs.pc, 1),
                ) && pre.interface.spec_readable(target) && pre.interface.spec_readable(
                    spec_wrap_add(target, 1),
                ) ==> r == pre.interface.read_spec(target) + 256 * pre.interface.read_spec(
                    spec_wrap_add(target, 1),
                )
            }),
    {
        let addr = self.read_next_word();
        let lo = self.interface.get_byte(addr);
        let hi = self.interface.get_byte(wrap_add(addr, 1));
        (lo as u16) + 256 * (hi as u16)
    }
}

impl<T: Interface> Out16<Addr16> for Cpu<T> {
    open spec fn out16_wf(&self) -> bool {
        self.wf()
    }

    /// Write a word little-endian to an immediate address: the low byte
    /// lands at the target and the high byte one past it.
    fn write_16(&mut self, dst: Addr16, val: u16)
        ensures
            final(self).wf(),
            *final(self) == (Cpu {
                registers: final(self).registers,
                interface: final(self).interface,
                ..*old(self)
            }),
            final(self).registers == (Registers {
                pc: spec_wrap_add(old(self).registers.pc, 2),
                ..old(self).registers
            }),
            ({
                let pre = *old(self);
                let regs = pre.registers;
                let target = (pre.interface.read_spec(regs.pc) + 256 * pre.interface.read_spec(
                    spec_wrap_add(regs.pc, 1),
                )) as u16;
                let hi_addr = spec_wrap_add(target, 1);
                pre.interface.spec_readable(regs.pc) && pre.interface.spec_readable(
                    spec_wrap_add(regs.pc, 1),
                ) && pre.interface.stack_ok(target) && pre.interface.stack_ok(hi_addr) ==> ({
                    &&& final(self).interface.read_spec(target) == val % 256
                    &&& final(self).interface.read_spec(hi_addr) == val / 256
                    &&& forall|a: u16|
                        !pre.interface.aliases(target, a) && !pre.interface.aliases(hi_addr, a)
                            ==> final(self).interface.read_spec(a) == pre.interface.read_spec(a)
                    &&& final(self).interface.ih() == pre.interface.ih()
                    &&& forall|a: u16|
                        final(self).interface.stack_ok(a) == pre.interface.stack_ok(a)
                    &&& forall|a: u16|
                        final(self).interface.spec_readable(a) == pre.interface.spec_readable(a)
                })
            }),
    {
        let addr = self.read_next_word();
        let hi_a = wrap_add(addr, 1);
        proof {
            if self.interface.stack_ok(addr) && self.interface.stack_ok(hi_a) {
                self.interface.lemma_aliases_reflexive(addr);
                self.interface.lemma_aliases_reflexive(hi_a);
                self.interface.lemma_adjacent_distinct(addr, hi_a);
                self.interface.lemma_adjacent_distinct(hi_a, addr);
            }
        }
        self.interface.set_byte(addr, crate::registers::get_lsb(val));
        self.interface.set_byte(hi_a, crate::registers::get_msb(val));
    }
}

/// Once a push of a word and a pop at the same stack pointer have behaved
/// as their contracts say, the popped word is the pushed one: the 16-bit
/// stack round trip is the identity for every word value.
pub proof fn lemma_push_pop_identity<T: Interface>(
    pre: Cpu<T>,
    mid: Cpu<T>,
    value: u16,
    popped: u16,
)
    requires
        pre.interface.stack_ok(spec_wrap_sub(pre.registers.sp, 1)),
        pre.interface.stack_ok(spec_wrap_sub(pre.registers.sp, 2)),
        pre.interface.spec_readable(spec_wrap_sub(pre.registers.sp, 1)),
        pre.interface.spec_readable(spec_wrap_sub(pre.registers.sp, 2)),
        // the push landed as push_u16 promises
        mid.registers.sp == spec_wrap_sub(pre.registers.sp, 2),
        mid.interface.read_spec(spec_wrap_sub(pre.registers.sp, 1)) == value / 256,
        mid.interface.read_spec(spec_wrap_sub(pre.registers.sp, 2)) == value % 256,
        forall|a: u16|
            mid.interface.spec_readable(a) == pre.interface.spec_readable(a),
        // the pop read as pop_u16 promises
        popped == mid.interface.read_spec(mid.registers.sp) + 256 * mid.interface.read_spec(
            spec_wrap_add(mid.registers.sp, 1),
        ),
    ensures
        popped == value,
{
    let sp = pre.registers.sp;
    assert(spec_wrap_add(spec_wrap_sub(sp, 2), 1) == spec_wrap_sub(sp, 1));
    assert(value / 256 < 256);
    assert(value % 256 + 256 * (value / 256) == value);
}

} // verus!
