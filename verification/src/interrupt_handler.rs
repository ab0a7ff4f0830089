use vstd::prelude::*;

verus! {

/// One of the five interrupt lines, in priority order: the lowest bit is
/// served first.
#[derive(Clone, Copy, Debug, PartialEq, Eq, Structural)]
pub enum InterruptLine {
    Vblank,
    Stat,
    Timer,
    Serial,
    Joypad,
}

impl InterruptLine {
    /// The bit this line occupies in the IF and IE masks.
    pub open spec fn spec_index(self) -> nat {
        match self {
            InterruptLine::Vblank => 0,
            InterruptLine::Stat => 1,
            InterruptLine::Timer => 2,
            InterruptLine::Serial => 3,
            InterruptLine::Joypad => 4,
        }
    }

    /// The service vector the CPU jumps to for this line.
    pub open spec fn spec_vector(self) -> u16 {
        match self {
            InterruptLine::Vblank => 0x40,
            InterruptLine::Stat => 0x48,
            InterruptLine::Timer => 0x50,
            InterruptLine::Serial => 0x58,
            InterruptLine::Joypad => 0x60,
        }
    }

    pub fn vector(self) -> (r: u16)
        ensures
            r == self.spec_vector(),
    {
        match self {
            InterruptLine::Vblank => 0x40,
            InterruptLine::Stat => 0x48,
            InterruptLine::Timer => 0x50,
            InterruptLine::Serial => 0x58,
            InterruptLine::Joypad => 0x60,
        }
    }
}

/// A 5-bit interrupt mask, one flag per line.
#[derive(Clone, Copy, Debug, PartialEq, Eq, Structural)]
pub struct IntLines {
    pub vblank: bool,
    pub stat: bool,
    pub timer: bool,
    pub serial: bool,
    pub joypad: bool,
}

/// The 5-bit byte a mask reads as: VBLANK at bit 0 up to JOYPAD at bit 4.
pub open spec fn lines_byte(m: IntLines) -> u8 {
    ((if m.vblank { 1u8 } else { 0u8 }) + (if m.stat { 2u8 } else { 0u8 }) + (if m.timer {
        4u8
    } else {
        0u8
    }) + (if m.serial { 8u8 } else { 0u8 }) + (if m.joypad { 16u8 } else { 0u8 })) as u8
}

impl IntLines {
    pub open spec fn spec_none() -> IntLines {
        IntLines { vblank: false, stat: false, timer: false, serial: false, joypad: false }
    }

    pub fn none() -> (r: IntLines)
        ensures
            r == IntLines::spec_none(),
    {
        IntLines { vblank: false, stat: false, timer: false, serial: false, joypad: false }
    }

    /// Whether the given line's flag is set.
    pub open spec fn spec_get(self, line: InterruptLine) -> bool {
        match line {
            InterruptLine::Vblank => self.vblank,
            InterruptLine::Stat => self.stat,
            InterruptLine::Timer => self.timer,
            InterruptLine::Serial => self.serial,
            InterruptLine::Joypad => self.joypad,
        }
    }

    /// The mask with the given line's flag set to `value`.
    pub open spec fn spec_set(self, line: InterruptLine, value: bool) -> IntLines {
        match line {
            InterruptLine::Vblank => IntLines { vblank: value, ..self },
            InterruptLine::Stat => IntLines { stat: value, ..self },
            InterruptLine::Timer => IntLines { timer: value, ..self },
            InterruptLine::Serial => IntLines { serial: value, ..self },
            InterruptLine::Joypad => IntLines { joypad: value, ..self },
        }
    }

    pub fn get(self, line: InterruptLine) -> (r: bool)
        ensures
            r == self.spec_get(line),
    {
        match line {
            InterruptLine::Vblank => self.vblank,
            InterruptLine::Stat => self.stat,
            InterruptLine::Timer => self.timer,
            InterruptLine::Serial => self.serial,
            InterruptLine::Joypad => self.joypad,
        }
    }

    pub fn set(&mut self, line: InterruptLine, value: bool)
        ensures
            *final(self) == old(self).spec_set(line, value),
    {
        match line {
            InterruptLine::Vblank => self.vblank = value,
            InterruptLine::Stat => self.stat = value,
            InterruptLine::Timer => self.timer = value,
            InterruptLine::Serial => self.serial = value,
            InterruptLine::Joypad => self.joypad = value,
        }
    }

    /// Pack the five flags into a byte.
    pub fn to_byte(self) -> (r: u8)
        ensures
            r == lines_byte(self),
            r < 32,
    {
        let mut v: u8 = 0;
        if self.vblank {
            v += 1;
        }
        if self.stat {
            v += 2;
        }
        if self.timer {
            v += 4;
        }
        if self.serial {
            v += 8;
        }
        if self.joypad {
            v += 16;
        }
        v
    }

    /// Load the five flags from the low five bits of a byte.
    pub fn from_byte(v: u8) -> (r: IntLines)
        ensures
            r == (IntLines {
                vblank: v % 2 == 1,
                stat: v / 2 % 2 == 1,
                timer: v / 4 % 2 == 1,
                serial: v / 8 % 2 == 1,
                joypad: v / 16 % 2 == 1,
            }),
    {
        IntLines {
            vblank: v % 2 == 1,
            stat: v / 2 % 2 == 1,
            timer: v / 4 % 2 == 1,
            serial: v / 8 % 2 == 1,
            joypad: v / 16 % 2 == 1,
        }
    }

    /// The lines set both here and in `other`.
    pub open spec fn spec_and(self, other: IntLines) -> IntLines {
        IntLines {
            vblank: self.vblank && other.vblank,
            stat: self.stat && other.stat,
            timer: self.timer && other.timer,
            serial: self.serial && other.serial,
            joypad: self.joypad && other.joypad,
        }
    }

    pub open spec fn spec_any(self) -> bool {
        self.vblank || self.stat || self.timer || self.serial || self.joypad
    }

    /// The first set line in priority order, lowest bit first.
    pub open spec fn spec_highest_priority(self) -> Option<InterruptLine> {
        if self.vblank {
            Some(InterruptLine::Vblank)
        } else if self.stat {
            Some(InterruptLine::Stat)
        } else if self.timer {
            Some(InterruptLine::Timer)
        } else if self.serial {
            Some(InterruptLine::Serial)
        } else if self.joypad {
            Some(InterruptLine::Joypad)
        } else {
            None
        }
    }
}

/// Interrupt controller: the master enable IME with its one-instruction
/// enable delay, the requested mask IF and the enabled mask IE.
#[derive(Clone, Copy, Debug, PartialEq, Eq, Structural)]
pub struct InterruptHandler {
    pub interrupt_master_enabled: bool,
    /// Countdown of a pending EI: 2 right after the enabling instruction,
    /// 0 when no enable is pending. IME turns on when it reaches 0.
    pub enable_delay: u8,
    pub requested_interrupts: IntLines,
    pub enabled_interrupts: IntLines,
}

impl InterruptHandler {
    pub fn new() -> (r: InterruptHandler)
        ensures
            r == (InterruptHandler {
                interrupt_master_enabled: false,
                enable_delay: 0,
                requested_interrupts: IntLines::spec_none(),
                enabled_interrupts: IntLines::spec_none(),
            }),
    {
        InterruptHandler {
            interrupt_master_enabled: false,
            enable_delay: 0,
            requested_interrupts: IntLines::none(),
            enabled_interrupts: IntLines::none(),
        }
    }

    /// The state after a line is set or cleared in the requested mask IF.
    pub open spec fn spec_request(self, interrupt: InterruptLine, requested: bool) -> InterruptHandler {
        InterruptHandler {
            requested_interrupts: self.requested_interrupts.spec_set(interrupt, requested),
            ..self
        }
    }

    /// Set or clear a line in the requested mask IF.
    pub fn request(&mut self, interrupt: InterruptLine, requested: bool)
        ensures
            *final(self) == old(self).spec_request(interrupt, requested),
    {
        self.requested_interrupts.set(interrupt, requested);
    }

    /// Clear a line in the requested mask IF, as done when its service
    /// routine is entered.
    pub fn acknowledge(&mut self, interrupt: InterruptLine)
        ensures
            *final(self) == (InterruptHandler {
                requested_interrupts: old(self).requested_interrupts.spec_set(interrupt, false),
                ..*old(self)
            }),
    {
        self.requested_interrupts.set(interrupt, false);
    }

    /// The lines both requested and enabled.
    pub open spec fn spec_pending(self) -> IntLines {
        self.requested_interrupts.spec_and(self.enabled_interrupts)
    }

    /// Whether any line is both requested and enabled.
    pub fn any_enabled(&self) -> (r: bool)
        ensures
            r == self.spec_pending().spec_any(),
    {
        let p = self.pending();
        p.vblank || p.stat || p.timer || p.serial || p.joypad
    }

    pub fn pending(&self) -> (r: IntLines)
        ensures
            r == self.spec_pending(),
    {
        IntLines {
            vblank: self.requested_interrupts.vblank && self.enabled_interrupts.vblank,
            stat: self.requested_interrupts.stat && self.enabled_interrupts.stat,
            timer: self.requested_interrupts.timer && self.enabled_interrupts.timer,
            serial: self.requested_interrupts.serial && self.enabled_interrupts.serial,
            joypad: self.requested_interrupts.joypad && self.enabled_interrupts.joypad,
        }
    }

    /// The pending line to serve next, lowest bit first.
    pub fn highest_priority(&self) -> (r: Option<InterruptLine>)
        ensures
            r == self.spec_pending().spec_highest_priority(),
    {
        let p = self.pending();
        if p.vblank {
            Some(InterruptLine::Vblank)
        } else if p.stat {
            Some(InterruptLine::Stat)
        } else if p.timer {
            Some(InterruptLine::Timer)
        } else if p.serial {
            Some(InterruptLine::Serial)
        } else if p.joypad {
            Some(InterruptLine::Joypad)
        } else {
            None
        }
    }

    /// DI clears IME at once; EI schedules the enable so that the following
    /// instruction still runs with IME off.
    pub fn set_interrupt_disabled(&mut self, disabled: bool)
        ensures
            disabled ==> *final(self) == (InterruptHandler {
                interrupt_master_enabled: false,
                enable_delay: 0,
                ..*old(self)
            }),
            !disabled ==> *final(self) == (InterruptHandler { enable_delay: 2, ..*old(self) }),
    {
        if disabled {
            self.interrupt_master_enabled = false;
            self.enable_delay = 0;
        } else {
            self.enable_delay = 2;
        }
    }

    /// The state after the master enable is set directly: enabling also
    /// clears any pending delayed enable.
    pub open spec fn spec_set_ime(self, value: bool) -> InterruptHandler {
        InterruptHandler {
            interrupt_master_enabled: value,
            enable_delay: if value {
                0
            } else {
                self.enable_delay
            },
            ..self
        }
    }

    pub fn change_interrupt_master_enabled(&mut self, value: bool)
        ensures
            *final(self) == (InterruptHandler {
                interrupt_master_enabled: value,
                enable_delay: if value {
                    0
                } else {
                    old(self).enable_delay
                },
                ..*old(self)
            }),
    {
        self.interrupt_master_enabled = value;
        if value {
            self.enable_delay = 0;
        }
    }

    /// The state one instruction boundary later: a pending delayed enable
    /// moves a step closer, turning IME on as it reaches zero.
    pub open spec fn spec_ime_step(self) -> InterruptHandler {
        if self.enable_delay == 2 {
            InterruptHandler { enable_delay: 1, ..self }
        } else if self.enable_delay == 1 {
            InterruptHandler { interrupt_master_enabled: true, enable_delay: 0, ..self }
        } else {
            self
        }
    }

    /// Advance the EI delay by one instruction: the enable becomes visible
    /// only after the instruction that follows EI.
    pub fn step(&mut self)
        ensures
            old(self).enable_delay == 2 ==> *final(self) == (InterruptHandler {
                enable_delay: 1,
                ..*old(self)
            }),
            old(self).enable_delay == 1 ==> *final(self) == (InterruptHandler {
                interrupt_master_enabled: true,
                enable_delay: 0,
                ..*old(self)
            }),
            old(self).enable_delay != 1 && old(self).enable_delay != 2 ==> *final(self) == *old(
                self,
            ),
    {
        if self.enable_delay == 2 {
            self.enable_delay = 1;
        } else if self.enable_delay == 1 {
            self.enable_delay = 0;
            self.interrupt_master_enabled = true;
        }
    }

    /// The IF register byte: requested lines in the low five bits, the three
    /// unused high bits reading as one.
    pub fn get_interrupt_flag(&self) -> (r: u8)
        ensures
            r == lines_byte(self.requested_interrupts) + 0xE0,
            r / 32 == 7,
    {
        self.requested_interrupts.to_byte() + 0xE0
    }

    pub fn set_interrupt_flag(&mut self, value: u8)
        ensures
            *final(self) == (InterruptHandler {
                requested_interrupts: IntLines {
                    vblank: value % 2 == 1,
                    stat: value / 2 % 2 == 1,
                    timer: value / 4 % 2 == 1,
                    serial: value / 8 % 2 == 1,
                    joypad: value / 16 % 2 == 1,
                },
                ..*old(self)
            }),
    {
        self.requested_interrupts = IntLines::from_byte(value);
    }

    /// The IE register byte: enabled lines in the low five bits, the three
    /// unused high bits reading as one.
    pub fn get_enabled_interrupts_flag(&self) -> (r: u8)
        ensures
            r == lines_byte(self.enabled_interrupts) + 0xE0,
            r / 32 == 7,
    {
        self.enabled_interrupts.to_byte() + 0xE0
    }

    pub fn set_enabled_interrupts_flag(&mut self, value: u8)
        ensures
            *final(self) == (InterruptHandler {
                enabled_interrupts: IntLines {
                    vblank: value % 2 == 1,
                    stat: value / 2 % 2 == 1,
                    timer: value / 4 % 2 == 1,
                    serial: value / 8 % 2 == 1,
                    joypad: value / 16 % 2 == 1,
                },
                ..*old(self)
            }),
    {
        self.enabled_interrupts = IntLines::from_byte(value);
    }
}

/// However the IE register is written, its top three bits read back as one.
pub proof fn lemma_ie_high_bits(h: InterruptHandler)
    ensures
        lines_byte(h.enabled_interrupts) + 0xE0 >= 0xE0,
        (lines_byte(h.enabled_interrupts) + 0xE0) / 32 == 7,
{
}

} // verus!
