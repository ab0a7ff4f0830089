use vstd::prelude::*;

verus! {

/// The timer: DIV is the upper byte of a free-running 16-bit counter, TIMA
/// counts at a rate selected by TAC and reloads from TMA on overflow.
///
/// The reload and the TIMER request are performed on the overflow cycle
/// itself, so the request follows the overflow within the demanded four
/// T-cycles and TIMA never reads as a stale zero.
#[derive(Clone, Copy, Debug, PartialEq, Eq, Structural)]
pub struct Timer {
    /// Internal 16-bit counter incremented every T-cycle.
    pub sysclock: u16,
    pub tima: u8,
    pub tma: u8,
    /// Low three bits of the TAC register: bit 2 enables TIMA, bits 0 and 1
    /// select the divider.
    pub tac: u8,
}

/// The divisor such that TIMA increments when the counter crosses a
/// multiple of it: TAC selects bit 9, 3, 5 or 7 of the counter, whose
/// falling edge is a crossing of 1024, 16, 64 or 256 T-cycles.
pub open spec fn spec_tac_period(tac: u8) -> u16 {
    if tac % 4 == 0 {
        1024
    } else if tac % 4 == 1 {
        16
    } else if tac % 4 == 2 {
        64
    } else {
        256
    }
}

/// Whether the selected counter bit falls when the counter steps from
/// `clock` to `clock + 1`: the counter reaches a multiple of the period.
pub open spec fn spec_edge(clock: u16, tac: u8) -> bool {
    ((clock + 1) % (spec_tac_period(tac) as int)) == 0
}

/// One T-cycle of the timer: the new state and whether the TIMER interrupt
/// is requested on this cycle.
pub open spec fn spec_timer_tick(t: Timer) -> (Timer, bool) {
    let clock2 = (((t.sysclock + 1) % 0x10000) as u16);
    if t.tac / 4 % 2 == 1 && spec_edge(t.sysclock, t.tac) {
        if t.tima == 0xFF {
            (Timer { sysclock: clock2, tima: t.tma, ..t }, true)
        } else {
            (Timer { sysclock: clock2, tima: ((t.tima + 1) as u8), ..t }, false)
        }
    } else {
        (Timer { sysclock: clock2, ..t }, false)
    }
}

/// `n` T-cycles of the timer: the final state and whether any of the cycles
/// requested the TIMER interrupt.
pub open spec fn spec_timer_run(t: Timer, n: nat) -> (Timer, bool)
    decreases n,
{
    if n == 0 {
        (t, false)
    } else {
        let step = spec_timer_tick(t);
        let rest = spec_timer_run(step.0, (n - 1) as nat);
        (rest.0, step.1 || rest.1)
    }
}

impl Timer {
    pub fn new() -> (r: Timer)
        ensures
            r == (Timer { sysclock: 0, tima: 0, tma: 0, tac: 0 }),
    {
        Timer { sysclock: 0, tima: 0, tma: 0, tac: 0 }
    }

    /// DIV reads as the upper byte of the internal counter.
    pub fn read_div(&self) -> (r: u8)
        ensures
            r == self.sysclock / 256,
    {
        (self.sysclock / 256) as u8
    }

    /// Any write to DIV resets the whole internal counter.
    pub fn write_div(&mut self)
        ensures
            *final(self) == (Timer { sysclock: 0, ..*old(self) }),
    {
        self.sysclock = 0;
    }

    pub fn read_tima(&self) -> (r: u8)
        ensures
            r == self.tima,
    {
        self.tima
    }

    pub fn write_tima(&mut self, value: u8)
        ensures
            *final(self) == (Timer { tima: value, ..*old(self) }),
    {
        self.tima = value;
    }

    pub fn read_tma(&self) -> (r: u8)
        ensures
            r == self.tma,
    {
        self.tma
    }

    pub fn write_tma(&mut self, value: u8)
        ensures
            *final(self) == (Timer { tma: value, ..*old(self) }),
    {
        self.tma = value;
    }

    /// TAC keeps only its low three bits; the rest read back as one.
    pub fn read_tac(&self) -> (r: u8)
        requires
            self.tac < 8,
        ensures
            r == self.tac + 0xF8,
    {
        self.tac + 0xF8
    }

    pub fn write_tac(&mut self, value: u8)
        ensures
            *final(self) == (Timer { tac: (value % 8) as u8, ..*old(self) }),
    {
        self.tac = value % 8;
    }

    /// One T-cycle, exactly as `spec_timer_tick` describes.
    fn tick(&mut self) -> (request: bool)
        requires
            old(self).tac < 8,
        ensures
            (*final(self), request) == spec_timer_tick(*old(self)),
            final(self).tac == old(self).tac,
            final(self).tma == old(self).tma,
    {
        let period: u16 = if self.tac % 4 == 0 {
            1024
        } else if self.tac % 4 == 1 {
            16
        } else if self.tac % 4 == 2 {
            64
        } else {
            256
        };
        let clock2: u16 = if self.sysclock == 0xFFFF {
            0
        } else {
            self.sysclock + 1
        };
        let edge = (self.sysclock as u32 + 1) % (period as u32) == 0;
        let enabled = self.tac / 4 % 2 == 1;
        self.sysclock = clock2;
        if enabled && edge {
            if self.tima == 0xFF {
                self.tima = self.tma;
                return true;
            } else {
                self.tima = self.tima + 1;
            }
        }
        false
    }

    /// Advance the timer by `cycles` T-cycles. Returns whether the TIMER
    /// interrupt was requested during them.
    pub fn step(&mut self, cycles: u8) -> (request: bool)
        requires
            old(self).tac < 8,
        ensures
            (*final(self), request) == spec_timer_run(*old(self), cycles as nat),
            final(self).tac == old(self).tac,
            final(self).tma == old(self).tma,
    {
        let mut i: u8 = 0;
        let mut request = false;
        while i < cycles
            invariant
                i <= cycles,
                self.tac == old(self).tac,
                self.tma == old(self).tma,
                self.tac < 8,
                spec_timer_run(*old(self), cycles as nat) == {
                    let rest = spec_timer_run(*self, (cycles - i) as nat);
                    (rest.0, request || rest.1)
                },
            decreases cycles - i,
        {
            let r = self.tick();
            request = request || r;
            i = i + 1;
        }
        request
    }
}

/// When an enabled TIMA increment overflows, the very same cycle reloads
/// TIMA from TMA and requests the TIMER interrupt: the request comes within
/// four T-cycles of the overflow.
pub proof fn lemma_tima_overflow_reloads(t: Timer)
    requires
        t.tac / 4 % 2 == 1,
        spec_edge(t.sysclock, t.tac),
        t.tima == 0xFF,
    ensures
        spec_timer_tick(t).0.tima == t.tma,
        spec_timer_tick(t).1,
{
}

} // verus!
