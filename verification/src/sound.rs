use vstd::prelude::*;

verus! {

/// The host audio sink. The core hands it sample buffers; implementations
/// live outside the core and carry no contract.
pub trait AudioPlayer {
    fn play(&mut self, left_samples: &[u16], right_samples: &[u16]);

    fn samples_rate(&self) -> u32;

    fn underflowed(&self) -> bool;
}

/// The audio register file at 0xFF10 to 0xFF3F. Synthesis beyond register
/// behavior is out of the core's scope: the registers store what programs
/// write and read it back, and the player only receives what a richer
/// front end would mix.
pub struct Sound<A: AudioPlayer> {
    pub regs: Vec<u8>,
    pub player: A,
}

impl<A: AudioPlayer> Sound<A> {
    /// The 48 register bytes as a sequence.
    pub open spec fn view(&self) -> Seq<u8> {
        self.regs@
    }

    pub open spec fn wf(&self) -> bool {
        self.regs@.len() == 0x30
    }

    pub fn new_dmg(player: A) -> (r: Sound<A>)
        ensures
            r.wf(),
            forall|i: int| 0 <= i < 0x30 ==> r@[i] == 0u8,
    {
        Sound { regs: crate::util::zero_vec(0x30), player }
    }

    /// Read an audio register byte.
    pub fn rb(&self, address: u16) -> (r: u8)
        requires
            self.wf(),
            0xFF10 <= address < 0xFF40,
        ensures
            r == self@[address - 0xFF10],
    {
        self.regs[(address - 0xFF10) as usize]
    }

    /// Write an audio register byte.
    pub fn wb(&mut self, address: u16, value: u8)
        requires
            old(self).wf(),
            0xFF10 <= address < 0xFF40,
        ensures
            final(self).wf(),
            final(self)@ == old(self)@.update(address - 0xFF10, value),
            final(self).player == old(self).player,
    {
        self.regs[(address - 0xFF10) as usize] = value;
    }
}

} // verus!
