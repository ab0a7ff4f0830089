use vstd::prelude::*;

verus! {

/// 8 KiB of work RAM, addressed as a lower and an upper 4 KiB bank. The
/// echo range of the bus maps back onto these banks.
pub struct WorkRam {
    data: Vec<u8>,
}

impl WorkRam {
    /// The full 8 KiB as a sequence.
    pub closed spec fn view(&self) -> Seq<u8> {
        self.data@
    }

    pub closed spec fn wf(&self) -> bool {
        self.data@.len() == 0x2000
    }

    /// A well-formed work RAM holds exactly 8 KiB.
    pub proof fn lemma_len(&self)
        requires
            self.wf(),
        ensures
            self@.len() == 0x2000,
    {
    }

    pub fn new() -> (r: WorkRam)
        ensures
            r.wf(),
            r@ == Seq::new(0x2000, |i: int| 0u8),
    {
        let mut data: Vec<u8> = Vec::new();
        let mut i: usize = 0;
        while i < 0x2000
            invariant
                i <= 0x2000,
                data@ == Seq::new(i as nat, |j: int| 0u8),
            decreases 0x2000 - i,
        {
            data.push(0);
            proof {
                assert(data@ =~= Seq::new((i + 1) as nat, |j: int| 0u8));
            }
            i = i + 1;
        }
        proof {
            assert(data@ =~= Seq::new(0x2000, |j: int| 0u8));
        }
        WorkRam { data }
    }

    /// Read from the lower bank: the low twelve address bits select the byte.
    pub fn read_lower(&self, address: u16) -> (r: u8)
        requires
            self.wf(),
        ensures
            r == self@[address as int % 0x1000],
    {
        self.data[(address % 0x1000) as usize]
    }

    /// Read from the upper bank: the low twelve address bits select the byte.
    pub fn read_upper(&self, address: u16) -> (r: u8)
        requires
            self.wf(),
        ensures
            r == self@[0x1000 + address as int % 0x1000],
    {
        self.data[0x1000 + (address % 0x1000) as usize]
    }

    pub fn write_lower(&mut self, address: u16, value: u8)
        requires
            old(self).wf(),
        ensures
            final(self).wf(),
            final(self)@ == old(self)@.update(address as int % 0x1000, value),
    {
        let i = (address % 0x1000) as usize;
        self.data[i] = value;
    }

    pub fn write_upper(&mut self, address: u16, value: u8)
        requires
            old(self).wf(),
        ensures
            final(self).wf(),
            final(self)@ == old(self)@.update(0x1000 + address as int % 0x1000, value),
    {
        let i = 0x1000 + (address % 0x1000) as usize;
        self.data[i] = value;
    }
}

} // verus!
