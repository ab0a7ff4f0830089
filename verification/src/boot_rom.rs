use crate::errors::CoreError;
use vstd::prelude::*;

verus! {

/// The 256-byte boot ROM image.
pub struct BootromData {
    data: Vec<u8>,
}

impl BootromData {
    pub closed spec fn view(&self) -> Seq<u8> {
        self.data@
    }

    pub closed spec fn wf(&self) -> bool {
        self.data@.len() == 0x100
    }

    /// A boot ROM image must be exactly 256 bytes long; anything else is
    /// rejected as an invalid boot ROM.
    pub fn from_bytes(data: Vec<u8>) -> (r: Result<BootromData, CoreError>)
        ensures
            data@.len() == 0x100 <==> r is Ok,
            r matches Ok(b) ==> b.wf() && b@ == data@,
            r matches Err(e) ==> e == CoreError::InvalidBootRom,
    {
        if data.len() == 0x100 {
            Ok(BootromData { data })
        } else {
            Err(CoreError::InvalidBootRom)
        }
    }

    pub fn read(&self, address: u16) -> (r: u8)
        requires
            self.wf(),
            address < 0x100,
        ensures
            r == self@[address as int],
    {
        self.data[address as usize]
    }
}

/// The boot ROM overlay: while active it shadows the first 256 bytes of the
/// address space; writing the disable register turns it off for good.
pub struct Bootrom {
    data: Option<BootromData>,
    active: bool,
}

impl Bootrom {
    pub closed spec fn wf(&self) -> bool {
        &&& (self.data matches Some(d) ==> d.wf())
        &&& (self.data is None ==> !self.active)
    }

    pub closed spec fn spec_active(&self) -> bool {
        self.active
    }

    pub closed spec fn spec_data(&self) -> Option<Seq<u8>> {
        match self.data {
            Some(d) => Some(d@),
            None => None,
        }
    }

    /// With an image the overlay starts active; without one it never is.
    pub fn new(data: Option<BootromData>) -> (r: Bootrom)
        requires
            data matches Some(d) ==> d.wf(),
        ensures
            r.wf(),
            r.spec_active() == (data is Some),
            r.spec_data() == match data {
                Some(d) => Some(d@),
                None => None::<Seq<u8>>,
            },
    {
        let active = data.is_some();
        Bootrom { data, active }
    }

    pub fn is_active(&self) -> (r: bool)
        ensures
            r == self.spec_active(),
    {
        self.active
    }

    /// Turning the overlay off is permanent.
    pub fn deactivate(&mut self)
        requires
            old(self).wf(),
        ensures
            final(self).wf(),
            !final(self).spec_active(),
            final(self).spec_data() == old(self).spec_data(),
    {
        self.active = false;
    }

    /// Read a byte of the overlay; only meaningful while it is active.
    pub fn read(&self, address: u16) -> (r: u8)
        requires
            self.wf(),
            self.spec_active(),
            address < 0x100,
        ensures
            r == self.spec_data().unwrap()[address as int],
    {
        match &self.data {
            Some(d) => d.read(address),
            None => 0xFF,
        }
    }
}

} // verus!
