use vstd::prelude::*;

verus! {

/// Construction-time failures of the core. The running core itself never
/// fails: unmapped accesses read defined defaults and unknown opcodes only
/// halt the CPU.
#[derive(Clone, Copy, Debug, PartialEq, Eq, Structural)]
pub enum CoreError {
    /// The cartridge image is too short to hold a header.
    InvalidRom,
    /// The boot ROM image is not exactly 256 bytes.
    InvalidBootRom,
}

} // verus!
