use crate::color_palette::Color;
use vstd::prelude::*;

verus! {

/// The host screen sink. The core pushes pixels and completed frames into
/// it; implementations live outside the core and carry no contract.
pub trait Screen {
    fn turn_on(&mut self);

    fn turn_off(&mut self);

    /// `x` runs over 0..160 and `y` over 0..144.
    fn set_pixel(&mut self, x: u8, y: u8, color: Color);

    /// Called once per completed frame.
    fn draw(&mut self);

    /// The host's target frame rate, informational only.
    fn frame_rate(&self) -> u8;
}

} // verus!
