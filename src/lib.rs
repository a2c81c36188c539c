//! Driver for the OTM8009A MIPI-DSI panel controller.
//!
//! The driver does not talk to the bus itself. It computes the exact stream of
//! DSI commands that each operation needs and hands them out one at a time
//! through a [`Session`], which decides after every transport result whether
//! the operation goes on, has finished, or has failed.

use vstd::prelude::*;

pub mod command;
pub mod otm8009a;
pub mod regs;
pub mod session;

pub use command::{Step, StepModel};
pub use otm8009a::Otm8009A;
pub use session::Session;

verus! {

/// Oscillator adjustment for the panel's refresh rate, a 3-bit code.
#[derive(Clone, Copy, Debug, PartialEq, Eq, Structural)]
pub enum FrameRate {
    _35Hz,
    _40Hz,
    _45Hz,
    _50Hz,
    _55Hz,
    _60Hz,
    _65Hz,
    _70Hz,
}

impl FrameRate {
    /// The 3-bit oscillator code of this rate.
    pub open spec fn spec_code(self) -> u8 {
        match self {
            FrameRate::_35Hz => 0,
            FrameRate::_40Hz => 1,
            FrameRate::_45Hz => 2,
            FrameRate::_50Hz => 3,
            FrameRate::_55Hz => 4,
            FrameRate::_60Hz => 5,
            FrameRate::_65Hz => 6,
            FrameRate::_70Hz => 7,
        }
    }

    #[verifier::when_used_as_spec(spec_code)]
    pub fn code(self) -> (r: u8)
        ensures
            r == self.spec_code(),
            r < 8,
    {
        match self {
            FrameRate::_35Hz => 0,
            FrameRate::_40Hz => 1,
            FrameRate::_45Hz => 2,
            FrameRate::_50Hz => 3,
            FrameRate::_55Hz => 4,
            FrameRate::_60Hz => 5,
            FrameRate::_65Hz => 6,
            FrameRate::_70Hz => 7,
        }
    }
}

/// Orientation of the panel's memory addressing.
#[derive(Clone, Copy, Debug, PartialEq, Eq, Structural)]
pub enum Mode {
    Portrait,
    Landscape,
}

/// Order of the colour channels in a pixel.
#[derive(Clone, Copy, Debug, PartialEq, Eq, Structural)]
pub enum ColorMap {
    Rgb,
    Bgr,
}

/// What `init` needs to know about the display.
#[derive(Clone, Copy, Debug, PartialEq, Eq, Structural)]
pub struct Otm8009AConfig {
    pub frame_rate: FrameRate,
    pub mode: Mode,
    pub color_map: ColorMap,
    pub cols: u16,
    pub rows: u16,
}

impl Otm8009AConfig {
    /// Both dimensions are at least one pixel, so the last column and row exist.
    pub open spec fn valid(self) -> bool {
        self.cols >= 1 && self.rows >= 1
    }
}

} // verus!
