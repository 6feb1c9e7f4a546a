//! The configuration record of a physical display.

use vstd::prelude::*;

use crate::types::{BoosterRatio, PowerControlMode};

verus! {

/// Represents a display specification.
///
/// To describe a custom display, fill in a record of this type.
#[derive(Debug, Copy, Clone, PartialEq, Eq, Structural)]
pub struct DisplaySpecs {
    /// The horizontal resolution of the display
    pub width: usize,
    /// The vertical resolution of the display
    pub height: usize,
    /// The number of pages used by the display: `height / 8`, rounded up
    pub pages: usize,
    /// Mirrors vertically
    pub flip_rows: bool,
    /// Mirrors horizontally
    pub flip_columns: bool,
    /// Inverts the pixels
    pub inverted: bool,
    /// Whether the LCD bias mode needs to be "1".
    ///
    /// For more information, read the ST7565 reference manual.
    pub bias_mode_1: bool,
    /// Which parts of the internal power circuits need to be enabled
    pub power_control: PowerControlMode,
    /// The required ratio of the internal voltage regulator resistors
    pub voltage_regulator_resistor_ratio: u8,
    /// The electronic volume of the driver stage
    pub electronic_volume: u8,
    /// The internal booster ratio
    pub booster_ratio: BoosterRatio,
    /// The offset of the first column on the display
    pub column_offset: u8,
}

/// The number of pages that `height` rows of pixels take up.
pub open spec fn pages_for(height: int) -> int {
    (height + 7) / 8
}

impl DisplaySpecs {
    /// Whether the controller can address the whole display: the page
    /// count fits the height and a page address of four bits, and every
    /// visible column has a column address of eight bits.
    pub open spec fn valid(&self) -> bool {
        &&& self.pages == pages_for(self.height as int)
        &&& self.pages <= 16
        &&& self.column_offset + self.width <= 256
    }

    /// The record from which a builder starts: no resolution, every
    /// circuit off, every flag and value zero.
    pub open spec fn unset() -> DisplaySpecs {
        DisplaySpecs {
            width: 0,
            height: 0,
            pages: 0,
            flip_rows: false,
            flip_columns: false,
            inverted: false,
            bias_mode_1: false,
            power_control: PowerControlMode {
                booster_circuit: false,
                voltage_regulator_circuit: false,
                voltage_follower_circuit: false,
            },
            voltage_regulator_resistor_ratio: 0,
            electronic_volume: 0,
            booster_ratio: BoosterRatio::StepUp2x3x4x,
            column_offset: 0,
        }
    }

    /// Whether column `x` of row `y` lies on the display.
    pub open spec fn shows(&self, x: int, y: int) -> bool {
        0 <= x < self.width && 0 <= y < self.height
    }

    /// Checks whether the controller can address the whole display. On a
    /// display that passes, a buffer made for it holds every pixel, and a
    /// flush selects every page and column under its own address.
    pub fn is_valid(&self) -> (ok: bool)
        ensures
            ok == self.valid(),
    {
        self.height <= 128 && self.pages == self.height / 8 + (if self.height % 8 == 0 {
            0
        } else {
            1
        }) && self.width <= 256 && self.column_offset as usize + self.width <= 256
    }
}

} // verus!
