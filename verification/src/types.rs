//! A collection of types used in this crate.

use vstd::prelude::*;

verus! {

/// The possible options for the internal booster ratio.
#[derive(Debug, Copy, Clone, PartialEq, Eq, Structural)]
pub enum BoosterRatio {
    /// Use this if booster ratio is 2x, 3x or 4x
    StepUp2x3x4x,
    /// Use this if booster ratio is 5x
    StepUp5x,
    /// Use this if booster ratio is 6x
    StepUp6x,
}

/// The configuration of the power control circuit.
#[derive(Debug, Copy, Clone, PartialEq, Eq, Structural)]
pub struct PowerControlMode {
    /// Activate booster circuit
    pub booster_circuit: bool,
    /// Activate voltage regulator circuit
    pub voltage_regulator_circuit: bool,
    /// Activate voltage follower circuit
    pub voltage_follower_circuit: bool,
}

/// The possible options for the static indicator.
#[derive(Debug, Copy, Clone, PartialEq, Eq, Structural)]
pub enum StaticIndicatorMode {
    /// Off
    Off,
    /// Blinking at approximately one second intervals
    BlinkSlow,
    /// Blinking at approximately 0.5 second intervals
    BlinkFast,
    /// Constantly on
    On,
}

/// One pixel event of the drawing interface: a position, which may lie
/// anywhere, also outside the display, and a colour.
#[derive(Debug, Copy, Clone, PartialEq, Eq, Structural)]
pub struct Pixel {
    /// The column, counted from the left edge
    pub x: i32,
    /// The row, counted from the top edge
    pub y: i32,
    /// Whether the pixel is lit
    pub on: bool,
}

} // verus!
