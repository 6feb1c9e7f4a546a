//! Specifications for specific displays.

use vstd::prelude::*;

use crate::display_specs::DisplaySpecs;
use crate::types::{BoosterRatio, PowerControlMode};

verus! {

/// Display specification for the DOGM132W-5 display
pub struct DOGM132W5;

impl DOGM132W5 {
    /// The record of this display.
    pub open spec fn spec_specs() -> DisplaySpecs {
        DisplaySpecs {
            width: 132,
            height: 32,
            pages: 4,
            flip_rows: false,
            flip_columns: true,
            inverted: false,
            bias_mode_1: false,
            power_control: PowerControlMode {
                booster_circuit: true,
                voltage_regulator_circuit: true,
                voltage_follower_circuit: true,
            },
            voltage_regulator_resistor_ratio: 0b011,
            electronic_volume: 0b011111,
            booster_ratio: BoosterRatio::StepUp2x3x4x,
            column_offset: 0,
        }
    }

    /// The record of this display.
    pub fn specs(&self) -> (specs: DisplaySpecs)
        ensures
            specs == Self::spec_specs(),
            specs.valid(),
    {
        DisplaySpecs {
            width: 132,
            height: 32,
            pages: 4,
            flip_rows: false,
            flip_columns: true,
            inverted: false,
            bias_mode_1: false,
            power_control: PowerControlMode {
                booster_circuit: true,
                voltage_regulator_circuit: true,
                voltage_follower_circuit: true,
            },
            voltage_regulator_resistor_ratio: 0b011,
            electronic_volume: 0b011111,
            booster_ratio: BoosterRatio::StepUp2x3x4x,
            column_offset: 0,
        }
    }
}

/// Display specification for the DOGL128-6 display
#[allow(non_camel_case_types)]
pub struct DOGL128_6_EXT12V;

impl DOGL128_6_EXT12V {
    /// The record of this display.
    pub open spec fn spec_specs() -> DisplaySpecs {
        DisplaySpecs {
            width: 128,
            height: 64,
            pages: 8,
            flip_rows: true,
            flip_columns: false,
            inverted: false,
            bias_mode_1: false,
            power_control: PowerControlMode {
                booster_circuit: false,
                voltage_regulator_circuit: true,
                voltage_follower_circuit: true,
            },
            voltage_regulator_resistor_ratio: 0b100111,
            electronic_volume: 0b010110,
            booster_ratio: BoosterRatio::StepUp2x3x4x,
            column_offset: 4,
        }
    }

    /// The record of this display.
    pub fn specs(&self) -> (specs: DisplaySpecs)
        ensures
            specs == Self::spec_specs(),
            specs.valid(),
    {
        DisplaySpecs {
            width: 128,
            height: 64,
            pages: 8,
            flip_rows: true,
            flip_columns: false,
            inverted: false,
            bias_mode_1: false,
            power_control: PowerControlMode {
                booster_circuit: false,
                voltage_regulator_circuit: true,
                voltage_follower_circuit: true,
            },
            voltage_regulator_resistor_ratio: 0b100111,
            electronic_volume: 0b010110,
            booster_ratio: BoosterRatio::StepUp2x3x4x,
            column_offset: 4,
        }
    }
}

/// Display specification for the GM12864-06D Ver. 2.2 display.
pub struct GMG12864;

impl GMG12864 {
    /// The record of this display.
    pub open spec fn spec_specs() -> DisplaySpecs {
        DisplaySpecs {
            width: 132,
            height: 64,
            pages: 8,
            flip_rows: true,
            flip_columns: false,
            inverted: false,
            bias_mode_1: false,
            power_control: PowerControlMode {
                booster_circuit: true,
                voltage_regulator_circuit: true,
                voltage_follower_circuit: true,
            },
            voltage_regulator_resistor_ratio: 0b111,
            electronic_volume: 0b010001,
            booster_ratio: BoosterRatio::StepUp2x3x4x,
            column_offset: 0,
        }
    }

    /// The record of this display.
    pub fn specs(&self) -> (specs: DisplaySpecs)
        ensures
            specs == Self::spec_specs(),
            specs.valid(),
    {
        DisplaySpecs {
            width: 132,
            height: 64,
            pages: 8,
            flip_rows: true,
            flip_columns: false,
            inverted: false,
            bias_mode_1: false,
            power_control: PowerControlMode {
                booster_circuit: true,
                voltage_regulator_circuit: true,
                voltage_follower_circuit: true,
            },
            voltage_regulator_resistor_ratio: 0b111,
            electronic_volume: 0b010001,
            booster_ratio: BoosterRatio::StepUp2x3x4x,
            column_offset: 0,
        }
    }
}

} // verus!
