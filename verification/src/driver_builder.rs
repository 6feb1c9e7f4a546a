//! Assembling a driver setting by setting.

use vstd::prelude::*;

use crate::display_specs::DisplaySpecs;
use crate::driver::{DisplayInterface, InitialMode, ST7565};
use crate::types::{BoosterRatio, PowerControlMode};

verus! {

/// Builds a driver from an interface and the electrical settings of the
/// display. A driver built this way has no resolution: it serves the raw
/// mode, where the caller addresses pages and columns itself.
pub struct ST7565DriverBuilder<DI> {
    interface: DI,
    display_specs: DisplaySpecs,
}

impl<DI: DisplayInterface> ST7565DriverBuilder<DI> {
    /// The interface that the driver will hold.
    pub closed spec fn interface(&self) -> DI {
        self.interface
    }

    /// The settings made so far.
    pub closed spec fn specs(&self) -> DisplaySpecs {
        self.display_specs
    }

    /// Starts a builder with nothing set.
    pub fn new(interface: DI) -> (builder: Self)
        ensures
            builder.interface() == interface,
            builder.specs() == DisplaySpecs::unset(),
    {
        Self {
            interface,
            display_specs: DisplaySpecs {
                width: 0,
                height: 0,
                pages: 0,
                flip_rows: false,
                flip_columns: false,
                inverted: false,
                bias_mode_1: false,
                power_control: PowerControlMode {
                    booster_circuit: false,
                    voltage_regulator_circuit: false,
                    voltage_follower_circuit: false,
                },
                voltage_regulator_resistor_ratio: 0,
                electronic_volume: 0,
                booster_ratio: BoosterRatio::StepUp2x3x4x,
                column_offset: 0,
            },
        }
    }

    /// Sets whether the LCD bias mode is "1".
    pub fn lcd_bias(self, mode: bool) -> (builder: Self)
        ensures
            builder.interface() == self.interface(),
            builder.specs() == (DisplaySpecs { bias_mode_1: mode, ..self.specs() }),
    {
        let mut builder = self;
        builder.display_specs.bias_mode_1 = mode;
        builder
    }

    /// Sets which of the internal power circuits are enabled.
    pub fn power_control(self, mode: PowerControlMode) -> (builder: Self)
        ensures
            builder.interface() == self.interface(),
            builder.specs() == (DisplaySpecs { power_control: mode, ..self.specs() }),
    {
        let mut builder = self;
        builder.display_specs.power_control = mode;
        builder
    }

    /// Sets the ratio of the internal voltage regulator resistors.
    pub fn voltage_regulator_resistor_ratio(self, value: u8) -> (builder: Self)
        ensures
            builder.interface() == self.interface(),
            builder.specs() == (DisplaySpecs {
                voltage_regulator_resistor_ratio: value,
                ..self.specs()
            }),
    {
        let mut builder = self;
        builder.display_specs.voltage_regulator_resistor_ratio = value;
        builder
    }

    /// Sets the electronic volume of the driver stage.
    pub fn electric_volume(self, value: u8) -> (builder: Self)
        ensures
            builder.interface() == self.interface(),
            builder.specs() == (DisplaySpecs { electronic_volume: value, ..self.specs() }),
    {
        let mut builder = self;
        builder.display_specs.electronic_volume = value;
        builder
    }

    /// Sets the internal booster ratio.
    pub fn booster_ratio(self, value: BoosterRatio) -> (builder: Self)
        ensures
            builder.interface() == self.interface(),
            builder.specs() == (DisplaySpecs { booster_ratio: value, ..self.specs() }),
    {
        let mut builder = self;
        builder.display_specs.booster_ratio = value;
        builder
    }

    /// Creates the driver, in its initial mode.
    pub fn build(self) -> (driver: ST7565<DI, InitialMode>)
        ensures
            driver.interface() == self.interface(),
            driver.specs() == self.specs(),
    {
        ST7565::new(self.interface, self.display_specs)
    }
}

} // verus!
