//! Display commands and their wire encoding.

use vstd::prelude::*;

use crate::types::{BoosterRatio, PowerControlMode, StaticIndicatorMode};

verus! {

/// The commands of the controller that this driver issues.
#[allow(inconsistent_fields)]
#[derive(Debug, Copy, Clone, PartialEq, Eq, Structural)]
pub enum Command {
    /// Turns the display output on or off.
    DisplayOnOff { on: bool },
    /// Sets the line of display memory that is shown at the top; six bits.
    DisplayStartLineSet { address: u8 },
    /// Selects the page that data is written to; four bits.
    PageAddressSet { address: u8 },
    /// Selects the column that data is written to next; eight bits, sent
    /// as two halves.
    ColumnAddressSet { address: u8 },
    /// Sets the direction in which columns are scanned.
    AdcSelect { reverse: bool },
    /// Shows the pixels as they are or inverted.
    DisplayNormalReverse { reverse: bool },
    /// Lights every pixel, whatever the display memory holds.
    DisplayAllPoints { on: bool },
    /// Selects the LCD bias.
    LcdBiasSet { bias_mode_1: bool },
    /// Sets the direction in which rows are scanned.
    CommonOutputModeSelect { reverse: bool },
    /// Switches the internal power circuits.
    PowerControlSet { mode: PowerControlMode },
    /// Sets the ratio of the internal voltage regulator resistors; three
    /// bits.
    VoltageRegulatorInternalResistorSet { resistor_ratio: u8 },
    /// Sets the electronic volume; six bits.
    ElectronicVolumeSet { volume_value: u8 },
    /// Switches the static indicator off, or on in the given mode.
    StaticIndicatorSet { mode: Option<StaticIndicatorMode> },
    /// Sets the ratio of the internal booster.
    BoosterRatioSet { stepup_value: BoosterRatio },
}

/// An encoded command: one or two bytes for the command channel.
#[derive(Debug, Copy, Clone, PartialEq, Eq, Structural)]
pub enum Code {
    /// A command of one byte.
    Single(u8),
    /// A command of two bytes, in the order in which they are sent.
    Double(u8, u8),
}

/// The value of a flag as a number.
pub open spec fn bit(flag: bool) -> int {
    if flag { 1 } else { 0 }
}

/// The two-bit code of a static indicator mode.
pub open spec fn indicator_code(mode: StaticIndicatorMode) -> int {
    match mode {
        StaticIndicatorMode::Off => 0,
        StaticIndicatorMode::BlinkSlow => 1,
        StaticIndicatorMode::BlinkFast => 2,
        StaticIndicatorMode::On => 3,
    }
}

/// The two-bit code of a booster ratio.
pub open spec fn booster_code(ratio: BoosterRatio) -> int {
    match ratio {
        BoosterRatio::StepUp2x3x4x => 0,
        BoosterRatio::StepUp5x => 1,
        BoosterRatio::StepUp6x => 3,
    }
}

/// The encoding of a command: a fixed opcode plus each field reduced to
/// the width that the controller gives it.
pub open spec fn encoded(command: Command) -> Code {
    match command {
        Command::DisplayOnOff { on } => Code::Single((0xAE + bit(on)) as u8),
        Command::DisplayStartLineSet { address } => Code::Single((0x40 + address as int % 64) as u8),
        Command::PageAddressSet { address } => Code::Single((0xB0 + address as int % 16) as u8),
        Command::ColumnAddressSet { address } => Code::Double(
            (0x10 + address as int / 16) as u8,
            (address as int % 16) as u8,
        ),
        Command::AdcSelect { reverse } => Code::Single((0xA0 + bit(reverse)) as u8),
        Command::DisplayNormalReverse { reverse } => Code::Single((0xA6 + bit(reverse)) as u8),
        Command::DisplayAllPoints { on } => Code::Single((0xA4 + bit(on)) as u8),
        Command::LcdBiasSet { bias_mode_1 } => Code::Single((0xA2 + bit(bias_mode_1)) as u8),
        Command::CommonOutputModeSelect { reverse } => Code::Single((0xC0 + 8 * bit(reverse)) as u8),
        Command::PowerControlSet { mode } => Code::Single(
            (0x28 + 4 * bit(mode.booster_circuit) + 2 * bit(mode.voltage_regulator_circuit) + bit(
                mode.voltage_follower_circuit,
            )) as u8,
        ),
        Command::VoltageRegulatorInternalResistorSet { resistor_ratio } => Code::Single(
            (0x20 + resistor_ratio as int % 8) as u8,
        ),
        Command::ElectronicVolumeSet { volume_value } => Code::Double(
            0x81,
            (volume_value as int % 64) as u8,
        ),
        Command::StaticIndicatorSet { mode: None } => Code::Single(0xAC),
        Command::StaticIndicatorSet { mode: Some(mode) } => Code::Double(
            0xAD,
            indicator_code(mode) as u8,
        ),
        Command::BoosterRatioSet { stepup_value } => Code::Double(
            0xF8,
            booster_code(stepup_value) as u8,
        ),
    }
}

impl Code {
    /// The bytes of the code, in the order in which they are sent.
    pub open spec fn view(&self) -> Seq<u8> {
        match *self {
            Code::Single(a) => seq![a],
            Code::Double(a, b) => seq![a, b],
        }
    }

    /// The bytes of the code, ready for the command channel.
    pub fn bytes(&self) -> (out: Vec<u8>)
        ensures
            out@ == self@,
    {
        let mut out: Vec<u8> = Vec::new();
        match *self {
            Code::Single(a) => {
                out.push(a);
            },
            Code::Double(a, b) => {
                out.push(a);
                out.push(b);
            },
        }
        assert(out@ =~= self@);
        out
    }
}

fn flag(value: bool) -> (out: u8)
    ensures
        out == bit(value),
{
    if value { 1 } else { 0 }
}

impl Command {
    /// Encodes the command for the wire. Bits of a field beyond its width
    /// are dropped; no value is rejected.
    pub fn encode(self) -> (code: Code)
        ensures
            code == encoded(self),
    {
        let code = match self {
            Command::DisplayOnOff { on } => Code::Single(0b10101110 | flag(on)),
            Command::DisplayStartLineSet { address } => Code::Single(
                0b01000000 | (address & 0b00111111),
            ),
            Command::PageAddressSet { address } => Code::Single(0b10110000 | (address & 0b00001111)),
            Command::ColumnAddressSet { address } => Code::Double(
                0b00010000 | ((address >> 4) & 0b00001111),
                address & 0b00001111,
            ),
            Command::AdcSelect { reverse } => Code::Single(0b10100000 | flag(reverse)),
            Command::DisplayNormalReverse { reverse } => Code::Single(0b10100110 | flag(reverse)),
            Command::DisplayAllPoints { on } => Code::Single(0b10100100 | flag(on)),
            Command::LcdBiasSet { bias_mode_1 } => Code::Single(0b10100010 | flag(bias_mode_1)),
            Command::CommonOutputModeSelect { reverse } => Code::Single(
                0b11000000 | (flag(reverse) << 3),
            ),
            Command::PowerControlSet { mode } => Code::Single(
                0b00101000 | (flag(mode.booster_circuit) << 2) | (flag(
                    mode.voltage_regulator_circuit,
                ) << 1) | flag(mode.voltage_follower_circuit),
            ),
            Command::VoltageRegulatorInternalResistorSet { resistor_ratio } => Code::Single(
                0b00100000 | (resistor_ratio & 0b00000111),
            ),
            Command::ElectronicVolumeSet { volume_value } => Code::Double(
                0b10000001,
                volume_value & 0b00111111,
            ),
            Command::StaticIndicatorSet { mode: None } => Code::Single(0b10101100),
            Command::StaticIndicatorSet { mode: Some(mode) } => Code::Double(
                0b10101101,
                match mode {
                    StaticIndicatorMode::Off => 0b00,
                    StaticIndicatorMode::BlinkSlow => 0b01,
                    StaticIndicatorMode::BlinkFast => 0b10,
                    StaticIndicatorMode::On => 0b11,
                },
            ),
            Command::BoosterRatioSet { stepup_value } => Code::Double(
                0b11111000,
                match stepup_value {
                    BoosterRatio::StepUp2x3x4x => 0b00000000,
                    BoosterRatio::StepUp5x => 0b00000001,
                    BoosterRatio::StepUp6x => 0b00000011,
                },
            ),
        };
        proof {
            lemma_masks();
        }
        code
    }
}

/// What the masks and shifts of the encoder compute, in arithmetic.
proof fn lemma_masks()
    ensures
        forall|a: u8| #[trigger] (0b01000000u8 | (a & 0b00111111)) == 0x40 + a as int % 64,
        forall|a: u8| #[trigger] (0b10110000u8 | (a & 0b00001111)) == 0xB0 + a as int % 16,
        forall|a: u8| #[trigger] (0b00010000u8 | ((a >> 4) & 0b00001111)) == 0x10 + a as int / 16,
        forall|a: u8| #[trigger] (a & 0b00001111) == a as int % 16,
        forall|a: u8| #[trigger] (0b00100000u8 | (a & 0b00000111)) == 0x20 + a as int % 8,
        forall|a: u8| #[trigger] (a & 0b00111111) == a as int % 64,
        forall|f: u8| f <= 1 ==> #[trigger] (0b10101110u8 | f) == 0xAE + f,
        forall|f: u8| f <= 1 ==> #[trigger] (0b10100000u8 | f) == 0xA0 + f,
        forall|f: u8| f <= 1 ==> #[trigger] (0b10100110u8 | f) == 0xA6 + f,
        forall|f: u8| f <= 1 ==> #[trigger] (0b10100100u8 | f) == 0xA4 + f,
        forall|f: u8| f <= 1 ==> #[trigger] (0b10100010u8 | f) == 0xA2 + f,
        forall|f: u8| f <= 1 ==> #[trigger] (0b11000000u8 | (f << 3)) == 0xC0 + 8 * f,
        forall|b: u8, r: u8, f: u8|
            b <= 1 && r <= 1 && f <= 1 ==> #[trigger] (0b00101000u8 | (b << 2) | (r << 1) | f)
                == 0x28 + 4 * b + 2 * r + f,
{
    assert forall|a: u8| #[trigger] (0b01000000u8 | (a & 0b00111111)) == 0x40 + a as int % 64 by {
        assert((0b01000000u8 | (a & 0b00111111)) == 0x40 + a % 64) by (bit_vector);
    }
    assert forall|a: u8| #[trigger] (0b10110000u8 | (a & 0b00001111)) == 0xB0 + a as int % 16 by {
        assert((0b10110000u8 | (a & 0b00001111)) == 0xB0 + a % 16) by (bit_vector);
    }
    assert forall|a: u8| #[trigger]
        (0b00010000u8 | ((a >> 4) & 0b00001111)) == 0x10 + a as int / 16 by {
        assert((0b00010000u8 | ((a >> 4) & 0b00001111)) == 0x10 + a / 16) by (bit_vector);
    }
    assert forall|a: u8| #[trigger] (a & 0b00001111) == a as int % 16 by {
        assert((a & 0b00001111) == a % 16) by (bit_vector);
    }
    assert forall|a: u8| #[trigger] (0b00100000u8 | (a & 0b00000111)) == 0x20 + a as int % 8 by {
        assert((0b00100000u8 | (a & 0b00000111)) == 0x20 + a % 8) by (bit_vector);
    }
    assert forall|a: u8| #[trigger] (a & 0b00111111) == a as int % 64 by {
        assert((a & 0b00111111) == a % 64) by (bit_vector);
    }
    assert forall|f: u8| f <= 1 implies #[trigger] (0b10101110u8 | f) == 0xAE + f by {
        assert(f <= 1 ==> (0b10101110u8 | f) == 0xAE + f) by (bit_vector);
    }
    assert forall|f: u8| f <= 1 implies #[trigger] (0b10100000u8 | f) == 0xA0 + f by {
        assert(f <= 1 ==> (0b10100000u8 | f) == 0xA0 + f) by (bit_vector);
    }
    assert forall|f: u8| f <= 1 implies #[trigger] (0b10100110u8 | f) == 0xA6 + f by {
        assert(f <= 1 ==> (0b10100110u8 | f) == 0xA6 + f) by (bit_vector);
    }
    assert forall|f: u8| f <= 1 implies #[trigger] (0b10100100u8 | f) == 0xA4 + f by {
        assert(f <= 1 ==> (0b10100100u8 | f) == 0xA4 + f) by (bit_vector);
    }
    assert forall|f: u8| f <= 1 implies #[trigger] (0b10100010u8 | f) == 0xA2 + f by {
        assert(f <= 1 ==> (0b10100010u8 | f) == 0xA2 + f) by (bit_vector);
    }
    assert forall|f: u8| f <= 1 implies #[trigger] (0b11000000u8 | (f << 3)) == 0xC0 + 8 * f by {
        assert(f <= 1 ==> (0b11000000u8 | (f << 3)) == 0xC0 + 8 * f) by (bit_vector);
    }
    assert forall|b: u8, r: u8, f: u8| b <= 1 && r <= 1 && f <= 1 implies #[trigger]
        (0b00101000u8 | (b << 2) | (r << 1) | f) == 0x28 + 4 * b + 2 * r + f by {
        assert(b <= 1 && r <= 1 && f <= 1 ==> (0b00101000u8 | (b << 2) | (r << 1) | f) == 0x28 + 4
            * b + 2 * r + f) by (bit_vector);
    }
}

/// Bits of a field beyond its width do not reach the wire: a command
/// encodes as the command with each field reduced to its width does.
pub proof fn lemma_fields_truncate(value: u8)
    ensures
        encoded(Command::DisplayStartLineSet { address: value }) == encoded(
            Command::DisplayStartLineSet { address: (value % 64) as u8 },
        ),
        encoded(Command::PageAddressSet { address: value }) == encoded(
            Command::PageAddressSet { address: (value % 16) as u8 },
        ),
        encoded(Command::VoltageRegulatorInternalResistorSet { resistor_ratio: value })
            == encoded(
            Command::VoltageRegulatorInternalResistorSet { resistor_ratio: (value % 8) as u8 },
        ),
        encoded(Command::ElectronicVolumeSet { volume_value: value }) == encoded(
            Command::ElectronicVolumeSet { volume_value: (value % 64) as u8 },
        ),
{
}

} // verus!
