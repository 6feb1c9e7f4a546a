use st7565::types::{BoosterRatio, PowerControlMode, StaticIndicatorMode};
use st7565::{Code, Command};

fn check_command(cmd: Command, result: &[u8]) {
    assert_eq!(cmd.encode().bytes(), result);
}

#[test]
fn commands() {
    check_command(Command::DisplayOnOff { on: true }, &[0b10101111]);
    check_command(Command::DisplayOnOff { on: false }, &[0b10101110]);
    check_command(Command::DisplayStartLineSet { address: 0b101010 }, &[0b01101010]);
    check_command(Command::DisplayStartLineSet { address: 0b010101 }, &[0b01010101]);
    check_command(
        Command::DisplayStartLineSet {
            address: 0b11000000,
        },
        &[0b01000000],
    );
    check_command(Command::PageAddressSet { address: 0b1010 }, &[0b10111010]);
    check_command(Command::PageAddressSet { address: 0b0101 }, &[0b10110101]);
    check_command(
        Command::PageAddressSet {
            address: 0b11110000,
        },
        &[0b10110000],
    );
    check_command(
        Command::ColumnAddressSet {
            address: 0b10100000,
        },
        &[0b00011010, 0b00000000],
    );
    check_command(
        Command::ColumnAddressSet {
            address: 0b01010000,
        },
        &[0b00010101, 0b00000000],
    );
    check_command(
        Command::ColumnAddressSet {
            address: 0b00001010,
        },
        &[0b00010000, 0b00001010],
    );
    check_command(
        Command::ColumnAddressSet {
            address: 0b00000101,
        },
        &[0b00010000, 0b00000101],
    );
    check_command(Command::AdcSelect { reverse: true }, &[0b10100001]);
    check_command(Command::AdcSelect { reverse: false }, &[0b10100000]);
    check_command(Command::DisplayNormalReverse { reverse: true }, &[0b10100111]);
    check_command(Command::DisplayNormalReverse { reverse: false }, &[0b10100110]);
    check_command(Command::DisplayAllPoints { on: true }, &[0b10100101]);
    check_command(Command::DisplayAllPoints { on: false }, &[0b10100100]);
    check_command(Command::LcdBiasSet { bias_mode_1: true }, &[0b10100011]);
    check_command(Command::LcdBiasSet { bias_mode_1: false }, &[0b10100010]);
    check_command(Command::CommonOutputModeSelect { reverse: true }, &[0b11001000]);
    check_command(Command::CommonOutputModeSelect { reverse: false }, &[0b11000000]);
    check_command(
        Command::PowerControlSet {
            mode: PowerControlMode {
                booster_circuit: true,
                voltage_regulator_circuit: false,
                voltage_follower_circuit: false,
            },
        },
        &[0b00101100],
    );
    check_command(
        Command::PowerControlSet {
            mode: PowerControlMode {
                booster_circuit: false,
                voltage_regulator_circuit: true,
                voltage_follower_circuit: false,
            },
        },
        &[0b00101010],
    );
    check_command(
        Command::PowerControlSet {
            mode: PowerControlMode {
                booster_circuit: false,
                voltage_regulator_circuit: false,
                voltage_follower_circuit: true,
            },
        },
        &[0b00101001],
    );
    check_command(
        Command::VoltageRegulatorInternalResistorSet {
            resistor_ratio: 0b101,
        },
        &[0b00100101],
    );
    check_command(
        Command::VoltageRegulatorInternalResistorSet {
            resistor_ratio: 0b010,
        },
        &[0b00100010],
    );
    check_command(
        Command::VoltageRegulatorInternalResistorSet {
            resistor_ratio: 0b11111000,
        },
        &[0b00100000],
    );
    check_command(
        Command::ElectronicVolumeSet {
            volume_value: 0b101010,
        },
        &[0b10000001, 0b00101010],
    );
    check_command(
        Command::ElectronicVolumeSet {
            volume_value: 0b010101,
        },
        &[0b10000001, 0b00010101],
    );
    check_command(
        Command::ElectronicVolumeSet {
            volume_value: 0b11000000,
        },
        &[0b10000001, 0b00000000],
    );
    check_command(
        Command::StaticIndicatorSet {
            mode: Some(StaticIndicatorMode::Off),
        },
        &[0b10101101, 0b00000000],
    );
    check_command(
        Command::StaticIndicatorSet {
            mode: Some(StaticIndicatorMode::On),
        },
        &[0b10101101, 0b00000011],
    );
    check_command(
        Command::StaticIndicatorSet {
            mode: Some(StaticIndicatorMode::BlinkSlow),
        },
        &[0b10101101, 0b00000001],
    );
    check_command(
        Command::StaticIndicatorSet {
            mode: Some(StaticIndicatorMode::BlinkFast),
        },
        &[0b10101101, 0b00000010],
    );
    check_command(Command::StaticIndicatorSet { mode: None }, &[0b10101100]);
    check_command(
        Command::BoosterRatioSet {
            stepup_value: BoosterRatio::StepUp2x3x4x,
        },
        &[0b11111000, 0b00000000],
    );
    check_command(
        Command::BoosterRatioSet {
            stepup_value: BoosterRatio::StepUp5x,
        },
        &[0b11111000, 0b00000001],
    );
    check_command(
        Command::BoosterRatioSet {
            stepup_value: BoosterRatio::StepUp6x,
        },
        &[0b11111000, 0b00000011],
    );
}

#[test]
fn page_address_drops_high_bits() {
    check_command(Command::PageAddressSet { address: 0b11110000 }, &[0b10110000]);
    assert_eq!(
        Command::PageAddressSet { address: 0b11110101 }.encode(),
        Command::PageAddressSet { address: 0b0101 }.encode()
    );
}

#[test]
fn static_indicator_off_is_one_byte() {
    assert_eq!(
        Command::StaticIndicatorSet { mode: None }.encode(),
        Code::Single(0b10101100)
    );
    assert_eq!(
        Command::StaticIndicatorSet { mode: None }.encode().bytes(),
        vec![0b10101100]
    );
}

#[test]
fn static_indicator_blink_fast_is_two_bytes() {
    assert_eq!(
        Command::StaticIndicatorSet {
            mode: Some(StaticIndicatorMode::BlinkFast)
        }
        .encode(),
        Code::Double(0b10101101, 0b00000010)
    );
    assert_eq!(
        Command::StaticIndicatorSet {
            mode: Some(StaticIndicatorMode::BlinkFast)
        }
        .encode()
        .bytes(),
        vec![0b10101101, 0b00000010]
    );
}

#[test]
fn booster_ratio_six_times() {
    assert_eq!(
        Command::BoosterRatioSet {
            stepup_value: BoosterRatio::StepUp6x
        }
        .encode()
        .bytes(),
        vec![0b11111000, 0b00000011]
    );
}

#[test]
fn every_byte_value_of_a_field_is_accepted() {
    let mut value: u16 = 0;
    while value < 256 {
        let v = value as u8;
        assert_eq!(
            Command::DisplayStartLineSet { address: v }.encode(),
            Code::Single(0x40 + v % 64)
        );
        assert_eq!(
            Command::PageAddressSet { address: v }.encode(),
            Code::Single(0xB0 + v % 16)
        );
        assert_eq!(
            Command::ColumnAddressSet { address: v }.encode(),
            Code::Double(0x10 + v / 16, v % 16)
        );
        assert_eq!(
            Command::VoltageRegulatorInternalResistorSet { resistor_ratio: v }.encode(),
            Code::Single(0x20 + v % 8)
        );
        assert_eq!(
            Command::ElectronicVolumeSet { volume_value: v }.encode(),
            Code::Double(0x81, v % 64)
        );
        value += 1;
    }
}

#[test]
fn power_control_combines_three_flags() {
    let all = PowerControlMode {
        booster_circuit: true,
        voltage_regulator_circuit: true,
        voltage_follower_circuit: true,
    };
    let none = PowerControlMode {
        booster_circuit: false,
        voltage_regulator_circuit: false,
        voltage_follower_circuit: false,
    };
    check_command(Command::PowerControlSet { mode: all }, &[0b00101111]);
    check_command(Command::PowerControlSet { mode: none }, &[0b00101000]);
}
