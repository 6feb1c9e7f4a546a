use st7565::displays::{DOGL128_6_EXT12V, DOGM132W5, GMG12864};
use st7565::types::{BoosterRatio, PowerControlMode, StaticIndicatorMode};
use st7565::{
    Code, Command, DisplayInterface, DisplaySpecs, ResetStep, ST7565DriverBuilder, ST7565,
};

struct Bus;

impl DisplayInterface for Bus {}

#[test]
fn reset_sequence_of_the_dogm132w5() {
    let disp = ST7565::new(Bus, DOGM132W5.specs());
    assert_eq!(
        disp.reset(),
        vec![
            ResetStep::ResetLow,
            ResetStep::DelayMs(1),
            ResetStep::ResetHigh,
            ResetStep::DelayMs(1),
            ResetStep::Command(Code::Single(0b10100010)),
            ResetStep::Command(Code::Single(0b10100001)),
            ResetStep::Command(Code::Single(0b11000000)),
            ResetStep::Command(Code::Single(0b10100110)),
            ResetStep::Command(Code::Double(0b11111000, 0b00000000)),
            ResetStep::Command(Code::Single(0b00100011)),
            ResetStep::Command(Code::Double(0b10000001, 0b00011111)),
            ResetStep::Command(Code::Single(0b00101111)),
            ResetStep::Command(Code::Single(0b01000000)),
        ]
    );
}

#[test]
fn reset_sequence_follows_the_display_specs() {
    let disp = ST7565::new(Bus, DOGL128_6_EXT12V.specs()).into_raw_mode();
    let steps = disp.reset();
    assert_eq!(steps.len(), 13);
    assert_eq!(steps[5], ResetStep::Command(Code::Single(0b10100000)));
    assert_eq!(steps[6], ResetStep::Command(Code::Single(0b11001000)));
    // The resistor ratio of this display has bits beyond the field.
    assert_eq!(steps[9], ResetStep::Command(Code::Single(0b00100111)));
    assert_eq!(
        steps[10],
        ResetStep::Command(Code::Double(0b10000001, 0b00010110))
    );
    assert_eq!(steps[11], ResetStep::Command(Code::Single(0b00101011)));
}

#[test]
fn raw_mode_commands() {
    let disp = ST7565::new(Bus, DOGM132W5.specs()).into_raw_mode();
    assert_eq!(disp.set_page(2), Code::Single(0b10110010));
    assert_eq!(disp.set_page(0b11110000), Code::Single(0b10110000));
    assert_eq!(disp.set_column(10), Code::Double(0b00010000, 0b00001010));
    assert_eq!(disp.set_column(0xA5), Code::Double(0b00011010, 0b00000101));
    assert_eq!(disp.adc_select(true), Code::Single(0b10100001));
    assert_eq!(disp.adc_select(false), Code::Single(0b10100000));
    assert_eq!(disp.common_output_mode_select(true), Code::Single(0b11001000));
    assert_eq!(disp.common_output_mode_select(false), Code::Single(0b11000000));
}

#[test]
fn commands_of_every_mode() {
    let disp = ST7565::new(Bus, DOGM132W5.specs());
    assert_eq!(disp.set_display_on(true), Code::Single(0b10101111));
    assert_eq!(disp.set_display_on(false), Code::Single(0b10101110));
    assert_eq!(disp.set_line_offset(31), Code::Single(0b01011111));
    assert_eq!(disp.set_line_offset(64), Code::Single(0b01000000));
    assert_eq!(disp.set_inverted(true), Code::Single(0b10100111));
    assert_eq!(disp.display_all_points(true), Code::Single(0b10100101));
    assert_eq!(disp.set_static_indicator(None), Code::Single(0b10101100));
    assert_eq!(
        disp.set_static_indicator(Some(StaticIndicatorMode::BlinkSlow)),
        Code::Double(0b10101101, 0b00000001)
    );
    let disp = disp.into_raw_mode();
    assert_eq!(disp.set_display_on(true), Code::Single(0b10101111));
}

#[test]
fn code_bytes_keep_their_order() {
    assert_eq!(Code::Single(7).bytes(), vec![7]);
    assert_eq!(Code::Double(1, 2).bytes(), vec![1, 2]);
    assert_eq!(
        Command::ColumnAddressSet { address: 0x21 }.encode().bytes(),
        vec![0x12, 0x01]
    );
}

#[test]
fn known_displays_are_addressable() {
    assert!(DOGM132W5.specs().is_valid());
    assert!(DOGL128_6_EXT12V.specs().is_valid());
    assert!(GMG12864.specs().is_valid());
    assert_eq!(DOGM132W5.specs().width, 132);
    assert_eq!(DOGM132W5.specs().height, 32);
    assert_eq!(DOGM132W5.specs().pages, 4);
    assert!(DOGM132W5.specs().flip_columns);
    assert_eq!(DOGL128_6_EXT12V.specs().column_offset, 4);
    assert_eq!(DOGL128_6_EXT12V.specs().voltage_regulator_resistor_ratio, 0b100111);
    assert!(!DOGL128_6_EXT12V.specs().power_control.booster_circuit);
    assert_eq!(GMG12864.specs().pages, 8);
    assert_eq!(GMG12864.specs().electronic_volume, 0b010001);
}

#[test]
fn validity_of_display_specs() {
    let good: DisplaySpecs = GMG12864.specs();
    let mut specs = good;
    specs.pages = 7;
    assert!(!specs.is_valid());
    let mut specs = good;
    specs.height = 57;
    assert!(specs.is_valid());
    specs.height = 56;
    assert!(!specs.is_valid());
    let mut specs = good;
    specs.column_offset = 124;
    assert!(specs.is_valid());
    specs.column_offset = 125;
    assert!(!specs.is_valid());
    let mut specs = good;
    specs.height = 128;
    specs.pages = 16;
    assert!(specs.is_valid());
    specs.height = 129;
    specs.pages = 17;
    assert!(!specs.is_valid());
    let mut specs = good;
    specs.width = usize::MAX;
    assert!(!specs.is_valid());
    specs.width = 0;
    specs.height = 0;
    specs.pages = 0;
    assert!(specs.is_valid());
}

#[test]
fn builder_starts_with_nothing_set() {
    let disp = ST7565DriverBuilder::new(Bus).build();
    assert_eq!(
        disp.reset(),
        vec![
            ResetStep::ResetLow,
            ResetStep::DelayMs(1),
            ResetStep::ResetHigh,
            ResetStep::DelayMs(1),
            ResetStep::Command(Code::Single(0b10100010)),
            ResetStep::Command(Code::Single(0b10100000)),
            ResetStep::Command(Code::Single(0b11000000)),
            ResetStep::Command(Code::Single(0b10100110)),
            ResetStep::Command(Code::Double(0b11111000, 0b00000000)),
            ResetStep::Command(Code::Single(0b00100000)),
            ResetStep::Command(Code::Double(0b10000001, 0b00000000)),
            ResetStep::Command(Code::Single(0b00101000)),
            ResetStep::Command(Code::Single(0b01000000)),
        ]
    );
}

#[test]
fn builder_settings_reach_the_reset_sequence() {
    let disp = ST7565DriverBuilder::new(Bus)
        .lcd_bias(true)
        .power_control(PowerControlMode {
            booster_circuit: true,
            voltage_regulator_circuit: false,
            voltage_follower_circuit: true,
        })
        .voltage_regulator_resistor_ratio(0b101)
        .electric_volume(0b100001)
        .booster_ratio(BoosterRatio::StepUp5x)
        .build()
        .into_raw_mode();
    let steps = disp.reset();
    assert_eq!(steps[4], ResetStep::Command(Code::Single(0b10100011)));
    assert_eq!(
        steps[8],
        ResetStep::Command(Code::Double(0b11111000, 0b00000001))
    );
    assert_eq!(steps[9], ResetStep::Command(Code::Single(0b00100101)));
    assert_eq!(
        steps[10],
        ResetStep::Command(Code::Double(0b10000001, 0b00100001))
    );
    assert_eq!(steps[11], ResetStep::Command(Code::Single(0b00101101)));
}

#[test]
fn interface_is_handed_back_on_release() {
    struct Tagged(u32);
    impl DisplayInterface for Tagged {}
    let buffer = st7565::GraphicsPageBuffer::new(4, 1);
    let mut disp = ST7565::new(Tagged(7), DOGM132W5.specs()).into_graphics_mode(buffer);
    assert_eq!(disp.interface_mut().0, 7);
    disp.interface_mut().0 = 8;
    let (detached, bus) = disp.release_display_interface();
    assert_eq!(bus.0, 8);
    let mut disp = detached.attach_display_interface(Tagged(9));
    assert_eq!(disp.interface_mut().0, 9);
}
