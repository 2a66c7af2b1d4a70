use ramidier::enums::button::pads::PadKey;
use ramidier::enums::led_light::color::LedColor;
use ramidier::enums::led_light::mode::LedMode;
use ramidier::enums::message_filter::MessageFilter;
use ramidier::errors::validation::LedValidationError;
use ramidier::io::led::{all_pads_commands, build_initialization_sequence, build_led_command, build_pad_led_command};

#[test]
fn led_command_for_the_top_left_pad() {
    let c = build_pad_led_command(LedMode::On100Percent, PadKey::Grid(5, 1), LedColor::Green);
    assert_eq!(c, [0x96, 0x00, LedColor::Green.encode()]);
    assert_eq!(c, [0x96, 0x00, 21]);
    assert_eq!(build_led_command(LedMode::Blinking1over2, 39, LedColor::Off), [0x9F, 39, 0]);
}

#[test]
fn all_pads_cover_every_index() {
    let cmds = all_pads_commands(LedMode::Pulsing1over4, LedColor::Red);
    assert_eq!(cmds.len(), 87);
    for (i, c) in cmds.iter().enumerate() {
        assert_eq!(*c, [0x99, i as u8, 5]);
    }
}

#[test]
fn initialization_bytes() {
    assert_eq!(
        build_initialization_sequence(),
        vec![0xF0, 0x47, 0x7F, 0x29, 0x60, 0x00, 0x04, 0x42, 0x08, 0x02, 0x01, 0xF7]
    );
}

#[test]
fn led_mode_codes() {
    assert_eq!(LedMode::On10Percent.encode(), 0x90);
    assert_eq!(LedMode::Blinking1over2.encode(), 0x9F);
    assert_eq!(LedMode::decode(0x96), Ok(LedMode::On100Percent));
    assert_eq!(LedMode::decode(0x8F), Err(LedValidationError::InvalidNumber(0x8F)));
    assert_eq!(LedMode::decode(0xA0), Err(LedValidationError::InvalidNumber(0xA0)));
    assert_eq!(LedMode::default(), LedMode::On100Percent);
    for raw in 0x90..=0x9Fu8 {
        assert_eq!(LedMode::decode(raw).map(|m| m.encode()), Ok(raw));
    }
}

#[test]
fn led_color_codes() {
    assert_eq!(LedColor::Off.encode(), 0);
    assert_eq!(LedColor::decode(21), Ok(LedColor::Green));
    assert_eq!(LedColor::decode(22), Err(LedValidationError::InvalidNumber(22)));
}

#[test]
fn message_filter_bits() {
    assert_eq!(MessageFilter::Nothing.bits(), 0);
    assert_eq!(MessageFilter::SysexAndTime.bits(), MessageFilter::Sysex.bits() | MessageFilter::Time.bits());
    assert_eq!(MessageFilter::All.bits(), 7);
}
