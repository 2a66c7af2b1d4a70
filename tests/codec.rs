use ramidier::enums::button::knob_ctrl::KnobCtrlKey;
use ramidier::enums::button::pads::{PadData, PadKey};
use ramidier::enums::button::soft_keys::SoftKey;
use ramidier::enums::input_group::{KeyboardInputGroup, PadsAndKnobsInputGroup};
use ramidier::errors::mapping::HardwareMappingError;

fn all_controls() -> Vec<PadsAndKnobsInputGroup> {
    let mut v = Vec::new();
    for row in 1..=5u8 {
        for col in 1..=8u8 {
            v.push(PadsAndKnobsInputGroup::Pads(PadKey::Grid(row, col)));
        }
    }
    for k in [SoftKey::ClipStop, SoftKey::Solo, SoftKey::Mute, SoftKey::RecArm, SoftKey::Select] {
        v.push(PadsAndKnobsInputGroup::SoftKeys(k));
    }
    for k in [KnobCtrlKey::Volume, KnobCtrlKey::Pan, KnobCtrlKey::Send, KnobCtrlKey::Device] {
        v.push(PadsAndKnobsInputGroup::KnobCtrl(k));
    }
    for i in 1..=8u8 {
        v.push(PadsAndKnobsInputGroup::Knob(i));
    }
    v.extend([
        PadsAndKnobsInputGroup::Up,
        PadsAndKnobsInputGroup::Down,
        PadsAndKnobsInputGroup::Left,
        PadsAndKnobsInputGroup::Right,
        PadsAndKnobsInputGroup::StopAllClips,
        PadsAndKnobsInputGroup::Shift,
        PadsAndKnobsInputGroup::ResumePause,
        PadsAndKnobsInputGroup::Start,
    ]);
    v
}

#[test]
fn round_trip_every_control() {
    for k in all_controls() {
        let raw = k.encode();
        assert!(raw <= 127);
        assert_eq!(PadsAndKnobsInputGroup::decode(raw), Ok(k));
    }
}

#[test]
fn round_trip_every_keyboard_key() {
    for i in 1..=25u8 {
        let k = KeyboardInputGroup::Key(i);
        assert_eq!(k.encode(), i + 47);
        assert_eq!(KeyboardInputGroup::decode(k.encode()), Ok(k));
    }
}

#[test]
fn pad_encoding_is_injective() {
    let mut seen = Vec::new();
    for row in 1..=5u8 {
        for col in 1..=8u8 {
            let p = PadKey::Grid(row, col);
            let raw = p.encode();
            assert!(raw < 40);
            assert!(!seen.contains(&raw));
            seen.push(raw);
            assert_eq!(PadKey::decode(raw), Ok(p));
        }
    }
    assert_eq!(seen.len(), 40);
}

#[test]
fn pad_layout_corners() {
    assert_eq!(PadKey::Grid(5, 1).encode(), 0);
    assert_eq!(PadKey::Grid(5, 8).encode(), 7);
    assert_eq!(PadKey::Grid(1, 1).encode(), 32);
    assert_eq!(PadKey::Grid(1, 8).get_index(), 39);
    assert_eq!(PadKey::Grid(3, 6).encode(), 21);
}

#[test]
fn pad_getters() {
    let p = PadKey::Grid(2, 7);
    assert_eq!(p.get_row(), 2);
    assert_eq!(p.get_col(), 7);
    assert_eq!(p.get_index(), 30);
}

#[test]
fn pad_decode_on_other_grids() {
    assert_eq!(PadKey::from_pad_data(PadData::new(Some(4), Some(4), 5)), Ok(PadKey::Grid(3, 2)));
    assert_eq!(PadKey::from_pad_data(PadData::new(Some(4), Some(4), 16)), Err(HardwareMappingError::InvalidPadIndex(16)));
    assert_eq!(PadKey::from_pad_data(PadData::new(None, None, 39)), Ok(PadKey::Grid(1, 8)));
    assert_eq!(PadKey::from_pad_data(PadData::new(Some(0), None, 0)), Err(HardwareMappingError::InvalidPadIndex(0)));
    assert_eq!(PadKey::from_pad_data(PadData::new(Some(255), Some(255), 255)), Ok(PadKey::Grid(254, 1)));
}

#[test]
fn every_raw_byte_is_a_control_or_an_error() {
    for raw in 0..=255u8 {
        match PadsAndKnobsInputGroup::decode(raw) {
            Ok(k) => assert_eq!(k.encode(), raw),
            Err(e) => assert_eq!(e.raw(), raw),
        }
        match KeyboardInputGroup::decode(raw) {
            Ok(k) => assert_eq!(k.encode(), raw),
            Err(e) => assert_eq!(e, HardwareMappingError::InvalidKeyboardKeyIndex(raw)),
        }
    }
}

#[test]
fn boundaries_of_the_classifier() {
    assert_eq!(PadsAndKnobsInputGroup::decode(39), Ok(PadsAndKnobsInputGroup::Pads(PadKey::Grid(1, 8))));
    assert_eq!(PadKey::decode(40), Err(HardwareMappingError::InvalidPadIndex(40)));
    assert_eq!(PadsAndKnobsInputGroup::decode(40), Err(HardwareMappingError::InvalidKnobCtrlIndex(40)));
    assert_eq!(PadsAndKnobsInputGroup::decode(47), Err(HardwareMappingError::InvalidKnobCtrlIndex(47)));
    assert_eq!(PadsAndKnobsInputGroup::decode(48), Ok(PadsAndKnobsInputGroup::Knob(1)));
    assert_eq!(PadsAndKnobsInputGroup::decode(55), Ok(PadsAndKnobsInputGroup::Knob(8)));
    assert_eq!(PadsAndKnobsInputGroup::decode(56), Err(HardwareMappingError::InvalidKnobCtrlIndex(56)));
}

#[test]
fn fixed_tables() {
    assert_eq!(PadsAndKnobsInputGroup::decode(64), Ok(PadsAndKnobsInputGroup::Up));
    assert_eq!(PadsAndKnobsInputGroup::decode(66), Ok(PadsAndKnobsInputGroup::Left));
    assert_eq!(PadsAndKnobsInputGroup::decode(67), Ok(PadsAndKnobsInputGroup::Right));
    assert_eq!(PadsAndKnobsInputGroup::decode(92), Ok(PadsAndKnobsInputGroup::Start));
    assert_eq!(PadsAndKnobsInputGroup::Start.encode(), 92);
    assert_eq!(PadsAndKnobsInputGroup::decode(93), Err(HardwareMappingError::InvalidKnobCtrlIndex(93)));
    assert_eq!(PadsAndKnobsInputGroup::decode(82), Ok(PadsAndKnobsInputGroup::SoftKeys(SoftKey::ClipStop)));
    assert_eq!(PadsAndKnobsInputGroup::decode(71), Ok(PadsAndKnobsInputGroup::KnobCtrl(KnobCtrlKey::Device)));
    assert_eq!(SoftKey::decode(87), Err(HardwareMappingError::InvalidSoftKeyIndex(87)));
    assert_eq!(KnobCtrlKey::decode(72), Err(HardwareMappingError::InvalidKnobCtrlIndex(72)));
    assert_eq!(SoftKey::Select.encode(), 86);
    assert_eq!(KnobCtrlKey::Pan.encode(), 69);
}

#[test]
fn keyboard_range() {
    assert_eq!(KeyboardInputGroup::decode(47), Err(HardwareMappingError::InvalidKeyboardKeyIndex(47)));
    assert_eq!(KeyboardInputGroup::decode(48), Ok(KeyboardInputGroup::Key(1)));
    assert_eq!(KeyboardInputGroup::decode(72), Ok(KeyboardInputGroup::Key(25)));
    assert_eq!(KeyboardInputGroup::decode(73), Err(HardwareMappingError::InvalidKeyboardKeyIndex(73)));
}
