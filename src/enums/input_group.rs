use crate::enums::button::knob_ctrl::KnobCtrlKey;
use crate::enums::button::pads::{lemma_pad_round_trip, PadKey};
use crate::enums::button::soft_keys::SoftKey;
use crate::errors::mapping::HardwareMappingError;
use crate::io::input_data::{MidiEvent, MidiInputData};
use vstd::prelude::*;

verus! {

/// The decoder of the pad/knob surface mode.
#[derive(Debug, Clone, Copy, PartialEq, Eq, Structural)]
pub struct PadsAndKnobsChannel;

/// The decoder of the keyboard mode.
#[derive(Debug, Clone, Copy, PartialEq, Eq, Structural)]
pub struct KeyboardChannel;

/// The record for a decoded control, or none where decoding failed.
pub open spec fn record_of<G>(decoded: Result<G, HardwareMappingError>, channel: u8, value: u8) -> Option<MidiInputData<G>> {
    match decoded {
        Ok(g) => Some(MidiInputData { channel, input_group: g, value }),
        Err(_) => None,
    }
}

/// A surface mode: the decoder that turns incoming events into records.
pub trait ChannelKind {
    /// The controls this mode reports.
    type Group;

    /// The record for an event, or none where it names no control of this
    /// mode or is of a kind the mode does not handle.
    spec fn decode_spec(msg: MidiEvent) -> Option<MidiInputData<Self::Group>>;

    fn decode(msg: &MidiEvent) -> (r: Option<MidiInputData<Self::Group>>)
        ensures
            r == Self::decode_spec(*msg),
    ;
}

impl ChannelKind for PadsAndKnobsChannel {
    type Group = PadsAndKnobsInputGroup;

    /// Translation of an event in pad/knob mode: notes report 1 when pressed
    /// and 0 when released, controllers pass their value on; a byte that
    /// names no control, or another kind of message, gives no record.
    open spec fn decode_spec(msg: MidiEvent) -> Option<MidiInputData<PadsAndKnobsInputGroup>> {
        match msg {
            MidiEvent::NoteOn { channel, note, .. } => record_of(PadsAndKnobsInputGroup::decode_spec(note), channel, 1),
            MidiEvent::NoteOff { channel, note, .. } => record_of(PadsAndKnobsInputGroup::decode_spec(note), channel, 0),
            MidiEvent::ControlChange { channel, control, value } => record_of(PadsAndKnobsInputGroup::decode_spec(control), channel, value),
            MidiEvent::Other => None,
        }
    }

    fn decode(msg: &MidiEvent) -> (r: Option<MidiInputData<PadsAndKnobsInputGroup>>) {
        match *msg {
            MidiEvent::NoteOn { channel, note, .. } => match PadsAndKnobsInputGroup::decode(note) {
                Ok(input_group) => Some(MidiInputData { channel, input_group, value: 1 }),
                Err(_) => None,
            },
            MidiEvent::NoteOff { channel, note, .. } => match PadsAndKnobsInputGroup::decode(note) {
                Ok(input_group) => Some(MidiInputData { channel, input_group, value: 0 }),
                Err(_) => None,
            },
            MidiEvent::ControlChange { channel, control, value } => match PadsAndKnobsInputGroup::decode(control) {
                Ok(input_group) => Some(MidiInputData { channel, input_group, value }),
                Err(_) => None,
            },
            MidiEvent::Other => None,
        }
    }
}

impl ChannelKind for KeyboardChannel {
    type Group = KeyboardInputGroup;

    /// Translation of an event in keyboard mode: notes report 1 when pressed
    /// and 0 when released; a note off the keyboard, or another kind of
    /// message, gives no record.
    open spec fn decode_spec(msg: MidiEvent) -> Option<MidiInputData<KeyboardInputGroup>> {
        match msg {
            MidiEvent::NoteOn { channel, note, .. } => record_of(KeyboardInputGroup::decode_spec(note), channel, 1),
            MidiEvent::NoteOff { channel, note, .. } => record_of(KeyboardInputGroup::decode_spec(note), channel, 0),
            _ => None,
        }
    }

    fn decode(msg: &MidiEvent) -> (r: Option<MidiInputData<KeyboardInputGroup>>) {
        match *msg {
            MidiEvent::NoteOn { channel, note, .. } => match KeyboardInputGroup::decode(note) {
                Ok(input_group) => Some(MidiInputData { channel, input_group, value: 1 }),
                Err(_) => None,
            },
            MidiEvent::NoteOff { channel, note, .. } => match KeyboardInputGroup::decode(note) {
                Ok(input_group) => Some(MidiInputData { channel, input_group, value: 0 }),
                Err(_) => None,
            },
            _ => None,
        }
    }
}

/// Every control of the surface in pad/knob mode.
#[derive(Debug, Clone, Copy, PartialEq, Eq, Structural)]
pub enum PadsAndKnobsInputGroup {
    Pads(PadKey),
    SoftKeys(SoftKey),
    KnobCtrl(KnobCtrlKey),
    /// A numbered knob, 1 to 8.
    Knob(u8),
    Up,
    Down,
    Right,
    Left,
    StopAllClips,
    Shift,
    ResumePause,
    Start,
}

/// The transport button that a raw byte names, if any.
pub open spec fn transport_of(value: u8) -> Option<PadsAndKnobsInputGroup> {
    if value == 64 {
        Some(PadsAndKnobsInputGroup::Up)
    } else if value == 65 {
        Some(PadsAndKnobsInputGroup::Down)
    } else if value == 66 {
        Some(PadsAndKnobsInputGroup::Left)
    } else if value == 67 {
        Some(PadsAndKnobsInputGroup::Right)
    } else if value == 81 {
        Some(PadsAndKnobsInputGroup::StopAllClips)
    } else if value == 98 {
        Some(PadsAndKnobsInputGroup::Shift)
    } else if value == 91 {
        Some(PadsAndKnobsInputGroup::ResumePause)
    } else if value == 92 {
        Some(PadsAndKnobsInputGroup::Start)
    } else {
        None
    }
}

impl PadsAndKnobsInputGroup {
    /// The identifier names a control that exists on the surface.
    pub open spec fn wf(self) -> bool {
        match self {
            PadsAndKnobsInputGroup::Pads(p) => p.wf(),
            PadsAndKnobsInputGroup::Knob(i) => 1 <= i <= 8,
            _ => true,
        }
    }

    /// The raw byte of each control.
    pub open spec fn raw_spec(self) -> int {
        match self {
            PadsAndKnobsInputGroup::Pads(p) => p.index_spec(),
            PadsAndKnobsInputGroup::SoftKeys(k) => k.code_spec() as int,
            PadsAndKnobsInputGroup::KnobCtrl(k) => k.code_spec() as int,
            PadsAndKnobsInputGroup::Knob(i) => i + 47,
            PadsAndKnobsInputGroup::Up => 64,
            PadsAndKnobsInputGroup::Down => 65,
            PadsAndKnobsInputGroup::Left => 66,
            PadsAndKnobsInputGroup::Right => 67,
            PadsAndKnobsInputGroup::StopAllClips => 81,
            PadsAndKnobsInputGroup::Shift => 98,
            PadsAndKnobsInputGroup::ResumePause => 91,
            PadsAndKnobsInputGroup::Start => 92,
        }
    }

    /// The classifier: transport buttons first, then the pad range (whose
    /// failure is final), then the knob range, then soft keys, then the
    /// knob selectors.
    pub open spec fn decode_spec(value: u8) -> Result<PadsAndKnobsInputGroup, HardwareMappingError> {
        if transport_of(value) is Some {
            Ok(transport_of(value)->0)
        } else if value <= 39 {
            match PadKey::decode_spec(value) {
                Ok(k) => Ok(PadsAndKnobsInputGroup::Pads(k)),
                Err(e) => Err(e),
            }
        } else if 48 <= value <= 55 {
            Ok(PadsAndKnobsInputGroup::Knob((value - 47) as u8))
        } else {
            match SoftKey::decode_spec(value) {
                Ok(k) => Ok(PadsAndKnobsInputGroup::SoftKeys(k)),
                Err(_) => match KnobCtrlKey::decode_spec(value) {
                    Ok(k) => Ok(PadsAndKnobsInputGroup::KnobCtrl(k)),
                    Err(_) => Err(HardwareMappingError::InvalidKnobCtrlIndex(value)),
                },
            }
        }
    }

    /// The raw byte of a control.
    pub fn encode(self) -> (r: u8)
        requires
            self.wf(),
        ensures
            r as int == self.raw_spec(),
    {
        match self {
            PadsAndKnobsInputGroup::Pads(p) => p.encode(),
            PadsAndKnobsInputGroup::SoftKeys(k) => k.encode(),
            PadsAndKnobsInputGroup::KnobCtrl(k) => k.encode(),
            PadsAndKnobsInputGroup::Knob(i) => i + 47,
            PadsAndKnobsInputGroup::Up => 64,
            PadsAndKnobsInputGroup::Down => 65,
            PadsAndKnobsInputGroup::Left => 66,
            PadsAndKnobsInputGroup::Right => 67,
            PadsAndKnobsInputGroup::StopAllClips => 81,
            PadsAndKnobsInputGroup::Shift => 98,
            PadsAndKnobsInputGroup::ResumePause => 91,
            PadsAndKnobsInputGroup::Start => 92,
        }
    }

    /// Classifies a raw byte.
    pub fn decode(value: u8) -> (r: Result<PadsAndKnobsInputGroup, HardwareMappingError>)
        ensures
            r == Self::decode_spec(value),
    {
        match value {
            64 => Ok(PadsAndKnobsInputGroup::Up),
            65 => Ok(PadsAndKnobsInputGroup::Down),
            66 => Ok(PadsAndKnobsInputGroup::Left),
            67 => Ok(PadsAndKnobsInputGroup::Right),
            81 => Ok(PadsAndKnobsInputGroup::StopAllClips),
            98 => Ok(PadsAndKnobsInputGroup::Shift),
            91 => Ok(PadsAndKnobsInputGroup::ResumePause),
            92 => Ok(PadsAndKnobsInputGroup::Start),
            0..=39 => match PadKey::decode(value) {
                Ok(k) => Ok(PadsAndKnobsInputGroup::Pads(k)),
                Err(e) => Err(e),
            },
            48..=55 => Ok(PadsAndKnobsInputGroup::Knob(value - 47)),
            _ => match SoftKey::decode(value) {
                Ok(k) => Ok(PadsAndKnobsInputGroup::SoftKeys(k)),
                Err(_) => match KnobCtrlKey::decode(value) {
                    Ok(k) => Ok(PadsAndKnobsInputGroup::KnobCtrl(k)),
                    Err(_) => Err(HardwareMappingError::InvalidKnobCtrlIndex(value)),
                },
            },
        }
    }
}

/// A key of the keyboard, in keyboard mode.
#[derive(Debug, Clone, Copy, PartialEq, Eq, Structural)]
pub enum KeyboardInputGroup {
    /// A key, 1 to 25 from the left.
    Key(u8),
}

impl KeyboardInputGroup {
    pub open spec fn index_spec(self) -> u8 {
        match self {
            KeyboardInputGroup::Key(i) => i,
        }
    }

    /// The key exists on the keyboard.
    pub open spec fn wf(self) -> bool {
        1 <= self.index_spec() <= 25
    }

    /// The raw byte of a key.
    pub open spec fn raw_spec(self) -> int {
        self.index_spec() + 47
    }

    /// Decoding of a raw byte in keyboard mode.
    pub open spec fn decode_spec(value: u8) -> Result<KeyboardInputGroup, HardwareMappingError> {
        if 48 <= value <= 72 {
            Ok(KeyboardInputGroup::Key((value - 47) as u8))
        } else {
            Err(HardwareMappingError::InvalidKeyboardKeyIndex(value))
        }
    }

    /// The raw byte of a key.
    pub fn encode(self) -> (r: u8)
        requires
            self.wf(),
        ensures
            r as int == self.raw_spec(),
    {
        match self {
            KeyboardInputGroup::Key(i) => i + 47,
        }
    }

    /// Decodes a raw byte in keyboard mode.
    pub fn decode(value: u8) -> (r: Result<KeyboardInputGroup, HardwareMappingError>)
        ensures
            r == Self::decode_spec(value),
    {
        if 48 <= value && value <= 72 {
            Ok(KeyboardInputGroup::Key(value - 47))
        } else {
            Err(HardwareMappingError::InvalidKeyboardKeyIndex(value))
        }
    }
}

/// Every control that exists has a raw byte in the 7-bit MIDI range, so
/// encoding never fails.
pub proof fn lemma_encode_total(k: PadsAndKnobsInputGroup)
    requires
        k.wf(),
    ensures
        0 <= k.raw_spec() <= 127,
{
    if let PadsAndKnobsInputGroup::Pads(p) = k {
        lemma_pad_round_trip(p);
    }
}

/// Decoding the raw byte of any control gives that control back.
pub proof fn lemma_round_trip(k: PadsAndKnobsInputGroup)
    requires
        k.wf(),
    ensures
        PadsAndKnobsInputGroup::decode_spec(k.raw_spec() as u8) == Ok::<PadsAndKnobsInputGroup, HardwareMappingError>(k),
{
    lemma_encode_total(k);
}

/// Every raw byte either decodes to a control that exists and whose raw
/// byte it is, or fails with an error that carries that byte.
pub proof fn lemma_partition(value: u8)
    ensures
        match PadsAndKnobsInputGroup::decode_spec(value) {
            Ok(k) => k.wf() && k.raw_spec() == value as int,
            Err(e) => e.raw_spec() == value,
        },
{
    if value <= 39 && transport_of(value) is None {
        let p = PadKey::decode_spec(value)->Ok_0;
        assert(p.index_spec() == value as int);
    }
}

/// Decoding the raw byte of any keyboard key gives that key back.
pub proof fn lemma_keyboard_round_trip(k: KeyboardInputGroup)
    requires
        k.wf(),
    ensures
        0 <= k.raw_spec() <= 127,
        KeyboardInputGroup::decode_spec(k.raw_spec() as u8) == Ok::<KeyboardInputGroup, HardwareMappingError>(k),
{
}

/// In keyboard mode every raw byte either decodes to a key that exists and
/// whose raw byte it is, or fails with an error that carries that byte.
pub proof fn lemma_keyboard_partition(value: u8)
    ensures
        match KeyboardInputGroup::decode_spec(value) {
            Ok(k) => k.wf() && k.raw_spec() == value as int,
            Err(e) => e.raw_spec() == value,
        },
{
}

} // verus!
