use vstd::prelude::*;

verus! {

/// An incoming MIDI message as the transport has parsed it. Channels are
/// numbered from 0.
#[derive(Debug, Clone, Copy, PartialEq, Eq, Structural)]
pub enum MidiEvent {
    NoteOn { channel: u8, note: u8, velocity: u8 },
    NoteOff { channel: u8, note: u8, velocity: u8 },
    ControlChange { channel: u8, control: u8, value: u8 },
    /// Any other message.
    Other,
}

/// One decoded input: the channel it came on, the control, and its value
/// (1 pressed, 0 released, or a controller's value).
#[derive(Debug, PartialEq, Eq)]
pub struct MidiInputData<G> {
    pub channel: u8,
    pub input_group: G,
    pub value: u8,
}

} // verus!
