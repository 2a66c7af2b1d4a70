use vstd::prelude::*;

verus! {

/// Which kinds of incoming MIDI messages the input port ignores.
#[derive(Debug, Clone, Copy, PartialEq, Eq, Structural)]
pub enum MessageFilter {
    /// Ignore nothing.
    Nothing,
    Sysex,
    Time,
    SysexAndTime,
    ActiveSense,
    SysexAndActiveSense,
    TimeAndActiveSense,
    All,
}

impl MessageFilter {
    /// The filter as a bit set: 1 for SysEx, 2 for timing, 4 for active sensing.
    pub open spec fn bits_spec(self) -> u8 {
        match self {
            MessageFilter::Nothing => 0,
            MessageFilter::Sysex => 1,
            MessageFilter::Time => 2,
            MessageFilter::SysexAndTime => 3,
            MessageFilter::ActiveSense => 4,
            MessageFilter::SysexAndActiveSense => 5,
            MessageFilter::TimeAndActiveSense => 6,
            MessageFilter::All => 7,
        }
    }

    /// The filter as a bit set: 1 for SysEx, 2 for timing, 4 for active sensing.
    pub fn bits(self) -> (r: u8)
        ensures
            r == self.bits_spec(),
    {
        match self {
            MessageFilter::Nothing => 0,
            MessageFilter::Sysex => 1,
            MessageFilter::Time => 2,
            MessageFilter::SysexAndTime => 3,
            MessageFilter::ActiveSense => 4,
            MessageFilter::SysexAndActiveSense => 5,
            MessageFilter::TimeAndActiveSense => 6,
            MessageFilter::All => 7,
        }
    }
}

} // verus!
