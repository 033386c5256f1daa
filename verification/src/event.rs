use vstd::prelude::*;

verus! {

/// A decoded message: one of the three supported kinds, each carrying a
/// channel and two 8-bit parameters.  When produced by the parser the channel
/// is 0-15, having been masked out of the low nibble of a status byte; the
/// constructors themselves perform no validation beyond that construction.
#[derive(Clone, Copy, Debug, PartialEq, Eq, Structural)]
pub enum MidiEvent {
    NoteOn { channel: u8, note: u8, velocity: u8 },
    NoteOff { channel: u8, note: u8, velocity: u8 },
    ControllerChange { channel: u8, controller: u8, value: u8 },
}

impl MidiEvent {
    /// The channel the event addresses, whatever its kind.
    pub open spec fn channel(self) -> u8 {
        match self {
            MidiEvent::NoteOn { channel, .. } => channel,
            MidiEvent::NoteOff { channel, .. } => channel,
            MidiEvent::ControllerChange { channel, .. } => channel,
        }
    }

    pub fn note_on(channel: u8, note: u8, velocity: u8) -> (e: MidiEvent)
        ensures
            e == (MidiEvent::NoteOn { channel, note, velocity }),
    {
        MidiEvent::NoteOn { channel, note, velocity }
    }

    pub fn note_off(channel: u8, note: u8, velocity: u8) -> (e: MidiEvent)
        ensures
            e == (MidiEvent::NoteOff { channel, note, velocity }),
    {
        MidiEvent::NoteOff { channel, note, velocity }
    }

    pub fn controller_change(channel: u8, controller: u8, value: u8) -> (e: MidiEvent)
        ensures
            e == (MidiEvent::ControllerChange { channel, controller, value }),
    {
        MidiEvent::ControllerChange { channel, controller, value }
    }
}

} // verus!
