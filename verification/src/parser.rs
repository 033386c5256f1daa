use vstd::prelude::*;
use crate::event::MidiEvent;

verus! {

/// The parser's state between bytes: either no message is in flight, or a
/// status byte of one of the three supported kinds has been received and the
/// message is waiting for its first or second parameter byte.
#[derive(Clone, Copy, Debug, PartialEq, Eq, Structural)]
pub enum MidiParserState {
    Idle,
    NoteOnRecvd { channel: u8 },
    NoteOnNoteRecvd { channel: u8, note: u8 },
    NoteOffRecvd { channel: u8 },
    NoteOffNoteRecvd { channel: u8, note: u8 },
    ControlChangeRecvd { channel: u8 },
    ControlChangeControllerRecvd { channel: u8, controller: u8 },
}

/// A byte with its most-significant bit set is a status byte; any other byte
/// is a data byte.
pub open spec fn spec_is_status_byte(byte: u8) -> bool {
    byte & 0x80 == 0x80
}

/// The message-type nibble of a status byte.
pub open spec fn spec_message(byte: u8) -> u8 {
    byte & 0xf0
}

/// The channel nibble of a status byte.
pub open spec fn spec_channel(byte: u8) -> u8 {
    byte & 0x0f
}

/// Classifies one byte, for every byte: true exactly when the
/// most-significant bit is set, that is, when the byte is at least 0x80.
pub fn is_status_byte(byte: u8) -> (r: bool)
    ensures
        r == spec_is_status_byte(byte),
        r == (byte >= 0x80),
{
    proof {
        assert((byte & 0x80 == 0x80) == (byte >= 0x80)) by (bit_vector);
    }
    byte & 0x80 == 0x80
}

/// Splits a byte into its message-type nibble and its channel nibble; the
/// channel always fits in four bits.
pub fn split_message_and_channel(byte: u8) -> (r: (u8, u8))
    ensures
        r.0 == spec_message(byte),
        r.1 == spec_channel(byte),
        r.1 < 16,
{
    proof {
        assert(byte & 0x0f < 16) by (bit_vector);
    }
    (byte & 0xf0u8, byte & 0x0fu8)
}

/// Every channel the state carries fits in four bits: the parser only ever
/// stores a channel taken from the low nibble of a status byte.
pub open spec fn wf_state(s: MidiParserState) -> bool {
    match s {
        MidiParserState::Idle => true,
        MidiParserState::NoteOnRecvd { channel } => channel < 16,
        MidiParserState::NoteOnNoteRecvd { channel, note: _ } => channel < 16,
        MidiParserState::NoteOffRecvd { channel } => channel < 16,
        MidiParserState::NoteOffNoteRecvd { channel, note: _ } => channel < 16,
        MidiParserState::ControlChangeRecvd { channel } => channel < 16,
        MidiParserState::ControlChangeControllerRecvd { channel, controller: _ } => channel < 16,
    }
}

/// Where the parser goes on one byte.  A status byte of a recognized kind
/// starts a fresh message of that kind on the channel in its low nibble,
/// unconditionally discarding whatever was in flight; an unrecognized status
/// byte is a no-op that leaves the state untouched.  A data byte advances an
/// in-flight message, and the byte that completes a message returns the
/// parser to awaiting the first parameter of the same kind and channel
/// (running status), not to Idle.
pub open spec fn spec_transition(s: MidiParserState, byte: u8) -> MidiParserState {
    if spec_is_status_byte(byte) {
        let channel = spec_channel(byte);
        if spec_message(byte) == 0x80 {
            MidiParserState::NoteOffRecvd { channel }
        } else if spec_message(byte) == 0x90 {
            MidiParserState::NoteOnRecvd { channel }
        } else if spec_message(byte) == 0xB0 {
            MidiParserState::ControlChangeRecvd { channel }
        } else {
            s
        }
    } else {
        match s {
            MidiParserState::Idle => MidiParserState::Idle,
            MidiParserState::NoteOnRecvd { channel } => (MidiParserState::NoteOnNoteRecvd {
                channel,
                note: byte,
            }),
            MidiParserState::NoteOnNoteRecvd { channel, note: _ } => (MidiParserState::NoteOnRecvd {
                channel,
            }),
            MidiParserState::NoteOffRecvd { channel } => (MidiParserState::NoteOffNoteRecvd {
                channel,
                note: byte,
            }),
            MidiParserState::NoteOffNoteRecvd { channel, note: _ } => (MidiParserState::NoteOffRecvd {
                channel,
            }),
            MidiParserState::ControlChangeRecvd { channel } => (MidiParserState::ControlChangeControllerRecvd {
                channel,
                controller: byte,
            }),
            MidiParserState::ControlChangeControllerRecvd { channel, controller: _ } => (MidiParserState::ControlChangeRecvd {
                channel,
            }),
        }
    }
}

/// What one byte makes the parser return: an event exactly when the byte is a
/// data byte that completes an in-flight message, carrying that message's
/// channel and first parameter together with the byte itself as the second
/// parameter; nothing in every other case.
pub open spec fn spec_emitted(s: MidiParserState, byte: u8) -> Option<MidiEvent> {
    if spec_is_status_byte(byte) {
        None
    } else {
        match s {
            MidiParserState::NoteOnNoteRecvd { channel, note } => Some(MidiEvent::NoteOn {
                channel,
                note,
                velocity: byte,
            }),
            MidiParserState::NoteOffNoteRecvd { channel, note } => Some(MidiEvent::NoteOff {
                channel,
                note,
                velocity: byte,
            }),
            MidiParserState::ControlChangeControllerRecvd { channel, controller } => Some(
                MidiEvent::ControllerChange { channel, controller, value: byte },
            ),
            _ => None,
        }
    }
}

/// A data byte fed while no message is in flight is discarded without
/// comment: the parser stays Idle and returns no event.
pub proof fn lemma_data_byte_in_idle(byte: u8)
    requires
        byte & 0x80 == 0,
    ensures
        spec_transition(MidiParserState::Idle, byte) == MidiParserState::Idle,
        spec_emitted(MidiParserState::Idle, byte) is None,
{
}

/// A status byte of a recognized kind unconditionally discards whatever
/// message was in flight: from any state the parser moves to awaiting the
/// first parameter of the new message's kind, on the channel in the byte's
/// low nibble, and no event is returned.  An incomplete message is therefore
/// never emitted.
pub proof fn lemma_status_byte_discards_in_flight(s: MidiParserState, byte: u8)
    requires
        byte & 0xf0 == 0x80 || byte & 0xf0 == 0x90 || byte & 0xf0 == 0xB0,
    ensures
        spec_emitted(s, byte) is None,
        byte & 0xf0 == 0x80 ==> spec_transition(s, byte) == (MidiParserState::NoteOffRecvd {
            channel: spec_channel(byte),
        }),
        byte & 0xf0 == 0x90 ==> spec_transition(s, byte) == (MidiParserState::NoteOnRecvd {
            channel: spec_channel(byte),
        }),
        byte & 0xf0 == 0xB0 ==> spec_transition(s, byte) == (MidiParserState::ControlChangeRecvd {
            channel: spec_channel(byte),
        }),
{
    assert((byte & 0xf0 == 0x80 || byte & 0xf0 == 0x90 || byte & 0xf0 == 0xB0) ==> byte & 0x80
        == 0x80) by (bit_vector);
}

/// Running status: the byte that completes a message returns the parser to
/// awaiting the first parameter of the same kind, on the same channel as the
/// event just emitted, so the next data byte begins another message of that
/// kind without an intervening status byte.
pub proof fn lemma_running_status(s: MidiParserState, byte: u8, e: MidiEvent)
    requires
        spec_emitted(s, byte) == Some(e),
    ensures
        e matches MidiEvent::NoteOn { channel, .. } ==> spec_transition(s, byte)
            == (MidiParserState::NoteOnRecvd { channel }),
        e matches MidiEvent::NoteOff { channel, .. } ==> spec_transition(s, byte)
            == (MidiParserState::NoteOffRecvd { channel }),
        e matches MidiEvent::ControllerChange { channel, .. } ==> spec_transition(s, byte)
            == (MidiParserState::ControlChangeRecvd { channel }),
{
}

/// Well-formedness is an invariant of the transition function: from a state
/// whose channels fit in four bits, any byte leads to such a state again.
pub proof fn lemma_wf_preserved(s: MidiParserState, byte: u8)
    requires
        wf_state(s),
    ensures
        wf_state(spec_transition(s, byte)),
{
    assert(byte & 0x0f < 16) by (bit_vector);
}

/// Every event emitted from a well-formed state carries a channel in 0..16:
/// the channel was masked to four bits by the status byte that began the
/// message.
pub proof fn lemma_emitted_channel_in_range(s: MidiParserState, byte: u8)
    requires
        wf_state(s),
        spec_emitted(s, byte) is Some,
    ensures
        spec_emitted(s, byte)->Some_0.channel() < 16,
{
}

/// Decodes one byte at a time into events, holding only the state of the
/// message currently in flight.
pub struct MidiParser {
    state: MidiParserState,
}

impl View for MidiParser {
    type V = MidiParserState;

    closed spec fn view(&self) -> MidiParserState {
        self.state
    }
}

impl MidiParser {
    /// A fresh parser, with no message in flight.
    pub fn new() -> (p: MidiParser)
        ensures
            p@ == MidiParserState::Idle,
    {
        MidiParser { state: MidiParserState::Idle }
    }

    /// Consumes one byte; returns the completed event the moment its last
    /// byte arrives, and nothing otherwise.  Every byte is legal at any time:
    /// no input ever raises an error.  An unrecognized status byte leaves the
    /// state untouched, so it does not clear the running-status memory of an
    /// in-flight message.
    pub fn parse_byte(&mut self, byte: u8) -> (r: Option<MidiEvent>)
        ensures
            final(self)@ == spec_transition(old(self)@, byte),
            r == spec_emitted(old(self)@, byte),
            wf_state(old(self)@) ==> wf_state(final(self)@),
    {
        if is_status_byte(byte) {
            let (message, channel) = split_message_and_channel(byte);
            if message == 0x80 {
                self.state = MidiParserState::NoteOffRecvd { channel };
                None
            } else if message == 0x90 {
                self.state = MidiParserState::NoteOnRecvd { channel };
                None
            } else if message == 0xB0 {
                self.state = MidiParserState::ControlChangeRecvd { channel };
                None
            } else {
                None
            }
        } else {
            match self.state {
                MidiParserState::NoteOnRecvd { channel } => {
                    self.state = MidiParserState::NoteOnNoteRecvd { channel, note: byte };
                    None
                }
                MidiParserState::NoteOnNoteRecvd { channel, note } => {
                    self.state = MidiParserState::NoteOnRecvd { channel };
                    Some(MidiEvent::note_on(channel, note, byte))
                }
                MidiParserState::NoteOffRecvd { channel } => {
                    self.state = MidiParserState::NoteOffNoteRecvd { channel, note: byte };
                    None
                }
                MidiParserState::NoteOffNoteRecvd { channel, note } => {
                    self.state = MidiParserState::NoteOffRecvd { channel };
                    Some(MidiEvent::note_off(channel, note, byte))
                }
                MidiParserState::ControlChangeRecvd { channel } => {
                    self.state = MidiParserState::ControlChangeControllerRecvd {
                        channel,
                        controller: byte,
                    };
                    None
                }
                MidiParserState::ControlChangeControllerRecvd { channel, controller } => {
                    self.state = MidiParserState::ControlChangeRecvd { channel };
                    Some(MidiEvent::controller_change(channel, controller, byte))
                }
                _ => None,
            }
        }
    }
}

} // verus!
