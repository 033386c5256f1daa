use midi_stream::is_status_byte;
use midi_stream::split_message_and_channel;
use midi_stream::MidiEvent;
use midi_stream::MidiParser;

/// Feeds a slice of bytes to a fresh parser and asserts that exactly the
/// expected events come out, in order.
fn assert_result(bytes: &[u8], expected_events: &[MidiEvent]) {
    let mut parser = MidiParser::new();
    let mut events: Vec<MidiEvent> = Vec::new();
    for &byte in bytes.iter() {
        if let Some(event) = parser.parse_byte(byte) {
            events.push(event);
        }
    }
    assert_eq!(expected_events, events.as_slice());
}

#[test]
fn should_parse_status_byte() {
    assert!(is_status_byte(0x80u8));
    assert!(is_status_byte(0x94u8));
    assert!(!is_status_byte(0x00u8));
    assert!(!is_status_byte(0x78u8));
}

#[test]
fn should_split_message_and_channel() {
    let (message, channel) = split_message_and_channel(0x91u8);
    assert_eq!(message, 0x90u8);
    assert_eq!(channel, 1);
}

#[test]
fn should_parse_note_on() {
    assert_result(
        &[0x91, 0x04, 0x34],
        &[MidiEvent::note_on(1, 4, 0x34)],
    );
}

#[test]
fn should_handle_note_on_running_state() {
    assert_result(
        &[
            0x92, 0x76, 0x34, // First note_on
            0x33, 0x65, // Second note on without status byte
        ],
        &[
            MidiEvent::note_on(2, 0x76, 0x34),
            MidiEvent::note_on(2, 0x33, 0x65),
        ],
    );
}

#[test]
fn should_parse_note_off() {
    assert_result(
        &[0x82, 0x76, 0x34],
        &[MidiEvent::note_off(2, 0x76, 0x34)],
    );
}

#[test]
fn should_handle_note_off_running_state() {
    assert_result(
        &[
            0x82, 0x76, 0x34, // First note_off
            0x33, 0x65, // Second note_off without status byte
        ],
        &[
            MidiEvent::note_off(2, 0x76, 0x34),
            MidiEvent::note_off(2, 0x33, 0x65),
        ],
    );
}

#[test]
fn should_parse_control_change() {
    assert_result(
        &[0xB2, 0x76, 0x34],
        &[MidiEvent::controller_change(2, 0x76, 0x34)],
    );
}

#[test]
fn should_parse_control_change_running_state() {
    assert_result(
        &[
            0xb3, 0x3C, 0x18, // First control change
            0x43, 0x01, // Second control change without status byte
        ],
        &[
            MidiEvent::controller_change(3, 0x3C, 0x18),
            MidiEvent::controller_change(3, 0x43, 0x01),
        ],
    );
}

#[test]
fn should_ignore_incomplete_messages() {
    assert_result(
        &[
            0x92, 0x1b, // Start note on message
            0x82, 0x76, 0x34, // continue with a complete note off message
        ],
        &[MidiEvent::note_off(2, 0x76, 0x34)],
    );
}

#[test]
fn use_new_assert_midi() {
    assert_result(
        &[0x92, 0x82, 0x76, 0x34],
        &[MidiEvent::note_off(2, 0x76, 0x34)],
    );
}

#[test]
fn data_bytes_while_idle_are_discarded() {
    assert_result(&[0x00, 0x42, 0x7f], &[]);
}

#[test]
fn classifies_boundary_bytes() {
    assert!(!is_status_byte(0x7fu8));
    assert!(is_status_byte(0xffu8));
}

#[test]
fn unsupported_status_byte_alone_starts_nothing() {
    // 0xE3 (pitch bend) is a status byte of an unsupported kind: it starts no
    // message, so the data bytes after it are discarded.
    assert_result(&[0xE3, 0x12, 0x34], &[]);
}

#[test]
fn unsupported_status_byte_keeps_in_flight_message() {
    // An unsupported status byte is a no-op: it does not clear the in-flight
    // Note-On, whose second parameter then completes it.
    assert_result(
        &[0x92, 0x76, 0xE3, 0x34],
        &[MidiEvent::note_on(2, 0x76, 0x34)],
    );
}

#[test]
fn extracts_highest_channel() {
    assert_result(
        &[0x9f, 0x01, 0x02],
        &[MidiEvent::note_on(15, 1, 2)],
    );
}

#[test]
fn constructors_build_each_kind() {
    assert_eq!(
        MidiEvent::note_on(1, 2, 3),
        MidiEvent::NoteOn { channel: 1, note: 2, velocity: 3 }
    );
    assert_eq!(
        MidiEvent::note_off(4, 5, 6),
        MidiEvent::NoteOff { channel: 4, note: 5, velocity: 6 }
    );
    assert_eq!(
        MidiEvent::controller_change(7, 8, 9),
        MidiEvent::ControllerChange { channel: 7, controller: 8, value: 9 }
    );
}

#[test]
fn splits_every_status_kind() {
    let (message, channel) = split_message_and_channel(0x80u8);
    assert_eq!(message, 0x80u8);
    assert_eq!(channel, 0);
    let (message, channel) = split_message_and_channel(0xbfu8);
    assert_eq!(message, 0xb0u8);
    assert_eq!(channel, 15);
}
