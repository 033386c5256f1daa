//! Incremental decoder for a byte-oriented music-control protocol.
//!
//! Bytes arrive one at a time; the parser classifies each as a status byte
//! (message type and channel) or a data byte (a parameter), accumulates the
//! minimal in-flight state, and returns a completed event as soon as both
//! parameter bytes of a recognized message have arrived.  Running status
//! (a repeated message of the same kind and channel with the status byte
//! omitted) is supported, and malformed input never raises an error: the
//! parser silently resynchronizes on the next recognized status byte.

pub mod event;
pub mod parser;

pub use event::MidiEvent;
pub use parser::MidiParser;
pub use parser::MidiParserState;
pub use parser::is_status_byte;
pub use parser::split_message_and_channel;
