use vstd::prelude::*;
use midi_msg::{ChannelVoiceMsg, MidiMsg};

verus! {

/// A decoded MIDI message as the voice engine sees it.
#[derive(Debug, Clone, Copy, PartialEq, Eq, Structural)]
pub enum NoteEvent {
    NoteOn { note: u8, velocity: u8 },
    NoteOff { note: u8, velocity: u8 },
    /// Any other message, and bytes that do not form a message.
    Other,
}

impl NoteEvent {
    /// Note numbers and velocities are 7-bit MIDI data values.
    pub open spec fn wf(self) -> bool {
        match self {
            NoteEvent::NoteOn { note, velocity } => note < 128 && velocity < 128,
            NoteEvent::NoteOff { note, velocity } => note < 128 && velocity < 128,
            NoteEvent::Other => true,
        }
    }
}

/// The note message that three bytes spell: a note-off status byte (0x80 to
/// 0x8F, one per channel) or a note-on status byte (0x90 to 0x9F) followed by
/// a note number and a velocity, both below 128.
pub open spec fn note_message(bytes: Seq<u8>) -> Option<NoteEvent> {
    if bytes.len() == 3 && bytes[1] < 128 && bytes[2] < 128 {
        if 0x80 <= bytes[0] <= 0x8F {
            Some(NoteEvent::NoteOff { note: bytes[1], velocity: bytes[2] })
        } else if 0x90 <= bytes[0] <= 0x9F {
            Some(NoteEvent::NoteOn { note: bytes[1], velocity: bytes[2] })
        } else {
            None
        }
    } else {
        None
    }
}

/// Whether `bytes` holds a system-exclusive start byte anywhere.
pub open spec fn has_sysex_start(bytes: Seq<u8>) -> bool {
    exists|i: int| 0 <= i < bytes.len() && bytes[i] == 0xF0
}

/// Relies on midi_msg::MidiMsg::from_midi, which parses with no earlier
/// message to continue: a first byte 0x8n or 0x9n is read with the next two
/// bytes as note and velocity, each rejected above 127; a note message is kept
/// as `NoteOn` or `NoteOff` unless the bytes after it extend it to a
/// high-resolution note; a first byte below 0x80 is an error, and no other
/// first byte yields a note message. Its system-exclusive branch can slice
/// past the end of a short payload and panic, so no 0xF0 byte is handed to it.
#[verifier::external_body]
fn parse_note_message(bytes: &[u8]) -> (r: NoteEvent)
    requires
        !has_sysex_start(bytes@),
    ensures
        note_message(bytes@) matches Some(e) ==> r == e,
        r matches NoteEvent::NoteOn { note, velocity } ==> {
            &&& bytes@.len() >= 3
            &&& 0x90 <= bytes@[0] <= 0x9F
            &&& note == bytes@[1] && velocity == bytes@[2]
            &&& note < 128 && velocity < 128
        },
        r matches NoteEvent::NoteOff { note, velocity } ==> {
            &&& bytes@.len() >= 3
            &&& 0x80 <= bytes@[0] <= 0x8F
            &&& note == bytes@[1] && velocity == bytes@[2]
            &&& note < 128 && velocity < 128
        },
{
    match MidiMsg::from_midi(bytes) {
        Ok((MidiMsg::ChannelVoice { msg: ChannelVoiceMsg::NoteOn { note, velocity }, .. }, _)) => {
            NoteEvent::NoteOn { note, velocity }
        },
        Ok((MidiMsg::ChannelVoice { msg: ChannelVoiceMsg::NoteOff { note, velocity }, .. }, _)) => {
            NoteEvent::NoteOff { note, velocity }
        },
        _ => NoteEvent::Other,
    }
}

impl NoteEvent {
    /// Decodes the bytes of one incoming MIDI message. Whatever is not a
    /// well-formed note-on or note-off becomes `Other`, so malformed input is
    /// dropped here and never reaches the engine as an error. Bytes with a
    /// system-exclusive start (0xF0) anywhere are not note messages and are
    /// dropped too.
    pub fn decode(bytes: &[u8]) -> (r: NoteEvent)
        ensures
            r.wf(),
            note_message(bytes@) matches Some(e) ==> r == e,
            bytes@.len() == 3 && note_message(bytes@) is None ==> r == NoteEvent::Other,
            bytes@.len() < 3 ==> r == NoteEvent::Other,
            has_sysex_start(bytes@) ==> r == NoteEvent::Other,
            r matches NoteEvent::NoteOn { note, velocity } ==> {
                &&& 0x90 <= bytes@[0] <= 0x9F
                &&& note == bytes@[1] && velocity == bytes@[2]
            },
            r matches NoteEvent::NoteOff { note, velocity } ==> {
                &&& 0x80 <= bytes@[0] <= 0x8F
                &&& note == bytes@[1] && velocity == bytes@[2]
            },
    {
        let mut i: usize = 0;
        while i < bytes.len()
            invariant
                i <= bytes@.len(),
                forall|j: int| 0 <= j < i ==> bytes@[j] != 0xF0,
            decreases bytes@.len() - i,
        {
            if bytes[i] == 0xF0 {
                return NoteEvent::Other;
            }
            i = i + 1;
        }
        parse_note_message(bytes)
    }
}

} // verus!
