use hacksynth::frame::fill_frame;
use hacksynth::midi::NoteEvent;
use hacksynth::styling::{
    hex_to_color, EffectsContainer, FiltersContainer, GroupContainer, OscillatorsContainer, Rgb,
};

#[test]
fn decode_note_on_and_off() {
    assert_eq!(NoteEvent::decode(&[0x90, 60, 100]), NoteEvent::NoteOn { note: 60, velocity: 100 });
    assert_eq!(NoteEvent::decode(&[0x9F, 1, 2]), NoteEvent::NoteOn { note: 1, velocity: 2 });
    assert_eq!(NoteEvent::decode(&[0x80, 60, 0]), NoteEvent::NoteOff { note: 60, velocity: 0 });
    assert_eq!(NoteEvent::decode(&[0x83, 127, 127]), NoteEvent::NoteOff { note: 127, velocity: 127 });
}

#[test]
fn decode_drops_other_and_malformed_messages() {
    assert_eq!(NoteEvent::decode(&[]), NoteEvent::Other);
    assert_eq!(NoteEvent::decode(&[0x90, 60]), NoteEvent::Other);
    assert_eq!(NoteEvent::decode(&[0x90, 200, 1]), NoteEvent::Other);
    assert_eq!(NoteEvent::decode(&[0x90, 60, 128]), NoteEvent::Other);
    assert_eq!(NoteEvent::decode(&[0xB0, 7, 100]), NoteEvent::Other);
    assert_eq!(NoteEvent::decode(&[0xE0, 0, 64]), NoteEvent::Other);
    assert_eq!(NoteEvent::decode(&[60, 100, 0]), NoteEvent::Other);
    assert_eq!(NoteEvent::decode(&[0xF8]), NoteEvent::Other);
}

#[test]
fn frame_alternates_left_and_right() {
    let mut stereo = [0i16; 2];
    fill_frame(&mut stereo, 5, -7);
    assert_eq!(stereo, [5, -7]);
    let mut quad = [0u16; 5];
    fill_frame(&mut quad, 1, 2);
    assert_eq!(quad, [1, 2, 1, 2, 1]);
    let mut mono = [0.0f32; 1];
    fill_frame(&mut mono, 0.25, 0.5);
    assert_eq!(mono, [0.25]);
    let mut empty: [u8; 0] = [];
    fill_frame(&mut empty, 1, 2);
}

#[test]
fn equal_sides_fill_every_channel_alike() {
    let mut frame = [0.0f32; 2];
    fill_frame(&mut frame, 0.5, 0.5);
    assert_eq!(frame[0], frame[1]);
}

#[test]
fn hex_colours() {
    assert_eq!(hex_to_color("#333333"), Some(Rgb { r: 0x33, g: 0x33, b: 0x33 }));
    assert_eq!(hex_to_color("#b1B2b3"), Some(Rgb { r: 0xb1, g: 0xb2, b: 0xb3 }));
    assert_eq!(hex_to_color("#ff0080"), Some(Rgb { r: 255, g: 0, b: 128 }));
    assert_eq!(hex_to_color("#+f+f+f"), Some(Rgb { r: 15, g: 15, b: 15 }));
}

#[test]
fn hex_colours_rejected() {
    assert_eq!(hex_to_color("333333"), None);
    assert_eq!(hex_to_color("#33333"), None);
    assert_eq!(hex_to_color("#3333333"), None);
    assert_eq!(hex_to_color("#gg0000"), None);
    assert_eq!(hex_to_color("#-10000"), None);
    assert_eq!(hex_to_color("#f+0000"), None);
    assert_eq!(hex_to_color("*333333"), None);
    assert_eq!(hex_to_color("#\u{e9}1234"), None);
}

#[test]
fn panel_styles() {
    let s = OscillatorsContainer.style();
    assert_eq!(s.background, Some(Rgb { r: 0x33, g: 0x33, b: 0x33 }));
    assert_eq!(s.text_color, None);
    assert_eq!(FiltersContainer.style().background, Some(Rgb { r: 0x72, g: 0x72, b: 0x72 }));
    assert_eq!(EffectsContainer.style().background, Some(Rgb { r: 0xb1, g: 0xb2, b: 0xb3 }));
    let g = GroupContainer.style();
    assert_eq!(g.text_color, Some(Rgb { r: 0, g: 0, b: 0 }));
    assert_eq!(g.background, Some(Rgb { r: 0xc1, g: 0xc1, b: 0xc1 }));
}

#[test]
fn decode_drops_system_exclusive_bytes() {
    assert_eq!(NoteEvent::decode(&[0xF0, 0x7E, 0xF7]), NoteEvent::Other);
    assert_eq!(NoteEvent::decode(&[0xF0, 0x7F, 0xF7]), NoteEvent::Other);
    assert_eq!(NoteEvent::decode(&[0x90, 60, 100, 0xF0, 0x7E, 0xF7]), NoteEvent::Other);
}

#[test]
fn decode_reads_the_first_of_several_messages() {
    assert_eq!(
        NoteEvent::decode(&[0x90, 60, 100, 0x80, 60, 0]),
        NoteEvent::NoteOn { note: 60, velocity: 100 }
    );
    // a high-resolution velocity prefix turns the note into another kind of message
    assert_eq!(NoteEvent::decode(&[0x90, 60, 100, 0xB0, 0x58, 5]), NoteEvent::Other);
}
