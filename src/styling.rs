use vstd::prelude::*;
use vstd::string::StringSliceAdditionalSpecFns;
use vstd::utf8::is_ascii_chars_encode_utf8;

verus! {

/// An opaque colour, one byte per channel.
#[derive(Debug, Clone, Copy, PartialEq, Eq, Structural)]
pub struct Rgb {
    pub r: u8,
    pub g: u8,
    pub b: u8,
}

/// Value of one ASCII hexadecimal digit, either case.
pub open spec fn hex_digit(c: u8) -> Option<u8> {
    if 0x30 <= c <= 0x39 {
        Some((c - 0x30) as u8)
    } else if 0x61 <= c <= 0x66 {
        Some((c - 0x61 + 10) as u8)
    } else if 0x41 <= c <= 0x46 {
        Some((c - 0x41 + 10) as u8)
    } else {
        None
    }
}

/// A two-character field read as an unsigned base-16 number, which may carry
/// a leading plus sign: two digits, or `+` and one digit.
pub open spec fn hex_field(hi: u8, lo: u8) -> Option<u8> {
    match hex_digit(lo) {
        Some(l) => match hex_digit(hi) {
            Some(h) => Some((16 * h + l) as u8),
            None => if hi == 0x2B {
                Some(l)
            } else {
                None
            },
        },
        None => None,
    }
}

/// The colour that `#rrggbb` spells, given as UTF-8 bytes.
pub open spec fn parse_hex_color(s: Seq<u8>) -> Option<Rgb> {
    if s.len() == 7 && s[0] == 0x23 {
        match (hex_field(s[1], s[2]), hex_field(s[3], s[4]), hex_field(s[5], s[6])) {
            (Some(r), Some(g), Some(b)) => Some(Rgb { r, g, b }),
            _ => None,
        }
    } else {
        None
    }
}

fn digit_value(c: u8) -> (r: Option<u8>)
    ensures
        r == hex_digit(c),
{
    if 0x30 <= c && c <= 0x39 {
        Some(c - 0x30)
    } else if 0x61 <= c && c <= 0x66 {
        Some(c - 0x61 + 10)
    } else if 0x41 <= c && c <= 0x46 {
        Some(c - 0x41 + 10)
    } else {
        None
    }
}

fn field_value(hi: u8, lo: u8) -> (r: Option<u8>)
    ensures
        r == hex_field(hi, lo),
{
    match digit_value(lo) {
        Some(l) => match digit_value(hi) {
            Some(h) => Some(16 * h + l),
            None => if hi == 0x2B {
                Some(l)
            } else {
                None
            },
        },
        None => None,
    }
}

/// Reads a colour written `#rrggbb`; anything else gives `None`.
pub fn hex_to_color(hex: &str) -> (r: Option<Rgb>)
    ensures
        r == parse_hex_color(hex.spec_bytes()),
{
    let s = hex.as_bytes();
    if s.len() != 7 || s[0] != 0x23 {
        return None;
    }
    match (field_value(s[1], s[2]), field_value(s[3], s[4]), field_value(s[5], s[6])) {
        (Some(r), Some(g), Some(b)) => Some(Rgb { r, g, b }),
        _ => None,
    }
}

/// Colours of one panel of the control surface.
#[derive(Debug, Clone, Copy, PartialEq, Eq)]
pub struct ContainerStyle {
    pub text_color: Option<Rgb>,
    pub background: Option<Rgb>,
}

/// The panel that holds the oscillator controls.
pub struct OscillatorsContainer;

impl OscillatorsContainer {
    pub fn style(&self) -> (s: ContainerStyle)
        ensures
            s.text_color is None,
            s.background == Some(Rgb { r: 0x33, g: 0x33, b: 0x33 }),
    {
        let bg = "#333333";
        proof {
            reveal_strlit("#333333");
            is_ascii_chars_encode_utf8(bg@);
        }
        ContainerStyle { text_color: None, background: hex_to_color(bg) }
    }
}

/// The panel that holds the filter controls.
pub struct FiltersContainer;

impl FiltersContainer {
    pub fn style(&self) -> (s: ContainerStyle)
        ensures
            s.text_color is None,
            s.background == Some(Rgb { r: 0x72, g: 0x72, b: 0x72 }),
    {
        let bg = "#727272";
        proof {
            reveal_strlit("#727272");
            is_ascii_chars_encode_utf8(bg@);
        }
        ContainerStyle { text_color: None, background: hex_to_color(bg) }
    }
}

/// The panel reserved for effect controls.
pub struct EffectsContainer;

impl EffectsContainer {
    pub fn style(&self) -> (s: ContainerStyle)
        ensures
            s.text_color is None,
            s.background == Some(Rgb { r: 0xb1, g: 0xb2, b: 0xb3 }),
    {
        let bg = "#b1b2b3";
        proof {
            reveal_strlit("#b1b2b3");
            is_ascii_chars_encode_utf8(bg@);
        }
        ContainerStyle { text_color: None, background: hex_to_color(bg) }
    }
}

/// A group of related controls inside a panel.
pub struct GroupContainer;

impl GroupContainer {
    pub fn style(&self) -> (s: ContainerStyle)
        ensures
            s.text_color == Some(Rgb { r: 0x00, g: 0x00, b: 0x00 }),
            s.background == Some(Rgb { r: 0xc1, g: 0xc1, b: 0xc1 }),
    {
        let bg = "#c1c1c1";
        let text = "#000000";
        proof {
            reveal_strlit("#c1c1c1");
            is_ascii_chars_encode_utf8(bg@);
            reveal_strlit("#000000");
            is_ascii_chars_encode_utf8(text@);
        }
        ContainerStyle { text_color: hex_to_color(text), background: hex_to_color(bg) }
    }
}

} // verus!
