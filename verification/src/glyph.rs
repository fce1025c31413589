//! The glyph codec: which tile face stands for which character.
//!
//! A board tile shows one glyph out of a fixed set: the Latin letters, nine
//! accented Polish letters, the decimal digits, seven punctuation marks and a
//! blank face. Text is encoded character by character. Letters are folded to one
//! glyph per letter regardless of case, and every character without a glyph of
//! its own is shown as the blank face.

use vstd::prelude::*;

verus! {

/// The character that separates tiles in a layout line without standing for one.
pub const TILE_DELIMITER: char = '^';

/// The character that stands for "no payload here", as opposed to a blank tile.
pub const EMPTY_PAYLOAD: char = ' ';

/// The face of a tile.
#[derive(Clone, Copy, Debug, PartialEq, Eq, Structural, Hash)]
pub enum GlyphId {
    /// The blank face, also shown for every character that has no glyph.
    Blank,
    Q,
    W,
    E,
    R,
    T,
    Y,
    U,
    I,
    O,
    P,
    A,
    S,
    D,
    F,
    G,
    H,
    J,
    K,
    L,
    Z,
    X,
    C,
    V,
    B,
    N,
    M,
    /// E with ogonek.
    Epl,
    /// O with acute.
    Opl,
    /// A with ogonek.
    Apl,
    /// S with acute.
    Spl,
    /// L with stroke.
    Lpl,
    /// Z with dot above.
    Zpl,
    /// Z with acute.
    Xpl,
    /// C with acute.
    Cpl,
    /// N with acute.
    Npl,
    Digit0,
    Digit1,
    Digit2,
    Digit3,
    Digit4,
    Digit5,
    Digit6,
    Digit7,
    Digit8,
    Digit9,
    Colon,
    OpenBracket,
    CloseBracket,
    Dash,
    Dot,
    Amp,
    Apostrophe,
}

/// The glyph that shows `c`: the blank face unless `c` is a letter, digit or mark
/// of the glyph set. Both cases of a letter give the same glyph.
pub open spec fn glyph_of(c: char) -> GlyphId {
    match c {
        'Q' | 'q' => GlyphId::Q,
        'W' | 'w' => GlyphId::W,
        'E' | 'e' => GlyphId::E,
        'R' | 'r' => GlyphId::R,
        'T' | 't' => GlyphId::T,
        'Y' | 'y' => GlyphId::Y,
        'U' | 'u' => GlyphId::U,
        'I' | 'i' => GlyphId::I,
        'O' | 'o' => GlyphId::O,
        'P' | 'p' => GlyphId::P,
        'A' | 'a' => GlyphId::A,
        'S' | 's' => GlyphId::S,
        'D' | 'd' => GlyphId::D,
        'F' | 'f' => GlyphId::F,
        'G' | 'g' => GlyphId::G,
        'H' | 'h' => GlyphId::H,
        'J' | 'j' => GlyphId::J,
        'K' | 'k' => GlyphId::K,
        'L' | 'l' => GlyphId::L,
        'Z' | 'z' => GlyphId::Z,
        'X' | 'x' => GlyphId::X,
        'C' | 'c' => GlyphId::C,
        'V' | 'v' => GlyphId::V,
        'B' | 'b' => GlyphId::B,
        'N' | 'n' => GlyphId::N,
        'M' | 'm' => GlyphId::M,
        '\u{118}' | '\u{119}' => GlyphId::Epl,
        '\u{D3}' | '\u{F3}' => GlyphId::Opl,
        '\u{104}' | '\u{105}' => GlyphId::Apl,
        '\u{15A}' | '\u{15B}' => GlyphId::Spl,
        '\u{141}' | '\u{142}' => GlyphId::Lpl,
        '\u{17B}' | '\u{17C}' => GlyphId::Zpl,
        '\u{179}' | '\u{17A}' => GlyphId::Xpl,
        '\u{106}' | '\u{107}' => GlyphId::Cpl,
        '\u{143}' | '\u{144}' => GlyphId::Npl,
        '0' => GlyphId::Digit0,
        '1' => GlyphId::Digit1,
        '2' => GlyphId::Digit2,
        '3' => GlyphId::Digit3,
        '4' => GlyphId::Digit4,
        '5' => GlyphId::Digit5,
        '6' => GlyphId::Digit6,
        '7' => GlyphId::Digit7,
        '8' => GlyphId::Digit8,
        '9' => GlyphId::Digit9,
        ':' => GlyphId::Colon,
        '(' => GlyphId::OpenBracket,
        ')' => GlyphId::CloseBracket,
        '-' => GlyphId::Dash,
        '.' => GlyphId::Dot,
        '&' => GlyphId::Amp,
        '\'' => GlyphId::Apostrophe,
        _ => GlyphId::Blank,
    }
}

/// The character a glyph is written with: the upper-case letter, the digit or the
/// mark itself, and a space for the blank face.
pub open spec fn symbol_of(g: GlyphId) -> char {
    match g {
        GlyphId::Blank => ' ',
        GlyphId::Q => 'Q',
        GlyphId::W => 'W',
        GlyphId::E => 'E',
        GlyphId::R => 'R',
        GlyphId::T => 'T',
        GlyphId::Y => 'Y',
        GlyphId::U => 'U',
        GlyphId::I => 'I',
        GlyphId::O => 'O',
        GlyphId::P => 'P',
        GlyphId::A => 'A',
        GlyphId::S => 'S',
        GlyphId::D => 'D',
        GlyphId::F => 'F',
        GlyphId::G => 'G',
        GlyphId::H => 'H',
        GlyphId::J => 'J',
        GlyphId::K => 'K',
        GlyphId::L => 'L',
        GlyphId::Z => 'Z',
        GlyphId::X => 'X',
        GlyphId::C => 'C',
        GlyphId::V => 'V',
        GlyphId::B => 'B',
        GlyphId::N => 'N',
        GlyphId::M => 'M',
        GlyphId::Epl => '\u{118}',
        GlyphId::Opl => '\u{D3}',
        GlyphId::Apl => '\u{104}',
        GlyphId::Spl => '\u{15A}',
        GlyphId::Lpl => '\u{141}',
        GlyphId::Zpl => '\u{17B}',
        GlyphId::Xpl => '\u{179}',
        GlyphId::Cpl => '\u{106}',
        GlyphId::Npl => '\u{143}',
        GlyphId::Digit0 => '0',
        GlyphId::Digit1 => '1',
        GlyphId::Digit2 => '2',
        GlyphId::Digit3 => '3',
        GlyphId::Digit4 => '4',
        GlyphId::Digit5 => '5',
        GlyphId::Digit6 => '6',
        GlyphId::Digit7 => '7',
        GlyphId::Digit8 => '8',
        GlyphId::Digit9 => '9',
        GlyphId::Colon => ':',
        GlyphId::OpenBracket => '(',
        GlyphId::CloseBracket => ')',
        GlyphId::Dash => '-',
        GlyphId::Dot => '.',
        GlyphId::Amp => '&',
        GlyphId::Apostrophe => '\'',
    }
}

/// The other case of a letter of the glyph set; any other character is its own
/// counterpart.
pub open spec fn case_counterpart(c: char) -> char {
    match c {
        'Q' => 'q',
        'q' => 'Q',
        'W' => 'w',
        'w' => 'W',
        'E' => 'e',
        'e' => 'E',
        'R' => 'r',
        'r' => 'R',
        'T' => 't',
        't' => 'T',
        'Y' => 'y',
        'y' => 'Y',
        'U' => 'u',
        'u' => 'U',
        'I' => 'i',
        'i' => 'I',
        'O' => 'o',
        'o' => 'O',
        'P' => 'p',
        'p' => 'P',
        'A' => 'a',
        'a' => 'A',
        'S' => 's',
        's' => 'S',
        'D' => 'd',
        'd' => 'D',
        'F' => 'f',
        'f' => 'F',
        'G' => 'g',
        'g' => 'G',
        'H' => 'h',
        'h' => 'H',
        'J' => 'j',
        'j' => 'J',
        'K' => 'k',
        'k' => 'K',
        'L' => 'l',
        'l' => 'L',
        'Z' => 'z',
        'z' => 'Z',
        'X' => 'x',
        'x' => 'X',
        'C' => 'c',
        'c' => 'C',
        'V' => 'v',
        'v' => 'V',
        'B' => 'b',
        'b' => 'B',
        'N' => 'n',
        'n' => 'N',
        'M' => 'm',
        'm' => 'M',
        '\u{118}' => '\u{119}',
        '\u{119}' => '\u{118}',
        '\u{D3}' => '\u{F3}',
        '\u{F3}' => '\u{D3}',
        '\u{104}' => '\u{105}',
        '\u{105}' => '\u{104}',
        '\u{15A}' => '\u{15B}',
        '\u{15B}' => '\u{15A}',
        '\u{141}' => '\u{142}',
        '\u{142}' => '\u{141}',
        '\u{17B}' => '\u{17C}',
        '\u{17C}' => '\u{17B}',
        '\u{179}' => '\u{17A}',
        '\u{17A}' => '\u{179}',
        '\u{106}' => '\u{107}',
        '\u{107}' => '\u{106}',
        '\u{143}' => '\u{144}',
        '\u{144}' => '\u{143}',
        _ => c,
    }
}

/// The payload a layout or a text character stands for: nothing at all for the
/// empty-payload character, else the glyph of the character.
pub open spec fn payload_of(c: char) -> Option<GlyphId> {
    if c == EMPTY_PAYLOAD {
        None
    } else {
        Some(glyph_of(c))
    }
}

/// The glyph of a decimal digit; the blank face for a number above nine.
pub open spec fn digit_glyph(d: nat) -> GlyphId {
    if d == 0 {
        GlyphId::Digit0
    } else if d == 1 {
        GlyphId::Digit1
    } else if d == 2 {
        GlyphId::Digit2
    } else if d == 3 {
        GlyphId::Digit3
    } else if d == 4 {
        GlyphId::Digit4
    } else if d == 5 {
        GlyphId::Digit5
    } else if d == 6 {
        GlyphId::Digit6
    } else if d == 7 {
        GlyphId::Digit7
    } else if d == 8 {
        GlyphId::Digit8
    } else if d == 9 {
        GlyphId::Digit9
    } else {
        GlyphId::Blank
    }
}

impl GlyphId {
    /// Encodes one character. Never fails: a character outside the glyph set is
    /// shown as the blank face.
    pub fn from_char(c: char) -> (g: GlyphId)
        ensures
            g == glyph_of(c),
    {
        match c {
            'Q' | 'q' => GlyphId::Q,
            'W' | 'w' => GlyphId::W,
            'E' | 'e' => GlyphId::E,
            'R' | 'r' => GlyphId::R,
            'T' | 't' => GlyphId::T,
            'Y' | 'y' => GlyphId::Y,
            'U' | 'u' => GlyphId::U,
            'I' | 'i' => GlyphId::I,
            'O' | 'o' => GlyphId::O,
            'P' | 'p' => GlyphId::P,
            'A' | 'a' => GlyphId::A,
            'S' | 's' => GlyphId::S,
            'D' | 'd' => GlyphId::D,
            'F' | 'f' => GlyphId::F,
            'G' | 'g' => GlyphId::G,
            'H' | 'h' => GlyphId::H,
            'J' | 'j' => GlyphId::J,
            'K' | 'k' => GlyphId::K,
            'L' | 'l' => GlyphId::L,
            'Z' | 'z' => GlyphId::Z,
            'X' | 'x' => GlyphId::X,
            'C' | 'c' => GlyphId::C,
            'V' | 'v' => GlyphId::V,
            'B' | 'b' => GlyphId::B,
            'N' | 'n' => GlyphId::N,
            'M' | 'm' => GlyphId::M,
            '\u{118}' | '\u{119}' => GlyphId::Epl,
            '\u{D3}' | '\u{F3}' => GlyphId::Opl,
            '\u{104}' | '\u{105}' => GlyphId::Apl,
            '\u{15A}' | '\u{15B}' => GlyphId::Spl,
            '\u{141}' | '\u{142}' => GlyphId::Lpl,
            '\u{17B}' | '\u{17C}' => GlyphId::Zpl,
            '\u{179}' | '\u{17A}' => GlyphId::Xpl,
            '\u{106}' | '\u{107}' => GlyphId::Cpl,
            '\u{143}' | '\u{144}' => GlyphId::Npl,
            '0' => GlyphId::Digit0,
            '1' => GlyphId::Digit1,
            '2' => GlyphId::Digit2,
            '3' => GlyphId::Digit3,
            '4' => GlyphId::Digit4,
            '5' => GlyphId::Digit5,
            '6' => GlyphId::Digit6,
            '7' => GlyphId::Digit7,
            '8' => GlyphId::Digit8,
            '9' => GlyphId::Digit9,
            ':' => GlyphId::Colon,
            '(' => GlyphId::OpenBracket,
            ')' => GlyphId::CloseBracket,
            '-' => GlyphId::Dash,
            '.' => GlyphId::Dot,
            '&' => GlyphId::Amp,
            '\'' => GlyphId::Apostrophe,
            _ => GlyphId::Blank,
        }
    }

    /// Decodes a glyph into the character it is written with. Encoding that
    /// character gives the glyph back.
    pub fn to_char(self) -> (c: char)
        ensures
            c == symbol_of(self),
            glyph_of(c) == self,
    {
        match self {
            GlyphId::Blank => ' ',
            GlyphId::Q => 'Q',
            GlyphId::W => 'W',
            GlyphId::E => 'E',
            GlyphId::R => 'R',
            GlyphId::T => 'T',
            GlyphId::Y => 'Y',
            GlyphId::U => 'U',
            GlyphId::I => 'I',
            GlyphId::O => 'O',
            GlyphId::P => 'P',
            GlyphId::A => 'A',
            GlyphId::S => 'S',
            GlyphId::D => 'D',
            GlyphId::F => 'F',
            GlyphId::G => 'G',
            GlyphId::H => 'H',
            GlyphId::J => 'J',
            GlyphId::K => 'K',
            GlyphId::L => 'L',
            GlyphId::Z => 'Z',
            GlyphId::X => 'X',
            GlyphId::C => 'C',
            GlyphId::V => 'V',
            GlyphId::B => 'B',
            GlyphId::N => 'N',
            GlyphId::M => 'M',
            GlyphId::Epl => '\u{118}',
            GlyphId::Opl => '\u{D3}',
            GlyphId::Apl => '\u{104}',
            GlyphId::Spl => '\u{15A}',
            GlyphId::Lpl => '\u{141}',
            GlyphId::Zpl => '\u{17B}',
            GlyphId::Xpl => '\u{179}',
            GlyphId::Cpl => '\u{106}',
            GlyphId::Npl => '\u{143}',
            GlyphId::Digit0 => '0',
            GlyphId::Digit1 => '1',
            GlyphId::Digit2 => '2',
            GlyphId::Digit3 => '3',
            GlyphId::Digit4 => '4',
            GlyphId::Digit5 => '5',
            GlyphId::Digit6 => '6',
            GlyphId::Digit7 => '7',
            GlyphId::Digit8 => '8',
            GlyphId::Digit9 => '9',
            GlyphId::Colon => ':',
            GlyphId::OpenBracket => '(',
            GlyphId::CloseBracket => ')',
            GlyphId::Dash => '-',
            GlyphId::Dot => '.',
            GlyphId::Amp => '&',
            GlyphId::Apostrophe => '\'',
        }
    }

    /// The glyph of the decimal digit `d`.
    pub fn from_digit(d: u32) -> (g: GlyphId)
        requires
            d < 10,
        ensures
            g == digit_glyph(d as nat),
    {
        match d {
            0 => GlyphId::Digit0,
            1 => GlyphId::Digit1,
            2 => GlyphId::Digit2,
            3 => GlyphId::Digit3,
            4 => GlyphId::Digit4,
            5 => GlyphId::Digit5,
            6 => GlyphId::Digit6,
            7 => GlyphId::Digit7,
            8 => GlyphId::Digit8,
            _ => GlyphId::Digit9,
        }
    }
}

/// Tells whether `c` is the visual separator of a layout line.
pub fn is_tile_delimiter(c: char) -> (b: bool)
    ensures
        b == (c == TILE_DELIMITER),
{
    c == TILE_DELIMITER
}

/// Tells whether `c` is the character that stands for an absent payload.
pub fn is_empty_payload(c: char) -> (b: bool)
    ensures
        b == (c == EMPTY_PAYLOAD),
{
    c == EMPTY_PAYLOAD
}

/// Encodes one character as a payload: none for the empty-payload character, else
/// the glyph of the character.
pub fn char_to_payload(c: char) -> (p: Option<GlyphId>)
    ensures
        p == payload_of(c),
{
    if is_empty_payload(c) {
        None
    } else {
        Some(GlyphId::from_char(c))
    }
}

/// Every glyph is the glyph of the character it is written with, so no two
/// glyphs share that character.
pub proof fn lemma_symbol_round_trip(g: GlyphId)
    ensures
        glyph_of(symbol_of(g)) == g,
{
}

/// The encoding ignores the case of letters.
pub proof fn lemma_case_insensitive(c: char)
    ensures
        glyph_of(case_counterpart(c)) == glyph_of(c),
{
}

/// A character is shown as the blank face exactly when no glyph is written with
/// it in either case (the space included, which writes the blank face itself).
pub proof fn lemma_blank_is_fallback(c: char)
    ensures
        glyph_of(c) == GlyphId::Blank <==> (forall|g: GlyphId|
            g != GlyphId::Blank ==> #[trigger] symbol_of(g) != c && symbol_of(g) != case_counterpart(c)),
{
    if glyph_of(c) != GlyphId::Blank {
        let g = glyph_of(c);
        assert(symbol_of(g) == c || symbol_of(g) == case_counterpart(c));
    }
}

} // verus!
