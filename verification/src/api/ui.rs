//! Text and rectangles on the game's screen: palettes, colors, and the arguments of the
//! game's rendering functions.
use vstd::prelude::*;
use vstd::std_specs::convert::FromSpecImpl;
use vstd::string::*;

use crate::text::{concat, push_char};

verus! {

/// Palette for text.
///
/// Each item represents one palette.
/// A palette gives a text a specific color.
/// This enum also provides the item [`TextPalette::Unknown`] that allows you to specify
/// any palette you want. Invalid palettes will lead to invisible text.
///
/// Based on internal game logic, a palette is identified with a number.
#[derive(Debug, Clone, Copy, PartialEq, Eq, Structural)]
pub enum TextPalette {
    Black,
    LightGreen,
    LightRed,
    LightBlue,
    Gray,
    Red,
    Green,
    Blue,
    White,
    Yellow,
    Pink,
    SkyBlue,
    Amber,
    Purple,
    Seal,
    DarkGray,
    Unknown(u32),
}

/// The named palettes, in the order in which they are offered to plugins.
pub fn text_palettes() -> (r: [TextPalette; 16])
    ensures
        r@ == seq![
            TextPalette::Black, TextPalette::LightGreen, TextPalette::LightRed, TextPalette::LightBlue,
            TextPalette::Gray, TextPalette::Red, TextPalette::Green, TextPalette::Blue,
            TextPalette::White, TextPalette::Yellow, TextPalette::Pink, TextPalette::SkyBlue,
            TextPalette::Amber, TextPalette::Purple, TextPalette::Seal, TextPalette::DarkGray,
        ],
{
    [
        TextPalette::Black,
        TextPalette::LightGreen,
        TextPalette::LightRed,
        TextPalette::LightBlue,
        TextPalette::Gray,
        TextPalette::Red,
        TextPalette::Green,
        TextPalette::Blue,
        TextPalette::White,
        TextPalette::Yellow,
        TextPalette::Pink,
        TextPalette::SkyBlue,
        TextPalette::Amber,
        TextPalette::Purple,
        TextPalette::Seal,
        TextPalette::DarkGray,
    ]
}

/// The number by which the game identifies `palette`.
pub open spec fn palette_number(palette: TextPalette) -> u32 {
    match palette {
        TextPalette::Black => 0,
        TextPalette::LightGreen => 1,
        TextPalette::LightRed => 2,
        TextPalette::LightBlue => 3,
        TextPalette::Gray => 4,
        TextPalette::Red => 5,
        TextPalette::Green => 6,
        TextPalette::Blue => 7,
        TextPalette::White => 8,
        TextPalette::Yellow => 9,
        TextPalette::Pink => 10,
        TextPalette::SkyBlue => 11,
        TextPalette::Amber => 12,
        TextPalette::Purple => 13,
        TextPalette::Seal => 14,
        TextPalette::DarkGray => 15,
        TextPalette::Unknown(x) => x,
    }
}

/// The palette the game identifies with `value`.
pub open spec fn palette_of(value: u32) -> TextPalette {
    if value == 0 {
        TextPalette::Black
    } else if value == 1 {
        TextPalette::LightGreen
    } else if value == 2 {
        TextPalette::LightRed
    } else if value == 3 {
        TextPalette::LightBlue
    } else if value == 4 {
        TextPalette::Gray
    } else if value == 5 {
        TextPalette::Red
    } else if value == 6 {
        TextPalette::Green
    } else if value == 7 {
        TextPalette::Blue
    } else if value == 8 {
        TextPalette::White
    } else if value == 9 {
        TextPalette::Yellow
    } else if value == 10 {
        TextPalette::Pink
    } else if value == 11 {
        TextPalette::SkyBlue
    } else if value == 12 {
        TextPalette::Amber
    } else if value == 13 {
        TextPalette::Purple
    } else if value == 14 {
        TextPalette::Seal
    } else if value == 15 {
        TextPalette::DarkGray
    } else {
        TextPalette::Unknown(value)
    }
}

impl From<TextPalette> for u32 {
    fn from(palette: TextPalette) -> (r: u32) {
        match palette {
            TextPalette::Black => 0,
            TextPalette::LightGreen => 1,
            TextPalette::LightRed => 2,
            TextPalette::LightBlue => 3,
            TextPalette::Gray => 4,
            TextPalette::Red => 5,
            TextPalette::Green => 6,
            TextPalette::Blue => 7,
            TextPalette::White => 8,
            TextPalette::Yellow => 9,
            TextPalette::Pink => 10,
            TextPalette::SkyBlue => 11,
            TextPalette::Amber => 12,
            TextPalette::Purple => 13,
            TextPalette::Seal => 14,
            TextPalette::DarkGray => 15,
            TextPalette::Unknown(x) => x,
        }
    }
}

impl FromSpecImpl<TextPalette> for u32 {
    open spec fn obeys_from_spec() -> bool {
        true
    }

    open spec fn from_spec(palette: TextPalette) -> u32 {
        palette_number(palette)
    }
}

impl From<u32> for TextPalette {
    fn from(value: u32) -> (r: TextPalette) {
        match value {
            0 => TextPalette::Black,
            1 => TextPalette::LightGreen,
            2 => TextPalette::LightRed,
            3 => TextPalette::LightBlue,
            4 => TextPalette::Gray,
            5 => TextPalette::Red,
            6 => TextPalette::Green,
            7 => TextPalette::Blue,
            8 => TextPalette::White,
            9 => TextPalette::Yellow,
            10 => TextPalette::Pink,
            11 => TextPalette::SkyBlue,
            12 => TextPalette::Amber,
            13 => TextPalette::Purple,
            14 => TextPalette::Seal,
            15 => TextPalette::DarkGray,
            x => TextPalette::Unknown(x),
        }
    }
}

impl FromSpecImpl<u32> for TextPalette {
    open spec fn obeys_from_spec() -> bool {
        true
    }

    open spec fn from_spec(value: u32) -> TextPalette {
        palette_of(value)
    }
}

/// The characters of the decimal notation of `n`.
pub open spec fn decimal(n: nat) -> Seq<char>
    decreases n,
{
    if n < 10 {
        seq![digit_char(n)]
    } else {
        decimal(n / 10) + seq![digit_char(n % 10)]
    }
}

/// The character of the decimal digit `d`.
pub open spec fn digit_char(d: nat) -> char {
    ((48 + d) as u8) as char
}

/// Appends the decimal notation of `n` to `s`.
pub fn push_decimal(s: &mut String, n: u32)
    ensures
        final(s)@ == old(s)@ + decimal(n as nat),
    decreases n,
{
    if n >= 10 {
        push_decimal(s, n / 10);
    }
    let d = (n % 10) as u8;
    push_char(s, (48u8 + d) as char);
    assert(n < 10 ==> decimal(n as nat) == seq![digit_char(n as nat)]);
}

/// The name of a palette, as a plugin sees it.
pub open spec fn palette_name(palette: TextPalette) -> Seq<char> {
    match palette {
        TextPalette::Black => "Black"@,
        TextPalette::LightGreen => "LightGreen"@,
        TextPalette::LightRed => "LightRed"@,
        TextPalette::LightBlue => "LightBlue"@,
        TextPalette::Gray => "Gray"@,
        TextPalette::Red => "Red"@,
        TextPalette::Green => "Green"@,
        TextPalette::Blue => "Blue"@,
        TextPalette::White => "White"@,
        TextPalette::Yellow => "Yellow"@,
        TextPalette::Pink => "Pink"@,
        TextPalette::SkyBlue => "SkyBlue"@,
        TextPalette::Amber => "Amber"@,
        TextPalette::Purple => "Purple"@,
        TextPalette::Seal => "Seal"@,
        TextPalette::DarkGray => "DarkGray"@,
        TextPalette::Unknown(x) => "Unknown("@ + decimal(x as nat) + ")"@,
    }
}

impl TextPalette {
    /// The name of the palette, as a plugin sees it.
    pub fn name(&self) -> (r: String)
        ensures
            r@ == palette_name(*self),
    {
        match self {
            TextPalette::Black => String::from_str("Black"),
            TextPalette::LightGreen => String::from_str("LightGreen"),
            TextPalette::LightRed => String::from_str("LightRed"),
            TextPalette::LightBlue => String::from_str("LightBlue"),
            TextPalette::Gray => String::from_str("Gray"),
            TextPalette::Red => String::from_str("Red"),
            TextPalette::Green => String::from_str("Green"),
            TextPalette::Blue => String::from_str("Blue"),
            TextPalette::White => String::from_str("White"),
            TextPalette::Yellow => String::from_str("Yellow"),
            TextPalette::Pink => String::from_str("Pink"),
            TextPalette::SkyBlue => String::from_str("SkyBlue"),
            TextPalette::Amber => String::from_str("Amber"),
            TextPalette::Purple => String::from_str("Purple"),
            TextPalette::Seal => String::from_str("Seal"),
            TextPalette::DarkGray => String::from_str("DarkGray"),
            TextPalette::Unknown(x) => {
                let mut s = String::from_str("Unknown(");
                push_decimal(&mut s, *x);
                s.append(")");
                s
            },
        }
    }
}

/// The global under which a plugin finds the number of `palette`.
pub open spec fn palette_global(palette: TextPalette) -> Seq<char> {
    "Palette"@ + palette_name(palette)
}

/// The global under which a plugin finds the number of `palette`.
pub fn palette_global_name(palette: TextPalette) -> (r: String)
    ensures
        r@ == palette_global(palette),
{
    let name = palette.name();
    concat("Palette", name.as_str())
}

/// A color with 8-bit channels.
#[derive(Debug, Clone, Copy, PartialEq, Eq, Structural)]
pub struct Color {
    pub red: u8,
    pub green: u8,
    pub blue: u8,
}

/// The game's 15-bit encoding of `color`: 5 bits each of red, green and blue, red highest;
/// each channel keeps only its low 5 bits.
pub open spec fn color_value(color: Color) -> u32 {
    ((color.red % 32) * 1024 + (color.green % 32) * 32 + color.blue % 32) as u32
}

impl From<Color> for u32 {
    fn from(color: Color) -> (r: u32) {
        // Restrict all color values to 5 bit
        let capped_r: u32 = color.red as u32 & 0x1f;
        let capped_g: u32 = color.green as u32 & 0x1f;
        let capped_b: u32 = color.blue as u32 & 0x1f;
        let r = (capped_r << 10) | (capped_g << 5) | capped_b;
        proof {
            let red = color.red as u32;
            let green = color.green as u32;
            let blue = color.blue as u32;
            assert(((red & 0x1f) << 10) | ((green & 0x1f) << 5) | (blue & 0x1f) == (red % 32) * 1024
                + (green % 32) * 32 + blue % 32) by (bit_vector)
                requires
                    red < 256,
                    green < 256,
                    blue < 256,
            ;
        }
        r
    }
}

impl FromSpecImpl<Color> for u32 {
    open spec fn obeys_from_spec() -> bool {
        true
    }

    open spec fn from_spec(color: Color) -> u32 {
        color_value(color)
    }
}

/// The arguments of the game's function that renders text.
pub struct RenderTextCall {
    /// The text's bytes, followed by a zero byte.
    pub text: Vec<u8>,
    pub pos_x: u32,
    pub pos_y: u32,
    pub palette: u32,
}

/// Render text at a position with a specific palette: the arguments of the game's text
/// rendering function for `text` at `pos_x`, `pos_y` in `palette`.
///
/// The position is absolute. The palette mainly determines the text's color.
///
/// **Important: Only use characters that are supported by the game's font texture.**
pub fn render_text(pos_x: u32, pos_y: u32, palette: TextPalette, text: &str) -> (r: RenderTextCall)
    ensures
        r.text@ == text.spec_bytes().push(0u8),
        r.pos_x == pos_x,
        r.pos_y == pos_y,
        r.palette == palette_number(palette),
{
    let mut characters = text.as_bytes_vec();
    characters.push(0u8);
    RenderTextCall { text: characters, pos_x, pos_y, palette: u32::from(palette) }
}

/// The arguments of the game's function that renders a rectangle.
pub struct RenderRectangleCall {
    pub color: u32,
    pub pos_x: u16,
    pub pos_y: u16,
    pub width: u16,
    pub height: u16,
    /// `0x3d` for a semi-transparent rectangle, `0x35` for an opaque one.
    pub mode: u8,
}

/// The arguments of the game's rectangle rendering function for a rectangle of `color`.
pub fn render_rectangle(color: Color, pos_x: u16, pos_y: u16, width: u16, height: u16, semi_transparent: bool) -> (r: RenderRectangleCall)
    ensures
        r.color == color_value(color),
        r.pos_x == pos_x,
        r.pos_y == pos_y,
        r.width == width,
        r.height == height,
        r.mode == if semi_transparent { 0x3du8 } else { 0x35u8 },
{
    let converted_color: u32 = u32::from(color);
    let converted_semi_transparent = match semi_transparent {
        true => 0x3du8,
        false => 0x35u8,
    };
    RenderRectangleCall { color: converted_color, pos_x, pos_y, width, height, mode: converted_semi_transparent }
}

/// Each palette has one number: converting a palette to its number and back gives the
/// palette again. (An unknown palette whose number is that of a named one comes back as
/// the named palette.)
pub proof fn lemma_palette_number_round_trip(palette: TextPalette)
    requires
        palette matches TextPalette::Unknown(x) ==> x >= 16,
    ensures
        palette_of(palette_number(palette)) == palette,
{
}

/// Each named palette has the game's fixed number, and each of those numbers names that
/// palette: Black 0, LightGreen 1, LightRed 2, LightBlue 3, Gray 4, Red 5, Green 6, Blue 7,
/// White 8, Yellow 9, Pink 10, SkyBlue 11, Amber 12, Purple 13, Seal 14, DarkGray 15; any
/// other number is an unknown palette of that number.
pub proof fn lemma_palette_numbers_of_the_game(value: u32)
    ensures
        palette_number(TextPalette::Black) == 0,
        palette_number(TextPalette::LightGreen) == 1,
        palette_number(TextPalette::LightRed) == 2,
        palette_number(TextPalette::LightBlue) == 3,
        palette_number(TextPalette::Gray) == 4,
        palette_number(TextPalette::Red) == 5,
        palette_number(TextPalette::Green) == 6,
        palette_number(TextPalette::Blue) == 7,
        palette_number(TextPalette::White) == 8,
        palette_number(TextPalette::Yellow) == 9,
        palette_number(TextPalette::Pink) == 10,
        palette_number(TextPalette::SkyBlue) == 11,
        palette_number(TextPalette::Amber) == 12,
        palette_number(TextPalette::Purple) == 13,
        palette_number(TextPalette::Seal) == 14,
        palette_number(TextPalette::DarkGray) == 15,
        palette_of(0) == TextPalette::Black,
        palette_of(1) == TextPalette::LightGreen,
        palette_of(2) == TextPalette::LightRed,
        palette_of(3) == TextPalette::LightBlue,
        palette_of(4) == TextPalette::Gray,
        palette_of(5) == TextPalette::Red,
        palette_of(6) == TextPalette::Green,
        palette_of(7) == TextPalette::Blue,
        palette_of(8) == TextPalette::White,
        palette_of(9) == TextPalette::Yellow,
        palette_of(10) == TextPalette::Pink,
        palette_of(11) == TextPalette::SkyBlue,
        palette_of(12) == TextPalette::Amber,
        palette_of(13) == TextPalette::Purple,
        palette_of(14) == TextPalette::Seal,
        palette_of(15) == TextPalette::DarkGray,
        value >= 16 ==> palette_of(value) == TextPalette::Unknown(value),
{
}

/// Converting a number to its palette and back gives the number again.
pub proof fn lemma_number_palette_round_trip(value: u32)
    ensures
        palette_number(palette_of(value)) == value,
{
}

/// The 15-bit color keeps the low 5 bits of each channel, and nothing else.
#[verifier::spinoff_prover]
#[verifier::rlimit(40)]
pub proof fn lemma_color_value_channels(color: Color)
    ensures
        color_value(color) < 32768,
        color_value(color) / 1024 == color.red % 32,
        (color_value(color) / 32) % 32 == color.green % 32,
        color_value(color) % 32 == color.blue % 32,
{
}

} // verus!
