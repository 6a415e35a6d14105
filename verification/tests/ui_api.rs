use futurecop_mod::api::ui::{
    palette_global_name, push_decimal, render_rectangle, render_text, text_palettes, Color, TextPalette,
};

#[test]
fn palette_numbers_follow_the_game() {
    assert_eq!(u32::from(TextPalette::Black), 0);
    assert_eq!(u32::from(TextPalette::LightGreen), 1);
    assert_eq!(u32::from(TextPalette::LightRed), 2);
    assert_eq!(u32::from(TextPalette::LightBlue), 3);
    assert_eq!(u32::from(TextPalette::DarkGray), 15);
    assert_eq!(u32::from(TextPalette::Unknown(42)), 42);
}

#[test]
fn numbers_name_palettes() {
    assert_eq!(TextPalette::from(0u32), TextPalette::Black);
    assert_eq!(TextPalette::from(1u32), TextPalette::LightGreen);
    assert_eq!(TextPalette::from(2u32), TextPalette::LightRed);
    assert_eq!(TextPalette::from(9u32), TextPalette::Yellow);
    assert_eq!(TextPalette::from(15u32), TextPalette::DarkGray);
    assert_eq!(TextPalette::from(16u32), TextPalette::Unknown(16));
}

#[test]
fn palette_round_trip() {
    for palette in text_palettes() {
        assert_eq!(TextPalette::from(u32::from(palette)), palette);
    }
    for value in [0u32, 1, 2, 3, 7, 15, 16, 1000, u32::MAX] {
        assert_eq!(u32::from(TextPalette::from(value)), value);
    }
}

#[test]
fn each_palette_has_one_number() {
    assert_eq!(TextPalette::from(u32::from(TextPalette::LightGreen)), TextPalette::LightGreen);
    assert_eq!(TextPalette::from(u32::from(TextPalette::LightRed)), TextPalette::LightRed);
}

#[test]
fn palettes_are_offered_in_order() {
    let palettes = text_palettes();
    assert_eq!(palettes.len(), 16);
    assert_eq!(palettes[0], TextPalette::Black);
    assert_eq!(palettes[1], TextPalette::LightGreen);
    assert_eq!(palettes[15], TextPalette::DarkGray);
}

#[test]
fn palette_names() {
    assert_eq!(TextPalette::SkyBlue.name(), "SkyBlue");
    assert_eq!(TextPalette::Unknown(123).name(), "Unknown(123)");
    assert_eq!(TextPalette::Unknown(0).name(), "Unknown(0)");
    assert_eq!(palette_global_name(TextPalette::Red), "PaletteRed");
    assert_eq!(palette_global_name(TextPalette::Unknown(7)), "PaletteUnknown(7)");
}

#[test]
fn decimal_notation() {
    let mut s = String::from("n=");
    push_decimal(&mut s, 4294967295);
    assert_eq!(s, "n=4294967295");
    let mut z = String::new();
    push_decimal(&mut z, 0);
    assert_eq!(z, "0");
}

#[test]
fn color_keeps_five_bits_per_channel() {
    assert_eq!(u32::from(Color { red: 31, green: 31, blue: 31 }), 0x7fff);
    assert_eq!(u32::from(Color { red: 1, green: 2, blue: 3 }), 1024 + 64 + 3);
    assert_eq!(u32::from(Color { red: 255, green: 0, blue: 0 }), 31 << 10);
    assert_eq!(u32::from(Color { red: 32, green: 33, blue: 64 }), 32);
}

#[test]
fn render_text_call_arguments() {
    let call = render_text(10, 20, TextPalette::Yellow, "Hi");
    assert_eq!(call.text, vec![b'H', b'i', 0]);
    assert_eq!(call.pos_x, 10);
    assert_eq!(call.pos_y, 20);
    assert_eq!(call.palette, 9);
    let empty = render_text(0, 0, TextPalette::Unknown(99), "");
    assert_eq!(empty.text, vec![0]);
    assert_eq!(empty.palette, 99);
}

#[test]
fn render_rectangle_call_arguments() {
    let call = render_rectangle(Color { red: 31, green: 0, blue: 0 }, 1, 2, 3, 4, true);
    assert_eq!(call.color, 31 << 10);
    assert_eq!((call.pos_x, call.pos_y, call.width, call.height), (1, 2, 3, 4));
    assert_eq!(call.mode, 0x3d);
    let opaque = render_rectangle(Color { red: 0, green: 0, blue: 1 }, 0, 0, 0, 0, false);
    assert_eq!(opaque.mode, 0x35);
    assert_eq!(opaque.color, 1);
}
