use macrotis::color::Color;
use macrotis::color::FormatError;

#[test]
fn parses_six_digits_as_opaque() {
    let color = Color::from_str("#1e1e2e").unwrap();
    assert_eq!(color, Color::new(0x1e, 0x1e, 0x2e, 0xff));
    assert_eq!(color.to_string(), "#1e1e2eff");
}

#[test]
fn parses_eight_digits_with_alpha() {
    let color = Color::from_str("#6c708688").unwrap();
    assert_eq!(color, Color::new(0x6c, 0x70, 0x86, 0x88));
    assert_eq!(color.to_string(), "#6c708688");
}

#[test]
fn hash_is_optional() {
    assert_eq!(Color::from_str("00aaccff"), Ok(Color::new(0x00, 0xaa, 0xcc, 0xff)));
    assert_eq!(Color::from_str("#00aaccff"), Ok(Color::new(0x00, 0xaa, 0xcc, 0xff)));
    assert_eq!(Color::from_str("cba6f7"), Ok(Color::new(0xcb, 0xa6, 0xf7, 0xff)));
}

#[test]
fn only_one_hash_is_stripped() {
    assert_eq!(Color::from_str("##0aacc"), Err(FormatError::NotHexadecimal));
    assert_eq!(Color::from_str("##00aacc"), Err(FormatError::WrongLength));
    assert_eq!(Color::from_str("##00aaccff"), Err(FormatError::WrongLength));
}

#[test]
fn upper_case_digits_are_written_in_lower_case() {
    let color = Color::from_str("#ABCDEF12").unwrap();
    assert_eq!(color, Color::new(0xab, 0xcd, 0xef, 0x12));
    assert_eq!(color.to_string(), "#abcdef12");
    assert_eq!(Color::from_str("D20F39").unwrap().to_string(), "#d20f39ff");
}

#[test]
fn format_pads_with_zeros() {
    assert_eq!(Color::new(0, 1, 10, 15).to_string(), "#00010a0f");
    assert_eq!(Color::new(255, 16, 160, 0).to_string(), "#ff10a000");
}

#[test]
fn wrong_length_is_refused() {
    for text in ["", "#", "1", "12345", "#12345", "1234567", "123456789", "#123456789"] {
        assert_eq!(Color::from_str(text), Err(FormatError::WrongLength));
    }
}

#[test]
fn other_characters_are_refused() {
    for text in ["gggggg", "#12345g", "1234567z", "+a+b+c", "aabbccZZ", " aabbc", "aabbc\u{e9}"] {
        assert_eq!(Color::from_str(text), Err(FormatError::NotHexadecimal));
    }
}

#[test]
fn error_messages() {
    assert_eq!(
        FormatError::WrongLength.message(),
        "Hex color must be axactly 8 characters long, e.g. 00aaccff"
    );
    assert_eq!(
        FormatError::NotHexadecimal.message(),
        "All chars must be hexadecimal, e.g. 00aaccff"
    );
}

#[test]
fn default_color_is_opaque_black() {
    assert_eq!(Color::default(), Color::new(0, 0, 0, 255));
    assert_eq!(Color::default().to_string(), "#000000ff");
}

#[test]
fn text_of_a_color_reads_back_as_the_color() {
    for r in [0u8, 1, 15, 16, 127, 128, 254, 255] {
        for a in [0u8, 9, 10, 99, 255] {
            let color = Color::new(r, a, r ^ a, a);
            assert_eq!(Color::from_str(&color.to_string()), Ok(color));
        }
    }
}
