use lowpoly::color::{mix_colors, Color};

#[test]
fn new_keeps_the_channels() {
    let color = Color::new(1, 2, 3);
    assert_eq!((color.r, color.g, color.b), (1, 2, 3));
}

#[test]
fn hex_code_is_read() {
    let color = Color::from_hex_code("#2980b9").unwrap();
    assert_eq!((color.r, color.g, color.b), (0x29, 0x80, 0xb9));
}

#[test]
fn hex_code_is_read_in_upper_and_mixed_case() {
    assert_eq!(Color::from_hex_code("#2980B9"), Some(Color::new(0x29, 0x80, 0xb9)));
    assert_eq!(Color::from_hex_code("#aBcDeF"), Some(Color::new(0xab, 0xcd, 0xef)));
    assert_eq!(Color::from_hex_code("#000000"), Some(Color::new(0, 0, 0)));
    assert_eq!(Color::from_hex_code("#ffffff"), Some(Color::new(255, 255, 255)));
}

#[test]
fn hex_code_of_wrong_length_is_rejected() {
    assert_eq!(Color::from_hex_code(""), None);
    assert_eq!(Color::from_hex_code("#"), None);
    assert_eq!(Color::from_hex_code("#fff"), None);
    assert_eq!(Color::from_hex_code("#fffff"), None);
    assert_eq!(Color::from_hex_code("#fffffff"), None);
}

#[test]
fn hex_code_without_hash_is_rejected() {
    assert_eq!(Color::from_hex_code("2980b9f"), None);
    assert_eq!(Color::from_hex_code("02980b9"), None);
    assert_eq!(Color::from_hex_code(" 2980b9"), None);
}

#[test]
fn hex_code_with_other_characters_is_rejected() {
    assert_eq!(Color::from_hex_code("#2980bg"), None);
    assert_eq!(Color::from_hex_code("#29 0b9"), None);
    assert_eq!(Color::from_hex_code("#-12345"), None);
    assert_eq!(Color::from_hex_code("#G00000"), None);
    assert_eq!(Color::from_hex_code("#00000`"), None);
    assert_eq!(Color::from_hex_code("#00000@"), None);
    assert_eq!(Color::from_hex_code("#0000/0"), None);
    assert_eq!(Color::from_hex_code("#0000:0"), None);
}

#[test]
fn hex_code_with_a_sign_is_rejected() {
    assert_eq!(Color::from_hex_code("#+1+2+3"), None);
}

#[test]
fn hex_code_with_characters_of_several_bytes_is_rejected() {
    assert_eq!(Color::from_hex_code("#é1234"), None);
    assert_eq!(Color::from_hex_code("#1é234"), None);
    assert_eq!(Color::from_hex_code("#12345é"), None);
    assert_eq!(Color::from_hex_code("é123456"), None);
}

#[test]
fn hex_code_is_written_in_lower_case_with_leading_zeros() {
    assert_eq!(Color::new(0x29, 0x80, 0xb9).to_hex_code(), "#2980b9");
    assert_eq!(Color::new(0, 0x0a, 0x0f).to_hex_code(), "#000a0f");
    assert_eq!(Color::new(255, 255, 255).to_hex_code(), "#ffffff");
    assert_eq!(Color::new(0xab, 0xcd, 0xef).to_hex_code(), "#abcdef");
}

#[test]
fn writing_and_reading_gives_the_colour_again() {
    for value in 0..=255u8 {
        let color = Color::new(value, 255 - value, value ^ 0x5a);
        assert_eq!(Color::from_hex_code(&color.to_hex_code()), Some(color));
    }
}

#[test]
fn blend_at_the_left_edge_is_the_start_colour() {
    assert_eq!(mix_colors("#000000", "#ffffff", 0, 800), Some(String::from("#000000")));
    assert_eq!(mix_colors("#2980b9", "#ffffff", 0, 800), Some(String::from("#2980b9")));
}

#[test]
fn blend_at_the_right_edge_is_the_end_colour() {
    assert_eq!(mix_colors("#000000", "#ffffff", 800, 800), Some(String::from("#ffffff")));
    assert_eq!(mix_colors("#2980b9", "#fedcba", 800, 800), Some(String::from("#fedcba")));
}

#[test]
fn blend_at_the_middle_of_the_canvas() {
    assert_eq!(mix_colors("#000000", "#ffffff", 400, 800), Some(String::from("#7f7f7f")));
}

#[test]
fn blend_rounds_each_channel_down() {
    // (41 * 600 + 255 * 200) / 800 = 94.5, (128 * 600 + 255 * 200) / 800 = 159.75,
    // (185 * 600 + 255 * 200) / 800 = 202.5
    assert_eq!(mix_colors("#2980b9", "#ffffff", 200, 800), Some(String::from("#5e9fca")));
    let mixed = Color::new(41, 128, 185).mix(&Color::new(255, 255, 255), 200, 800);
    assert_eq!((mixed.r, mixed.g, mixed.b), (94, 159, 202));
}

#[test]
fn blend_beyond_the_right_edge_saturates() {
    assert_eq!(mix_colors("#000000", "#ffffff", 1600, 800), Some(String::from("#ffffff")));
    assert_eq!(mix_colors("#ffffff", "#000000", 1600, 800), Some(String::from("#000000")));
    assert_eq!(mix_colors("#102030", "#405060", 1200, 800), Some(String::from("#586878")));
    let far = Color::new(1, 200, 3).mix(&Color::new(2, 100, 255), u32::MAX, 1);
    assert_eq!((far.r, far.g, far.b), (255, 0, 255));
}

#[test]
fn blend_without_a_width_is_black() {
    assert_eq!(mix_colors("#2980b9", "#ffffff", 0, 0), Some(String::from("#000000")));
    assert_eq!(mix_colors("#2980b9", "#ffffff", 17, 0), Some(String::from("#000000")));
}

#[test]
fn blend_of_a_malformed_colour_is_refused() {
    assert_eq!(mix_colors("2980b9", "#ffffff", 400, 800), None);
    assert_eq!(mix_colors("#2980b9", "#fffff", 400, 800), None);
    assert_eq!(mix_colors("#29x0b9", "#ffffzz", 400, 800), None);
}
