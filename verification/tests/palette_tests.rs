use rugby::color::{Color, LogicalColor};
use rugby::palette::{get_color, hex_to_rgb, is_readable_hex, order_palettes, palette_from_colors, Palette};

fn colors(codes: &[&str]) -> Vec<String> {
    codes.iter().map(|c| c.to_string()).collect()
}

fn grey_palette(name: &str, shade: u8) -> Palette {
    Palette { name: name.to_string(), colors: [(shade, shade, shade); 4] }
}

#[test]
fn hex_codes_are_read_as_three_bytes() {
    assert_eq!(hex_to_rgb("#FF8000"), Some((255, 128, 0)));
    assert_eq!(hex_to_rgb("#0f1e2d"), Some((15, 30, 45)));
    assert_eq!(hex_to_rgb("#123"), None);
    assert_eq!(hex_to_rgb("#1234567"), None);
}

#[test]
fn a_plus_sign_reads_like_a_leading_zero() {
    assert!(is_readable_hex("#+F+F+F"));
    assert_eq!(hex_to_rgb("#+F+F+F"), Some((15, 15, 15)));
}

#[test]
fn unreadable_codes_are_detected() {
    assert!(!is_readable_hex("#GG0000"));
    assert!(!is_readable_hex("#00-100"));
    assert!(is_readable_hex("#00FF00"));
    assert!(is_readable_hex("short"));
}

#[test]
fn palettes_take_four_colors_and_a_readable_name() {
    let p = palette_from_colors("game_boy_pocket", &colors(&["#FFFFFF", "#AAAAAA", "#555555", "#000000"]));
    assert_eq!(p.name, "game boy pocket");
    assert_eq!(p.colors, [(255, 255, 255), (170, 170, 170), (85, 85, 85), (0, 0, 0)]);
}

#[test]
fn malformed_codes_fall_back_to_defaults() {
    let p = palette_from_colors("x", &colors(&["white", "", "#12", "black"]));
    assert_eq!(p.colors, [(0, 0, 0), (211, 211, 211), (90, 90, 90), (0, 0, 0)]);
}

#[test]
fn ordering_rotates_the_selected_palette_to_the_front() {
    let names = colors(&["a", "b", "c", "d"]);
    let palettes = vec![grey_palette("a", 1), grey_palette("b", 2), grey_palette("c", 3), grey_palette("d", 4)];
    let ordered = order_palettes(&names, palettes, &"c".to_string());
    let order: Vec<String> = ordered.iter().map(|p| p.name.clone()).collect();
    assert_eq!(order, colors(&["c", "d", "a", "b"]));
    assert_eq!(ordered[0].colors[0], (3, 3, 3));
}

#[test]
fn ordering_keeps_the_list_without_a_match() {
    let names = colors(&["a", "b"]);
    let palettes = vec![grey_palette("a", 1), grey_palette("b", 2)];
    let ordered = order_palettes(&names, palettes, &"z".to_string());
    let order: Vec<String> = ordered.iter().map(|p| p.name.clone()).collect();
    assert_eq!(order, colors(&["a", "b"]));
}

#[test]
fn ordering_uses_the_first_matching_key() {
    let names = colors(&["a", "b", "b"]);
    let palettes = vec![grey_palette("a", 1), grey_palette("b", 2), grey_palette("b2", 3)];
    let ordered = order_palettes(&names, palettes, &"b".to_string());
    assert_eq!(ordered[0].colors[0], (2, 2, 2));
    assert_eq!(ordered[2].colors[0], (1, 1, 1));
}

#[test]
fn shades_take_the_palette_colors() {
    let palettes = vec![Palette { name: "p".to_string(), colors: [(1, 1, 1), (2, 2, 2), (3, 3, 3), (4, 4, 4)] }];
    assert_eq!(get_color(&palettes, 0, &Color::Logical(LogicalColor::White)), (1, 1, 1));
    assert_eq!(get_color(&palettes, 0, &Color::Logical(LogicalColor::LightGray)), (2, 2, 2));
    assert_eq!(get_color(&palettes, 0, &Color::Logical(LogicalColor::DarkGray)), (3, 3, 3));
    assert_eq!(get_color(&palettes, 0, &Color::Logical(LogicalColor::Black)), (4, 4, 4));
}

#[test]
fn color_console_values_are_widened() {
    let palettes = vec![grey_palette("p", 0)];
    assert_eq!(get_color(&palettes, 0, &Color::RGB(0x7FFF)), (255, 255, 255));
    assert_eq!(get_color(&palettes, 0, &Color::RGB(0x001F)), (255, 0, 0));
    assert_eq!(get_color(&palettes, 0, &Color::RGB(0x03E0)), (0, 255, 0));
    assert_eq!(get_color(&palettes, 0, &Color::RGB(0x7C00)), (0, 0, 255));
    assert_eq!(get_color(&palettes, 0, &Color::RGB(0x0010)), (132, 0, 0));
}

#[test]
fn formatted_colors_read_back() {
    for &(r, g, b) in &[(0u8, 0u8, 0u8), (255, 255, 255), (0x12, 0xAB, 0xF0), (9, 10, 160)] {
        assert_eq!(rugby::palette::hex_to_rgb(&format!("#{:02x}{:02x}{:02x}", r, g, b)), Some((r, g, b)));
        assert_eq!(rugby::palette::hex_to_rgb(&format!("#{:02X}{:02X}{:02X}", r, g, b)), Some((r, g, b)));
    }
}
